use peacock::ecs::{Allocator, Generation};

#[test]
fn generation_one_is_alive() {
    let g = Generation::one();
    assert_eq!(g.id(), 1);
    assert!(g.is_alive());
}

#[test]
fn generation_new_rejects_zero() {
    assert_eq!(Generation::new(0), Err("Generation ID must be non-zero"));
    assert_eq!(Generation::new(-3).map(|g| g.id()), Ok(-3));
    assert!(!Generation::new(-3).unwrap().is_alive());
}

#[test]
fn generation_dies_and_rises() {
    let g = Generation::new(4).unwrap();
    let dead = g.die();
    assert_eq!(dead.id(), -4);
    assert!(!dead.is_alive());
    let next = dead.raise();
    assert_eq!(next.id(), 5);
    assert!(next.is_alive());
}

#[test]
fn fresh_ids_count_up_from_zero() {
    let mut a = Allocator::new();
    let e0 = a.allocate();
    let e1 = a.allocate();
    let e2 = a.allocate();
    assert_eq!((e0.id(), e1.id(), e2.id()), (0, 1, 2));
    for e in [e0, e1, e2] {
        assert_eq!(e.generation(), Generation::one());
        assert!(a.is_alive(e));
    }
}

#[test]
fn killed_ids_are_reused_oldest_first() {
    let mut a = Allocator::new();
    let e0 = a.allocate();
    let e1 = a.allocate();
    let e2 = a.allocate();
    a.kill(e2);
    a.kill(e0);
    let r1 = a.allocate();
    let r2 = a.allocate();
    let fresh = a.allocate();
    assert_eq!(r1.id(), 2);
    assert_eq!(r2.id(), 0);
    assert_eq!(fresh.id(), 3);
    assert_eq!(r1.generation().id(), 2);
    assert!(a.is_alive(e1));
}

#[test]
fn a_slot_passes_through_rising_generations() {
    let mut a = Allocator::new();
    let mut seen = Vec::new();
    for _ in 0..3 {
        let e = a.allocate();
        assert_eq!(e.id(), 0);
        seen.push(e.generation().id());
        a.kill(e);
        assert!(!a.is_alive(e));
        seen.push(-e.generation().id());
    }
    assert_eq!(seen, vec![1, -1, 2, -2, 3, -3]);
}

#[test]
fn a_recycled_slot_does_not_alias() {
    let mut a = Allocator::new();
    let e1 = a.allocate();
    a.kill(e1);
    let e2 = a.allocate();
    assert_eq!(e2.id(), e1.id());
    assert!(!a.is_alive(e1));
    assert!(a.is_alive(e2));
    assert_ne!(e1, e2);
}

#[test]
fn kill_many_kills_each_in_order() {
    let mut a = Allocator::new();
    let es: Vec<_> = (0..4).map(|_| a.allocate()).collect();
    a.kill_many(&[es[3], es[1]]);
    assert!(a.is_alive(es[0]));
    assert!(!a.is_alive(es[1]));
    assert!(a.is_alive(es[2]));
    assert!(!a.is_alive(es[3]));
    assert_eq!(a.allocate().id(), 3);
    assert_eq!(a.allocate().id(), 1);
    assert_eq!(a.allocate().id(), 4);
}

#[test]
fn handles_from_another_allocator_beyond_its_range_are_not_alive() {
    let mut big = Allocator::new();
    let mut handles = Vec::new();
    for _ in 0..5 {
        handles.push(big.allocate());
    }
    let mut small = Allocator::new();
    small.allocate();
    assert!(small.is_alive(handles[0]));
    assert!(!small.is_alive(handles[4]));
}
