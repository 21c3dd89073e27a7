use peacock::ecs::{Component, ComponentType, Entity, World, DEFAULT_STORAGE_CAPACITY};

#[derive(Debug, Clone, PartialEq)]
enum Part {
    Position(i32, i32),
    Velocity(i32, i32),
    Name(String),
}

impl Component for Part {}

const POSITION: ComponentType = 1;
const VELOCITY: ComponentType = 2;
const NAME: ComponentType = 3;

fn spawn(world: &mut World<Part>) -> Entity {
    world.create_entity().build(world)
}

#[test]
fn stale_handles_see_nothing_after_recycling() {
    let mut world = World::new();
    let e0 = spawn(&mut world);
    let e1 = spawn(&mut world);
    let e2 = spawn(&mut world);
    assert_eq!((e0.id(), e1.id(), e2.id()), (0, 1, 2));
    assert_eq!(e1.generation().id(), 1);
    world.attach_component(e1, POSITION, Part::Position(0, 0));
    world.kill_entity(e1);
    let e3 = world.create_entity().with(POSITION, Part::Position(5, 5)).build(&mut world);
    assert_eq!(e3.id(), 1);
    assert_eq!(e3.generation().id(), 2);
    assert_eq!(world.get_component(e1, POSITION), None);
    assert_eq!(world.get_component(e3, POSITION), Some(&Part::Position(5, 5)));
}

#[test]
fn attaching_touches_one_component_only() {
    let mut world = World::new();
    let x = world.create_entity().with(VELOCITY, Part::Velocity(1, 1)).build(&mut world);
    let y = world.create_entity().with(POSITION, Part::Position(7, 7)).build(&mut world);
    world.attach_component(x, POSITION, Part::Position(2, 3));
    assert_eq!(world.get_component(x, POSITION), Some(&Part::Position(2, 3)));
    assert_eq!(world.get_component(x, VELOCITY), Some(&Part::Velocity(1, 1)));
    assert_eq!(world.get_component(y, POSITION), Some(&Part::Position(7, 7)));
    assert!(!world.has_component(y, VELOCITY));
}

#[test]
fn attaching_replaces_an_earlier_value() {
    let mut world = World::new();
    let x = spawn(&mut world);
    world.attach_component(x, NAME, Part::Name("a".to_string()));
    world.attach_component(x, NAME, Part::Name("b".to_string()));
    assert_eq!(world.get_component(x, NAME), Some(&Part::Name("b".to_string())));
}

#[test]
fn attaching_to_a_dead_entity_does_nothing() {
    let mut world = World::new();
    let x = spawn(&mut world);
    world.kill_entity(x);
    world.attach_component(x, POSITION, Part::Position(1, 1));
    let y = spawn(&mut world);
    assert_eq!(y.id(), x.id());
    assert!(!world.has_component(x, POSITION));
    assert!(!world.has_component(y, POSITION));
}

#[test]
fn built_entities_have_all_staged_components_at_once() {
    let mut world = World::new();
    let e = world
        .create_entity()
        .with(POSITION, Part::Position(1, 2))
        .with(VELOCITY, Part::Velocity(3, 4))
        .build(&mut world);
    assert_eq!(world.get_component(e, POSITION), Some(&Part::Position(1, 2)));
    assert_eq!(world.get_component(e, VELOCITY), Some(&Part::Velocity(3, 4)));
    assert_eq!(world.get_component(e, NAME), None);
    assert_eq!(world.entities(), vec![e]);
}

#[test]
fn staging_a_type_twice_keeps_the_last_value() {
    let mut world = World::new();
    let e = world
        .create_entity()
        .with(POSITION, Part::Position(1, 1))
        .with(POSITION, Part::Position(9, 9))
        .build(&mut world);
    assert_eq!(world.get_component(e, POSITION), Some(&Part::Position(9, 9)));
}

#[test]
fn a_builder_never_built_leaves_the_world_alone() {
    let mut world: World<Part> = World::new();
    let unused = world.create_entity().with(POSITION, Part::Position(1, 1));
    drop(unused);
    assert!(world.entities().is_empty());
    let e = spawn(&mut world);
    assert_eq!(e.id(), 0);
    assert!(!world.has_component(e, POSITION));
}

#[test]
fn killing_sweeps_every_column_and_the_live_list() {
    let mut world = World::new();
    let keep = spawn(&mut world);
    let x = world
        .create_entity()
        .with(POSITION, Part::Position(0, 0))
        .with(VELOCITY, Part::Velocity(0, 0))
        .with(NAME, Part::Name("x".to_string()))
        .build(&mut world);
    let after = spawn(&mut world);
    world.kill_entity(x);
    assert!(!world.has_component(x, POSITION));
    assert!(!world.has_component(x, VELOCITY));
    assert!(!world.has_component(x, NAME));
    assert_eq!(world.entities(), vec![keep, after]);
    let reused = spawn(&mut world);
    assert_eq!(reused.id(), x.id());
    assert!(!world.has_component(reused, NAME));
}

#[test]
fn removing_twice_is_harmless_and_absent_types_read_as_absent() {
    let mut world = World::new();
    let x = world.create_entity().with(POSITION, Part::Position(4, 4)).build(&mut world);
    world.remove_component(x, POSITION);
    assert_eq!(world.get_component(x, POSITION), None);
    world.remove_component(x, POSITION);
    assert_eq!(world.get_component(x, POSITION), None);
    world.remove_component(x, NAME);
    assert_eq!(world.get_component(x, NAME), None);
    assert!(!world.has_component(x, 99));
}

#[test]
fn components_change_in_place() {
    let mut world = World::new();
    let x = world.create_entity().with(POSITION, Part::Position(1, 1)).build(&mut world);
    if let Some(Part::Position(px, _)) = world.get_component_mut(x, POSITION) {
        *px = 42;
    }
    assert_eq!(world.get_component(x, POSITION), Some(&Part::Position(42, 1)));
    assert!(world.get_component_mut(x, VELOCITY).is_none());
}

#[test]
fn entity_lists_are_snapshots() {
    let mut world = World::new();
    let a = spawn(&mut world);
    let snapshot = world.entities();
    let b = spawn(&mut world);
    world.kill_entity(a);
    assert_eq!(snapshot, vec![a]);
    assert_eq!(world.entities(), vec![b]);
}

#[test]
fn columns_grow_past_their_first_chunk() {
    let mut world = World::new();
    let mut last = spawn(&mut world);
    for _ in 0..(DEFAULT_STORAGE_CAPACITY + 44) {
        last = spawn(&mut world);
    }
    assert_eq!(last.id(), 300);
    world.attach_component(last, POSITION, Part::Position(3, 0));
    assert_eq!(world.get_component(last, POSITION), Some(&Part::Position(3, 0)));
    assert_eq!(DEFAULT_STORAGE_CAPACITY, 256);
}
