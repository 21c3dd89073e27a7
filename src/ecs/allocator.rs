use std::collections::VecDeque;

use vstd::prelude::*;

use crate::ecs::{Entity, Generation, ZeroableGeneration};

verus! {

/// Hands out entities and recycles the ids of dead ones.
///
/// Each slot id has a generation: zero before its first allocation, then
/// `1, -1, 2, -2, ...` as it is allocated and killed in turn. Ids of dead
/// slots wait in a first-in first-out queue for reuse; fresh ids are minted
/// from `0` upward only when that queue is empty.
pub struct Allocator {
    generations: Vec<Option<Generation>>,
    cache: VecDeque<i32>,
    next_id: i32,
}

impl Allocator {
    /// The generation recorded for slot `id`: zero when it was never
    /// allocated, positive while alive, negative once dead.
    pub closed spec fn generation_of(self, id: int) -> int {
        if 0 <= id < self.generations@.len() {
            self.generations@[id].value()
        } else {
            0
        }
    }

    /// The ids waiting for reuse, oldest first.
    pub closed spec fn free_ids(self) -> Seq<int> {
        self.cache@.map_values(|id: i32| id as int)
    }

    /// The id that the next allocation mints when no id waits for reuse.
    pub closed spec fn next_fresh(self) -> int {
        self.next_id as int
    }

    /// The allocator's invariant: the ids below `next_fresh` are exactly the
    /// slots that were ever allocated, and the free queue holds each dead
    /// slot exactly once.
    pub closed spec fn wf(self) -> bool {
        &&& 0 <= self.next_id
        &&& self.generations@.len() == self.next_id
        &&& forall|id: int| 0 <= id < self.next_id ==> #[trigger] self.generation_of(id) != 0
        &&& forall|i: int|
            0 <= i < self.cache@.len() ==> {
                &&& 0 <= #[trigger] self.cache@[i] < self.next_id
                &&& self.generation_of(self.cache@[i] as int) < 0
            }
        &&& forall|i: int, j: int|
            0 <= i < j < self.cache@.len() ==> self.cache@[i] != self.cache@[j]
        &&& forall|id: int|
            0 <= id < self.next_id && #[trigger] self.generation_of(id) < 0 ==> self.cache@.contains(
                id as i32,
            )
    }

    /// `e` is a handle on a living entity of this allocator.
    pub open spec fn is_alive_spec(self, e: Entity) -> bool {
        e.spec_generation()@ > 0 && self.generation_of(e.slot()) == e.spec_generation()@
    }

    /// The id that the next allocation uses.
    pub open spec fn next_slot(self) -> int {
        if self.free_ids().len() > 0 {
            self.free_ids()[0]
        } else {
            self.next_fresh()
        }
    }

    /// The next allocation stays within the range of ids and generations.
    pub open spec fn can_allocate(self) -> bool {
        if self.free_ids().len() > 0 {
            self.generation_of(self.free_ids()[0]) > i32::MIN + 1
        } else {
            self.next_fresh() < i32::MAX
        }
    }

    /// `next` is this allocator after an allocation that returned `e`.
    pub open spec fn allocated(self, next: Allocator, e: Entity) -> bool {
        &&& e.slot() == self.next_slot()
        &&& e.spec_generation()@ == 1 - self.generation_of(e.slot())
        &&& forall|id: int|
            #[trigger] next.generation_of(id) == if id == e.slot() {
                e.spec_generation()@
            } else {
                self.generation_of(id)
            }
        &&& next.free_ids() == if self.free_ids().len() > 0 {
            self.free_ids().drop_first()
        } else {
            self.free_ids()
        }
        &&& next.next_fresh() == if self.free_ids().len() > 0 {
            self.next_fresh()
        } else {
            self.next_fresh() + 1
        }
    }

    /// `next` is this allocator after killing `e`.
    pub open spec fn killed(self, next: Allocator, e: Entity) -> bool {
        &&& forall|id: int|
            #[trigger] next.generation_of(id) == if id == e.slot() {
                -self.generation_of(id)
            } else {
                self.generation_of(id)
            }
        &&& next.free_ids() == self.free_ids().push(e.slot())
        &&& next.next_fresh() == self.next_fresh()
    }

    /// `next` is this allocator after killing the entities of `es` in order.
    pub open spec fn killed_all(self, next: Allocator, es: Seq<Entity>) -> bool {
        &&& forall|id: int|
            #[trigger] next.generation_of(id) == if exists|i: int|
                0 <= i < es.len() && (#[trigger] es[i]).slot() == id {
                -self.generation_of(id)
            } else {
                self.generation_of(id)
            }
        &&& next.free_ids() == self.free_ids() + es.map_values(|e: Entity| e.slot())
        &&& next.next_fresh() == self.next_fresh()
    }

    /// Only the slots below `next_fresh` were ever allocated, and each of
    /// them was.
    pub proof fn lemma_allocated_range(self, id: int)
        requires
            self.wf(),
        ensures
            self.generation_of(id) != 0 <==> 0 <= id < self.next_fresh(),
            self.next_fresh() <= i32::MAX,
    {
    }

    /// An allocator that has allocated nothing.
    pub fn new() -> (r: Self)
        ensures
            r.wf(),
            r.next_fresh() == 0,
            r.free_ids() == Seq::<int>::empty(),
            forall|id: int| #[trigger] r.generation_of(id) == 0,
    {
        let r = Self { generations: Vec::new(), cache: VecDeque::new(), next_id: 0 };
        assert(r.free_ids() =~= Seq::<int>::empty());
        r
    }

    /// Allocates an entity: reuses the id that has waited longest, or mints a
    /// fresh one, and raises the slot's generation.
    pub fn allocate(&mut self) -> (r: Entity)
        requires
            old(self).wf(),
            old(self).can_allocate(),
        ensures
            final(self).wf(),
            old(self).allocated(*final(self), r),
            final(self).is_alive_spec(r),
    {
        let ghost pre = *self;
        let id: i32 = match self.cache.pop_front() {
            Some(id) => id,
            None => {
                let id = self.next_id;
                self.next_id = self.next_id + 1;
                id
            },
        };
        proof {
            if pre.cache@.len() > 0 {
                assert(pre.cache@[0] == id);
                assert(self.cache@ =~= pre.cache@.drop_first());
            }
        }
        self.update_generation_length(id as usize);
        let generation = self.generations[id as usize].raise();
        self.generations.set(id as usize, Some(generation));
        let r = Entity::new(generation, id);
        proof {
            assert forall|k: int| #[trigger]
                self.generation_of(k) == if k == id as int {
                    generation@
                } else {
                    pre.generation_of(k)
                } by {}
            if pre.cache@.len() > 0 {
                assert(self.free_ids() =~= pre.free_ids().drop_first());
                assert forall|k: int|
                    0 <= k < self.next_id && #[trigger] self.generation_of(k) < 0 implies self.cache@.contains(
                    k as i32,
                ) by {
                    assert(pre.generation_of(k) < 0);
                    assert(pre.cache@.contains(k as i32));
                    let j = choose|j: int| 0 <= j < pre.cache@.len() && pre.cache@[j] == k as i32;
                    assert(j != 0);
                    assert(self.cache@[j - 1] == k as i32);
                }
            } else {
                assert(self.free_ids() =~= pre.free_ids());
            }
        }
        r
    }

    /// Whether `entity` is a handle on a living entity of this allocator.
    pub fn is_alive(&self, entity: Entity) -> (r: bool)
        requires
            self.wf(),
        ensures
            r == self.is_alive_spec(entity),
    {
        let g = entity.generation();
        let id = entity.id();
        g.is_alive() && 0 <= id && (id as usize) < self.generations.len()
            && self.get_generation(entity).id() == g.id()
    }

    /// Kills a living entity; its id waits for reuse.
    pub fn kill(&mut self, entity: Entity)
        requires
            old(self).wf(),
            old(self).is_alive_spec(entity),
        ensures
            final(self).wf(),
            old(self).killed(*final(self), entity),
    {
        let ghost pre = *self;
        let id = entity.id();
        let recorded = self.generations[id as usize];
        self.generations.set(id as usize, Some(recorded.die()));
        self.cache.push_back(id);
        proof {
            assert(self.free_ids() =~= pre.free_ids().push(entity.slot()));
            assert forall|k: int| #[trigger]
                self.generation_of(k) == if k == entity.slot() {
                    -pre.generation_of(k)
                } else {
                    pre.generation_of(k)
                } by {}
            assert forall|k: int|
                0 <= k < self.next_id && #[trigger] self.generation_of(k) < 0 implies self.cache@.contains(
                k as i32,
            ) by {
                if k == id as int {
                    assert(self.cache@[self.cache@.len() - 1] == id);
                } else {
                    assert(pre.cache@.contains(k as i32));
                    let j = choose|j: int| 0 <= j < pre.cache@.len() && pre.cache@[j] == k as i32;
                    assert(self.cache@[j] == k as i32);
                }
            }
            assert forall|i: int, j: int|
                0 <= i < j < self.cache@.len() implies self.cache@[i] != self.cache@[j] by {
                if j == self.cache@.len() - 1 {
                    assert(pre.generation_of(pre.cache@[i] as int) < 0);
                }
            }
        }
    }

    /// Kills each of `entities` in order; each must be alive when its turn
    /// comes, so all must be alive and no two may share a slot.
    pub fn kill_many(&mut self, entities: &[Entity])
        requires
            old(self).wf(),
            forall|i: int| 0 <= i < entities@.len() ==> old(self).is_alive_spec(#[trigger] entities@[i]),
            forall|i: int, j: int|
                0 <= i < j < entities@.len() ==> entities@[i].slot() != entities@[j].slot(),
        ensures
            final(self).wf(),
            old(self).killed_all(*final(self), entities@),
    {
        let ghost pre = *self;
        let mut k: usize = 0;
        while k < entities.len()
            invariant
                k <= entities@.len(),
                self.wf(),
                pre.killed_all(*self, entities@.take(k as int)),
                forall|i: int| 0 <= i < entities@.len() ==> pre.is_alive_spec(#[trigger] entities@[i]),
                forall|i: int, j: int|
                    0 <= i < j < entities@.len() ==> entities@[i].slot() != entities@[j].slot(),
            decreases entities@.len() - k,
        {
            let entity = entities[k];
            let ghost mid = *self;
            proof {
                assert(!exists|i: int|
                    0 <= i < entities@.take(k as int).len() && (#[trigger] entities@.take(
                        k as int,
                    )[i]).slot() == entity.slot());
                assert(mid.generation_of(entity.slot()) == pre.generation_of(entity.slot()));
            }
            self.kill(entity);
            proof {
                let done = entities@.take(k as int);
                let now = entities@.take(k + 1);
                assert(now =~= done.push(entity));
                assert(now.map_values(|e: Entity| e.slot()) =~= done.map_values(
                    |e: Entity| e.slot(),
                ).push(entity.slot()));
                assert(self.free_ids() =~= pre.free_ids() + now.map_values(|e: Entity| e.slot()));
                assert forall|id: int| #[trigger]
                    self.generation_of(id) == if exists|i: int|
                        0 <= i < now.len() && (#[trigger] now[i]).slot() == id {
                        -pre.generation_of(id)
                    } else {
                        pre.generation_of(id)
                    } by {
                    if id == entity.slot() {
                        assert(now[k as int].slot() == id);
                    } else if exists|i: int| 0 <= i < now.len() && (#[trigger] now[i]).slot() == id {
                        let i = choose|i: int| 0 <= i < now.len() && (#[trigger] now[i]).slot() == id;
                        assert(done[i].slot() == id);
                    } else {
                        assert forall|i: int| 0 <= i < done.len() implies (#[trigger] done[i]).slot()
                            != id by {
                            assert(now[i] == done[i]);
                        }
                    }
                }
            }
            k = k + 1;
        }
        proof {
            assert(entities@.take(k as int) =~= entities@);
        }
    }

    /// The generation recorded for the slot of `entity`, reading an absent
    /// one as the first generation.
    fn get_generation(&self, entity: Entity) -> (r: Generation)
        requires
            self.wf(),
        ensures
            0 <= entity.slot() < self.next_fresh() ==> r@ == self.generation_of(entity.slot()),
            !(0 <= entity.slot() < self.next_fresh()) ==> r@ == 1,
    {
        let id = entity.id();
        if id < 0 || self.generations.len() <= id as usize {
            return Generation::one();
        }
        match self.generations[id as usize] {
            Some(generation) => generation,
            None => Generation::one(),
        }
    }

    /// Grows the table of generations with absent entries so that it covers
    /// `desired_length`.
    fn update_generation_length(&mut self, desired_length: usize)
        requires
            desired_length <= old(self).generations@.len(),
        ensures
            final(self).generations@ == (if desired_length < old(self).generations@.len() {
                old(self).generations@
            } else {
                old(self).generations@.push(None)
            }),
            final(self).cache@ == old(self).cache@,
            final(self).next_id == old(self).next_id,
    {
        if self.generations.len() <= desired_length {
            self.generations.push(None);
        }
    }
}

/// The `n`-th term of `0, 1, -1, 2, -2, 3, -3, ...`: the generation of a
/// slot after `n` allocations and kills of it.
pub open spec fn nth_generation(n: nat) -> int {
    if n % 2 == 1 {
        ((n + 1) / 2) as int
    } else {
        -(n / 2)
    }
}

/// How many of `handles` have slot `id`.
pub open spec fn changes_to(handles: Seq<Entity>, id: int) -> nat
    decreases handles.len(),
{
    if handles.len() == 0 {
        0
    } else {
        changes_to(handles.drop_last(), id) + if handles.last().slot() == id {
            1nat
        } else {
            0nat
        }
    }
}

/// `states` is a run of an allocator: step `i` allocates `handles[i]` when
/// `allocs[i]` holds, and kills the living `handles[i]` otherwise.
pub open spec fn is_run(states: Seq<Allocator>, handles: Seq<Entity>, allocs: Seq<bool>) -> bool {
    &&& states.len() == handles.len() + 1
    &&& allocs.len() == handles.len()
    &&& forall|i: int| 0 <= i < states.len() ==> (#[trigger] states[i]).wf()
    &&& forall|i: int|
        0 <= i < handles.len() ==> if #[trigger] allocs[i] {
            states[i].allocated(states[i + 1], handles[i])
        } else {
            states[i].is_alive_spec(handles[i]) && states[i].killed(states[i + 1], handles[i])
        }
}

/// Generations only grow in magnitude: along any run that starts with a
/// slot never allocated, the slot's generation after its `n`-th allocation
/// or kill is the `n`-th term of `1, -1, 2, -2, ...`.
pub proof fn lemma_generation_monotonic(
    states: Seq<Allocator>,
    handles: Seq<Entity>,
    allocs: Seq<bool>,
    id: int,
)
    requires
        is_run(states, handles, allocs),
        states[0].generation_of(id) == 0,
    ensures
        states.last().generation_of(id) == nth_generation(changes_to(handles, id)),
    decreases handles.len(),
{
    if handles.len() > 0 {
        let n = handles.len() - 1;
        let (s, h, a) = (states.drop_last(), handles.drop_last(), allocs.drop_last());
        assert(is_run(s, h, a)) by {
            assert forall|i: int| 0 <= i < h.len() implies if #[trigger] a[i] {
                s[i].allocated(s[i + 1], h[i])
            } else {
                s[i].is_alive_spec(h[i]) && s[i].killed(s[i + 1], h[i])
            } by {
                assert(allocs[i] == a[i]);
            }
        }
        lemma_generation_monotonic(s, h, a, id);
        let c = changes_to(h, id);
        let before = states[n];
        let after = states[n + 1];
        assert(s.last() == before);
        assert(handles.drop_last() == h);
        assert(allocs[n] ==> before.allocated(after, handles[n]));
        if handles[n].slot() == id {
            if allocs[n] {
                lemma_next_slot_unoccupied(before);
                assert(c % 2 == 0);
            } else {
                assert(c % 2 == 1);
            }
        }
    }
}

/// The slot that the next allocation takes holds no living entity.
pub proof fn lemma_next_slot_unoccupied(a: Allocator)
    requires
        a.wf(),
    ensures
        a.generation_of(a.next_slot()) <= 0,
{
    if a.free_ids().len() > 0 {
        assert(a.cache@[0] as int == a.free_ids()[0]);
    }
}

/// A recycled slot does not alias: after `e1` is allocated and killed and
/// `e2` is allocated into the same slot, only `e2` is alive and the two
/// handles differ.
pub proof fn lemma_no_aliasing(a: Allocator, b: Allocator, c: Allocator, d: Allocator, e1: Entity, e2: Entity)
    requires
        a.wf(),
        a.allocated(b, e1),
        b.killed(c, e1),
        c.allocated(d, e2),
        e2.slot() == e1.slot(),
    ensures
        !d.is_alive_spec(e1),
        d.is_alive_spec(e2),
        e1 != e2,
{
    lemma_next_slot_unoccupied(a);
    assert(d.generation_of(e1.slot()) == e1.spec_generation()@ + 1);
}

} // verus!
