use std::collections::hash_map::Entry;
use std::collections::HashMap;

use vstd::prelude::*;
use vstd::std_specs::iter::IteratorSpec;

use crate::ecs::allocator::lemma_next_slot_unoccupied;
use crate::ecs::{Allocator, Component, Entity, EntityBuilder};

verus! {

/// The key under which one type of component is stored.
pub type ComponentType = u64;

/// Component columns grow by this many slots at a time.
pub const DEFAULT_STORAGE_CAPACITY: usize = 256;

/// The component types that have a column in `m`.
pub(crate) fn keys_of<V>(m: &HashMap<ComponentType, V>) -> (r: Vec<ComponentType>)
    ensures
        forall|t: ComponentType| m@.contains_key(t) <==> r@.contains(t),
{
    let mut r: Vec<ComponentType> = Vec::new();
    let ghost all = vstd::std_specs::hash::spec_keys_iter(m).remaining().unref();
    for t in it: m.keys()
        invariant
            all.to_set() == m@.dom(),
            all == it.seq().unref(),
            r@ == it.seq().take(it.index()).unref(),
        ensures
            r@ == all,
    {
        r.push(*t);
        proof {
            assert(it.seq().take(it.index() + 1).unref() =~= it.seq().take(it.index()).unref().push(*t));
        }
    }
    r
}

/// Holds of every entity but `e`.
pub open spec fn other_than(e: Entity) -> spec_fn(Entity) -> bool {
    |x: Entity| x != e
}

/// Grows `column` in whole chunks of absent values until it covers slot
/// `id`.
fn grow_column<C>(column: &mut Vec<Option<C>>, id: usize)
    requires
        old(column)@.len() % (DEFAULT_STORAGE_CAPACITY as nat) == 0,
        old(column)@.len() <= id,
        id < i32::MAX,
    ensures
        final(column)@.len() % (DEFAULT_STORAGE_CAPACITY as nat) == 0,
        id < final(column)@.len() <= id + DEFAULT_STORAGE_CAPACITY,
        final(column)@.take(old(column)@.len() as int) == old(column)@,
        forall|i: int|
            old(column)@.len() <= i < final(column)@.len() ==> #[trigger] final(column)@[i] is None,
{
    let ghost start = column@;
    while column.len() <= id
        invariant
            column@.len() % (DEFAULT_STORAGE_CAPACITY as nat) == 0,
            column@.len() <= id + DEFAULT_STORAGE_CAPACITY,
            id < i32::MAX,
            start.len() <= column@.len(),
            column@.take(start.len() as int) == start,
            forall|i: int| start.len() <= i < column@.len() ==> #[trigger] column@[i] is None,
        decreases if column@.len() <= id {
            id + 1 - column@.len()
        } else {
            0
        },
    {
        let ghost chunk_start = column@.len();
        let mut k: usize = 0;
        while k < DEFAULT_STORAGE_CAPACITY
            invariant
                k <= DEFAULT_STORAGE_CAPACITY,
                chunk_start <= id,
                column@.len() == chunk_start + k,
                start.len() <= chunk_start,
                column@.take(start.len() as int) == start,
                forall|i: int| start.len() <= i < column@.len() ==> #[trigger] column@[i] is None,
            decreases DEFAULT_STORAGE_CAPACITY - k,
        {
            let ghost before = column@;
            column.push(None);
            proof {
                assert(column@.take(start.len() as int) =~= before.take(start.len() as int));
            }
            k = k + 1;
        }
    }
}

/// The entity-component store: the allocator, the list of living entities,
/// and one column of optional component values per component type, indexed
/// by slot id.
pub struct World<C> {
    pub(crate) entities: Vec<Entity>,
    components: HashMap<ComponentType, Vec<Option<C>>>,
    pub(crate) allocator: Allocator,
}

impl<C: Component> World<C> {
    /// The living entities, in the order they were built.
    pub closed spec fn live(self) -> Seq<Entity> {
        self.entities@
    }

    /// The allocator that hands out this world's entities.
    pub closed spec fn allocator_state(self) -> Allocator {
        self.allocator
    }

    /// The component types that have a column.
    pub closed spec fn component_types(self) -> Set<ComponentType> {
        self.components@.dom()
    }

    /// What column `t` holds at slot `id`; `None` where the column or the
    /// slot does not exist.
    pub closed spec fn stored(self, t: ComponentType, id: int) -> Option<C> {
        if self.components@.contains_key(t) && 0 <= id < self.components@[t]@.len() {
            self.components@[t]@[id]
        } else {
            None
        }
    }

    /// The component of type `t` of entity `e`: `None` unless `e` is alive
    /// and has one.
    pub open spec fn component(self, e: Entity, t: ComponentType) -> Option<C> {
        if self.allocator_state().is_alive_spec(e) {
            self.stored(t, e.slot())
        } else {
            None
        }
    }

    /// The world's invariant: the live list holds each living entity once,
    /// columns grow in whole chunks, and no slot without a living entity
    /// holds a component.
    pub closed spec fn wf(self) -> bool {
        &&& self.allocator.wf()
        &&& forall|e: Entity| self.entities@.contains(e) <==> self.allocator.is_alive_spec(e)
        &&& self.entities@.no_duplicates()
        &&& forall|t: ComponentType| #[trigger]
            self.components@.contains_key(t) ==> {
                &&& self.components@[t]@.len() % (DEFAULT_STORAGE_CAPACITY as nat) == 0
                &&& self.components@[t]@.len() <= i32::MAX as int + DEFAULT_STORAGE_CAPACITY
            }
        &&& forall|t: ComponentType, id: int|
            self.components@.contains_key(t) && 0 <= id < self.components@[t]@.len()
                && self.allocator.generation_of(id) <= 0 ==> #[trigger] self.components@[t]@[id] is None
    }

    /// `next` is this world after attaching `c` as the component of type `t`
    /// of `e`: only that one component changes, and only if `e` is alive.
    pub open spec fn attached(self, next: World<C>, e: Entity, t: ComponentType, c: C) -> bool {
        let alive = self.allocator_state().is_alive_spec(e);
        &&& next.live() == self.live()
        &&& next.allocator_state() == self.allocator_state()
        &&& next.component_types() == if alive {
            self.component_types().insert(t)
        } else {
            self.component_types()
        }
        &&& forall|u: ComponentType, id: int| #[trigger]
            next.stored(u, id) == if alive && u == t && id == e.slot() {
                Some(c)
            } else {
                self.stored(u, id)
            }
    }

    /// `next` is this world after removing the component of type `t` of
    /// `e`: only that one component changes, and only if `e` is alive.
    pub open spec fn removed(self, next: World<C>, e: Entity, t: ComponentType) -> bool {
        let alive = self.allocator_state().is_alive_spec(e);
        &&& next.live() == self.live()
        &&& next.allocator_state() == self.allocator_state()
        &&& next.component_types() == self.component_types()
        &&& forall|u: ComponentType, id: int| #[trigger]
            next.stored(u, id) == if alive && u == t && id == e.slot() {
                None
            } else {
                self.stored(u, id)
            }
    }

    /// `next` is this world after killing the living `e`: it leaves the live
    /// list, its slot is cleared in every column, and its slot is released.
    pub open spec fn entity_killed(self, next: World<C>, e: Entity) -> bool {
        &&& next.live() == self.live().filter(other_than(e))
        &&& self.allocator_state().killed(next.allocator_state(), e)
        &&& next.component_types() == self.component_types()
        &&& forall|u: ComponentType, id: int| #[trigger]
            next.stored(u, id) == if id == e.slot() {
                None
            } else {
                self.stored(u, id)
            }
    }

    /// `next` is this world after building `e` from the staged components:
    /// `e` is freshly allocated, appended to the live list, and has exactly
    /// the staged components; no other slot changes.
    pub open spec fn built(self, next: World<C>, staged: Map<ComponentType, C>, e: Entity) -> bool {
        &&& self.allocator_state().allocated(next.allocator_state(), e)
        &&& next.live() == self.live().push(e)
        &&& next.component_types() == self.component_types().union(staged.dom())
        &&& forall|t: ComponentType| #[trigger]
            next.component(e, t) == if staged.contains_key(t) {
                Some(staged[t])
            } else {
                None
            }
        &&& forall|t: ComponentType, id: int|
            id != e.slot() ==> #[trigger] next.stored(t, id) == self.stored(t, id)
    }

    /// An empty world.
    pub fn new() -> (r: Self)
        ensures
            r.wf(),
            r.live() == Seq::<Entity>::empty(),
            r.component_types() == Set::<ComponentType>::empty(),
            r.allocator_state().next_fresh() == 0,
            r.allocator_state().free_ids() == Seq::<int>::empty(),
    {
        let r = Self { entities: Vec::new(), components: HashMap::new(), allocator: Allocator::new() };
        assert(r.component_types() =~= Set::<ComponentType>::empty());
        r
    }

    /// Starts building an entity; nothing is allocated until it is built.
    pub fn create_entity(&self) -> (r: EntityBuilder<C>)
        ensures
            r.staged() == Map::<ComponentType, C>::empty(),
    {
        EntityBuilder::new()
    }

    /// Allocates an entity with no components and puts it on the live list.
    pub(crate) fn allocate_entity(&mut self) -> (r: Entity)
        requires
            old(self).wf(),
            old(self).allocator_state().can_allocate(),
        ensures
            final(self).wf(),
            old(self).allocator_state().allocated(final(self).allocator_state(), r),
            final(self).allocator_state().is_alive_spec(r),
            final(self).live() == old(self).live().push(r),
            final(self).component_types() == old(self).component_types(),
            forall|t: ComponentType, id: int| #[trigger]
                final(self).stored(t, id) == old(self).stored(t, id),
            forall|t: ComponentType| #[trigger] final(self).stored(t, r.slot()) is None,
    {
        let ghost pre = *self;
        proof {
            lemma_next_slot_unoccupied(self.allocator);
        }
        let entity = self.allocator.allocate();
        proof {
            assert(!pre.allocator.is_alive_spec(entity));
            assert(!pre.entities@.contains(entity));
        }
        self.entities.push(entity);
        proof {
            assert forall|e: Entity| self.entities@.contains(e) <==> self.allocator.is_alive_spec(e) by {
                assert(pre.entities@.contains(e) <==> pre.allocator.is_alive_spec(e));
                if e == entity {
                    assert(self.entities@[pre.entities@.len() as int] == e);
                } else {
                    if e.slot() == entity.slot() && self.allocator.is_alive_spec(e) {
                        Entity::lemma_same(e, entity);
                    }
                    if self.entities@.contains(e) {
                        let k = choose|k: int| 0 <= k < self.entities@.len() && self.entities@[k] == e;
                        assert(pre.entities@[k] == e);
                    }
                    if pre.entities@.contains(e) {
                        let k = choose|k: int| 0 <= k < pre.entities@.len() && pre.entities@[k] == e;
                        assert(self.entities@[k] == e);
                    }
                }
            }
            assert forall|a: int, b: int|
                0 <= a < b < self.entities@.len() implies self.entities@[a] != self.entities@[b] by {
                if b == pre.entities@.len() {
                    assert(pre.entities@.contains(self.entities@[a]));
                }
            }
            assert forall|t: ComponentType| #[trigger] self.stored(t, entity.slot()) is None by {
                assert(pre.stored(t, entity.slot()) is None);
            }
        }
        entity
    }

    /// A copy of the list of living entities, in the order they were built.
    pub fn entities(&self) -> (r: Vec<Entity>)
        ensures
            r@ == self.live(),
    {
        let mut r: Vec<Entity> = Vec::new();
        let mut i: usize = 0;
        while i < self.entities.len()
            invariant
                i <= self.entities@.len(),
                r@ == self.entities@.take(i as int),
            decreases self.entities@.len() - i,
        {
            r.push(self.entities[i]);
            i = i + 1;
            proof {
                assert(r@ =~= self.entities@.take(i as int));
            }
        }
        proof {
            assert(r@ =~= self.entities@);
        }
        r
    }

    /// The component of type `component_type` of `entity`, if `entity` is
    /// alive and has one.
    pub fn get_component(&self, entity: Entity, component_type: ComponentType) -> (r: Option<&C>)
        requires
            self.wf(),
        ensures
            r matches Some(c) ==> self.component(entity, component_type) == Some(*c),
            r is None ==> self.component(entity, component_type) is None,
    {
        if !self.allocator.is_alive(entity) {
            return None;
        }
        proof {
            self.allocator.lemma_allocated_range(entity.slot());
        }
        let id = entity.id() as usize;
        match self.components.get(&component_type) {
            None => None,
            Some(column) => {
                if id < column.len() {
                    match &column[id] {
                        Some(component) => Some(component),
                        None => None,
                    }
                } else {
                    None
                }
            },
        }
    }

    /// Attaches `component` as the component of type `component_type` of
    /// `entity`, replacing any it had. Does nothing unless `entity` is alive.
    pub fn attach_component(&mut self, entity: Entity, component_type: ComponentType, component: C)
        requires
            old(self).wf(),
        ensures
            final(self).wf(),
            old(self).attached(*final(self), entity, component_type, component),
    {
        if !self.allocator.is_alive(entity) {
            return;
        }
        proof {
            self.allocator.lemma_allocated_range(entity.slot());
        }
        let ghost pre = *self;
        let id = entity.id() as usize;
        let column = self.components.entry(component_type).or_insert(
            Vec::with_capacity(DEFAULT_STORAGE_CAPACITY),
        );
        let ghost first = *column;
        if column.len() <= id {
            grow_column(column, id);
        }
        let ghost grown = *column;
        column.set(id, Some(component));
        proof {
            assert(self.components@ == pre.components@.insert(component_type, *column));
            assert forall|t: ComponentType, k: int| #[trigger]
                self.stored(t, k) == if t == component_type && k == entity.slot() {
                    Some(component)
                } else {
                    pre.stored(t, k)
                } by {
                if t == component_type && k != entity.slot() {
                    if 0 <= k < first@.len() {
                        assert(grown@.take(first@.len() as int)[k] == grown@[k]);
                    }
                }
            }
            assert(self.component_types() =~= pre.component_types().insert(component_type));
            assert forall|t: ComponentType, k: int|
                self.components@.contains_key(t) && 0 <= k < self.components@[t]@.len()
                    && self.allocator.generation_of(k) <= 0 implies #[trigger] self.components@[t]@[k] is None by {
                assert(self.stored(t, k) == pre.stored(t, k));
            }
        }
    }

    /// Detaches the component of type `component_type` from `entity`. Does
    /// nothing unless `entity` is alive and has one.
    pub fn remove_component(&mut self, entity: Entity, component_type: ComponentType)
        requires
            old(self).wf(),
        ensures
            final(self).wf(),
            old(self).removed(*final(self), entity, component_type),
    {
        if !self.allocator.is_alive(entity) {
            return;
        }
        proof {
            self.allocator.lemma_allocated_range(entity.slot());
        }
        let ghost pre = *self;
        let id = entity.id() as usize;
        match self.components.entry(component_type) {
            Entry::Occupied(mut slots) => {
                let column = slots.get_mut();
                if id < column.len() {
                    column.set(id, None);
                }
            },
            Entry::Vacant(_) => {},
        }
        proof {
            if pre.components@.contains_key(component_type) {
                let column = self.components@[component_type];
                let before = pre.components@[component_type];
                assert(self.components@ == pre.components@.insert(component_type, column));
                if id < before@.len() {
                    assert(column@ == before@.update(id as int, None));
                } else {
                    assert(column@ == before@);
                }
            } else {
                assert(self.components@ == pre.components@);
            }
            assert(self.component_types() =~= pre.component_types());
            assert forall|t: ComponentType, k: int|
                self.allocator.generation_of(k) <= 0 implies #[trigger] self.stored(t, k) is None by {
                assert(pre.stored(t, k) is None);
            }
        }
    }

    /// The component of type `component_type` of `entity`, for changing in
    /// place, if `entity` is alive and has one.
    pub fn get_component_mut(&mut self, entity: Entity, component_type: ComponentType) -> (r: Option<
        &mut C,
    >)
        requires
            old(self).wf(),
        ensures
            final(self).wf(),
            final(self).live() == old(self).live(),
            final(self).allocator_state() == old(self).allocator_state(),
            final(self).component_types() == old(self).component_types(),
            r is None ==> {
                &&& old(self).component(entity, component_type) is None
                &&& forall|t: ComponentType, id: int| #[trigger]
                    final(self).stored(t, id) == old(self).stored(t, id)
            },
            r matches Some(c) ==> {
                &&& old(self).component(entity, component_type) == Some(*c)
                &&& forall|t: ComponentType, id: int| #[trigger]
                    final(self).stored(t, id) == if t == component_type && id == entity.slot() {
                        Some(*final(c))
                    } else {
                        old(self).stored(t, id)
                    }
            },
    {
        if !self.allocator.is_alive(entity) {
            return None;
        }
        proof {
            self.allocator.lemma_allocated_range(entity.slot());
        }
        let ghost pre = *self;
        let id = entity.id() as usize;
        match self.components.entry(component_type) {
            Entry::Occupied(slots) => {
                let column = slots.into_mut();
                if id < column.len() {
                    match &mut column[id] {
                        Some(component) => Some(component),
                        None => None,
                    }
                } else {
                    None
                }
            },
            Entry::Vacant(_) => None,
        }
    }

    /// Kills a living entity: takes it off the live list, detaches all its
    /// components, and releases its slot for reuse.
    pub fn kill_entity(&mut self, entity: Entity)
        requires
            old(self).wf(),
            old(self).allocator_state().is_alive_spec(entity),
        ensures
            final(self).wf(),
            old(self).entity_killed(*final(self), entity),
    {
        let ghost pre = *self;
        let component_types = keys_of(&self.components);
        let mut j: usize = 0;
        while j < component_types.len()
            invariant
                j <= component_types@.len(),
                self.wf(),
                self.entities@ == pre.entities@,
                self.allocator == pre.allocator,
                self.component_types() == pre.component_types(),
                forall|t: ComponentType| pre.components@.contains_key(t) <==> component_types@.contains(t),
                pre.allocator.is_alive_spec(entity),
                forall|t: ComponentType, id: int| #[trigger]
                    self.stored(t, id) == if id == entity.slot() && component_types@.take(
                        j as int,
                    ).contains(t) {
                        None
                    } else {
                        pre.stored(t, id)
                    },
            decreases component_types@.len() - j,
        {
            let ghost before = *self;
            self.remove_component(entity, component_types[j]);
            proof {
                assert forall|t: ComponentType, id: int| #[trigger]
                    self.stored(t, id) == if id == entity.slot() && component_types@.take(
                        j + 1,
                    ).contains(t) {
                        None
                    } else {
                        pre.stored(t, id)
                    } by {
                    let done = component_types@.take(j as int);
                    assert(component_types@.take(j + 1) == done.push(component_types@[j as int]));
                    if t == component_types@[j as int] {
                        assert(component_types@.take(j + 1)[j as int] == t);
                    } else if done.push(component_types@[j as int]).contains(t) {
                        let k = choose|k: int|
                            0 <= k < j + 1 && #[trigger] done.push(component_types@[j as int])[k] == t;
                        assert(done[k] == t);
                    }
                }
            }
            j = j + 1;
        }
        proof {
            assert(component_types@.take(j as int) == component_types@);
            assert forall|t: ComponentType, id: int| #[trigger]
                self.stored(t, id) == if id == entity.slot() {
                    None
                } else {
                    pre.stored(t, id)
                } by {
                if id == entity.slot() && !component_types@.contains(t) {
                    assert(!pre.components@.contains_key(t));
                }
            }
        }
        let ghost swept = *self;
        let mut kept: Vec<Entity> = Vec::new();
        let mut i: usize = 0;
        while i < self.entities.len()
            invariant
                i <= self.entities@.len(),
                self.entities@ == pre.entities@,
                pre.entities@.no_duplicates(),
                kept@ == self.entities@.take(i as int).filter(other_than(entity)),
                kept@.no_duplicates(),
                forall|x: Entity| #[trigger] kept@.contains(x) ==> self.entities@.take(i as int).contains(x),
            decreases self.entities@.len() - i,
        {
            let e = self.entities[i];
            proof {
                broadcast use Seq::lemma_filter_push;
                let prefix = self.entities@.take(i as int);
                assert(self.entities@.take(i + 1) == prefix.push(e));
                assert(!prefix.contains(e));
            }
            let ghost old_kept = kept@;
            if e != entity {
                kept.push(e);
            }
            proof {
                assert(!old_kept.contains(e));
                assert forall|a: int, b: int| 0 <= a < b < kept@.len() implies kept@[a] != kept@[b] by {
                    if b == old_kept.len() {
                        assert(old_kept[a] == kept@[a]);
                    }
                }
                assert forall|x: Entity| #[trigger] kept@.contains(x) implies self.entities@.take(
                    i + 1,
                ).contains(x) by {
                    if x != e {
                        assert(old_kept.contains(x));
                        let prefix = self.entities@.take(i as int);
                        let k = choose|k: int| 0 <= k < prefix.len() && prefix[k] == x;
                        assert(self.entities@.take(i + 1)[k] == x);
                    } else {
                        assert(self.entities@.take(i + 1)[i as int] == x);
                    }
                }
            }
            i = i + 1;
        }
        proof {
            assert(self.entities@.take(i as int) == self.entities@);
        }
        self.entities = kept;
        self.allocator.kill(entity);
        proof {
            assert forall|e: Entity| self.entities@.contains(e) <==> self.allocator.is_alive_spec(e) by {
                broadcast use Seq::lemma_filter_contains_rev;
                if e != entity && pre.allocator.is_alive_spec(e) {
                    if e.slot() == entity.slot() {
                        Entity::lemma_same(e, entity);
                    }
                    let k = choose|k: int| 0 <= k < pre.entities@.len() && pre.entities@[k] == e;
                    pre.entities@.lemma_filter_contains(other_than(entity), k);
                }
            }
            assert(self.components == swept.components);
            assert forall|t: ComponentType, id: int| #[trigger]
                self.stored(t, id) == if id == entity.slot() {
                    None
                } else {
                    pre.stored(t, id)
                } by {
                assert(self.stored(t, id) == swept.stored(t, id));
            }
            assert forall|t: ComponentType, k: int|
                self.components@.contains_key(t) && 0 <= k < self.components@[t]@.len()
                    && self.allocator.generation_of(k) <= 0 implies #[trigger] self.components@[t]@[k] is None by {
                assert(self.stored(t, k) == swept.stored(t, k));
                if k != entity.slot() {
                    assert(pre.stored(t, k) is None);
                }
            }
        }
    }

    /// Whether `entity` is alive and has a component of type
    /// `component_type`.
    pub fn has_component(&self, entity: Entity, component_type: ComponentType) -> (r: bool)
        requires
            self.wf(),
        ensures
            r == self.component(entity, component_type) is Some,
    {
        self.get_component(entity, component_type).is_some()
    }
}

/// Attaching a component of type `t` to `x` changes no other component:
/// neither a component of another type on `x` nor the component of type `t`
/// on any other entity.
pub proof fn lemma_component_isolation<C: Component>(
    before: World<C>,
    after: World<C>,
    x: Entity,
    t: ComponentType,
    c: C,
    y: Entity,
    u: ComponentType,
)
    requires
        before.wf(),
        before.attached(after, x, t, c),
        y != x || u != t,
    ensures
        after.component(y, u) == before.component(y, u),
{
    let alloc = before.allocator_state();
    if alloc.is_alive_spec(x) && alloc.is_alive_spec(y) && y.slot() == x.slot() {
        Entity::lemma_same(x, y);
    }
}

/// A built entity has every component it was built with, and nothing else,
/// as soon as `build` returns: staging `a` under `ta` and `b` under `tb`
/// gives an entity whose components of those types are `a` and `b`.
pub proof fn lemma_builder_atomicity<C: Component>(
    before: World<C>,
    after: World<C>,
    e: Entity,
    ta: ComponentType,
    a: C,
    tb: ComponentType,
    b: C,
)
    requires
        ta != tb,
        before.built(after, Map::<ComponentType, C>::empty().insert(ta, a).insert(tb, b), e),
    ensures
        after.component(e, ta) == Some(a),
        after.component(e, tb) == Some(b),
        forall|t: ComponentType| t != ta && t != tb ==> #[trigger] after.component(e, t) is None,
{
    let staged = Map::<ComponentType, C>::empty().insert(ta, a).insert(tb, b);
    assert(staged.contains_key(ta) && staged[ta] == a);
    assert(staged.contains_key(tb) && staged[tb] == b);
    assert forall|t: ComponentType| t != ta && t != tb implies #[trigger] after.component(e, t) is None by {
        assert(!staged.contains_key(t));
    }
}

/// Killing an entity sweeps it from every column and from the live list:
/// afterwards it has no component of any type and is not listed.
pub proof fn lemma_kill_sweeps<C: Component>(before: World<C>, after: World<C>, x: Entity)
    requires
        before.wf(),
        before.allocator_state().is_alive_spec(x),
        before.entity_killed(after, x),
    ensures
        forall|t: ComponentType| #[trigger] after.component(x, t) is None,
        !after.live().contains(x),
{
    broadcast use Seq::lemma_filter_pred;

    assert(!after.allocator_state().is_alive_spec(x));
    if after.live().contains(x) {
        let k = choose|k: int| 0 <= k < after.live().len() && after.live()[k] == x;
        assert(other_than(x)(after.live()[k]));
    }
}

/// Removing a component is idempotent: removing it once or twice leaves it
/// absent, and the second removal changes nothing.
pub proof fn lemma_remove_idempotent<C: Component>(
    w0: World<C>,
    w1: World<C>,
    w2: World<C>,
    e: Entity,
    t: ComponentType,
)
    requires
        w0.wf(),
        w0.removed(w1, e, t),
        w1.removed(w2, e, t),
    ensures
        w1.component(e, t) is None,
        w2.component(e, t) is None,
        forall|u: ComponentType, id: int| #[trigger] w2.stored(u, id) == w1.stored(u, id),
        w2.live() == w1.live(),
        w2.allocator_state() == w1.allocator_state(),
{
}

/// A component type that was never attached has no column, so no entity
/// has a component of that type.
pub proof fn lemma_absent_type<C: Component>(w: World<C>, t: ComponentType, e: Entity)
    requires
        !w.component_types().contains(t),
    ensures
        w.component(e, t) is None,
{
}

} // verus!
