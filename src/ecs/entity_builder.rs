use std::collections::HashMap;

use vstd::prelude::*;

use crate::ecs::world::keys_of;
use crate::ecs::{Component, ComponentType, Entity, World};

verus! {

/// Collects the components of an entity that does not exist yet; building
/// it allocates the entity and attaches them all at once.
pub struct EntityBuilder<C> {
    components: HashMap<ComponentType, C>,
}

impl<C: Component> EntityBuilder<C> {
    /// The components staged so far, by type.
    pub closed spec fn staged(self) -> Map<ComponentType, C> {
        self.components@
    }

    pub(crate) fn new() -> (r: Self)
        ensures
            r.staged() == Map::<ComponentType, C>::empty(),
    {
        Self { components: HashMap::new() }
    }

    /// Stages `component` as the component of type `component_type`,
    /// replacing one staged before under that type.
    pub fn with(self, component_type: ComponentType, component: C) -> (r: Self)
        ensures
            r.staged() == self.staged().insert(component_type, component),
    {
        let mut components = self.components;
        components.insert(component_type, component);
        Self { components }
    }

    /// Allocates an entity in `world`, attaches every staged component to
    /// it, and puts it on the live list.
    pub fn build(self, world: &mut World<C>) -> (r: Entity)
        requires
            old(world).wf(),
            old(world).allocator_state().can_allocate(),
        ensures
            final(world).wf(),
            old(world).built(*final(world), self.staged(), r),
    {
        let ghost staged = self.staged();
        let mut components = self.components;
        let entity = world.allocate_entity();
        let ghost spawned = *world;
        let component_types = keys_of(&components);
        let mut j: usize = 0;
        while j < component_types.len()
            invariant
                j <= component_types@.len(),
                world.wf(),
                world.live() == spawned.live(),
                world.allocator_state() == spawned.allocator_state(),
                spawned.allocator_state().is_alive_spec(entity),
                forall|t: ComponentType| staged.contains_key(t) <==> component_types@.contains(t),
                forall|t: ComponentType| #[trigger]
                    components@.contains_key(t) <==> (staged.contains_key(t)
                        && !component_types@.take(j as int).contains(t)),
                forall|t: ComponentType|
                    #[trigger] components@.contains_key(t) ==> components@[t] == staged[t],
                forall|t: ComponentType| #[trigger]
                    world.component_types().contains(t) <==> (spawned.component_types().contains(t)
                        || component_types@.take(j as int).contains(t)),
                forall|t: ComponentType| #[trigger]
                    world.stored(t, entity.slot()) == if component_types@.take(j as int).contains(t) {
                        Some(staged[t])
                    } else {
                        None
                    },
                forall|t: ComponentType, id: int|
                    id != entity.slot() ==> #[trigger] world.stored(t, id) == spawned.stored(t, id),
            decreases component_types@.len() - j,
        {
            let component_type = component_types[j];
            let ghost done = component_types@.take(j as int);
            proof {
                assert(component_types@.take(j + 1) == done.push(component_type));
                assert(component_types@[j as int] == component_type);
                assert(component_types@.contains(component_type));
                assert(staged.contains_key(component_type));
            }
            match components.remove(&component_type) {
                Some(component) => {
                    world.attach_component(entity, component_type, component);
                },
                None => {},
            }
            proof {
                assert forall|t: ComponentType| done.push(component_type).contains(t) <==> (
                done.contains(t) || t == component_type) by {
                    if done.push(component_type).contains(t) && t != component_type {
                        let k = choose|k: int|
                            0 <= k < done.len() + 1 && #[trigger] done.push(component_type)[k] == t;
                        assert(done[k] == t);
                    }
                    if done.contains(t) {
                        let k = choose|k: int| 0 <= k < done.len() && #[trigger] done[k] == t;
                        assert(done.push(component_type)[k] == t);
                    }
                    if t == component_type {
                        assert(done.push(component_type)[done.len() as int] == t);
                    }
                }
            }
            j = j + 1;
        }
        proof {
            assert(component_types@.take(j as int) == component_types@);
            assert(world.component_types() =~= spawned.component_types().union(staged.dom()));
        }
        entity
    }
}

} // verus!
