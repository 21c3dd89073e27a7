//! Entity storage: generations, entities, the allocator that hands them out,
//! and the world that attaches components to them.
use vstd::prelude::*;

mod allocator;
mod entity;
mod entity_builder;
mod generation;
mod world;

pub use self::allocator::Allocator;
pub use self::entity::Entity;
pub use self::entity_builder::EntityBuilder;
pub use self::generation::Generation;
pub(crate) use self::generation::ZeroableGeneration;
pub use self::world::{ComponentType, World, DEFAULT_STORAGE_CAPACITY};

verus! {

/// A value that can be attached to an entity. A world stores one type of
/// component value; its variants are told apart by a `ComponentType` key.
pub trait Component {}

/// Starts building an entity of `world`.
pub fn create_entity<C: Component>(world: &World<C>) -> (r: EntityBuilder<C>)
    ensures
        r.staged() == Map::<ComponentType, C>::empty(),
{
    world.create_entity()
}

/// A copy of the living entities of `world`, in the order they were built.
pub fn entities<C: Component>(world: &World<C>) -> (r: Vec<Entity>)
    ensures
        r@ == world.live(),
{
    world.entities()
}

/// Whether `entity` is alive in `world` and has a component of type
/// `component_type`.
pub fn has_component<C: Component>(world: &World<C>, entity: Entity, component_type: ComponentType) -> (r: bool)
    requires
        world.wf(),
    ensures
        r == world.component(entity, component_type) is Some,
{
    world.has_component(entity, component_type)
}

/// The component of type `component_type` of `entity`, if `entity` is alive
/// in `world` and has one.
pub fn get_component<C: Component>(world: &World<C>, entity: Entity, component_type: ComponentType) -> (r: Option<&C>)
    requires
        world.wf(),
    ensures
        r matches Some(c) ==> world.component(entity, component_type) == Some(*c),
        r is None ==> world.component(entity, component_type) is None,
{
    world.get_component(entity, component_type)
}

/// The component of type `component_type` of `entity`, for changing in
/// place, if `entity` is alive in `world` and has one.
pub fn get_component_mut<C: Component>(world: &mut World<C>, entity: Entity, component_type: ComponentType) -> (r: Option<&mut C>)
    requires
        old(world).wf(),
    ensures
        final(world).wf(),
        final(world).live() == old(world).live(),
        final(world).allocator_state() == old(world).allocator_state(),
        final(world).component_types() == old(world).component_types(),
        r is None ==> {
            &&& old(world).component(entity, component_type) is None
            &&& forall|t: ComponentType, id: int| #[trigger]
                final(world).stored(t, id) == old(world).stored(t, id)
        },
        r matches Some(c) ==> {
            &&& old(world).component(entity, component_type) == Some(*c)
            &&& forall|t: ComponentType, id: int| #[trigger]
                final(world).stored(t, id) == if t == component_type && id == entity.slot() {
                    Some(*final(c))
                } else {
                    old(world).stored(t, id)
                }
        },
{
    world.get_component_mut(entity, component_type)
}

/// Deletes a living entity of `world`: it leaves the live list, loses all its
/// components, and its slot is released for reuse.
pub fn delete_entity<C: Component>(world: &mut World<C>, entity: Entity)
    requires
        old(world).wf(),
        old(world).allocator_state().is_alive_spec(entity),
    ensures
        final(world).wf(),
        old(world).entity_killed(*final(world), entity),
{
    world.kill_entity(entity)
}

} // verus!
