use peacock::ecs::{
    create_entity, delete_entity, entities, get_component, get_component_mut, has_component,
    Component, ComponentType, World,
};

#[derive(Debug, Clone, Copy, PartialEq)]
struct Health(u32);

impl Component for Health {}

const HEALTH: ComponentType = 10;

#[test]
fn the_world_api_reads_and_changes_components() {
    let mut world = World::new();
    let e = create_entity(&world).with(HEALTH, Health(5)).build(&mut world);
    assert!(has_component(&world, e, HEALTH));
    assert_eq!(get_component(&world, e, HEALTH), Some(&Health(5)));
    if let Some(h) = get_component_mut(&mut world, e, HEALTH) {
        h.0 -= 2;
    }
    assert_eq!(get_component(&world, e, HEALTH), Some(&Health(3)));
    assert_eq!(entities(&world), vec![e]);
}

#[test]
fn deleting_an_entity_kills_it() {
    let mut world = World::new();
    let a = create_entity(&world).with(HEALTH, Health(1)).build(&mut world);
    let b = create_entity(&world).build(&mut world);
    delete_entity(&mut world, a);
    assert!(!has_component(&world, a, HEALTH));
    assert_eq!(get_component(&world, a, HEALTH), None);
    assert!(get_component_mut(&mut world, a, HEALTH).is_none());
    assert_eq!(entities(&world), vec![b]);
    let c = create_entity(&world).build(&mut world);
    assert_eq!(c.id(), a.id());
    assert_eq!(c.generation().id(), 2);
}
