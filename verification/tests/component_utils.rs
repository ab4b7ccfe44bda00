use beet::component_utils::ComponentLookup;
use beet::component_utils::ComponentUtils;
use beet::component_utils::ComponentUtilsError;

const MY_STRUCT: u64 = 42;

fn lookup(
    registered: bool,
    reflect_default: bool,
    component_id: Option<u32>,
    entity_exists: bool,
    in_entity: bool,
) -> ComponentLookup<u32> {
    ComponentLookup { registered, reflect_default, component_id, entity_exists, in_entity }
}

#[test]
fn get_set() {
    // An entity spawned with one component of a type that has a type id.
    assert_eq!(ComponentUtils::get(true, &vec![Some(MY_STRUCT)]), vec![MY_STRUCT]);
    // The component is registered with the world.
    assert_eq!(ComponentUtils::component_id(Some(0u32)), Ok(0));
    // Setting a typed component on a live entity is allowed.
    assert_eq!(ComponentUtils::set_typed(true), Ok(()));
    // Reading it back gives what the entity holds.
    assert_eq!(ComponentUtils::get_typed(Some(Some(3i32))), Some(3));
}

#[test]
fn get_set_by_id() {
    // The type is registered with a reflected default, the component is
    // registered, the entity was spawned empty.
    let before = lookup(true, true, Some(7), true, false);
    assert_eq!(ComponentUtils::add(&before), Ok(7));
    assert_eq!(ComponentUtils::get(true, &vec![Some(MY_STRUCT)]), vec![MY_STRUCT]);
    let after = lookup(true, true, Some(7), true, true);
    assert_eq!(ComponentUtils::map(&after), Ok(7));
    assert_eq!(ComponentUtils::remove(&after), Ok(7));
    assert_eq!(ComponentUtils::get::<u64>(true, &vec![]).len(), 0);
}

#[test]
fn get_of_missing_entity_is_empty() {
    assert_eq!(ComponentUtils::get(false, &vec![Some(1u64), Some(2)]), Vec::<u64>::new());
    assert_eq!(ComponentUtils::get(true, &vec![Some(1u64), None, Some(2)]), vec![1, 2]);
}

#[test]
fn component_errors_come_in_order() {
    assert_eq!(ComponentUtils::component_id::<u32>(None), Err(ComponentUtilsError::ComponentNotRegistered));
    assert_eq!(ComponentUtils::set_typed(false), Err(ComponentUtilsError::EntityNotFound));
    assert_eq!(ComponentUtils::get_typed::<i32>(None), None);
    assert_eq!(ComponentUtils::get_typed::<i32>(Some(None)), None);

    assert_eq!(ComponentUtils::add(&lookup(false, false, None, false, false)), Err(ComponentUtilsError::TypeNotRegistered));
    assert_eq!(ComponentUtils::add(&lookup(true, false, None, false, false)), Err(ComponentUtilsError::NotReflectDefault));
    assert_eq!(ComponentUtils::add(&lookup(true, true, None, false, false)), Err(ComponentUtilsError::ComponentNotRegistered));
    assert_eq!(ComponentUtils::add(&lookup(true, true, Some(1), false, false)), Err(ComponentUtilsError::EntityNotFound));

    assert_eq!(ComponentUtils::remove(&lookup(false, false, None, true, true)), Err(ComponentUtilsError::ComponentNotRegistered));
    assert_eq!(ComponentUtils::remove(&lookup(false, false, Some(2), false, true)), Err(ComponentUtilsError::EntityNotFound));
    assert_eq!(ComponentUtils::remove(&lookup(false, false, Some(2), true, false)), Ok(2));

    assert_eq!(ComponentUtils::map(&lookup(false, true, Some(1), true, true)), Err(ComponentUtilsError::TypeNotRegistered));
    assert_eq!(ComponentUtils::map(&lookup(true, false, None, true, true)), Err(ComponentUtilsError::ComponentNotRegistered));
    assert_eq!(ComponentUtils::map(&lookup(true, false, Some(1), false, true)), Err(ComponentUtilsError::EntityNotFound));
    assert_eq!(ComponentUtils::map(&lookup(true, false, Some(1), true, false)), Err(ComponentUtilsError::ComponentNotInEntity));
    assert_eq!(ComponentUtils::map_mut(&lookup(true, false, Some(1), true, false)), Err(ComponentUtilsError::ComponentNotInEntity));
    assert_eq!(ComponentUtils::map_mut(&lookup(true, false, Some(3), true, true)), Ok(3));
}
