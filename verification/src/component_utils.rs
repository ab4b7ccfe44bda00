use vstd::prelude::*;

verus! {

/// Why a component operation by type was refused.
#[derive(Debug, Clone, Copy, PartialEq, Eq, Structural)]
pub enum ComponentUtilsError {
    /// The type registry has no registration for the type.
    TypeNotRegistered,
    /// The registration of the type has no reflected `Default`.
    NotReflectDefault,
    /// The world has no component id for the type.
    ComponentNotRegistered,
    /// The world has no such entity.
    EntityNotFound,
    /// The entity does not hold the component.
    ComponentNotInEntity,
}

/// What the world and its type registry answer about one entity and one
/// type: the facts on which the component operations by type decide.
#[derive(Debug, Clone, Copy)]
pub struct ComponentLookup<C> {
    /// The type registry has a registration for the type.
    pub registered: bool,
    /// That registration carries a reflected `Default`.
    pub reflect_default: bool,
    /// The component id that the world gave the type, if any.
    pub component_id: Option<C>,
    /// The entity exists in the world.
    pub entity_exists: bool,
    /// The entity holds the component.
    pub in_entity: bool,
}

/// The type ids among `components`, in order, skipping those without one.
pub open spec fn known_types<T>(components: Seq<Option<T>>) -> Seq<T>
    decreases components.len(),
{
    if components.len() == 0 {
        seq![]
    } else {
        let prev = known_types(components.drop_last());
        match components.last() {
            Some(t) => prev.push(t),
            None => prev,
        }
    }
}

/// Reading or changing a component through reflection goes ahead only on a
/// component that the entity holds, of a registered type with a component
/// id, whatever the registration says of `Default`; each refusal names the
/// first of those facts that fails.
pub proof fn lemma_map_needs_the_component<C>(lookup: ComponentLookup<C>)
    ensures
        ComponentUtils::spec_map(lookup) is Ok <==> lookup.registered && lookup.component_id is Some
            && lookup.entity_exists && lookup.in_entity,
        ComponentUtils::spec_map(lookup) matches Ok(c) ==> lookup.component_id == Some(c),
        ComponentUtils::spec_map(lookup) == ComponentUtils::spec_map(
            ComponentLookup { reflect_default: !lookup.reflect_default, ..lookup },
        ),
        !lookup.registered ==> ComponentUtils::spec_map(lookup) == Err::<C, ComponentUtilsError>(
            ComponentUtilsError::TypeNotRegistered,
        ),
        lookup.registered && lookup.component_id is None ==> ComponentUtils::spec_map(lookup) == Err::<
            C,
            ComponentUtilsError,
        >(ComponentUtilsError::ComponentNotRegistered),
        lookup.registered && lookup.component_id is Some && !lookup.entity_exists
            ==> ComponentUtils::spec_map(lookup) == Err::<C, ComponentUtilsError>(
            ComponentUtilsError::EntityNotFound,
        ),
        lookup.registered && lookup.component_id is Some && lookup.entity_exists && !lookup.in_entity
            ==> ComponentUtils::spec_map(lookup) == Err::<C, ComponentUtilsError>(
            ComponentUtilsError::ComponentNotInEntity,
        ),
{
}

/// Component operations by type id on a world, decided from what the world
/// and its type registry answer.
pub struct ComponentUtils;

impl ComponentUtils {
    /// The type ids of the components of an entity: none when the entity does
    /// not exist, else those of `components` (the type id of each component of
    /// the entity, where it has one), in order.
    pub fn get<T: Copy>(entity_exists: bool, components: &Vec<Option<T>>) -> (r: Vec<T>)
        ensures
            !entity_exists ==> r@ == Seq::<T>::empty(),
            entity_exists ==> r@ == known_types(components@),
    {
        let mut r: Vec<T> = Vec::new();
        if !entity_exists {
            return r;
        }
        let n = components.len();
        for i in 0..n
            invariant
                n == components@.len(),
                r@ == known_types(components@.take(i as int)),
        {
            assert(components@.take(i + 1).drop_last() == components@.take(i as int));
            match components[i] {
                Some(t) => r.push(t),
                None => {},
            }
        }
        assert(components@.take(n as int) == components@);
        r
    }

    /// The component id of a type: the one the world gave it, else an error.
    pub fn component_id<C: Copy>(component_id: Option<C>) -> (r: Result<C, ComponentUtilsError>)
        ensures
            component_id matches Some(c) ==> r == Ok::<C, ComponentUtilsError>(c),
            component_id is None ==> r == Err::<C, ComponentUtilsError>(
                ComponentUtilsError::ComponentNotRegistered,
            ),
    {
        match component_id {
            Some(c) => Ok(c),
            None => Err(ComponentUtilsError::ComponentNotRegistered),
        }
    }

    /// Whether a typed component can be set on an entity: only when it exists.
    pub fn set_typed(entity_exists: bool) -> (r: Result<(), ComponentUtilsError>)
        ensures
            entity_exists <==> r is Ok,
            !entity_exists ==> r == Err::<(), ComponentUtilsError>(ComponentUtilsError::EntityNotFound),
    {
        if entity_exists {
            Ok(())
        } else {
            Err(ComponentUtilsError::EntityNotFound)
        }
    }

    /// A typed component of an entity: `None` when the entity does not exist
    /// (`found` is `None`) or does not hold the component.
    pub fn get_typed<T>(found: Option<Option<T>>) -> (r: Option<T>)
        ensures
            r == (match found {
                Some(c) => c,
                None => None,
            }),
    {
        match found {
            Some(c) => c,
            None => None,
        }
    }

    /// Adding the default value of a type to an entity: the component id to
    /// insert it under, or the first of these that fails: the type is
    /// registered, it has a reflected `Default`, the world knows the
    /// component, the entity exists.
    pub fn add<C: Copy>(lookup: &ComponentLookup<C>) -> (r: Result<C, ComponentUtilsError>)
        ensures
            r == Err::<C, ComponentUtilsError>(ComponentUtilsError::TypeNotRegistered) <==> !lookup.registered,
            r == Err::<C, ComponentUtilsError>(ComponentUtilsError::NotReflectDefault) <==> lookup.registered
                && !lookup.reflect_default,
            r == Err::<C, ComponentUtilsError>(ComponentUtilsError::ComponentNotRegistered) <==> lookup.registered
                && lookup.reflect_default && lookup.component_id is None,
            r == Err::<C, ComponentUtilsError>(ComponentUtilsError::EntityNotFound) <==> lookup.registered
                && lookup.reflect_default && lookup.component_id is Some && !lookup.entity_exists,
            r is Ok <==> lookup.registered && lookup.reflect_default && lookup.component_id is Some
                && lookup.entity_exists,
            r matches Ok(c) ==> lookup.component_id == Some(c),
    {
        if !lookup.registered {
            return Err(ComponentUtilsError::TypeNotRegistered);
        }
        if !lookup.reflect_default {
            return Err(ComponentUtilsError::NotReflectDefault);
        }
        let c = match Self::component_id(lookup.component_id) {
            Ok(c) => c,
            Err(e) => return Err(e),
        };
        if !lookup.entity_exists {
            return Err(ComponentUtilsError::EntityNotFound);
        }
        Ok(c)
    }

    /// Removing a component by type from an entity: the component id to
    /// remove, or the first of these that fails: the world knows the
    /// component, the entity exists. The type registry is not consulted.
    pub fn remove<C: Copy>(lookup: &ComponentLookup<C>) -> (r: Result<C, ComponentUtilsError>)
        ensures
            r == Err::<C, ComponentUtilsError>(ComponentUtilsError::ComponentNotRegistered) <==> lookup.component_id is None,
            r == Err::<C, ComponentUtilsError>(ComponentUtilsError::EntityNotFound) <==> lookup.component_id is Some
                && !lookup.entity_exists,
            r is Ok <==> lookup.component_id is Some && lookup.entity_exists,
            r matches Ok(c) ==> lookup.component_id == Some(c),
    {
        let c = match lookup.component_id {
            Some(c) => c,
            None => return Err(ComponentUtilsError::ComponentNotRegistered),
        };
        if !lookup.entity_exists {
            return Err(ComponentUtilsError::EntityNotFound);
        }
        Ok(c)
    }

    /// Reading a component of an entity through reflection: the component id
    /// to read, or the first of these that fails: the type is registered, the
    /// world knows the component, the entity exists, the entity holds it.
    pub fn map<C: Copy>(lookup: &ComponentLookup<C>) -> (r: Result<C, ComponentUtilsError>)
        ensures
            r == Self::spec_map(*lookup),
            r is Ok <==> lookup.registered && lookup.component_id is Some && lookup.entity_exists
                && lookup.in_entity,
            r matches Ok(c) ==> lookup.component_id == Some(c),
            r == Err::<C, ComponentUtilsError>(ComponentUtilsError::ComponentNotInEntity) <==> lookup.registered
                && lookup.component_id is Some && lookup.entity_exists && !lookup.in_entity,
    {
        if !lookup.registered {
            return Err(ComponentUtilsError::TypeNotRegistered);
        }
        let c = match Self::component_id(lookup.component_id) {
            Ok(c) => c,
            Err(e) => return Err(e),
        };
        if !lookup.entity_exists {
            return Err(ComponentUtilsError::EntityNotFound);
        }
        if !lookup.in_entity {
            return Err(ComponentUtilsError::ComponentNotInEntity);
        }
        Ok(c)
    }

    /// Changing a component of an entity through reflection: decided as
    /// [`Self::map`] decides.
    pub fn map_mut<C: Copy>(lookup: &ComponentLookup<C>) -> (r: Result<C, ComponentUtilsError>)
        ensures
            r == Self::spec_map(*lookup),
            r is Ok <==> lookup.registered && lookup.component_id is Some && lookup.entity_exists
                && lookup.in_entity,
            r matches Ok(c) ==> lookup.component_id == Some(c),
            r == Err::<C, ComponentUtilsError>(ComponentUtilsError::ComponentNotInEntity) <==> lookup.registered
                && lookup.component_id is Some && lookup.entity_exists && !lookup.in_entity,
    {
        Self::map(lookup)
    }

    /// The outcome of reading or changing a component through reflection.
    pub open spec fn spec_map<C>(lookup: ComponentLookup<C>) -> Result<C, ComponentUtilsError> {
        if !lookup.registered {
            Err(ComponentUtilsError::TypeNotRegistered)
        } else if lookup.component_id is None {
            Err(ComponentUtilsError::ComponentNotRegistered)
        } else if !lookup.entity_exists {
            Err(ComponentUtilsError::EntityNotFound)
        } else if !lookup.in_entity {
            Err(ComponentUtilsError::ComponentNotInEntity)
        } else {
            Ok(lookup.component_id->0)
        }
    }
}

} // verus!
