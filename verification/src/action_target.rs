use vstd::prelude::*;

use crate::entity::Entity;

verus! {

/// Used by systems and observers that trigger observers, to specify the
/// target of the trigger.
#[derive(Debug, Clone, PartialEq, Eq)]
pub enum ActionTarget {
    /// The entity that runs the action.
    This,
    Entity(Entity),
    Entities(Vec<Entity>),
    /// No entity: the whole world.
    Global,
}

/// Where a trigger is sent.
#[derive(Debug, Clone, PartialEq, Eq)]
pub enum TriggerTargets {
    /// Observers of these entities, in this order.
    Targets(Vec<Entity>),
    /// Global observers.
    Global,
}

impl Default for ActionTarget {
    fn default() -> (r: Self)
        ensures
            r is This,
    {
        ActionTarget::This
    }
}

impl ActionTarget {
    /// The entities that the target names itself, in order.
    pub open spec fn spec_entities(&self) -> Seq<Entity> {
        match self {
            ActionTarget::This => seq![],
            ActionTarget::Entity(e) => seq![*e],
            ActionTarget::Entities(es) => es@,
            ActionTarget::Global => seq![],
        }
    }

    /// The entities that an action run by `caller` reaches through this target.
    pub open spec fn spec_targets(&self, caller: Entity) -> Seq<Entity> {
        match self {
            ActionTarget::This => seq![caller],
            _ => self.spec_entities(),
        }
    }

    /// The entities to hand an entity mapper, in order; see [`Self::map_entities`].
    pub fn entities(&self) -> (r: Vec<Entity>)
        ensures
            r@ == self.spec_entities(),
    {
        match self {
            ActionTarget::This => Vec::new(),
            ActionTarget::Entity(e) => {
                let mut v = Vec::new();
                v.push(*e);
                v
            },
            ActionTarget::Entities(es) => es.clone(),
            ActionTarget::Global => Vec::new(),
        }
    }

    /// Replaces the entities of the target by what an entity mapper gave for
    /// each of them: `mapped[i]` replaces the `i`th of [`Self::entities`].
    pub fn map_entities(&mut self, mapped: &Vec<Entity>)
        requires
            mapped@.len() == old(self).spec_entities().len(),
        ensures
            final(self).spec_entities() == mapped@,
            *old(self) is This <==> *final(self) is This,
            *old(self) is Entity <==> *final(self) is Entity,
            *old(self) is Entities <==> *final(self) is Entities,
            *old(self) is Global <==> *final(self) is Global,
    {
        match self {
            ActionTarget::This => {},
            ActionTarget::Entity(entity) => {
                *entity = mapped[0];
            },
            ActionTarget::Entities(entities) => {
                *entities = mapped.clone();
            },
            ActionTarget::Global => {},
        }
    }

    /// Where an event that `caller` triggers through this target goes.
    pub fn trigger(&self, caller: Entity) -> (r: TriggerTargets)
        ensures
            self is Global ==> r is Global,
            !(self is Global) ==> (r matches TriggerTargets::Targets(es) && es@ == self.spec_targets(caller)),
    {
        match self {
            ActionTarget::This => {
                let mut v = Vec::new();
                v.push(caller);
                TriggerTargets::Targets(v)
            },
            ActionTarget::Entity(entity) => {
                let mut v = Vec::new();
                v.push(*entity);
                TriggerTargets::Targets(v)
            },
            ActionTarget::Entities(entities) => TriggerTargets::Targets(entities.clone()),
            ActionTarget::Global => TriggerTargets::Global,
        }
    }

    /// The entities that a bundle inserted by `caller` through this target
    /// goes to, in order. A bundle cannot be inserted into the global target.
    pub fn insert(&self, caller: Entity) -> (r: Vec<Entity>)
        requires
            !(self is Global),
        ensures
            r@ == self.spec_targets(caller),
    {
        self.target_entities(caller)
    }

    /// The entities that a bundle removed by `caller` through this target
    /// is taken from, in order. Nothing can be removed from the global target.
    pub fn remove(&self, caller: Entity) -> (r: Vec<Entity>)
        requires
            !(self is Global),
        ensures
            r@ == self.spec_targets(caller),
    {
        self.target_entities(caller)
    }

    fn target_entities(&self, caller: Entity) -> (r: Vec<Entity>)
        ensures
            r@ == self.spec_targets(caller),
    {
        match self {
            ActionTarget::This => {
                let mut v = Vec::new();
                v.push(caller);
                v
            },
            _ => self.entities(),
        }
    }

    /// Whether the target names `entity` itself; `This` and `Global` name no entity.
    pub fn contains(&self, entity: Entity) -> (r: bool)
        ensures
            r == self.spec_entities().contains(entity),
    {
        match self {
            ActionTarget::This => false,
            ActionTarget::Entity(e) => {
                proof {
                    assert(seq![*e][0] == *e);
                }
                entity == *e
            },
            ActionTarget::Entities(entities) => {
                let n = entities.len();
                for i in 0..n
                    invariant
                        n == entities@.len(),
                        self.spec_entities() == entities@,
                        forall|j: int| 0 <= j < i ==> entities@[j] != entity,
                {
                    if entities[i] == entity {
                        assert(entities@[i as int] == entity);
                        return true;
                    }
                }
                false
            },
            ActionTarget::Global => false,
        }
    }
}

impl From<Entity> for ActionTarget {
    fn from(entity: Entity) -> (r: ActionTarget) {
        ActionTarget::Entity(entity)
    }
}

impl vstd::std_specs::convert::FromSpecImpl<Entity> for ActionTarget {
    open spec fn obeys_from_spec() -> bool {
        true
    }

    open spec fn from_spec(v: Entity) -> ActionTarget {
        ActionTarget::Entity(v)
    }
}

impl From<Vec<Entity>> for ActionTarget {
    fn from(entities: Vec<Entity>) -> (r: ActionTarget) {
        ActionTarget::Entities(entities)
    }
}

impl vstd::std_specs::convert::FromSpecImpl<Vec<Entity>> for ActionTarget {
    open spec fn obeys_from_spec() -> bool {
        true
    }

    open spec fn from_spec(v: Vec<Entity>) -> ActionTarget {
        ActionTarget::Entities(v)
    }
}

} // verus!
