use beet::action_target::ActionTarget;
use beet::action_target::TriggerTargets;
use beet::entity::Entity;

#[test]
fn insert_remove() {
    let e1 = Entity::from_raw(0);
    let e2 = Entity::from_raw(1);
    // `This` inserts into the caller, `Entity(e2)` removes from `e2`.
    assert_eq!(ActionTarget::This.insert(e1), vec![e1]);
    assert_eq!(ActionTarget::Entity(e2).remove(e1), vec![e2]);
}

#[test]
fn trigger() {
    let caller = Entity::from_raw(1);
    let target = Entity::from_raw(0);
    // A trigger aimed at another entity reaches that entity only.
    assert_eq!(
        ActionTarget::Entity(target).trigger(caller),
        TriggerTargets::Targets(vec![target])
    );
    assert_eq!(ActionTarget::This.trigger(caller), TriggerTargets::Targets(vec![caller]));
    assert_eq!(ActionTarget::Global.trigger(caller), TriggerTargets::Global);
    let many = vec![Entity::from_raw(3), Entity::from_raw(4)];
    assert_eq!(
        ActionTarget::Entities(many.clone()).trigger(caller),
        TriggerTargets::Targets(many)
    );
}

#[test]
fn insert_into_many_entities() {
    let caller = Entity::from_raw(9);
    let many = vec![Entity::from_raw(3), Entity::from_raw(4), Entity::from_raw(3)];
    assert_eq!(ActionTarget::Entities(many.clone()).insert(caller), many);
    assert_eq!(ActionTarget::Entities(vec![]).remove(caller), vec![]);
}

#[test]
fn contains_names_only_listed_entities() {
    let a = Entity::from_raw(1);
    let b = Entity::from_raw(2);
    assert!(!ActionTarget::This.contains(a));
    assert!(!ActionTarget::Global.contains(a));
    assert!(ActionTarget::Entity(a).contains(a));
    assert!(!ActionTarget::Entity(a).contains(b));
    assert!(ActionTarget::Entities(vec![b, a]).contains(a));
    assert!(!ActionTarget::Entities(vec![b]).contains(a));
}

#[test]
fn map_entities_replaces_in_order() {
    let mut t = ActionTarget::Entities(vec![Entity::from_raw(1), Entity::from_raw(2)]);
    assert_eq!(t.entities(), vec![Entity::from_raw(1), Entity::from_raw(2)]);
    t.map_entities(&vec![Entity::from_raw(7), Entity::from_raw(8)]);
    assert_eq!(t, ActionTarget::Entities(vec![Entity::from_raw(7), Entity::from_raw(8)]));

    let mut single = ActionTarget::Entity(Entity::from_raw(1));
    single.map_entities(&vec![Entity::from_raw(5)]);
    assert_eq!(single, ActionTarget::Entity(Entity::from_raw(5)));

    let mut this = ActionTarget::This;
    assert_eq!(this.entities(), vec![]);
    this.map_entities(&vec![]);
    assert_eq!(this, ActionTarget::This);
}

#[test]
fn action_target_conversions() {
    let e = Entity::from_raw(4);
    assert_eq!(ActionTarget::from(e), ActionTarget::Entity(e));
    assert_eq!(ActionTarget::from(vec![e]), ActionTarget::Entities(vec![e]));
    assert_eq!(ActionTarget::default(), ActionTarget::This);
}
