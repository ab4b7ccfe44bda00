use beet::duration::Duration;
use beet::entity::Entity;
use beet::run_result::OnChildResult;
use beet::run_result::OnRunResult;
use beet::run_result::RunResult;
use beet::simple_actions::empty_action;
use beet::simple_actions::set_run_result;
use beet::simple_actions::succeed_in_duration;
use beet::simple_actions::EmptyAction;
use beet::simple_actions::SetRunResult;
use beet::simple_actions::SucceedInDuration;

#[test]
fn run_result_events() {
    assert_eq!(RunResult::default(), RunResult::Success);
    assert_eq!(OnRunResult::success().result(), RunResult::Success);
    assert_eq!(OnRunResult::failure().result(), RunResult::Failure);
    assert_eq!(OnRunResult::new(RunResult::Failure).result(), RunResult::Failure);
    assert_eq!(OnRunResult::default().result(), RunResult::Success);
    let child = Entity::from_raw(3);
    let r = OnChildResult::failure(child);
    assert_eq!(r.child(), child);
    assert_eq!(*r.value(), RunResult::Failure);
    assert_eq!(*OnChildResult::success(child).value(), RunResult::Success);
}

#[test]
fn set_run_result_gives_each_running_entity_its_result() {
    assert_eq!(SetRunResult::default().0, RunResult::Success);
    assert_eq!(SetRunResult::failure().0, RunResult::Failure);
    let a = Entity::from_raw(1);
    let b = Entity::from_raw(2);
    let rows = vec![(a, SetRunResult::success()), (b, SetRunResult::new(RunResult::Failure))];
    assert_eq!(set_run_result(&rows), vec![(a, RunResult::Success), (b, RunResult::Failure)]);
    assert_eq!(set_run_result(&vec![]), vec![]);
    empty_action();
    assert_eq!(EmptyAction::default(), EmptyAction);
}

#[test]
fn succeed_in_duration_waits_for_its_duration() {
    let d = SucceedInDuration::default();
    assert_eq!(d.duration, Duration::from_secs(1));
    let a = Entity::from_raw(1);
    let b = Entity::from_raw(2);
    let c = Entity::from_raw(3);
    let rows = vec![
        (a, Duration::from_millis(999), d),
        (b, Duration::from_secs(1), d),
        (c, Duration::new(1, 1), d),
    ];
    assert_eq!(succeed_in_duration(&rows), vec![b, c]);
}

#[test]
fn durations_compare_by_length() {
    let d = Duration::new(1, 2_500_000_000);
    assert_eq!(d.as_secs(), 3);
    assert_eq!(d.subsec_nanos(), 500_000_000);
    assert_eq!(Duration::from_millis(1500), Duration::new(1, 500_000_000));
    assert!(Duration::from_millis(1500).ge(&Duration::from_secs(1)));
    assert!(!Duration::from_secs(1).ge(&Duration::from_millis(1001)));
    assert!(Duration::new(2, 0).ge(&Duration::new(1, 999_999_999)));
}
