use vstd::prelude::*;

use crate::duration::Duration;
use crate::entity::Entity;
use crate::run_result::RunResult;

verus! {

/// An action that does nothing when run.
#[derive(Debug, Clone, Copy, PartialEq, Eq, Default)]
pub struct EmptyAction;

/// The system of [`EmptyAction`]: it has no effect.
pub fn empty_action() {
}

/// An action that ends its behavior with a fixed result as soon as it runs.
#[derive(Debug, Clone, Copy, PartialEq, Eq, Structural)]
pub struct SetRunResult(pub RunResult);

impl Default for SetRunResult {
    fn default() -> (r: Self)
        ensures
            r.0 == RunResult::Success,
    {
        SetRunResult(RunResult::Success)
    }
}

impl SetRunResult {
    pub fn new(result: RunResult) -> (r: Self)
        ensures
            r.0 == result,
    {
        SetRunResult(result)
    }

    pub fn success() -> (r: Self)
        ensures
            r.0 == RunResult::Success,
    {
        SetRunResult(RunResult::Success)
    }

    pub fn failure() -> (r: Self)
        ensures
            r.0 == RunResult::Failure,
    {
        SetRunResult(RunResult::Failure)
    }
}

/// The result that [`set_run_result`] gives each running entity, in order.
pub open spec fn set_run_result_spec(running: Seq<(Entity, SetRunResult)>) -> Seq<(Entity, RunResult)> {
    running.map_values(|row: (Entity, SetRunResult)| (row.0, (row.1).0))
}

/// Each running entity gets exactly the result its own action holds, at its
/// own position: one insert per running entity, in the same order.
pub proof fn lemma_set_run_result_gives_each_its_own(running: Seq<(Entity, SetRunResult)>)
    ensures
        set_run_result_spec(running).len() == running.len(),
        forall|i: int|
            0 <= i < running.len() ==> #[trigger] set_run_result_spec(running)[i] == (
                running[i].0,
                (running[i].1).0,
            ),
{
}

/// The system of [`SetRunResult`]: given the running entities that carry the
/// action, returns the result to insert into each of them, in the same order.
pub fn set_run_result(running: &Vec<(Entity, SetRunResult)>) -> (inserts: Vec<(Entity, RunResult)>)
    ensures
        inserts@ == set_run_result_spec(running@),
{
    let mut inserts: Vec<(Entity, RunResult)> = Vec::new();
    let n = running.len();
    for i in 0..n
        invariant
            n == running@.len(),
            inserts@ == set_run_result_spec(running@.take(i as int)),
    {
        let (entity, action) = running[i];
        inserts.push((entity, action.0));
        assert(running@.take(i + 1) == running@.take(i as int).push(running@[i as int]));
    }
    assert(running@.take(n as int) == running@);
    inserts
}

/// An action that succeeds once its behavior has been running for `duration`.
#[derive(Debug, Clone, Copy, PartialEq, Eq)]
pub struct SucceedInDuration {
    pub duration: Duration,
}

impl Default for SucceedInDuration {
    /// Succeeds after one second.
    fn default() -> (r: Self)
        ensures
            r.duration.spec_nanos() == 1_000_000_000,
    {
        SucceedInDuration { duration: Duration::from_secs(1) }
    }
}

/// The entities, in order, whose time running has reached the duration of
/// their [`SucceedInDuration`].
pub open spec fn succeed_in_duration_spec(running: Seq<(Entity, Duration, SucceedInDuration)>) -> Seq<Entity>
    decreases running.len(),
{
    if running.len() == 0 {
        seq![]
    } else {
        let prev = succeed_in_duration_spec(running.drop_last());
        let row = running.last();
        if row.1.spec_nanos() >= row.2.duration.spec_nanos() {
            prev.push(row.0)
        } else {
            prev
        }
    }
}

proof fn lemma_succeed_filter_map(
    running: Seq<(Entity, Duration, SucceedInDuration)>,
    choice: spec_fn((Entity, Duration, SucceedInDuration)) -> Option<Entity>,
)
    requires
        forall|r: (Entity, Duration, SucceedInDuration)|
            #[trigger] choice(r) == if r.1.spec_nanos() >= r.2.duration.spec_nanos() {
                Some(r.0)
            } else {
                None::<Entity>
            },
    ensures
        succeed_in_duration_spec(running) == running.filter_map(choice),
    decreases running.len(),
{
    if running.len() > 0 {
        lemma_succeed_filter_map(running.drop_last(), choice);
        let r = running.last();
        let prev = running.drop_last().filter_map(choice);
        assert(choice(r) == choice(r));
        if r.1.spec_nanos() >= r.2.duration.spec_nanos() {
            assert(prev.push(r.0) =~= prev + seq![r.0]);
        }
    }
}

/// An entity succeeds exactly when the whole time it has been running, to
/// the nanosecond, has reached the duration of its action: the result holds,
/// in order, the entities of just those rows, each row decided on its own.
pub proof fn lemma_succeed_in_duration_compares_full_length(
    running: Seq<(Entity, Duration, SucceedInDuration)>,
)
    ensures
        succeed_in_duration_spec(running) == running.filter_map(
            |r: (Entity, Duration, SucceedInDuration)|
                if r.1.spec_nanos() >= r.2.duration.spec_nanos() {
                    Some(r.0)
                } else {
                    None::<Entity>
                },
        ),
        forall|i: int|
            0 <= i < running.len() && (#[trigger] running[i]).1.spec_nanos() < running[i].2.duration.spec_nanos()
                && (forall|j: int| 0 <= j < running.len() && j != i ==> running[j].0 != running[i].0)
                ==> !succeed_in_duration_spec(running).contains(running[i].0),
        forall|i: int|
            0 <= i < running.len() && (#[trigger] running[i]).1.spec_nanos() >= running[i].2.duration.spec_nanos()
                ==> succeed_in_duration_spec(running).contains(running[i].0),
{
    let choice = |r: (Entity, Duration, SucceedInDuration)|
        if r.1.spec_nanos() >= r.2.duration.spec_nanos() {
            Some(r.0)
        } else {
            None::<Entity>
        };
    lemma_succeed_filter_map(running, choice);
    assert forall|i: int|
        0 <= i < running.len() && (#[trigger] running[i]).1.spec_nanos() >= running[i].2.duration.spec_nanos()
            implies succeed_in_duration_spec(running).contains(running[i].0) by {
        crate::steering::lemma_filter_map_keeps(running, choice, i, running[i].0);
    }
    assert forall|i: int|
        0 <= i < running.len() && (#[trigger] running[i]).1.spec_nanos() < running[i].2.duration.spec_nanos()
            && (forall|j: int| 0 <= j < running.len() && j != i ==> running[j].0 != running[i].0)
            implies !succeed_in_duration_spec(running).contains(running[i].0) by {
        if running.filter_map(choice).contains(running[i].0) {
            running.lemma_filter_map_contains(choice, running[i].0);
            let t = choose|t: (Entity, Duration, SucceedInDuration)| #[trigger] running.contains(t) && choice(t)
                == Some(running[i].0);
            let j = choose|j: int| 0 <= j < running.len() && running[j] == t;
            assert(choice(running[j]) == Some(running[j].0));
        }
    }
}

/// The system of [`SucceedInDuration`]: given each running entity with the
/// time elapsed since its run started, returns the entities that succeed now.
pub fn succeed_in_duration(running: &Vec<(Entity, Duration, SucceedInDuration)>) -> (succeeded: Vec<Entity>)
    ensures
        succeeded@ == succeed_in_duration_spec(running@),
{
    let mut succeeded: Vec<Entity> = Vec::new();
    let n = running.len();
    for i in 0..n
        invariant
            n == running@.len(),
            succeeded@ == succeed_in_duration_spec(running@.take(i as int)),
    {
        let (entity, elapsed, action) = running[i];
        assert(running@.take(i + 1).drop_last() == running@.take(i as int));
        if elapsed.ge(&action.duration) {
            succeeded.push(entity);
        }
    }
    assert(running@.take(n as int) == running@);
    succeeded
}

} // verus!
