use vstd::prelude::*;

verus! {

/// Runs before [`TickSet`]: things that need to happen before the tick.
#[derive(Debug, Clone, Copy, PartialEq, Eq, Hash, Structural)]
pub struct PreTickSet;

/// The set in which actions are run.
#[derive(Debug, Clone, Copy, PartialEq, Eq, Hash, Structural)]
pub struct TickSet;

/// Runs after [`TickSet`].
#[derive(Debug, Clone, Copy, PartialEq, Eq, Hash, Structural)]
pub struct PostTickSet;

/// One of the three system sets of a tick.
#[derive(Debug, Clone, Copy, PartialEq, Eq, Hash, Structural)]
pub enum TickPhase {
    PreTick,
    Tick,
    PostTick,
}

/// The systems that the lifecycle plugin schedules.
#[derive(Debug, Clone, Copy, PartialEq, Eq, Hash, Structural)]
pub enum LifecycleSystem {
    /// Makes the root of a behavior the target entity where none is set.
    SetRootAsTargetEntity,
}

/// The observers that the lifecycle plugin adds to the world.
#[derive(Debug, Clone, Copy, PartialEq, Eq, Hash, Structural)]
pub enum LifecycleObserver {
    /// Passes a run result on to the parent behavior.
    BubbleRunResult,
    /// Stops the running children of a behavior that is run again.
    InterruptOnRun,
    /// Stops the running children of a behavior that has a result.
    InterruptOnRunResult,
}

/// What the lifecycle plugin adds to an app, in the order it adds it.
pub struct LifecycleSchedule {
    /// Each system set, with the set it is configured to run after.
    pub sets: Vec<(TickPhase, Option<TickPhase>)>,
    /// Each system, with the set it runs in.
    pub systems: Vec<(LifecycleSystem, TickPhase)>,
    /// The observers added to the world.
    pub observers: Vec<LifecycleObserver>,
}

/// Helpers that clean up run state.
#[derive(Debug, Clone, Copy, Default)]
pub struct LifecycleSystemsPlugin;

impl LifecycleSystemsPlugin {
    /// The number of observers that the plugin adds, which validating scene
    /// exports relies on.
    pub const NUM_OBSERVERS: u32 = 3;

    /// The sets, systems and observers that the plugin adds to an app.
    pub fn build(&self) -> (s: LifecycleSchedule)
        ensures
            s.sets@ == seq![
                (TickPhase::PreTick, None),
                (TickPhase::Tick, Some(TickPhase::PreTick)),
                (TickPhase::PostTick, Some(TickPhase::Tick)),
            ],
            s.systems@ == seq![(LifecycleSystem::SetRootAsTargetEntity, TickPhase::PreTick)],
            s.observers@ == seq![
                LifecycleObserver::BubbleRunResult,
                LifecycleObserver::InterruptOnRun,
                LifecycleObserver::InterruptOnRunResult,
            ],
            s.observers@.len() == Self::NUM_OBSERVERS,
    {
        let mut sets = Vec::new();
        sets.push((TickPhase::PreTick, None));
        sets.push((TickPhase::Tick, Some(TickPhase::PreTick)));
        sets.push((TickPhase::PostTick, Some(TickPhase::Tick)));
        let mut systems = Vec::new();
        systems.push((LifecycleSystem::SetRootAsTargetEntity, TickPhase::PreTick));
        let mut observers = Vec::new();
        observers.push(LifecycleObserver::BubbleRunResult);
        observers.push(LifecycleObserver::InterruptOnRun);
        observers.push(LifecycleObserver::InterruptOnRunResult);
        LifecycleSchedule { sets, systems, observers }
    }
}

} // verus!
