use vstd::prelude::*;

use crate::entity::Entity;

verus! {

/// The outcome of a behavior once it has stopped running.
#[derive(Debug, Clone, Copy, PartialEq, Eq, Hash, Structural)]
pub enum RunResult {
    Success,
    Failure,
}

impl Default for RunResult {
    /// A run result defaults to [`RunResult::Success`].
    fn default() -> (r: Self)
        ensures
            r == RunResult::Success,
    {
        RunResult::Success
    }
}

/// Signifies a behavior has stopped running.
#[derive(Debug, Clone, Copy, PartialEq, Eq, Structural)]
pub struct OnRunResult(RunResult);

impl View for OnRunResult {
    type V = RunResult;

    closed spec fn view(&self) -> RunResult {
        self.0
    }
}

impl Default for OnRunResult {
    /// Defaults to a successful result.
    fn default() -> (r: Self)
        ensures
            r@ == RunResult::Success,
    {
        OnRunResult(RunResult::Success)
    }
}

impl OnRunResult {
    pub fn new(result: RunResult) -> (r: Self)
        ensures
            r@ == result,
    {
        OnRunResult(result)
    }

    /// Populate with [`RunResult::Success`]
    pub fn success() -> (r: Self)
        ensures
            r@ == RunResult::Success,
    {
        OnRunResult(RunResult::Success)
    }

    /// Populate with [`RunResult::Failure`]
    pub fn failure() -> (r: Self)
        ensures
            r@ == RunResult::Failure,
    {
        OnRunResult(RunResult::Failure)
    }

    pub fn result(&self) -> (r: RunResult)
        ensures
            r == self@,
    {
        self.0
    }
}

/// A value reported to a parent behavior by one of its children.
#[derive(Debug, Clone, Copy, PartialEq, Eq)]
pub struct OnChildValue<T> {
    child: Entity,
    value: T,
}

impl<T> OnChildValue<T> {
    pub closed spec fn spec_child(&self) -> Entity {
        self.child
    }

    pub closed spec fn spec_value(&self) -> T {
        self.value
    }

    pub fn new(child: Entity, value: T) -> (r: Self)
        ensures
            r.spec_child() == child,
            r.spec_value() == value,
    {
        OnChildValue { child, value }
    }

    /// The child that reported the value.
    pub fn child(&self) -> (r: Entity)
        ensures
            r == self.spec_child(),
    {
        self.child
    }

    pub fn value(&self) -> (r: &T)
        ensures
            *r == self.spec_value(),
    {
        &self.value
    }
}

/// A child reporting that it has stopped running.
pub type OnChildResult = OnChildValue<RunResult>;

impl OnChildValue<RunResult> {
    pub fn success(child: Entity) -> (r: Self)
        ensures
            r.spec_child() == child,
            r.spec_value() == RunResult::Success,
    {
        Self::new(child, RunResult::Success)
    }

    pub fn failure(child: Entity) -> (r: Self)
        ensures
            r.spec_child() == child,
            r.spec_value() == RunResult::Failure,
    {
        Self::new(child, RunResult::Failure)
    }
}

} // verus!
