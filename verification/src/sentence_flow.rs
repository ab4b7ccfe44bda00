use vstd::prelude::*;

use crate::entity::Entity;

verus! {

/// A sentence that stands for an agent or a child behavior.
#[derive(Debug, Clone)]
pub struct Sentence(pub String);

impl Sentence {
    pub fn new(s: &str) -> (r: Self)
        ensures
            r.0@ == s@,
    {
        Sentence(String::from_str(s))
    }
}

/// Runs the child whose [`Sentence`] is most similar to that of the agent.
#[derive(Debug, Clone, Copy, PartialEq, Eq, Default)]
pub struct SentenceFlow;

impl SentenceFlow {
    pub fn new() -> (r: Self) {
        SentenceFlow
    }
}

/// What a [`SentenceFlow`] does once it is run.
#[derive(Debug, Clone)]
pub enum SentenceFlowStep {
    /// The sentence model is not loaded yet: nothing runs.
    NotReady,
    /// Run this child.
    Run(Entity),
    /// No child could be chosen, for this reason.
    Failed(String),
}

/// The decision of a [`SentenceFlow`] once it is run, from what the sentence
/// model answered: `None` while the model is not loaded, else the child
/// closest in meaning to the agent's sentence, or why there is none.
pub fn sentence_flow(closest: Option<Result<Entity, String>>) -> (step: SentenceFlowStep)
    ensures
        closest is None ==> step is NotReady,
        closest matches Some(Ok(e)) ==> step == SentenceFlowStep::Run(e),
        closest matches Some(Err(msg)) ==> step == SentenceFlowStep::Failed(msg),
{
    match closest {
        None => SentenceFlowStep::NotReady,
        Some(Ok(e)) => SentenceFlowStep::Run(e),
        Some(Err(msg)) => SentenceFlowStep::Failed(msg),
    }
}

} // verus!
