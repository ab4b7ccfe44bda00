use vstd::prelude::*;

pub mod action_target;
pub mod bee_game;
pub mod component_utils;
pub mod duration;
pub mod entity;
pub mod graph;
pub mod lifecycle;
pub mod post_message;
pub mod run_result;
pub mod sentence_flow;
pub mod simple_actions;
pub mod steering;

verus! {

} // verus!
