//! The events of the marketplace. Each successful operation yields exactly
//! one, for observers that index the records.

use vstd::prelude::*;
use crate::identity::Identity;

verus! {

/// An agent was registered.
#[derive(Clone, Debug, PartialEq, Eq)]
pub struct AgentRegistered {
    pub agent: Identity,
    pub owner: Identity,
    pub name: String,
}

/// A task was created and its escrow funded.
#[derive(Clone, Copy, Debug, PartialEq, Eq)]
pub struct TaskCreated {
    pub task: Identity,
    pub creator: Identity,
    pub budget: u64,
}

/// An agent took a task on.
#[derive(Clone, Copy, Debug, PartialEq, Eq)]
pub struct TaskAccepted {
    pub task: Identity,
    pub agent: Identity,
}

/// The assigned agent handed in a result.
#[derive(Clone, Debug, PartialEq, Eq)]
pub struct ResultSubmitted {
    pub task: Identity,
    pub result_uri: String,
}

/// The creator approved the result and the escrow was paid out.
#[derive(Clone, Copy, Debug, PartialEq, Eq)]
pub struct TaskCompleted {
    pub task: Identity,
    pub agent: Identity,
    pub payout: u64,
}

/// The creator rejected the result.
#[derive(Clone, Debug, PartialEq, Eq)]
pub struct TaskDisputed {
    pub task: Identity,
    pub reason: String,
}

} // verus!
