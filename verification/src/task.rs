//! Tasks and their status.

use vstd::prelude::*;
use crate::agent::capabilities_within_bounds;
use crate::identity::Identity;

verus! {

/// The longest task description, in characters.
pub const MAX_DESCRIPTION_LEN: usize = 256;

/// Where a task stands. `Open` is the initial status; `Completed` and
/// `Disputed` are final. No operation produces `Cancelled`.
#[derive(Clone, Copy, Debug, PartialEq, Eq, Structural)]
pub enum TaskStatus {
    Open,
    InProgress,
    PendingReview,
    Completed,
    Disputed,
    Cancelled,
}

impl TaskStatus {
    /// A status that no operation leaves.
    pub open spec fn is_terminal(self) -> bool {
        self == TaskStatus::Completed || self == TaskStatus::Disputed || self
            == TaskStatus::Cancelled
    }

    /// A status in which a result has been handed in.
    pub open spec fn has_result(self) -> bool {
        self == TaskStatus::PendingReview || self == TaskStatus::Completed || self
            == TaskStatus::Disputed
    }
}

/// A task with its escrowed budget.
#[derive(Clone, Debug, PartialEq, Eq)]
pub struct Task {
    pub creator: Identity,
    pub description: String,
    pub required_capabilities: Vec<String>,
    pub budget: u64,
    pub deadline: i64,
    pub status: TaskStatus,
    pub assigned_agent: Option<Identity>,
    pub result_uri: Option<String>,
    pub escrow: Identity,
    pub created_at: i64,
}

/// What a new task may carry: a description and a set of required
/// capabilities within bounds.
pub open spec fn task_within_bounds(description: Seq<char>, required: Seq<String>) -> bool {
    &&& description.len() <= MAX_DESCRIPTION_LEN
    &&& capabilities_within_bounds(required)
}

impl Task {
    /// The record's invariant: description and required capabilities within
    /// bounds; no agent assigned exactly while the task is open; a result
    /// held exactly once one has been handed in.
    pub open spec fn wf(&self) -> bool {
        &&& task_within_bounds(self.description@, self.required_capabilities@)
        &&& (self.assigned_agent is None <==> self.status == TaskStatus::Open)
        &&& (self.result_uri is Some <==> self.status.has_result())
    }

    /// How much of the budget, deposited at creation, the lifecycle has left
    /// in the task's escrow: all of it until the task is completed, nothing
    /// after.
    pub open spec fn escrowed(&self) -> nat {
        if self.status == TaskStatus::Completed {
            0
        } else {
            self.budget as nat
        }
    }
}

} // verus!
