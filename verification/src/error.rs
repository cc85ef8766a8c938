//! The rejections of the task lifecycle.

use vstd::prelude::*;
use vstd::string::*;
use anchor_lang::prelude::ProgramError;

verus! {

/// Why an operation was rejected. A rejected operation changes nothing.
#[derive(Clone, Copy, Debug, PartialEq, Eq, Structural)]
pub enum ErrorCode {
    /// The task is not open for acceptance.
    TaskNotOpen,
    /// The agent is not active.
    AgentNotActive,
    /// The task's deadline has passed.
    TaskExpired,
    /// The agent lacks a capability that the task requires.
    MissingCapability,
    /// The task is not in progress.
    TaskNotInProgress,
    /// The submitting agent is not the one the task is assigned to.
    NotAssignedAgent,
    /// The task is not pending review.
    TaskNotPendingReview,
}

impl ErrorCode {
    /// The text of the rejection.
    pub open spec fn text(self) -> Seq<char> {
        match self {
            ErrorCode::TaskNotOpen => "Task is not open for acceptance"@,
            ErrorCode::AgentNotActive => "Agent is not active"@,
            ErrorCode::TaskExpired => "Task has expired"@,
            ErrorCode::MissingCapability => "Agent missing required capability"@,
            ErrorCode::TaskNotInProgress => "Task is not in progress"@,
            ErrorCode::NotAssignedAgent => "Caller is not the assigned agent"@,
            ErrorCode::TaskNotPendingReview => "Task is not pending review"@,
        }
    }

    /// The rejection in words.
    pub fn message(&self) -> (words: String)
        ensures
            words@ == self.text(),
    {
        match self {
            ErrorCode::TaskNotOpen => String::from_str("Task is not open for acceptance"),
            ErrorCode::AgentNotActive => String::from_str("Agent is not active"),
            ErrorCode::TaskExpired => String::from_str("Task has expired"),
            ErrorCode::MissingCapability => String::from_str("Agent missing required capability"),
            ErrorCode::TaskNotInProgress => String::from_str("Task is not in progress"),
            ErrorCode::NotAssignedAgent => String::from_str("Caller is not the assigned agent"),
            ErrorCode::TaskNotPendingReview => String::from_str("Task is not pending review"),
        }
    }
}

/// Why an operation did not go through. Whatever the reason, nothing was
/// changed and no transfer was ordered.
#[derive(Debug, PartialEq, Eq)]
pub enum Failure {
    /// The lifecycle rejected the operation.
    Rejected(ErrorCode),
    /// The signer is not the identity that the operation asks for: the
    /// agent's owner for acceptance and submission, the task's creator for
    /// approval and rejection.
    WrongSigner,
    /// The account to be paid does not belong to the agent's owner.
    WrongDestination,
    /// The host's clock could not be read.
    ClockUnavailable(ProgramError),
}

} // verus!
