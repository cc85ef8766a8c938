//! The task lifecycle: create, accept, submit, approve, reject.
//!
//! Each operation validates, then changes the records it was handed, and
//! yields the event of its outcome together with the transfer that is due,
//! if any. A rejected operation changes nothing and yields no transfer.

use vstd::prelude::*;
use vstd::string::*;
use crate::agent::{capabilities_fit, covers, Agent};
use crate::clock::unix_timestamp;
use crate::error::{ErrorCode, Failure};
use crate::events::{ResultSubmitted, TaskAccepted, TaskCompleted, TaskCreated, TaskDisputed};
use crate::identity::{is_some_of, Identity};
use crate::reputation::{calculate_reputation, reputation_of};
use crate::settlement::{Deposit, Release};
use crate::task::{task_within_bounds, Task, TaskStatus, MAX_DESCRIPTION_LEN};

verus! {

/// The accounts of a task's creation: the addresses of the new task record
/// and of its escrow, the creator, and the creator's funding account.
#[derive(Clone, Copy, Debug, PartialEq, Eq)]
pub struct CreateTask {
    pub task: Identity,
    pub escrow: Identity,
    pub creator: Identity,
    pub creator_token: Identity,
}

/// The records of an acceptance: the task, the agent that claims it, and the
/// agent's owner, who signs.
#[derive(Clone, Debug, PartialEq, Eq)]
pub struct AcceptTask {
    pub task_key: Identity,
    pub task: Task,
    pub agent_key: Identity,
    pub agent: Agent,
    pub agent_owner: Identity,
}

/// The records of a submission: the task, the submitting agent, and the
/// agent's owner, who signs.
#[derive(Clone, Debug, PartialEq, Eq)]
pub struct SubmitResult {
    pub task_key: Identity,
    pub task: Task,
    pub agent_key: Identity,
    pub agent: Agent,
    pub agent_owner: Identity,
}

/// The records of an approval: the task, the agent to be paid, the agent's
/// receiving account and who holds it, the bump of the escrow's derived
/// address, and the creator, who signs.
#[derive(Clone, Debug, PartialEq, Eq)]
pub struct ApproveResult {
    pub task_key: Identity,
    pub task: Task,
    pub agent_key: Identity,
    pub agent: Agent,
    pub agent_token: Identity,
    pub agent_token_owner: Identity,
    pub escrow_bump: u8,
    pub creator: Identity,
}

/// The records of a rejection: the task, the agent whose result is
/// rejected, and the creator, who signs.
#[derive(Clone, Debug, PartialEq, Eq)]
pub struct RejectResult {
    pub task_key: Identity,
    pub task: Task,
    pub agent_key: Identity,
    pub agent: Agent,
    pub creator: Identity,
}

impl AcceptTask {
    /// Whether the signer is the identity that an acceptance asks for: the
    /// agent's owner.
    pub fn signed_by_owner(&self) -> (r: bool)
        ensures
            r == (self.agent_owner == self.agent.owner),
    {
        self.agent_owner.same(&self.agent.owner)
    }
}

impl SubmitResult {
    /// Whether the signer is the identity that a submission asks for: the
    /// agent's owner.
    pub fn signed_by_owner(&self) -> (r: bool)
        ensures
            r == (self.agent_owner == self.agent.owner),
    {
        self.agent_owner.same(&self.agent.owner)
    }
}

impl ApproveResult {
    /// Whether the signer is the identity that an approval asks for: the
    /// task's creator.
    pub fn signed_by_creator(&self) -> (r: bool)
        ensures
            r == (self.creator == self.task.creator),
    {
        self.creator.same(&self.task.creator)
    }

    /// Whether the agent to be paid is the one that the task is assigned to.
    pub fn names_assigned_agent(&self) -> (r: bool)
        ensures
            r == (self.task.assigned_agent == Some(self.agent_key)),
    {
        is_some_of(&self.task.assigned_agent, &self.agent_key)
    }

    /// Whether the receiving account is held by the agent's owner.
    pub fn pays_agent_owner(&self) -> (r: bool)
        ensures
            r == (self.agent_token_owner == self.agent.owner),
    {
        self.agent_token_owner.same(&self.agent.owner)
    }

    /// Whether an approval may be asked for: it would be rejected, or the
    /// agent's counters have room for it.
    pub fn has_room(&self) -> (r: bool)
        ensures
            r == (approve_rejection(*self) is None ==> approval_in_range(*self)),
    {
        let due = self.task.status == TaskStatus::PendingReview && self.names_assigned_agent()
            && self.signed_by_creator() && self.pays_agent_owner();
        !due || (self.agent.tasks_completed < u64::MAX && self.agent.total_earned <= u64::MAX
            - self.task.budget)
    }
}

impl RejectResult {
    /// Whether the signer is the identity that a rejection asks for: the
    /// task's creator.
    pub fn signed_by_creator(&self) -> (r: bool)
        ensures
            r == (self.creator == self.task.creator),
    {
        self.creator.same(&self.task.creator)
    }

    /// Whether the agent to be charged is the one that the task is assigned
    /// to.
    pub fn names_assigned_agent(&self) -> (r: bool)
        ensures
            r == (self.task.assigned_agent == Some(self.agent_key)),
    {
        is_some_of(&self.task.assigned_agent, &self.agent_key)
    }

    /// Whether a rejection may be asked for: it would be refused, or the
    /// agent's counters have room for it.
    pub fn has_room(&self) -> (r: bool)
        ensures
            r == (reject_rejection(*self) is None ==> rejection_in_range(*self)),
    {
        let due = self.task.status == TaskStatus::PendingReview && self.names_assigned_agent()
            && self.signed_by_creator();
        !due || self.agent.tasks_failed < u64::MAX
    }
}

/// Whether a description and a set of required capabilities may make a task.
pub fn task_fits(description: &String, required_capabilities: &Vec<String>) -> (fit: bool)
    ensures
        fit == task_within_bounds(description@, required_capabilities@),
{
    description.as_str().unicode_len() <= MAX_DESCRIPTION_LEN && capabilities_fit(
        required_capabilities,
    )
}

/// The task that a creation at time `now` makes: open, unassigned, without
/// a result, bound to the escrow of `ctx`.
pub open spec fn created(
    ctx: CreateTask,
    description: String,
    required_capabilities: Vec<String>,
    max_budget: u64,
    deadline: i64,
    now: i64,
) -> Task {
    Task {
        creator: ctx.creator,
        description: description,
        required_capabilities: required_capabilities,
        budget: max_budget,
        deadline: deadline,
        status: TaskStatus::Open,
        assigned_agent: None,
        result_uri: None,
        escrow: ctx.escrow,
        created_at: now,
    }
}

/// The deposit that a creation orders: the whole budget, from the creator's
/// funding account into the task's escrow, signed by the creator.
pub open spec fn deposit_due(ctx: CreateTask, max_budget: u64) -> Deposit {
    Deposit {
        from: ctx.creator_token,
        escrow: ctx.escrow,
        authority: ctx.creator,
        amount: max_budget,
    }
}

/// Creates an open task at the time that the host's clock gives, and orders
/// the deposit of its whole budget. Only a host whose clock cannot be read
/// makes it fail.
pub fn create_task(
    ctx: &CreateTask,
    description: String,
    required_capabilities: Vec<String>,
    max_budget: u64,
    deadline: i64,
) -> (res: Result<(Task, Deposit, TaskCreated), Failure>)
    requires
        task_within_bounds(description@, required_capabilities@),
    ensures
        match res {
            Ok(out) => {
                &&& out.0 == created(
                    *ctx,
                    description,
                    required_capabilities,
                    max_budget,
                    deadline,
                    out.0.created_at,
                )
                &&& out.1 == deposit_due(*ctx, max_budget)
                &&& out.2 == (TaskCreated {
                    task: ctx.task,
                    creator: ctx.creator,
                    budget: max_budget,
                })
                &&& out.0.wf()
                &&& out.0.escrowed() == max_budget
            },
            Err(failure) => failure is ClockUnavailable,
        },
{
    match unix_timestamp() {
        Ok(now) => Ok(
            create_task_at(ctx, description, required_capabilities, max_budget, deadline, now),
        ),
        Err(refusal) => Err(Failure::ClockUnavailable(refusal)),
    }
}

/// Creates an open task at time `now` and orders the deposit of its whole
/// budget from the creator's funding account into its escrow. The caller
/// carries the deposit out; if the gateway refuses it, for want of funds or
/// for the accounts, the task is to be dropped with it.
pub fn create_task_at(
    ctx: &CreateTask,
    description: String,
    required_capabilities: Vec<String>,
    max_budget: u64,
    deadline: i64,
    now: i64,
) -> (out: (Task, Deposit, TaskCreated))
    requires
        task_within_bounds(description@, required_capabilities@),
    ensures
        out.0 == created(*ctx, description, required_capabilities, max_budget, deadline, now),
        out.1 == deposit_due(*ctx, max_budget),
        out.2 == (TaskCreated { task: ctx.task, creator: ctx.creator, budget: max_budget }),
        out.0.wf(),
        out.0.escrowed() == max_budget,
{
    let task = Task {
        creator: ctx.creator,
        description,
        required_capabilities,
        budget: max_budget,
        deadline,
        status: TaskStatus::Open,
        assigned_agent: None,
        result_uri: None,
        escrow: ctx.escrow,
        created_at: now,
    };
    let deposit = Deposit {
        from: ctx.creator_token,
        escrow: ctx.escrow,
        authority: ctx.creator,
        amount: max_budget,
    };
    let event = TaskCreated { task: ctx.task, creator: ctx.creator, budget: max_budget };
    (task, deposit, event)
}

/// Why an acceptance at time `now` is rejected, if it is. The checks run in
/// this order and the first that fails decides: the task's status, the
/// agent's activity, the deadline, the capabilities, and last the signer,
/// who must be the agent's owner.
pub open spec fn accept_rejection(ctx: AcceptTask, now: i64) -> Option<Failure> {
    if ctx.task.status != TaskStatus::Open {
        Some(Failure::Rejected(ErrorCode::TaskNotOpen))
    } else if !ctx.agent.is_active {
        Some(Failure::Rejected(ErrorCode::AgentNotActive))
    } else if now >= ctx.task.deadline {
        Some(Failure::Rejected(ErrorCode::TaskExpired))
    } else if !covers(ctx.agent.capabilities@, ctx.task.required_capabilities@) {
        Some(Failure::Rejected(ErrorCode::MissingCapability))
    } else if ctx.agent_owner != ctx.agent.owner {
        Some(Failure::WrongSigner)
    } else {
        None
    }
}

/// The records after an acceptance at time `now`: the task assigned and in
/// progress, or everything as it was if the acceptance is rejected.
pub open spec fn accept_next(ctx: AcceptTask, now: i64) -> AcceptTask {
    if accept_rejection(ctx, now) is Some {
        ctx
    } else {
        AcceptTask {
            task: Task {
                assigned_agent: Some(ctx.agent_key),
                status: TaskStatus::InProgress,
                ..ctx.task
            },
            ..ctx
        }
    }
}

/// What an acceptance at time `now` returns.
pub open spec fn accept_outcome(ctx: AcceptTask, now: i64) -> Result<TaskAccepted, Failure> {
    match accept_rejection(ctx, now) {
        Some(e) => Err(e),
        None => Ok(TaskAccepted { task: ctx.task_key, agent: ctx.agent_key }),
    }
}

/// Why an acceptance is rejected before the clock is read, if it is.
pub open spec fn accept_rejection_early(ctx: AcceptTask) -> Option<Failure> {
    if ctx.task.status != TaskStatus::Open {
        Some(Failure::Rejected(ErrorCode::TaskNotOpen))
    } else if !ctx.agent.is_active {
        Some(Failure::Rejected(ErrorCode::AgentNotActive))
    } else {
        None
    }
}

/// The agent of `ctx` takes the task on, at the time that the host's clock
/// gives. A task that is not open and an agent that is not active are turned
/// away without a look at the clock; after that, a clock that cannot be read
/// fails the acceptance, and a time that it gives decides as in
/// `accept_task_at`.
pub fn accept_task(ctx: &mut AcceptTask) -> (res: Result<TaskAccepted, Failure>)
    ensures
        match accept_rejection_early(*old(ctx)) {
            Some(e) => res == Err::<TaskAccepted, Failure>(e) && *final(ctx) == *old(ctx),
            None => {
                ||| res matches Err(Failure::ClockUnavailable(_)) && *final(ctx) == *old(ctx)
                ||| exists|now: i64|
                    res == #[trigger] accept_outcome(*old(ctx), now) && *final(ctx)
                        == accept_next(*old(ctx), now)
            },
        },
        old(ctx).task.wf() ==> final(ctx).task.wf(),
{
    if ctx.task.status != TaskStatus::Open {
        return Err(Failure::Rejected(ErrorCode::TaskNotOpen));
    }
    if !ctx.agent.is_active {
        return Err(Failure::Rejected(ErrorCode::AgentNotActive));
    }
    match unix_timestamp() {
        Ok(now) => accept_task_at(ctx, now),
        Err(refusal) => Err(Failure::ClockUnavailable(refusal)),
    }
}

/// The agent of `ctx` takes the task on, at time `now`, signed by its owner.
pub fn accept_task_at(ctx: &mut AcceptTask, now: i64) -> (res: Result<TaskAccepted, Failure>)
    ensures
        res == accept_outcome(*old(ctx), now),
        *final(ctx) == accept_next(*old(ctx), now),
        old(ctx).task.wf() ==> final(ctx).task.wf(),
{
    if ctx.task.status != TaskStatus::Open {
        return Err(Failure::Rejected(ErrorCode::TaskNotOpen));
    }
    if !ctx.agent.is_active {
        return Err(Failure::Rejected(ErrorCode::AgentNotActive));
    }
    if now >= ctx.task.deadline {
        return Err(Failure::Rejected(ErrorCode::TaskExpired));
    }
    if !ctx.agent.covers(&ctx.task.required_capabilities) {
        return Err(Failure::Rejected(ErrorCode::MissingCapability));
    }
    if !ctx.signed_by_owner() {
        return Err(Failure::WrongSigner);
    }
    ctx.task.assigned_agent = Some(ctx.agent_key);
    ctx.task.status = TaskStatus::InProgress;
    Ok(TaskAccepted { task: ctx.task_key, agent: ctx.agent_key })
}

/// Why a submission is rejected, if it is. The checks run in this order and
/// the first that fails decides: the task's status, the assigned agent, and
/// last the signer, who must be the agent's owner.
pub open spec fn submit_rejection(ctx: SubmitResult) -> Option<Failure> {
    if ctx.task.status != TaskStatus::InProgress {
        Some(Failure::Rejected(ErrorCode::TaskNotInProgress))
    } else if ctx.task.assigned_agent != Some(ctx.agent_key) {
        Some(Failure::Rejected(ErrorCode::NotAssignedAgent))
    } else if ctx.agent_owner != ctx.agent.owner {
        Some(Failure::WrongSigner)
    } else {
        None
    }
}

/// The records after a submission of `result_uri`: the result held and the
/// task pending review, or everything as it was if the submission is
/// rejected.
pub open spec fn submit_next(ctx: SubmitResult, result_uri: String) -> SubmitResult {
    if submit_rejection(ctx) is Some {
        ctx
    } else {
        SubmitResult {
            task: Task {
                result_uri: Some(result_uri),
                status: TaskStatus::PendingReview,
                ..ctx.task
            },
            ..ctx
        }
    }
}

/// What a submission of `result_uri` returns.
pub open spec fn submit_outcome(ctx: SubmitResult, result_uri: String) -> Result<
    ResultSubmitted,
    Failure,
> {
    match submit_rejection(ctx) {
        Some(e) => Err(e),
        None => Ok(ResultSubmitted { task: ctx.task_key, result_uri: result_uri }),
    }
}

/// The agent of `ctx` hands in the result of the task assigned to it, signed
/// by its owner.
pub fn submit_result(ctx: &mut SubmitResult, result_uri: String) -> (res: Result<
    ResultSubmitted,
    Failure,
>)
    ensures
        res == submit_outcome(*old(ctx), result_uri),
        *final(ctx) == submit_next(*old(ctx), result_uri),
        old(ctx).task.wf() ==> final(ctx).task.wf(),
{
    if ctx.task.status != TaskStatus::InProgress {
        return Err(Failure::Rejected(ErrorCode::TaskNotInProgress));
    }
    if !is_some_of(&ctx.task.assigned_agent, &ctx.agent_key) {
        return Err(Failure::Rejected(ErrorCode::NotAssignedAgent));
    }
    if !ctx.signed_by_owner() {
        return Err(Failure::WrongSigner);
    }
    let event = ResultSubmitted { task: ctx.task_key, result_uri: result_uri.clone() };
    ctx.task.result_uri = Some(result_uri);
    ctx.task.status = TaskStatus::PendingReview;
    Ok(event)
}

/// Why an approval is rejected, if it is. The checks run in this order and
/// the first that fails decides: the task's status; the agent, who must be
/// the one the task is assigned to; the signer, who must be the task's
/// creator; and the receiving account, which the agent's owner must hold.
pub open spec fn approve_rejection(ctx: ApproveResult) -> Option<Failure> {
    if ctx.task.status != TaskStatus::PendingReview {
        Some(Failure::Rejected(ErrorCode::TaskNotPendingReview))
    } else if ctx.task.assigned_agent != Some(ctx.agent_key) {
        Some(Failure::Rejected(ErrorCode::NotAssignedAgent))
    } else if ctx.creator != ctx.task.creator {
        Some(Failure::WrongSigner)
    } else if ctx.agent_token_owner != ctx.agent.owner {
        Some(Failure::WrongDestination)
    } else {
        None
    }
}

/// Whether the agent's counters have room for one more completed task paid
/// with the task's budget.
pub open spec fn approval_in_range(ctx: ApproveResult) -> bool {
    &&& ctx.agent.tasks_completed < u64::MAX
    &&& ctx.agent.total_earned + ctx.task.budget <= u64::MAX
}

/// The records after an approval: the task completed, the agent credited
/// with one more completed task and the task's budget, and its score brought
/// up to date; or everything as it was if the approval is rejected.
pub open spec fn approve_next(ctx: ApproveResult) -> ApproveResult {
    if approve_rejection(ctx) is Some {
        ctx
    } else {
        ApproveResult {
            task: Task { status: TaskStatus::Completed, ..ctx.task },
            agent: Agent {
                tasks_completed: (ctx.agent.tasks_completed + 1) as u64,
                total_earned: (ctx.agent.total_earned + ctx.task.budget) as u64,
                reputation_score: reputation_of(
                    (ctx.agent.tasks_completed + 1) as nat,
                    ctx.agent.tasks_failed as nat,
                ) as u64,
                ..ctx.agent
            },
            ..ctx
        }
    }
}

/// The payout that a successful approval orders: the task's whole budget,
/// out of the task's escrow, to the agent's receiving account.
pub open spec fn release_due(ctx: ApproveResult) -> Release {
    Release {
        escrow: ctx.task.escrow,
        to: ctx.agent_token,
        task: ctx.task_key,
        bump: ctx.escrow_bump,
        amount: ctx.task.budget,
    }
}

/// What an approval returns: the payout it orders and its event, or the
/// rejection.
pub open spec fn approve_outcome(ctx: ApproveResult) -> Result<(Release, TaskCompleted), Failure> {
    match approve_rejection(ctx) {
        Some(e) => Err(e),
        None => Ok(
            (
                release_due(ctx),
                TaskCompleted { task: ctx.task_key, agent: ctx.agent_key, payout: ctx.task.budget },
            ),
        ),
    }
}

/// The creator approves the result of the agent that the task is assigned
/// to: the task is completed, the agent's counters and score are brought up
/// to date, and the payout to the account of the agent's owner is ordered.
/// The caller carries the payout out; if the gateway refuses it, the changed
/// records are to be dropped with it. An approval that the agent's counters
/// have no room for may not be asked for: see `ApproveResult::has_room`.
pub fn approve_result(ctx: &mut ApproveResult) -> (res: Result<(Release, TaskCompleted), Failure>)
    requires
        approve_rejection(*old(ctx)) is None ==> approval_in_range(*old(ctx)),
    ensures
        res == approve_outcome(*old(ctx)),
        *final(ctx) == approve_next(*old(ctx)),
        old(ctx).task.wf() ==> final(ctx).task.wf(),
        old(ctx).agent.wf() ==> final(ctx).agent.wf(),
        final(ctx).agent.reputation_score == reputation_of(
            final(ctx).agent.tasks_completed as nat,
            final(ctx).agent.tasks_failed as nat,
        ) || res is Err,
{
    if ctx.task.status != TaskStatus::PendingReview {
        return Err(Failure::Rejected(ErrorCode::TaskNotPendingReview));
    }
    if !ctx.names_assigned_agent() {
        return Err(Failure::Rejected(ErrorCode::NotAssignedAgent));
    }
    if !ctx.signed_by_creator() {
        return Err(Failure::WrongSigner);
    }
    if !ctx.pays_agent_owner() {
        return Err(Failure::WrongDestination);
    }
    let release = Release {
        escrow: ctx.task.escrow,
        to: ctx.agent_token,
        task: ctx.task_key,
        bump: ctx.escrow_bump,
        amount: ctx.task.budget,
    };
    ctx.agent.tasks_completed = ctx.agent.tasks_completed + 1;
    ctx.agent.total_earned = ctx.agent.total_earned + ctx.task.budget;
    ctx.agent.reputation_score = calculate_reputation(
        ctx.agent.tasks_completed,
        ctx.agent.tasks_failed,
    );
    ctx.task.status = TaskStatus::Completed;
    Ok((release, TaskCompleted { task: ctx.task_key, agent: ctx.agent_key, payout: ctx.task.budget }))
}

/// Why a rejection of the result is itself refused, if it is. The checks
/// run in this order and the first that fails decides: the task's status;
/// the agent, who must be the one the task is assigned to; and the signer,
/// who must be the task's creator.
pub open spec fn reject_rejection(ctx: RejectResult) -> Option<Failure> {
    if ctx.task.status != TaskStatus::PendingReview {
        Some(Failure::Rejected(ErrorCode::TaskNotPendingReview))
    } else if ctx.task.assigned_agent != Some(ctx.agent_key) {
        Some(Failure::Rejected(ErrorCode::NotAssignedAgent))
    } else if ctx.creator != ctx.task.creator {
        Some(Failure::WrongSigner)
    } else {
        None
    }
}

/// Whether the agent's counters have room for one more failed task.
pub open spec fn rejection_in_range(ctx: RejectResult) -> bool {
    ctx.agent.tasks_failed < u64::MAX
}

/// The records after the creator has rejected the result: the task
/// disputed, the agent charged with one more failed task, and its score
/// brought up to date; or everything as it was if the rejection is refused.
pub open spec fn reject_next(ctx: RejectResult) -> RejectResult {
    if reject_rejection(ctx) is Some {
        ctx
    } else {
        RejectResult {
            task: Task { status: TaskStatus::Disputed, ..ctx.task },
            agent: Agent {
                tasks_failed: (ctx.agent.tasks_failed + 1) as u64,
                reputation_score: reputation_of(
                    ctx.agent.tasks_completed as nat,
                    (ctx.agent.tasks_failed + 1) as nat,
                ) as u64,
                ..ctx.agent
            },
            ..ctx
        }
    }
}

/// What a rejection of the result for `reason` returns.
pub open spec fn reject_outcome(ctx: RejectResult, reason: String) -> Result<
    TaskDisputed,
    Failure,
> {
    match reject_rejection(ctx) {
        Some(e) => Err(e),
        None => Ok(TaskDisputed { task: ctx.task_key, reason: reason }),
    }
}

/// The creator rejects, for `reason`, the result of the agent that the task
/// is assigned to: the task is disputed and the agent's counters and score
/// are brought up to date. Nothing is paid out.
/// A rejection that the agent's counters have no room for may not be asked
/// for: see `RejectResult::has_room`.
pub fn reject_result(ctx: &mut RejectResult, reason: String) -> (res: Result<
    TaskDisputed,
    Failure,
>)
    requires
        reject_rejection(*old(ctx)) is None ==> rejection_in_range(*old(ctx)),
    ensures
        res == reject_outcome(*old(ctx), reason),
        *final(ctx) == reject_next(*old(ctx)),
        old(ctx).task.wf() ==> final(ctx).task.wf(),
        old(ctx).agent.wf() ==> final(ctx).agent.wf(),
        final(ctx).agent.reputation_score == reputation_of(
            final(ctx).agent.tasks_completed as nat,
            final(ctx).agent.tasks_failed as nat,
        ) || res is Err,
{
    if ctx.task.status != TaskStatus::PendingReview {
        return Err(Failure::Rejected(ErrorCode::TaskNotPendingReview));
    }
    if !ctx.names_assigned_agent() {
        return Err(Failure::Rejected(ErrorCode::NotAssignedAgent));
    }
    if !ctx.signed_by_creator() {
        return Err(Failure::WrongSigner);
    }
    ctx.task.status = TaskStatus::Disputed;
    ctx.agent.tasks_failed = ctx.agent.tasks_failed + 1;
    ctx.agent.reputation_score = calculate_reputation(
        ctx.agent.tasks_completed,
        ctx.agent.tasks_failed,
    );
    Ok(TaskDisputed { task: ctx.task_key, reason })
}

} // verus!
