//! What holds of the lifecycle as a whole, stated over the functions that
//! the operations' contracts use.

use vstd::prelude::*;
use crate::agent::{covers, has_capability};
use crate::error::{ErrorCode, Failure};
use crate::lifecycle::{
    accept_next, accept_outcome, accept_rejection, approval_in_range, approve_next,
    approve_outcome, approve_rejection, reject_next, reject_outcome, reject_rejection,
    rejection_in_range, submit_next, submit_outcome, submit_rejection, AcceptTask, ApproveResult,
    RejectResult, SubmitResult,
};
use crate::reputation::{lemma_reputation_bounded, reputation_of};
use crate::task::{Task, TaskStatus};

verus! {

/// Capability gate: of an open task before its deadline and an active agent
/// whose owner signs, the acceptance succeeds exactly if the agent
/// advertises every required tag, and otherwise fails for the missing
/// capability.
pub proof fn lemma_capability_gate(ctx: AcceptTask, now: i64)
    requires
        ctx.task.status == TaskStatus::Open,
        ctx.agent.is_active,
        now < ctx.task.deadline,
        ctx.agent_owner == ctx.agent.owner,
    ensures
        accept_outcome(ctx, now) is Ok <==> covers(
            ctx.agent.capabilities@,
            ctx.task.required_capabilities@,
        ),
        accept_outcome(ctx, now) is Err ==> accept_outcome(ctx, now) == Err::<
            crate::events::TaskAccepted,
            Failure,
        >(Failure::Rejected(ErrorCode::MissingCapability)) && accept_next(ctx, now) == ctx,
{
}

/// A single required tag that the agent does not advertise is enough for the
/// acceptance to fail, whatever else holds.
pub proof fn lemma_missing_tag_rejects(ctx: AcceptTask, now: i64, j: int)
    requires
        0 <= j < ctx.task.required_capabilities@.len(),
        !has_capability(ctx.agent.capabilities@, ctx.task.required_capabilities@[j]@),
    ensures
        accept_outcome(ctx, now) is Err,
        accept_next(ctx, now) == ctx,
{
}

/// Deadline gate: of an open task and an active agent, an acceptance at or
/// after the deadline fails as expired, and one before it, the last instant
/// included, is not turned away for the time: it succeeds where the agent
/// advertises every required tag and its owner signs.
pub proof fn lemma_deadline_gate(ctx: AcceptTask, now: i64)
    requires
        ctx.task.status == TaskStatus::Open,
        ctx.agent.is_active,
    ensures
        now >= ctx.task.deadline ==> accept_outcome(ctx, now) == Err::<
            crate::events::TaskAccepted,
            Failure,
        >(Failure::Rejected(ErrorCode::TaskExpired)),
        now < ctx.task.deadline ==> accept_rejection(ctx, now) != Some(
            Failure::Rejected(ErrorCode::TaskExpired),
        ),
        now < ctx.task.deadline && covers(ctx.agent.capabilities@, ctx.task.required_capabilities@)
            && ctx.agent_owner == ctx.agent.owner ==> accept_outcome(ctx, now) is Ok,
{
}

/// Exactly-once payout: once an approval has succeeded, every later approval
/// of the task is rejected as not pending review, orders no payout, and
/// leaves the records and what the escrow holds as they were.
pub proof fn lemma_payout_exactly_once(first: ApproveResult, later: ApproveResult)
    requires
        approve_outcome(first) is Ok,
        later.task == approve_next(first).task,
    ensures
        approve_outcome(later) == Err::<
            (crate::settlement::Release, crate::events::TaskCompleted),
            Failure,
        >(Failure::Rejected(ErrorCode::TaskNotPendingReview)),
        approve_next(later) == later,
        approve_next(later).task.escrowed() == later.task.escrowed(),
{
}

/// The payout is the budget and goes to the assigned agent: a successful
/// approval is signed by the task's creator, names the agent that the task
/// is assigned to, and orders the task's whole budget out of the task's own
/// escrow into an account that the agent's owner holds; what the escrow
/// holds goes down by exactly that. A rejected one orders nothing.
pub proof fn lemma_payout_is_budget(ctx: ApproveResult)
    ensures
        match approve_outcome(ctx) {
            Ok(paid) => {
                &&& ctx.task.status == TaskStatus::PendingReview
                &&& ctx.task.assigned_agent == Some(ctx.agent_key)
                &&& ctx.creator == ctx.task.creator
                &&& ctx.agent_token_owner == ctx.agent.owner
                &&& paid.1.agent == ctx.agent_key
                &&& paid.0.amount == ctx.task.budget
                &&& paid.0.escrow == ctx.task.escrow
                &&& paid.0.to == ctx.agent_token
                &&& paid.1.payout == ctx.task.budget
                &&& ctx.task.escrowed() == ctx.task.budget
                &&& approve_next(ctx).task.escrowed() == 0
            },
            Err(_) => approve_next(ctx) == ctx,
        },
{
}

/// State-machine closure: each operation succeeds exactly on the status it
/// is defined for, where its other checks pass, the right party signs and
/// the right agent is named; it then moves the task to the status that
/// follows, and otherwise changes nothing. No operation succeeds on a
/// completed, disputed or cancelled task.
pub proof fn lemma_state_machine_closure(
    accept: AcceptTask,
    now: i64,
    submit: SubmitResult,
    result_uri: String,
    approve: ApproveResult,
    reject: RejectResult,
    reason: String,
)
    ensures
        accept_outcome(accept, now) is Ok <==> {
            &&& accept.task.status == TaskStatus::Open
            &&& accept.agent.is_active
            &&& now < accept.task.deadline
            &&& covers(accept.agent.capabilities@, accept.task.required_capabilities@)
            &&& accept.agent_owner == accept.agent.owner
        },
        accept_outcome(accept, now) is Ok ==> accept_next(accept, now).task.status
            == TaskStatus::InProgress,
        accept_outcome(accept, now) is Err ==> accept_next(accept, now) == accept,
        submit_outcome(submit, result_uri) is Ok <==> {
            &&& submit.task.status == TaskStatus::InProgress
            &&& submit.task.assigned_agent == Some(submit.agent_key)
            &&& submit.agent_owner == submit.agent.owner
        },
        submit_outcome(submit, result_uri) is Ok ==> submit_next(submit, result_uri).task.status
            == TaskStatus::PendingReview,
        submit_outcome(submit, result_uri) is Err ==> submit_next(submit, result_uri) == submit,
        approve_outcome(approve) is Ok <==> {
            &&& approve.task.status == TaskStatus::PendingReview
            &&& approve.task.assigned_agent == Some(approve.agent_key)
            &&& approve.creator == approve.task.creator
            &&& approve.agent_token_owner == approve.agent.owner
        },
        approve_outcome(approve) is Ok ==> approve_next(approve).task.status
            == TaskStatus::Completed,
        approve_outcome(approve) is Err ==> approve_next(approve) == approve,
        reject_outcome(reject, reason) is Ok <==> {
            &&& reject.task.status == TaskStatus::PendingReview
            &&& reject.task.assigned_agent == Some(reject.agent_key)
            &&& reject.creator == reject.task.creator
        },
        reject_outcome(reject, reason) is Ok ==> reject_next(reject).task.status
            == TaskStatus::Disputed,
        reject_outcome(reject, reason) is Err ==> reject_next(reject) == reject,
        accept.task.status.is_terminal() ==> accept_outcome(accept, now) is Err,
        submit.task.status.is_terminal() ==> submit_outcome(submit, result_uri) is Err,
        approve.task.status.is_terminal() ==> approve_outcome(approve) is Err,
        reject.task.status.is_terminal() ==> reject_outcome(reject, reason) is Err,
{
}

/// At most one operation kind is open to a task at a time, but for approval
/// and rejection, which share the review: if an acceptance succeeds on a
/// task, no submission, approval or rejection does, and likewise for a
/// submission, an approval and a rejection.
pub proof fn lemma_operations_exclusive(
    task: Task,
    accept: AcceptTask,
    now: i64,
    submit: SubmitResult,
    result_uri: String,
    approve: ApproveResult,
    reject: RejectResult,
    reason: String,
)
    requires
        accept.task == task,
        submit.task == task,
        approve.task == task,
        reject.task == task,
    ensures
        accept_outcome(accept, now) is Ok ==> submit_outcome(submit, result_uri) is Err
            && approve_outcome(approve) is Err && reject_outcome(reject, reason) is Err,
        submit_outcome(submit, result_uri) is Ok ==> accept_outcome(accept, now) is Err
            && approve_outcome(approve) is Err && reject_outcome(reject, reason) is Err,
        approve_outcome(approve) is Ok ==> accept_outcome(accept, now) is Err && submit_outcome(
            submit,
            result_uri,
        ) is Err,
        reject_outcome(reject, reason) is Ok ==> accept_outcome(accept, now) is Err
            && submit_outcome(submit, result_uri) is Err,
{
}

/// Strangers change nothing: an operation signed by another than the party
/// it asks for, or an approval or rejection that names another agent than
/// the one the task is assigned to, or an approval into an account that the
/// agent's owner does not hold, fails, leaves every record as it was and
/// orders no payout.
pub proof fn lemma_strangers_change_nothing(
    accept: AcceptTask,
    now: i64,
    submit: SubmitResult,
    result_uri: String,
    approve: ApproveResult,
    reject: RejectResult,
    reason: String,
)
    ensures
        accept.agent_owner != accept.agent.owner ==> accept_outcome(accept, now) is Err
            && accept_next(accept, now) == accept,
        submit.agent_owner != submit.agent.owner ==> submit_outcome(submit, result_uri) is Err
            && submit_next(submit, result_uri) == submit,
        approve.creator != approve.task.creator || approve.task.assigned_agent != Some(
            approve.agent_key,
        ) || approve.agent_token_owner != approve.agent.owner ==> approve_outcome(approve) is Err
            && approve_next(approve) == approve,
        reject.creator != reject.task.creator || reject.task.assigned_agent != Some(
            reject.agent_key,
        ) ==> reject_outcome(reject, reason) is Err && reject_next(reject) == reject,
        // Where the listed checks pass, the failure names the stranger.
        accept_rejection(accept, now) == Some(Failure::WrongSigner) ==> accept.agent_owner
            != accept.agent.owner,
        submit_rejection(submit) == Some(Failure::WrongSigner) ==> submit.agent_owner
            != submit.agent.owner,
        approve.task.status == TaskStatus::PendingReview && approve.task.assigned_agent != Some(
            approve.agent_key,
        ) ==> approve_rejection(approve) == Some(Failure::Rejected(ErrorCode::NotAssignedAgent)),
        reject.task.status == TaskStatus::PendingReview && reject.task.assigned_agent != Some(
            reject.agent_key,
        ) ==> reject_rejection(reject) == Some(Failure::Rejected(ErrorCode::NotAssignedAgent)),
        approve.task.status == TaskStatus::PendingReview && approve.task.assigned_agent == Some(
            approve.agent_key,
        ) && approve.creator != approve.task.creator ==> approve_rejection(approve) == Some(
            Failure::WrongSigner,
        ),
        reject.task.status == TaskStatus::PendingReview && reject.task.assigned_agent == Some(
            reject.agent_key,
        ) && reject.creator != reject.task.creator ==> reject_rejection(reject) == Some(
            Failure::WrongSigner,
        ),
{
}

/// No operation cancels a task: a task is cancelled after an operation only
/// if it was before.
pub proof fn lemma_cancelled_unreachable(
    accept: AcceptTask,
    now: i64,
    submit: SubmitResult,
    result_uri: String,
    approve: ApproveResult,
    reject: RejectResult,
)
    ensures
        accept_next(accept, now).task.status == TaskStatus::Cancelled ==> accept.task.status
            == TaskStatus::Cancelled,
        submit_next(submit, result_uri).task.status == TaskStatus::Cancelled ==> submit.task.status
            == TaskStatus::Cancelled,
        approve_next(approve).task.status == TaskStatus::Cancelled ==> approve.task.status
            == TaskStatus::Cancelled,
        reject_next(reject).task.status == TaskStatus::Cancelled ==> reject.task.status
            == TaskStatus::Cancelled,
{
}

/// What never changes in a well-formed task: creator, description, required
/// capabilities, budget, deadline, escrow and creation time stay as they
/// were through every operation, an assigned agent stays assigned, a result
/// once held stays, and the task stays well-formed.
pub proof fn lemma_task_fixed_fields(
    accept: AcceptTask,
    now: i64,
    submit: SubmitResult,
    result_uri: String,
    approve: ApproveResult,
    reject: RejectResult,
)
    requires
        accept.task.wf(),
        submit.task.wf(),
        approve.task.wf(),
        reject.task.wf(),
    ensures
        task_fixed(accept.task, accept_next(accept, now).task),
        task_fixed(submit.task, submit_next(submit, result_uri).task),
        task_fixed(approve.task, approve_next(approve).task),
        task_fixed(reject.task, reject_next(reject).task),
        accept_next(accept, now).task.wf(),
        submit_next(submit, result_uri).task.wf(),
        approve_next(approve).task.wf(),
        reject_next(reject).task.wf(),
{
}

/// Whether `after` keeps what is fixed in `before`: the fields set at
/// creation, and the assigned agent and the result once they are set.
pub open spec fn task_fixed(before: Task, after: Task) -> bool {
    &&& after.creator == before.creator
    &&& after.description == before.description
    &&& after.required_capabilities == before.required_capabilities
    &&& after.budget == before.budget
    &&& after.deadline == before.deadline
    &&& after.escrow == before.escrow
    &&& after.created_at == before.created_at
    &&& (before.assigned_agent is Some ==> after.assigned_agent == before.assigned_agent)
    &&& (before.result_uri is Some ==> after.result_uri == before.result_uri)
}

/// The escrow is touched by approval alone: acceptance, submission and
/// rejection leave what the escrow holds as it was, so a disputed task keeps
/// its whole budget locked.
pub proof fn lemma_escrow_kept(
    accept: AcceptTask,
    now: i64,
    submit: SubmitResult,
    result_uri: String,
    reject: RejectResult,
)
    ensures
        accept_next(accept, now).task.escrowed() == accept.task.escrowed(),
        submit_next(submit, result_uri).task.escrowed() == submit.task.escrowed(),
        reject_next(reject).task.escrowed() == reject.task.escrowed(),
        reject_rejection(reject) is None ==> reject_next(reject).task.escrowed()
            == reject.task.budget,
{
}

/// The whole way to a payout: a task accepted by an agent, then submitted by
/// that agent with its owner's signature, is approved for that agent on the
/// creator's request; it ends completed, assigned to that agent and holding
/// the submitted result, and the payout ordered is the budget it was created
/// with, out of its own escrow, which it empties.
pub proof fn lemma_accepted_submitted_approved(
    accept: AcceptTask,
    now: i64,
    submit: SubmitResult,
    result_uri: String,
    approve: ApproveResult,
)
    requires
        accept_outcome(accept, now) is Ok,
        submit.task == accept_next(accept, now).task,
        submit.agent_key == accept.agent_key,
        submit.agent_owner == submit.agent.owner,
        approve.task == submit_next(submit, result_uri).task,
        approve.agent_key == accept.agent_key,
        approve.creator == approve.task.creator,
        approve.agent_token_owner == approve.agent.owner,
    ensures
        submit_outcome(submit, result_uri) is Ok,
        approve_outcome(approve) is Ok,
        approve_outcome(approve)->Ok_0.0.amount == accept.task.budget,
        approve_outcome(approve)->Ok_0.0.escrow == accept.task.escrow,
        approve_next(approve).task.status == TaskStatus::Completed,
        approve_next(approve).task.assigned_agent == Some(accept.agent_key),
        approve_next(approve).task.result_uri == Some(result_uri),
        approve_next(approve).task.budget == accept.task.budget,
        approve_next(approve).task.escrowed() == 0,
{
}

/// The whole way to a dispute: a task accepted by an agent, then submitted
/// by that agent with its owner's signature, is disputed when the creator
/// rejects that agent's result; no payout was ordered on the way, and the
/// escrow keeps the whole budget.
pub proof fn lemma_accepted_submitted_rejected(
    accept: AcceptTask,
    now: i64,
    submit: SubmitResult,
    result_uri: String,
    reject: RejectResult,
    reason: String,
)
    requires
        accept_outcome(accept, now) is Ok,
        submit.task == accept_next(accept, now).task,
        submit.agent_key == accept.agent_key,
        submit.agent_owner == submit.agent.owner,
        reject.task == submit_next(submit, result_uri).task,
        reject.agent_key == accept.agent_key,
        reject.creator == reject.task.creator,
    ensures
        submit_outcome(submit, result_uri) is Ok,
        reject_outcome(reject, reason) is Ok,
        reject_next(reject).task.status == TaskStatus::Disputed,
        reject_next(reject).task.assigned_agent == Some(accept.agent_key),
        reject_next(reject).task.result_uri == Some(result_uri),
        reject_next(reject).task.escrowed() == accept.task.budget,
{
}

/// An agent's record is changed only by the settling of a task assigned to
/// it: acceptance and submission leave the agent as it was, and an approval
/// or rejection that changes it names the agent that the task is assigned
/// to.
pub proof fn lemma_agent_changed_by_own_task(
    accept: AcceptTask,
    now: i64,
    submit: SubmitResult,
    result_uri: String,
    approve: ApproveResult,
    reject: RejectResult,
)
    ensures
        accept_next(accept, now).agent == accept.agent,
        submit_next(submit, result_uri).agent == submit.agent,
        approve_next(approve).agent != approve.agent ==> approve.task.assigned_agent == Some(
            approve.agent_key,
        ),
        reject_next(reject).agent != reject.agent ==> reject.task.assigned_agent == Some(
            reject.agent_key,
        ),
{
}

/// The agent's record through the two operations that settle a task: the
/// score is always the one that the counters give and stays within 0 to 100,
/// no counter goes down, and owner, name, capabilities, rate, activity and
/// creation time stay as they were.
pub proof fn lemma_agent_history(approve: ApproveResult, reject: RejectResult)
    requires
        approve_rejection(approve) is None ==> approval_in_range(approve),
        reject_rejection(reject) is None ==> rejection_in_range(reject),
    ensures
        approve.agent.wf() ==> approve_next(approve).agent.wf(),
        reject.agent.wf() ==> reject_next(reject).agent.wf(),
        approve_rejection(approve) is None ==> {
            &&& approve_next(approve).agent.tasks_completed == approve.agent.tasks_completed + 1
            &&& approve_next(approve).agent.tasks_failed == approve.agent.tasks_failed
            &&& approve_next(approve).agent.total_earned == approve.agent.total_earned
                + approve.task.budget
            &&& approve_next(approve).agent.reputation_score == reputation_of(
                approve_next(approve).agent.tasks_completed as nat,
                approve_next(approve).agent.tasks_failed as nat,
            )
            &&& approve_next(approve).agent.reputation_score <= 100
        },
        reject_rejection(reject) is None ==> {
            &&& reject_next(reject).agent.tasks_failed == reject.agent.tasks_failed + 1
            &&& reject_next(reject).agent.tasks_completed == reject.agent.tasks_completed
            &&& reject_next(reject).agent.total_earned == reject.agent.total_earned
            &&& reject_next(reject).agent.reputation_score == reputation_of(
                reject_next(reject).agent.tasks_completed as nat,
                reject_next(reject).agent.tasks_failed as nat,
            )
            &&& reject_next(reject).agent.reputation_score <= 100
        },
        approve_next(approve).agent.owner == approve.agent.owner,
        approve_next(approve).agent.name == approve.agent.name,
        approve_next(approve).agent.capabilities == approve.agent.capabilities,
        approve_next(approve).agent.is_active == approve.agent.is_active,
        approve_next(approve).agent.created_at == approve.agent.created_at,
        reject_next(reject).agent.owner == reject.agent.owner,
        reject_next(reject).agent.name == reject.agent.name,
        reject_next(reject).agent.capabilities == reject.agent.capabilities,
        reject_next(reject).agent.is_active == reject.agent.is_active,
        reject_next(reject).agent.created_at == reject.agent.created_at,
{
    lemma_reputation_bounded(
        (approve.agent.tasks_completed + 1) as nat,
        approve.agent.tasks_failed as nat,
    );
    lemma_reputation_bounded(
        reject.agent.tasks_completed as nat,
        (reject.agent.tasks_failed + 1) as nat,
    );
}

} // verus!
