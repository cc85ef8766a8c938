use agent_forge::agent::{register_agent_at, registration_fits, Agent, RegisterAgent};
use agent_forge::error::{ErrorCode, Failure};
use agent_forge::events::{
    AgentRegistered, ResultSubmitted, TaskAccepted, TaskCompleted, TaskCreated, TaskDisputed,
};
use agent_forge::identity::Identity;
use agent_forge::lifecycle::{
    accept_task_at, approve_result, create_task_at, reject_result, submit_result, task_fits,
    AcceptTask, ApproveResult, CreateTask, RejectResult, SubmitResult,
};
use agent_forge::settlement::{Deposit, Release};
use agent_forge::task::{Task, TaskStatus};

const NOW: i64 = 1_700_000_000;

fn id(n: u8) -> Identity {
    Identity::new([n; 32])
}

fn tags(words: &[&str]) -> Vec<String> {
    words.iter().map(|w| w.to_string()).collect()
}

fn agent_with(capabilities: &[&str]) -> Agent {
    let ctx = RegisterAgent { agent: id(10), owner: id(11) };
    register_agent_at(&ctx, "A".to_string(), tags(capabilities), 10, NOW).0
}

fn task_with(required: &[&str]) -> Task {
    let ctx = CreateTask { task: id(20), escrow: id(21), creator: id(22), creator_token: id(23) };
    create_task_at(&ctx, "label the images".to_string(), tags(required), 1000, NOW + 3600, NOW).0
}

fn accept(task: Task, agent: Agent, now: i64) -> (Result<TaskAccepted, Failure>, Task, Agent) {
    let mut ctx = AcceptTask { task_key: id(20), task, agent_key: id(10), agent, agent_owner: id(11) };
    let res = accept_task_at(&mut ctx, now);
    (res, ctx.task, ctx.agent)
}

fn submit(task: Task, agent: Agent, agent_key: Identity, uri: &str)
    -> (Result<ResultSubmitted, Failure>, Task, Agent)
{
    let mut ctx = SubmitResult { task_key: id(20), task, agent_key, agent, agent_owner: id(11) };
    let res = submit_result(&mut ctx, uri.to_string());
    (res, ctx.task, ctx.agent)
}

fn approve(task: Task, agent: Agent)
    -> (Result<(Release, TaskCompleted), Failure>, Task, Agent)
{
    let mut ctx = ApproveResult {
        task_key: id(20),
        task,
        agent_key: id(10),
        agent,
        agent_token: id(12),
        agent_token_owner: id(11),
        escrow_bump: 254,
        creator: id(22),
    };
    let res = approve_result(&mut ctx);
    (res, ctx.task, ctx.agent)
}

fn reject(task: Task, agent: Agent, reason: &str)
    -> (Result<TaskDisputed, Failure>, Task, Agent)
{
    let mut ctx = RejectResult { task_key: id(20), task, agent_key: id(10), agent, creator: id(22) };
    let res = reject_result(&mut ctx, reason.to_string());
    (res, ctx.task, ctx.agent)
}

fn task_in(status: TaskStatus) -> Task {
    let mut task = task_with(&["ml"]);
    task.status = status;
    if status != TaskStatus::Open {
        task.assigned_agent = Some(id(10));
    }
    if status == TaskStatus::PendingReview
        || status == TaskStatus::Completed
        || status == TaskStatus::Disputed
    {
        task.result_uri = Some("ipfs://result".to_string());
    }
    task
}

const ALL_STATUSES: [TaskStatus; 6] = [
    TaskStatus::Open,
    TaskStatus::InProgress,
    TaskStatus::PendingReview,
    TaskStatus::Completed,
    TaskStatus::Disputed,
    TaskStatus::Cancelled,
];

#[test]
fn register_sets_up_a_fresh_agent() {
    let ctx = RegisterAgent { agent: id(10), owner: id(11) };
    let (agent, event) = register_agent_at(&ctx, "A".to_string(), tags(&["ml", "nlp"]), 10, NOW);
    assert_eq!(
        agent,
        Agent {
            owner: id(11),
            name: "A".to_string(),
            capabilities: tags(&["ml", "nlp"]),
            hourly_rate: 10,
            reputation_score: 100,
            tasks_completed: 0,
            tasks_failed: 0,
            total_earned: 0,
            is_active: true,
            created_at: NOW,
        }
    );
    assert_eq!(event, AgentRegistered { agent: id(10), owner: id(11), name: "A".to_string() });
}

#[test]
fn create_opens_a_task_and_orders_the_deposit() {
    let ctx = CreateTask { task: id(20), escrow: id(21), creator: id(22), creator_token: id(23) };
    let (task, deposit, event) =
        create_task_at(&ctx, "label the images".to_string(), tags(&["ml"]), 1000, NOW + 3600, NOW);
    assert_eq!(
        task,
        Task {
            creator: id(22),
            description: "label the images".to_string(),
            required_capabilities: tags(&["ml"]),
            budget: 1000,
            deadline: NOW + 3600,
            status: TaskStatus::Open,
            assigned_agent: None,
            result_uri: None,
            escrow: id(21),
            created_at: NOW,
        }
    );
    assert_eq!(deposit, Deposit { from: id(23), escrow: id(21), authority: id(22), amount: 1000 });
    assert_eq!(event, TaskCreated { task: id(20), creator: id(22), budget: 1000 });
}

#[test]
fn end_to_end_approval() {
    let agent = agent_with(&["ml"]);
    let task = task_with(&["ml"]);

    let (res, task, agent) = accept(task, agent, NOW);
    assert_eq!(res, Ok(TaskAccepted { task: id(20), agent: id(10) }));
    assert_eq!(task.status, TaskStatus::InProgress);
    assert_eq!(task.assigned_agent, Some(id(10)));

    let (res, task, agent) = submit(task, agent, id(10), "ipfs://result");
    assert_eq!(
        res,
        Ok(ResultSubmitted { task: id(20), result_uri: "ipfs://result".to_string() })
    );
    assert_eq!(task.status, TaskStatus::PendingReview);
    assert_eq!(task.result_uri, Some("ipfs://result".to_string()));

    let (res, task, agent) = approve(task, agent);
    let (release, event) = res.unwrap();
    assert_eq!(
        release,
        Release { escrow: id(21), to: id(12), task: id(20), bump: 254, amount: 1000 }
    );
    assert_eq!(event, TaskCompleted { task: id(20), agent: id(10), payout: 1000 });
    assert_eq!(agent.tasks_completed, 1);
    assert_eq!(agent.tasks_failed, 0);
    assert_eq!(agent.total_earned, 1000);
    assert_eq!(agent.reputation_score, 100);
    assert_eq!(task.status, TaskStatus::Completed);
    assert_eq!(task.budget, 1000);
    assert_eq!(task.assigned_agent, Some(id(10)));
    assert_eq!(task.result_uri, Some("ipfs://result".to_string()));
}

#[test]
fn dispute_scenario() {
    let agent = agent_with(&["ml"]);
    let task = task_with(&["ml"]);
    let (_, task, agent) = accept(task, agent, NOW);
    let (_, task, agent) = submit(task, agent, id(10), "ipfs://result");

    let (res, task, agent) = reject(task, agent, "low quality");
    assert_eq!(res, Ok(TaskDisputed { task: id(20), reason: "low quality".to_string() }));
    assert_eq!(agent.tasks_failed, 1);
    assert_eq!(agent.tasks_completed, 0);
    assert_eq!(agent.total_earned, 0);
    assert_eq!(agent.reputation_score, 0);
    assert_eq!(task.status, TaskStatus::Disputed);
    assert_eq!(task.budget, 1000);

    // Nothing releases the escrow of a disputed task.
    let before = (task.clone(), agent.clone());
    let (res, task, agent) = approve(task, agent);
    assert_eq!(res, Err(Failure::Rejected(ErrorCode::TaskNotPendingReview)));
    assert_eq!((task, agent), before);
}

#[test]
fn second_approval_is_rejected_and_pays_nothing() {
    let agent = agent_with(&["ml"]);
    let task = task_in(TaskStatus::PendingReview);
    let (res, task, agent) = approve(task, agent);
    assert!(res.is_ok());
    let before = (task.clone(), agent.clone());
    let (res, task, agent) = approve(task, agent);
    assert_eq!(res, Err(Failure::Rejected(ErrorCode::TaskNotPendingReview)));
    assert_eq!((task, agent), before);
    assert_eq!(before.1.tasks_completed, 1);
    assert_eq!(before.1.total_earned, 1000);
}

#[test]
fn rejection_after_approval_is_refused() {
    let agent = agent_with(&["ml"]);
    let task = task_in(TaskStatus::PendingReview);
    let (_, task, agent) = approve(task, agent);
    let before = (task.clone(), agent.clone());
    let (res, task, agent) = reject(task, agent, "too late");
    assert_eq!(res, Err(Failure::Rejected(ErrorCode::TaskNotPendingReview)));
    assert_eq!((task, agent), before);
}

#[test]
fn capability_gate_needs_every_tag() {
    let task = task_with(&["ml", "vision", "nlp"]);
    let (res, _, _) = accept(task.clone(), agent_with(&["nlp", "ml", "audio", "vision"]), NOW);
    assert!(res.is_ok());
    for missing in ["ml", "vision", "nlp"] {
        let have: Vec<&str> =
            ["ml", "vision", "nlp"].into_iter().filter(|t| *t != missing).collect();
        let agent = agent_with(&have);
        let (res, after, same_agent) = accept(task.clone(), agent.clone(), NOW);
        assert_eq!(res, Err(Failure::Rejected(ErrorCode::MissingCapability)));
        assert_eq!(after, task);
        assert_eq!(same_agent, agent);
    }
}

#[test]
fn capability_gate_matches_tags_exactly() {
    let task = task_with(&["ml"]);
    let (res, _, _) = accept(task.clone(), agent_with(&["ML"]), NOW);
    assert_eq!(res, Err(Failure::Rejected(ErrorCode::MissingCapability)));
    let (res, _, _) = accept(task.clone(), agent_with(&["ml "]), NOW);
    assert_eq!(res, Err(Failure::Rejected(ErrorCode::MissingCapability)));
    let (res, _, _) = accept(task.clone(), agent_with(&["m"]), NOW);
    assert_eq!(res, Err(Failure::Rejected(ErrorCode::MissingCapability)));
    let (res, _, _) = accept(task, agent_with(&[]), NOW);
    assert_eq!(res, Err(Failure::Rejected(ErrorCode::MissingCapability)));
}

#[test]
fn capability_gate_ignores_duplicates_and_empty_requirements() {
    let (res, _, _) = accept(task_with(&["ml", "ml"]), agent_with(&["ml"]), NOW);
    assert!(res.is_ok());
    let (res, _, _) = accept(task_with(&["ml"]), agent_with(&["ml", "ml"]), NOW);
    assert!(res.is_ok());
    let (res, _, _) = accept(task_with(&[]), agent_with(&[]), NOW);
    assert!(res.is_ok());
}

#[test]
fn deadline_gate() {
    let deadline = NOW + 3600;
    let (res, task, _) = accept(task_with(&["ml"]), agent_with(&["ml"]), deadline - 1);
    assert!(res.is_ok());
    assert_eq!(task.status, TaskStatus::InProgress);

    let (res, task, _) = accept(task_with(&["ml"]), agent_with(&["ml"]), deadline);
    assert_eq!(res, Err(Failure::Rejected(ErrorCode::TaskExpired)));
    assert_eq!(task, task_with(&["ml"]));

    let (res, _, _) = accept(task_with(&["ml"]), agent_with(&["ml"]), deadline + 1);
    assert_eq!(res, Err(Failure::Rejected(ErrorCode::TaskExpired)));
    let (res, _, _) = accept(task_with(&["ml"]), agent_with(&["ml"]), i64::MAX);
    assert_eq!(res, Err(Failure::Rejected(ErrorCode::TaskExpired)));
    let (res, _, _) = accept(task_with(&["ml"]), agent_with(&["ml"]), i64::MIN);
    assert!(res.is_ok());
}

#[test]
fn deadline_is_not_checked_after_acceptance() {
    let (_, task, agent) = accept(task_with(&["ml"]), agent_with(&["ml"]), NOW);
    assert!(task.deadline < i64::MAX);
    let (res, task, agent) = submit(task, agent, id(10), "ipfs://late");
    assert!(res.is_ok());
    let (res, _, _) = approve(task, agent);
    assert!(res.is_ok());
}

#[test]
fn accept_rejections_come_in_order() {
    // Not open, inactive, expired and lacking the tag: the status decides.
    let mut agent = agent_with(&[]);
    agent.is_active = false;
    let (res, _, _) = accept(task_in(TaskStatus::InProgress), agent.clone(), i64::MAX);
    assert_eq!(res, Err(Failure::Rejected(ErrorCode::TaskNotOpen)));
    // Open, but inactive, expired and lacking the tag: the agent decides.
    let (res, _, _) = accept(task_with(&["ml"]), agent.clone(), i64::MAX);
    assert_eq!(res, Err(Failure::Rejected(ErrorCode::AgentNotActive)));
    // Open and active, but expired and lacking the tag: the time decides.
    agent.is_active = true;
    let (res, _, _) = accept(task_with(&["ml"]), agent.clone(), i64::MAX);
    assert_eq!(res, Err(Failure::Rejected(ErrorCode::TaskExpired)));
    // Only the tag is lacking.
    let (res, _, _) = accept(task_with(&["ml"]), agent, NOW);
    assert_eq!(res, Err(Failure::Rejected(ErrorCode::MissingCapability)));
}

#[test]
fn inactive_agent_cannot_accept() {
    let mut agent = agent_with(&["ml"]);
    agent.is_active = false;
    let (res, task, after) = accept(task_with(&["ml"]), agent.clone(), NOW);
    assert_eq!(res, Err(Failure::Rejected(ErrorCode::AgentNotActive)));
    assert_eq!(task, task_with(&["ml"]));
    assert_eq!(after, agent);
}

#[test]
fn only_the_assigned_agent_submits() {
    let (_, task, agent) = accept(task_with(&["ml"]), agent_with(&["ml"]), NOW);
    let before = task.clone();
    let (res, task, agent) = submit(task, agent, id(99), "ipfs://result");
    assert_eq!(res, Err(Failure::Rejected(ErrorCode::NotAssignedAgent)));
    assert_eq!(task, before);
    let mut near = [10u8; 32];
    near[31] = 11;
    let (res, task, agent) = submit(task, agent, Identity::new(near), "ipfs://result");
    assert_eq!(res, Err(Failure::Rejected(ErrorCode::NotAssignedAgent)));
    let (res, _, _) = submit(task, agent, id(10), "ipfs://result");
    assert!(res.is_ok());
}

#[test]
fn submit_rejections_come_in_order() {
    let (res, _, _) = submit(task_in(TaskStatus::Open), agent_with(&["ml"]), id(99), "x");
    assert_eq!(res, Err(Failure::Rejected(ErrorCode::TaskNotInProgress)));
    let (res, _, _) = submit(task_in(TaskStatus::PendingReview), agent_with(&["ml"]), id(99), "x");
    assert_eq!(res, Err(Failure::Rejected(ErrorCode::TaskNotInProgress)));
}

#[test]
fn operations_succeed_exactly_on_their_status() {
    for status in ALL_STATUSES {
        let task = task_in(status);
        let agent = agent_with(&["ml"]);

        let (res, after, same) = accept(task.clone(), agent.clone(), NOW);
        if status == TaskStatus::Open {
            assert!(res.is_ok());
            assert_eq!(after.status, TaskStatus::InProgress);
        } else {
            assert_eq!(res, Err(Failure::Rejected(ErrorCode::TaskNotOpen)));
            assert_eq!(after, task);
        }
        assert_eq!(same, agent);

        let (res, after, same) = submit(task.clone(), agent.clone(), id(10), "ipfs://r");
        if status == TaskStatus::InProgress {
            assert!(res.is_ok());
            assert_eq!(after.status, TaskStatus::PendingReview);
        } else {
            assert_eq!(res, Err(Failure::Rejected(ErrorCode::TaskNotInProgress)));
            assert_eq!(after, task);
        }
        assert_eq!(same, agent);

        let (res, after, paid) = approve(task.clone(), agent.clone());
        if status == TaskStatus::PendingReview {
            assert!(res.is_ok());
            assert_eq!(after.status, TaskStatus::Completed);
            assert_eq!(paid.tasks_completed, 1);
        } else {
            assert_eq!(res, Err(Failure::Rejected(ErrorCode::TaskNotPendingReview)));
            assert_eq!(after, task);
            assert_eq!(paid, agent);
        }

        let (res, after, charged) = reject(task.clone(), agent.clone(), "no");
        if status == TaskStatus::PendingReview {
            assert!(res.is_ok());
            assert_eq!(after.status, TaskStatus::Disputed);
            assert_eq!(charged.tasks_failed, 1);
        } else {
            assert_eq!(res, Err(Failure::Rejected(ErrorCode::TaskNotPendingReview)));
            assert_eq!(after, task);
            assert_eq!(charged, agent);
        }
    }
}

#[test]
fn approval_changes_only_status_counters_and_score() {
    let mut agent = agent_with(&["ml"]);
    agent.tasks_completed = 2;
    agent.tasks_failed = 1;
    agent.total_earned = 500;
    agent.reputation_score = 66;
    let task = task_in(TaskStatus::PendingReview);
    let (res, after, paid) = approve(task.clone(), agent.clone());
    assert!(res.is_ok());
    assert_eq!(after, Task { status: TaskStatus::Completed, ..task });
    assert_eq!(
        paid,
        Agent { tasks_completed: 3, total_earned: 1500, reputation_score: 75, ..agent }
    );
}

#[test]
fn rejection_changes_only_status_counter_and_score() {
    let mut agent = agent_with(&["ml"]);
    agent.tasks_completed = 1;
    agent.tasks_failed = 1;
    agent.total_earned = 500;
    agent.reputation_score = 50;
    let task = task_in(TaskStatus::PendingReview);
    let (res, after, charged) = reject(task.clone(), agent.clone(), "low quality");
    assert!(res.is_ok());
    assert_eq!(after, Task { status: TaskStatus::Disputed, ..task });
    assert_eq!(charged, Agent { tasks_failed: 2, reputation_score: 33, ..agent });
}

#[test]
fn approval_at_the_counters_limit() {
    let mut agent = agent_with(&["ml"]);
    agent.tasks_completed = u64::MAX - 1;
    agent.total_earned = u64::MAX - 1000;
    let (res, _, paid) = approve(task_in(TaskStatus::PendingReview), agent);
    assert!(res.is_ok());
    assert_eq!(paid.tasks_completed, u64::MAX);
    assert_eq!(paid.total_earned, u64::MAX);
    assert_eq!(paid.reputation_score, 100);
}

#[test]
fn release_is_signed_with_the_escrow_seeds() {
    let (res, _, _) = approve(task_in(TaskStatus::PendingReview), agent_with(&["ml"]));
    let (release, _) = res.unwrap();
    assert_eq!(
        release.signer_seeds(),
        vec![b"escrow".to_vec(), vec![20u8; 32], vec![254u8]]
    );
}

#[test]
fn identities_compare_byte_for_byte() {
    assert!(id(1).same(&id(1)));
    assert!(!id(1).same(&id(2)));
    let mut bytes = [1u8; 32];
    bytes[0] = 0;
    assert!(!id(1).same(&Identity::new(bytes)));
    bytes[0] = 1;
    bytes[31] = 0;
    assert!(!id(1).same(&Identity::new(bytes)));
    assert_eq!(Identity::new([7; 32]).bytes, [7u8; 32]);
}

#[test]
fn registration_bounds() {
    let name32 = "n".repeat(32);
    let name33 = "n".repeat(33);
    let ten = vec!["t".repeat(32); 10];
    let eleven = vec!["t".to_string(); 11];
    assert!(registration_fits(&name32, &ten));
    assert!(registration_fits(&String::new(), &Vec::new()));
    assert!(!registration_fits(&name33, &ten));
    assert!(!registration_fits(&name32, &eleven));
    assert!(!registration_fits(&name32, &vec!["t".repeat(33)]));
    let mut last_too_long = ten.clone();
    last_too_long[9] = "t".repeat(33);
    assert!(!registration_fits(&name32, &last_too_long));
}

#[test]
fn bounds_count_characters() {
    let name = "é".repeat(32);
    assert_eq!(name.len(), 64);
    assert!(registration_fits(&name, &Vec::new()));
    assert!(!registration_fits(&"é".repeat(33), &Vec::new()));
}

#[test]
fn task_bounds() {
    let ten = vec!["t".repeat(32); 10];
    assert!(task_fits(&"d".repeat(256), &ten));
    assert!(!task_fits(&"d".repeat(257), &ten));
    assert!(!task_fits(&"d".repeat(256), &vec!["t".to_string(); 11]));
    assert!(!task_fits(&"d".to_string(), &vec!["t".repeat(33)]));
}

#[test]
fn agent_capability_lookup() {
    let agent = agent_with(&["ml", "nlp"]);
    assert!(agent.has_capability(&"ml".to_string()));
    assert!(agent.has_capability(&"nlp".to_string()));
    assert!(!agent.has_capability(&"vision".to_string()));
    assert!(agent.covers(&tags(&["nlp", "ml"])));
    assert!(agent.covers(&tags(&[])));
    assert!(!agent.covers(&tags(&["ml", "vision"])));
}

#[test]
fn rejections_in_words() {
    assert_eq!(ErrorCode::TaskNotOpen.message(), "Task is not open for acceptance");
    assert_eq!(ErrorCode::AgentNotActive.message(), "Agent is not active");
    assert_eq!(ErrorCode::TaskExpired.message(), "Task has expired");
    assert_eq!(ErrorCode::MissingCapability.message(), "Agent missing required capability");
    assert_eq!(ErrorCode::TaskNotInProgress.message(), "Task is not in progress");
    assert_eq!(ErrorCode::NotAssignedAgent.message(), "Caller is not the assigned agent");
    assert_eq!(ErrorCode::TaskNotPendingReview.message(), "Task is not pending review");
}

#[test]
fn signers_are_told_apart() {
    let mut ctx = AcceptTask {
        task_key: id(20),
        task: task_with(&["ml"]),
        agent_key: id(10),
        agent: agent_with(&["ml"]),
        agent_owner: id(11),
    };
    assert!(ctx.signed_by_owner());
    ctx.agent_owner = id(12);
    assert!(!ctx.signed_by_owner());

    let mut ctx = ApproveResult {
        task_key: id(20),
        task: task_in(TaskStatus::PendingReview),
        agent_key: id(10),
        agent: agent_with(&["ml"]),
        agent_token: id(12),
        agent_token_owner: id(11),
        escrow_bump: 254,
        creator: id(22),
    };
    assert!(ctx.signed_by_creator());
    ctx.creator = id(11);
    assert!(!ctx.signed_by_creator());
}

#[test]
fn counters_without_room_are_told() {
    let full = |completed: u64, earned: u64, status: TaskStatus| {
        let mut agent = agent_with(&["ml"]);
        agent.tasks_completed = completed;
        agent.total_earned = earned;
        ApproveResult {
            task_key: id(20),
            task: task_in(status),
            agent_key: id(10),
            agent,
            agent_token: id(12),
            agent_token_owner: id(11),
            escrow_bump: 254,
            creator: id(22),
        }
    };
    assert!(full(0, 0, TaskStatus::PendingReview).has_room());
    assert!(full(u64::MAX - 1, u64::MAX - 1000, TaskStatus::PendingReview).has_room());
    assert!(!full(u64::MAX, 0, TaskStatus::PendingReview).has_room());
    assert!(!full(0, u64::MAX - 999, TaskStatus::PendingReview).has_room());
    assert!(full(u64::MAX, u64::MAX, TaskStatus::Completed).has_room());

    let mut agent = agent_with(&["ml"]);
    agent.tasks_failed = u64::MAX;
    let mut ctx = RejectResult {
        task_key: id(20),
        task: task_in(TaskStatus::PendingReview),
        agent_key: id(10),
        agent,
        creator: id(22),
    };
    assert!(!ctx.has_room());
    ctx.task.status = TaskStatus::Open;
    assert!(ctx.has_room());
    ctx.task.status = TaskStatus::PendingReview;
    ctx.agent.tasks_failed = u64::MAX - 1;
    assert!(ctx.has_room());
    let res = reject_result(&mut ctx, "late".to_string());
    assert!(res.is_ok());
    assert_eq!(ctx.agent.tasks_failed, u64::MAX);
    assert_eq!(ctx.agent.reputation_score, 0);
}

#[test]
fn assigned_agent_is_told_apart() {
    let mut ctx = ApproveResult {
        task_key: id(20),
        task: task_in(TaskStatus::PendingReview),
        agent_key: id(10),
        agent: agent_with(&["ml"]),
        agent_token: id(12),
        agent_token_owner: id(11),
        escrow_bump: 254,
        creator: id(22),
    };
    assert!(ctx.names_assigned_agent());
    ctx.agent_key = id(9);
    assert!(!ctx.names_assigned_agent());
    ctx.task = task_in(TaskStatus::Open);
    assert!(!ctx.names_assigned_agent());

    let ctx = RejectResult {
        task_key: id(20),
        task: task_in(TaskStatus::PendingReview),
        agent_key: id(10),
        agent: agent_with(&["ml"]),
        creator: id(22),
    };
    assert!(ctx.names_assigned_agent());
}

fn acceptance() -> AcceptTask {
    AcceptTask {
        task_key: id(20),
        task: task_with(&["ml"]),
        agent_key: id(10),
        agent: agent_with(&["ml"]),
        agent_owner: id(11),
    }
}

fn submission() -> SubmitResult {
    SubmitResult {
        task_key: id(20),
        task: task_in(TaskStatus::InProgress),
        agent_key: id(10),
        agent: agent_with(&["ml"]),
        agent_owner: id(11),
    }
}

fn approval() -> ApproveResult {
    ApproveResult {
        task_key: id(20),
        task: task_in(TaskStatus::PendingReview),
        agent_key: id(10),
        agent: agent_with(&["ml"]),
        agent_token: id(12),
        agent_token_owner: id(11),
        escrow_bump: 254,
        creator: id(22),
    }
}

fn rejection() -> RejectResult {
    RejectResult {
        task_key: id(20),
        task: task_in(TaskStatus::PendingReview),
        agent_key: id(10),
        agent: agent_with(&["ml"]),
        creator: id(22),
    }
}

#[test]
fn accept_refuses_a_signer_who_is_not_the_owner() {
    let mut ctx = acceptance();
    ctx.agent_owner = id(99);
    let before = ctx.clone();
    assert_eq!(accept_task_at(&mut ctx, NOW), Err(Failure::WrongSigner));
    assert_eq!(ctx, before);
    assert_eq!(ctx.task.status, TaskStatus::Open);
    assert_eq!(ctx.task.assigned_agent, None);

    ctx.agent_owner = id(11);
    assert!(accept_task_at(&mut ctx, NOW).is_ok());
}

#[test]
fn accept_names_the_listed_rejections_before_the_signer() {
    let mut ctx = acceptance();
    ctx.agent_owner = id(99);
    ctx.agent.capabilities = Vec::new();
    assert_eq!(
        accept_task_at(&mut ctx, NOW),
        Err(Failure::Rejected(ErrorCode::MissingCapability))
    );
    assert_eq!(
        accept_task_at(&mut ctx, i64::MAX),
        Err(Failure::Rejected(ErrorCode::TaskExpired))
    );
    ctx.agent.is_active = false;
    assert_eq!(
        accept_task_at(&mut ctx, i64::MAX),
        Err(Failure::Rejected(ErrorCode::AgentNotActive))
    );
    ctx.task.status = TaskStatus::Completed;
    assert_eq!(
        accept_task_at(&mut ctx, i64::MAX),
        Err(Failure::Rejected(ErrorCode::TaskNotOpen))
    );
}

#[test]
fn submit_refuses_a_signer_who_is_not_the_owner() {
    let mut ctx = submission();
    ctx.agent_owner = id(99);
    let before = ctx.clone();
    assert_eq!(submit_result(&mut ctx, "ipfs://result".to_string()), Err(Failure::WrongSigner));
    assert_eq!(ctx, before);
    assert_eq!(ctx.task.result_uri, None);

    // The assigned agent is looked at before the signer, the status before both.
    ctx.agent_key = id(9);
    assert_eq!(
        submit_result(&mut ctx, "ipfs://result".to_string()),
        Err(Failure::Rejected(ErrorCode::NotAssignedAgent))
    );
    ctx.task.status = TaskStatus::PendingReview;
    assert_eq!(
        submit_result(&mut ctx, "ipfs://result".to_string()),
        Err(Failure::Rejected(ErrorCode::TaskNotInProgress))
    );

    let mut ctx = submission();
    assert!(submit_result(&mut ctx, "ipfs://result".to_string()).is_ok());
}

#[test]
fn approve_refuses_a_signer_who_is_not_the_creator() {
    let mut ctx = approval();
    ctx.creator = id(99);
    let before = ctx.clone();
    assert_eq!(approve_result(&mut ctx), Err(Failure::WrongSigner));
    assert_eq!(ctx, before);
    assert_eq!(ctx.agent.tasks_completed, 0);
    assert_eq!(ctx.agent.total_earned, 0);
    assert_eq!(ctx.task.status, TaskStatus::PendingReview);
}

#[test]
fn approve_refuses_an_agent_that_is_not_assigned() {
    let mut ctx = approval();
    ctx.agent_key = id(9);
    let before = ctx.clone();
    assert_eq!(approve_result(&mut ctx), Err(Failure::Rejected(ErrorCode::NotAssignedAgent)));
    assert_eq!(ctx, before);
    assert_eq!(ctx.agent.tasks_completed, 0);
    assert_eq!(ctx.agent.total_earned, 0);

    // A stranger's approval for an unassigned agent pays nothing either.
    ctx.creator = id(99);
    ctx.agent_token = id(98);
    ctx.agent_token_owner = id(99);
    let before = ctx.clone();
    assert_eq!(approve_result(&mut ctx), Err(Failure::Rejected(ErrorCode::NotAssignedAgent)));
    assert_eq!(ctx, before);

    // A task that was never assigned has no agent to pay.
    let mut ctx = approval();
    ctx.task.assigned_agent = None;
    assert_eq!(approve_result(&mut ctx), Err(Failure::Rejected(ErrorCode::NotAssignedAgent)));
}

#[test]
fn approve_refuses_an_account_that_the_agents_owner_does_not_hold() {
    let mut ctx = approval();
    ctx.agent_token_owner = id(99);
    let before = ctx.clone();
    assert_eq!(approve_result(&mut ctx), Err(Failure::WrongDestination));
    assert_eq!(ctx, before);
    assert!(!ctx.pays_agent_owner());

    ctx.agent_token_owner = id(11);
    assert!(ctx.pays_agent_owner());
    assert!(approve_result(&mut ctx).is_ok());
}

#[test]
fn approve_rejections_come_in_order() {
    let mut ctx = approval();
    ctx.agent_token_owner = id(99);
    ctx.creator = id(99);
    assert_eq!(approve_result(&mut ctx), Err(Failure::WrongSigner));
    ctx.agent_key = id(9);
    assert_eq!(approve_result(&mut ctx), Err(Failure::Rejected(ErrorCode::NotAssignedAgent)));
    ctx.task.status = TaskStatus::InProgress;
    assert_eq!(approve_result(&mut ctx), Err(Failure::Rejected(ErrorCode::TaskNotPendingReview)));
}

#[test]
fn reject_refuses_a_signer_who_is_not_the_creator() {
    let mut ctx = rejection();
    ctx.creator = id(99);
    let before = ctx.clone();
    assert_eq!(reject_result(&mut ctx, "no".to_string()), Err(Failure::WrongSigner));
    assert_eq!(ctx, before);
    assert_eq!(ctx.agent.tasks_failed, 0);
    assert_eq!(ctx.agent.reputation_score, 100);
}

#[test]
fn reject_refuses_an_agent_that_is_not_assigned() {
    let mut ctx = rejection();
    ctx.agent_key = id(9);
    let before = ctx.clone();
    assert_eq!(
        reject_result(&mut ctx, "no".to_string()),
        Err(Failure::Rejected(ErrorCode::NotAssignedAgent))
    );
    assert_eq!(ctx, before);
    assert_eq!(ctx.agent.tasks_failed, 0);

    ctx.creator = id(99);
    assert_eq!(
        reject_result(&mut ctx, "no".to_string()),
        Err(Failure::Rejected(ErrorCode::NotAssignedAgent))
    );
    ctx.task.status = TaskStatus::Completed;
    assert_eq!(
        reject_result(&mut ctx, "no".to_string()),
        Err(Failure::Rejected(ErrorCode::TaskNotPendingReview))
    );
}

#[test]
fn strangers_have_room_whatever_the_counters() {
    let mut ctx = approval();
    ctx.agent.tasks_completed = u64::MAX;
    assert!(!ctx.has_room());
    ctx.creator = id(99);
    assert!(ctx.has_room());
    assert_eq!(approve_result(&mut ctx), Err(Failure::WrongSigner));

    let mut ctx = rejection();
    ctx.agent.tasks_failed = u64::MAX;
    assert!(!ctx.has_room());
    ctx.agent_key = id(9);
    assert!(ctx.has_room());
    assert_eq!(
        reject_result(&mut ctx, "no".to_string()),
        Err(Failure::Rejected(ErrorCode::NotAssignedAgent))
    );
}
