//! Reputation scoring: a pure function of an agent's outcome counters.

use vstd::prelude::*;

verus! {

/// The score of an agent with the given outcome history: 100 for an agent
/// with no history, otherwise the percentage of completed tasks, rounded down.
pub open spec fn reputation_of(tasks_completed: nat, tasks_failed: nat) -> nat {
    if tasks_completed + tasks_failed == 0 {
        100
    } else {
        (100 * tasks_completed) / (tasks_completed + tasks_failed)
    }
}

/// A score never leaves the range 0 to 100.
pub proof fn lemma_reputation_bounded(tasks_completed: nat, tasks_failed: nat)
    ensures
        reputation_of(tasks_completed, tasks_failed) <= 100,
{
    if tasks_completed + tasks_failed != 0 {
        let total: int = (tasks_completed + tasks_failed) as int;
        let c: int = tasks_completed as int;
        assert((100 * c) / total <= 100) by (nonlinear_arith)
            requires
                0 <= c <= total,
                total > 0,
        ;
    }
}

/// The score is the exact percentage, rounded down: of a history that is not
/// empty, it is the one number `s` with
/// `s * total <= 100 * completed < (s + 1) * total`.
pub proof fn lemma_reputation_is_floor(tasks_completed: nat, tasks_failed: nat)
    requires
        tasks_completed + tasks_failed > 0,
    ensures
        reputation_of(tasks_completed, tasks_failed) * (tasks_completed + tasks_failed) <= 100
            * tasks_completed,
        100 * tasks_completed < (reputation_of(tasks_completed, tasks_failed) + 1) * (
        tasks_completed + tasks_failed),
{
    let c: int = tasks_completed as int;
    let t: int = (tasks_completed + tasks_failed) as int;
    let q: int = (100 * c) / t;
    assert(q * t <= 100 * c && 100 * c < (q + 1) * t) by (nonlinear_arith)
        requires
            q == (100 * c) / t,
            t > 0,
            c >= 0,
    ;
}

/// One more completed task never lowers a score, and one more failed task
/// never raises it.
pub proof fn lemma_reputation_monotone(tasks_completed: nat, tasks_failed: nat)
    ensures
        reputation_of(tasks_completed + 1, tasks_failed) >= reputation_of(
            tasks_completed,
            tasks_failed,
        ),
        reputation_of(tasks_completed, tasks_failed + 1) <= reputation_of(
            tasks_completed,
            tasks_failed,
        ),
{
    let c: int = tasks_completed as int;
    let f: int = tasks_failed as int;
    lemma_reputation_bounded(tasks_completed, tasks_failed);
    if c + f > 0 {
        let q: int = (100 * c) / (c + f);
        assert(q * (c + f) <= 100 * c && q <= 100 && q >= 0) by (nonlinear_arith)
            requires
                q == (100 * c) / (c + f),
                c >= 0,
                f >= 0,
                c + f > 0,
        ;
        assert((100 * (c + 1)) / (c + 1 + f) >= q) by (nonlinear_arith)
            requires
                q * (c + f) <= 100 * c,
                0 <= q <= 100,
                c >= 0,
                f >= 0,
        ;
        assert((100 * c) / (c + f + 1) <= q) by (nonlinear_arith)
            requires
                q == (100 * c) / (c + f),
                c >= 0,
                f >= 0,
                c + f > 0,
        ;
    } else {
        assert((100 * 1) / 1 == 100) by (nonlinear_arith);
        assert(reputation_of(1, 0) == 100);
        assert((100 * 0) / 1 == 0) by (nonlinear_arith);
    }
}

/// Computes the reputation score from the two outcome counters.
pub fn calculate_reputation(tasks_completed: u64, tasks_failed: u64) -> (score: u64)
    ensures
        score == reputation_of(tasks_completed as nat, tasks_failed as nat),
        score <= 100,
        tasks_completed + tasks_failed > 0 ==> score * (tasks_completed + tasks_failed) <= 100
            * tasks_completed < (score + 1) * (tasks_completed + tasks_failed),
{
    let total: u128 = tasks_completed as u128 + tasks_failed as u128;
    if total == 0 {
        return 100;
    }
    let scaled: u128 = 100u128 * (tasks_completed as u128);
    let score: u128 = scaled / total;
    proof {
        lemma_reputation_bounded(tasks_completed as nat, tasks_failed as nat);
        lemma_reputation_is_floor(tasks_completed as nat, tasks_failed as nat);
    }
    score as u64
}

} // verus!
