//! How an aggregate of the pool moves over a sequence of operations.
//!
//! Deposits and borrows add to an aggregate; withdrawals and repayments take
//! from it and stop at zero. The functions here say what a whole sequence of
//! such steps leaves behind.

use vstd::prelude::*;
use vstd::math::max;
use crate::accounts::{Borrow, DepositCollateral, Repay, WithdrawCollateral};
use crate::state::{credited, debited};

verus! {

/// One step of an aggregate: an amount that comes in (a deposit, a borrow)
/// or goes out (a withdrawal, a repayment).
pub enum Flow {
    In(u64),
    Out(u64),
}

/// The signed amount of one step.
pub open spec fn signed(flow: Flow) -> int {
    match flow {
        Flow::In(amount) => amount as int,
        Flow::Out(amount) => -(amount as int),
    }
}

/// The aggregate after one step.
pub open spec fn step(total: int, flow: Flow) -> int {
    match flow {
        Flow::In(amount) => credited(total, amount as int),
        Flow::Out(amount) => debited(total, amount as int),
    }
}

/// The aggregate after all steps of `flows`, in order, starting from `start`.
pub open spec fn settle(start: int, flows: Seq<Flow>) -> int
    decreases flows.len(),
{
    if flows.len() == 0 {
        start
    } else {
        step(settle(start, flows.drop_last()), flows.last())
    }
}

/// The sum of the signed amounts of `flows`.
pub open spec fn net(flows: Seq<Flow>) -> int
    decreases flows.len(),
{
    if flows.len() == 0 {
        0
    } else {
        net(flows.drop_last()) + signed(flows.last())
    }
}

/// The largest sum of signed amounts over the runs of steps that end the
/// sequence, the empty run included.
pub open spec fn peak_tail(flows: Seq<Flow>) -> int
    decreases flows.len(),
{
    if flows.len() == 0 {
        0
    } else {
        max(0, peak_tail(flows.drop_last()) + signed(flows.last()))
    }
}

/// No step takes more than the aggregate holds when it is applied.
pub open spec fn never_floored(start: int, flows: Seq<Flow>) -> bool {
    forall|k: int| 0 <= k <= flows.len() ==> start + #[trigger] net(flows.take(k)) >= 0
}

/// An aggregate that starts at zero or above never goes negative, and after
/// any sequence of steps it is the larger of two numbers: the start plus the
/// net of all steps, and the largest net of a run of steps at the end.
pub proof fn lemma_settle(start: int, flows: Seq<Flow>)
    requires
        start >= 0,
    ensures
        settle(start, flows) >= 0,
        settle(start, flows) == max(start + net(flows), peak_tail(flows)),
    decreases flows.len(),
{
    if flows.len() > 0 {
        lemma_settle(start, flows.drop_last());
    }
}

/// After any sequence of deposits and withdrawals the aggregate is not
/// negative. It equals the start plus the net of the amounts,
/// floored at zero, exactly when no run of steps at the end of the sequence
/// nets more than that. (A withdrawal that was floored and a later deposit
/// make such a run: from zero, taking 5 and then adding 3 leaves 3.)
pub proof fn lemma_aggregate_consistency(start: int, flows: Seq<Flow>)
    requires
        start >= 0,
    ensures
        settle(start, flows) >= 0,
        settle(start, flows) >= max(0, start + net(flows)),
        settle(start, flows) == max(0, start + net(flows)) <==> peak_tail(flows) <= max(
            0,
            start + net(flows),
        ),
{
    lemma_settle(start, flows);
    lemma_peak_tail_bounds(flows);
}

/// The largest net of a run at the end is at least zero.
proof fn lemma_peak_tail_bounds(flows: Seq<Flow>)
    ensures
        peak_tail(flows) >= 0,
{
}

/// Where no step is floored, the aggregate is the start plus the net of the
/// amounts.
pub proof fn lemma_unfloored_aggregate(start: int, flows: Seq<Flow>)
    requires
        start >= 0,
        never_floored(start, flows),
    ensures
        settle(start, flows) == start + net(flows),
    decreases flows.len(),
{
    if flows.len() > 0 {
        let front = flows.drop_last();
        assert forall|k: int| 0 <= k <= front.len() implies start + #[trigger] net(front.take(k))
            >= 0 by {
            assert(front.take(k) =~= flows.take(k));
        }
        lemma_unfloored_aggregate(start, front);
        assert(flows.take(flows.len() as int) =~= flows);
        assert(flows.take(front.len() as int) =~= front);
    }
}

/// Each operation moves its aggregate by one step: a deposit and a borrow add
/// the amount where the sum fits, a withdrawal and a repayment take it and
/// stop at zero.
pub proof fn lemma_operations_are_steps(
    deposit: DepositCollateral,
    withdrawal: WithdrawCollateral,
    borrow: Borrow,
    repayment: Repay,
    amount: u64,
    ciphertext: [u8; 32],
    now: i64,
)
    ensures
        deposit.pool.total_deposits + amount <= u64::MAX ==> deposit.after(
            amount,
            ciphertext,
            now,
        ).pool.total_deposits == step(deposit.pool.total_deposits as int, Flow::In(amount)),
        withdrawal.after(amount, ciphertext, now).pool.total_deposits == step(
            withdrawal.pool.total_deposits as int,
            Flow::Out(amount),
        ),
        borrow.pool.total_borrows + amount <= u64::MAX ==> borrow.after(
            amount,
            ciphertext,
            now,
        ).pool.total_borrows == step(borrow.pool.total_borrows as int, Flow::In(amount)),
        repayment.after(amount, ciphertext, now).pool.total_borrows == step(
            repayment.pool.total_borrows as int,
            Flow::Out(amount),
        ),
{
}

} // verus!
