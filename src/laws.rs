use vstd::prelude::*;

use crate::channel::{Channel, ChannelOp};
use crate::types::{ChannelError, ChannelStatus};

verus! {

/// Applies a run of timed operations in order; a rejected operation leaves
/// the state as it was.
pub open spec fn run(c: Channel, ops: Seq<(ChannelOp, i64)>) -> Channel
    decreases ops.len(),
{
    if ops.len() == 0 {
        c
    } else {
        let next = match c.step(ops[0].0, ops[0].1) {
            Ok(c2) => c2,
            Err(_) => c,
        };
        run(next, ops.drop_first())
    }
}

/// Whether `op` presents a sequence number (payments take the next one).
pub open spec fn is_sequenced(op: ChannelOp) -> bool {
    op is Pay || op is Update || op is Challenge
}

/// A run in which every operation is accepted.
pub open spec fn all_accepted(c: Channel, ops: Seq<(ChannelOp, i64)>) -> bool
    decreases ops.len(),
{
    if ops.len() == 0 {
        true
    } else {
        c.step(ops[0].0, ops[0].1) is Ok && all_accepted(
            c.step(ops[0].0, ops[0].1)->Ok_0,
            ops.drop_first(),
        )
    }
}

/// Conservation: every accepted operation on a well-formed channel yields a
/// well-formed channel, so `current_balance + total_spent == initial_deposit`
/// holds in every reachable state.
pub proof fn lemma_step_conserves(c: Channel, op: ChannelOp, now: i64)
    requires
        c.wf(),
    ensures
        c.step(op, now) matches Ok(c2) ==> c2.wf() && c2.current_balance + c2.total_spent
            == c2.initial_deposit && c2.initial_deposit == c.initial_deposit,
{
}

/// Conservation over any run of operations.
pub proof fn lemma_run_conserves(c: Channel, ops: Seq<(ChannelOp, i64)>)
    requires
        c.wf(),
    ensures
        run(c, ops).wf(),
        run(c, ops).current_balance + run(c, ops).total_spent == c.initial_deposit,
    decreases ops.len(),
{
    if ops.len() > 0 {
        lemma_step_conserves(c, ops[0].0, ops[0].1);
        let next = match c.step(ops[0].0, ops[0].1) {
            Ok(c2) => c2,
            Err(_) => c,
        };
        lemma_run_conserves(next, ops.drop_first());
    }
}

/// Monotonic sequencing, one step: an accepted payment, update or challenge
/// strictly raises the sequence number, no operation lowers it, and an update
/// or challenge presenting a sequence number not above the current one is
/// always rejected, with `InvalidSequence` once the status (and, for a
/// challenge, the deadline) allows the call.
pub proof fn lemma_step_sequencing(c: Channel, op: ChannelOp, now: i64)
    requires
        c.wf(),
    ensures
        c.step(op, now) matches Ok(c2) ==> c2.sequence_number >= c.sequence_number,
        c.step(op, now) matches Ok(c2) ==> (is_sequenced(op) ==> c2.sequence_number
            > c.sequence_number),
        op matches ChannelOp::Update { sequence_number, .. } ==> (sequence_number
            <= c.sequence_number ==> c.step(op, now) is Err),
        op matches ChannelOp::Challenge { sequence_number, .. } ==> (sequence_number
            <= c.sequence_number ==> c.step(op, now) is Err),
        op matches ChannelOp::Update { sequence_number, .. } ==> (sequence_number
            <= c.sequence_number && c.status == ChannelStatus::Active ==> c.step(op, now)
            == Err::<Channel, ChannelError>(ChannelError::InvalidSequence)),
        op matches ChannelOp::Challenge { sequence_number, .. } ==> (sequence_number
            <= c.sequence_number && c.status == ChannelStatus::Closing && now < c.deadline()
            ==> c.step(op, now) == Err::<Channel, ChannelError>(ChannelError::InvalidSequence)),
{
}

/// Monotonic sequencing over a run of accepted operations: the sequence
/// number never decreases, and strictly increases when the run holds a
/// payment, update or challenge.
pub proof fn lemma_run_sequencing(c: Channel, ops: Seq<(ChannelOp, i64)>)
    requires
        c.wf(),
        all_accepted(c, ops),
    ensures
        run(c, ops).sequence_number >= c.sequence_number,
        (exists|i: int| 0 <= i < ops.len() && is_sequenced(#[trigger] ops[i].0)) ==> run(
            c,
            ops,
        ).sequence_number > c.sequence_number,
    decreases ops.len(),
{
    if ops.len() > 0 {
        lemma_step_conserves(c, ops[0].0, ops[0].1);
        lemma_step_sequencing(c, ops[0].0, ops[0].1);
        let next = c.step(ops[0].0, ops[0].1)->Ok_0;
        let rest = ops.drop_first();
        lemma_run_sequencing(next, rest);
        if exists|i: int| 0 <= i < ops.len() && is_sequenced(#[trigger] ops[i].0) {
            let i = choose|i: int| 0 <= i < ops.len() && is_sequenced(#[trigger] ops[i].0);
            if i > 0 {
                assert(rest[i - 1] == ops[i]);
                assert(is_sequenced(rest[i - 1].0));
            }
        }
    }
}

/// Terminal idempotence: every operation on a closed channel is rejected.
pub proof fn lemma_closed_rejects(c: Channel, op: ChannelOp, now: i64)
    requires
        c.status == ChannelStatus::Closed,
    ensures
        c.step(op, now) is Err,
{
}

/// Terminal idempotence over a run: a closed channel is never exited and
/// never changes.
pub proof fn lemma_closed_is_terminal(c: Channel, ops: Seq<(ChannelOp, i64)>)
    requires
        c.status == ChannelStatus::Closed,
    ensures
        run(c, ops) == c,
    decreases ops.len(),
{
    if ops.len() > 0 {
        lemma_closed_rejects(c, ops[0].0, ops[0].1);
        lemma_closed_is_terminal(c, ops.drop_first());
    }
}

/// Expiry enforcement: a payment at or after `expires_at` always fails, and
/// with `ChannelExpired` on an active channel, whatever the amount, balance
/// and signature.
pub proof fn lemma_expired_payment_fails(c: Channel, amount: u64, signature_valid: bool, now: i64)
    requires
        now >= c.expires_at,
    ensures
        c.step(ChannelOp::Pay { amount, signature_valid }, now) is Err,
        c.status == ChannelStatus::Active ==> c.step(ChannelOp::Pay { amount, signature_valid }, now)
            == Err::<Channel, ChannelError>(ChannelError::ChannelExpired),
{
}

/// Challenge window: a challenge fails once `now` reaches the deadline, and
/// finalizing fails while `now` is before it.
pub proof fn lemma_challenge_window(c: Channel, op: ChannelOp, now: i64)
    requires
        c.wf(),
        c.status == ChannelStatus::Closing,
    ensures
        op is Challenge && now >= c.deadline() ==> c.step(op, now) == Err::<Channel, ChannelError>(
            ChannelError::ChallengePeriodExpired,
        ),
        op is Finalize && now < c.deadline() ==> c.step(op, now) == Err::<Channel, ChannelError>(
            ChannelError::ChallengePeriodNotExpired,
        ),
{
}

} // verus!
