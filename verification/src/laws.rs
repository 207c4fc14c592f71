use crate::errors::ErrorCode;
use crate::escrow::Escrow;
use crate::events::PrizeClaimed;
use crate::fees::lemma_escalated_fee_bounds;
use crate::ops::{
    claim_prize_transition, jigsaw_approve_payout_transition, submit_message_transition,
    ClaimPrize, JigsawApprovePayout, SubmitMessage,
};
use vstd::prelude::*;

verus! {

/// One submission — accepted or rejected — never lowers the current fee of
/// an escrow whose fee sits within its cap, never lifts it past the cap,
/// and leaves the cap itself alone.
pub proof fn lemma_submit_fee_step(e: Escrow, m: SubmitMessage)
    requires
        e.current_fee <= e.fee_cap,
    ensures
        ({
            let e2 = submit_message_transition(e, m).0;
            e.current_fee <= e2.current_fee <= e2.fee_cap && e2.fee_cap == e.fee_cap
        }),
{
    lemma_escalated_fee_bounds(e.current_fee, e.fee_cap);
}

/// The escrow after a sequence of submissions, applied in order; a
/// rejected submission leaves the state unchanged.
pub open spec fn submit_sequence(e: Escrow, ms: Seq<SubmitMessage>) -> Escrow
    decreases ms.len(),
{
    if ms.len() == 0 {
        e
    } else {
        submit_sequence(submit_message_transition(e, ms[0]).0, ms.subrange(1, ms.len() as int))
    }
}

/// Across any sequence of submissions, the current fee never decreases and
/// never exceeds the fee cap, which itself never moves.
pub proof fn lemma_fee_monotone_over_sequence(e: Escrow, ms: Seq<SubmitMessage>)
    requires
        e.current_fee <= e.fee_cap,
    ensures
        ({
            let e2 = submit_sequence(e, ms);
            e.current_fee <= e2.current_fee <= e2.fee_cap && e2.fee_cap == e.fee_cap
        }),
    decreases ms.len(),
{
    if ms.len() > 0 {
        lemma_submit_fee_step(e, ms[0]);
        lemma_fee_monotone_over_sequence(
            submit_message_transition(e, ms[0]).0,
            ms.subrange(1, ms.len() as int),
        );
    }
}

/// Settlement happens at most once. After a claim succeeds, any further
/// claim arriving at or past the unchanged deadline fails with
/// `AlreadyClaimed`, and any force-settlement fails with `AlreadyClaimed`
/// outright. (A later claim attempt dated before the deadline stops
/// earlier, with `GameNotEnded`.)
pub proof fn lemma_settlement_once_after_claim(
    e: Escrow,
    c1: ClaimPrize,
    c2: ClaimPrize,
    j2: JigsawApprovePayout,
)
    requires
        claim_prize_transition(e, c1).1 is Ok,
    ensures
        c2.now >= claim_prize_transition(e, c1).0.deadline ==> claim_prize_transition(
            claim_prize_transition(e, c1).0,
            c2,
        ).1 == Err::<PrizeClaimed, ErrorCode>(ErrorCode::AlreadyClaimed),
        jigsaw_approve_payout_transition(claim_prize_transition(e, c1).0, j2).1 == Err::<
            PrizeClaimed,
            ErrorCode,
        >(ErrorCode::AlreadyClaimed),
{
}

/// Settlement happens at most once, force-settlement path. After a
/// force-settlement succeeds, any further force-settlement fails with
/// `AlreadyClaimed`; a claim attempt does too, provided the timer had been
/// armed and its deadline has passed (with the timer never armed, the
/// claim stops earlier, with `GameNotEnded`).
pub proof fn lemma_settlement_once_after_force(
    e: Escrow,
    j1: JigsawApprovePayout,
    c2: ClaimPrize,
    j2: JigsawApprovePayout,
)
    requires
        jigsaw_approve_payout_transition(e, j1).1 is Ok,
    ensures
        jigsaw_approve_payout_transition(jigsaw_approve_payout_transition(e, j1).0, j2).1 == Err::<
            PrizeClaimed,
            ErrorCode,
        >(ErrorCode::AlreadyClaimed),
        e.timer_active && c2.now >= e.deadline ==> claim_prize_transition(
            jigsaw_approve_payout_transition(e, j1).0,
            c2,
        ).1 == Err::<PrizeClaimed, ErrorCode>(ErrorCode::AlreadyClaimed),
{
}

} // verus!
