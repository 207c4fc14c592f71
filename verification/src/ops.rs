use crate::auth::{is_authority, is_declared_marketing_wallet, is_last_sender, not_ended};
use crate::errors::ErrorCode;
use crate::escrow::Escrow;
use crate::events::{
    MarketingFeeSent, MarketingParamsUpdated, MessageSubmitted, PrizeClaimed, TimerExtended,
    TimerStarted,
};
use crate::fees::{
    compute_split, escalate, escalated_fee, lemma_marketing_share_bounds, marketing_share,
    BPS_DENOMINATOR, MAX_MARKETING_BPS,
};
use crate::pubkey::Pubkey;
use crate::timer::{evaluate_timer, timer_decision, TimerAction, TIMER_EXTEND_SECONDS, TIMER_START_AFTER};
use vstd::arithmetic::mul::lemma_mul_upper_bound;
use vstd::prelude::*;

verus! {

/// What the initialization operation reads from its caller: the funding
/// authority, the marketing wallet it declares, and the address-derivation
/// nonce discovered for the escrow record.
#[derive(Clone, Copy, PartialEq, Eq, Debug)]
pub struct Initialize {
    pub authority: Pubkey,
    pub marketing_wallet: Pubkey,
    pub bump: u8,
}

/// What a submission reads from its caller and environment: the payer, the
/// payer's available balance, the marketing wallet the caller declared, the
/// message hash, and the current time.
#[derive(Clone, Copy, PartialEq, Eq, Debug)]
pub struct SubmitMessage {
    pub payer: Pubkey,
    pub payer_lamports: u64,
    pub marketing_wallet: Pubkey,
    pub msg_hash: [u8; 32],
    pub now: i64,
}

/// What a prize claim reads: the claimant, the vault's current balance, and
/// the current time.
#[derive(Clone, Copy, PartialEq, Eq, Debug)]
pub struct ClaimPrize {
    pub winner: Pubkey,
    pub vault_balance: u64,
    pub now: i64,
}

/// What an authority force-settlement reads: the approver, the designated
/// winner, and the vault's current balance.
#[derive(Clone, Copy, PartialEq, Eq, Debug)]
pub struct JigsawApprovePayout {
    pub jigsaw_approver: Pubkey,
    pub winner: Pubkey,
    pub vault_balance: u64,
}

/// What a fee-parameter update reads: the caller claiming authority.
#[derive(Clone, Copy, PartialEq, Eq, Debug)]
pub struct SetFeeParams {
    pub authority: Pubkey,
}

/// What a marketing-parameter update reads: the caller claiming authority.
#[derive(Clone, Copy, PartialEq, Eq, Debug)]
pub struct SetMarketingParams {
    pub authority: Pubkey,
}

/// Everything an accepted submission asks of the ledger and of the outside
/// observers. The caller moves `prize_fee` from the payer to the vault when
/// it is positive, moves the marketing share as `marketing_sent` says, and
/// delivers the events.
#[derive(Clone, Copy, PartialEq, Eq, Debug)]
pub struct SubmitEffects {
    /// The fee this submission paid: the pre-escalation fee.
    pub fee_paid: u64,
    /// Amount owed from the payer to the vault; zero means no movement.
    pub prize_fee: u64,
    /// The marketing side of the split, whether or not it moves.
    pub marketing_fee: u64,
    /// Present exactly when the marketing share is positive and the stored
    /// wallet is non-empty: the movement from the payer to that wallet.
    pub marketing_sent: Option<MarketingFeeSent>,
    /// The submission notification.
    pub submitted: MessageSubmitted,
    /// Present exactly when this submission armed the timer.
    pub timer_started: Option<TimerStarted>,
    /// Present exactly when this submission extended the running timer.
    pub timer_extended: Option<TimerExtended>,
}

/// The escrow record as initialization writes it: fees start at the base,
/// nothing counted, nobody has sent, no timer runs, the game is live.
pub open spec fn initialized_escrow(
    ctx: Initialize,
    base_fee: u64,
    fee_cap: u64,
    marketing_bps: u16,
) -> Escrow {
    Escrow {
        authority: ctx.authority,
        base_fee: base_fee,
        fee_cap: fee_cap,
        current_fee: base_fee,
        marketing_wallet: ctx.marketing_wallet,
        marketing_bps: marketing_bps,
        messages_count: 0,
        last_sender: Pubkey::zero(),
        timer_active: false,
        deadline: 0,
        ended: false,
        bump: ctx.bump,
    }
}

/// Creates the escrow record.
///
/// No parameter is validated here: the fee bounds and the marketing share
/// are only checked by the later parameter updates. The record is
/// well-formed exactly when the parameters given here already respect
/// those checks.
pub fn initialize(ctx: Initialize, base_fee: u64, fee_cap: u64, marketing_bps: u16) -> (e: Escrow)
    ensures
        e == initialized_escrow(ctx, base_fee, fee_cap, marketing_bps),
        e.current_fee == base_fee,
        !e.ended,
        e.messages_count == 0,
        !e.timer_active,
        e.last_sender.is_zero(),
        0 < base_fee && base_fee <= fee_cap && marketing_bps <= MAX_MARKETING_BPS ==> e.wf(),
{
    Escrow {
        authority: ctx.authority,
        base_fee: base_fee,
        fee_cap: fee_cap,
        current_fee: base_fee,
        marketing_wallet: ctx.marketing_wallet,
        marketing_bps: marketing_bps,
        messages_count: 0,
        last_sender: Pubkey::new(0, 0, 0, 0),
        timer_active: false,
        deadline: 0,
        ended: false,
        bump: ctx.bump,
    }
}

/// The submission transition: the state after the call and what the call
/// returns. Checks run in order — game live, declared wallet matches,
/// running timer not expired, payer can afford the fee — then the fee is
/// split, the submission is counted, the timer decision is applied, and the
/// fee escalates. Any checked-math failure rejects the whole submission
/// with an arithmetic fault and leaves the state untouched.
pub open spec fn submit_message_transition(e: Escrow, m: SubmitMessage) -> (Escrow, Result<
    SubmitEffects,
    ErrorCode,
>) {
    if e.ended {
        (e, Err(ErrorCode::GameEnded))
    } else if m.marketing_wallet != e.marketing_wallet {
        (e, Err(ErrorCode::Unauthorized))
    } else if e.timer_active && m.now > e.deadline {
        (e, Err(ErrorCode::TimerExpired))
    } else if m.payer_lamports < e.current_fee {
        (e, Err(ErrorCode::InsufficientFee))
    } else if marketing_share(e.current_fee, e.marketing_bps) > e.current_fee {
        (e, Err(ErrorCode::ArithmeticOverflow))
    } else if e.messages_count == u64::MAX {
        (e, Err(ErrorCode::ArithmeticOverflow))
    } else if timer_decision((e.messages_count + 1) as u64, e.timer_active, e.deadline, m.now)
        is Err {
        (e, Err(ErrorCode::ArithmeticOverflow))
    } else {
        let marketing_fee = marketing_share(e.current_fee, e.marketing_bps) as u64;
        let prize_fee = (e.current_fee - marketing_fee) as u64;
        let new_count = (e.messages_count + 1) as u64;
        let action = match timer_decision(new_count, e.timer_active, e.deadline, m.now) {
            Ok(a) => a,
            Err(_) => TimerAction::NoChange,
        };
        let new_active = match action {
            TimerAction::Armed { .. } => true,
            _ => e.timer_active,
        };
        let new_deadline = match action {
            TimerAction::Armed { new_deadline } => new_deadline,
            TimerAction::Extended { new_deadline } => new_deadline,
            TimerAction::NoChange => e.deadline,
        };
        let new_fee = escalated_fee(e.current_fee, e.fee_cap) as u64;
        let e2 = Escrow {
            authority: e.authority,
            base_fee: e.base_fee,
            fee_cap: e.fee_cap,
            current_fee: new_fee,
            marketing_wallet: e.marketing_wallet,
            marketing_bps: e.marketing_bps,
            messages_count: new_count,
            last_sender: m.payer,
            timer_active: new_active,
            deadline: new_deadline,
            ended: e.ended,
            bump: e.bump,
        };
        let effects = SubmitEffects {
            fee_paid: e.current_fee,
            prize_fee: prize_fee,
            marketing_fee: marketing_fee,
            marketing_sent: if marketing_fee > 0 && e.marketing_wallet != Pubkey::zero() {
                Some(MarketingFeeSent { wallet: e.marketing_wallet, amount: marketing_fee })
            } else {
                None
            },
            submitted: MessageSubmitted {
                sender: m.payer,
                msg_hash: m.msg_hash,
                fee_paid: e.current_fee,
                new_fee: new_fee,
                timestamp: m.now,
            },
            timer_started: match action {
                TimerAction::Armed { new_deadline } => Some(TimerStarted { deadline: new_deadline }),
                _ => None,
            },
            timer_extended: match action {
                TimerAction::Extended { new_deadline } => Some(
                    TimerExtended { new_deadline: new_deadline },
                ),
                _ => None,
            },
        };
        (e2, Ok(effects))
    }
}

/// Accepts a paid message: splits the fee, counts the submission, records
/// the sender, arms or extends the inactivity timer, and escalates the fee
/// for the next submission. Returns the fund movements and notifications
/// the caller must carry out; on any rejection the escrow is unchanged.
pub fn submit_message(escrow: &mut Escrow, m: SubmitMessage) -> (r: Result<
    SubmitEffects,
    ErrorCode,
>)
    ensures
        *final(escrow) == submit_message_transition(*old(escrow), m).0,
        r == submit_message_transition(*old(escrow), m).1,
        r is Err ==> *final(escrow) == *old(escrow),
        old(escrow).ended ==> r == Err::<SubmitEffects, ErrorCode>(ErrorCode::GameEnded),
        final(escrow).base_fee == old(escrow).base_fee && final(escrow).fee_cap == old(
            escrow,
        ).fee_cap && final(escrow).marketing_bps == old(escrow).marketing_bps && final(escrow).marketing_wallet == old(escrow).marketing_wallet && final(escrow).authority == old(
            escrow,
        ).authority && final(escrow).ended == old(escrow).ended,
        old(escrow).current_fee <= old(escrow).fee_cap ==> old(escrow).current_fee <= final(escrow).current_fee <= final(escrow).fee_cap,
        old(escrow).wf() ==> final(escrow).wf(),
        r is Ok ==> final(escrow).messages_count == old(escrow).messages_count + 1 && final(escrow).last_sender == m.payer,
        r is Ok && !old(escrow).timer_active && old(escrow).messages_count + 1
            >= TIMER_START_AFTER ==> final(escrow).timer_active && final(escrow).deadline == m.now
            + TIMER_EXTEND_SECONDS,
        r is Ok && old(escrow).timer_active ==> final(escrow).timer_active && final(escrow).deadline == m.now + TIMER_EXTEND_SECONDS,
        r is Ok && !old(escrow).timer_active && old(escrow).messages_count + 1
            < TIMER_START_AFTER ==> !final(escrow).timer_active && final(escrow).deadline == old(
            escrow,
        ).deadline,
{
    let fee_paid = escrow.current_fee;
    if !not_ended(escrow) {
        return Err(ErrorCode::GameEnded);
    }
    if !is_declared_marketing_wallet(m.marketing_wallet, escrow) {
        return Err(ErrorCode::Unauthorized);
    }
    if escrow.timer_active && m.now > escrow.deadline {
        return Err(ErrorCode::TimerExpired);
    }
    if m.payer_lamports < escrow.current_fee {
        return Err(ErrorCode::InsufficientFee);
    }
    let marketing_fee: u64;
    let prize_fee: u64;
    if escrow.marketing_bps as u64 <= BPS_DENOMINATOR {
        proof {
            lemma_marketing_share_bounds(escrow.current_fee, escrow.marketing_bps);
        }
        let split = compute_split(escrow.current_fee, escrow.marketing_bps);
        marketing_fee = split.0;
        prize_fee = split.1;
    } else {
        // A marketing share beyond the whole fee can only arise from an
        // unvalidated initialization; the prize side would go negative,
        // which is a checked-math fault.
        proof {
            lemma_mul_upper_bound(
                escrow.current_fee as int,
                u64::MAX as int,
                escrow.marketing_bps as int,
                u16::MAX as int,
            );
        }
        let wide: u128 = (escrow.current_fee as u128) * (escrow.marketing_bps as u128);
        let share: u128 = wide / (BPS_DENOMINATOR as u128);
        if share > escrow.current_fee as u128 {
            return Err(ErrorCode::ArithmeticOverflow);
        }
        marketing_fee = share as u64;
        prize_fee = escrow.current_fee - marketing_fee;
    }
    if escrow.messages_count == u64::MAX {
        return Err(ErrorCode::ArithmeticOverflow);
    }
    let new_count = escrow.messages_count + 1;
    let action = match evaluate_timer(new_count, escrow.timer_active, escrow.deadline, m.now) {
        Ok(a) => a,
        Err(fault) => {
            return Err(fault);
        },
    };
    escrow.messages_count = new_count;
    escrow.last_sender = m.payer;
    let mut timer_started: Option<TimerStarted> = None;
    let mut timer_extended: Option<TimerExtended> = None;
    match action {
        TimerAction::Armed { new_deadline } => {
            escrow.timer_active = true;
            escrow.deadline = new_deadline;
            timer_started = Some(TimerStarted { deadline: new_deadline });
        },
        TimerAction::Extended { new_deadline } => {
            escrow.deadline = new_deadline;
            timer_extended = Some(TimerExtended { new_deadline: new_deadline });
        },
        TimerAction::NoChange => {},
    }
    let new_fee = escalate(fee_paid, escrow.fee_cap);
    escrow.current_fee = new_fee;
    let marketing_sent: Option<MarketingFeeSent> = if marketing_fee > 0
        && escrow.marketing_wallet != Pubkey::default() {
        Some(MarketingFeeSent { wallet: escrow.marketing_wallet, amount: marketing_fee })
    } else {
        None
    };
    Ok(
        SubmitEffects {
            fee_paid,
            prize_fee,
            marketing_fee,
            marketing_sent,
            submitted: MessageSubmitted {
                sender: m.payer,
                msg_hash: m.msg_hash,
                fee_paid,
                new_fee,
                timestamp: m.now,
            },
            timer_started,
            timer_extended,
        },
    )
}

/// The prize-claim transition: the winner may sweep the vault once the
/// armed timer has run out. The terminal flag is what makes settlement
/// one-shot: it is set before any funds move, and a second attempt stops
/// on it.
pub open spec fn claim_prize_transition(e: Escrow, c: ClaimPrize) -> (Escrow, Result<
    PrizeClaimed,
    ErrorCode,
>) {
    if !e.timer_active {
        (e, Err(ErrorCode::GameNotEnded))
    } else if c.now < e.deadline {
        (e, Err(ErrorCode::GameNotEnded))
    } else if e.last_sender.is_zero() {
        (e, Err(ErrorCode::NoWinner))
    } else if e.ended {
        (e, Err(ErrorCode::AlreadyClaimed))
    } else if c.winner != e.last_sender {
        (e, Err(ErrorCode::NotTheWinner))
    } else {
        (
            Escrow {
                authority: e.authority,
                base_fee: e.base_fee,
                fee_cap: e.fee_cap,
                current_fee: e.current_fee,
                marketing_wallet: e.marketing_wallet,
                marketing_bps: e.marketing_bps,
                messages_count: e.messages_count,
                last_sender: e.last_sender,
                timer_active: e.timer_active,
                deadline: e.deadline,
                ended: true,
                bump: e.bump,
            },
            Ok(PrizeClaimed { winner: c.winner, amount: c.vault_balance }),
        )
    }
}

/// Settles the game to the last sender after the timer has run out.
///
/// On success the terminal flag is set — before the caller moves any funds —
/// and the returned notification tells the caller to sweep the vault's full
/// balance to the winner.
pub fn claim_prize(escrow: &mut Escrow, c: ClaimPrize) -> (r: Result<PrizeClaimed, ErrorCode>)
    ensures
        *final(escrow) == claim_prize_transition(*old(escrow), c).0,
        r == claim_prize_transition(*old(escrow), c).1,
        r is Err ==> *final(escrow) == *old(escrow),
        old(escrow).ended ==> final(escrow).ended,
        r is Ok ==> final(escrow).ended,
        r is Ok ==> old(escrow).timer_active && c.now >= old(escrow).deadline && !old(
            escrow,
        ).last_sender.is_zero() && !old(escrow).ended && c.winner == old(escrow).last_sender,
        r is Ok ==> r == Ok::<PrizeClaimed, ErrorCode>(
            PrizeClaimed { winner: c.winner, amount: c.vault_balance },
        ),
        old(escrow).ended && old(escrow).timer_active && c.now >= old(escrow).deadline && !old(
            escrow,
        ).last_sender.is_zero() ==> r == Err::<PrizeClaimed, ErrorCode>(ErrorCode::AlreadyClaimed),
{
    if !escrow.timer_active {
        return Err(ErrorCode::GameNotEnded);
    }
    if c.now < escrow.deadline {
        return Err(ErrorCode::GameNotEnded);
    }
    if escrow.last_sender == Pubkey::default() {
        return Err(ErrorCode::NoWinner);
    }
    if !not_ended(escrow) {
        return Err(ErrorCode::AlreadyClaimed);
    }
    if !is_last_sender(c.winner, escrow) {
        return Err(ErrorCode::NotTheWinner);
    }
    escrow.ended = true;
    Ok(PrizeClaimed { winner: c.winner, amount: c.vault_balance })
}

/// The force-settlement transition: the authority may settle to the last
/// sender at any time before the game ends, without waiting on the timer.
pub open spec fn jigsaw_approve_payout_transition(e: Escrow, c: JigsawApprovePayout) -> (
    Escrow,
    Result<PrizeClaimed, ErrorCode>,
) {
    if e.ended {
        (e, Err(ErrorCode::AlreadyClaimed))
    } else if c.jigsaw_approver != e.authority {
        (e, Err(ErrorCode::Unauthorized))
    } else if c.winner != e.last_sender {
        (e, Err(ErrorCode::NotTheWinner))
    } else if e.last_sender.is_zero() {
        (e, Err(ErrorCode::NoWinner))
    } else {
        (
            Escrow {
                authority: e.authority,
                base_fee: e.base_fee,
                fee_cap: e.fee_cap,
                current_fee: e.current_fee,
                marketing_wallet: e.marketing_wallet,
                marketing_bps: e.marketing_bps,
                messages_count: e.messages_count,
                last_sender: e.last_sender,
                timer_active: e.timer_active,
                deadline: e.deadline,
                ended: true,
                bump: e.bump,
            },
            Ok(PrizeClaimed { winner: c.winner, amount: c.vault_balance }),
        )
    }
}

/// Settles the game by authority override: the approver must be the stored
/// authority and the designated winner must be the last sender. The timer
/// and its deadline are deliberately not consulted. As with the ordinary
/// claim, the terminal flag is set before any funds move, so settlement
/// happens at most once whichever path runs first.
pub fn jigsaw_approve_payout(escrow: &mut Escrow, c: JigsawApprovePayout) -> (r: Result<
    PrizeClaimed,
    ErrorCode,
>)
    ensures
        *final(escrow) == jigsaw_approve_payout_transition(*old(escrow), c).0,
        r == jigsaw_approve_payout_transition(*old(escrow), c).1,
        r is Err ==> *final(escrow) == *old(escrow),
        old(escrow).ended ==> final(escrow).ended,
        old(escrow).ended ==> r == Err::<PrizeClaimed, ErrorCode>(ErrorCode::AlreadyClaimed),
        r is Ok ==> final(escrow).ended,
        r is Ok ==> !old(escrow).ended && c.jigsaw_approver == old(escrow).authority && c.winner
            == old(escrow).last_sender && !old(escrow).last_sender.is_zero(),
        r is Ok ==> r == Ok::<PrizeClaimed, ErrorCode>(
            PrizeClaimed { winner: c.winner, amount: c.vault_balance },
        ),
{
    if !not_ended(escrow) {
        return Err(ErrorCode::AlreadyClaimed);
    }
    if !is_authority(c.jigsaw_approver, escrow) {
        return Err(ErrorCode::Unauthorized);
    }
    if !is_last_sender(c.winner, escrow) {
        return Err(ErrorCode::NotTheWinner);
    }
    if escrow.last_sender == Pubkey::default() {
        return Err(ErrorCode::NoWinner);
    }
    escrow.ended = true;
    Ok(PrizeClaimed { winner: c.winner, amount: c.vault_balance })
}

/// The fee-parameter transition: the authority replaces the fee bounds and
/// the current fee is clamped back between them.
pub open spec fn set_fee_params_transition(
    e: Escrow,
    c: SetFeeParams,
    base_fee: u64,
    fee_cap: u64,
) -> (Escrow, Result<(), ErrorCode>) {
    if c.authority != e.authority {
        (e, Err(ErrorCode::Unauthorized))
    } else if !(base_fee > 0 && base_fee <= fee_cap) {
        (e, Err(ErrorCode::BadParams))
    } else {
        let raised = if e.current_fee < base_fee {
            base_fee
        } else {
            e.current_fee
        };
        let clamped = if raised > fee_cap {
            fee_cap
        } else {
            raised
        };
        (
            Escrow {
                authority: e.authority,
                base_fee: base_fee,
                fee_cap: fee_cap,
                current_fee: clamped,
                marketing_wallet: e.marketing_wallet,
                marketing_bps: e.marketing_bps,
                messages_count: e.messages_count,
                last_sender: e.last_sender,
                timer_active: e.timer_active,
                deadline: e.deadline,
                ended: e.ended,
                bump: e.bump,
            },
            Ok(()),
        )
    }
}

/// Replaces the fee bounds. Only the authority may call this, the new
/// bounds must satisfy `0 < base_fee <= fee_cap`, and the current fee is
/// clamped into the new bounds.
pub fn set_fee_params(escrow: &mut Escrow, c: SetFeeParams, base_fee: u64, fee_cap: u64) -> (r:
    Result<(), ErrorCode>)
    ensures
        *final(escrow) == set_fee_params_transition(*old(escrow), c, base_fee, fee_cap).0,
        r == set_fee_params_transition(*old(escrow), c, base_fee, fee_cap).1,
        r is Err ==> *final(escrow) == *old(escrow),
        r is Ok ==> final(escrow).base_fee == base_fee && final(escrow).fee_cap == fee_cap
            && final(escrow).base_fee <= final(escrow).current_fee <= final(escrow).fee_cap,
        r is Ok <==> c.authority == old(escrow).authority && 0 < base_fee && base_fee <= fee_cap,
        old(escrow).wf() && r is Ok ==> final(escrow).wf(),
        final(escrow).ended == old(escrow).ended && final(escrow).last_sender == old(
            escrow,
        ).last_sender,
{
    if !is_authority(c.authority, escrow) {
        return Err(ErrorCode::Unauthorized);
    }
    if !(base_fee > 0 && base_fee <= fee_cap) {
        return Err(ErrorCode::BadParams);
    }
    escrow.base_fee = base_fee;
    escrow.fee_cap = fee_cap;
    if escrow.current_fee < base_fee {
        escrow.current_fee = base_fee;
    }
    if escrow.current_fee > fee_cap {
        escrow.current_fee = fee_cap;
    }
    Ok(())
}

/// The marketing-parameter transition: the authority replaces the wallet
/// and its basis-point share, which must sit within the cap.
pub open spec fn set_marketing_params_transition(
    e: Escrow,
    c: SetMarketingParams,
    wallet: Pubkey,
    bps: u16,
) -> (Escrow, Result<MarketingParamsUpdated, ErrorCode>) {
    if c.authority != e.authority {
        (e, Err(ErrorCode::Unauthorized))
    } else if bps > MAX_MARKETING_BPS {
        (e, Err(ErrorCode::BpsTooHigh))
    } else {
        (
            Escrow {
                authority: e.authority,
                base_fee: e.base_fee,
                fee_cap: e.fee_cap,
                current_fee: e.current_fee,
                marketing_wallet: wallet,
                marketing_bps: bps,
                messages_count: e.messages_count,
                last_sender: e.last_sender,
                timer_active: e.timer_active,
                deadline: e.deadline,
                ended: e.ended,
                bump: e.bump,
            },
            Ok(MarketingParamsUpdated { wallet, bps }),
        )
    }
}

/// Replaces the marketing wallet and its share. Only the authority may call
/// this, and the share may not exceed the 2500 basis-point cap. Returns the
/// notification the caller delivers.
pub fn set_marketing_params(escrow: &mut Escrow, c: SetMarketingParams, wallet: Pubkey, bps: u16)
    -> (r: Result<MarketingParamsUpdated, ErrorCode>)
    ensures
        *final(escrow) == set_marketing_params_transition(*old(escrow), c, wallet, bps).0,
        r == set_marketing_params_transition(*old(escrow), c, wallet, bps).1,
        r is Err ==> *final(escrow) == *old(escrow),
        r is Ok <==> c.authority == old(escrow).authority && bps <= MAX_MARKETING_BPS,
        r is Ok ==> final(escrow).marketing_wallet == wallet && final(escrow).marketing_bps == bps,
        old(escrow).wf() && r is Ok ==> final(escrow).wf(),
        final(escrow).ended == old(escrow).ended && final(escrow).last_sender == old(
            escrow,
        ).last_sender,
{
    if !is_authority(c.authority, escrow) {
        return Err(ErrorCode::Unauthorized);
    }
    if bps > MAX_MARKETING_BPS {
        return Err(ErrorCode::BpsTooHigh);
    }
    escrow.marketing_wallet = wallet;
    escrow.marketing_bps = bps;
    Ok(MarketingParamsUpdated { wallet, bps })
}

} // verus!
