use treasury_escrow::{
    claim_prize, compute_split, escalate, evaluate_timer, initialize, jigsaw_approve_payout,
    set_fee_params, set_marketing_params, submit_message, ClaimPrize, ErrorCode, Escrow,
    Initialize, JigsawApprovePayout, Pubkey, SetFeeParams, SetMarketingParams, SubmitMessage,
    TimerAction,
};

fn pk(n: u64) -> Pubkey {
    Pubkey::new(n, 0, 0, 0)
}

fn authority() -> Pubkey {
    pk(11)
}

fn marketing() -> Pubkey {
    pk(22)
}

fn player(n: u64) -> Pubkey {
    pk(100 + n)
}

/// A fresh escrow with the scenario parameters: base 1000, cap 5000,
/// marketing share 10%.
fn fresh() -> Escrow {
    initialize(
        Initialize { authority: authority(), marketing_wallet: marketing(), bump: 254 },
        1000,
        5000,
        1000,
    )
}

fn submission(n: u64, now: i64) -> SubmitMessage {
    SubmitMessage {
        payer: player(n),
        payer_lamports: 1_000_000_000,
        marketing_wallet: marketing(),
        msg_hash: [n as u8; 32],
        now,
    }
}

#[test]
fn initialize_sets_fields() {
    let e = fresh();
    assert_eq!(e.authority, authority());
    assert_eq!(e.base_fee, 1000);
    assert_eq!(e.fee_cap, 5000);
    assert_eq!(e.current_fee, 1000);
    assert_eq!(e.marketing_wallet, marketing());
    assert_eq!(e.marketing_bps, 1000);
    assert_eq!(e.messages_count, 0);
    assert_eq!(e.last_sender, Pubkey::default());
    assert!(!e.timer_active);
    assert_eq!(e.deadline, 0);
    assert!(!e.ended);
    assert_eq!(e.bump, 254);
}

#[test]
fn initialize_validates_nothing() {
    // The fee bounds and the marketing share are only checked by the later
    // parameter updates, never at creation.
    let e = initialize(
        Initialize { authority: authority(), marketing_wallet: marketing(), bump: 1 },
        10,
        5,
        60000,
    );
    assert_eq!(e.base_fee, 10);
    assert_eq!(e.fee_cap, 5);
    assert_eq!(e.current_fee, 10);
    assert_eq!(e.marketing_bps, 60000);
    assert!(!e.ended);
}

#[test]
fn split_concrete() {
    assert_eq!(compute_split(1000, 1000), (100, 900));
    assert_eq!(compute_split(1000, 2500), (250, 750));
    assert_eq!(compute_split(999, 1000), (99, 900));
}

#[test]
fn split_adds_back_exactly() {
    for &fee in &[0u64, 1, 9999, 12345678901234567, u64::MAX] {
        for &bps in &[0u16, 1, 333, 2500, 10000] {
            let (m, p) = compute_split(fee, bps);
            assert_eq!(m.checked_add(p), Some(fee));
        }
    }
}

#[test]
fn split_of_zero_fee() {
    assert_eq!(compute_split(0, 2500), (0, 0));
}

#[test]
fn escalate_first_step() {
    assert_eq!(escalate(1000, 5000), 1007);
}

#[test]
fn escalate_caps() {
    assert_eq!(escalate(5000, 5000), 5000);
    // 4990 * 10078 / 10000 == 5028 would pass the cap
    assert_eq!(escalate(4990, 5000), 5000);
    assert_eq!(escalate(u64::MAX, u64::MAX), u64::MAX);
}

#[test]
fn escalate_rounds_down() {
    // 1007 * 10078 / 10000 == 1014.8...
    assert_eq!(escalate(1007, 5000), 1014);
}

#[test]
fn timer_stays_off_below_threshold() {
    assert_eq!(evaluate_timer(9, false, 0, 500), Ok(TimerAction::NoChange));
}

#[test]
fn timer_arms_at_threshold() {
    assert_eq!(
        evaluate_timer(10, false, 0, 500),
        Ok(TimerAction::Armed { new_deadline: 4100 })
    );
}

#[test]
fn timer_extends_before_deadline() {
    assert_eq!(
        evaluate_timer(11, true, 4100, 4100),
        Ok(TimerAction::Extended { new_deadline: 7700 })
    );
}

#[test]
fn timer_inert_after_deadline() {
    // An active timer past its deadline is not resurrected.
    assert_eq!(evaluate_timer(11, true, 4100, 4101), Ok(TimerAction::NoChange));
}

#[test]
fn timer_overflow_is_a_fault() {
    assert_eq!(
        evaluate_timer(10, false, 0, i64::MAX - 100),
        Err(ErrorCode::ArithmeticOverflow)
    );
}

#[test]
fn first_submission_splits_and_escalates() {
    let mut e = fresh();
    let eff = submit_message(&mut e, submission(1, 50)).unwrap();
    assert_eq!(eff.fee_paid, 1000);
    assert_eq!(eff.marketing_fee, 100);
    assert_eq!(eff.prize_fee, 900);
    let sent = eff.marketing_sent.unwrap();
    assert_eq!(sent.wallet, marketing());
    assert_eq!(sent.amount, 100);
    assert_eq!(eff.submitted.sender, player(1));
    assert_eq!(eff.submitted.msg_hash, [1u8; 32]);
    assert_eq!(eff.submitted.fee_paid, 1000);
    assert_eq!(eff.submitted.new_fee, 1007);
    assert_eq!(eff.submitted.timestamp, 50);
    assert!(eff.timer_started.is_none());
    assert!(eff.timer_extended.is_none());
    assert_eq!(e.current_fee, 1007);
    assert_eq!(e.messages_count, 1);
    assert_eq!(e.last_sender, player(1));
    assert!(!e.timer_active);
}

#[test]
fn tenth_submission_arms_timer() {
    let mut e = fresh();
    for n in 1..=9u64 {
        let eff = submit_message(&mut e, submission(n, n as i64)).unwrap();
        assert!(eff.timer_started.is_none());
        assert!(eff.timer_extended.is_none());
        assert!(!e.timer_active);
    }
    assert_eq!(e.messages_count, 9);
    let eff = submit_message(&mut e, submission(10, 1000)).unwrap();
    assert!(e.timer_active);
    assert_eq!(e.deadline, 1000 + 3600);
    assert_eq!(eff.timer_started.unwrap().deadline, 4600);
    assert!(eff.timer_extended.is_none());
}

#[test]
fn on_time_submission_extends_timer() {
    let mut e = fresh();
    for n in 1..=10u64 {
        submit_message(&mut e, submission(n, 1000)).unwrap();
    }
    assert!(e.timer_active);
    assert_eq!(e.deadline, 4600);
    let eff = submit_message(&mut e, submission(11, 4600)).unwrap();
    assert!(eff.timer_started.is_none());
    assert_eq!(eff.timer_extended.unwrap().new_deadline, 4600 + 3600);
    assert_eq!(e.deadline, 8200);
}

#[test]
fn late_submission_is_rejected() {
    let mut e = fresh();
    for n in 1..=10u64 {
        submit_message(&mut e, submission(n, 1000)).unwrap();
    }
    let before = e;
    assert_eq!(
        submit_message(&mut e, submission(11, 4601)),
        Err(ErrorCode::TimerExpired)
    );
    assert_eq!(e, before);
}

#[test]
fn submission_after_end_is_rejected() {
    let mut e = fresh();
    submit_message(&mut e, submission(1, 10)).unwrap();
    jigsaw_approve_payout(
        &mut e,
        JigsawApprovePayout { jigsaw_approver: authority(), winner: player(1), vault_balance: 900 },
    )
    .unwrap();
    assert_eq!(
        submit_message(&mut e, submission(2, 20)),
        Err(ErrorCode::GameEnded)
    );
}

#[test]
fn submission_with_wrong_marketing_wallet_is_rejected() {
    let mut e = fresh();
    let mut m = submission(1, 10);
    m.marketing_wallet = pk(999);
    assert_eq!(submit_message(&mut e, m), Err(ErrorCode::Unauthorized));
    assert_eq!(e.messages_count, 0);
}

#[test]
fn submission_too_poor_is_rejected() {
    let mut e = fresh();
    let mut m = submission(1, 10);
    m.payer_lamports = 999;
    assert_eq!(submit_message(&mut e, m), Err(ErrorCode::InsufficientFee));
}

#[test]
fn submission_at_count_limit_is_a_fault() {
    let mut e = fresh();
    e.messages_count = u64::MAX;
    let before = e;
    assert_eq!(
        submit_message(&mut e, submission(1, 10)),
        Err(ErrorCode::ArithmeticOverflow)
    );
    assert_eq!(e, before);
}

#[test]
fn submission_at_time_limit_is_a_fault() {
    let mut e = fresh();
    e.timer_active = true;
    e.deadline = i64::MAX;
    assert_eq!(
        submit_message(&mut e, submission(1, i64::MAX - 100)),
        Err(ErrorCode::ArithmeticOverflow)
    );
}

#[test]
fn oversized_marketing_share_is_a_fault() {
    // Reachable only through an unvalidated initialization: a share above
    // the whole fee would make the prize side negative.
    let mut e = initialize(
        Initialize { authority: authority(), marketing_wallet: marketing(), bump: 1 },
        1_000_000,
        5_000_000,
        20000,
    );
    assert_eq!(
        submit_message(&mut e, submission(1, 10)),
        Err(ErrorCode::ArithmeticOverflow)
    );
}

#[test]
fn marketing_share_skipped_for_empty_wallet() {
    let mut e = initialize(
        Initialize { authority: authority(), marketing_wallet: Pubkey::default(), bump: 1 },
        1000,
        5000,
        1000,
    );
    let mut m = submission(1, 10);
    m.marketing_wallet = Pubkey::default();
    let eff = submit_message(&mut e, m).unwrap();
    assert_eq!(eff.marketing_fee, 100);
    assert_eq!(eff.prize_fee, 900);
    assert!(eff.marketing_sent.is_none());
}

#[test]
fn marketing_share_skipped_when_zero() {
    let mut e = initialize(
        Initialize { authority: authority(), marketing_wallet: marketing(), bump: 1 },
        1000,
        5000,
        0,
    );
    let eff = submit_message(&mut e, submission(1, 10)).unwrap();
    assert_eq!(eff.marketing_fee, 0);
    assert_eq!(eff.prize_fee, 1000);
    assert!(eff.marketing_sent.is_none());
}

#[test]
fn fee_never_decreases_and_respects_cap() {
    let mut e = fresh();
    let mut last = e.current_fee;
    for n in 1..=9u64 {
        submit_message(&mut e, submission(n, 0)).unwrap();
        assert!(e.current_fee >= last);
        assert!(e.current_fee <= e.fee_cap);
        last = e.current_fee;
    }
    // Keep the timer fresh while the fee climbs to the cap.
    let mut now: i64 = 0;
    for n in 10..=230u64 {
        submit_message(&mut e, submission(n, now)).unwrap();
        assert!(e.current_fee >= last);
        assert!(e.current_fee <= e.fee_cap);
        last = e.current_fee;
        now += 1;
    }
    assert_eq!(e.current_fee, 5000);
    submit_message(&mut e, submission(231, now)).unwrap();
    assert_eq!(e.current_fee, 5000);
}

fn armed_and_expired() -> (Escrow, i64) {
    let mut e = fresh();
    for n in 1..=10u64 {
        submit_message(&mut e, submission(n, 100)).unwrap();
    }
    // deadline == 3700; anything later is past it
    (e, 10000)
}

#[test]
fn claim_needs_armed_timer() {
    let mut e = fresh();
    submit_message(&mut e, submission(1, 10)).unwrap();
    assert_eq!(
        claim_prize(&mut e, ClaimPrize { winner: player(1), vault_balance: 900, now: 10000 }),
        Err(ErrorCode::GameNotEnded)
    );
}

#[test]
fn claim_before_deadline_is_rejected() {
    let (mut e, _) = armed_and_expired();
    assert_eq!(
        claim_prize(&mut e, ClaimPrize { winner: player(10), vault_balance: 1, now: 3699 }),
        Err(ErrorCode::GameNotEnded)
    );
}

#[test]
fn claim_without_any_sender_is_rejected() {
    // A timer cannot arm without submissions, so build the state directly.
    let mut e = fresh();
    e.timer_active = true;
    e.deadline = 100;
    assert_eq!(
        claim_prize(&mut e, ClaimPrize { winner: Pubkey::default(), vault_balance: 1, now: 200 }),
        Err(ErrorCode::NoWinner)
    );
}

#[test]
fn claim_by_wrong_identity_is_rejected() {
    let (mut e, now) = armed_and_expired();
    assert_eq!(
        claim_prize(&mut e, ClaimPrize { winner: player(9), vault_balance: 1, now }),
        Err(ErrorCode::NotTheWinner)
    );
    assert!(!e.ended);
}

#[test]
fn claim_sweeps_vault_and_ends_game() {
    let (mut e, now) = armed_and_expired();
    let paid = claim_prize(&mut e, ClaimPrize { winner: player(10), vault_balance: 123456, now })
        .unwrap();
    assert_eq!(paid.winner, player(10));
    assert_eq!(paid.amount, 123456);
    assert!(e.ended);
}

#[test]
fn second_claim_fails_already_claimed() {
    let (mut e, now) = armed_and_expired();
    claim_prize(&mut e, ClaimPrize { winner: player(10), vault_balance: 5, now }).unwrap();
    assert_eq!(
        claim_prize(&mut e, ClaimPrize { winner: player(10), vault_balance: 0, now: now + 1 }),
        Err(ErrorCode::AlreadyClaimed)
    );
}

#[test]
fn force_settle_after_claim_fails_already_claimed() {
    let (mut e, now) = armed_and_expired();
    claim_prize(&mut e, ClaimPrize { winner: player(10), vault_balance: 5, now }).unwrap();
    assert_eq!(
        jigsaw_approve_payout(
            &mut e,
            JigsawApprovePayout {
                jigsaw_approver: authority(),
                winner: player(10),
                vault_balance: 0,
            },
        ),
        Err(ErrorCode::AlreadyClaimed)
    );
}

#[test]
fn claim_after_force_settle_fails_already_claimed() {
    let (mut e, now) = armed_and_expired();
    jigsaw_approve_payout(
        &mut e,
        JigsawApprovePayout { jigsaw_approver: authority(), winner: player(10), vault_balance: 7 },
    )
    .unwrap();
    assert_eq!(
        claim_prize(&mut e, ClaimPrize { winner: player(10), vault_balance: 0, now }),
        Err(ErrorCode::AlreadyClaimed)
    );
}

#[test]
fn second_force_settle_fails_already_claimed() {
    let mut e = fresh();
    submit_message(&mut e, submission(1, 10)).unwrap();
    let ctx = JigsawApprovePayout {
        jigsaw_approver: authority(),
        winner: player(1),
        vault_balance: 900,
    };
    let paid = jigsaw_approve_payout(&mut e, ctx).unwrap();
    assert_eq!(paid.winner, player(1));
    assert_eq!(paid.amount, 900);
    assert!(e.ended);
    assert_eq!(jigsaw_approve_payout(&mut e, ctx), Err(ErrorCode::AlreadyClaimed));
}

#[test]
fn force_settle_ignores_timer() {
    // The authority may settle before any timer armed or expired.
    let mut e = fresh();
    submit_message(&mut e, submission(1, 10)).unwrap();
    assert!(!e.timer_active);
    let paid = jigsaw_approve_payout(
        &mut e,
        JigsawApprovePayout { jigsaw_approver: authority(), winner: player(1), vault_balance: 3 },
    )
    .unwrap();
    assert_eq!(paid.amount, 3);
    assert!(e.ended);
}

#[test]
fn force_settle_by_stranger_is_rejected() {
    let mut e = fresh();
    submit_message(&mut e, submission(1, 10)).unwrap();
    assert_eq!(
        jigsaw_approve_payout(
            &mut e,
            JigsawApprovePayout { jigsaw_approver: pk(999), winner: player(1), vault_balance: 1 },
        ),
        Err(ErrorCode::Unauthorized)
    );
    assert!(!e.ended);
}

#[test]
fn force_settle_wrong_winner_is_rejected() {
    let mut e = fresh();
    submit_message(&mut e, submission(1, 10)).unwrap();
    assert_eq!(
        jigsaw_approve_payout(
            &mut e,
            JigsawApprovePayout {
                jigsaw_approver: authority(),
                winner: player(2),
                vault_balance: 1,
            },
        ),
        Err(ErrorCode::NotTheWinner)
    );
}

#[test]
fn force_settle_without_any_sender_is_rejected() {
    let mut e = fresh();
    assert_eq!(
        jigsaw_approve_payout(
            &mut e,
            JigsawApprovePayout {
                jigsaw_approver: authority(),
                winner: Pubkey::default(),
                vault_balance: 1,
            },
        ),
        Err(ErrorCode::NoWinner)
    );
}

#[test]
fn set_fee_params_replaces_and_raises_fee() {
    let mut e = fresh();
    set_fee_params(&mut e, SetFeeParams { authority: authority() }, 2000, 3000).unwrap();
    assert_eq!(e.base_fee, 2000);
    assert_eq!(e.fee_cap, 3000);
    assert_eq!(e.current_fee, 2000);
}

#[test]
fn set_fee_params_replaces_and_lowers_fee() {
    let mut e = fresh();
    set_fee_params(&mut e, SetFeeParams { authority: authority() }, 10, 500).unwrap();
    assert_eq!(e.current_fee, 500);
}

#[test]
fn set_fee_params_keeps_fee_inside_new_bounds() {
    let mut e = fresh();
    set_fee_params(&mut e, SetFeeParams { authority: authority() }, 900, 5000).unwrap();
    assert_eq!(e.current_fee, 1000);
}

#[test]
fn set_fee_params_rejects_bad_bounds() {
    let mut e = fresh();
    assert_eq!(
        set_fee_params(&mut e, SetFeeParams { authority: authority() }, 0, 5000),
        Err(ErrorCode::BadParams)
    );
    assert_eq!(
        set_fee_params(&mut e, SetFeeParams { authority: authority() }, 600, 500),
        Err(ErrorCode::BadParams)
    );
    assert_eq!(e.base_fee, 1000);
}

#[test]
fn set_fee_params_rejects_stranger() {
    let mut e = fresh();
    assert_eq!(
        set_fee_params(&mut e, SetFeeParams { authority: pk(999) }, 2000, 3000),
        Err(ErrorCode::Unauthorized)
    );
}

#[test]
fn set_marketing_params_replaces_wallet_and_share() {
    let mut e = fresh();
    let ev = set_marketing_params(&mut e, SetMarketingParams { authority: authority() }, pk(33), 2500)
        .unwrap();
    assert_eq!(e.marketing_wallet, pk(33));
    assert_eq!(e.marketing_bps, 2500);
    assert_eq!(ev.wallet, pk(33));
    assert_eq!(ev.bps, 2500);
}

#[test]
fn set_marketing_params_rejects_high_share() {
    let mut e = fresh();
    assert_eq!(
        set_marketing_params(&mut e, SetMarketingParams { authority: authority() }, pk(33), 2501),
        Err(ErrorCode::BpsTooHigh)
    );
    assert_eq!(e.marketing_bps, 1000);
}

#[test]
fn set_marketing_params_rejects_stranger() {
    let mut e = fresh();
    assert_eq!(
        set_marketing_params(&mut e, SetMarketingParams { authority: pk(999) }, pk(33), 100),
        Err(ErrorCode::Unauthorized)
    );
}

#[test]
fn full_game_storyline() {
    // base 1000, cap 5000, marketing 10%
    let mut e = fresh();
    let mut vault: u64 = 0;

    // First submission: pays 1000, split 100/900, next fee 1007.
    let eff = submit_message(&mut e, submission(1, 0)).unwrap();
    assert_eq!((eff.fee_paid, eff.marketing_fee, eff.prize_fee), (1000, 100, 900));
    assert_eq!(e.current_fee, 1007);
    vault += eff.prize_fee;

    // Eight more at accelerating fees; the timer stays off.
    for n in 2..=9u64 {
        let eff = submit_message(&mut e, submission(n, n as i64)).unwrap();
        vault += eff.prize_fee;
        assert!(!e.timer_active);
    }

    // The tenth arms the timer.
    let eff = submit_message(&mut e, submission(10, 100)).unwrap();
    vault += eff.prize_fee;
    assert!(e.timer_active);
    assert_eq!(e.deadline, 3700);
    assert_eq!(eff.timer_started.unwrap().deadline, 3700);

    // A submission after the deadline is rejected.
    assert_eq!(
        submit_message(&mut e, submission(11, 3701)),
        Err(ErrorCode::TimerExpired)
    );

    // The last sender claims after expiry and sweeps the vault in full.
    let paid = claim_prize(
        &mut e,
        ClaimPrize { winner: player(10), vault_balance: vault, now: 3701 },
    )
    .unwrap();
    assert_eq!(paid.winner, player(10));
    assert_eq!(paid.amount, vault);
    assert!(e.ended);

    // Nothing moves any more.
    assert_eq!(
        claim_prize(&mut e, ClaimPrize { winner: player(10), vault_balance: 0, now: 4000 }),
        Err(ErrorCode::AlreadyClaimed)
    );
    assert_eq!(
        submit_message(&mut e, submission(12, 4000)),
        Err(ErrorCode::GameEnded)
    );
}
