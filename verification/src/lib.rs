//! Verified core of a "last to act wins" escrow game.
//!
//! Participants pay an escalating fee to submit a message; fees accumulate in
//! a pooled vault; once an inactivity timer lapses, the pool pays out to the
//! participant who submitted most recently, or to whoever the authority
//! designates. This crate holds the escrow state machine itself — fee
//! escalation and split, timer arming and extension, authorization gating,
//! and the one-shot settlement — as pure, verified transitions over plain
//! values. The hosting ledger (account creation, signed transfers, clocks,
//! event delivery) stays outside: callers read those values from their
//! environment, hand them in, and carry the returned effects back out.

pub mod auth;
pub mod errors;
pub mod escrow;
pub mod events;
pub mod fees;
pub mod laws;
pub mod ops;
pub mod pubkey;
pub mod timer;

pub use auth::{is_authority, is_declared_marketing_wallet, is_last_sender, not_ended};
pub use errors::ErrorCode;
pub use escrow::Escrow;
pub use events::{
    MarketingFeeSent, MarketingParamsUpdated, MessageSubmitted, PrizeClaimed, TimerExtended,
    TimerStarted,
};
pub use fees::{compute_split, escalate};
pub use ops::{
    claim_prize, initialize, jigsaw_approve_payout, set_fee_params, set_marketing_params,
    submit_message, ClaimPrize, Initialize, JigsawApprovePayout, SetFeeParams, SetMarketingParams,
    SubmitEffects, SubmitMessage,
};
pub use pubkey::Pubkey;
pub use timer::{evaluate_timer, TimerAction};
