use crate::fees::MAX_MARKETING_BPS;
use crate::pubkey::Pubkey;
use vstd::prelude::*;

verus! {

/// The persistent escrow record: one per deployment, owned by the state
/// machine, mutated only by the operations in [`crate::ops`].
#[derive(Clone, Copy, PartialEq, Eq, Structural, Debug)]
pub struct Escrow {
    /// Identity permitted to change parameters and force-settle.
    pub authority: Pubkey,
    /// Lower bound for `current_fee`.
    pub base_fee: u64,
    /// Upper bound for `current_fee`.
    pub fee_cap: u64,
    /// The fee the next submission must pay; escalates with each submission.
    pub current_fee: u64,
    /// Where the marketing share of each fee goes.
    pub marketing_wallet: Pubkey,
    /// Basis points of each fee that go to marketing.
    pub marketing_bps: u16,
    /// Total accepted submissions.
    pub messages_count: u64,
    /// Identity of the most recent accepted submitter; empty until the
    /// first submission.
    pub last_sender: Pubkey,
    /// Whether the inactivity countdown is running.
    pub timer_active: bool,
    /// Absolute expiry of the countdown; stale while `timer_active` is false.
    pub deadline: i64,
    /// Terminal flag: once set, no submission or settlement is accepted.
    pub ended: bool,
    /// Address-derivation nonce for the escrow record; address binding
    /// only, not business data.
    pub bump: u8,
}

impl Escrow {
    /// Well-formedness: the fee bounds hold the current fee between them,
    /// the base fee is positive, and the marketing share sits within its
    /// cap. Initialization with validated parameters establishes this and
    /// every operation preserves it.
    pub open spec fn wf(self) -> bool {
        &&& 0 < self.base_fee
        &&& self.base_fee <= self.current_fee
        &&& self.current_fee <= self.fee_cap
        &&& self.marketing_bps <= MAX_MARKETING_BPS
    }
}

} // verus!
