use crate::pubkey::Pubkey;
use vstd::prelude::*;

verus! {

/// An accepted submission: who sent it, what it paid, and the fee the next
/// submission will owe.
#[derive(Clone, Copy, PartialEq, Eq, Debug)]
pub struct MessageSubmitted {
    pub sender: Pubkey,
    pub msg_hash: [u8; 32],
    pub fee_paid: u64,
    pub new_fee: u64,
    pub timestamp: i64,
}

/// The inactivity timer armed for the first time.
#[derive(Clone, Copy, PartialEq, Eq, Debug)]
pub struct TimerStarted {
    pub deadline: i64,
}

/// A submission in time pushed the running timer out.
#[derive(Clone, Copy, PartialEq, Eq, Debug)]
pub struct TimerExtended {
    pub new_deadline: i64,
}

/// The marketing share of a fee went out.
#[derive(Clone, Copy, PartialEq, Eq, Debug)]
pub struct MarketingFeeSent {
    pub wallet: Pubkey,
    pub amount: u64,
}

/// The authority replaced the marketing wallet or its share.
#[derive(Clone, Copy, PartialEq, Eq, Debug)]
pub struct MarketingParamsUpdated {
    pub wallet: Pubkey,
    pub bps: u16,
}

/// The vault paid out in full; the game is over.
#[derive(Clone, Copy, PartialEq, Eq, Debug)]
pub struct PrizeClaimed {
    pub winner: Pubkey,
    pub amount: u64,
}

} // verus!
