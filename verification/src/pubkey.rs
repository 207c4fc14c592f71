use vstd::prelude::*;

verus! {

/// A 32-byte account identity, held as four 64-bit words.
///
/// The all-zero value is the empty identity: an escrow that has not yet
/// recorded a sender stores it in `last_sender`, and a marketing wallet set
/// to it receives no payouts.
#[derive(Clone, Copy, PartialEq, Eq, Structural, Debug)]
pub struct Pubkey {
    pub w0: u64,
    pub w1: u64,
    pub w2: u64,
    pub w3: u64,
}

impl Pubkey {
    /// The empty (all-zero) identity.
    pub open spec fn zero() -> Pubkey {
        Pubkey { w0: 0, w1: 0, w2: 0, w3: 0 }
    }

    /// Whether this identity is the empty one.
    pub open spec fn is_zero(self) -> bool {
        self == Pubkey::zero()
    }

    /// Builds an identity from its four 64-bit words.
    pub fn new(w0: u64, w1: u64, w2: u64, w3: u64) -> (r: Pubkey)
        ensures
            r == (Pubkey { w0, w1, w2, w3 }),
    {
        Pubkey { w0, w1, w2, w3 }
    }
}

impl Default for Pubkey {
    /// The default identity is the empty one.
    fn default() -> (r: Pubkey)
        ensures
            r == Pubkey::zero(),
    {
        Pubkey { w0: 0, w1: 0, w2: 0, w3: 0 }
    }
}

} // verus!
