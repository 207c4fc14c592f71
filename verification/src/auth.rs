use crate::escrow::Escrow;
use crate::pubkey::Pubkey;
use vstd::prelude::*;

verus! {

/// Whether `caller` is the escrow's stored authority.
pub fn is_authority(caller: Pubkey, escrow: &Escrow) -> (r: bool)
    ensures
        r == (caller == escrow.authority),
{
    caller == escrow.authority
}

/// Whether `declared` matches the escrow's stored marketing wallet.
pub fn is_declared_marketing_wallet(declared: Pubkey, escrow: &Escrow) -> (r: bool)
    ensures
        r == (declared == escrow.marketing_wallet),
{
    declared == escrow.marketing_wallet
}

/// Whether `caller` is the most recent accepted submitter.
pub fn is_last_sender(caller: Pubkey, escrow: &Escrow) -> (r: bool)
    ensures
        r == (caller == escrow.last_sender),
{
    caller == escrow.last_sender
}

/// Whether the game is still live.
pub fn not_ended(escrow: &Escrow) -> (r: bool)
    ensures
        r == !escrow.ended,
{
    !escrow.ended
}

} // verus!
