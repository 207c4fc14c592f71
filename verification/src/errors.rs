use vstd::prelude::*;

verus! {

/// Why an operation was rejected.
///
/// Every rejection is caller-facing and synchronous, and leaves the escrow
/// unchanged: an operation either applies all of its effects or none.
#[derive(Clone, Copy, PartialEq, Eq, Structural, Debug)]
pub enum ErrorCode {
    /// A submission arrived after the game ended.
    GameEnded,
    /// A submission arrived after the active timer's deadline.
    TimerExpired,
    /// The payer's balance does not cover the current fee.
    InsufficientFee,
    /// A prize claim arrived while the timer has not started or not run out.
    GameNotEnded,
    /// A settlement was attempted after one already succeeded.
    AlreadyClaimed,
    /// The named winner is not the last sender.
    NotTheWinner,
    /// No submission has been recorded, so there is nobody to pay.
    NoWinner,
    /// New fee bounds with `base_fee == 0` or `base_fee > fee_cap`.
    BadParams,
    /// A marketing share above the 2500 basis-point cap.
    BpsTooHigh,
    /// The caller lacks the identity the operation demands.
    Unauthorized,
    /// A checked arithmetic step would overflow.
    ArithmeticOverflow,
}

} // verus!
