//! Why a swap or a ledger operation was refused.
use vstd::prelude::*;

verus! {

/// The errors of this library. Every one of them leaves the pool untouched.
#[derive(Clone, Copy, Debug, PartialEq, Eq, Structural)]
pub enum ErrorCode {
    /// Swapping is disabled on the pool, or it is not open yet.
    NotApproved,
    /// The trade degenerates: nothing left to price, or nothing received.
    ZeroTradingTokens,
    /// A tax (or fee) inversion has no valid pre-fee amount.
    TaxCalculationFailed,
    /// The product of the reserves would decrease.
    InvariantViolation,
    /// The computed amount violates the caller's minimum-out or maximum-in bound.
    ExceededSlippage,
    /// A value does not fit the width it must be stored in.
    ArithmeticOverflow,
    /// Tax collection was asked for while tax is disabled.
    TaxDisabled,
    /// Tax collection was asked for with nothing pending.
    NoPendingTax,
}

} // verus!
