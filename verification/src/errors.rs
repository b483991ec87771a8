//! The error taxonomy of the market engine.

use vstd::prelude::*;

verus! {

/// Every operation of the engine returns a typed result; no component clamps
/// or swallows an error. The variants fall into four families: input
/// validation (`ZeroAmount`), arithmetic (`Underflow`, `Overflow`,
/// `DivideByZero`), recoverable business conditions
/// (`InsufficientPoolLiquidity`, `EpochTooSoon`) and invariant violations
/// that should be unreachable (`ReserveExceedsPool`, `BlockHeightRegression`).
#[derive(Clone, Copy, Debug, PartialEq, Eq, Structural)]
pub enum MarketError {
    /// A deposit or redemption of zero units was requested.
    ZeroAmount,
    /// A subtraction would have produced a negative quantity.
    Underflow,
    /// A result does not fit in the magnitude of the ledger's decimals.
    Overflow,
    /// A division by a zero quantity was attempted.
    DivideByZero,
    /// The computed payout exceeds the cash the pool holds right now.
    InsufficientPoolLiquidity,
    /// Reserves exceed the whole pool value; an upstream bug.
    ReserveExceedsPool,
    /// The chain height moved backwards; a fatal invariant violation.
    BlockHeightRegression,
    /// The overseer has not cleared the epoch boundary yet.
    EpochTooSoon,
}

impl MarketError {
    /// True exactly for the errors that signal a protocol bug rather than a
    /// user error or a recoverable business condition, so that operators can
    /// surface the two distinctly.
    pub fn is_invariant_violation(&self) -> (r: bool)
        ensures
            r <==> (*self == MarketError::ReserveExceedsPool
                || *self == MarketError::BlockHeightRegression),
    {
        match self {
            MarketError::ReserveExceedsPool => true,
            MarketError::BlockHeightRegression => true,
            _ => false,
        }
    }
}

} // verus!
