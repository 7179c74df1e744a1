//! Failure kinds shared by every operation.

use vstd::prelude::*;

verus! {

/// The ways an operation on a portfolio can fail. Any failure aborts the
/// whole invocation.
#[derive(Clone, Copy, Debug, PartialEq, Eq, Structural)]
pub enum ErrorCode {
    /// The two legs of a swap trade the same mint.
    SwapTokensCannotMatch,
    /// The swap executed at a worse rate than the minimum accepted.
    SlippageExceeded,
    /// The swap delivered no units of the destination asset.
    ZeroSwap,
    /// The cached prices are too old, or a fresh quote cannot be trusted.
    InvalidPrice,
    /// An intermediate value does not fit its integer type.
    ArithmeticOverflow,
    /// A divisor is zero.
    DivisionByZero,
}

} // verus!
