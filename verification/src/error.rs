//! The ways in which a pool operation can be refused.

use vstd::prelude::*;

verus! {

/// Why an operation left the pool untouched.
#[derive(Clone, Copy, Debug, PartialEq, Eq, Structural)]
pub enum ErrorCode {
    /// The fee denominator is zero, or the fee is not below one.
    InvalidFeeConfig,
    /// The caller holds less than the operation would take from them.
    InsufficientBalance,
    /// The deposit is too small to earn a single receipt token.
    NoMintOutput,
    /// More receipt tokens were to be burned than are outstanding.
    BurnExceedsSupply,
    /// The trade would pay out less than the caller's stated minimum.
    SlippageExceeded,
    /// A product, sum or difference left its integer range, or a divisor was zero.
    ArithmeticOverflow,
}

} // verus!
