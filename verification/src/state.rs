//! The pool record: what a pool remembers between operations.

use vstd::prelude::*;

verus! {

/// The durable state of one trading pair.
///
/// The fee rate is fixed when the pool is created. The supply counter mirrors
/// the number of receipt tokens outstanding; deposits raise it, withdrawals
/// lower it, and trades leave it alone.
#[derive(Clone, Copy, Debug, PartialEq, Eq, Structural)]
pub struct PoolState {
    /// Receipt tokens outstanding.
    pub total_receipt_supply: u64,
    /// The fee taken from the input of a trade is this many parts ...
    pub fee_numerator: u64,
    /// ... out of this many.
    pub fee_denominator: u64,
}

/// A fee rate is usable if it is a proper fraction: a non-zero denominator and
/// a numerator below it.
pub open spec fn fee_config_ok(fee_numerator: u64, fee_denominator: u64) -> bool {
    fee_denominator != 0 && fee_numerator < fee_denominator
}

/// The rule that ties the supply counter to the reserves: no receipt token is
/// outstanding exactly when the pool holds nothing of either asset.
pub open spec fn supply_tracks_reserves(supply: u64, reserve_a: u64, reserve_b: u64) -> bool {
    supply == 0 <==> (reserve_a == 0 && reserve_b == 0)
}

impl PoolState {
    /// The record of a pool that has just been created with the given fee.
    pub open spec fn fresh(fee_numerator: u64, fee_denominator: u64) -> PoolState {
        PoolState { total_receipt_supply: 0, fee_numerator, fee_denominator }
    }

    /// The fee rate is a proper fraction.
    pub open spec fn has_valid_fee(&self) -> bool {
        fee_config_ok(self.fee_numerator, self.fee_denominator)
    }
}

} // verus!
