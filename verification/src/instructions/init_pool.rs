//! Creation of a pool.

use vstd::prelude::*;
use crate::error::ErrorCode;
use crate::state::{fee_config_ok, PoolState};

verus! {

/// What pool creation sees of the ledger: the slot that will hold the record.
/// The two reserves of a new pool are the ledger's to create, and it creates
/// them empty.
#[derive(Clone, Copy, Debug, PartialEq, Eq, Structural)]
pub struct InitializePool {
    /// The pool's record.
    pub pool_state: PoolState,
}

/// Writes the record of a new pool: the given fee rate and no receipt tokens.
///
/// The fee must be a proper fraction. Otherwise the slot is left as it was.
pub fn handler(ctx: &mut InitializePool, fee_numerator: u64, fee_denominator: u64) -> (r: Result<
    (),
    ErrorCode,
>)
    ensures
        fee_config_ok(fee_numerator, fee_denominator) ==> r is Ok && final(ctx).pool_state
            == PoolState::fresh(fee_numerator, fee_denominator),
        !fee_config_ok(fee_numerator, fee_denominator) ==> r == Err::<(), ErrorCode>(
            ErrorCode::InvalidFeeConfig,
        ) && *final(ctx) == *old(ctx),
{
    if fee_denominator == 0 || fee_numerator >= fee_denominator {
        return Err(ErrorCode::InvalidFeeConfig);
    }
    ctx.pool_state.fee_numerator = fee_numerator;
    ctx.pool_state.fee_denominator = fee_denominator;
    ctx.pool_state.total_receipt_supply = 0;
    Ok(())
}

} // verus!
