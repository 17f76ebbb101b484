//! Accounting core of a two-asset constant-product market maker.
//!
//! A pool holds reserves of two assets and issues receipt tokens to those who
//! supply them. This crate computes, in checked integer arithmetic, what each
//! operation on a pool moves: pool creation, deposit, withdrawal and trade. It
//! moves nothing itself. An operation takes the balances it needs as plain
//! numbers, and either returns the amounts to move together with the state
//! that results, or an error and the state untouched.

use vstd::prelude::*;

pub mod error;
pub mod guarantees;
pub mod history;
pub mod instructions;
pub mod math;
pub mod state;

pub use crate::error::ErrorCode;
pub use crate::instructions::init_pool::{handler, InitializePool};
pub use crate::instructions::liquidity::{
    add_liquidity, remove_liquidity, Deposit, LiquidityOperation, Payout,
};
pub use crate::instructions::swap::{swap, Direction, Swap};
pub use crate::state::PoolState;

verus! {

/// The record of a new pool with the given fee rate and no receipt tokens.
///
/// The fee must be a proper fraction: a zero denominator, or a numerator that
/// is not below the denominator, is refused.
pub fn initialize_pool(fee_numerator: u64, fee_denominator: u64) -> (r: Result<
    PoolState,
    ErrorCode,
>)
    ensures
        crate::state::fee_config_ok(fee_numerator, fee_denominator) ==> r == Ok::<
            PoolState,
            ErrorCode,
        >(PoolState::fresh(fee_numerator, fee_denominator)),
        !crate::state::fee_config_ok(fee_numerator, fee_denominator) ==> r == Err::<
            PoolState,
            ErrorCode,
        >(ErrorCode::InvalidFeeConfig),
{
    let mut ctx = InitializePool {
        pool_state: PoolState { total_receipt_supply: 0, fee_numerator: 0, fee_denominator: 0 },
    };
    match handler(&mut ctx, fee_numerator, fee_denominator) {
        Ok(()) => Ok(ctx.pool_state),
        Err(e) => Err(e),
    }
}

} // verus!
