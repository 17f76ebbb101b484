//! Trades of one asset for the other at the constant-product price.
//!
//! A trade works on a [`Swap`]: the pool record, the reserve that takes the
//! input (the source), the reserve that pays the output (the destination), and
//! the caller's balances of the two assets. Which reserve is the source is the
//! direction of the trade.

use vstd::prelude::*;
use crate::error::ErrorCode;
use crate::math::{
    add_amounts, lemma_floor_at_most, lemma_floor_bounds, lemma_product_fits, mul_div, narrow,
    wide_mul_div,
};
use crate::state::{supply_tracks_reserves, PoolState};

verus! {

/// Which asset a trade pays in.
#[derive(Clone, Copy, Debug, PartialEq, Eq, Structural)]
pub enum Direction {
    /// Asset A is paid in, asset B is paid out.
    AToB,
    /// Asset B is paid in, asset A is paid out.
    BToA,
}

/// What a trade sees of the ledger.
#[derive(Clone, Copy, Debug, PartialEq, Eq, Structural)]
pub struct Swap {
    /// The pool's record.
    pub pool_state: PoolState,
    /// The pool's holding of the asset paid in.
    pub reserve_src: u64,
    /// The pool's holding of the asset paid out.
    pub reserve_dst: u64,
    /// The caller's balance of the asset paid in.
    pub user_src: u64,
    /// The caller's balance of the asset paid out.
    pub user_dst: u64,
}

impl Swap {
    /// The supply counter is zero exactly when the pool is empty.
    pub open spec fn supply_tracks_reserves(&self) -> bool {
        supply_tracks_reserves(
            self.pool_state.total_receipt_supply,
            self.reserve_src,
            self.reserve_dst,
        )
    }

    /// The view of a pool and a caller for a trade in the given direction.
    pub open spec fn oriented(
        pool_state: PoolState,
        reserve_a: u64,
        reserve_b: u64,
        user_a: u64,
        user_b: u64,
        direction: Direction,
    ) -> Swap {
        match direction {
            Direction::AToB => Swap {
                pool_state,
                reserve_src: reserve_a,
                reserve_dst: reserve_b,
                user_src: user_a,
                user_dst: user_b,
            },
            Direction::BToA => Swap {
                pool_state,
                reserve_src: reserve_b,
                reserve_dst: reserve_a,
                user_src: user_b,
                user_dst: user_a,
            },
        }
    }

    /// Selects source and destination by the direction of the trade.
    pub fn new(
        pool_state: PoolState,
        reserve_a: u64,
        reserve_b: u64,
        user_a: u64,
        user_b: u64,
        direction: Direction,
    ) -> (s: Swap)
        ensures
            s == Swap::oriented(pool_state, reserve_a, reserve_b, user_a, user_b, direction),
    {
        match direction {
            Direction::AToB => Swap {
                pool_state,
                reserve_src: reserve_a,
                reserve_dst: reserve_b,
                user_src: user_a,
                user_dst: user_b,
            },
            Direction::BToA => Swap {
                pool_state,
                reserve_src: reserve_b,
                reserve_dst: reserve_a,
                user_src: user_b,
                user_dst: user_a,
            },
        }
    }

    /// The state after `amount_in` was paid in and `amount_out` paid out. The
    /// whole input, fee included, stays in the source reserve.
    pub open spec fn after_trade(&self, amount_in: u64, amount_out: u64) -> Swap {
        Swap {
            pool_state: self.pool_state,
            reserve_src: (self.reserve_src + amount_in) as u64,
            reserve_dst: (self.reserve_dst - amount_out) as u64,
            user_src: (self.user_src - amount_in) as u64,
            user_dst: (self.user_dst + amount_out) as u64,
        }
    }
}

/// The fee on an input: `floor(amount_in * fee_numerator / fee_denominator)`.
pub open spec fn fee_amount(amount_in: u64, fee_numerator: u64, fee_denominator: u64) -> int {
    mul_div(amount_in as int, fee_numerator as int, fee_denominator as int)
}

/// The source reserve that prices the trade: the old reserve plus the input
/// net of the fee.
pub open spec fn priced_source(
    reserve_src: u64,
    fee_numerator: u64,
    fee_denominator: u64,
    amount_in: u64,
) -> int {
    reserve_src + amount_in - fee_amount(amount_in, fee_numerator, fee_denominator)
}

/// The destination reserve after the trade: the product of the reserves
/// before it, divided by the priced source reserve and rounded down.
pub open spec fn priced_destination(
    reserve_src: u64,
    reserve_dst: u64,
    fee_numerator: u64,
    fee_denominator: u64,
    amount_in: u64,
) -> int {
    (reserve_src * reserve_dst) / priced_source(
        reserve_src,
        fee_numerator,
        fee_denominator,
        amount_in,
    )
}

/// What a trade pays out for `amount_in`: the destination reserve less what
/// the constant product leaves of it. There is no output where the fee rate
/// has a zero denominator or exceeds the input, or where the priced source
/// reserve is zero.
pub open spec fn swap_output(
    reserve_src: u64,
    reserve_dst: u64,
    fee_numerator: u64,
    fee_denominator: u64,
    amount_in: u64,
) -> Result<u64, ErrorCode> {
    if fee_denominator == 0 || fee_amount(amount_in, fee_numerator, fee_denominator) > amount_in
        || priced_source(reserve_src, fee_numerator, fee_denominator, amount_in) == 0 {
        Err(ErrorCode::ArithmeticOverflow)
    } else {
        Ok(
            (reserve_dst - priced_destination(
                reserve_src,
                reserve_dst,
                fee_numerator,
                fee_denominator,
                amount_in,
            )) as u64,
        )
    }
}

/// What a trade of `amount_in` for at least `min_amount_out` does in state
/// `pre`: the state after it and the amount paid out, or the reason why
/// nothing moves.
pub open spec fn swap_outcome(pre: Swap, amount_in: u64, min_amount_out: u64) -> Result<
    (Swap, u64),
    ErrorCode,
> {
    if amount_in > pre.user_src {
        Err(ErrorCode::InsufficientBalance)
    } else {
        match swap_output(
            pre.reserve_src,
            pre.reserve_dst,
            pre.pool_state.fee_numerator,
            pre.pool_state.fee_denominator,
            amount_in,
        ) {
            Err(e) => Err(e),
            Ok(amount_out) => if amount_out < min_amount_out {
                Err(ErrorCode::SlippageExceeded)
            } else if pre.reserve_src + amount_in > u64::MAX || pre.user_dst + amount_out
                > u64::MAX {
                Err(ErrorCode::ArithmeticOverflow)
            } else {
                Ok((pre.after_trade(amount_in, amount_out), amount_out))
            },
        }
    }
}

/// Where a trade has an output, the fee is within the input, and the
/// destination reserve neither grows nor turns negative.
pub proof fn lemma_output_within_reserve(
    reserve_src: u64,
    reserve_dst: u64,
    fee_numerator: u64,
    fee_denominator: u64,
    amount_in: u64,
)
    requires
        swap_output(reserve_src, reserve_dst, fee_numerator, fee_denominator, amount_in) is Ok,
    ensures
        0 <= fee_amount(amount_in, fee_numerator, fee_denominator) <= amount_in,
        0 < priced_source(reserve_src, fee_numerator, fee_denominator, amount_in),
        0 <= priced_destination(
            reserve_src,
            reserve_dst,
            fee_numerator,
            fee_denominator,
            amount_in,
        ) <= reserve_dst,
{
    let fee = fee_amount(amount_in, fee_numerator, fee_denominator);
    let new_src = priced_source(reserve_src, fee_numerator, fee_denominator, amount_in);
    let k = reserve_src * reserve_dst;
    lemma_product_fits(amount_in, fee_numerator);
    lemma_floor_bounds(amount_in * fee_numerator, fee_denominator as int);
    lemma_product_fits(reserve_src, reserve_dst);
    lemma_floor_bounds(k, new_src);
    assert(k <= reserve_dst * new_src) by (nonlinear_arith)
        requires
            k == reserve_src * reserve_dst,
            reserve_src <= new_src,
            0 <= reserve_dst,
    ;
    lemma_floor_at_most(k, new_src, reserve_dst as int);
}

/// Computes what a trade pays out.
pub fn quote_swap(
    reserve_src: u64,
    reserve_dst: u64,
    fee_numerator: u64,
    fee_denominator: u64,
    amount_in: u64,
) -> (r: Result<u64, ErrorCode>)
    ensures
        r == swap_output(reserve_src, reserve_dst, fee_numerator, fee_denominator, amount_in),
{
    let fee = match wide_mul_div(amount_in, fee_numerator, fee_denominator) {
        Some(f) => f,
        None => { return Err(ErrorCode::ArithmeticOverflow); },
    };
    if fee > amount_in as u128 {
        return Err(ErrorCode::ArithmeticOverflow);
    }
    let net_in: u128 = amount_in as u128 - fee;
    proof {
        lemma_product_fits(reserve_src, reserve_dst);
    }
    let product: u128 = (reserve_src as u128) * (reserve_dst as u128);
    let new_src: u128 = reserve_src as u128 + net_in;
    let new_dst = match product.checked_div(new_src) {
        Some(q) => q,
        None => { return Err(ErrorCode::ArithmeticOverflow); },
    };
    proof {
        lemma_output_within_reserve(
            reserve_src,
            reserve_dst,
            fee_numerator,
            fee_denominator,
            amount_in,
        );
    }
    let amount_out = match (reserve_dst as u128).checked_sub(new_dst) {
        Some(out) => out,
        None => { return Err(ErrorCode::ArithmeticOverflow); },
    };
    narrow(amount_out)
}

/// Trades `amount_in` of the source asset for at least `min_amount_out` of
/// the destination asset and returns the amount paid out.
///
/// On success the caller's source balance falls and the source reserve rises
/// by `amount_in`; the destination reserve falls and the caller's destination
/// balance rises by the amount paid out; the pool record is untouched. On
/// failure nothing changes.
pub fn swap(ctx: &mut Swap, amount_in: u64, min_amount_out: u64) -> (r: Result<u64, ErrorCode>)
    ensures
        match swap_outcome(*old(ctx), amount_in, min_amount_out) {
            Ok((post, amount_out)) => r == Ok::<u64, ErrorCode>(amount_out) && *final(ctx) == post,
            Err(e) => r == Err::<u64, ErrorCode>(e) && *final(ctx) == *old(ctx),
        },
        r matches Ok(amount_out) ==> min_amount_out <= amount_out <= old(ctx).reserve_dst,
        r matches Ok(_) ==> final(ctx).pool_state == old(ctx).pool_state,
{
    if amount_in > ctx.user_src {
        return Err(ErrorCode::InsufficientBalance);
    }
    let amount_out = quote_swap(
        ctx.reserve_src,
        ctx.reserve_dst,
        ctx.pool_state.fee_numerator,
        ctx.pool_state.fee_denominator,
        amount_in,
    )?;
    if amount_out < min_amount_out {
        return Err(ErrorCode::SlippageExceeded);
    }
    let reserve_src = add_amounts(ctx.reserve_src, amount_in)?;
    let user_dst = add_amounts(ctx.user_dst, amount_out)?;
    proof {
        lemma_output_within_reserve(
            ctx.reserve_src,
            ctx.reserve_dst,
            ctx.pool_state.fee_numerator,
            ctx.pool_state.fee_denominator,
            amount_in,
        );
    }
    ctx.reserve_src = reserve_src;
    ctx.reserve_dst = ctx.reserve_dst - amount_out;
    ctx.user_src = ctx.user_src - amount_in;
    ctx.user_dst = user_dst;
    Ok(amount_out)
}

} // verus!
