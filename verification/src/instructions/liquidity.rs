//! Deposits into a pool and withdrawals from it.
//!
//! Both operations work on a [`LiquidityOperation`]: the pool record together
//! with the balances that the operation reads and moves. An operation either
//! rewrites that value to the state after the transition and returns the
//! amounts that were moved, or returns an error and leaves it as it was.

use vstd::prelude::*;
use crate::error::ErrorCode;
use crate::guarantees::lemma_deposit_keeps_price;
use crate::math::{
    add_amounts, lemma_floor_at_most, lemma_floor_bounds, mul_div, mul_div_floor, narrow,
    wide_mul_div,
};
use crate::state::{supply_tracks_reserves, PoolState};

verus! {

/// What a deposit or a withdrawal sees of the ledger.
#[derive(Clone, Copy, Debug, PartialEq, Eq, Structural)]
pub struct LiquidityOperation {
    /// The pool's record.
    pub pool_state: PoolState,
    /// The pool's holding of asset A.
    pub reserve_a: u64,
    /// The pool's holding of asset B.
    pub reserve_b: u64,
    /// The caller's balance of asset A.
    pub user_a: u64,
    /// The caller's balance of asset B.
    pub user_b: u64,
    /// The caller's balance of receipt tokens.
    pub user_receipt: u64,
}

/// The amounts moved by a deposit.
#[derive(Clone, Copy, Debug, PartialEq, Eq, Structural)]
pub struct Deposit {
    /// Asset A taken from the caller into the pool.
    pub deposit_a: u64,
    /// Asset B taken from the caller into the pool.
    pub deposit_b: u64,
    /// Receipt tokens issued to the caller.
    pub minted: u64,
}

/// The amounts moved by a withdrawal.
#[derive(Clone, Copy, Debug, PartialEq, Eq, Structural)]
pub struct Payout {
    /// Asset A paid from the pool to the caller.
    pub payout_a: u64,
    /// Asset B paid from the pool to the caller.
    pub payout_b: u64,
}

impl LiquidityOperation {
    /// The pool holds nothing of either asset.
    pub open spec fn pool_is_empty(&self) -> bool {
        self.reserve_a == 0 && self.reserve_b == 0
    }

    /// The supply counter is zero exactly when the pool is empty.
    pub open spec fn supply_tracks_reserves(&self) -> bool {
        supply_tracks_reserves(self.pool_state.total_receipt_supply, self.reserve_a, self.reserve_b)
    }

    /// The state after `d` has been deposited.
    pub open spec fn after_deposit(&self, d: Deposit) -> LiquidityOperation {
        LiquidityOperation {
            pool_state: PoolState {
                total_receipt_supply: (self.pool_state.total_receipt_supply + d.minted) as u64,
                ..self.pool_state
            },
            reserve_a: (self.reserve_a + d.deposit_a) as u64,
            reserve_b: (self.reserve_b + d.deposit_b) as u64,
            user_a: (self.user_a - d.deposit_a) as u64,
            user_b: (self.user_b - d.deposit_b) as u64,
            user_receipt: (self.user_receipt + d.minted) as u64,
        }
    }

    /// The state after `burn_amount` receipt tokens were redeemed for `p`.
    pub open spec fn after_withdrawal(&self, burn_amount: u64, p: Payout) -> LiquidityOperation {
        LiquidityOperation {
            pool_state: PoolState {
                total_receipt_supply: (self.pool_state.total_receipt_supply - burn_amount) as u64,
                ..self.pool_state
            },
            reserve_a: (self.reserve_a - p.payout_a) as u64,
            reserve_b: (self.reserve_b - p.payout_b) as u64,
            user_a: (self.user_a + p.payout_a) as u64,
            user_b: (self.user_b + p.payout_b) as u64,
            user_receipt: (self.user_receipt - burn_amount) as u64,
        }
    }
}

/// The amounts of a deposit, from the reserves, the supply and what the
/// provider offers.
///
/// Into an empty pool the provider sets the price: both offers are taken whole
/// and half their sum is minted. Otherwise all of the offered A is taken, with
/// as much B as keeps the price, `floor(desired_a * reserve_b / reserve_a)`,
/// and the provider's share of B is minted, `floor(deposit_b * supply /
/// reserve_b)`. A pool that holds only one of the assets has no price: a
/// deposit into it divides by zero.
pub open spec fn deposit_amounts(
    reserve_a: u64,
    reserve_b: u64,
    supply: u64,
    desired_a: u64,
    desired_b: u64,
) -> Result<Deposit, ErrorCode> {
    if reserve_a == 0 && reserve_b == 0 {
        let minted = (desired_a + desired_b) / 2;
        if minted == 0 {
            Err(ErrorCode::NoMintOutput)
        } else {
            Ok(Deposit { deposit_a: desired_a, deposit_b: desired_b, minted: minted as u64 })
        }
    } else if reserve_a == 0 || reserve_b == 0 {
        Err(ErrorCode::ArithmeticOverflow)
    } else {
        let required_b = mul_div(desired_a as int, reserve_b as int, reserve_a as int);
        let minted = mul_div(required_b, supply as int, reserve_b as int);
        if required_b > desired_b {
            Err(ErrorCode::InsufficientBalance)
        } else if minted == 0 {
            Err(ErrorCode::NoMintOutput)
        } else if minted > u64::MAX {
            Err(ErrorCode::ArithmeticOverflow)
        } else {
            Ok(Deposit { deposit_a: desired_a, deposit_b: required_b as u64, minted: minted as u64 })
        }
    }
}

/// The amounts paid for `burn_amount` receipt tokens out of `supply`: the same
/// share of each reserve, rounded down.
pub open spec fn payout_amounts(reserve_a: u64, reserve_b: u64, supply: u64, burn_amount: u64) -> Payout {
    Payout {
        payout_a: mul_div(burn_amount as int, reserve_a as int, supply as int) as u64,
        payout_b: mul_div(burn_amount as int, reserve_b as int, supply as int) as u64,
    }
}

/// What a deposit of up to `desired_a` and `desired_b` does in state `pre`:
/// the state after it and the amounts moved, or the reason why nothing moves.
pub open spec fn add_liquidity_outcome(
    pre: LiquidityOperation,
    desired_a: u64,
    desired_b: u64,
) -> Result<(LiquidityOperation, Deposit), ErrorCode> {
    if desired_a > pre.user_a || desired_b > pre.user_b {
        Err(ErrorCode::InsufficientBalance)
    } else {
        match deposit_amounts(
            pre.reserve_a,
            pre.reserve_b,
            pre.pool_state.total_receipt_supply,
            desired_a,
            desired_b,
        ) {
            Err(e) => Err(e),
            Ok(d) => if pre.reserve_a + d.deposit_a > u64::MAX
                || pre.reserve_b + d.deposit_b > u64::MAX
                || pre.pool_state.total_receipt_supply + d.minted > u64::MAX
                || pre.user_receipt + d.minted > u64::MAX {
                Err(ErrorCode::ArithmeticOverflow)
            } else {
                Ok((pre.after_deposit(d), d))
            },
        }
    }
}

/// What redeeming `burn_amount` receipt tokens does in state `pre`.
pub open spec fn remove_liquidity_outcome(pre: LiquidityOperation, burn_amount: u64) -> Result<
    (LiquidityOperation, Payout),
    ErrorCode,
> {
    let supply = pre.pool_state.total_receipt_supply;
    let p = payout_amounts(pre.reserve_a, pre.reserve_b, supply, burn_amount);
    if burn_amount > pre.user_receipt {
        Err(ErrorCode::InsufficientBalance)
    } else if burn_amount > supply {
        Err(ErrorCode::BurnExceedsSupply)
    } else if supply == 0 {
        Err(ErrorCode::ArithmeticOverflow)
    } else if pre.user_a + p.payout_a > u64::MAX || pre.user_b + p.payout_b > u64::MAX {
        Err(ErrorCode::ArithmeticOverflow)
    } else {
        Ok((pre.after_withdrawal(burn_amount, p), p))
    }
}

/// A share of a reserve is never more than the reserve.
pub proof fn lemma_share_within_reserve(burn_amount: u64, reserve: u64, supply: u64)
    requires
        burn_amount <= supply,
        supply > 0,
    ensures
        0 <= mul_div(burn_amount as int, reserve as int, supply as int) <= reserve,
        burn_amount == supply ==> mul_div(burn_amount as int, reserve as int, supply as int)
            == reserve,
        burn_amount < supply && reserve > 0 ==> mul_div(
            burn_amount as int,
            reserve as int,
            supply as int,
        ) < reserve,
{
    let n = burn_amount * reserve;
    let s = supply as int;
    assert(0 <= n <= reserve * s) by (nonlinear_arith)
        requires
            n == burn_amount * reserve,
            0 <= burn_amount <= s,
            0 <= reserve,
    ;
    lemma_floor_bounds(n, s);
    lemma_floor_at_most(n, s, reserve as int);
    if burn_amount == supply {
        assert(n / s >= reserve) by (nonlinear_arith)
            requires
                n == s * reserve,
                n < (n / s + 1) * s,
                0 < s,
        ;
    }
    if burn_amount < supply && reserve > 0 {
        assert(n / s < reserve) by (nonlinear_arith)
            requires
                n == burn_amount * reserve,
                (n / s) * s <= n,
                0 <= burn_amount < s,
                0 < reserve,
        ;
    }
}

/// Computes the amounts of a deposit.
pub fn quote_deposit(
    reserve_a: u64,
    reserve_b: u64,
    supply: u64,
    desired_a: u64,
    desired_b: u64,
) -> (r: Result<Deposit, ErrorCode>)
    ensures
        r == deposit_amounts(reserve_a, reserve_b, supply, desired_a, desired_b),
{
    if reserve_a == 0 && reserve_b == 0 {
        let sum: u128 = desired_a as u128 + desired_b as u128;
        let minted = narrow(sum / 2)?;
        if minted == 0 {
            return Err(ErrorCode::NoMintOutput);
        }
        Ok(Deposit { deposit_a: desired_a, deposit_b: desired_b, minted })
    } else {
        let required_b = match wide_mul_div(desired_a, reserve_b, reserve_a) {
            Some(q) => q,
            None => { return Err(ErrorCode::ArithmeticOverflow); },
        };
        if reserve_b == 0 {
            return Err(ErrorCode::ArithmeticOverflow);
        }
        if required_b > desired_b as u128 {
            return Err(ErrorCode::InsufficientBalance);
        }
        let deposit_b = required_b as u64;
        let minted = match wide_mul_div(deposit_b, supply, reserve_b) {
            Some(q) => q,
            None => { return Err(ErrorCode::ArithmeticOverflow); },
        };
        if minted == 0 {
            return Err(ErrorCode::NoMintOutput);
        }
        let minted = narrow(minted)?;
        Ok(Deposit { deposit_a: desired_a, deposit_b, minted })
    }
}

/// Deposits up to `desired_a` of asset A and `desired_b` of asset B.
///
/// On success the caller's balances fall by the amounts deposited, the
/// reserves rise by them, and the supply counter and the caller's receipt
/// balance rise by the amount minted. On failure nothing changes.
///
/// A deposit that goes through mints something, takes all of the offered A,
/// and takes B at the pool's price where the pool has one.
pub fn add_liquidity(ctx: &mut LiquidityOperation, desired_a: u64, desired_b: u64) -> (r: Result<
    Deposit,
    ErrorCode,
>)
    ensures
        match add_liquidity_outcome(*old(ctx), desired_a, desired_b) {
            Ok((post, d)) => r == Ok::<Deposit, ErrorCode>(d) && *final(ctx) == post,
            Err(e) => r == Err::<Deposit, ErrorCode>(e) && *final(ctx) == *old(ctx),
        },
        r matches Ok(d) ==> d.minted > 0 && d.deposit_a == desired_a && d.deposit_b <= desired_b,
        r matches Ok(d) ==> !old(ctx).pool_is_empty() ==> d.deposit_b * old(ctx).reserve_a
            <= d.deposit_a * old(ctx).reserve_b < (d.deposit_b + 1) * old(ctx).reserve_a,
{
    proof {
        lemma_deposit_keeps_price(*ctx, desired_a, desired_b);
    }
    if desired_a > ctx.user_a || desired_b > ctx.user_b {
        return Err(ErrorCode::InsufficientBalance);
    }
    let supply = ctx.pool_state.total_receipt_supply;
    let d = quote_deposit(ctx.reserve_a, ctx.reserve_b, supply, desired_a, desired_b)?;
    let reserve_a = add_amounts(ctx.reserve_a, d.deposit_a)?;
    let reserve_b = add_amounts(ctx.reserve_b, d.deposit_b)?;
    let new_supply = add_amounts(supply, d.minted)?;
    let user_receipt = add_amounts(ctx.user_receipt, d.minted)?;
    ctx.pool_state.total_receipt_supply = new_supply;
    ctx.reserve_a = reserve_a;
    ctx.reserve_b = reserve_b;
    ctx.user_a = ctx.user_a - d.deposit_a;
    ctx.user_b = ctx.user_b - d.deposit_b;
    ctx.user_receipt = user_receipt;
    Ok(d)
}

/// Redeems `burn_amount` receipt tokens for the same share of both reserves.
///
/// On success the reserves fall by the amounts paid, the caller's balances
/// rise by them, and the supply counter and the caller's receipt balance fall
/// by the amount burned. On failure nothing changes.
///
/// A withdrawal never pays more than the pool holds, and one that redeems
/// the whole supply pays all of it.
pub fn remove_liquidity(ctx: &mut LiquidityOperation, burn_amount: u64) -> (r: Result<
    Payout,
    ErrorCode,
>)
    ensures
        match remove_liquidity_outcome(*old(ctx), burn_amount) {
            Ok((post, p)) => r == Ok::<Payout, ErrorCode>(p) && *final(ctx) == post,
            Err(e) => r == Err::<Payout, ErrorCode>(e) && *final(ctx) == *old(ctx),
        },
        r matches Ok(p) ==> p.payout_a <= old(ctx).reserve_a && p.payout_b <= old(ctx).reserve_b,
        r matches Ok(p) ==> burn_amount == old(ctx).pool_state.total_receipt_supply
            ==> p.payout_a == old(ctx).reserve_a && p.payout_b == old(ctx).reserve_b,
{
    if burn_amount > ctx.user_receipt {
        return Err(ErrorCode::InsufficientBalance);
    }
    let supply = ctx.pool_state.total_receipt_supply;
    if burn_amount > supply {
        return Err(ErrorCode::BurnExceedsSupply);
    }
    if supply == 0 {
        return Err(ErrorCode::ArithmeticOverflow);
    }
    proof {
        lemma_share_within_reserve(burn_amount, ctx.reserve_a, supply);
        lemma_share_within_reserve(burn_amount, ctx.reserve_b, supply);
    }
    let payout_a = mul_div_floor(burn_amount, ctx.reserve_a, supply)?;
    let payout_b = mul_div_floor(burn_amount, ctx.reserve_b, supply)?;
    let user_a = add_amounts(ctx.user_a, payout_a)?;
    let user_b = add_amounts(ctx.user_b, payout_b)?;
    ctx.pool_state.total_receipt_supply = supply - burn_amount;
    ctx.reserve_a = ctx.reserve_a - payout_a;
    ctx.reserve_b = ctx.reserve_b - payout_b;
    ctx.user_a = user_a;
    ctx.user_b = user_b;
    ctx.user_receipt = ctx.user_receipt - burn_amount;
    Ok(Payout { payout_a, payout_b })
}

} // verus!
