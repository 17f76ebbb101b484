//! What holds of every deposit, withdrawal and trade.
//!
//! Each statement here is proved from the definitions of the operations'
//! outcomes, which are what the operations themselves are proved to compute.

use vstd::prelude::*;
use crate::instructions::liquidity::{
    add_liquidity_outcome, lemma_share_within_reserve, remove_liquidity_outcome,
    LiquidityOperation,
};
use crate::instructions::swap::{
    fee_amount, lemma_output_within_reserve, priced_destination, priced_source, swap_outcome,
    swap_output, Swap,
};
use crate::error::ErrorCode;
use crate::math::{lemma_floor_at_most, lemma_floor_bounds, lemma_product_fits, mul_div};
use crate::state::{supply_tracks_reserves, PoolState};

verus! {

/// Every deposit that goes through mints at least one receipt token, takes
/// all of the offered A and no more than the offered B. Into a pool that is
/// not empty it takes the two assets at the pool's price, B rounded down:
/// `deposit_b * reserve_a <= deposit_a * reserve_b < (deposit_b + 1) * reserve_a`.
pub proof fn lemma_deposit_keeps_price(pre: LiquidityOperation, desired_a: u64, desired_b: u64)
    ensures
        match add_liquidity_outcome(pre, desired_a, desired_b) {
            Ok((_, d)) => {
                &&& d.minted > 0
                &&& d.deposit_a == desired_a
                &&& d.deposit_b <= desired_b
                &&& !pre.pool_is_empty() ==> {
                    &&& pre.reserve_a > 0
                    &&& pre.reserve_b > 0
                    &&& d.deposit_b * pre.reserve_a <= d.deposit_a * pre.reserve_b
                    &&& d.deposit_a * pre.reserve_b < (d.deposit_b + 1) * pre.reserve_a
                }
            },
            Err(_) => true,
        },
{
    if add_liquidity_outcome(pre, desired_a, desired_b) is Ok && !pre.pool_is_empty() {
        lemma_product_fits(desired_a, pre.reserve_b);
        lemma_floor_bounds(desired_a * pre.reserve_b, pre.reserve_a as int);
    }
}

/// Every deposit that goes through mints no more than the depositor's share
/// of either reserve: `minted * reserve <= deposit * supply` for both assets,
/// with the reserves and the supply as they were before the deposit.
pub proof fn lemma_mint_within_share(pre: LiquidityOperation, desired_a: u64, desired_b: u64)
    ensures
        match add_liquidity_outcome(pre, desired_a, desired_b) {
            Ok((_, d)) => {
                &&& d.minted * pre.reserve_a <= d.deposit_a * pre.pool_state.total_receipt_supply
                &&& d.minted * pre.reserve_b <= d.deposit_b * pre.pool_state.total_receipt_supply
            },
            Err(_) => true,
        },
{
    match add_liquidity_outcome(pre, desired_a, desired_b) {
        Ok((_, d)) => {
            let supply = pre.pool_state.total_receipt_supply as int;
            let ra = pre.reserve_a as int;
            let rb = pre.reserve_b as int;
            let m = d.minted as int;
            let da = d.deposit_a as int;
            let db = d.deposit_b as int;
            if pre.pool_is_empty() {
                assert(m * ra <= da * supply && m * rb <= db * supply) by (nonlinear_arith)
                    requires
                        ra == 0,
                        rb == 0,
                        0 <= da,
                        0 <= db,
                        0 <= supply,
                ;
            } else {
                lemma_deposit_keeps_price(pre, desired_a, desired_b);
                assert(0 <= db * supply) by (nonlinear_arith)
                    requires
                        0 <= db,
                        0 <= supply,
                ;
                lemma_floor_bounds(db * supply, rb);
                assert(m * rb <= db * supply);
                assert(m * ra <= da * supply) by (nonlinear_arith)
                    requires
                        m * rb <= db * supply,
                        db * ra <= da * rb,
                        0 < ra,
                        0 < rb,
                        0 <= supply,
                        0 <= m,
                        0 <= da,
                        0 <= db,
                {
                    assert((m * rb) * ra <= (db * supply) * ra);
                    assert((db * ra) * supply <= (da * rb) * supply);
                    assert((m * ra) * rb <= (da * supply) * rb);
                }
            }
        },
        Err(_) => {},
    }
}

/// A provider who deposits and at once redeems exactly what was minted gets
/// the withdrawal through, and gets back no more of either asset than was
/// deposited.
pub proof fn lemma_deposit_then_withdraw(pre: LiquidityOperation, desired_a: u64, desired_b: u64)
    ensures
        match add_liquidity_outcome(pre, desired_a, desired_b) {
            Ok((mid, d)) => match remove_liquidity_outcome(mid, d.minted) {
                Ok((_, p)) => p.payout_a <= d.deposit_a && p.payout_b <= d.deposit_b,
                Err(_) => false,
            },
            Err(_) => true,
        },
{
    match add_liquidity_outcome(pre, desired_a, desired_b) {
        Ok((mid, d)) => {
            lemma_deposit_keeps_price(pre, desired_a, desired_b);
            lemma_mint_within_share(pre, desired_a, desired_b);
            let supply = pre.pool_state.total_receipt_supply as int;
            let m = d.minted as int;
            lemma_returned_within_deposit(m, pre.reserve_a as int, d.deposit_a as int, supply);
            lemma_returned_within_deposit(m, pre.reserve_b as int, d.deposit_b as int, supply);
        },
        Err(_) => {},
    }
}

/// If `minted` is within the depositor's share of a reserve, then the share
/// that `minted` buys of the reserve after the deposit is within the deposit.
proof fn lemma_returned_within_deposit(minted: int, reserve: int, deposit: int, supply: int)
    requires
        0 < minted,
        0 <= reserve,
        0 <= deposit,
        0 <= supply,
        minted * reserve <= deposit * supply,
    ensures
        mul_div(minted, reserve + deposit, supply + minted) <= deposit,
{
    assert(0 <= minted * (reserve + deposit) <= deposit * (supply + minted))
        by (nonlinear_arith)
        requires
            0 < minted,
            0 <= reserve,
            0 <= deposit,
            minted * reserve <= deposit * supply,
    ;
    lemma_floor_at_most(minted * (reserve + deposit), supply + minted, deposit);
}

/// The product of the reserves after a trade, exactly: the product before it,
/// less what the division lost, plus the fee's worth of the destination
/// reserve. So the product does not fall exactly when the fee kept in the
/// source reserve makes up for the rounding, and it never falls by as much as
/// the source reserve after the trade.
pub proof fn lemma_trade_product(pre: Swap, amount_in: u64, min_amount_out: u64)
    ensures
        match swap_outcome(pre, amount_in, min_amount_out) {
            Ok((post, _)) => {
                let before = pre.reserve_src * pre.reserve_dst;
                let after = post.reserve_src * post.reserve_dst;
                let lost = before % priced_source(
                    pre.reserve_src,
                    pre.pool_state.fee_numerator,
                    pre.pool_state.fee_denominator,
                    amount_in,
                );
                let kept = fee_amount(
                    amount_in,
                    pre.pool_state.fee_numerator,
                    pre.pool_state.fee_denominator,
                ) * post.reserve_dst;
                &&& after == before - lost + kept
                &&& after >= before <==> lost <= kept
                &&& after > before - post.reserve_src
            },
            Err(_) => true,
        },
{
    match swap_outcome(pre, amount_in, min_amount_out) {
        Ok((post, _)) => {
            let num = pre.pool_state.fee_numerator;
            let den = pre.pool_state.fee_denominator;
            lemma_output_within_reserve(pre.reserve_src, pre.reserve_dst, num, den, amount_in);
            let before = pre.reserve_src * pre.reserve_dst;
            let n = priced_source(pre.reserve_src, num, den, amount_in);
            let fee = fee_amount(amount_in, num, den);
            let q = priced_destination(pre.reserve_src, pre.reserve_dst, num, den, amount_in);
            lemma_product_fits(pre.reserve_src, pre.reserve_dst);
            lemma_floor_bounds(before, n);
            assert(post.reserve_dst == q);
            assert(post.reserve_src == n + fee);
            assert((n + fee) * q == q * n + fee * q) by (nonlinear_arith);
            assert(0 <= fee * q) by (nonlinear_arith)
                requires
                    0 <= fee,
                    0 <= q,
            ;
        },
        Err(_) => {},
    }
}

/// In a pool whose fee is a proper fraction, the fee on a positive input is
/// less than the input, so every such trade has an output: it can only be
/// refused for the caller's balance, for slippage, or for a balance that
/// would leave its range.
pub proof fn lemma_proper_fee_prices_every_trade(pre: Swap, amount_in: u64)
    requires
        pre.pool_state.has_valid_fee(),
        amount_in > 0,
    ensures
        0 <= fee_amount(amount_in, pre.pool_state.fee_numerator, pre.pool_state.fee_denominator)
            < amount_in,
        swap_output(
            pre.reserve_src,
            pre.reserve_dst,
            pre.pool_state.fee_numerator,
            pre.pool_state.fee_denominator,
            amount_in,
        ) is Ok,
{
    let num = pre.pool_state.fee_numerator as int;
    let den = pre.pool_state.fee_denominator as int;
    let n = amount_in * num;
    lemma_product_fits(amount_in, pre.pool_state.fee_numerator);
    lemma_floor_bounds(n, den);
    assert(n / den < amount_in) by (nonlinear_arith)
        requires
            n == amount_in * num,
            (n / den) * den <= n,
            0 <= num < den,
            0 < amount_in,
    ;
}

/// A trade that asks for more than it would pay out is refused for slippage,
/// whenever the caller can pay the input and the output can be computed.
pub proof fn lemma_slippage_rejected(pre: Swap, amount_in: u64, min_amount_out: u64)
    ensures
        match swap_output(
            pre.reserve_src,
            pre.reserve_dst,
            pre.pool_state.fee_numerator,
            pre.pool_state.fee_denominator,
            amount_in,
        ) {
            Ok(amount_out) => amount_in <= pre.user_src && min_amount_out > amount_out
                ==> swap_outcome(pre, amount_in, min_amount_out) == Err::<(Swap, u64), ErrorCode>(
                ErrorCode::SlippageExceeded,
            ),
            Err(_) => true,
        },
{
}

/// A pool that has just been created, with the empty reserves that the ledger
/// gives it, has a supply counter that agrees with its reserves.
pub proof fn lemma_fresh_pool_keeps_supply_rule(fee_numerator: u64, fee_denominator: u64)
    ensures
        supply_tracks_reserves(
            PoolState::fresh(fee_numerator, fee_denominator).total_receipt_supply,
            0,
            0,
        ),
{
}

/// After any deposit that goes through, receipt tokens are outstanding and
/// the pool is not empty.
pub proof fn lemma_deposit_keeps_supply_rule(pre: LiquidityOperation, desired_a: u64, desired_b: u64)
    ensures
        match add_liquidity_outcome(pre, desired_a, desired_b) {
            Ok((post, _)) => {
                &&& post.pool_state.total_receipt_supply > 0
                &&& !post.pool_is_empty()
                &&& post.supply_tracks_reserves()
            },
            Err(_) => true,
        },
{
    lemma_deposit_keeps_price(pre, desired_a, desired_b);
}

/// If the supply counter agrees with the reserves before a withdrawal, it
/// agrees with them after it: redeeming the whole supply empties the pool,
/// and redeeming less leaves something in it.
pub proof fn lemma_withdrawal_keeps_supply_rule(pre: LiquidityOperation, burn_amount: u64)
    requires
        pre.supply_tracks_reserves(),
    ensures
        match remove_liquidity_outcome(pre, burn_amount) {
            Ok((post, p)) => {
                &&& post.supply_tracks_reserves()
                &&& p.payout_a <= pre.reserve_a
                &&& p.payout_b <= pre.reserve_b
                &&& burn_amount == pre.pool_state.total_receipt_supply ==> post.pool_is_empty()
            },
            Err(_) => true,
        },
{
    if remove_liquidity_outcome(pre, burn_amount) is Ok {
        let supply = pre.pool_state.total_receipt_supply;
        lemma_share_within_reserve(burn_amount, pre.reserve_a, supply);
        lemma_share_within_reserve(burn_amount, pre.reserve_b, supply);
    }
}

/// A trade leaves the supply counter alone and never leaves the pool empty.
/// So after a trade the counter agrees with the reserves exactly when receipt
/// tokens are outstanding: a trade into a pool that nobody has a share of
/// leaves reserves that no receipt token stands for.
pub proof fn lemma_trade_keeps_supply_rule(pre: Swap, amount_in: u64, min_amount_out: u64)
    ensures
        match swap_outcome(pre, amount_in, min_amount_out) {
            Ok((post, amount_out)) => {
                &&& post.pool_state == pre.pool_state
                &&& amount_out <= pre.reserve_dst
                &&& post.reserve_src > 0
                &&& post.supply_tracks_reserves() <==> pre.pool_state.total_receipt_supply > 0
            },
            Err(_) => true,
        },
{
    if swap_outcome(pre, amount_in, min_amount_out) is Ok {
        lemma_output_within_reserve(
            pre.reserve_src,
            pre.reserve_dst,
            pre.pool_state.fee_numerator,
            pre.pool_state.fee_denominator,
            amount_in,
        );
    }
}

} // verus!
