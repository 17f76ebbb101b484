//! A pool over a whole history of operations.
//!
//! The operations each see a pool together with one caller's balances. Here
//! the pool is taken by itself, and each operation brings its caller along,
//! so that operations by different callers can follow one another.

use vstd::prelude::*;
use crate::guarantees::{lemma_deposit_keeps_supply_rule, lemma_trade_keeps_supply_rule};
use crate::instructions::liquidity::{
    add_liquidity_outcome, lemma_share_within_reserve, remove_liquidity_outcome,
    LiquidityOperation,
};
use crate::instructions::swap::{swap_outcome, Direction, Swap};
use crate::state::{supply_tracks_reserves, PoolState};

verus! {

/// What belongs to a pool: its record and its two reserves.
pub struct Pool {
    /// The pool's record.
    pub pool_state: PoolState,
    /// The pool's holding of asset A.
    pub reserve_a: u64,
    /// The pool's holding of asset B.
    pub reserve_b: u64,
}

/// One request to a pool, with the balances of the caller who makes it.
pub enum Operation {
    /// A deposit of up to `desired_a` and `desired_b`.
    Deposit { user_a: u64, user_b: u64, user_receipt: u64, desired_a: u64, desired_b: u64 },
    /// A redemption of `burn_amount` receipt tokens.
    Withdrawal { user_a: u64, user_b: u64, user_receipt: u64, burn_amount: u64 },
    /// A trade of `amount_in` in the given direction for at least `min_amount_out`.
    Trade { user_a: u64, user_b: u64, direction: Direction, amount_in: u64, min_amount_out: u64 },
}

impl Pool {
    /// The supply counter is zero exactly when the pool is empty.
    pub open spec fn supply_tracks_reserves(&self) -> bool {
        supply_tracks_reserves(self.pool_state.total_receipt_supply, self.reserve_a, self.reserve_b)
    }

    /// Whenever receipt tokens are outstanding, the pool holds something.
    pub open spec fn supply_is_backed(&self) -> bool {
        self.pool_state.total_receipt_supply > 0 ==> !(self.reserve_a == 0 && self.reserve_b == 0)
    }

    /// The pool as a provider with the given balances sees it.
    pub open spec fn for_provider(&self, user_a: u64, user_b: u64, user_receipt: u64) -> LiquidityOperation {
        LiquidityOperation {
            pool_state: self.pool_state,
            reserve_a: self.reserve_a,
            reserve_b: self.reserve_b,
            user_a,
            user_b,
            user_receipt,
        }
    }

    /// The pool after one request: as the request's outcome leaves it, and
    /// unchanged if the request is refused.
    pub open spec fn step(&self, op: Operation) -> Pool {
        match op {
            Operation::Deposit { user_a, user_b, user_receipt, desired_a, desired_b } => {
                match add_liquidity_outcome(
                    self.for_provider(user_a, user_b, user_receipt),
                    desired_a,
                    desired_b,
                ) {
                    Ok((post, _)) => Pool {
                        pool_state: post.pool_state,
                        reserve_a: post.reserve_a,
                        reserve_b: post.reserve_b,
                    },
                    Err(_) => *self,
                }
            },
            Operation::Withdrawal { user_a, user_b, user_receipt, burn_amount } => {
                match remove_liquidity_outcome(
                    self.for_provider(user_a, user_b, user_receipt),
                    burn_amount,
                ) {
                    Ok((post, _)) => Pool {
                        pool_state: post.pool_state,
                        reserve_a: post.reserve_a,
                        reserve_b: post.reserve_b,
                    },
                    Err(_) => *self,
                }
            },
            Operation::Trade { user_a, user_b, direction, amount_in, min_amount_out } => {
                match swap_outcome(
                    Swap::oriented(
                        self.pool_state,
                        self.reserve_a,
                        self.reserve_b,
                        user_a,
                        user_b,
                        direction,
                    ),
                    amount_in,
                    min_amount_out,
                ) {
                    Ok((post, _)) => match direction {
                        Direction::AToB => Pool {
                            pool_state: post.pool_state,
                            reserve_a: post.reserve_src,
                            reserve_b: post.reserve_dst,
                        },
                        Direction::BToA => Pool {
                            pool_state: post.pool_state,
                            reserve_a: post.reserve_dst,
                            reserve_b: post.reserve_src,
                        },
                    },
                    Err(_) => *self,
                }
            },
        }
    }

    /// The pool after a history of requests, served in order.
    pub open spec fn run(&self, ops: Seq<Operation>) -> Pool
        decreases ops.len(),
    {
        if ops.len() == 0 {
            *self
        } else {
            self.step(ops[0]).run(ops.drop_first())
        }
    }

    /// The request is a trade that goes through while no receipt token is
    /// outstanding.
    pub open spec fn trades_unowned(&self, op: Operation) -> bool {
        op is Trade && self.pool_state.total_receipt_supply == 0 && self.step(op) != *self
    }

    /// No trade in the history goes through while no receipt token is
    /// outstanding.
    pub open spec fn never_trades_unowned(&self, ops: Seq<Operation>) -> bool
        decreases ops.len(),
    {
        ops.len() == 0 || (!self.trades_unowned(ops[0]) && self.step(ops[0]).never_trades_unowned(
            ops.drop_first(),
        ))
    }
}

/// One request keeps outstanding receipt tokens backed, and, unless it is a
/// trade into a pool that nobody has a share of, keeps the supply counter in
/// agreement with the reserves.
pub proof fn lemma_step_keeps_supply_rule(pool: Pool, op: Operation)
    ensures
        pool.supply_is_backed() ==> pool.step(op).supply_is_backed(),
        pool.supply_tracks_reserves() && !pool.trades_unowned(op) ==> pool.step(
            op,
        ).supply_tracks_reserves(),
{
    match op {
        Operation::Deposit { user_a, user_b, user_receipt, desired_a, desired_b } => {
            lemma_deposit_keeps_supply_rule(
                pool.for_provider(user_a, user_b, user_receipt),
                desired_a,
                desired_b,
            );
        },
        Operation::Withdrawal { user_a, user_b, user_receipt, burn_amount } => {
            let pre = pool.for_provider(user_a, user_b, user_receipt);
            if remove_liquidity_outcome(pre, burn_amount) is Ok {
                let supply = pool.pool_state.total_receipt_supply;
                lemma_share_within_reserve(burn_amount, pool.reserve_a, supply);
                lemma_share_within_reserve(burn_amount, pool.reserve_b, supply);
            }
        },
        Operation::Trade { user_a, user_b, direction, amount_in, min_amount_out } => {
            lemma_trade_keeps_supply_rule(
                Swap::oriented(
                    pool.pool_state,
                    pool.reserve_a,
                    pool.reserve_b,
                    user_a,
                    user_b,
                    direction,
                ),
                amount_in,
                min_amount_out,
            );
        },
    }
}

/// After any history of deposits, withdrawals and trades, served in any
/// order and for any callers, outstanding receipt tokens are still backed by
/// reserves. If moreover no trade went through while no receipt token was
/// outstanding, the supply counter is zero exactly when the pool is empty.
pub proof fn lemma_history_keeps_supply_rule(pool: Pool, ops: Seq<Operation>)
    ensures
        pool.supply_is_backed() ==> pool.run(ops).supply_is_backed(),
        pool.supply_tracks_reserves() && pool.never_trades_unowned(ops) ==> pool.run(
            ops,
        ).supply_tracks_reserves(),
    decreases ops.len(),
{
    if ops.len() > 0 {
        lemma_step_keeps_supply_rule(pool, ops[0]);
        lemma_history_keeps_supply_rule(pool.step(ops[0]), ops.drop_first());
    }
}

} // verus!
