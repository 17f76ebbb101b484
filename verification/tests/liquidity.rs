use ammv2::instructions::liquidity::quote_deposit;
use ammv2::{
    add_liquidity, remove_liquidity, Deposit, ErrorCode, LiquidityOperation, Payout, PoolState,
};

fn pool(supply: u64, reserve_a: u64, reserve_b: u64) -> LiquidityOperation {
    LiquidityOperation {
        pool_state: PoolState {
            total_receipt_supply: supply,
            fee_numerator: 3,
            fee_denominator: 1000,
        },
        reserve_a,
        reserve_b,
        user_a: 1_000_000,
        user_b: 1_000_000,
        user_receipt: 0,
    }
}

#[test]
fn first_deposit_mints_half_the_sum() {
    let mut ctx = pool(0, 0, 0);
    let d = add_liquidity(&mut ctx, 100, 100).unwrap();
    assert_eq!(d, Deposit { deposit_a: 100, deposit_b: 100, minted: 100 });
    assert_eq!(ctx.reserve_a, 100);
    assert_eq!(ctx.reserve_b, 100);
    assert_eq!(ctx.pool_state.total_receipt_supply, 100);
    assert_eq!(ctx.user_a, 999_900);
    assert_eq!(ctx.user_b, 999_900);
    assert_eq!(ctx.user_receipt, 100);
    assert_eq!(ctx.pool_state.fee_numerator, 3);
    assert_eq!(ctx.pool_state.fee_denominator, 1000);
}

#[test]
fn first_deposit_rounds_the_average_down() {
    let mut ctx = pool(0, 0, 0);
    let d = add_liquidity(&mut ctx, 3, 4).unwrap();
    assert_eq!(d, Deposit { deposit_a: 3, deposit_b: 4, minted: 3 });
    assert_eq!((ctx.reserve_a, ctx.reserve_b), (3, 4));
}

#[test]
fn first_deposit_may_be_lopsided() {
    let mut ctx = pool(0, 0, 0);
    let d = add_liquidity(&mut ctx, 2, 0).unwrap();
    assert_eq!(d, Deposit { deposit_a: 2, deposit_b: 0, minted: 1 });
    assert_eq!((ctx.reserve_a, ctx.reserve_b), (2, 0));
    assert_eq!(ctx.pool_state.total_receipt_supply, 1);
}

#[test]
fn first_deposit_adds_in_a_wider_type() {
    let mut ctx = pool(0, 0, 0);
    ctx.user_a = u64::MAX;
    ctx.user_b = u64::MAX;
    let d = add_liquidity(&mut ctx, u64::MAX, u64::MAX).unwrap();
    assert_eq!(d.minted, u64::MAX);
    assert_eq!(ctx.pool_state.total_receipt_supply, u64::MAX);
    assert_eq!((ctx.user_a, ctx.user_b), (0, 0));
}

#[test]
fn first_deposit_too_small_to_mint_is_refused() {
    for (a, b) in [(0, 0), (1, 0), (0, 1)] {
        let mut ctx = pool(0, 0, 0);
        assert_eq!(add_liquidity(&mut ctx, a, b), Err(ErrorCode::NoMintOutput));
        assert_eq!(ctx, pool(0, 0, 0));
    }
}

#[test]
fn deposit_needs_the_offered_balances() {
    let mut ctx = pool(100, 100, 100);
    ctx.user_a = 49;
    let before = ctx;
    assert_eq!(add_liquidity(&mut ctx, 50, 50), Err(ErrorCode::InsufficientBalance));
    assert_eq!(ctx, before);
    ctx.user_a = 50;
    ctx.user_b = 49;
    let before = ctx;
    assert_eq!(add_liquidity(&mut ctx, 50, 50), Err(ErrorCode::InsufficientBalance));
    assert_eq!(ctx, before);
}

#[test]
fn later_deposit_follows_the_pool_price() {
    let mut ctx = pool(100, 100, 100);
    let d = add_liquidity(&mut ctx, 50, 50).unwrap();
    assert_eq!(d, Deposit { deposit_a: 50, deposit_b: 50, minted: 50 });
    assert_eq!((ctx.reserve_a, ctx.reserve_b), (150, 150));
    assert_eq!(ctx.pool_state.total_receipt_supply, 150);
    assert_eq!(ctx.user_receipt, 50);
}

#[test]
fn later_deposit_takes_only_the_b_it_needs() {
    let mut ctx = pool(100, 100, 100);
    let d = add_liquidity(&mut ctx, 50, 80).unwrap();
    assert_eq!(d, Deposit { deposit_a: 50, deposit_b: 50, minted: 50 });
    assert_eq!(ctx.user_b, 1_000_000 - 50);
}

#[test]
fn price_is_kept_when_a_is_the_scarcer_reserve() {
    let mut ctx = pool(200, 100, 300);
    let d = add_liquidity(&mut ctx, 10, 30).unwrap();
    assert_eq!(d, Deposit { deposit_a: 10, deposit_b: 30, minted: 20 });
    assert_eq!((ctx.reserve_a, ctx.reserve_b), (110, 330));
    assert_eq!(ctx.pool_state.total_receipt_supply, 220);
}

#[test]
fn price_is_kept_when_b_is_the_scarcer_reserve() {
    let mut ctx = pool(200, 300, 100);
    let d = add_liquidity(&mut ctx, 30, 10).unwrap();
    assert_eq!(d, Deposit { deposit_a: 30, deposit_b: 10, minted: 20 });
    assert_eq!((ctx.reserve_a, ctx.reserve_b), (330, 110));
}

#[test]
fn required_b_is_rounded_down() {
    let mut ctx = pool(10, 3, 10);
    let d = add_liquidity(&mut ctx, 1, 5).unwrap();
    assert_eq!(d, Deposit { deposit_a: 1, deposit_b: 3, minted: 3 });
    let (ra, rb) = (3u128, 10u128);
    assert!(d.deposit_b as u128 * ra <= d.deposit_a as u128 * rb);
    assert!((d.deposit_a as u128 * rb) < (d.deposit_b as u128 + 1) * ra);
}

#[test]
fn deposit_short_of_b_is_refused() {
    let mut ctx = pool(200, 100, 300);
    assert_eq!(add_liquidity(&mut ctx, 10, 29), Err(ErrorCode::InsufficientBalance));
    assert_eq!(ctx, pool(200, 100, 300));
}

#[test]
fn deposit_too_small_to_mint_is_refused() {
    let mut ctx = pool(1, 1000, 1000);
    assert_eq!(add_liquidity(&mut ctx, 1, 1), Err(ErrorCode::NoMintOutput));
    assert_eq!(ctx, pool(1, 1000, 1000));
    let mut ctx = pool(100, 100, 100);
    assert_eq!(add_liquidity(&mut ctx, 0, 0), Err(ErrorCode::NoMintOutput));
    assert_eq!(ctx, pool(100, 100, 100));
}

#[test]
fn deposit_into_a_one_sided_pool_divides_by_zero() {
    let mut ctx = pool(1, 5, 0);
    assert_eq!(add_liquidity(&mut ctx, 1, 1), Err(ErrorCode::ArithmeticOverflow));
    assert_eq!(ctx, pool(1, 5, 0));
    let mut ctx = pool(1, 0, 5);
    assert_eq!(add_liquidity(&mut ctx, 1, 1), Err(ErrorCode::ArithmeticOverflow));
    assert_eq!(ctx, pool(1, 0, 5));
}

#[test]
fn deposit_that_overflows_a_reserve_is_refused() {
    let mut ctx = pool(u64::MAX - 5, u64::MAX, u64::MAX);
    let before = ctx;
    assert_eq!(add_liquidity(&mut ctx, 2, 2), Err(ErrorCode::ArithmeticOverflow));
    assert_eq!(ctx, before);
}

#[test]
fn deposit_that_overflows_the_supply_is_refused() {
    let mut ctx = pool(u64::MAX, 1, 1);
    let before = ctx;
    assert_eq!(add_liquidity(&mut ctx, 2, 2), Err(ErrorCode::ArithmeticOverflow));
    assert_eq!(ctx, before);
    let mut ctx = pool(u64::MAX, 10, 10);
    let before = ctx;
    assert_eq!(add_liquidity(&mut ctx, 1, 1), Err(ErrorCode::ArithmeticOverflow));
    assert_eq!(ctx, before);
}

#[test]
fn deposit_that_overflows_the_receipt_balance_is_refused() {
    let mut ctx = pool(100, 100, 100);
    ctx.user_receipt = u64::MAX;
    let before = ctx;
    assert_eq!(add_liquidity(&mut ctx, 50, 50), Err(ErrorCode::ArithmeticOverflow));
    assert_eq!(ctx, before);
}

#[test]
fn quote_moves_nothing() {
    assert_eq!(
        quote_deposit(100, 300, 200, 10, 30),
        Ok(Deposit { deposit_a: 10, deposit_b: 30, minted: 20 })
    );
    assert_eq!(quote_deposit(0, 0, 0, 5, 6), Ok(Deposit { deposit_a: 5, deposit_b: 6, minted: 5 }));
    assert_eq!(quote_deposit(100, 300, 200, 10, 29), Err(ErrorCode::InsufficientBalance));
    assert_eq!(quote_deposit(1, u64::MAX, 1, u64::MAX, u64::MAX), Err(ErrorCode::InsufficientBalance));
}

#[test]
fn full_withdrawal_empties_the_pool() {
    let mut ctx = pool(150, 160, 140);
    ctx.user_a = 0;
    ctx.user_b = 0;
    ctx.user_receipt = 150;
    let p = remove_liquidity(&mut ctx, 150).unwrap();
    assert_eq!(p, Payout { payout_a: 160, payout_b: 140 });
    assert_eq!(ctx.pool_state.total_receipt_supply, 0);
    assert_eq!((ctx.reserve_a, ctx.reserve_b), (0, 0));
    assert_eq!((ctx.user_a, ctx.user_b, ctx.user_receipt), (160, 140, 0));
}

#[test]
fn partial_withdrawal_pays_the_share_rounded_down() {
    let mut ctx = pool(150, 160, 140);
    ctx.user_receipt = 100;
    let p = remove_liquidity(&mut ctx, 75).unwrap();
    assert_eq!(p, Payout { payout_a: 80, payout_b: 70 });
    assert_eq!((ctx.reserve_a, ctx.reserve_b), (80, 70));
    assert_eq!(ctx.pool_state.total_receipt_supply, 75);
    assert_eq!(ctx.user_receipt, 25);
    let p = remove_liquidity(&mut ctx, 1).unwrap();
    assert_eq!(p, Payout { payout_a: 1, payout_b: 0 });
    assert_eq!((ctx.reserve_a, ctx.reserve_b), (79, 70));
    assert_eq!(ctx.pool_state.total_receipt_supply, 74);
}

#[test]
fn withdrawal_of_nothing_changes_nothing() {
    let mut ctx = pool(150, 160, 140);
    let p = remove_liquidity(&mut ctx, 0).unwrap();
    assert_eq!(p, Payout { payout_a: 0, payout_b: 0 });
    assert_eq!(ctx, pool(150, 160, 140));
}

#[test]
fn withdrawal_multiplies_in_a_wider_type() {
    let mut ctx = pool(u64::MAX, u64::MAX, u64::MAX - 1);
    ctx.user_a = 0;
    ctx.user_b = 0;
    ctx.user_receipt = 1 << 63;
    let p = remove_liquidity(&mut ctx, 1 << 63).unwrap();
    assert_eq!(p, Payout { payout_a: 1 << 63, payout_b: (1 << 63) - 1 });
}

#[test]
fn withdrawal_needs_the_receipt_tokens() {
    let mut ctx = pool(150, 160, 140);
    ctx.user_receipt = 10;
    let before = ctx;
    assert_eq!(remove_liquidity(&mut ctx, 11), Err(ErrorCode::InsufficientBalance));
    assert_eq!(ctx, before);
}

#[test]
fn withdrawal_beyond_the_supply_is_refused() {
    let mut ctx = pool(150, 160, 140);
    ctx.user_receipt = 500;
    let before = ctx;
    assert_eq!(remove_liquidity(&mut ctx, 151), Err(ErrorCode::BurnExceedsSupply));
    assert_eq!(ctx, before);
}

#[test]
fn withdrawal_from_a_pool_without_supply_divides_by_zero() {
    let mut ctx = pool(0, 0, 0);
    assert_eq!(remove_liquidity(&mut ctx, 0), Err(ErrorCode::ArithmeticOverflow));
    assert_eq!(ctx, pool(0, 0, 0));
}

#[test]
fn withdrawal_that_overflows_a_balance_is_refused() {
    let mut ctx = pool(150, 160, 140);
    ctx.user_receipt = 150;
    ctx.user_b = u64::MAX;
    let before = ctx;
    assert_eq!(remove_liquidity(&mut ctx, 150), Err(ErrorCode::ArithmeticOverflow));
    assert_eq!(ctx, before);
}

#[test]
fn deposit_then_withdraw_returns_no_more_than_was_put_in() {
    let cases = [
        (pool(0, 0, 0), 100, 100),
        (pool(0, 0, 0), 7, 2),
        (pool(100, 100, 100), 50, 50),
        (pool(10, 3, 10), 1, 5),
        (pool(700, 1000, 333), 100, 100),
        (pool(1_000, 999, 1_001), 500, 600),
    ];
    for (start, a, b) in cases {
        let mut ctx = start;
        let d = add_liquidity(&mut ctx, a, b).unwrap();
        assert!(d.minted > 0);
        let p = remove_liquidity(&mut ctx, d.minted).unwrap();
        assert!(p.payout_a <= d.deposit_a);
        assert!(p.payout_b <= d.deposit_b);
        assert_eq!(ctx.pool_state.total_receipt_supply, start.pool_state.total_receipt_supply);
        assert_eq!(ctx.user_receipt, start.user_receipt);
    }
}

#[test]
fn first_deposit_comes_back_whole() {
    let mut ctx = pool(0, 0, 0);
    let d = add_liquidity(&mut ctx, 7, 2).unwrap();
    assert_eq!(d.minted, 4);
    let p = remove_liquidity(&mut ctx, 4).unwrap();
    assert_eq!(p, Payout { payout_a: 7, payout_b: 2 });
    assert_eq!(ctx, pool(0, 0, 0));
}
