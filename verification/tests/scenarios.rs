use ammv2::{
    add_liquidity, initialize_pool, remove_liquidity, swap, Deposit, Direction, LiquidityOperation,
    Payout, Swap,
};

#[test]
fn a_pool_from_creation_to_closing() {
    let pool_state = initialize_pool(3, 1000).unwrap();
    let mut provider = LiquidityOperation {
        pool_state,
        reserve_a: 0,
        reserve_b: 0,
        user_a: 150,
        user_b: 150,
        user_receipt: 0,
    };

    let first = add_liquidity(&mut provider, 100, 100).unwrap();
    assert_eq!(first, Deposit { deposit_a: 100, deposit_b: 100, minted: 100 });
    assert_eq!((provider.reserve_a, provider.reserve_b), (100, 100));
    assert_eq!(provider.pool_state.total_receipt_supply, 100);

    let second = add_liquidity(&mut provider, 50, 50).unwrap();
    assert_eq!(second, Deposit { deposit_a: 50, deposit_b: 50, minted: 50 });
    assert_eq!((provider.reserve_a, provider.reserve_b), (150, 150));
    assert_eq!(provider.pool_state.total_receipt_supply, 150);
    assert_eq!((provider.user_a, provider.user_b, provider.user_receipt), (0, 0, 150));

    let mut trader = Swap::new(
        provider.pool_state,
        provider.reserve_a,
        provider.reserve_b,
        10,
        0,
        Direction::AToB,
    );
    assert_eq!(swap(&mut trader, 10, 10), Ok(10));
    assert_eq!((trader.reserve_src, trader.reserve_dst), (160, 140));
    assert_eq!((trader.user_src, trader.user_dst), (0, 10));
    assert_eq!(trader.pool_state.total_receipt_supply, 150);

    provider.pool_state = trader.pool_state;
    provider.reserve_a = trader.reserve_src;
    provider.reserve_b = trader.reserve_dst;
    let closing = remove_liquidity(&mut provider, 150).unwrap();
    assert_eq!(closing, Payout { payout_a: 160, payout_b: 140 });
    assert_eq!(provider.pool_state.total_receipt_supply, 0);
    assert_eq!((provider.reserve_a, provider.reserve_b), (0, 0));
    assert_eq!((provider.user_a, provider.user_b, provider.user_receipt), (160, 140, 0));

    let again = add_liquidity(&mut provider, 10, 30).unwrap();
    assert_eq!(again, Deposit { deposit_a: 10, deposit_b: 30, minted: 20 });
}

#[test]
fn supply_is_zero_exactly_when_the_pool_is_empty() {
    let agrees = |ctx: &LiquidityOperation| {
        (ctx.pool_state.total_receipt_supply == 0) == (ctx.reserve_a == 0 && ctx.reserve_b == 0)
    };
    let mut ctx = LiquidityOperation {
        pool_state: initialize_pool(3, 1000).unwrap(),
        reserve_a: 0,
        reserve_b: 0,
        user_a: 10_000,
        user_b: 10_000,
        user_receipt: 0,
    };
    assert!(agrees(&ctx));
    add_liquidity(&mut ctx, 300, 100).unwrap();
    assert!(agrees(&ctx));
    add_liquidity(&mut ctx, 30, 10).unwrap();
    assert!(agrees(&ctx));
    remove_liquidity(&mut ctx, 1).unwrap();
    assert!(agrees(&ctx));
    let mut trader =
        Swap::new(ctx.pool_state, ctx.reserve_a, ctx.reserve_b, 0, 500, Direction::BToA);
    swap(&mut trader, 500, 0).unwrap();
    ctx.reserve_a = trader.reserve_dst;
    ctx.reserve_b = trader.reserve_src;
    assert!(agrees(&ctx));
    let rest = ctx.user_receipt;
    assert_eq!(rest, ctx.pool_state.total_receipt_supply);
    remove_liquidity(&mut ctx, rest).unwrap();
    assert!(agrees(&ctx));
    assert_eq!(ctx.pool_state.total_receipt_supply, 0);
}
