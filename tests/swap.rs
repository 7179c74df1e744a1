use asset_rebalancer::errors::ErrorCode;
use asset_rebalancer::portfolio::Pubkey;
use asset_rebalancer::risk::ExchangeRate;
use asset_rebalancer::swap::{
    coin_lots, swap_transitive, BalanceSnapshot, MarketAccounts, NewOrder, OrderbookClient,
    Rebalance, Side, SwapDirection, SwapStage,
};

fn markets(lot_a: u64, lot_b: u64) -> Rebalance {
    Rebalance {
        token_a_market: MarketAccounts { coin_mint: Pubkey::new([1; 32]), coin_lot_size: lot_a },
        token_b_market: MarketAccounts { coin_mint: Pubkey::new([2; 32]), coin_lot_size: lot_b },
        pc_mint: Pubkey::new([3; 32]),
        vault_signer: Pubkey::new([9; 32]),
    }
}

fn loose_rate() -> ExchangeRate {
    ExchangeRate { rate: 1, from_decimals: 0, quote_decimals: 0, strict: false }
}

#[test]
fn sell_order_is_rounded_to_lots() {
    let client = OrderbookClient {
        market: MarketAccounts { coin_mint: Pubkey::new([1; 32]), coin_lot_size: 10 },
    };
    assert_eq!(
        client.sell(125),
        Ok(NewOrder { side: Side::Ask, limit_price: 1, max_coin_qty: 12, max_native_pc_qty: u64::MAX })
    );
    assert_eq!(client.sell(9), Err(ErrorCode::ZeroSwap));
    assert_eq!(
        client.buy(60),
        Ok(NewOrder { side: Side::Bid, limit_price: u64::MAX, max_coin_qty: u64::MAX, max_native_pc_qty: 60 })
    );
    assert_eq!(client.buy(0), Err(ErrorCode::ZeroSwap));
}

#[test]
fn lots_need_a_lot_size() {
    let market = MarketAccounts { coin_mint: Pubkey::new([1; 32]), coin_lot_size: 0 };
    assert_eq!(coin_lots(&market, 100), Err(ErrorCode::DivisionByZero));
    let market = MarketAccounts { coin_mint: Pubkey::new([1; 32]), coin_lot_size: 7 };
    assert_eq!(coin_lots(&market, 100), Ok(14));
}

#[test]
fn direction_picks_the_markets() {
    let ctx = markets(10, 20);
    assert_eq!(ctx.orderbook_from(SwapDirection::AB).market, ctx.token_a_market);
    assert_eq!(ctx.orderbook_to(SwapDirection::AB).market, ctx.token_b_market);
    assert_eq!(ctx.orderbook_from(SwapDirection::BA).market, ctx.token_b_market);
    assert_eq!(ctx.orderbook_to(SwapDirection::BA).market, ctx.token_a_market);
}

#[test]
fn same_mint_on_both_sides_is_refused() {
    let mut ctx = markets(1, 1);
    ctx.token_b_market.coin_mint = ctx.token_a_market.coin_mint;
    let before = BalanceSnapshot { asset: 1000, quote: 0 };
    let r = swap_transitive(&ctx, SwapDirection::AB, 100, loose_rate(), before);
    assert_eq!(r.err(), Some(ErrorCode::SwapTokensCannotMatch));
}

#[test]
fn two_legs_with_spill_produce_the_audit_record() {
    let ctx = markets(1, 1);
    let (mut session, sell) =
        swap_transitive(&ctx, SwapDirection::AB, 100, loose_rate(), BalanceSnapshot { asset: 1000, quote: 5 })
            .unwrap();
    assert_eq!(sell.max_coin_qty, 100);
    assert_eq!(session.stage, SwapStage::Selling);
    // the sell leg took 100 units of A and brought 100 quote
    let buy = session.sell_settled(BalanceSnapshot { asset: 900, quote: 105 }, 7).unwrap();
    assert_eq!(buy.max_native_pc_qty, 100);
    assert_eq!(session.stage, SwapStage::Buying);
    // the buy leg spent 60 quote on 150 units of B; with the 40 quote left
    // over valued at that rate the swap delivered 250 for 100
    let record = session.buy_settled(BalanceSnapshot { asset: 157, quote: 45 }).unwrap();
    assert_eq!(record.given_amount, 100);
    assert_eq!(record.from_amount, 100);
    assert_eq!(record.to_amount, 150);
    assert_eq!(record.quote_amount, 100);
    assert_eq!(record.spill_amount, 40);
    assert_eq!(record.from_mint, ctx.token_a_market.coin_mint);
    assert_eq!(record.to_mint, ctx.token_b_market.coin_mint);
    assert_eq!(record.quote_mint, ctx.pc_mint);
    assert_eq!(record.authority, ctx.vault_signer);
}

#[test]
fn two_legs_below_the_minimum_rate_are_slippage() {
    let ctx = markets(1, 1);
    let (mut session, _) =
        swap_transitive(&ctx, SwapDirection::AB, 100, loose_rate(), BalanceSnapshot { asset: 1000, quote: 5 })
            .unwrap();
    session.sell_settled(BalanceSnapshot { asset: 900, quote: 105 }, 7).unwrap();
    // 30 bought with 60 quote, 40 left over: 30 + 20 is below 100
    assert_eq!(
        session.buy_settled(BalanceSnapshot { asset: 37, quote: 45 }),
        Err(ErrorCode::SlippageExceeded)
    );
}

#[test]
fn buy_leg_filling_nothing_is_a_zero_swap() {
    let ctx = markets(1, 1);
    let vault_a = 1000u64;
    let vault_b = 7u64;
    let quote = 5u64;
    let (mut session, _sell) = swap_transitive(
        &ctx,
        SwapDirection::AB,
        100,
        loose_rate(),
        BalanceSnapshot { asset: vault_a, quote },
    )
    .unwrap();
    session.sell_settled(BalanceSnapshot { asset: vault_a - 100, quote: quote + 100 }, vault_b).unwrap();
    let after_buy = BalanceSnapshot { asset: vault_b, quote: quote + 100 };
    assert_eq!(session.buy_settled(after_buy), Err(ErrorCode::ZeroSwap));
    // the session hands back nothing to commit, so the host aborts the
    // invocation and the vaults keep their balances from before it
}

#[test]
fn balances_moving_the_wrong_way_are_errors() {
    let ctx = markets(1, 1);
    let (mut session, _) =
        swap_transitive(&ctx, SwapDirection::BA, 50, loose_rate(), BalanceSnapshot { asset: 80, quote: 10 })
            .unwrap();
    let kept = session;
    // the source balance grew
    assert_eq!(
        session.sell_settled(BalanceSnapshot { asset: 90, quote: 20 }, 0),
        Err(ErrorCode::ArithmeticOverflow)
    );
    assert_eq!(session, kept);
    // nothing came in for the sale: no buy order can be placed
    assert_eq!(session.sell_settled(BalanceSnapshot { asset: 30, quote: 10 }, 0), Err(ErrorCode::ZeroSwap));
    session.sell_settled(BalanceSnapshot { asset: 30, quote: 40 }, 3).unwrap();
    // the buy leg spent more than the sale brought
    assert_eq!(
        session.buy_settled(BalanceSnapshot { asset: 10, quote: 5 }),
        Err(ErrorCode::ArithmeticOverflow)
    );
}
