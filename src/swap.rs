//! The two-leg swap through the quote currency, one settled leg at a time.

use vstd::prelude::*;

use crate::errors::ErrorCode;
use crate::portfolio::Pubkey;
use crate::risk::{apply_risk_checks, risk_outcome, DidSwap, ExchangeRate};

verus! {

/// Side of an order book order.
#[derive(Clone, Copy, Debug, PartialEq, Eq, Structural)]
pub enum Side {
    Bid,
    Ask,
}

/// Which risk asset is sold in the first leg and bought in the second.
#[derive(Clone, Copy, Debug, PartialEq, Eq, Structural)]
pub enum SwapDirection {
    /// Sell asset A, buy asset B.
    AB,
    /// Sell asset B, buy asset A.
    BA,
}

/// An Immediate-Or-Cancel order to place on one market: whatever does not
/// match at once is cancelled, nothing rests on the book.
#[derive(Clone, Copy, Debug, PartialEq, Eq, Structural)]
pub struct NewOrder {
    pub side: Side,
    /// Limit price, in lots.
    pub limit_price: u64,
    /// Most base-asset lots to trade.
    pub max_coin_qty: u64,
    /// Most quote currency to trade, in native units.
    pub max_native_pc_qty: u64,
}

/// What the swap logic reads of one asset/quote market and the portfolio's
/// wallet of that asset.
#[derive(Clone, Copy, Debug, PartialEq, Eq)]
pub struct MarketAccounts {
    /// Mint of the portfolio wallet holding the market's base asset.
    pub coin_mint: Pubkey,
    /// Granularity of the base asset on this market, in native units.
    pub coin_lot_size: u64,
}

/// Order builder for one market.
#[derive(Clone, Copy, Debug, PartialEq, Eq)]
pub struct OrderbookClient {
    pub market: MarketAccounts,
}

/// The two markets of a portfolio, its quote currency and its signing
/// authority.
#[derive(Clone, Copy, Debug, PartialEq, Eq)]
pub struct Rebalance {
    pub token_a_market: MarketAccounts,
    pub token_b_market: MarketAccounts,
    pub pc_mint: Pubkey,
    pub vault_signer: Pubkey,
}

/// A wallet's balance of one asset together with the quote wallet's
/// balance, read at the same moment.
#[derive(Clone, Copy, Debug, PartialEq, Eq, Structural)]
pub struct BalanceSnapshot {
    pub asset: u64,
    pub quote: u64,
}

/// Number of whole lots in `size`.
pub open spec fn lots_of(market: MarketAccounts, size: u64) -> Result<u64, ErrorCode> {
    if market.coin_lot_size == 0 {
        Err(ErrorCode::DivisionByZero)
    } else {
        Ok((size / market.coin_lot_size) as u64)
    }
}

/// The sell order for `base_amount`: at any price, rounded down to whole
/// lots, with no ceiling on the quote currency received.
pub open spec fn sell_order(market: MarketAccounts, base_amount: u64) -> Result<NewOrder, ErrorCode> {
    match lots_of(market, base_amount) {
        Err(e) => Err(e),
        Ok(lots) => if lots == 0 {
            Err(ErrorCode::ZeroSwap)
        } else {
            Ok(
                NewOrder {
                    side: Side::Ask,
                    limit_price: 1,
                    max_coin_qty: lots,
                    max_native_pc_qty: u64::MAX,
                },
            )
        },
    }
}

/// The buy order spending up to `quote_amount`: at any price, with no
/// ceiling on the base asset received.
pub open spec fn buy_order(quote_amount: u64) -> Result<NewOrder, ErrorCode> {
    if quote_amount == 0 {
        Err(ErrorCode::ZeroSwap)
    } else {
        Ok(
            NewOrder {
                side: Side::Bid,
                limit_price: u64::MAX,
                max_coin_qty: u64::MAX,
                max_native_pc_qty: quote_amount,
            },
        )
    }
}

/// Number of whole lots of the market's base asset in `size`; fails with
/// `DivisionByZero` on a market without a lot size.
pub fn coin_lots(market: &MarketAccounts, size: u64) -> (r: Result<u64, ErrorCode>)
    ensures
        r == lots_of(*market, size),
{
    match size.checked_div(market.coin_lot_size) {
        Some(lots) => Ok(lots),
        None => Err(ErrorCode::DivisionByZero),
    }
}

impl OrderbookClient {
    /// The order that sells `base_amount` native units of the base asset for
    /// as much quote currency as the book gives. An amount below one lot
    /// fails with `ZeroSwap`: it can sell nothing.
    pub fn sell(&self, base_amount: u64) -> (r: Result<NewOrder, ErrorCode>)
        ensures
            r == sell_order(self.market, base_amount),
    {
        let max_coin_qty = match coin_lots(&self.market, base_amount) {
            Ok(lots) => lots,
            Err(e) => return Err(e),
        };
        if max_coin_qty == 0 {
            return Err(ErrorCode::ZeroSwap);
        }
        Ok(
            NewOrder {
                side: Side::Ask,
                limit_price: 1,
                max_coin_qty,
                max_native_pc_qty: u64::MAX,
            },
        )
    }

    /// The order that buys as much of the base asset as `quote_amount`
    /// native units of quote currency pay for. No quote currency fails with
    /// `ZeroSwap`: it can buy nothing.
    pub fn buy(&self, quote_amount: u64) -> (r: Result<NewOrder, ErrorCode>)
        ensures
            r == buy_order(quote_amount),
    {
        if quote_amount == 0 {
            return Err(ErrorCode::ZeroSwap);
        }
        Ok(
            NewOrder {
                side: Side::Bid,
                limit_price: u64::MAX,
                max_coin_qty: u64::MAX,
                max_native_pc_qty: quote_amount,
            },
        )
    }
}

impl Rebalance {
    /// The market on which the first leg sells.
    pub open spec fn source_market(&self, swap_direction: SwapDirection) -> MarketAccounts {
        match swap_direction {
            SwapDirection::AB => self.token_a_market,
            SwapDirection::BA => self.token_b_market,
        }
    }

    /// The market on which the second leg buys.
    pub open spec fn destination_market(&self, swap_direction: SwapDirection) -> MarketAccounts {
        match swap_direction {
            SwapDirection::AB => self.token_b_market,
            SwapDirection::BA => self.token_a_market,
        }
    }

    pub fn orderbook_from(&self, swap_direction: SwapDirection) -> (r: OrderbookClient)
        ensures
            r.market == self.source_market(swap_direction),
    {
        match swap_direction {
            SwapDirection::AB => OrderbookClient { market: self.token_a_market },
            SwapDirection::BA => OrderbookClient { market: self.token_b_market },
        }
    }

    pub fn orderbook_to(&self, swap_direction: SwapDirection) -> (r: OrderbookClient)
        ensures
            r.market == self.destination_market(swap_direction),
    {
        match swap_direction {
            SwapDirection::AB => OrderbookClient { market: self.token_b_market },
            SwapDirection::BA => OrderbookClient { market: self.token_a_market },
        }
    }
}

/// Fails with `SwapTokensCannotMatch` when both markets trade the same
/// mint.
pub fn is_valid_swap_transitive(ctx: &Rebalance) -> (r: Result<(), ErrorCode>)
    ensures
        r is Ok <==> ctx.token_a_market.coin_mint.bytes@ != ctx.token_b_market.coin_mint.bytes@,
        r is Err ==> r == Err::<(), ErrorCode>(ErrorCode::SwapTokensCannotMatch),
{
    if ctx.token_a_market.coin_mint.same_as(&ctx.token_b_market.coin_mint) {
        Err(ErrorCode::SwapTokensCannotMatch)
    } else {
        Ok(())
    }
}

/// How far a swap session has come.
#[derive(Clone, Copy, Debug, PartialEq, Eq, Structural)]
pub enum SwapStage {
    /// The sell order has been handed out; its settled balances are awaited.
    Selling,
    /// The buy order has been handed out; its settled balances are awaited.
    Buying,
}

/// A two-leg swap through the shared quote currency: sell the source asset,
/// then spend what it brought on the destination asset.
///
/// The host places each order the session hands out, settles it, reads the
/// balances and hands them back. Every figure of the audit record is the
/// difference of two such readings.
#[derive(Clone, Copy, Debug, PartialEq, Eq)]
pub struct TransitiveSwap {
    pub ctx: Rebalance,
    pub swap_direction: SwapDirection,
    pub given_amount: u64,
    pub min_exchange_rate: ExchangeRate,
    pub stage: SwapStage,
    /// Source asset and quote balances before the sell leg.
    pub sell_before: BalanceSnapshot,
    /// Units of the source asset the sell leg took.
    pub from_amount: u64,
    /// Quote currency the sell leg brought.
    pub quote_amount: u64,
    /// Destination asset and quote balances before the buy leg.
    pub buy_before: BalanceSnapshot,
}

/// The audit record of a swap whose buy leg ended with `after`.
pub open spec fn swap_record(s: TransitiveSwap, after: BalanceSnapshot) -> DidSwap {
    DidSwap {
        given_amount: s.given_amount,
        min_exchange_rate: s.min_exchange_rate,
        from_amount: s.from_amount,
        to_amount: (after.asset - s.buy_before.asset) as u64,
        quote_amount: s.quote_amount,
        spill_amount: (s.quote_amount - (s.buy_before.quote - after.quote)) as u64,
        from_mint: s.ctx.source_market(s.swap_direction).coin_mint,
        to_mint: s.ctx.destination_market(s.swap_direction).coin_mint,
        quote_mint: s.ctx.pc_mint,
        authority: s.ctx.vault_signer,
    }
}

/// Starts a swap of `amount` native units of the source asset, given the
/// balances of the source wallet and the quote wallet before it. Returns
/// the session and the sell order to place.
pub fn swap_transitive(
    ctx: &Rebalance,
    swap_direction: SwapDirection,
    amount: u64,
    min_exchange_rate: ExchangeRate,
    before: BalanceSnapshot,
) -> (r: Result<(TransitiveSwap, NewOrder), ErrorCode>)
    ensures
        ctx.token_a_market.coin_mint.bytes@ == ctx.token_b_market.coin_mint.bytes@ ==> r
            == Err::<(TransitiveSwap, NewOrder), ErrorCode>(ErrorCode::SwapTokensCannotMatch),
        ctx.token_a_market.coin_mint.bytes@ != ctx.token_b_market.coin_mint.bytes@ ==> ({
            let order = sell_order(ctx.source_market(swap_direction), amount);
            &&& r is Ok <==> order is Ok
            &&& r is Err ==> r->Err_0 == order->Err_0
            &&& r is Ok ==> r->Ok_0.1 == order->Ok_0
        }),
        r is Ok ==> ({
            let s = r->Ok_0.0;
            &&& s.ctx == *ctx
            &&& s.swap_direction == swap_direction
            &&& s.given_amount == amount
            &&& s.min_exchange_rate == min_exchange_rate
            &&& s.stage == SwapStage::Selling
            &&& s.sell_before == before
        }),
{
    match is_valid_swap_transitive(ctx) {
        Ok(()) => {},
        Err(e) => return Err(e),
    }
    let order = match ctx.orderbook_from(swap_direction).sell(amount) {
        Ok(o) => o,
        Err(e) => return Err(e),
    };
    let session = TransitiveSwap {
        ctx: *ctx,
        swap_direction,
        given_amount: amount,
        min_exchange_rate,
        stage: SwapStage::Selling,
        sell_before: before,
        from_amount: 0,
        quote_amount: 0,
        buy_before: BalanceSnapshot { asset: 0, quote: 0 },
    };
    Ok((session, order))
}

impl TransitiveSwap {
    /// The sell leg has settled: `after` holds the source and quote balances
    /// now, `to_balance` the destination balance before the buy leg. Records
    /// what was sold and received and returns the buy order, which spends
    /// all of it.
    ///
    /// A balance that moved the wrong way fails with `ArithmeticOverflow`;
    /// then the session is left as it was.
    pub fn sell_settled(&mut self, after: BalanceSnapshot, to_balance: u64) -> (r: Result<
        NewOrder,
        ErrorCode,
    >)
        requires
            old(self).stage == SwapStage::Selling,
        ensures
            ({
                let sold = old(self).sell_before.asset - after.asset;
                let received = after.quote - old(self).sell_before.quote;
                &&& (sold < 0 || received < 0) ==> r == Err::<NewOrder, ErrorCode>(
                    ErrorCode::ArithmeticOverflow,
                )
                &&& (sold >= 0 && received >= 0) ==> r == buy_order(received as u64)
                &&& r is Ok ==> *final(self) == (TransitiveSwap {
                    stage: SwapStage::Buying,
                    from_amount: sold as u64,
                    quote_amount: received as u64,
                    buy_before: BalanceSnapshot { asset: to_balance, quote: after.quote },
                    ..*old(self)
                })
                &&& r is Err ==> *final(self) == *old(self)
            }),
    {
        if after.asset > self.sell_before.asset || after.quote < self.sell_before.quote {
            return Err(ErrorCode::ArithmeticOverflow);
        }
        let from_amount = self.sell_before.asset - after.asset;
        let quote_amount = after.quote - self.sell_before.quote;
        let order = match self.ctx.orderbook_to(self.swap_direction).buy(quote_amount) {
            Ok(o) => o,
            Err(e) => return Err(e),
        };
        self.stage = SwapStage::Buying;
        self.from_amount = from_amount;
        self.quote_amount = quote_amount;
        self.buy_before = BalanceSnapshot { asset: to_balance, quote: after.quote };
        Ok(order)
    }

    /// The buy leg has settled: `after` holds the destination and quote
    /// balances now. Builds the audit record of the swap and returns it when
    /// the risk checks accept it.
    ///
    /// Fails with `ArithmeticOverflow` when a balance moved the wrong way or
    /// the buy leg spent more than the sell leg brought, and otherwise as the
    /// risk checks do on the record.
    pub fn buy_settled(&self, after: BalanceSnapshot) -> (r: Result<DidSwap, ErrorCode>)
        requires
            self.stage == SwapStage::Buying,
        ensures
            ({
                let bought = after.asset - self.buy_before.asset;
                let spent = self.buy_before.quote - after.quote;
                let moved_right = bought >= 0 && spent >= 0 && spent <= self.quote_amount;
                &&& !moved_right ==> r == Err::<DidSwap, ErrorCode>(ErrorCode::ArithmeticOverflow)
                &&& moved_right && bought == 0 ==> r == Err::<DidSwap, ErrorCode>(ErrorCode::ZeroSwap)
                &&& moved_right ==> (r is Ok <==> risk_outcome(swap_record(*self, after)) is Ok)
                &&& moved_right && r is Ok ==> r->Ok_0 == swap_record(*self, after)
                &&& moved_right && r is Err ==> r->Err_0 == risk_outcome(
                    swap_record(*self, after),
                )->Err_0
            }),
    {
        if after.asset < self.buy_before.asset || after.quote > self.buy_before.quote {
            return Err(ErrorCode::ArithmeticOverflow);
        }
        let to_amount = after.asset - self.buy_before.asset;
        let quote_spent = self.buy_before.quote - after.quote;
        if quote_spent > self.quote_amount {
            return Err(ErrorCode::ArithmeticOverflow);
        }
        let spill_amount = self.quote_amount - quote_spent;
        let event = DidSwap {
            given_amount: self.given_amount,
            min_exchange_rate: self.min_exchange_rate,
            from_amount: self.from_amount,
            to_amount,
            quote_amount: self.quote_amount,
            spill_amount,
            from_mint: self.ctx.orderbook_from(self.swap_direction).market.coin_mint,
            to_mint: self.ctx.orderbook_to(self.swap_direction).market.coin_mint,
            quote_mint: self.ctx.pc_mint,
            authority: self.ctx.vault_signer,
        };
        match apply_risk_checks(event) {
            Ok(()) => Ok(event),
            Err(e) => Err(e),
        }
    }
}

} // verus!
