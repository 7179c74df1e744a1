use asset_rebalancer::errors::ErrorCode;
use asset_rebalancer::portfolio::Pubkey;
use asset_rebalancer::risk::{
    apply_risk_checks, effective_to_amount, min_expected_amount, DidSwap, ExchangeRate,
};

fn record(
    rate: u64,
    from_decimals: u8,
    quote_decimals: u8,
    strict: bool,
    from_amount: u64,
    to_amount: u64,
    quote_amount: u64,
    spill_amount: u64,
) -> DidSwap {
    DidSwap {
        given_amount: from_amount,
        min_exchange_rate: ExchangeRate { rate, from_decimals, quote_decimals, strict },
        from_amount,
        to_amount,
        quote_amount,
        spill_amount,
        from_mint: Pubkey::new([1; 32]),
        to_mint: Pubkey::new([2; 32]),
        quote_mint: Pubkey::new([3; 32]),
        authority: Pubkey::new([4; 32]),
    }
}

#[test]
fn spill_is_credited_at_the_buy_legs_rate() {
    // 100 sold for 100 quote; 60 quote bought 30 units; 40 quote left over,
    // worth 30 * 40 / 60 = 20 more units
    let e = record(1, 0, 0, false, 100, 30, 100, 40);
    assert_eq!(effective_to_amount(&e), Ok(50));
    // with decimals 2 and 1 every amount is scaled by 10^3
    let e = record(1, 2, 1, false, 100, 30, 100, 40);
    assert_eq!(effective_to_amount(&e), Ok(50_000));
    assert_eq!(min_expected_amount(&e), Ok(1_000));
    assert_eq!(apply_risk_checks(e), Ok(()));
}

#[test]
fn strict_rate_ignores_the_spill() {
    let e = record(1, 2, 1, true, 100, 30, 100, 40);
    assert_eq!(effective_to_amount(&e), Ok(30_000));
}

#[test]
fn strict_flag_is_irrelevant_without_spill() {
    for (decimals, to_amount) in [(0u8, 30u64), (2, 30), (6, 12345)] {
        let loose = record(1, decimals, 1, false, 100, to_amount, 100, 0);
        let strict = record(1, decimals, 1, true, 100, to_amount, 100, 0);
        assert_eq!(effective_to_amount(&loose), effective_to_amount(&strict));
        assert_eq!(apply_risk_checks(loose), apply_risk_checks(strict));
    }
    let e = record(1, 2, 1, false, 100, 30, 100, 0);
    assert_eq!(effective_to_amount(&e), Ok(30_000));
}

#[test]
fn nothing_bought_is_a_zero_swap() {
    let e = record(1, 0, 0, false, 100, 0, 100, 100);
    assert_eq!(apply_risk_checks(e), Err(ErrorCode::ZeroSwap));
}

#[test]
fn rate_below_minimum_is_slippage() {
    // 100 sold at a minimum of 2 per unit asks for 200; 30 bought plus 20
    // credited is 50
    let e = record(2, 0, 0, false, 100, 30, 100, 40);
    assert_eq!(min_expected_amount(&e), Ok(200));
    assert_eq!(apply_risk_checks(e), Err(ErrorCode::SlippageExceeded));
    // exactly at the minimum is accepted
    let e = record(1, 0, 0, false, 50, 30, 100, 40);
    assert_eq!(apply_risk_checks(e), Ok(()));
}

#[test]
fn arithmetic_failures_are_errors() {
    // 10^39 does not fit in 128 bits
    let e = record(1, 0, 39, false, 100, 30, 100, 40);
    assert_eq!(min_expected_amount(&e), Err(ErrorCode::ArithmeticOverflow));
    assert_eq!(apply_risk_checks(e), Err(ErrorCode::ArithmeticOverflow));
    // more left over than received
    let e = record(1, 0, 0, false, 100, 30, 100, 101);
    assert_eq!(effective_to_amount(&e), Err(ErrorCode::ArithmeticOverflow));
    // nothing spent, yet something bought
    let e = record(1, 0, 0, false, 100, 30, 100, 100);
    assert_eq!(effective_to_amount(&e), Err(ErrorCode::DivisionByZero));
    assert_eq!(apply_risk_checks(e), Err(ErrorCode::DivisionByZero));
    // the scaled amount received overflows
    let e = record(1, 30, 8, true, 1, u64::MAX, 100, 0);
    assert_eq!(effective_to_amount(&e), Err(ErrorCode::ArithmeticOverflow));
}
