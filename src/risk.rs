//! The verdict on an executed swap: its effective rate against the minimum.

use vstd::prelude::*;

use crate::errors::ErrorCode;
use crate::portfolio::Pubkey;
use crate::scale::{checked_pow10, lemma_pow10_positive, pow10};

verus! {

/// The least acceptable rate for swapping *from* one asset *to* another.
#[derive(Clone, Copy, Debug, PartialEq, Eq)]
pub struct ExchangeRate {
    /// Units of the *to* asset owed for one unit of the *from* asset, in
    /// native units of the *to* asset.
    pub rate: u64,
    /// Decimals of the *from* asset.
    pub from_decimals: u8,
    /// Decimals of the quote currency both markets trade against.
    pub quote_decimals: u8,
    /// When set, quote currency left over by the buy leg is not credited to
    /// the amount received.
    pub strict: bool,
}

/// Audit record of one two-leg swap: what was asked, what was sold, bought
/// and left over.
#[derive(Clone, Copy, Debug, PartialEq, Eq)]
pub struct DidSwap {
    /// Amount of the *from* asset the swap was asked to sell.
    pub given_amount: u64,
    pub min_exchange_rate: ExchangeRate,
    /// Units of the *from* asset actually sold.
    pub from_amount: u64,
    /// Units of the *to* asset actually bought.
    pub to_amount: u64,
    /// Quote currency received by the sell leg.
    pub quote_amount: u64,
    /// Quote currency received by the sell leg and not spent by the buy leg.
    pub spill_amount: u64,
    pub from_mint: Pubkey,
    pub to_mint: Pubkey,
    pub quote_mint: Pubkey,
    pub authority: Pubkey,
}

pub open spec fn fits_u128(x: nat) -> bool {
    x <= u128::MAX
}

/// The least amount of the *to* asset the rate accepts for what was sold,
/// in the common base of from, to and quote decimals.
pub open spec fn min_expected(e: DidSwap) -> nat {
    e.from_amount as nat * e.min_exchange_rate.rate as nat * pow10(
        e.min_exchange_rate.quote_decimals as nat,
    )
}

/// Whether leftover quote currency is credited to the amount received.
pub open spec fn credits_spill(e: DidSwap) -> bool {
    e.spill_amount != 0 && !e.min_exchange_rate.strict
}

/// The *to* amount brought into the common base of decimals.
pub open spec fn to_in_common_base(e: DidSwap) -> nat {
    e.to_amount as nat * pow10(e.min_exchange_rate.from_decimals as nat) * pow10(
        e.min_exchange_rate.quote_decimals as nat,
    )
}

/// The numerator of the spill credit: bought amount times leftover quote, in
/// the common base.
pub open spec fn spill_product(e: DidSwap) -> nat {
    e.to_amount as nat * e.spill_amount as nat * pow10(e.min_exchange_rate.from_decimals as nat)
        * pow10(e.min_exchange_rate.quote_decimals as nat)
}

/// Leftover quote currency valued at the buy leg's achieved rate (units
/// bought per unit of quote spent), rounded down.
pub open spec fn spill_surplus(e: DidSwap) -> nat {
    if credits_spill(e) && e.spill_amount < e.quote_amount {
        spill_product(e) / ((e.quote_amount - e.spill_amount) as nat)
    } else {
        0
    }
}

/// The amount received, with leftover quote currency credited when allowed.
pub open spec fn effective_to(e: DidSwap) -> nat {
    to_in_common_base(e) + spill_surplus(e)
}

pub open spec fn min_expected_outcome(e: DidSwap) -> Result<u128, ErrorCode> {
    if fits_u128(pow10(e.min_exchange_rate.quote_decimals as nat)) && fits_u128(min_expected(e)) {
        Ok(min_expected(e) as u128)
    } else {
        Err(ErrorCode::ArithmeticOverflow)
    }
}

/// Both decimal scale factors fit in 128 bits.
pub open spec fn scales_fit(e: DidSwap) -> bool {
    fits_u128(pow10(e.min_exchange_rate.from_decimals as nat)) && fits_u128(
        pow10(e.min_exchange_rate.quote_decimals as nat),
    )
}

pub open spec fn effective_outcome(e: DidSwap) -> Result<u128, ErrorCode> {
    if !scales_fit(e) {
        Err(ErrorCode::ArithmeticOverflow)
    } else if credits_spill(e) && !(fits_u128(spill_product(e)) && e.spill_amount
        <= e.quote_amount) {
        Err(ErrorCode::ArithmeticOverflow)
    } else if credits_spill(e) && e.spill_amount == e.quote_amount {
        Err(ErrorCode::DivisionByZero)
    } else if fits_u128(effective_to(e)) {
        Ok(effective_to(e) as u128)
    } else {
        Err(ErrorCode::ArithmeticOverflow)
    }
}

/// The verdict on a swap: nothing bought, an overflow or a zero divisor on
/// the way, a rate below the minimum, or acceptance.
pub open spec fn risk_outcome(e: DidSwap) -> Result<(), ErrorCode> {
    if e.to_amount == 0 {
        Err(ErrorCode::ZeroSwap)
    } else if min_expected_outcome(e) is Err {
        Err(ErrorCode::ArithmeticOverflow)
    } else if effective_outcome(e) is Err {
        Err(effective_outcome(e)->Err_0)
    } else if effective_to(e) < min_expected(e) {
        Err(ErrorCode::SlippageExceeded)
    } else {
        Ok(())
    }
}

proof fn lemma_mul_at_least(x: nat, y: nat)
    requires
        y >= 1,
    ensures
        x * y >= x,
{
    assert(x * y >= x) by (nonlinear_arith)
        requires
            y >= 1,
    ;
}

proof fn lemma_u64_product_fits(x: u64, y: u64)
    ensures
        x as nat * y as nat <= u128::MAX,
{
    assert(x as nat * y as nat <= u64::MAX as nat * u64::MAX as nat) by (nonlinear_arith)
        requires
            x <= u64::MAX,
            y <= u64::MAX,
    ;
}

/// `from_amount * rate * 10^quote_decimals`, the least amount the rate
/// accepts, in the common base of decimals.
pub fn min_expected_amount(event: &DidSwap) -> (r: Result<u128, ErrorCode>)
    ensures
        r == min_expected_outcome(*event),
{
    let rate = &event.min_exchange_rate;
    proof {
        lemma_u64_product_fits(event.from_amount, rate.rate);
    }
    let sold_at_rate: u128 = (event.from_amount as u128) * (rate.rate as u128);
    let quote_scale = match checked_pow10(rate.quote_decimals) {
        Some(p) => p,
        None => return Err(ErrorCode::ArithmeticOverflow),
    };
    match sold_at_rate.checked_mul(quote_scale) {
        Some(m) => Ok(m),
        None => Err(ErrorCode::ArithmeticOverflow),
    }
}

/// The amount of the *to* asset received, in the common base of decimals,
/// with leftover quote currency credited at the buy leg's rate unless the
/// rate is strict or nothing was left over.
pub fn effective_to_amount(event: &DidSwap) -> (r: Result<u128, ErrorCode>)
    ensures
        r == effective_outcome(*event),
{
    let rate = &event.min_exchange_rate;
    let e = *event;
    let from_scale = match checked_pow10(rate.from_decimals) {
        Some(p) => p,
        None => return Err(ErrorCode::ArithmeticOverflow),
    };
    let quote_scale = match checked_pow10(rate.quote_decimals) {
        Some(p) => p,
        None => return Err(ErrorCode::ArithmeticOverflow),
    };
    proof {
        lemma_pow10_positive(rate.from_decimals as nat);
        lemma_pow10_positive(rate.quote_decimals as nat);
        lemma_u64_product_fits(event.to_amount, event.spill_amount);
    }
    let surplus: u128 = if event.spill_amount == 0 || rate.strict {
        0
    } else {
        let bought_times_spill: u128 = (event.to_amount as u128) * (event.spill_amount as u128);
        let with_from = match bought_times_spill.checked_mul(from_scale) {
            Some(m) => m,
            None => {
                proof {
                    lemma_mul_at_least(bought_times_spill as nat * from_scale as nat, quote_scale as nat);
                }
                return Err(ErrorCode::ArithmeticOverflow);
            },
        };
        let numerator = match with_from.checked_mul(quote_scale) {
            Some(m) => m,
            None => return Err(ErrorCode::ArithmeticOverflow),
        };
        if event.spill_amount > event.quote_amount {
            return Err(ErrorCode::ArithmeticOverflow);
        }
        let quote_spent = event.quote_amount - event.spill_amount;
        if quote_spent == 0 {
            return Err(ErrorCode::DivisionByZero);
        }
        numerator / (quote_spent as u128)
    };
    let with_from = match (event.to_amount as u128).checked_mul(from_scale) {
        Some(m) => m,
        None => {
            proof {
                lemma_mul_at_least(event.to_amount as nat * from_scale as nat, quote_scale as nat);
            }
            return Err(ErrorCode::ArithmeticOverflow);
        },
    };
    let to_scaled = match with_from.checked_mul(quote_scale) {
        Some(m) => m,
        None => return Err(ErrorCode::ArithmeticOverflow),
    };
    assert(surplus == spill_surplus(e));
    match to_scaled.checked_add(surplus) {
        Some(total) => Ok(total),
        None => Err(ErrorCode::ArithmeticOverflow),
    }
}

/// Accepts the swap or rejects it: `ZeroSwap` when nothing was bought,
/// `SlippageExceeded` when the effective amount received is below what the
/// minimum rate asks for, and the arithmetic errors of the two amounts.
pub fn apply_risk_checks(event: DidSwap) -> (r: Result<(), ErrorCode>)
    ensures
        r == risk_outcome(event),
{
    if event.to_amount == 0 {
        return Err(ErrorCode::ZeroSwap);
    }
    let min_expected_amount = match min_expected_amount(&event) {
        Ok(m) => m,
        Err(_) => return Err(ErrorCode::ArithmeticOverflow),
    };
    let effective_to_amount = match effective_to_amount(&event) {
        Ok(m) => m,
        Err(err) => return Err(err),
    };
    if effective_to_amount < min_expected_amount {
        return Err(ErrorCode::SlippageExceeded);
    }
    Ok(())
}

/// With no quote currency left over, the strict flag changes neither the
/// effective amount received nor the verdict on the swap.
pub proof fn lemma_strict_irrelevant_without_spill(event: DidSwap, strict: bool)
    requires
        event.spill_amount == 0,
    ensures
        ({
            let other = DidSwap {
                min_exchange_rate: ExchangeRate { strict, ..event.min_exchange_rate },
                ..event
            };
            &&& effective_to(other) == effective_to(event)
            &&& effective_outcome(other) == effective_outcome(event)
            &&& risk_outcome(other) == risk_outcome(event)
        }),
{
}

} // verus!
