//! The rebalance decision and the report after it.

use vstd::prelude::*;

use crate::allocation::{
    calculate_assets_percentage_worth_in_vault, lemma_shares_sum, percent_of_worth, share_fits,
    worth,
};
use crate::errors::ErrorCode;
use crate::portfolio::{PortfolioInfo, PER_MILLE};
use crate::risk::ExchangeRate;
use crate::scale::{checked_pow10, lemma_pow10_positive, pow10};
use crate::swap::SwapDirection;

verus! {

/// Cached prices older than this many seconds are not used for decisions.
pub const PRICE_MAX_AGE_SECS: i64 = 60;

/// The swap a rebalance calls for.
#[derive(Clone, Copy, Debug, PartialEq, Eq)]
pub struct SwapPlan {
    pub swap_direction: SwapDirection,
    /// Native units of the overweight asset to sell.
    pub amount: u64,
    pub min_exchange_rate: ExchangeRate,
}

/// Report of a completed rebalance: the worth of each vault after it, and
/// the target shares.
#[derive(Clone, Copy, Debug, PartialEq, Eq, Structural)]
pub struct AssetsBalanced {
    pub new_token_a_worth: u64,
    pub token_a_percentage: u16,
    pub new_token_b_worth: u64,
    pub token_b_percentage: u16,
}

/// The cached prices are younger than the freshness window at `now`.
pub open spec fn prices_fresh(p: PortfolioInfo, now: i64) -> bool {
    now - p.last_update_unix < PRICE_MAX_AGE_SECS
}

/// Both assets' decimal scale factors fit in 64 bits.
pub open spec fn unit_scales_fit(p: PortfolioInfo) -> bool {
    pow10(p.token_a_decimals as nat) <= u64::MAX && pow10(p.token_b_decimals as nat) <= u64::MAX
}

/// A raw vault balance in whole units: sub-unit amounts are dropped.
pub open spec fn whole_units(raw: u64, decimals: u8) -> nat {
    raw as nat / pow10(decimals as nat)
}

/// Worth of vault A: its whole units times the cached price of A, read as an
/// unsigned 64-bit integer.
pub open spec fn worth_a(p: PortfolioInfo, raw_a: u64) -> nat {
    worth(whole_units(raw_a, p.token_a_decimals) as u64, p.token_a_price as u64)
}

pub open spec fn worth_b(p: PortfolioInfo, raw_b: u64) -> nat {
    worth(whole_units(raw_b, p.token_b_decimals) as u64, p.token_b_price as u64)
}

/// Current share of asset A, in thousandths.
pub open spec fn current_pct_a(p: PortfolioInfo, raw_a: u64, raw_b: u64) -> int {
    percent_of_worth(worth_a(p, raw_a), worth_b(p, raw_b))
}

/// Current share of asset B, computed on its own, in thousandths.
pub open spec fn current_pct_b(p: PortfolioInfo, raw_a: u64, raw_b: u64) -> int {
    percent_of_worth(worth_b(p, raw_b), worth_a(p, raw_a))
}

/// The order of the swap that sells `pct` thousandths of a vault holding
/// `raw` native units, or an overflow.
pub open spec fn swap_plan(
    raw: u64,
    pct: int,
    swap_direction: SwapDirection,
    from_decimals: u8,
    quote_decimals: u8,
) -> Result<Option<SwapPlan>, ErrorCode> {
    if raw * pct > u64::MAX {
        Err(ErrorCode::ArithmeticOverflow)
    } else {
        Ok(
            Some(
                SwapPlan {
                    swap_direction,
                    amount: (raw * pct / 1000) as u64,
                    min_exchange_rate: ExchangeRate {
                        rate: 1,
                        from_decimals,
                        quote_decimals,
                        strict: false,
                    },
                },
            ),
        )
    }
}

/// The decision: stale prices fail; a balanced portfolio needs no swap; an
/// overweight asset is sold by the thousandths it exceeds its target by.
pub open spec fn rebalance_outcome(p: PortfolioInfo, now: i64, raw_a: u64, raw_b: u64) -> Result<
    Option<SwapPlan>,
    ErrorCode,
> {
    let wa = worth_a(p, raw_a);
    let wb = worth_b(p, raw_b);
    if !prices_fresh(p, now) {
        Err(ErrorCode::InvalidPrice)
    } else if !unit_scales_fit(p) {
        Err(ErrorCode::ArithmeticOverflow)
    } else if wa + wb == 0 {
        Err(ErrorCode::DivisionByZero)
    } else if !share_fits(wa, wb) || !share_fits(wb, wa) {
        Err(ErrorCode::ArithmeticOverflow)
    } else if current_pct_a(p, raw_a, raw_b) == p.token_a_percentage {
        Ok(None)
    } else if current_pct_a(p, raw_a, raw_b) > p.token_a_percentage {
        swap_plan(
            raw_a,
            current_pct_a(p, raw_a, raw_b) - p.token_a_percentage,
            SwapDirection::AB,
            p.token_a_decimals,
            p.pc_decimals,
        )
    } else {
        swap_plan(
            raw_b,
            current_pct_b(p, raw_a, raw_b) - p.token_b_percentage,
            SwapDirection::BA,
            p.token_b_decimals,
            p.pc_decimals,
        )
    }
}

/// `raw` in whole units, or `None` when ten to the power `decimals` does
/// not fit in 64 bits.
fn to_whole_units(raw: u64, decimals: u8) -> (r: Option<u64>)
    ensures
        r is Some <==> pow10(decimals as nat) <= u64::MAX,
        r is Some ==> r->Some_0 == whole_units(raw, decimals),
{
    match checked_pow10(decimals) {
        Some(scale) => {
            proof {
                lemma_pow10_positive(decimals as nat);
            }
            if scale > u64::MAX as u128 {
                None
            } else {
                Some(raw / (scale as u64))
            }
        },
        None => None,
    }
}

/// Thousandths of an amount, at most a thousand of them, are at most the
/// amount.
proof fn lemma_part_at_most_whole(raw: u64, pct: nat)
    requires
        pct <= 1000,
    ensures
        (raw as nat * pct) / 1000 <= raw,
{
    assert((raw as nat * pct) / 1000 <= raw) by (nonlinear_arith)
        requires
            pct <= 1000,
    ;
}

/// Decides the swap that brings the portfolio back toward its targets,
/// given the time `now` and the raw balances of the two vaults.
///
/// `Ok(None)` means the portfolio is on target. A swap is always planned at
/// the rate 1 and not strict, with the decimals of the asset it sells and of
/// the quote currency.
pub fn rebalance_assets(
    portfolio_info: &PortfolioInfo,
    now: i64,
    vault_a_amount: u64,
    vault_b_amount: u64,
) -> (r: Result<Option<SwapPlan>, ErrorCode>)
    requires
        portfolio_info.wf(),
    ensures
        r == rebalance_outcome(*portfolio_info, now, vault_a_amount, vault_b_amount),
        !prices_fresh(*portfolio_info, now) ==> r == Err::<Option<SwapPlan>, ErrorCode>(
            ErrorCode::InvalidPrice,
        ),
        r is Ok && current_pct_a(*portfolio_info, vault_a_amount, vault_b_amount)
            == portfolio_info.token_a_percentage ==> r->Ok_0 is None,
        r is Ok && r->Ok_0 is Some ==> r->Ok_0->Some_0.amount <= match r->Ok_0->Some_0.swap_direction {
            SwapDirection::AB => vault_a_amount,
            SwapDirection::BA => vault_b_amount,
        },
{
    let p = portfolio_info;
    if (now as i128) - (p.last_update_unix as i128) >= PRICE_MAX_AGE_SECS as i128 {
        return Err(ErrorCode::InvalidPrice);
    }
    let vault_a_balance = match to_whole_units(vault_a_amount, p.token_a_decimals) {
        Some(v) => v,
        None => return Err(ErrorCode::ArithmeticOverflow),
    };
    let vault_b_balance = match to_whole_units(vault_b_amount, p.token_b_decimals) {
        Some(v) => v,
        None => return Err(ErrorCode::ArithmeticOverflow),
    };
    let price_a = p.token_a_price as u64;
    let price_b = p.token_b_price as u64;
    let current_token_a_percentage = match calculate_assets_percentage_worth_in_vault(
        vault_a_balance,
        price_a,
        vault_b_balance,
        price_b,
    ) {
        Ok(pct) => pct,
        Err(e) => return Err(e),
    };
    let current_token_b_percentage = match calculate_assets_percentage_worth_in_vault(
        vault_b_balance,
        price_b,
        vault_a_balance,
        price_a,
    ) {
        Ok(pct) => pct,
        Err(e) => return Err(e),
    };
    let ghost wa = worth_a(*p, vault_a_amount);
    let ghost wb = worth_b(*p, vault_b_amount);
    if current_token_a_percentage == p.token_a_percentage {
        Ok(None)
    } else if current_token_a_percentage > p.token_a_percentage {
        let percentage_to_sell = current_token_a_percentage - p.token_a_percentage;
        let amount_to_swap = match vault_a_amount.checked_mul(percentage_to_sell as u64) {
            Some(m) => m / (PER_MILLE as u64),
            None => return Err(ErrorCode::ArithmeticOverflow),
        };
        proof {
            lemma_part_at_most_whole(vault_a_amount, percentage_to_sell as nat);
        }
        Ok(
            Some(
                SwapPlan {
                    swap_direction: SwapDirection::AB,
                    amount: amount_to_swap,
                    min_exchange_rate: ExchangeRate {
                        rate: 1,
                        from_decimals: p.token_a_decimals,
                        quote_decimals: p.pc_decimals,
                        strict: false,
                    },
                },
            ),
        )
    } else {
        proof {
            lemma_shares_sum(wa, wb);
        }
        let percentage_to_sell = current_token_b_percentage - p.token_b_percentage;
        let amount_to_swap = match vault_b_amount.checked_mul(percentage_to_sell as u64) {
            Some(m) => m / (PER_MILLE as u64),
            None => return Err(ErrorCode::ArithmeticOverflow),
        };
        proof {
            lemma_part_at_most_whole(vault_b_amount, percentage_to_sell as nat);
        }
        Ok(
            Some(
                SwapPlan {
                    swap_direction: SwapDirection::BA,
                    amount: amount_to_swap,
                    min_exchange_rate: ExchangeRate {
                        rate: 1,
                        from_decimals: p.token_b_decimals,
                        quote_decimals: p.pc_decimals,
                        strict: false,
                    },
                },
            ),
        )
    }
}

/// The report after a rebalance, from the vaults' raw balances after it:
/// each vault's whole units times its cached price, and the target shares.
/// Fails with `ArithmeticOverflow` when a worth or a decimal scale factor
/// does not fit in 64 bits.
pub fn assets_balanced(portfolio_info: &PortfolioInfo, vault_a_amount: u64, vault_b_amount: u64) -> (r:
    Result<AssetsBalanced, ErrorCode>)
    ensures
        ({
            let p = *portfolio_info;
            let ok = unit_scales_fit(p) && worth_a(p, vault_a_amount) <= u64::MAX && worth_b(
                p,
                vault_b_amount,
            ) <= u64::MAX;
            &&& r is Ok <==> ok
            &&& !ok ==> r == Err::<AssetsBalanced, ErrorCode>(ErrorCode::ArithmeticOverflow)
            &&& ok ==> r == Ok::<AssetsBalanced, ErrorCode>(
                AssetsBalanced {
                    new_token_a_worth: worth_a(p, vault_a_amount) as u64,
                    token_a_percentage: p.token_a_percentage,
                    new_token_b_worth: worth_b(p, vault_b_amount) as u64,
                    token_b_percentage: p.token_b_percentage,
                },
            )
        }),
{
    let p = portfolio_info;
    let vault_a_balance = match to_whole_units(vault_a_amount, p.token_a_decimals) {
        Some(v) => v,
        None => return Err(ErrorCode::ArithmeticOverflow),
    };
    let vault_b_balance = match to_whole_units(vault_b_amount, p.token_b_decimals) {
        Some(v) => v,
        None => return Err(ErrorCode::ArithmeticOverflow),
    };
    let new_token_a_worth = match vault_a_balance.checked_mul(p.token_a_price as u64) {
        Some(w) => w,
        None => return Err(ErrorCode::ArithmeticOverflow),
    };
    let new_token_b_worth = match vault_b_balance.checked_mul(p.token_b_price as u64) {
        Some(w) => w,
        None => return Err(ErrorCode::ArithmeticOverflow),
    };
    Ok(
        AssetsBalanced {
            new_token_a_worth,
            token_a_percentage: p.token_a_percentage,
            new_token_b_worth,
            token_b_percentage: p.token_b_percentage,
        },
    )
}

} // verus!
