//! Shares of portfolio worth, in thousandths.

use vstd::prelude::*;

use crate::errors::ErrorCode;
use vstd::arithmetic::div_mod::{lemma_fundamental_div_mod, lemma_mod_pos_bound};

verus! {

/// Worth of a holding: amount times unit price.
pub open spec fn worth(amount: u64, price: u64) -> nat {
    (amount as nat) * (price as nat)
}

/// Share of `worth_a` in `worth_a + worth_b`, in thousandths, rounded down.
pub open spec fn percent_of_worth(worth_a: nat, worth_b: nat) -> int
    recommends
        worth_a + worth_b > 0,
{
    (worth_a * 1000) as int / (worth_a + worth_b) as int
}

/// The intermediate values of the share computation fit in 128 bits.
pub open spec fn share_fits(worth_a: nat, worth_b: nat) -> bool {
    worth_a + worth_b <= u128::MAX && worth_a * 1000 <= u128::MAX
}

proof fn lemma_worth_fits(amount: u64, price: u64)
    ensures
        worth(amount, price) <= u64::MAX as nat * u64::MAX as nat,
        u64::MAX as nat * u64::MAX as nat <= u128::MAX,
{
    assert((amount as nat) * (price as nat) <= u64::MAX as nat * u64::MAX as nat) by (nonlinear_arith)
        requires
            amount <= u64::MAX,
            price <= u64::MAX,
    ;
}

/// The share of holding A in the combined worth of holdings A and B, in
/// thousandths, rounded down.
///
/// Fails with `DivisionByZero` when both holdings are worthless, and with
/// `ArithmeticOverflow` when the combined worth, or a thousand times the
/// worth of A, does not fit in 128 bits.
pub fn calculate_assets_percentage_worth_in_vault(
    token_a_amount: u64,
    token_a_price: u64,
    token_b_amount: u64,
    token_b_price: u64,
) -> (r: Result<u16, ErrorCode>)
    ensures
        ({
            let wa = worth(token_a_amount, token_a_price);
            let wb = worth(token_b_amount, token_b_price);
            &&& (r == Err::<u16, ErrorCode>(ErrorCode::DivisionByZero)) <==> wa + wb == 0
            &&& (r == Err::<u16, ErrorCode>(ErrorCode::ArithmeticOverflow)) <==> !share_fits(wa, wb)
            &&& r is Ok <==> (wa + wb > 0 && share_fits(wa, wb))
            &&& r is Ok ==> r->Ok_0 as int == percent_of_worth(wa, wb)
            &&& r is Ok ==> r->Ok_0 <= 1000
        }),
{
    proof {
        lemma_worth_fits(token_a_amount, token_a_price);
        lemma_worth_fits(token_b_amount, token_b_price);
    }
    let token_a_worth: u128 = (token_a_amount as u128) * (token_a_price as u128);
    let token_b_worth: u128 = (token_b_amount as u128) * (token_b_price as u128);
    let total_vault_worth = match token_a_worth.checked_add(token_b_worth) {
        Some(t) => t,
        None => return Err(ErrorCode::ArithmeticOverflow),
    };
    let scaled_a_worth = match token_a_worth.checked_mul(1000) {
        Some(s) => s,
        None => return Err(ErrorCode::ArithmeticOverflow),
    };
    if total_vault_worth == 0 {
        return Err(ErrorCode::DivisionByZero);
    }
    let share: u128 = scaled_a_worth / total_vault_worth;
    proof {
        lemma_share_at_most_whole(token_a_worth as nat, token_b_worth as nat);
    }
    Ok(share as u16)
}

proof fn lemma_share_at_most_whole(worth_a: nat, worth_b: nat)
    requires
        worth_a + worth_b > 0,
    ensures
        0 <= percent_of_worth(worth_a, worth_b) <= 1000,
{
    let s = (worth_a + worth_b) as int;
    assert((worth_a * 1000) as int / s <= 1000) by (nonlinear_arith)
        requires
            s > 0,
            worth_a <= s,
    ;
    assert((worth_a * 1000) as int / s >= 0) by (nonlinear_arith)
        requires
            s > 0,
    ;
}

proof fn lemma_div_brackets(x: int, d: int)
    requires
        x >= 0,
        d > 0,
    ensures
        (x / d) * d <= x < (x / d) * d + d,
{
    lemma_fundamental_div_mod(x, d);
    lemma_mod_pos_bound(x, d);
    assert((x / d) * d == d * (x / d)) by (nonlinear_arith);
}

pub(crate) proof fn lemma_shares_sum(worth_a: nat, worth_b: nat)
    requires
        worth_a + worth_b > 0,
    ensures
        999 <= percent_of_worth(worth_a, worth_b) + percent_of_worth(worth_b, worth_a) <= 1000,
{
    let s = (worth_a + worth_b) as int;
    let xa = (worth_a * 1000) as int;
    let xb = (worth_b * 1000) as int;
    lemma_div_brackets(xa, s);
    lemma_div_brackets(xb, s);
    let qa = xa / s;
    let qb = xb / s;
    assert(xa + xb == 1000 * s);
    assert(999 <= qa + qb <= 1000) by (nonlinear_arith)
        requires
            s > 0,
            qa * s <= xa < qa * s + s,
            qb * s <= xb < qb * s + s,
            xa + xb == 1000 * s,
    ;
}

/// For any two positive worths, the share of the first and the share of the
/// second, each computed on its own and rounded down, add up to 1000 or to
/// 999: rounding loses at most one thousandth.
pub proof fn lemma_shares_complement(worth_a: nat, worth_b: nat)
    requires
        worth_a > 0,
        worth_b > 0,
    ensures
        999 <= percent_of_worth(worth_a, worth_b) + percent_of_worth(worth_b, worth_a) <= 1000,
{
    lemma_shares_sum(worth_a, worth_b);
}

} // verus!
