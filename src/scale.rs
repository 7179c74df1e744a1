//! Powers of ten, the scale factors of token decimals.

use vstd::prelude::*;

verus! {

/// Ten to the power `exp`.
pub open spec fn pow10(exp: nat) -> nat
    decreases exp,
{
    if exp == 0 {
        1
    } else {
        10 * pow10((exp - 1) as nat)
    }
}

pub proof fn lemma_pow10_positive(exp: nat)
    ensures
        pow10(exp) >= 1,
    decreases exp,
{
    if exp > 0 {
        lemma_pow10_positive((exp - 1) as nat);
    }
}

pub proof fn lemma_pow10_monotone(lo: nat, hi: nat)
    requires
        lo <= hi,
    ensures
        pow10(lo) <= pow10(hi),
    decreases hi - lo,
{
    if lo < hi {
        lemma_pow10_monotone(lo, (hi - 1) as nat);
        lemma_pow10_positive((hi - 1) as nat);
    }
}

/// Ten to the power `exp`, or `None` when it does not fit in 128 bits.
pub fn checked_pow10(exp: u8) -> (r: Option<u128>)
    ensures
        r is Some <==> pow10(exp as nat) <= u128::MAX,
        r is Some ==> r->Some_0 == pow10(exp as nat),
{
    let mut acc: u128 = 1;
    let mut i: u8 = 0;
    while i < exp
        invariant
            i <= exp,
            acc == pow10(i as nat),
        decreases exp - i,
    {
        match acc.checked_mul(10) {
            Some(next) => {
                acc = next;
                i = i + 1;
            },
            None => {
                proof {
                    lemma_pow10_monotone((i + 1) as nat, exp as nat);
                }
                return None;
            },
        }
    }
    Some(acc)
}

} // verus!
