//! Powers of ten and scaling by them, the arithmetic behind decimal
//! fixed-point amounts.

use vstd::prelude::*;

verus! {

/// Dollar values are counted in units of `1 / USD_SCALE` dollars.
pub const USD_SCALE: u64 = 1_000_000_000;

/// The largest exponent whose power of ten fits in 128 bits.
pub const MAX_POW10_EXPONENT: u8 = 38;

/// Ten to the power `n`.
pub open spec fn pow10(n: nat) -> nat
    decreases n,
{
    if n == 0 {
        1
    } else {
        10 * pow10((n - 1) as nat)
    }
}

/// Powers of ten are positive.
pub proof fn lemma_pow10_positive(n: nat)
    ensures
        pow10(n) >= 1,
    decreases n,
{
    if n > 0 {
        lemma_pow10_positive((n - 1) as nat);
    }
}

/// Powers of ten grow with the exponent.
pub proof fn lemma_pow10_monotonic(a: nat, b: nat)
    requires
        a <= b,
    ensures
        pow10(a) <= pow10(b),
    decreases b,
{
    if a < b {
        lemma_pow10_monotonic(a, (b - 1) as nat);
        lemma_pow10_positive((b - 1) as nat);
    }
}

/// Ten to the power 38 is the last power of ten below 2^128.
pub proof fn lemma_pow10_limit()
    ensures
        pow10(38) == 100_000_000_000_000_000_000_000_000_000_000_000_000,
        pow10(38) <= u128::MAX,
        pow10(39) > u128::MAX,
{
    reveal_with_fuel(pow10, 40);
}

/// `10^exponent`, or `None` when it does not fit in 128 bits.
pub fn pow10_checked(exponent: u8) -> (r: Option<u128>)
    ensures
        r == (if exponent <= MAX_POW10_EXPONENT {
            Some(pow10(exponent as nat) as u128)
        } else {
            None
        }),
        r matches Some(p) ==> p == pow10(exponent as nat),
        r is None ==> pow10(exponent as nat) > u128::MAX,
{
    if exponent > MAX_POW10_EXPONENT {
        proof {
            lemma_pow10_limit();
            lemma_pow10_monotonic(39, exponent as nat);
        }
        return None;
    }
    let mut p: u128 = 1;
    let mut i: u8 = 0;
    while i < exponent
        invariant
            i <= exponent <= MAX_POW10_EXPONENT,
            p == pow10(i as nat),
        decreases exponent - i,
    {
        proof {
            lemma_pow10_limit();
            lemma_pow10_monotonic((i + 1) as nat, 38);
        }
        p = p * 10;
        i = i + 1;
    }
    Some(p)
}

/// `value / 10^exponent`, rounded down; zero once the power of ten exceeds
/// every 128-bit value.
pub fn div_pow10(value: u128, exponent: u8) -> (r: u128)
    ensures
        r == value as nat / pow10(exponent as nat),
{
    proof {
        lemma_pow10_positive(exponent as nat);
    }
    match pow10_checked(exponent) {
        Some(p) => value / p,
        None => {
            proof {
                vstd::arithmetic::div_mod::lemma_basic_div(
                    value as int,
                    pow10(exponent as nat) as int,
                );
            }
            0
        },
    }
}

} // verus!
