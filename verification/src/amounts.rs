//! Conversions between a token's own decimal count and the message bridge's
//! fixed 8-decimal external representation.
//!
//! The bridge moves every amount as an 8-decimal value. A token with more
//! than 8 decimals loses its low digits on the way out (`truncate_amount`
//! keeps only what the bridge can carry), is scaled down before encoding
//! (`normalize_amount`) and scaled back up on arrival (`denormalize_amount`).
//! Tokens with 8 decimals or fewer pass through unchanged.

use vstd::prelude::*;
use vstd::arithmetic::power::{
    pow,
    lemma_pow0,
    lemma_pow1,
    lemma_pow_adds,
    lemma_pow_positive,
    lemma_pow_increases,
};
use vstd::arithmetic::div_mod::{lemma_basic_div, lemma_fundamental_div_mod, lemma_mod_bound};

verus! {

/// Ten to the `e`-th power, the scale factor between two decimal counts.
pub open spec fn pow10(e: nat) -> int {
    pow(10, e)
}

/// Computes `10^e`, or `None` where that exceeds `u64::MAX`.
pub fn pow10_u64(e: u32) -> (r: Option<u64>)
    ensures
        match r {
            Some(p) => p == pow10(e as nat),
            None => pow10(e as nat) > u64::MAX,
        },
{
    let mut acc: u64 = 1;
    let mut i: u32 = 0;
    proof {
        lemma_pow0(10);
    }
    while i < e
        invariant
            i <= e,
            acc == pow10(i as nat),
        decreases e - i,
    {
        proof {
            lemma_pow_positive(10, i as nat);
            lemma_pow1(10);
            lemma_pow_adds(10, i as nat, 1);
            assert(pow10((i + 1) as nat) == 10 * pow10(i as nat));
        }
        if acc > u64::MAX / 10 {
            proof {
                lemma_pow_increases(10, (i + 1) as nat, e as nat);
            }
            return None;
        }
        acc = acc * 10;
        i = i + 1;
    }
    Some(acc)
}

/// Computes `10^e`, or `None` where that exceeds `u128::MAX`.
pub fn pow10_u128(e: u32) -> (r: Option<u128>)
    ensures
        match r {
            Some(p) => p == pow10(e as nat),
            None => pow10(e as nat) > u128::MAX,
        },
{
    let mut acc: u128 = 1;
    let mut i: u32 = 0;
    proof {
        lemma_pow0(10);
    }
    while i < e
        invariant
            i <= e,
            acc == pow10(i as nat),
        decreases e - i,
    {
        proof {
            lemma_pow_positive(10, i as nat);
            lemma_pow1(10);
            lemma_pow_adds(10, i as nat, 1);
            assert(pow10((i + 1) as nat) == 10 * pow10(i as nat));
        }
        if acc > u128::MAX / 10 {
            proof {
                lemma_pow_increases(10, (i + 1) as nat, e as nat);
            }
            return None;
        }
        acc = acc * 10;
        i = i + 1;
    }
    Some(acc)
}

/// An amount scaled down to the bridge's 8-decimal representation: the value
/// loses its digits below `10^(decimals - 8)` when the token has more than 8
/// decimals.
pub open spec fn spec_normalize_amount(amount: u64, decimals: u8) -> int {
    if decimals > 8 {
        amount as int / pow10((decimals - 8) as nat)
    } else {
        amount as int
    }
}

/// An 8-decimal bridge amount scaled back up to the token's own decimals.
pub open spec fn spec_denormalize_amount(amount: u64, decimals: u8) -> int {
    if decimals > 8 {
        amount * pow10((decimals - 8) as nat)
    } else {
        amount as int
    }
}

/// An amount with the digits the bridge cannot carry cleared: the largest
/// value at or below `amount` that survives a normalize/denormalize round
/// trip.
pub open spec fn spec_truncate_amount(amount: u64, decimals: u8) -> int {
    if decimals > 8 {
        (amount as int / pow10((decimals - 8) as nat)) * pow10((decimals - 8) as nat)
    } else {
        amount as int
    }
}

/// Scales `amount` down to the bridge's 8-decimal representation.
pub fn normalize_amount(amount: u64, decimals: u8) -> (r: u64)
    ensures
        r == spec_normalize_amount(amount, decimals),
{
    if decimals > 8 {
        match pow10_u64((decimals - 8) as u32) {
            Some(p) => {
                proof {
                    lemma_pow_positive(10, (decimals - 8) as nat);
                }
                amount / p
            },
            None => {
                proof {
                    lemma_basic_div(amount as int, pow10((decimals - 8) as nat));
                }
                0
            },
        }
    } else {
        amount
    }
}

/// Scales an 8-decimal bridge amount back up to the token's own decimals.
/// The scale factor and the product must fit in 64 bits.
pub fn denormalize_amount(amount: u64, decimals: u8) -> (r: u64)
    requires
        decimals > 8 ==> pow10((decimals - 8) as nat) <= u64::MAX,
        spec_denormalize_amount(amount, decimals) <= u64::MAX,
    ensures
        r == spec_denormalize_amount(amount, decimals),
{
    if decimals > 8 {
        match pow10_u64((decimals - 8) as u32) {
            Some(p) => amount * p,
            None => {
                proof {
                    assert(false);
                }
                0
            },
        }
    } else {
        amount
    }
}

/// Clears the digits of `amount` that the bridge cannot carry.
pub fn truncate_amount(amount: u64, decimals: u8) -> (r: u64)
    ensures
        r == spec_truncate_amount(amount, decimals),
        r <= amount,
{
    if decimals > 8 {
        match pow10_u64((decimals - 8) as u32) {
            Some(p) => {
                proof {
                    lemma_pow_positive(10, (decimals - 8) as nat);
                    lemma_fundamental_div_mod(amount as int, p as int);
                    lemma_mod_bound(amount as int, p as int);
                    assert((amount as int / p as int) * p as int == amount - amount as int % p as int);
                }
                (amount / p) * p
            },
            None => {
                proof {
                    lemma_basic_div(amount as int, pow10((decimals - 8) as nat));
                }
                0
            },
        }
    } else {
        amount
    }
}

} // verus!
