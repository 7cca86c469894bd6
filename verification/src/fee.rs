//! Fixed-point fee engine.
//!
//! Converts a USD-denominated relayer fee into units of the token being
//! transferred. Rates and fees are USD amounts scaled by a precision
//! denominator; the conversion runs through a 128-bit intermediate so the
//! multiplication chain cannot overflow silently, and the division truncates
//! toward zero.

use vstd::prelude::*;
use crate::amounts::{pow10, pow10_u128};
use vstd::arithmetic::mul::lemma_mul_upper_bound;

verus! {

/// The exact value of the fee conversion, or `None` where an intermediate
/// exceeds 128 bits, the denominator is zero, or the result exceeds 64 bits.
///
/// The conversion is
/// `fee * 10^decimals * swap_rate_precision / (swap_rate * relayer_fee_precision)`,
/// with the division truncating toward zero.
pub open spec fn spec_token_fee(
    fee: u64,
    decimals: u8,
    swap_rate: u64,
    relayer_fee_precision: u32,
    swap_rate_precision: u32,
) -> Option<u64> {
    let scale = pow10(decimals as nat);
    let numerator = fee * scale * swap_rate_precision;
    let denominator = swap_rate * relayer_fee_precision;
    if scale > u128::MAX {
        None
    } else if fee * scale > u128::MAX {
        None
    } else if numerator > u128::MAX {
        None
    } else if denominator == 0 {
        None
    } else if numerator / denominator > u64::MAX {
        None
    } else {
        Some((numerator / denominator) as u64)
    }
}

/// Converts a USD fee into token units, or reports that the conversion is not
/// representable. Never panics: a zero swap rate or precision yields `None`.
pub fn token_fee(
    fee: u64,
    decimals: u8,
    swap_rate: u64,
    relayer_fee_precision: u32,
    swap_rate_precision: u32,
) -> (r: Option<u64>)
    ensures
        r == spec_token_fee(fee, decimals, swap_rate, relayer_fee_precision, swap_rate_precision),
{
    let scale = match pow10_u128(decimals as u32) {
        Some(s) => s,
        None => {
            return None;
        },
    };
    let numerator1 = match (fee as u128).checked_mul(scale) {
        Some(v) => v,
        None => {
            return None;
        },
    };
    let numerator = match numerator1.checked_mul(swap_rate_precision as u128) {
        Some(v) => v,
        None => {
            return None;
        },
    };
    proof {
        lemma_mul_upper_bound(swap_rate as int, u64::MAX as int, relayer_fee_precision as int, u32::MAX as int);
    }
    let denominator = (swap_rate as u128) * (relayer_fee_precision as u128);
    if denominator == 0 {
        return None;
    }
    let quotient = numerator / denominator;
    if quotient > u64::MAX as u128 {
        None
    } else {
        Some(quotient as u64)
    }
}

} // verus!
