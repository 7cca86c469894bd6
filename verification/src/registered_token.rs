//! Registered tokens and the native-swap calculator.
//!
//! A registered token carries its USD swap rate and the cap on native
//! currency the relayer will disburse per swap. The calculator turns a
//! requested swap-for-gas amount into the pair of token units charged and
//! native units paid out, clamping the request to what the cap allows and
//! refusing any computation whose 128-bit intermediates would overflow.

use vstd::prelude::*;
use crate::amounts::{pow10, pow10_u128};
use crate::error::TokenBridgeRelayerError;
use crate::owner_config::OwnerConfig;
use crate::sender_config::SenderConfig;
use crate::util::{keys_equal, SWAP_RATE_PRECISION};
use vstd::arithmetic::div_mod::{
    lemma_div_is_ordered,
    lemma_div_multiples_vanish,
    lemma_fundamental_div_mod,
    lemma_mod_bound,
};
use vstd::arithmetic::mul::{
    lemma_mul_inequality,
    lemma_mul_is_associative,
    lemma_mul_is_commutative,
    lemma_mul_left_inequality,
    lemma_mul_strictly_positive,
    lemma_mul_upper_bound,
};
use vstd::arithmetic::power::lemma_pow_positive;

verus! {

/// Decimal count of the native currency.
pub const NATIVE_DECIMALS: u8 = 9;

/// Swap configuration of one registered token.
#[derive(Clone, Copy, Debug, PartialEq, Eq, Structural)]
pub struct RegisteredToken {
    /// Token swap rate: the USD conversion rate of the token, scaled by the
    /// swap rate precision. Positive for a registered token.
    pub swap_rate: u64,
    /// Maximum amount of native currency disbursed per swap; zero disables
    /// swaps for this token.
    pub max_native_swap_amount: u64,
}

/// How many native-currency units one token unit is worth, scaled by the
/// swap rate precision: `precision * native_rate / token_rate`, truncating.
/// `None` on a zero token rate, on a zero result (a grossly misconfigured
/// state, not a legitimate rate), or on a result beyond 64 bits.
pub open spec fn spec_native_swap_rate(token_swap_rate: u64, native_currency_swap_rate: u64) -> Option<
    u64,
> {
    let scaled = SWAP_RATE_PRECISION * native_currency_swap_rate;
    if token_swap_rate == 0 {
        None
    } else if scaled / token_swap_rate as int == 0 {
        None
    } else if scaled / token_swap_rate as int > u64::MAX {
        None
    } else {
        Some((scaled / token_swap_rate as int) as u64)
    }
}

/// The most token units a swap may take in, given the native cap and the
/// rate: the cap scaled from native units into token units, adjusting for
/// the decimal difference between the token and the native currency. `None`
/// where an intermediate exceeds 128 bits or the result exceeds 64 bits.
pub open spec fn spec_max_swap_amount_in(
    max_native_swap_amount: u64,
    native_swap_rate: u64,
    decimals: u8,
) -> Option<u64> {
    if decimals > NATIVE_DECIMALS {
        let scale = pow10((decimals - NATIVE_DECIMALS) as nat);
        let product = max_native_swap_amount * native_swap_rate;
        if product > u128::MAX {
            None
        } else if scale > u128::MAX {
            None
        } else if product * scale > u128::MAX {
            None
        } else if product * scale / SWAP_RATE_PRECISION as int > u64::MAX {
            None
        } else {
            Some((product * scale / SWAP_RATE_PRECISION as int) as u64)
        }
    } else {
        let scale = pow10((NATIVE_DECIMALS - decimals) as nat);
        let product = max_native_swap_amount * native_swap_rate;
        if product > u128::MAX {
            None
        } else if product / (scale * SWAP_RATE_PRECISION) > u64::MAX {
            None
        } else {
            Some((product / (scale * SWAP_RATE_PRECISION)) as u64)
        }
    }
}

/// The native units paid out for `amount_in` token units at `rate`,
/// adjusting for the decimal difference in the direction inverse to
/// `spec_max_swap_amount_in`. `None` where an intermediate exceeds 128 bits.
pub open spec fn spec_swap_amount_out(amount_in: u64, native_swap_rate: u64, decimals: u8) -> Option<
    int,
> {
    if decimals > NATIVE_DECIMALS {
        let scale = pow10((decimals - NATIVE_DECIMALS) as nat);
        if scale > u128::MAX {
            None
        } else if native_swap_rate * scale > u128::MAX {
            None
        } else {
            Some(SWAP_RATE_PRECISION * amount_in / (native_swap_rate * scale))
        }
    } else {
        let scale = pow10((NATIVE_DECIMALS - decimals) as nat);
        if native_swap_rate == 0 {
            None
        } else {
            Some(SWAP_RATE_PRECISION * amount_in * scale / native_swap_rate as int)
        }
    }
}

/// The clamped `(token_amount_in, native_amount_out)` pair for a requested
/// swap, or `None` where any step of the chain is not representable.
///
/// A zero request or a zero cap yields `(0, 0)` — swaps not requested or
/// disabled, not an error. A nonzero request whose payout truncates to zero
/// also yields `(0, 0)`, so the user is never charged for a swap that pays
/// nothing.
pub open spec fn spec_native_swap_amounts(
    token: RegisteredToken,
    decimals: u8,
    native_currency_swap_rate: u64,
    to_native_token_amount: u64,
) -> Option<(u64, u64)> {
    if to_native_token_amount == 0 || token.max_native_swap_amount == 0 {
        Some((0u64, 0u64))
    } else {
        match spec_native_swap_rate(token.swap_rate, native_currency_swap_rate) {
            None => None,
            Some(rate) => match spec_max_swap_amount_in(
                token.max_native_swap_amount,
                rate,
                decimals,
            ) {
                None => None,
                Some(max_in) => {
                    let amount_in = if to_native_token_amount > max_in {
                        max_in
                    } else {
                        to_native_token_amount
                    };
                    match spec_swap_amount_out(amount_in, rate, decimals) {
                        None => None,
                        Some(out) => if out > 0 {
                            if out > u64::MAX {
                                None
                            } else {
                                Some((amount_in, out as u64))
                            }
                        } else {
                            Some((0u64, 0u64))
                        },
                    }
                },
            },
        }
    }
}

impl RegisteredToken {
    /// Computes this token's native swap rate from the native currency's
    /// swap rate; `None` on misconfiguration or overflow.
    pub fn native_swap_rate(&self, native_currency_swap_rate: u64) -> (r: Option<u64>)
        ensures
            r == spec_native_swap_rate(self.swap_rate, native_currency_swap_rate),
    {
        proof {
            lemma_mul_upper_bound(
                SWAP_RATE_PRECISION as int,
                u32::MAX as int,
                native_currency_swap_rate as int,
                u64::MAX as int,
            );
        }
        let scaled = (SWAP_RATE_PRECISION as u128) * (native_currency_swap_rate as u128);
        if self.swap_rate == 0 {
            return None;
        }
        let rate = scaled / (self.swap_rate as u128);
        if rate == 0 {
            None
        } else if rate > u64::MAX as u128 {
            None
        } else {
            Some(rate as u64)
        }
    }

    /// Computes the most token units a swap may take in; `None` on
    /// overflow.
    pub fn calculate_max_swap_amount_in(&self, decimals: u8, native_swap_rate: u64) -> (r: Option<
        u64,
    >)
        ensures
            r == spec_max_swap_amount_in(self.max_native_swap_amount, native_swap_rate, decimals),
    {
        if decimals > NATIVE_DECIMALS {
            let product = match (self.max_native_swap_amount as u128).checked_mul(
                native_swap_rate as u128,
            ) {
                Some(v) => v,
                None => {
                    return None;
                },
            };
            let scale = match pow10_u128((decimals - NATIVE_DECIMALS) as u32) {
                Some(s) => s,
                None => {
                    return None;
                },
            };
            let scaled = match product.checked_mul(scale) {
                Some(v) => v,
                None => {
                    return None;
                },
            };
            let q = scaled / (SWAP_RATE_PRECISION as u128);
            if q > u64::MAX as u128 {
                None
            } else {
                Some(q as u64)
            }
        } else {
            let product = match (self.max_native_swap_amount as u128).checked_mul(
                native_swap_rate as u128,
            ) {
                Some(v) => v,
                None => {
                    return None;
                },
            };
            let scale = match pow10_u128((NATIVE_DECIMALS - decimals) as u32) {
                Some(s) => s,
                None => {
                    proof {
                        lemma_pow10_small_fits((NATIVE_DECIMALS - decimals) as nat);
                    }
                    return None;
                },
            };
            proof {
                lemma_pow10_small_fits((NATIVE_DECIMALS - decimals) as nat);
                lemma_mul_upper_bound(
                    scale as int,
                    1_000_000_000int,
                    SWAP_RATE_PRECISION as int,
                    u32::MAX as int,
                );
                lemma_mul_strictly_positive(scale as int, SWAP_RATE_PRECISION as int);
            }
            let denominator = scale * (SWAP_RATE_PRECISION as u128);
            let q = product / denominator;
            if q > u64::MAX as u128 {
                None
            } else {
                Some(q as u64)
            }
        }
    }

    /// Computes the clamped `(token_amount_in, native_amount_out)` pair for
    /// a requested swap-for-gas amount; `None` on overflow anywhere in the
    /// chain.
    pub fn calculate_native_swap_amounts(
        &self,
        decimals: u8,
        native_currency_swap_rate: u64,
        to_native_token_amount: u64,
    ) -> (r: Option<(u64, u64)>)
        ensures
            r == spec_native_swap_amounts(
                *self,
                decimals,
                native_currency_swap_rate,
                to_native_token_amount,
            ),
            to_native_token_amount == 0 ==> r == Some((0u64, 0u64)),
            self.max_native_swap_amount == 0 ==> r == Some((0u64, 0u64)),
    {
        if to_native_token_amount == 0 || self.max_native_swap_amount == 0 {
            return Some((0, 0));
        }
        let rate = match self.native_swap_rate(native_currency_swap_rate) {
            Some(v) => v,
            None => {
                return None;
            },
        };
        let max_in = match self.calculate_max_swap_amount_in(decimals, rate) {
            Some(v) => v,
            None => {
                return None;
            },
        };
        let amount_in = if to_native_token_amount > max_in {
            max_in
        } else {
            to_native_token_amount
        };
        let out = if decimals > NATIVE_DECIMALS {
            let scale = match pow10_u128((decimals - NATIVE_DECIMALS) as u32) {
                Some(s) => s,
                None => {
                    return None;
                },
            };
            let denominator = match (rate as u128).checked_mul(scale) {
                Some(v) => v,
                None => {
                    return None;
                },
            };
            proof {
                lemma_mul_upper_bound(
                    SWAP_RATE_PRECISION as int,
                    u32::MAX as int,
                    amount_in as int,
                    u64::MAX as int,
                );
                lemma_pow_positive(10, (decimals - NATIVE_DECIMALS) as nat);
                lemma_mul_strictly_positive(rate as int, scale as int);
            }
            (SWAP_RATE_PRECISION as u128) * (amount_in as u128) / denominator
        } else {
            let scale = match pow10_u128((NATIVE_DECIMALS - decimals) as u32) {
                Some(s) => s,
                None => {
                    proof {
                        lemma_pow10_small_fits((NATIVE_DECIMALS - decimals) as nat);
                    }
                    return None;
                },
            };
            proof {
                lemma_pow10_small_fits((NATIVE_DECIMALS - decimals) as nat);
                lemma_mul_upper_bound(
                    SWAP_RATE_PRECISION as int,
                    u32::MAX as int,
                    amount_in as int,
                    u64::MAX as int,
                );
                lemma_mul_upper_bound(
                    SWAP_RATE_PRECISION as int * amount_in as int,
                    u32::MAX as int * u64::MAX as int,
                    scale as int,
                    1_000_000_000int,
                );
            }
            (SWAP_RATE_PRECISION as u128) * (amount_in as u128) * scale / (rate as u128)
        };
        if out > 0 {
            if out > u64::MAX as u128 {
                None
            } else {
                Some((amount_in, out as u64))
            }
        } else {
            Some((0, 0))
        }
    }
}

/// An input already clamped to `max_in` token units, scaled by
/// `num_scale / den_scale`, cannot pay out more than the `cap` that
/// `max_in` itself was derived from by the inverse scaling.
proof fn lemma_scaled_floor_bound(amount_in: int, max_in: int, cap: int, num_scale: int, den_scale: int)
    requires
        num_scale > 0,
        den_scale > 0,
        cap >= 0,
        0 <= amount_in <= max_in,
        max_in <= (cap * den_scale) / num_scale,
    ensures
        num_scale * amount_in / den_scale <= cap,
{
    let target = cap * den_scale;
    lemma_fundamental_div_mod(target, num_scale);
    lemma_mod_bound(target, num_scale);
    lemma_mul_is_commutative(num_scale, target / num_scale);
    assert(max_in * num_scale <= (target / num_scale) * num_scale) by {
        lemma_mul_inequality(max_in, target / num_scale, num_scale);
    }
    assert(num_scale * amount_in <= num_scale * max_in) by {
        lemma_mul_left_inequality(num_scale, amount_in, max_in);
    }
    lemma_mul_is_commutative(num_scale, max_in);
    lemma_div_is_ordered(num_scale * amount_in, target, den_scale);
    lemma_mul_is_commutative(cap, den_scale);
    lemma_div_multiples_vanish(cap, den_scale);
}

/// Clamping law of the native-swap calculator: whenever the calculation
/// succeeds, the native amount paid out is at most the token's
/// `max_native_swap_amount`, and a request exceeding the maximum swappable
/// input that pays out a nonzero amount is charged exactly that maximum.
pub proof fn lemma_native_swap_amounts_clamped(
    token: RegisteredToken,
    decimals: u8,
    native_currency_swap_rate: u64,
    to_native_token_amount: u64,
)
    requires
        spec_native_swap_amounts(
            token,
            decimals,
            native_currency_swap_rate,
            to_native_token_amount,
        ) is Some,
    ensures
        ({
            let result = spec_native_swap_amounts(
                token,
                decimals,
                native_currency_swap_rate,
                to_native_token_amount,
            )->Some_0;
            &&& result.1 <= token.max_native_swap_amount
            &&& result.1 > 0 ==> {
                let rate = spec_native_swap_rate(
                    token.swap_rate,
                    native_currency_swap_rate,
                )->Some_0;
                let max_in = spec_max_swap_amount_in(
                    token.max_native_swap_amount,
                    rate,
                    decimals,
                )->Some_0;
                result.0 == if to_native_token_amount > max_in {
                    max_in
                } else {
                    to_native_token_amount
                }
            }
        }),
{
    if to_native_token_amount == 0 || token.max_native_swap_amount == 0 {
        // Nothing is swapped, and nothing is paid out.
    } else {
        let cap = token.max_native_swap_amount as int;
        let rate = spec_native_swap_rate(token.swap_rate, native_currency_swap_rate)->Some_0;
        let max_in = spec_max_swap_amount_in(token.max_native_swap_amount, rate, decimals)->Some_0;
        let amount_in = if to_native_token_amount > max_in {
            max_in
        } else {
            to_native_token_amount
        };
        let out = spec_swap_amount_out(amount_in, rate, decimals)->Some_0;
        if out > 0 {
            if decimals > NATIVE_DECIMALS {
                let scale = pow10((decimals - NATIVE_DECIMALS) as nat);
                lemma_pow_positive(10, (decimals - NATIVE_DECIMALS) as nat);
                lemma_mul_strictly_positive(rate as int, scale);
                assert(cap * rate * scale == cap * (rate * scale)) by {
                    lemma_mul_is_associative(cap, rate as int, scale);
                }
                lemma_scaled_floor_bound(
                    amount_in as int,
                    max_in as int,
                    cap,
                    SWAP_RATE_PRECISION as int,
                    rate * scale,
                );
            } else {
                let scale = pow10((NATIVE_DECIMALS - decimals) as nat);
                lemma_pow_positive(10, (NATIVE_DECIMALS - decimals) as nat);
                lemma_mul_strictly_positive(scale, SWAP_RATE_PRECISION as int);
                lemma_scaled_floor_bound(
                    amount_in as int,
                    max_in as int,
                    cap,
                    scale * SWAP_RATE_PRECISION,
                    rate as int,
                );
                assert(SWAP_RATE_PRECISION * amount_in * scale == (scale * SWAP_RATE_PRECISION)
                    * amount_in) by (nonlinear_arith);
            }
        }
    }
}

/// The calculator never takes in more token units than were requested.
pub proof fn lemma_native_swap_amount_in_bounded(
    token: RegisteredToken,
    decimals: u8,
    native_currency_swap_rate: u64,
    to_native_token_amount: u64,
)
    requires
        spec_native_swap_amounts(
            token,
            decimals,
            native_currency_swap_rate,
            to_native_token_amount,
        ) is Some,
    ensures
        spec_native_swap_amounts(
            token,
            decimals,
            native_currency_swap_rate,
            to_native_token_amount,
        )->Some_0.0 <= to_native_token_amount,
{
}

/// Ten to a power no greater than the native decimal count stays well below
/// `u128::MAX`.
proof fn lemma_pow10_small_fits(e: nat)
    requires
        e <= 9,
    ensures
        1 <= pow10(e) <= 1_000_000_000,
{
    lemma_pow_positive(10, e);
    vstd::arithmetic::power::lemma_pow_increases(10, e, 9);
    assert(pow10(9) == 1_000_000_000) by {
        reveal_with_fuel(vstd::arithmetic::power::pow, 10);
    }
}

/// One token registration: the mint key and its swap configuration.
#[derive(Clone, Copy, Debug)]
pub struct TokenEntry {
    /// The token's mint address.
    pub mint: [u8; 32],
    /// The token's swap configuration.
    pub token: RegisteredToken,
}

/// The configuration registered for `mint`, if any: the first entry carrying
/// that mint key.
pub open spec fn spec_find_token(s: Seq<TokenEntry>, mint: Seq<u8>) -> Option<RegisteredToken>
    decreases s.len(),
{
    if s.len() == 0 {
        None
    } else if s[0].mint@ == mint {
        Some(s[0].token)
    } else {
        spec_find_token(s.drop_first(), mint)
    }
}

/// When entry `i` is the first with its mint key, the lookup finds it.
proof fn lemma_find_token_at(s: Seq<TokenEntry>, i: int)
    requires
        0 <= i < s.len(),
        forall|j: int| 0 <= j < i ==> s[j].mint@ != s[i].mint@,
    ensures
        spec_find_token(s, s[i].mint@) == Some(s[i].token),
    decreases i,
{
    if i > 0 {
        lemma_find_token_at(s.drop_first(), i - 1);
    }
}

/// When no entry carries `mint`, the lookup finds nothing.
proof fn lemma_find_token_absent(s: Seq<TokenEntry>, mint: Seq<u8>)
    requires
        forall|j: int| 0 <= j < s.len() ==> s[j].mint@ != mint,
    ensures
        spec_find_token(s, mint) is None,
    decreases s.len(),
{
    if s.len() > 0 {
        lemma_find_token_absent(s.drop_first(), mint);
    }
}

/// Overwriting the first entry of some mint changes only that mint's
/// lookup.
proof fn lemma_find_token_update(s: Seq<TokenEntry>, i: int, x: TokenEntry, mint: Seq<u8>)
    requires
        0 <= i < s.len(),
        s[i].mint@ == x.mint@,
        forall|j: int| 0 <= j < i ==> s[j].mint@ != x.mint@,
    ensures
        spec_find_token(s.update(i, x), mint) == if mint == x.mint@ {
            Some(x.token)
        } else {
            spec_find_token(s, mint)
        },
    decreases i,
{
    if i == 0 {
        assert(s.update(0, x).drop_first() =~= s.drop_first());
    } else {
        assert(s.update(i, x).drop_first() =~= s.drop_first().update(i - 1, x));
        lemma_find_token_update(s.drop_first(), i - 1, x, mint);
    }
}

/// Appending an entry with a fresh mint changes only that mint's lookup.
proof fn lemma_find_token_push(s: Seq<TokenEntry>, x: TokenEntry, mint: Seq<u8>)
    requires
        forall|j: int| 0 <= j < s.len() ==> s[j].mint@ != x.mint@,
    ensures
        spec_find_token(s.push(x), mint) == if mint == x.mint@ {
            Some(x.token)
        } else {
            spec_find_token(s, mint)
        },
    decreases s.len(),
{
    let t = s.push(x);
    if s.len() == 0 {
        assert(t[0] == x);
        if mint == x.mint@ {
            assert(spec_find_token(t, mint) == Some(x.token));
        } else {
            assert(t.drop_first() =~= Seq::<TokenEntry>::empty());
            assert(spec_find_token(t, mint) is None);
            assert(spec_find_token(s, mint) is None);
        }
    } else {
        assert(t[0] == s[0]);
        assert(t.drop_first() =~= s.drop_first().push(x));
        lemma_find_token_push(s.drop_first(), x, mint);
        if s[0].mint@ == mint {
            assert(spec_find_token(t, mint) == Some(s[0].token));
        } else {
            assert(spec_find_token(t, mint) == spec_find_token(t.drop_first(), mint));
        }
    }
}

/// Removing the only entry of some mint changes only that mint's lookup.
proof fn lemma_find_token_remove(s: Seq<TokenEntry>, i: int, mint: Seq<u8>)
    requires
        0 <= i < s.len(),
        forall|j: int| 0 <= j < s.len() && j != i ==> s[j].mint@ != s[i].mint@,
    ensures
        spec_find_token(s.remove(i), mint) == if mint == s[i].mint@ {
            None
        } else {
            spec_find_token(s, mint)
        },
    decreases i,
{
    if i == 0 {
        assert(s.remove(0) =~= s.drop_first());
        if mint == s[0].mint@ {
            lemma_find_token_absent(s.drop_first(), mint);
        }
    } else {
        assert(s.remove(i).drop_first() =~= s.drop_first().remove(i - 1));
        lemma_find_token_remove(s.drop_first(), i - 1, mint);
    }
}

/// All registered tokens, at most one entry per mint.
pub struct TokenRegistry {
    pub tokens: Vec<TokenEntry>,
}

impl TokenRegistry {
    /// Mint keys are unique, and every registered token has a positive swap
    /// rate.
    pub open spec fn wf(self) -> bool {
        &&& forall|i: int, j: int|
            0 <= i < j < self.tokens@.len() ==> self.tokens@[i].mint@ != self.tokens@[j].mint@
        &&& forall|i: int| 0 <= i < self.tokens@.len() ==> #[trigger] self.tokens@[i].token.swap_rate > 0
    }

    /// The configuration registered for `mint`, if any.
    pub open spec fn spec_get(self, mint: Seq<u8>) -> Option<RegisteredToken> {
        spec_find_token(self.tokens@, mint)
    }

    /// An empty registry.
    pub fn new() -> (r: TokenRegistry)
        ensures
            r.wf(),
            forall|m: Seq<u8>| r.spec_get(m) is None,
    {
        let r = TokenRegistry { tokens: Vec::new() };
        proof {
            assert forall|m: Seq<u8>| r.spec_get(m) is None by {
                lemma_find_token_absent(r.tokens@, m);
            }
        }
        r
    }

    /// Position of the entry for `mint`, if any.
    fn position(&self, mint: &[u8; 32]) -> (r: Option<usize>)
        ensures
            match r {
                Some(i) => i < self.tokens@.len() && self.tokens@[i as int].mint@ == mint@ && (
                forall|j: int| 0 <= j < i ==> self.tokens@[j].mint@ != mint@) && self.spec_get(mint@)
                    == Some(self.tokens@[i as int].token),
                None => self.spec_get(mint@) is None && (forall|j: int|
                    0 <= j < self.tokens@.len() ==> self.tokens@[j].mint@ != mint@),
            },
    {
        let mut i: usize = 0;
        while i < self.tokens.len()
            invariant
                i <= self.tokens@.len(),
                forall|j: int| 0 <= j < i ==> self.tokens@[j].mint@ != mint@,
            decreases self.tokens@.len() - i,
        {
            if keys_equal(&self.tokens[i].mint, mint) {
                proof {
                    lemma_find_token_at(self.tokens@, i as int);
                }
                return Some(i);
            }
            i += 1;
        }
        proof {
            lemma_find_token_absent(self.tokens@, mint@);
        }
        None
    }

    /// Looks up the configuration registered for `mint`.
    pub fn get(&self, mint: &[u8; 32]) -> (r: Option<RegisteredToken>)
        ensures
            r == self.spec_get(mint@),
    {
        match self.position(mint) {
            Some(i) => Some(self.tokens[i].token),
            None => None,
        }
    }

    /// Why a registration would be rejected, or `None` when it is allowed:
    /// owner-only, the mint must not be registered yet, the swap rate must
    /// be positive, and the native mint cannot pair with a nonzero swap cap
    /// (the native asset cannot swap for itself).
    pub open spec fn spec_register_token_check(
        self,
        sender_config: SenderConfig,
        caller: Seq<u8>,
        mint: Seq<u8>,
        mint_is_native: bool,
        swap_rate: u64,
        max_native_swap_amount: u64,
    ) -> Option<TokenBridgeRelayerError> {
        if sender_config.owner@ != caller {
            Some(TokenBridgeRelayerError::OwnerOnly)
        } else if self.spec_get(mint) is Some {
            Some(TokenBridgeRelayerError::TokenAlreadyRegistered)
        } else if swap_rate == 0 {
            Some(TokenBridgeRelayerError::ZeroSwapRate)
        } else if mint_is_native && max_native_swap_amount != 0 {
            Some(TokenBridgeRelayerError::SwapsNotAllowedForNativeMint)
        } else {
            None
        }
    }

    /// Registers a token with its initial swap rate and native swap cap.
    /// No other mint's registration changes.
    pub fn register_token(
        &mut self,
        sender_config: &SenderConfig,
        caller: &[u8; 32],
        mint: &[u8; 32],
        mint_is_native: bool,
        swap_rate: u64,
        max_native_swap_amount: u64,
    ) -> (r: Result<(), TokenBridgeRelayerError>)
        requires
            old(self).wf(),
        ensures
            final(self).wf(),
            match old(self).spec_register_token_check(
                *sender_config,
                caller@,
                mint@,
                mint_is_native,
                swap_rate,
                max_native_swap_amount,
            ) {
                Some(e) => r == Err::<(), TokenBridgeRelayerError>(e) && *final(self) == *old(self),
                None => r == Ok::<(), TokenBridgeRelayerError>(()) && final(self).spec_get(mint@)
                    == Some(RegisteredToken { swap_rate, max_native_swap_amount }) && (forall|
                    m: Seq<u8>,
                |
                    m != mint@ ==> final(self).spec_get(m) == old(self).spec_get(m)),
            },
    {
        if !keys_equal(&sender_config.owner, caller) {
            return Err(TokenBridgeRelayerError::OwnerOnly);
        }
        match self.position(mint) {
            Some(_) => Err(TokenBridgeRelayerError::TokenAlreadyRegistered),
            None => {
                if swap_rate == 0 {
                    return Err(TokenBridgeRelayerError::ZeroSwapRate);
                }
                if mint_is_native && max_native_swap_amount != 0 {
                    return Err(TokenBridgeRelayerError::SwapsNotAllowedForNativeMint);
                }
                let entry = TokenEntry {
                    mint: *mint,
                    token: RegisteredToken { swap_rate, max_native_swap_amount },
                };
                let ghost old_tokens = self.tokens@;
                self.tokens.push(entry);
                proof {
                    assert(entry.mint@ == mint@);
                    assert forall|m: Seq<u8>| #![auto] self.spec_get(m) == (if m == mint@ {
                        Some(entry.token)
                    } else {
                        spec_find_token(old_tokens, m)
                    }) by {
                        lemma_find_token_push(old_tokens, entry, m);
                    }
                }
                Ok(())
            },
        }
    }

    /// Deregisters a token, zeroing its configuration by removing the
    /// entry. Owner-only; the mint must be registered. No other mint's
    /// registration changes.
    pub fn deregister_token(
        &mut self,
        sender_config: &SenderConfig,
        caller: &[u8; 32],
        mint: &[u8; 32],
    ) -> (r: Result<(), TokenBridgeRelayerError>)
        requires
            old(self).wf(),
        ensures
            final(self).wf(),
            if sender_config.owner@ != caller@ {
                r == Err::<(), TokenBridgeRelayerError>(TokenBridgeRelayerError::OwnerOnly)
                    && *final(self) == *old(self)
            } else if old(self).spec_get(mint@) is None {
                r == Err::<(), TokenBridgeRelayerError>(TokenBridgeRelayerError::TokenNotRegistered)
                    && *final(self) == *old(self)
            } else {
                r == Ok::<(), TokenBridgeRelayerError>(()) && final(self).spec_get(mint@) is None
                    && (forall|m: Seq<u8>|
                    m != mint@ ==> final(self).spec_get(m) == old(self).spec_get(m))
            },
    {
        if !keys_equal(&sender_config.owner, caller) {
            return Err(TokenBridgeRelayerError::OwnerOnly);
        }
        match self.position(mint) {
            None => Err(TokenBridgeRelayerError::TokenNotRegistered),
            Some(i) => {
                let ghost old_tokens = self.tokens@;
                self.tokens.remove(i);
                proof {
                    assert forall|m: Seq<u8>| #![auto] self.spec_get(m) == (if m == mint@ {
                        None
                    } else {
                        spec_find_token(old_tokens, m)
                    }) by {
                        lemma_find_token_remove(old_tokens, i as int, m);
                    }
                }
                Ok(())
            },
        }
    }

    /// Sets a registered token's swap rate. Owner or assistant only; the
    /// mint must be registered and the rate positive. No other mint's
    /// registration changes.
    pub fn update_swap_rate(
        &mut self,
        owner_config: &OwnerConfig,
        caller: &[u8; 32],
        mint: &[u8; 32],
        swap_rate: u64,
    ) -> (r: Result<(), TokenBridgeRelayerError>)
        requires
            old(self).wf(),
        ensures
            final(self).wf(),
            if !owner_config.spec_is_authorized(caller@) {
                r == Err::<(), TokenBridgeRelayerError>(
                    TokenBridgeRelayerError::OwnerOrAssistantOnly,
                ) && *final(self) == *old(self)
            } else {
                match old(self).spec_get(mint@) {
                    None => r == Err::<(), TokenBridgeRelayerError>(
                        TokenBridgeRelayerError::TokenNotRegistered,
                    ) && *final(self) == *old(self),
                    Some(previous) => if swap_rate == 0 {
                        r == Err::<(), TokenBridgeRelayerError>(
                            TokenBridgeRelayerError::ZeroSwapRate,
                        ) && *final(self) == *old(self)
                    } else {
                        r == Ok::<(), TokenBridgeRelayerError>(()) && final(self).spec_get(mint@)
                            == Some(RegisteredToken { swap_rate, ..previous }) && (forall|m: Seq<u8>|
                            m != mint@ ==> final(self).spec_get(m) == old(self).spec_get(m))
                    },
                }
            },
    {
        if !owner_config.is_authorized(caller) {
            return Err(TokenBridgeRelayerError::OwnerOrAssistantOnly);
        }
        match self.position(mint) {
            None => Err(TokenBridgeRelayerError::TokenNotRegistered),
            Some(i) => {
                if swap_rate == 0 {
                    return Err(TokenBridgeRelayerError::ZeroSwapRate);
                }
                let entry = TokenEntry {
                    mint: self.tokens[i].mint,
                    token: RegisteredToken { swap_rate, ..self.tokens[i].token },
                };
                let ghost old_tokens = self.tokens@;
                self.tokens[i] = entry;
                proof {
                    assert forall|m: Seq<u8>| #![auto] self.spec_get(m) == (if m == mint@ {
                        Some(entry.token)
                    } else {
                        spec_find_token(old_tokens, m)
                    }) by {
                        lemma_find_token_update(old_tokens, i as int, entry, m);
                    }
                }
                Ok(())
            },
        }
    }

    /// Sets a registered token's native swap cap. Owner-only; the mint must
    /// be registered, and the native mint cannot take a nonzero cap. No
    /// other mint's registration changes.
    pub fn update_max_native_swap_amount(
        &mut self,
        sender_config: &SenderConfig,
        caller: &[u8; 32],
        mint: &[u8; 32],
        mint_is_native: bool,
        max_native_swap_amount: u64,
    ) -> (r: Result<(), TokenBridgeRelayerError>)
        requires
            old(self).wf(),
        ensures
            final(self).wf(),
            if sender_config.owner@ != caller@ {
                r == Err::<(), TokenBridgeRelayerError>(TokenBridgeRelayerError::OwnerOnly)
                    && *final(self) == *old(self)
            } else {
                match old(self).spec_get(mint@) {
                    None => r == Err::<(), TokenBridgeRelayerError>(
                        TokenBridgeRelayerError::TokenNotRegistered,
                    ) && *final(self) == *old(self),
                    Some(previous) => if mint_is_native && max_native_swap_amount != 0 {
                        r == Err::<(), TokenBridgeRelayerError>(
                            TokenBridgeRelayerError::SwapsNotAllowedForNativeMint,
                        ) && *final(self) == *old(self)
                    } else {
                        r == Ok::<(), TokenBridgeRelayerError>(()) && final(self).spec_get(mint@)
                            == Some(RegisteredToken { max_native_swap_amount, ..previous }) && (
                        forall|m: Seq<u8>|
                            m != mint@ ==> final(self).spec_get(m) == old(self).spec_get(m))
                    },
                }
            },
    {
        if !keys_equal(&sender_config.owner, caller) {
            return Err(TokenBridgeRelayerError::OwnerOnly);
        }
        match self.position(mint) {
            None => Err(TokenBridgeRelayerError::TokenNotRegistered),
            Some(i) => {
                if mint_is_native && max_native_swap_amount != 0 {
                    return Err(TokenBridgeRelayerError::SwapsNotAllowedForNativeMint);
                }
                let entry = TokenEntry {
                    mint: self.tokens[i].mint,
                    token: RegisteredToken { max_native_swap_amount, ..self.tokens[i].token },
                };
                let ghost old_tokens = self.tokens@;
                self.tokens[i] = entry;
                proof {
                    assert forall|m: Seq<u8>| #![auto] self.spec_get(m) == (if m == mint@ {
                        Some(entry.token)
                    } else {
                        spec_find_token(old_tokens, m)
                    }) by {
                        lemma_find_token_update(old_tokens, i as int, entry, m);
                    }
                }
                Ok(())
            },
        }
    }
}

} // verus!
