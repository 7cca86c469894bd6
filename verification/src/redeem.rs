//! Inbound redemption orchestration.
//!
//! A redemption verifies the attested message's emitter against the
//! registered foreign contract, rejects replays, scales the transferred
//! amount and the relayer fee back to the token's own decimals, and splits
//! the proceeds: on self-redemption the recipient takes everything; when a
//! relayer redeems, the recipient may receive a native-currency swap funded
//! by the relayer, the fee recipient takes the swapped-in tokens plus the
//! fee, and the recipient takes the exact remainder. The token and
//! native-currency movements are the host's work; this module decides their
//! amounts.

use vstd::prelude::*;
use crate::amounts::{denormalize_amount, pow10, spec_denormalize_amount};
use crate::error::TokenBridgeRelayerError;
use crate::foreign_contract::{ForeignContract, ForeignContractRegistry};
use crate::message::TokenBridgeRelayerMessage;
use crate::registered_token::{
    lemma_native_swap_amount_in_bounded,
    spec_native_swap_amounts,
    RegisteredToken,
    TokenRegistry,
};
use crate::util::keys_equal;
use vstd::arithmetic::mul::lemma_mul_inequality;

verus! {

/// The payments the host must perform for one redemption. Token amounts
/// are in the token's own decimals; native amounts are in native-currency
/// base units, paid by the relayer out of band.
#[derive(Clone, Copy, Debug, PartialEq, Eq, Structural)]
pub enum Redemption {
    /// The bridged token is the wrapped form of the native currency: the
    /// redeemed custody is unwrapped to the payer, who forwards
    /// `native_transfer_amount` (the amount less the relayer fee) to the
    /// recipient — zero on self-redemption, where the payer keeps it all as
    /// the recipient.
    Unwrap { native_transfer_amount: u64 },
    /// The payer is the recipient: the full amount goes to the recipient
    /// and no fee is taken.
    SelfRedeem { amount: u64 },
    /// A relayer redeems for the recipient: the relayer pays
    /// `native_amount_out` native units to the recipient, the fee recipient
    /// takes `amount_for_fee_recipient` tokens (the swapped-in amount plus
    /// the relayer fee), and the recipient takes `amount_for_recipient`
    /// tokens.
    Relayed { native_amount_out: u64, amount_for_fee_recipient: u64, amount_for_recipient: u64 },
}

/// The outcome of a redemption, given the looked-up records and the
/// attested message's data: every rejection in the order the checks run, or
/// the payment split.
pub open spec fn spec_redeem_outcome(
    token_opt: Option<RegisteredToken>,
    native_token_opt: Option<RegisteredToken>,
    contract_opt: Option<ForeignContract>,
    decimals: u8,
    mint_is_native: bool,
    already_redeemed: bool,
    emitter_chain: u16,
    emitter_address: Seq<u8>,
    vaa_amount: u64,
    m: TokenBridgeRelayerMessage,
    recipient: Seq<u8>,
    payer: Seq<u8>,
) -> Result<Redemption, TokenBridgeRelayerError> {
    if contract_opt is None || !contract_opt->Some_0.spec_verify(emitter_chain, emitter_address) {
        Err(TokenBridgeRelayerError::InvalidForeignContract)
    } else if already_redeemed {
        Err(TokenBridgeRelayerError::AlreadyRedeemed)
    } else if token_opt is None || native_token_opt is None {
        Err(TokenBridgeRelayerError::TokenNotRegistered)
    } else if m.spec_recipient()@ != recipient {
        Err(TokenBridgeRelayerError::InvalidRecipient)
    } else {
        let amount = spec_denormalize_amount(vaa_amount, decimals) as u64;
        let fee = spec_denormalize_amount(m.spec_target_relayer_fee(), decimals) as u64;
        if mint_is_native {
            Ok(
                Redemption::Unwrap {
                    native_transfer_amount: if payer == recipient {
                        0u64
                    } else {
                        (amount - fee) as u64
                    },
                },
            )
        } else if payer == recipient {
            Ok(Redemption::SelfRedeem { amount })
        } else {
            let to_native = spec_denormalize_amount(m.spec_to_native_token_amount(), decimals) as u64;
            match spec_native_swap_amounts(
                token_opt->Some_0,
                decimals,
                native_token_opt->Some_0.swap_rate,
                to_native,
            ) {
                None => Err(TokenBridgeRelayerError::InvalidSwapCalculation),
                Some(pair) => Ok(
                    Redemption::Relayed {
                        native_amount_out: pair.1,
                        amount_for_fee_recipient: (pair.0 + fee) as u64,
                        amount_for_recipient: (amount - pair.0 - fee) as u64,
                    },
                ),
            }
        }
    }
}

/// Scaling to the token's own decimals keeps order: a part of the
/// normalized amount denormalizes to a part of the denormalized amount.
proof fn lemma_denormalize_monotonic(x: u64, y: u64, decimals: u8)
    requires
        x <= y,
    ensures
        spec_denormalize_amount(x, decimals) <= spec_denormalize_amount(y, decimals),
{
    if decimals > 8 {
        vstd::arithmetic::power::lemma_pow_positive(10, (decimals - 8) as nat);
        lemma_mul_inequality(x as int, y as int, pow10((decimals - 8) as nat));
    }
}

/// Denormalizing distributes over a sum of normalized amounts.
proof fn lemma_denormalize_additive(x: u64, y: u64, z: u64, decimals: u8)
    requires
        x + y <= z,
    ensures
        spec_denormalize_amount(x, decimals) + spec_denormalize_amount(y, decimals)
            <= spec_denormalize_amount(z, decimals),
{
    if decimals > 8 {
        let p = pow10((decimals - 8) as nat);
        vstd::arithmetic::power::lemma_pow_positive(10, (decimals - 8) as nat);
        lemma_mul_inequality(x + y, z as int, p);
        assert((x + y) * p == x * p + y * p) by (nonlinear_arith);
    }
}

/// Validates an attested inbound transfer and computes the payment split.
///
/// The caller establishes what the sending side's check guarantees for any
/// payload this program itself emitted: the normalized fee and swap request
/// together do not exceed the normalized amount, and the denormalized
/// values fit in 64 bits.
///
/// On the relayed path, the tokens for the fee recipient and the tokens for
/// the recipient sum exactly to the denormalized transfer amount: nothing
/// is minted or lost in the split.
pub fn complete_transfer_with_relay(
    tokens: &TokenRegistry,
    contracts: &ForeignContractRegistry,
    mint: &[u8; 32],
    native_mint: &[u8; 32],
    decimals: u8,
    mint_is_native: bool,
    already_redeemed: bool,
    emitter_chain: u16,
    emitter_address: &[u8; 32],
    vaa_amount: u64,
    message: &TokenBridgeRelayerMessage,
    recipient: &[u8; 32],
    payer: &[u8; 32],
) -> (r: Result<Redemption, TokenBridgeRelayerError>)
    requires
        decimals > 8 ==> pow10((decimals - 8) as nat) <= u64::MAX,
        spec_denormalize_amount(vaa_amount, decimals) <= u64::MAX,
        message.spec_target_relayer_fee() + message.spec_to_native_token_amount() <= vaa_amount,
    ensures
        r == spec_redeem_outcome(
            tokens.spec_get(mint@),
            tokens.spec_get(native_mint@),
            contracts.spec_get(emitter_chain),
            decimals,
            mint_is_native,
            already_redeemed,
            emitter_chain,
            emitter_address@,
            vaa_amount,
            *message,
            recipient@,
            payer@,
        ),
        r matches Ok(Redemption::Relayed {
            amount_for_fee_recipient,
            amount_for_recipient,
            ..
        }) ==> amount_for_fee_recipient + amount_for_recipient == spec_denormalize_amount(
            vaa_amount,
            decimals,
        ),
{
    let contract = match contracts.get(emitter_chain) {
        Some(c) => c,
        None => {
            return Err(TokenBridgeRelayerError::InvalidForeignContract);
        },
    };
    if !contract.verify(emitter_chain, emitter_address) {
        return Err(TokenBridgeRelayerError::InvalidForeignContract);
    }
    if already_redeemed {
        return Err(TokenBridgeRelayerError::AlreadyRedeemed);
    }
    let token = match tokens.get(mint) {
        Some(t) => t,
        None => {
            return Err(TokenBridgeRelayerError::TokenNotRegistered);
        },
    };
    let native_token = match tokens.get(native_mint) {
        Some(t) => t,
        None => {
            return Err(TokenBridgeRelayerError::TokenNotRegistered);
        },
    };
    let TokenBridgeRelayerMessage::TransferWithRelay {
        target_relayer_fee,
        to_native_token_amount,
        recipient: message_recipient,
    } = *message;
    if !keys_equal(&message_recipient, recipient) {
        return Err(TokenBridgeRelayerError::InvalidRecipient);
    }
    proof {
        lemma_denormalize_monotonic(target_relayer_fee, vaa_amount, decimals);
        lemma_denormalize_monotonic(to_native_token_amount, vaa_amount, decimals);
        lemma_denormalize_additive(target_relayer_fee, to_native_token_amount, vaa_amount, decimals);
    }
    let amount = denormalize_amount(vaa_amount, decimals);
    let denormalized_relayer_fee = denormalize_amount(target_relayer_fee, decimals);
    if mint_is_native {
        let native_transfer_amount = if keys_equal(payer, recipient) {
            0
        } else {
            amount - denormalized_relayer_fee
        };
        return Ok(Redemption::Unwrap { native_transfer_amount });
    }
    if keys_equal(payer, recipient) {
        return Ok(Redemption::SelfRedeem { amount });
    }
    let denormalized_to_native = denormalize_amount(to_native_token_amount, decimals);
    let (token_amount_in, native_amount_out) = match token.calculate_native_swap_amounts(
        decimals,
        native_token.swap_rate,
        denormalized_to_native,
    ) {
        Some(pair) => pair,
        None => {
            return Err(TokenBridgeRelayerError::InvalidSwapCalculation);
        },
    };
    proof {
        lemma_native_swap_amount_in_bounded(
            token,
            decimals,
            native_token.swap_rate,
            denormalized_to_native,
        );
    }
    let amount_for_fee_recipient = token_amount_in + denormalized_relayer_fee;
    let amount_for_recipient = amount - amount_for_fee_recipient;
    Ok(
        Redemption::Relayed {
            native_amount_out,
            amount_for_fee_recipient,
            amount_for_recipient,
        },
    )
}

/// Redeems an inbound transfer of a native-chain token, unwrapping the
/// native currency where the mint is the native mint.
pub fn complete_native_transfer_with_relay(
    tokens: &TokenRegistry,
    contracts: &ForeignContractRegistry,
    mint: &[u8; 32],
    native_mint: &[u8; 32],
    decimals: u8,
    already_redeemed: bool,
    emitter_chain: u16,
    emitter_address: &[u8; 32],
    vaa_amount: u64,
    message: &TokenBridgeRelayerMessage,
    recipient: &[u8; 32],
    payer: &[u8; 32],
) -> (r: Result<Redemption, TokenBridgeRelayerError>)
    requires
        decimals > 8 ==> pow10((decimals - 8) as nat) <= u64::MAX,
        spec_denormalize_amount(vaa_amount, decimals) <= u64::MAX,
        message.spec_target_relayer_fee() + message.spec_to_native_token_amount() <= vaa_amount,
    ensures
        r == spec_redeem_outcome(
            tokens.spec_get(mint@),
            tokens.spec_get(native_mint@),
            contracts.spec_get(emitter_chain),
            decimals,
            mint@ == native_mint@,
            already_redeemed,
            emitter_chain,
            emitter_address@,
            vaa_amount,
            *message,
            recipient@,
            payer@,
        ),
        r matches Ok(Redemption::Relayed {
            amount_for_fee_recipient,
            amount_for_recipient,
            ..
        }) ==> amount_for_fee_recipient + amount_for_recipient == spec_denormalize_amount(
            vaa_amount,
            decimals,
        ),
{
    let mint_is_native = keys_equal(mint, native_mint);
    complete_transfer_with_relay(
        tokens,
        contracts,
        mint,
        native_mint,
        decimals,
        mint_is_native,
        already_redeemed,
        emitter_chain,
        emitter_address,
        vaa_amount,
        message,
        recipient,
        payer,
    )
}

/// Redeems an inbound transfer of a wrapped token. A wrapped mint is never
/// the native mint, so nothing is unwrapped.
pub fn complete_wrapped_transfer_with_relay(
    tokens: &TokenRegistry,
    contracts: &ForeignContractRegistry,
    mint: &[u8; 32],
    native_mint: &[u8; 32],
    decimals: u8,
    already_redeemed: bool,
    emitter_chain: u16,
    emitter_address: &[u8; 32],
    vaa_amount: u64,
    message: &TokenBridgeRelayerMessage,
    recipient: &[u8; 32],
    payer: &[u8; 32],
) -> (r: Result<Redemption, TokenBridgeRelayerError>)
    requires
        decimals > 8 ==> pow10((decimals - 8) as nat) <= u64::MAX,
        spec_denormalize_amount(vaa_amount, decimals) <= u64::MAX,
        message.spec_target_relayer_fee() + message.spec_to_native_token_amount() <= vaa_amount,
    ensures
        r == spec_redeem_outcome(
            tokens.spec_get(mint@),
            tokens.spec_get(native_mint@),
            contracts.spec_get(emitter_chain),
            decimals,
            false,
            already_redeemed,
            emitter_chain,
            emitter_address@,
            vaa_amount,
            *message,
            recipient@,
            payer@,
        ),
        r matches Ok(Redemption::Relayed {
            amount_for_fee_recipient,
            amount_for_recipient,
            ..
        }) ==> amount_for_fee_recipient + amount_for_recipient == spec_denormalize_amount(
            vaa_amount,
            decimals,
        ),
{
    complete_transfer_with_relay(
        tokens,
        contracts,
        mint,
        native_mint,
        decimals,
        false,
        already_redeemed,
        emitter_chain,
        emitter_address,
        vaa_amount,
        message,
        recipient,
        payer,
    )
}

} // verus!
