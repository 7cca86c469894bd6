//! Outbound transfer orchestration.
//!
//! An outbound transfer truncates the deposit to what the bridge can carry,
//! validates the destination, normalizes the swap request, converts the
//! relayer fee into token units, checks that the transferred amount strictly
//! exceeds swap allocation plus fee, and produces the payload the bridge
//! posts. Custody movements and the bridge call itself are the host's work;
//! this module decides everything about them.

use vstd::prelude::*;
use crate::amounts::{
    normalize_amount,
    spec_normalize_amount,
    spec_truncate_amount,
    truncate_amount,
};
use crate::error::TokenBridgeRelayerError;
use crate::fee::spec_token_fee;
use crate::foreign_contract::{ForeignContract, ForeignContractRegistry};
use crate::message::TokenBridgeRelayerMessage;
use crate::registered_token::{RegisteredToken, TokenRegistry};
use crate::sender_config::SenderConfig;
use crate::signer_sequence::SignerSequence;
use crate::util::{spec_valid_foreign_address, valid_foreign_address, SWAP_RATE_PRECISION};

verus! {

/// What the host must hand the bridge for one outbound transfer.
#[derive(Clone, Copy, Debug)]
pub struct OutboundTransfer {
    /// The amount delegated to the bridge: the deposit truncated to the
    /// bridge's 8-decimal representation.
    pub amount: u64,
    /// The payload to post alongside the bridge transfer.
    pub message: TokenBridgeRelayerMessage,
}

/// The payload built for an outbound transfer, or the error that rejects
/// it: the recipient must be an addressable foreign address, a nonzero swap
/// request must survive normalization, the relayer fee must be
/// representable in token units, and the normalized amount must strictly
/// exceed the normalized swap request plus the normalized fee, leaving a
/// positive remainder for the recipient.
pub open spec fn spec_prepare_transfer(
    config: SenderConfig,
    token: RegisteredToken,
    contract: ForeignContract,
    decimals: u8,
    amount: u64,
    to_native_token_amount: u64,
    recipient_chain: u16,
    recipient: [u8; 32],
) -> Result<TokenBridgeRelayerMessage, TokenBridgeRelayerError> {
    let normalized_to_native = spec_normalize_amount(to_native_token_amount, decimals);
    let fee = spec_token_fee(
        contract.fee,
        decimals,
        token.swap_rate,
        config.relayer_fee_precision,
        SWAP_RATE_PRECISION,
    );
    if !spec_valid_foreign_address(recipient_chain, recipient@) {
        Err(TokenBridgeRelayerError::InvalidRecipient)
    } else if to_native_token_amount != 0 && normalized_to_native == 0 {
        Err(TokenBridgeRelayerError::InvalidToNativeAmount)
    } else if fee is None {
        Err(TokenBridgeRelayerError::FeeCalculationError)
    } else {
        let normalized_fee = spec_normalize_amount(fee->Some_0, decimals);
        if spec_normalize_amount(amount, decimals) <= normalized_to_native + normalized_fee {
            Err(TokenBridgeRelayerError::InsufficientFunds)
        } else {
            Ok(TokenBridgeRelayerMessage::TransferWithRelay {
                target_relayer_fee: normalized_fee as u64,
                to_native_token_amount: normalized_to_native as u64,
                recipient,
            })
        }
    }
}

/// Validates an outbound transfer and builds its payload.
pub fn prepare_transfer(
    config: &SenderConfig,
    token: &RegisteredToken,
    contract: &ForeignContract,
    decimals: u8,
    amount: u64,
    to_native_token_amount: u64,
    recipient_chain: u16,
    recipient: &[u8; 32],
) -> (r: Result<TokenBridgeRelayerMessage, TokenBridgeRelayerError>)
    ensures
        r == spec_prepare_transfer(
            *config,
            *token,
            *contract,
            decimals,
            amount,
            to_native_token_amount,
            recipient_chain,
            *recipient,
        ),
{
    if !valid_foreign_address(recipient_chain, recipient) {
        return Err(TokenBridgeRelayerError::InvalidRecipient);
    }
    let normalized_to_native = normalize_amount(to_native_token_amount, decimals);
    if to_native_token_amount != 0 && normalized_to_native == 0 {
        return Err(TokenBridgeRelayerError::InvalidToNativeAmount);
    }
    let fee = match contract.checked_token_fee(decimals, token.swap_rate, config.relayer_fee_precision) {
        Some(f) => f,
        None => {
            return Err(TokenBridgeRelayerError::FeeCalculationError);
        },
    };
    let normalized_fee = normalize_amount(fee, decimals);
    let normalized_amount = normalize_amount(amount, decimals);
    if (normalized_amount as u128) <= (normalized_to_native as u128) + (normalized_fee as u128) {
        return Err(TokenBridgeRelayerError::InsufficientFunds);
    }
    Ok(TokenBridgeRelayerMessage::TransferWithRelay {
        target_relayer_fee: normalized_fee,
        to_native_token_amount: normalized_to_native,
        recipient: *recipient,
    })
}

/// The full outcome of a native-token outbound transfer: every rejection in
/// the order the checks run, or the truncated amount and payload.
pub open spec fn spec_transfer_native_outcome(
    config: SenderConfig,
    token_opt: Option<RegisteredToken>,
    contract_opt: Option<ForeignContract>,
    decimals: u8,
    mint_is_native: bool,
    amount: u64,
    to_native_token_amount: u64,
    recipient_chain: u16,
    recipient: [u8; 32],
    wrap_native: bool,
) -> Result<OutboundTransfer, TokenBridgeRelayerError> {
    if config.paused {
        Err(TokenBridgeRelayerError::OutboundTransfersPaused)
    } else if token_opt is None {
        Err(TokenBridgeRelayerError::TokenNotRegistered)
    } else if contract_opt is None {
        Err(TokenBridgeRelayerError::ChainNotRegistered)
    } else {
        let truncated = spec_truncate_amount(amount, decimals) as u64;
        if truncated == 0 {
            Err(TokenBridgeRelayerError::ZeroBridgeAmount)
        } else if wrap_native && !mint_is_native {
            Err(TokenBridgeRelayerError::NativeMintRequired)
        } else {
            match spec_prepare_transfer(
                config,
                token_opt->Some_0,
                contract_opt->Some_0,
                decimals,
                truncated,
                to_native_token_amount,
                recipient_chain,
                recipient,
            ) {
                Err(e) => Err(e),
                Ok(m) => Ok(OutboundTransfer { amount: truncated, message: m }),
            }
        }
    }
}

/// Orchestrates an outbound transfer of a native-chain token (optionally
/// wrapping the native currency first): looks up the registered token and
/// the destination's foreign contract, validates everything, and on success
/// consumes one message sequence number.
pub fn transfer_native_tokens_with_relay(
    config: &SenderConfig,
    tokens: &TokenRegistry,
    contracts: &ForeignContractRegistry,
    payer_sequence: &mut SignerSequence,
    mint: &[u8; 32],
    decimals: u8,
    mint_is_native: bool,
    amount: u64,
    to_native_token_amount: u64,
    recipient_chain: u16,
    recipient_address: &[u8; 32],
    wrap_native: bool,
) -> (r: Result<OutboundTransfer, TokenBridgeRelayerError>)
    requires
        old(payer_sequence).value < u64::MAX,
    ensures
        r == spec_transfer_native_outcome(
            *config,
            tokens.spec_get(mint@),
            contracts.spec_get(recipient_chain),
            decimals,
            mint_is_native,
            amount,
            to_native_token_amount,
            recipient_chain,
            *recipient_address,
            wrap_native,
        ),
        r is Ok ==> final(payer_sequence).value == old(payer_sequence).value + 1,
        r is Err ==> *final(payer_sequence) == *old(payer_sequence),
{
    if config.paused {
        return Err(TokenBridgeRelayerError::OutboundTransfersPaused);
    }
    let token = match tokens.get(mint) {
        Some(t) => t,
        None => {
            return Err(TokenBridgeRelayerError::TokenNotRegistered);
        },
    };
    let contract = match contracts.get(recipient_chain) {
        Some(c) => c,
        None => {
            return Err(TokenBridgeRelayerError::ChainNotRegistered);
        },
    };
    let truncated = truncate_amount(amount, decimals);
    if truncated == 0 {
        return Err(TokenBridgeRelayerError::ZeroBridgeAmount);
    }
    if wrap_native && !mint_is_native {
        return Err(TokenBridgeRelayerError::NativeMintRequired);
    }
    let message = match prepare_transfer(
        config,
        &token,
        &contract,
        decimals,
        truncated,
        to_native_token_amount,
        recipient_chain,
        recipient_address,
    ) {
        Ok(m) => m,
        Err(e) => {
            return Err(e);
        },
    };
    let _seed = payer_sequence.take_and_uptick();
    Ok(OutboundTransfer { amount: truncated, message })
}

/// The full outcome of a wrapped-token outbound transfer. A wrapped token
/// already has the bridge's decimal range, so nothing is truncated and a
/// zero amount surfaces as insufficient funds.
pub open spec fn spec_transfer_wrapped_outcome(
    config: SenderConfig,
    token_opt: Option<RegisteredToken>,
    contract_opt: Option<ForeignContract>,
    decimals: u8,
    amount: u64,
    to_native_token_amount: u64,
    recipient_chain: u16,
    recipient: [u8; 32],
) -> Result<OutboundTransfer, TokenBridgeRelayerError> {
    if config.paused {
        Err(TokenBridgeRelayerError::OutboundTransfersPaused)
    } else if token_opt is None {
        Err(TokenBridgeRelayerError::TokenNotRegistered)
    } else if contract_opt is None {
        Err(TokenBridgeRelayerError::ChainNotRegistered)
    } else {
        match spec_prepare_transfer(
            config,
            token_opt->Some_0,
            contract_opt->Some_0,
            decimals,
            amount,
            to_native_token_amount,
            recipient_chain,
            recipient,
        ) {
            Err(e) => Err(e),
            Ok(m) => Ok(OutboundTransfer { amount, message: m }),
        }
    }
}

/// Orchestrates an outbound transfer of a wrapped token.
pub fn transfer_wrapped_tokens_with_relay(
    config: &SenderConfig,
    tokens: &TokenRegistry,
    contracts: &ForeignContractRegistry,
    payer_sequence: &mut SignerSequence,
    mint: &[u8; 32],
    decimals: u8,
    amount: u64,
    to_native_token_amount: u64,
    recipient_chain: u16,
    recipient_address: &[u8; 32],
) -> (r: Result<OutboundTransfer, TokenBridgeRelayerError>)
    requires
        old(payer_sequence).value < u64::MAX,
    ensures
        r == spec_transfer_wrapped_outcome(
            *config,
            tokens.spec_get(mint@),
            contracts.spec_get(recipient_chain),
            decimals,
            amount,
            to_native_token_amount,
            recipient_chain,
            *recipient_address,
        ),
        r is Ok ==> final(payer_sequence).value == old(payer_sequence).value + 1,
        r is Err ==> *final(payer_sequence) == *old(payer_sequence),
{
    if config.paused {
        return Err(TokenBridgeRelayerError::OutboundTransfersPaused);
    }
    let token = match tokens.get(mint) {
        Some(t) => t,
        None => {
            return Err(TokenBridgeRelayerError::TokenNotRegistered);
        },
    };
    let contract = match contracts.get(recipient_chain) {
        Some(c) => c,
        None => {
            return Err(TokenBridgeRelayerError::ChainNotRegistered);
        },
    };
    let message = match prepare_transfer(
        config,
        &token,
        &contract,
        decimals,
        amount,
        to_native_token_amount,
        recipient_chain,
        recipient_address,
    ) {
        Ok(m) => m,
        Err(e) => {
            return Err(e);
        },
    };
    let _seed = payer_sequence.take_and_uptick();
    Ok(OutboundTransfer { amount, message })
}

} // verus!
