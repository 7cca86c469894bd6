//! Program initialization and owner-only configuration updates.

use vstd::prelude::*;
use crate::error::TokenBridgeRelayerError;
use crate::redeemer_config::RedeemerConfig;
use crate::sender_config::{OutboundTokenBridgeAddresses, SenderConfig};
use crate::owner_config::OwnerConfig;
use crate::util::{is_zero_address, keys_equal, spec_zero_address, SWAP_RATE_PRECISION};

verus! {

/// Creates the three configuration singletons. The deployer becomes the
/// owner everywhere; the fee recipient and the assistant must be nonzero
/// keys. The relayer fee precision starts out equal to the fixed swap rate
/// precision, transfers start unpaused, and no ownership transfer is
/// pending.
pub fn initialize(
    owner: &[u8; 32],
    fee_recipient: &[u8; 32],
    assistant: &[u8; 32],
    sender_bump: u8,
    redeemer_bump: u8,
    token_bridge_sequence: &[u8; 32],
) -> (r: Result<(SenderConfig, RedeemerConfig, OwnerConfig), TokenBridgeRelayerError>)
    ensures
        if fee_recipient@ != spec_zero_address() && assistant@ != spec_zero_address() {
            r == Ok::<_, TokenBridgeRelayerError>((
                SenderConfig {
                    owner: *owner,
                    bump: sender_bump,
                    token_bridge: OutboundTokenBridgeAddresses { sequence: *token_bridge_sequence },
                    relayer_fee_precision: SWAP_RATE_PRECISION,
                    paused: false,
                },
                RedeemerConfig {
                    owner: *owner,
                    bump: redeemer_bump,
                    relayer_fee_precision: SWAP_RATE_PRECISION,
                    fee_recipient: *fee_recipient,
                },
                OwnerConfig { owner: *owner, assistant: *assistant, pending_owner: None },
            ))
        } else {
            r == Err::<(SenderConfig, RedeemerConfig, OwnerConfig), _>(
                TokenBridgeRelayerError::InvalidPublicKey,
            )
        },
{
    if is_zero_address(fee_recipient) || is_zero_address(assistant) {
        return Err(TokenBridgeRelayerError::InvalidPublicKey);
    }
    Ok((
        SenderConfig {
            owner: *owner,
            bump: sender_bump,
            token_bridge: OutboundTokenBridgeAddresses { sequence: *token_bridge_sequence },
            relayer_fee_precision: SWAP_RATE_PRECISION,
            paused: false,
        },
        RedeemerConfig {
            owner: *owner,
            bump: redeemer_bump,
            relayer_fee_precision: SWAP_RATE_PRECISION,
            fee_recipient: *fee_recipient,
        },
        OwnerConfig { owner: *owner, assistant: *assistant, pending_owner: None },
    ))
}

/// Sets the pause flag that gates every outbound transfer. Owner-only.
pub fn set_pause_for_transfers(
    sender_config: &mut SenderConfig,
    caller: &[u8; 32],
    paused: bool,
) -> (r: Result<(), TokenBridgeRelayerError>)
    ensures
        if old(sender_config).owner@ == caller@ {
            r == Ok::<(), TokenBridgeRelayerError>(())
                && *final(sender_config) == (SenderConfig { paused, ..*old(sender_config) })
        } else {
            r == Err::<(), TokenBridgeRelayerError>(TokenBridgeRelayerError::OwnerOnly)
                && *final(sender_config) == *old(sender_config)
        },
{
    if !keys_equal(&sender_config.owner, caller) {
        return Err(TokenBridgeRelayerError::OwnerOnly);
    }
    sender_config.paused = paused;
    Ok(())
}

/// Why a fee recipient update would be rejected, or `None` when it is
/// allowed.
pub open spec fn spec_update_fee_recipient_check(
    config: RedeemerConfig,
    caller: Seq<u8>,
    new_fee_recipient: Seq<u8>,
) -> Option<TokenBridgeRelayerError> {
    if config.owner@ != caller {
        Some(TokenBridgeRelayerError::OwnerOnly)
    } else if new_fee_recipient == spec_zero_address() {
        Some(TokenBridgeRelayerError::InvalidPublicKey)
    } else if new_fee_recipient == config.fee_recipient@ {
        Some(TokenBridgeRelayerError::AlreadyTheFeeRecipient)
    } else {
        None
    }
}

/// Replaces the recipient of relayer fees and swap proceeds. Owner-only; the
/// new key must be nonzero and different from the current one.
pub fn update_fee_recipient(
    redeemer_config: &mut RedeemerConfig,
    caller: &[u8; 32],
    new_fee_recipient: &[u8; 32],
) -> (r: Result<(), TokenBridgeRelayerError>)
    ensures
        match spec_update_fee_recipient_check(*old(redeemer_config), caller@, new_fee_recipient@) {
            None => r == Ok::<(), TokenBridgeRelayerError>(())
                && *final(redeemer_config) == (RedeemerConfig {
                    fee_recipient: *new_fee_recipient,
                    ..*old(redeemer_config)
                }),
            Some(e) => r == Err::<(), TokenBridgeRelayerError>(e)
                && *final(redeemer_config) == *old(redeemer_config),
        },
{
    if !keys_equal(&redeemer_config.owner, caller) {
        return Err(TokenBridgeRelayerError::OwnerOnly);
    }
    if is_zero_address(new_fee_recipient) {
        return Err(TokenBridgeRelayerError::InvalidPublicKey);
    }
    if keys_equal(&redeemer_config.fee_recipient, new_fee_recipient) {
        return Err(TokenBridgeRelayerError::AlreadyTheFeeRecipient);
    }
    redeemer_config.fee_recipient = *new_fee_recipient;
    Ok(())
}

/// Sets the relayer fee precision in the sender and redeemer configurations
/// in one step, keeping the two copies consistent. Owner-only; zero is
/// rejected.
pub fn update_relayer_fee_precision(
    sender_config: &mut SenderConfig,
    redeemer_config: &mut RedeemerConfig,
    caller: &[u8; 32],
    relayer_fee_precision: u32,
) -> (r: Result<(), TokenBridgeRelayerError>)
    ensures
        if old(redeemer_config).owner@ == caller@ && old(sender_config).owner@ == caller@ {
            if relayer_fee_precision > 0 {
                r == Ok::<(), TokenBridgeRelayerError>(())
                    && *final(sender_config) == (SenderConfig {
                        relayer_fee_precision,
                        ..*old(sender_config)
                    })
                    && *final(redeemer_config) == (RedeemerConfig {
                        relayer_fee_precision,
                        ..*old(redeemer_config)
                    })
            } else {
                r == Err::<(), TokenBridgeRelayerError>(TokenBridgeRelayerError::InvalidPrecision)
                    && *final(sender_config) == *old(sender_config)
                    && *final(redeemer_config) == *old(redeemer_config)
            }
        } else {
            r == Err::<(), TokenBridgeRelayerError>(TokenBridgeRelayerError::OwnerOnly)
                && *final(sender_config) == *old(sender_config)
                && *final(redeemer_config) == *old(redeemer_config)
        },
{
    if !keys_equal(&redeemer_config.owner, caller) || !keys_equal(&sender_config.owner, caller) {
        return Err(TokenBridgeRelayerError::OwnerOnly);
    }
    if relayer_fee_precision == 0 {
        return Err(TokenBridgeRelayerError::InvalidPrecision);
    }
    redeemer_config.relayer_fee_precision = relayer_fee_precision;
    sender_config.relayer_fee_precision = relayer_fee_precision;
    Ok(())
}

} // verus!
