//! Two-phase ownership transfer and assistant management.
//!
//! The owner submits a transfer naming a pending owner; only that pending
//! owner can confirm it, which rewrites the owner field of every
//! configuration singleton in the same operation; the current owner can
//! cancel an in-flight request without changing ownership.

use vstd::prelude::*;
use crate::error::TokenBridgeRelayerError;
use crate::owner_config::OwnerConfig;
use crate::redeemer_config::RedeemerConfig;
use crate::sender_config::SenderConfig;
use crate::util::{is_zero_address, keys_equal, spec_zero_address};

verus! {

/// Why a transfer request would be rejected, or `None` when it is allowed:
/// only the owner may submit, and the pending owner must be a fresh, nonzero
/// key.
pub open spec fn spec_submit_check(
    config: OwnerConfig,
    caller: Seq<u8>,
    new_owner: Seq<u8>,
) -> Option<TokenBridgeRelayerError> {
    if !config.spec_is_owner(caller) {
        Some(TokenBridgeRelayerError::OwnerOnly)
    } else if new_owner == spec_zero_address() {
        Some(TokenBridgeRelayerError::InvalidPublicKey)
    } else if new_owner == config.owner@ {
        Some(TokenBridgeRelayerError::AlreadyTheOwner)
    } else {
        None
    }
}

/// The configuration after a transfer request: unchanged but for the pending
/// owner.
pub open spec fn spec_submit_next(config: OwnerConfig, new_owner: [u8; 32]) -> OwnerConfig {
    OwnerConfig { pending_owner: Some(new_owner), ..config }
}

/// Records `new_owner` as the pending owner. Owner-only; the new owner must
/// be nonzero and different from the current owner.
pub fn submit_ownership_transfer_request(
    owner_config: &mut OwnerConfig,
    caller: &[u8; 32],
    new_owner: &[u8; 32],
) -> (r: Result<(), TokenBridgeRelayerError>)
    ensures
        match spec_submit_check(*old(owner_config), caller@, new_owner@) {
            None => r == Ok::<(), TokenBridgeRelayerError>(())
                && *final(owner_config) == spec_submit_next(*old(owner_config), *new_owner),
            Some(e) => r == Err::<(), TokenBridgeRelayerError>(e)
                && *final(owner_config) == *old(owner_config),
        },
{
    if !owner_config.is_owner(caller) {
        return Err(TokenBridgeRelayerError::OwnerOnly);
    }
    if is_zero_address(new_owner) {
        return Err(TokenBridgeRelayerError::InvalidPublicKey);
    }
    if owner_config.is_owner(new_owner) {
        return Err(TokenBridgeRelayerError::AlreadyTheOwner);
    }
    owner_config.pending_owner = Some(*new_owner);
    Ok(())
}

/// Completes an in-flight transfer: the caller must be the pending owner and
/// becomes the owner in the ownership, sender and redeemer configurations in
/// one step, clearing the pending slot.
pub fn confirm_ownership_transfer_request(
    owner_config: &mut OwnerConfig,
    sender_config: &mut SenderConfig,
    redeemer_config: &mut RedeemerConfig,
    caller: &[u8; 32],
) -> (r: Result<(), TokenBridgeRelayerError>)
    ensures
        if old(owner_config).spec_is_pending_owner(caller@) {
            r == Ok::<(), TokenBridgeRelayerError>(())
                && *final(owner_config) == (OwnerConfig {
                    owner: *caller,
                    pending_owner: None,
                    ..*old(owner_config)
                })
                && *final(sender_config) == (SenderConfig { owner: *caller, ..*old(sender_config) })
                && *final(redeemer_config) == (RedeemerConfig {
                    owner: *caller,
                    ..*old(redeemer_config)
                })
        } else {
            r == Err::<(), TokenBridgeRelayerError>(TokenBridgeRelayerError::NotPendingOwner)
                && *final(owner_config) == *old(owner_config)
                && *final(sender_config) == *old(sender_config)
                && *final(redeemer_config) == *old(redeemer_config)
        },
{
    if !owner_config.is_pending_owner(caller) {
        return Err(TokenBridgeRelayerError::NotPendingOwner);
    }
    sender_config.owner = *caller;
    redeemer_config.owner = *caller;
    owner_config.owner = *caller;
    owner_config.pending_owner = None;
    Ok(())
}

/// Cancels an in-flight transfer request. Owner-only; the owner is
/// unchanged.
pub fn cancel_ownership_transfer_request(
    owner_config: &mut OwnerConfig,
    caller: &[u8; 32],
) -> (r: Result<(), TokenBridgeRelayerError>)
    ensures
        if old(owner_config).spec_is_owner(caller@) {
            r == Ok::<(), TokenBridgeRelayerError>(())
                && *final(owner_config) == (OwnerConfig {
                    pending_owner: None,
                    ..*old(owner_config)
                })
        } else {
            r == Err::<(), TokenBridgeRelayerError>(TokenBridgeRelayerError::OwnerOnly)
                && *final(owner_config) == *old(owner_config)
        },
{
    if !owner_config.is_owner(caller) {
        return Err(TokenBridgeRelayerError::OwnerOnly);
    }
    owner_config.pending_owner = None;
    Ok(())
}

/// Why an assistant update would be rejected, or `None` when it is allowed.
pub open spec fn spec_update_assistant_check(
    config: OwnerConfig,
    caller: Seq<u8>,
    new_assistant: Seq<u8>,
) -> Option<TokenBridgeRelayerError> {
    if !config.spec_is_owner(caller) {
        Some(TokenBridgeRelayerError::OwnerOnly)
    } else if new_assistant == spec_zero_address() {
        Some(TokenBridgeRelayerError::InvalidPublicKey)
    } else if new_assistant == config.assistant@ {
        Some(TokenBridgeRelayerError::AlreadyTheAssistant)
    } else {
        None
    }
}

/// Replaces the assistant key. Owner-only; the new assistant must be nonzero
/// and different from the current one.
pub fn update_assistant(
    owner_config: &mut OwnerConfig,
    caller: &[u8; 32],
    new_assistant: &[u8; 32],
) -> (r: Result<(), TokenBridgeRelayerError>)
    ensures
        match spec_update_assistant_check(*old(owner_config), caller@, new_assistant@) {
            None => r == Ok::<(), TokenBridgeRelayerError>(())
                && *final(owner_config) == (OwnerConfig {
                    assistant: *new_assistant,
                    ..*old(owner_config)
                }),
            Some(e) => r == Err::<(), TokenBridgeRelayerError>(e)
                && *final(owner_config) == *old(owner_config),
        },
{
    if !owner_config.is_owner(caller) {
        return Err(TokenBridgeRelayerError::OwnerOnly);
    }
    if is_zero_address(new_assistant) {
        return Err(TokenBridgeRelayerError::InvalidPublicKey);
    }
    if keys_equal(&owner_config.assistant, new_assistant) {
        return Err(TokenBridgeRelayerError::AlreadyTheAssistant);
    }
    owner_config.assistant = *new_assistant;
    Ok(())
}

/// Two-phase ownership transfer protocol, end to end: after an allowed
/// submission, the pending-owner check passes for the named new owner and no
/// other key, and a cancellation clears the pending slot while keeping the
/// owner unchanged. (That a confirmation rewrites every configuration
/// singleton's owner in one step is stated by
/// `confirm_ownership_transfer_request` itself.)
pub proof fn lemma_ownership_transfer_two_phase(
    config: OwnerConfig,
    new_owner: [u8; 32],
    key: Seq<u8>,
)
    requires
        spec_submit_check(config, config.owner@, new_owner@) is None,
    ensures
        ({
            let pending = spec_submit_next(config, new_owner);
            &&& pending.spec_is_pending_owner(key) <==> key == new_owner@
            &&& pending.owner == config.owner
            &&& OwnerConfig { pending_owner: None, ..pending } == (OwnerConfig {
                pending_owner: None,
                ..config
            })
        }),
{
}

} // verus!
