//! Error taxonomy of the relay bridge.
//!
//! Every operation fails synchronously with one of these kinds and leaves the
//! state untouched: validation always precedes mutation.

use vstd::prelude::*;

verus! {

/// All the ways an operation of this program can be rejected.
#[derive(Clone, Copy, Debug, PartialEq, Eq, Structural)]
pub enum TokenBridgeRelayerError {
    /// Specified message bridge data account is wrong.
    InvalidWormholeBridge,
    /// Specified message bridge fee collector account is wrong.
    InvalidWormholeFeeCollector,
    /// Only the program's owner is permitted.
    OwnerOnly,
    /// Outbound transfers are paused.
    OutboundTransfersPaused,
    /// Only the program's owner or assistant is permitted.
    OwnerOrAssistantOnly,
    /// Only the program's pending owner is permitted.
    NotPendingOwner,
    /// Specified key is already the program's owner.
    AlreadyTheOwner,
    /// Specified key is already the program's assistant.
    AlreadyTheAssistant,
    /// Specified key is already the program's fee recipient.
    AlreadyTheFeeRecipient,
    /// Storage bump seed not found.
    BumpNotFound,
    /// Failed to make program immutable.
    FailedToMakeImmutable,
    /// Specified foreign contract has a bad chain ID or zero address.
    InvalidForeignContract,
    /// Nothing to transfer if amount is zero.
    ZeroBridgeAmount,
    /// Must be strictly zero or nonzero when normalized.
    InvalidToNativeAmount,
    /// Must be the native mint.
    NativeMintRequired,
    /// Swaps are not allowed for the native mint.
    SwapsNotAllowedForNativeMint,
    /// Specified token bridge config account is wrong.
    InvalidTokenBridgeConfig,
    /// Specified token bridge authority signer account is wrong.
    InvalidTokenBridgeAuthoritySigner,
    /// Specified token bridge custody signer account is wrong.
    InvalidTokenBridgeCustodySigner,
    /// Specified token bridge emitter account is wrong.
    InvalidTokenBridgeEmitter,
    /// Specified token bridge sequence account is wrong.
    InvalidTokenBridgeSequence,
    /// Specified recipient has a bad chain ID or zero address.
    InvalidRecipient,
    /// Deserialized destination chain is invalid.
    InvalidTransferToChain,
    /// Deserialized token chain is invalid.
    InvalidTransferTokenChain,
    /// Relayer fee and swap rate precision must be nonzero.
    InvalidPrecision,
    /// Deserialized recipient must be this program or the redeemer.
    InvalidTransferToAddress,
    /// Token bridge program's transfer is already redeemed.
    AlreadyRedeemed,
    /// Token bridge program's foreign endpoint disagrees with registered one.
    InvalidTokenBridgeForeignEndpoint,
    /// Specified token bridge mint authority account is wrong.
    InvalidTokenBridgeMintAuthority,
    /// Public key is the default (all-zero) key.
    InvalidPublicKey,
    /// Swap rate is zero.
    ZeroSwapRate,
    /// Token is not registered.
    TokenNotRegistered,
    /// Foreign contract not registered for specified chain.
    ChainNotRegistered,
    /// Token is already registered.
    TokenAlreadyRegistered,
    /// Token fee overflow.
    FeeCalculationError,
    /// Swap calculation overflow.
    InvalidSwapCalculation,
    /// Insufficient funds for outbound transfer.
    InsufficientFunds,
}

} // verus!
