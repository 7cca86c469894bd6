//! Verified core of a cross-chain token relay bridge.
//!
//! A user deposits tokens on the host chain, a message-passing bridge carries
//! them to a foreign chain, and an off-chain relayer completes redemption
//! there, collecting a USD-denominated fee and optionally swapping part of the
//! amount into the destination chain's native currency for the recipient.
//!
//! This crate holds the value-moving logic of that protocol: the fixed-point
//! fee engine, the native-swap calculator, the wire codec for the relay
//! payload, the registry and configuration state machine with its two-phase
//! ownership transfer, and the outbound/inbound orchestration rules. The host
//! chain's account model, token custody and the bridge's attestation machinery
//! are collaborators: they live outside this crate and exchange plain values
//! with it.

pub mod admin;
pub mod amounts;
pub mod error;
pub mod fee;
pub mod foreign_contract;
pub mod message;
pub mod owner_config;
pub mod ownership;
pub mod redeem;
pub mod redeemer_config;
pub mod registered_token;
pub mod relayer_fee;
pub mod sender_config;
pub mod signer_sequence;
pub mod transfer;
pub mod util;
