//! Outbound-side configuration singleton.

use vstd::prelude::*;

verus! {

/// Addresses of the token bridge collaborator that outbound transfers need.
#[derive(Clone, Copy, Debug)]
pub struct OutboundTokenBridgeAddresses {
    /// The bridge emitter's sequence tracker account key.
    pub sequence: [u8; 32],
}

/// Program data for outbound transfers. The `owner` recorded here is the
/// program's owner; the two-phase ownership transfer keeps it in lockstep
/// with the owner fields of the other configuration singletons.
#[derive(Clone, Copy, Debug)]
pub struct SenderConfig {
    /// Program's owner.
    pub owner: [u8; 32],
    /// Storage bump seed of this singleton.
    pub bump: u8,
    /// Token bridge collaborator's relevant addresses.
    pub token_bridge: OutboundTokenBridgeAddresses,
    /// Precision denominator of the USD-scaled relayer fee. Nonzero once
    /// initialized.
    pub relayer_fee_precision: u32,
    /// Whether outbound transfers are paused.
    pub paused: bool,
}

} // verus!
