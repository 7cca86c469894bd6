//! Inbound-side configuration singleton.

use vstd::prelude::*;

verus! {

/// Program data for inbound redemptions. The `owner` recorded here is the
/// program's owner; the two-phase ownership transfer keeps it in lockstep
/// with the owner fields of the other configuration singletons.
#[derive(Clone, Copy, Debug)]
pub struct RedeemerConfig {
    /// Program's owner.
    pub owner: [u8; 32],
    /// Storage bump seed of this singleton.
    pub bump: u8,
    /// Precision denominator of the USD-scaled relayer fee. Nonzero once
    /// initialized.
    pub relayer_fee_precision: u32,
    /// Recipient of all relayer fees and swap proceeds.
    pub fee_recipient: [u8; 32],
}

} // verus!
