//! Outbound relayer fee record.

use vstd::prelude::*;
use crate::fee::{spec_token_fee, token_fee};
use crate::util::SWAP_RATE_PRECISION;

verus! {

/// USD-denominated relayer fee for one foreign chain.
#[derive(Clone, Copy, Debug, PartialEq, Eq, Structural)]
pub struct RelayerFee {
    /// Emitter chain. Cannot equal zero or the local chain's id.
    pub chain: u16,
    /// Relayer fee in USD terms, scaled by the relayer fee precision.
    pub fee: u64,
}

impl RelayerFee {
    /// Converts this fee into units of the token being transferred, at the
    /// token's USD swap rate and the configured precision; `None` where the
    /// conversion is not representable.
    pub fn checked_token_fee(
        &self,
        decimals: u8,
        swap_rate: u64,
        relayer_fee_precision: u32,
    ) -> (r: Option<u64>)
        ensures
            r == spec_token_fee(
                self.fee,
                decimals,
                swap_rate,
                relayer_fee_precision,
                SWAP_RATE_PRECISION,
            ),
    {
        token_fee(self.fee, decimals, swap_rate, relayer_fee_precision, SWAP_RATE_PRECISION)
    }
}

} // verus!
