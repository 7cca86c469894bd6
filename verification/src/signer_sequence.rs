//! Per-payer outbound message counter.

use vstd::prelude::*;
use crate::message::spec_u64_be_bytes;

verus! {

/// A monotonically increasing counter, one per payer, used to derive a
/// unique location for each outbound bridge message. It is read and
/// incremented exactly once per outbound transfer.
#[derive(Clone, Copy, Debug, PartialEq, Eq, Structural)]
pub struct SignerSequence {
    pub value: u64,
}

impl SignerSequence {
    /// Returns the current value as big-endian seed bytes and advances the
    /// counter by one.
    pub fn take_and_uptick(&mut self) -> (r: [u8; 8])
        requires
            old(self).value < u64::MAX,
        ensures
            final(self).value == old(self).value + 1,
            r@ == spec_u64_be_bytes(old(self).value),
    {
        let v = self.value;
        self.value += 1;
        proof {
            assert((v >> 56) & 0xff < 256 && (v >> 48) & 0xff < 256 && (v >> 40) & 0xff < 256 && (v
                >> 32) & 0xff < 256 && (v >> 24) & 0xff < 256 && (v >> 16) & 0xff < 256 && (v >> 8)
                & 0xff < 256 && v & 0xff < 256) by (bit_vector);
        }
        let r = [
            ((v >> 56) & 0xff) as u8,
            ((v >> 48) & 0xff) as u8,
            ((v >> 40) & 0xff) as u8,
            ((v >> 32) & 0xff) as u8,
            ((v >> 24) & 0xff) as u8,
            ((v >> 16) & 0xff) as u8,
            ((v >> 8) & 0xff) as u8,
            (v & 0xff) as u8,
        ];
        proof {
            assert(r@ =~= spec_u64_be_bytes(v));
        }
        r
    }
}

} // verus!
