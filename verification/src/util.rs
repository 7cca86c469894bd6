//! Shared constants and address helpers.
//!
//! Account keys and foreign addresses are plain 32-byte arrays throughout the
//! crate; the host environment converts its own key type at the boundary.

use vstd::prelude::*;

verus! {

/// Swap rate precision. This value should never change, unless contracts on
/// other chains are deployed with a different precision.
pub const SWAP_RATE_PRECISION: u32 = 100_000_000;

/// Chain ID of the local chain in the message bridge's numbering; a foreign
/// contract can never be registered under it.
pub const LOCAL_CHAIN_ID: u16 = 1;

/// The all-zero address, used both as "no key set" and as an invalid
/// foreign address.
pub open spec fn spec_zero_address() -> Seq<u8> {
    Seq::new(32, |i: int| 0u8)
}

/// True exactly when `a` is the all-zero address.
pub fn is_zero_address(a: &[u8; 32]) -> (r: bool)
    ensures
        r <==> a@ == spec_zero_address(),
{
    let mut i: usize = 0;
    while i < 32
        invariant
            i <= 32,
            forall|j: int| 0 <= j < i ==> a@[j] == 0u8,
        decreases 32 - i,
    {
        if a[i] != 0 {
            assert(a@ != spec_zero_address()) by {
                assert(spec_zero_address()[i as int] == 0u8);
            }
            return false;
        }
        i += 1;
    }
    assert(a@ =~= spec_zero_address());
    true
}

/// True exactly when the two 32-byte keys are equal.
pub fn keys_equal(a: &[u8; 32], b: &[u8; 32]) -> (r: bool)
    ensures
        r <==> a@ == b@,
{
    let mut i: usize = 0;
    while i < 32
        invariant
            i <= 32,
            forall|j: int| 0 <= j < i ==> a@[j] == b@[j],
        decreases 32 - i,
    {
        if a[i] != b[i] {
            return false;
        }
        i += 1;
    }
    assert(a@ =~= b@);
    true
}

/// A foreign chain/address pair is addressable when the chain id is neither
/// zero nor the local chain's own id and the address is nonzero.
pub open spec fn spec_valid_foreign_address(chain: u16, address: Seq<u8>) -> bool {
    chain != 0 && chain != LOCAL_CHAIN_ID && address != spec_zero_address()
}

/// Checks that a chain/address pair may stand for a foreign endpoint.
pub fn valid_foreign_address(chain: u16, address: &[u8; 32]) -> (r: bool)
    ensures
        r <==> spec_valid_foreign_address(chain, address@),
{
    chain != 0 && chain != LOCAL_CHAIN_ID && !is_zero_address(address)
}

} // verus!
