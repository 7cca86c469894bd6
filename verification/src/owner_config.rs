//! Ownership and authorization singleton.

use vstd::prelude::*;
use crate::util::keys_equal;

verus! {

/// Holds the owner, the assistant, and — while an ownership transfer is in
/// flight — the pending owner. `pending_owner` is `Some` exactly during an
/// in-flight transfer request.
#[derive(Clone, Copy, Debug)]
pub struct OwnerConfig {
    /// Program's owner.
    pub owner: [u8; 32],
    /// Program's assistant; may update relayer fees and swap rates.
    pub assistant: [u8; 32],
    /// Intermediate storage for the pending owner during a transfer.
    pub pending_owner: Option<[u8; 32]>,
}

impl OwnerConfig {
    /// The key is the owner.
    pub open spec fn spec_is_owner(self, key: Seq<u8>) -> bool {
        self.owner@ == key
    }

    /// The key is the owner or the assistant.
    pub open spec fn spec_is_authorized(self, key: Seq<u8>) -> bool {
        self.owner@ == key || self.assistant@ == key
    }

    /// The key is the pending owner of an in-flight transfer.
    pub open spec fn spec_is_pending_owner(self, key: Seq<u8>) -> bool {
        match self.pending_owner {
            Some(p) => p@ == key,
            None => false,
        }
    }

    /// Checks whether `key` may perform operations open to the owner or the
    /// assistant.
    pub fn is_authorized(&self, key: &[u8; 32]) -> (r: bool)
        ensures
            r == self.spec_is_authorized(key@),
    {
        self.is_owner(key) || keys_equal(&self.assistant, key)
    }

    /// Checks whether `key` is the owner.
    pub fn is_owner(&self, key: &[u8; 32]) -> (r: bool)
        ensures
            r == self.spec_is_owner(key@),
    {
        keys_equal(&self.owner, key)
    }

    /// Checks whether `key` is the pending owner of an in-flight transfer.
    pub fn is_pending_owner(&self, key: &[u8; 32]) -> (r: bool)
        ensures
            r == self.spec_is_pending_owner(key@),
    {
        match &self.pending_owner {
            Some(p) => keys_equal(p, key),
            None => false,
        }
    }
}

} // verus!
