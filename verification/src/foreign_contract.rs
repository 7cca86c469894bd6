//! Trusted foreign emitters, keyed by chain id.
//!
//! A foreign contract record names the one emitter this program accepts
//! messages from on a given chain, together with the USD-denominated fee a
//! relayer earns for redeeming a transfer from that chain. Registration is
//! owner-only and create-or-overwrite; records are never deleted.

use vstd::prelude::*;
use crate::error::TokenBridgeRelayerError;
use crate::fee::{spec_token_fee, token_fee};
use crate::owner_config::OwnerConfig;
use crate::sender_config::SenderConfig;
use crate::util::{keys_equal, spec_valid_foreign_address, valid_foreign_address, SWAP_RATE_PRECISION};

verus! {

/// One registered foreign emitter.
#[derive(Clone, Copy, Debug)]
pub struct ForeignContract {
    /// Emitter chain. Cannot equal zero or the local chain's id.
    pub chain: u16,
    /// Emitter address. Cannot be the zero address.
    pub address: [u8; 32],
    /// The token bridge collaborator's foreign endpoint account key for this
    /// chain.
    pub token_bridge_foreign_endpoint: [u8; 32],
    /// The fee paid to the fee recipient upon redeeming a transfer, in USD
    /// terms scaled by the relayer fee precision.
    pub fee: u64,
}

impl ForeignContract {
    /// An attested message is trusted only when its emitter chain and
    /// address both match this record.
    pub open spec fn spec_verify(self, emitter_chain: u16, emitter_address: Seq<u8>) -> bool {
        emitter_chain == self.chain && emitter_address == self.address@
    }

    /// Checks an attested message's emitter against this record.
    pub fn verify(&self, emitter_chain: u16, emitter_address: &[u8; 32]) -> (r: bool)
        ensures
            r == self.spec_verify(emitter_chain, emitter_address@),
    {
        emitter_chain == self.chain && keys_equal(emitter_address, &self.address)
    }

    /// Converts this record's fee into units of the token being transferred;
    /// `None` where the conversion is not representable.
    pub fn checked_token_fee(
        &self,
        decimals: u8,
        swap_rate: u64,
        relayer_fee_precision: u32,
    ) -> (r: Option<u64>)
        ensures
            r == spec_token_fee(
                self.fee,
                decimals,
                swap_rate,
                relayer_fee_precision,
                SWAP_RATE_PRECISION,
            ),
    {
        token_fee(self.fee, decimals, swap_rate, relayer_fee_precision, SWAP_RATE_PRECISION)
    }
}

/// The record registered for `chain`, if any: the first entry carrying that
/// chain id.
pub open spec fn spec_find_contract(s: Seq<ForeignContract>, chain: u16) -> Option<ForeignContract>
    decreases s.len(),
{
    if s.len() == 0 {
        None
    } else if s[0].chain == chain {
        Some(s[0])
    } else {
        spec_find_contract(s.drop_first(), chain)
    }
}

/// When entry `i` is the first with its chain id, the lookup finds it.
proof fn lemma_find_contract_at(s: Seq<ForeignContract>, i: int)
    requires
        0 <= i < s.len(),
        forall|j: int| 0 <= j < i ==> s[j].chain != s[i].chain,
    ensures
        spec_find_contract(s, s[i].chain) == Some(s[i]),
    decreases i,
{
    if i > 0 {
        lemma_find_contract_at(s.drop_first(), i - 1);
    }
}

/// When no entry carries `chain`, the lookup finds nothing.
proof fn lemma_find_contract_absent(s: Seq<ForeignContract>, chain: u16)
    requires
        forall|j: int| 0 <= j < s.len() ==> s[j].chain != chain,
    ensures
        spec_find_contract(s, chain) is None,
    decreases s.len(),
{
    if s.len() > 0 {
        lemma_find_contract_absent(s.drop_first(), chain);
    }
}

/// Overwriting the first entry of some chain id changes only that chain's
/// lookup.
proof fn lemma_find_contract_update(s: Seq<ForeignContract>, i: int, x: ForeignContract, chain: u16)
    requires
        0 <= i < s.len(),
        s[i].chain == x.chain,
        forall|j: int| 0 <= j < i ==> s[j].chain != x.chain,
    ensures
        spec_find_contract(s.update(i, x), chain) == if chain == x.chain {
            Some(x)
        } else {
            spec_find_contract(s, chain)
        },
    decreases i,
{
    if i == 0 {
        assert(s.update(0, x).drop_first() =~= s.drop_first());
    } else {
        assert(s.update(i, x).drop_first() =~= s.drop_first().update(i - 1, x));
        lemma_find_contract_update(s.drop_first(), i - 1, x, chain);
    }
}

/// Appending an entry with a fresh chain id changes only that chain's
/// lookup.
proof fn lemma_find_contract_push(s: Seq<ForeignContract>, x: ForeignContract, chain: u16)
    requires
        forall|j: int| 0 <= j < s.len() ==> s[j].chain != x.chain,
    ensures
        spec_find_contract(s.push(x), chain) == if chain == x.chain {
            Some(x)
        } else {
            spec_find_contract(s, chain)
        },
    decreases s.len(),
{
    if s.len() == 0 {
        assert(s.push(x)[0] == x);
        assert(s.push(x).drop_first() =~= Seq::<ForeignContract>::empty());
    } else {
        assert(s.push(x).drop_first() =~= s.drop_first().push(x));
        lemma_find_contract_push(s.drop_first(), x, chain);
    }
}

/// All registered foreign contracts, at most one per chain.
pub struct ForeignContractRegistry {
    pub contracts: Vec<ForeignContract>,
}

impl ForeignContractRegistry {
    /// Chain ids are unique, and every record holds an addressable foreign
    /// chain/address pair.
    pub open spec fn wf(self) -> bool {
        &&& forall|i: int, j: int|
            0 <= i < j < self.contracts@.len() ==> self.contracts@[i].chain
                != self.contracts@[j].chain
        &&& forall|i: int|
            0 <= i < self.contracts@.len() ==> spec_valid_foreign_address(
                #[trigger] self.contracts@[i].chain,
                self.contracts@[i].address@,
            )
    }

    /// The record registered for `chain`, if any.
    pub open spec fn spec_get(self, chain: u16) -> Option<ForeignContract> {
        spec_find_contract(self.contracts@, chain)
    }

    /// An empty registry.
    pub fn new() -> (r: ForeignContractRegistry)
        ensures
            r.wf(),
            forall|c: u16| r.spec_get(c) is None,
    {
        let r = ForeignContractRegistry { contracts: Vec::new() };
        proof {
            assert forall|c: u16| r.spec_get(c) is None by {
                lemma_find_contract_absent(r.contracts@, c);
            }
        }
        r
    }

    /// Position of the first record for `chain`, if any.
    fn position(&self, chain: u16) -> (r: Option<usize>)
        ensures
            match r {
                Some(i) => i < self.contracts@.len() && self.contracts@[i as int].chain == chain
                    && (forall|j: int| 0 <= j < i ==> self.contracts@[j].chain != chain)
                    && self.spec_get(chain) == Some(self.contracts@[i as int]),
                None => self.spec_get(chain) is None && (forall|j: int|
                    0 <= j < self.contracts@.len() ==> self.contracts@[j].chain != chain),
            },
    {
        let mut i: usize = 0;
        while i < self.contracts.len()
            invariant
                i <= self.contracts@.len(),
                forall|j: int| 0 <= j < i ==> self.contracts@[j].chain != chain,
            decreases self.contracts@.len() - i,
        {
            if self.contracts[i].chain == chain {
                proof {
                    lemma_find_contract_at(self.contracts@, i as int);
                }
                return Some(i);
            }
            i += 1;
        }
        proof {
            lemma_find_contract_absent(self.contracts@, chain);
        }
        None
    }

    /// Looks up the record registered for `chain`.
    pub fn get(&self, chain: u16) -> (r: Option<ForeignContract>)
        ensures
            r == self.spec_get(chain),
    {
        match self.position(chain) {
            Some(i) => Some(self.contracts[i]),
            None => None,
        }
    }

    /// Registers (or overwrites) the trusted emitter for a foreign chain.
    /// Owner-only; the chain id must be neither zero nor the local chain's,
    /// and the address must be nonzero. No other chain's record changes.
    pub fn register_foreign_contract(
        &mut self,
        sender_config: &SenderConfig,
        caller: &[u8; 32],
        chain: u16,
        address: &[u8; 32],
        token_bridge_foreign_endpoint: &[u8; 32],
        fee: u64,
    ) -> (r: Result<(), TokenBridgeRelayerError>)
        requires
            old(self).wf(),
        ensures
            final(self).wf(),
            if sender_config.owner@ != caller@ {
                r == Err::<(), TokenBridgeRelayerError>(TokenBridgeRelayerError::OwnerOnly)
                    && *final(self) == *old(self)
            } else if !spec_valid_foreign_address(chain, address@) {
                r == Err::<(), TokenBridgeRelayerError>(
                    TokenBridgeRelayerError::InvalidForeignContract,
                ) && *final(self) == *old(self)
            } else {
                r == Ok::<(), TokenBridgeRelayerError>(()) && final(self).spec_get(chain)
                    == Some(ForeignContract {
                    chain,
                    address: *address,
                    token_bridge_foreign_endpoint: *token_bridge_foreign_endpoint,
                    fee,
                }) && (forall|c: u16| c != chain ==> final(self).spec_get(c) == old(self).spec_get(c))
            },
    {
        if !keys_equal(&sender_config.owner, caller) {
            return Err(TokenBridgeRelayerError::OwnerOnly);
        }
        if !valid_foreign_address(chain, address) {
            return Err(TokenBridgeRelayerError::InvalidForeignContract);
        }
        let record = ForeignContract {
            chain,
            address: *address,
            token_bridge_foreign_endpoint: *token_bridge_foreign_endpoint,
            fee,
        };
        match self.position(chain) {
            Some(i) => {
                proof {
                    lemma_find_contract_update(self.contracts@, i as int, record, chain);
                }
                let ghost old_contracts = self.contracts@;
                self.contracts[i] = record;
                proof {
                    assert forall|c: u16| c != chain implies self.spec_get(c) == spec_find_contract(
                        old_contracts,
                        c,
                    ) by {
                        lemma_find_contract_update(old_contracts, i as int, record, c);
                    }
                }
            },
            None => {
                proof {
                    lemma_find_contract_push(self.contracts@, record, chain);
                }
                let ghost old_contracts = self.contracts@;
                self.contracts.push(record);
                proof {
                    assert forall|c: u16| c != chain implies self.spec_get(c) == spec_find_contract(
                        old_contracts,
                        c,
                    ) by {
                        lemma_find_contract_push(old_contracts, record, c);
                    }
                }
            },
        }
        Ok(())
    }

    /// Sets the relayer fee for a chain whose contract is already
    /// registered. Owner or assistant only. No other chain's record changes.
    pub fn update_relayer_fee(
        &mut self,
        owner_config: &OwnerConfig,
        caller: &[u8; 32],
        chain: u16,
        fee: u64,
    ) -> (r: Result<(), TokenBridgeRelayerError>)
        requires
            old(self).wf(),
        ensures
            final(self).wf(),
            if !owner_config.spec_is_authorized(caller@) {
                r == Err::<(), TokenBridgeRelayerError>(
                    TokenBridgeRelayerError::OwnerOrAssistantOnly,
                ) && *final(self) == *old(self)
            } else {
                match old(self).spec_get(chain) {
                    None => r == Err::<(), TokenBridgeRelayerError>(
                        TokenBridgeRelayerError::ChainNotRegistered,
                    ) && *final(self) == *old(self),
                    Some(previous) => r == Ok::<(), TokenBridgeRelayerError>(())
                        && final(self).spec_get(chain) == Some(
                        ForeignContract { fee, ..previous },
                    ) && (forall|c: u16|
                        c != chain ==> final(self).spec_get(c) == old(self).spec_get(c)),
                }
            },
    {
        if !owner_config.is_authorized(caller) {
            return Err(TokenBridgeRelayerError::OwnerOrAssistantOnly);
        }
        match self.position(chain) {
            None => Err(TokenBridgeRelayerError::ChainNotRegistered),
            Some(i) => {
                let updated = ForeignContract { fee, ..self.contracts[i] };
                proof {
                    lemma_find_contract_update(self.contracts@, i as int, updated, chain);
                }
                let ghost old_contracts = self.contracts@;
                self.contracts[i] = updated;
                proof {
                    assert forall|c: u16| c != chain implies self.spec_get(c) == spec_find_contract(
                        old_contracts,
                        c,
                    ) by {
                        lemma_find_contract_update(old_contracts, i as int, updated, c);
                    }
                }
                Ok(())
            },
        }
    }
}

} // verus!
