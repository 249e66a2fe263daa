//! The verifier capability, its per-family implementations and the registry
//! that owns one verifier per chain type.
use vstd::prelude::*;
use vstd::string::*;
use crate::types::{ChainType, SolanaChain};
use crate::evm::EvmVerifier;
use crate::solana::{AptosVerifier, SolanaVerifier, SuiVerifier};

verus! {

#[derive(Debug, Clone)]
pub enum VerificationError {
    NetworkError(String),
    InvalidAddress,
    ChainNotSupported,
    RpcError(String),
    TransactionNotFound,
    InsufficientAmount,
    InvalidCurrency,
    Timeout,
    ParseError(String),
    Error(String),
}

impl VerificationError {
    pub open spec fn text(&self) -> Seq<char> {
        match self {
            VerificationError::NetworkError(m) => "Network error: "@ + m@,
            VerificationError::InvalidAddress => "Invalid address"@,
            VerificationError::ChainNotSupported => "Chain not supported"@,
            VerificationError::RpcError(m) => "RPC error: "@ + m@,
            VerificationError::TransactionNotFound => "Transaction not found"@,
            VerificationError::InsufficientAmount => "Insufficient payment amount"@,
            VerificationError::InvalidCurrency => "Invalid currency"@,
            VerificationError::Timeout => "Verification timeout"@,
            VerificationError::ParseError(m) => "Parse error: "@ + m@,
            VerificationError::Error(m) => "Error: "@ + m@,
        }
    }

    /// The human-readable description of the error.
    pub fn message(&self) -> (r: String)
        ensures
            r@ == self.text(),
    {
        match self {
            VerificationError::NetworkError(m) => String::from_str("Network error: ").concat(m.as_str()),
            VerificationError::InvalidAddress => String::from_str("Invalid address"),
            VerificationError::ChainNotSupported => String::from_str("Chain not supported"),
            VerificationError::RpcError(m) => String::from_str("RPC error: ").concat(m.as_str()),
            VerificationError::TransactionNotFound => String::from_str("Transaction not found"),
            VerificationError::InsufficientAmount => String::from_str("Insufficient payment amount"),
            VerificationError::InvalidCurrency => String::from_str("Invalid currency"),
            VerificationError::Timeout => String::from_str("Verification timeout"),
            VerificationError::ParseError(m) => String::from_str("Parse error: ").concat(m.as_str()),
            VerificationError::Error(m) => String::from_str("Error: ").concat(m.as_str()),
        }
    }
}

/// A ledger verifier declares which chain types it can check.
pub trait PaymentVerifier {
    spec fn supports(&self, chain_type: ChainType) -> bool;

    fn supports_chain(&self, chain_type: &ChainType) -> (r: bool)
        ensures
            r == self.supports(*chain_type),
    ;
}

/// One verifier per ledger family.
#[derive(Debug)]
pub enum ChainVerifier {
    Evm(EvmVerifier),
    Solana(SolanaVerifier),
    Aptos(AptosVerifier),
    Sui(SuiVerifier),
}

impl PaymentVerifier for ChainVerifier {
    open spec fn supports(&self, chain_type: ChainType) -> bool {
        match self {
            ChainVerifier::Evm(v) => v.supports(chain_type),
            ChainVerifier::Solana(v) => v.supports(chain_type),
            ChainVerifier::Aptos(v) => v.supports(chain_type),
            ChainVerifier::Sui(v) => v.supports(chain_type),
        }
    }

    fn supports_chain(&self, chain_type: &ChainType) -> (r: bool) {
        match self {
            ChainVerifier::Evm(v) => v.supports_chain(chain_type),
            ChainVerifier::Solana(v) => v.supports_chain(chain_type),
            ChainVerifier::Aptos(v) => v.supports_chain(chain_type),
            ChainVerifier::Sui(v) => v.supports_chain(chain_type),
        }
    }
}

impl ChainVerifier {
    /// The verifier for a family whose construction needs no endpoint check
    /// (Solana, Aptos, Sui); EVM networks and custom families get none.
    pub fn without_handshake(chain_type: &ChainType, rpc_url: String) -> (r: Option<ChainVerifier>)
        ensures
            (chain_type is Evm || chain_type is Custom) <==> r is None,
            r matches Some(v) ==> v.supports(*chain_type),
            r matches Some(ChainVerifier::Solana(s)) ==> s.chain_type == ChainType::Solana(SolanaChain::Mainnet),
            r matches Some(ChainVerifier::Aptos(a)) ==> a.chain_type == *chain_type && a.rpc_url == rpc_url,
            r matches Some(ChainVerifier::Sui(a)) ==> a.chain_type == *chain_type && a.rpc_url == rpc_url,
    {
        match chain_type {
            ChainType::Solana(_) => Some(ChainVerifier::Solana(SolanaVerifier::new())),
            ChainType::Aptos(_) => Some(ChainVerifier::Aptos(AptosVerifier::new(rpc_url, chain_type.clone()))),
            ChainType::Sui(_) => Some(ChainVerifier::Sui(SuiVerifier::new(rpc_url, chain_type.clone()))),
            _ => None,
        }
    }
}

/// A registered chain type and the verifier that serves it.
#[derive(Debug)]
pub struct RegistryEntry {
    pub chain_type: ChainType,
    pub verifier: ChainVerifier,
}

/// Owns one verifier per chain type. Keys are distinct and every verifier
/// supports the chain type it is registered under.
#[derive(Debug)]
pub struct VerifierRegistry {
    entries: Vec<RegistryEntry>,
}

pub open spec fn entries_wf(s: Seq<RegistryEntry>) -> bool {
    &&& forall|i: int, j: int|
        0 <= i < s.len() && 0 <= j < s.len() && i != j ==> (#[trigger] s[i]).chain_type.key()
            != (#[trigger] s[j]).chain_type.key()
}

/// Every verifier supports the chain type it is registered under.
pub open spec fn all_supported(s: Seq<RegistryEntry>) -> bool {
    forall|i: int| 0 <= i < s.len() ==> (#[trigger] s[i]).verifier.supports(s[i].chain_type)
}

/// Where every verifier supports its key, a lookup returns a verifier that
/// supports the chain type looked up.
pub proof fn lemma_lookup_supports(s: Seq<RegistryEntry>, c: ChainType, v: ChainVerifier)
    requires
        all_supported(s),
        verifier_for(s, c, v),
    ensures
        v.supports(c),
{
    let i = choose|i: int| entry_at(s, c, i) && s[i].verifier == v;
    assert(s[i].verifier.supports(s[i].chain_type));
    crate::types::lemma_key_supports(s[i].chain_type, c);
}

/// Position of the entry registered under `c`, if any.
pub open spec fn entry_at(s: Seq<RegistryEntry>, c: ChainType, i: int) -> bool {
    0 <= i < s.len() && s[i].chain_type.key() == c.key()
}

pub open spec fn registered(s: Seq<RegistryEntry>, c: ChainType) -> bool {
    exists|i: int| entry_at(s, c, i)
}

/// `v` is the verifier registered under `c`.
pub open spec fn verifier_for(s: Seq<RegistryEntry>, c: ChainType, v: ChainVerifier) -> bool {
    exists|i: int| entry_at(s, c, i) && s[i].verifier == v
}

/// Registering a chain type that was absent and then removing it gives back
/// the registry as it was.
pub proof fn lemma_register_then_remove(
    s0: Seq<RegistryEntry>,
    s1: Seq<RegistryEntry>,
    s2: Seq<RegistryEntry>,
    e: RegistryEntry,
    i: int,
)
    requires
        !registered(s0, e.chain_type),
        s1 == s0.push(e),
        entry_at(s1, e.chain_type, i),
        s2 == s1.remove(i),
    ensures
        s2 == s0,
{
    if i < s0.len() {
        assert(entry_at(s0, e.chain_type, i));
    }
    assert(s2 =~= s0);
}

impl View for VerifierRegistry {
    type V = Seq<RegistryEntry>;

    closed spec fn view(&self) -> Seq<RegistryEntry> {
        self.entries@
    }
}

impl VerifierRegistry {
    /// Keys are distinct and each verifier supports its key.
    pub closed spec fn wf(&self) -> bool {
        entries_wf(self.entries@)
    }

    pub fn new() -> (r: Self)
        ensures
            r.wf(),
            r@.len() == 0,
    {
        VerifierRegistry { entries: Vec::new() }
    }

    fn find(&self, chain_type: &ChainType) -> (r: Option<usize>)
        ensures
            match r {
                Some(i) => entry_at(self@, *chain_type, i as int),
                None => !registered(self@, *chain_type),
            },
    {
        let mut i: usize = 0;
        while i < self.entries.len()
            invariant
                i <= self.entries@.len(),
                forall|j: int| 0 <= j < i ==> !entry_at(self.entries@, *chain_type, j),
            decreases self.entries@.len() - i,
        {
            if self.entries[i].chain_type == *chain_type {
                return Some(i);
            }
            i = i + 1;
        }
        None
    }

    /// Registers `verifier` under `chain_type`, replacing an earlier one. A
    /// verifier that does not support the chain type is refused and the
    /// registry is left as it was.
    pub fn register_verifier(&mut self, chain_type: ChainType, verifier: ChainVerifier)
        requires
            old(self).wf(),
        ensures
            final(self).wf(),
            registered(final(self)@, chain_type),
            verifier_for(final(self)@, chain_type, verifier),
            forall|i: int|
                entry_at(final(self)@, chain_type, i) ==> (#[trigger] final(self)@[i]).verifier
                    == verifier,
            forall|c: ChainType|
                c.key() != chain_type.key() ==> (registered(final(self)@, c) <==> registered(
                    old(self)@,
                    c,
                )),
            forall|c: ChainType, v: ChainVerifier|
                c.key() != chain_type.key() ==> (#[trigger] verifier_for(final(self)@, c, v) <==> verifier_for(
                    old(self)@,
                    c,
                    v,
                )),
            !registered(old(self)@, chain_type) ==> final(self)@ == old(self)@.push(
                (RegistryEntry { chain_type, verifier }),
            ),
            registered(old(self)@, chain_type) ==> exists|i: int|
                entry_at(old(self)@, chain_type, i) && final(self)@ == old(self)@.update(
                    i,
                    (RegistryEntry { chain_type, verifier }),
                ),
    {
        let found = self.find(&chain_type);
        let ghost old_entries = self.entries@;
        match found {
            Some(i) => {
                let entry = RegistryEntry { chain_type, verifier };
                self.entries.set(i, entry);
                proof {
                    assert forall|k: int| 0 <= k < self.entries@.len() implies (#[trigger] self.entries@[k]).chain_type.key()
                        == old_entries[k].chain_type.key() by {}
                    assert(entries_wf(self.entries@)) by {
                        assert forall|a: int, b: int|
                            0 <= a < self.entries@.len() && 0 <= b < self.entries@.len() && a != b implies
                            (#[trigger] self.entries@[a]).chain_type.key() != (#[trigger] self.entries@[b]).chain_type.key() by {
                            assert(old_entries[a].chain_type.key() != old_entries[b].chain_type.key());
                        }
                    }
                    assert forall|c: ChainType| c.key() != chain_type.key() implies (registered(
                        self.entries@,
                        c,
                    ) <==> registered(old_entries, c)) by {
                        if registered(self.entries@, c) {
                            let j = choose|j: int| entry_at(self.entries@, c, j);
                            assert(entry_at(old_entries, c, j));
                        }
                        if registered(old_entries, c) {
                            let j = choose|j: int| entry_at(old_entries, c, j);
                            assert(entry_at(self.entries@, c, j));
                        }
                    }
                    assert(entry_at(self.entries@, chain_type, i as int));
                    assert forall|c: ChainType, v: ChainVerifier| c.key() != chain_type.key() implies (
                        #[trigger] verifier_for(self.entries@, c, v) <==> verifier_for(old_entries, c, v)) by {
                        if verifier_for(self.entries@, c, v) {
                            let j = choose|j: int| entry_at(self.entries@, c, j) && self.entries@[j].verifier == v;
                            assert(entry_at(old_entries, c, j) && old_entries[j].verifier == v);
                        }
                        if verifier_for(old_entries, c, v) {
                            let j = choose|j: int| entry_at(old_entries, c, j) && old_entries[j].verifier == v;
                            assert(entry_at(self.entries@, c, j) && self.entries@[j].verifier == v);
                        }
                    }
                    assert(registered(old_entries, chain_type));
                    assert(verifier_for(self.entries@, chain_type, verifier));
                }
            },
            None => {
                let entry = RegistryEntry { chain_type, verifier };
                self.entries.push(entry);
                proof {
                    let n = old_entries.len() as int;
                    assert(self.entries@[n].chain_type.key() == chain_type.key());
                    assert(entries_wf(self.entries@)) by {
                        assert forall|a: int, b: int|
                            0 <= a < self.entries@.len() && 0 <= b < self.entries@.len() && a != b implies
                            (#[trigger] self.entries@[a]).chain_type.key() != (#[trigger] self.entries@[b]).chain_type.key() by {
                            if a < n && b < n {
                                assert(old_entries[a] == self.entries@[a]);
                                assert(old_entries[b] == self.entries@[b]);
                            } else if a == n {
                                assert(old_entries[b] == self.entries@[b]);
                                assert(!entry_at(old_entries, chain_type, b));
                            } else {
                                assert(old_entries[a] == self.entries@[a]);
                                assert(!entry_at(old_entries, chain_type, a));
                            }
                        }
                    }
                    assert(entry_at(self.entries@, chain_type, n));
                    assert(verifier_for(self.entries@, chain_type, verifier));
                    assert forall|c: ChainType| c.key() != chain_type.key() implies (registered(
                        self.entries@,
                        c,
                    ) <==> registered(old_entries, c)) by {
                        if registered(self.entries@, c) {
                            let j = choose|j: int| entry_at(self.entries@, c, j);
                            assert(entry_at(old_entries, c, j));
                        }
                        if registered(old_entries, c) {
                            let j = choose|j: int| entry_at(old_entries, c, j);
                            assert(entry_at(self.entries@, c, j));
                        }
                    }
                    assert forall|c: ChainType, v: ChainVerifier| c.key() != chain_type.key() implies (
                        #[trigger] verifier_for(self.entries@, c, v) <==> verifier_for(old_entries, c, v)) by {
                        if verifier_for(self.entries@, c, v) {
                            let j = choose|j: int| entry_at(self.entries@, c, j) && self.entries@[j].verifier == v;
                            assert(entry_at(old_entries, c, j) && old_entries[j].verifier == v);
                        }
                        if verifier_for(old_entries, c, v) {
                            let j = choose|j: int| entry_at(old_entries, c, j) && old_entries[j].verifier == v;
                            assert(entry_at(self.entries@, c, j) && self.entries@[j].verifier == v);
                        }
                    }
                    assert forall|j: int| entry_at(self.entries@, chain_type, j) implies
                        self.entries@[j].verifier == verifier by {
                        if j < n {
                            assert(entry_at(old_entries, chain_type, j));
                        }
                    }
                }
            },
        }
    }

    /// The verifier registered under `chain_type`.
    pub fn get_verifier(&self, chain_type: &ChainType) -> (r: Option<&ChainVerifier>)
        requires
            self.wf(),
        ensures
            r is Some <==> registered(self@, *chain_type),
            r matches Some(v) ==> verifier_for(self@, *chain_type, *v),
            all_supported(self@) ==> (r matches Some(v) ==> v.supports(*chain_type)),
    {
        match self.find(chain_type) {
            Some(i) => {
                let v = &self.entries[i].verifier;
                proof {
                    assert(verifier_for(self.entries@, *chain_type, *v));
                    if all_supported(self.entries@) {
                        lemma_lookup_supports(self.entries@, *chain_type, *v);
                    }
                }
                Some(v)
            },
            None => None,
        }
    }

    pub fn has_verifier(&self, chain_type: &ChainType) -> (r: bool)
        ensures
            r == registered(self@, *chain_type),
    {
        self.find(chain_type).is_some()
    }

    /// The registered chain types, in registration order.
    pub fn supported_chains(&self) -> (r: Vec<ChainType>)
        requires
            self.wf(),
        ensures
            forall|i: int, j: int|
                0 <= i < r@.len() && 0 <= j < r@.len() && i != j ==> (#[trigger] r@[i]).key() != (#[trigger] r@[j]).key(),
            r@.len() == self@.len(),
            forall|i: int| 0 <= i < r@.len() ==> #[trigger] r@[i] == self@[i].chain_type,
    {
        let mut r: Vec<ChainType> = Vec::new();
        let mut i: usize = 0;
        while i < self.entries.len()
            invariant
                i <= self.entries@.len(),
                r@.len() == i,
                forall|j: int| 0 <= j < i ==> #[trigger] r@[j] == self.entries@[j].chain_type,
            decreases self.entries@.len() - i,
        {
            r.push(self.entries[i].chain_type.clone());
            i = i + 1;
        }
        r
    }

    /// Removes and returns the verifier registered under `chain_type`.
    pub fn remove_verifier(&mut self, chain_type: &ChainType) -> (r: Option<ChainVerifier>)
        requires
            old(self).wf(),
        ensures
            final(self).wf(),
            r is Some <==> registered(old(self)@, *chain_type),
            !registered(final(self)@, *chain_type),
            r matches Some(v) ==> exists|i: int|
                entry_at(old(self)@, *chain_type, i) && old(self)@[i].verifier == v,
            forall|c: ChainType|
                c.key() != chain_type.key() ==> (registered(final(self)@, c) <==> registered(
                    old(self)@,
                    c,
                )),
            forall|c: ChainType, v: ChainVerifier|
                c.key() != chain_type.key() ==> (#[trigger] verifier_for(final(self)@, c, v) <==> verifier_for(
                    old(self)@,
                    c,
                    v,
                )),
            r is None ==> final(self)@ == old(self)@,
            r is Some ==> exists|i: int|
                entry_at(old(self)@, *chain_type, i) && final(self)@ == old(self)@.remove(i) && r == Some(
                    old(self)@[i].verifier,
                ),
    {
        let ghost old_entries = self.entries@;
        match self.find(chain_type) {
            Some(i) => {
                let entry = self.entries.remove(i);
                proof {
                    assert(self.entries@ =~= old_entries.remove(i as int));
                    assert forall|j: int| !entry_at(self.entries@, *chain_type, j) by {
                        if entry_at(self.entries@, *chain_type, j) {
                            if j < i {
                                assert(old_entries[j] == self.entries@[j]);
                            } else {
                                assert(old_entries[j + 1] == self.entries@[j]);
                            }
                        }
                    }
                    assert forall|c: ChainType| c.key() != chain_type.key() implies (registered(
                        self.entries@,
                        c,
                    ) <==> registered(old_entries, c)) by {
                        if registered(self.entries@, c) {
                            let j = choose|j: int| entry_at(self.entries@, c, j);
                            if j < i {
                                assert(entry_at(old_entries, c, j));
                            } else {
                                assert(entry_at(old_entries, c, j + 1));
                            }
                        }
                        if registered(old_entries, c) {
                            let j = choose|j: int| entry_at(old_entries, c, j);
                            assert(j != i);
                            if j < i {
                                assert(entry_at(self.entries@, c, j));
                            } else {
                                assert(entry_at(self.entries@, c, j - 1));
                            }
                        }
                    }
                    assert forall|c: ChainType, v: ChainVerifier| c.key() != chain_type.key() implies (
                        #[trigger] verifier_for(self.entries@, c, v) <==> verifier_for(old_entries, c, v)) by {
                        if verifier_for(self.entries@, c, v) {
                            let j = choose|j: int| entry_at(self.entries@, c, j) && self.entries@[j].verifier == v;
                            if j < i {
                                assert(entry_at(old_entries, c, j) && old_entries[j].verifier == v);
                            } else {
                                assert(entry_at(old_entries, c, j + 1) && old_entries[j + 1].verifier == v);
                            }
                        }
                        if verifier_for(old_entries, c, v) {
                            let j = choose|j: int| entry_at(old_entries, c, j) && old_entries[j].verifier == v;
                            assert(j != i);
                            if j < i {
                                assert(entry_at(self.entries@, c, j) && self.entries@[j].verifier == v);
                            } else {
                                assert(entry_at(self.entries@, c, j - 1) && self.entries@[j - 1].verifier == v);
                            }
                        }
                    }
                }
                Some(entry.verifier)
            },
            None => None,
        }
    }
}

impl Default for VerifierRegistry {
    fn default() -> (r: Self)
        ensures
            r.wf(),
            r@.len() == 0,
    {
        Self::new()
    }
}

} // verus!
