//! Verification of storage entries fetched from the public chain against the
//! state root of a trusted block header.

use sp_trie::HashDBT as _;
use vstd::prelude::*;

verus! {

/// Whether the node whose hash is `root` is among the encoded trie nodes of `proof`.
pub uninterp spec fn proof_has_root(root: Seq<u8>, nodes: Seq<Seq<u8>>) -> bool;

/// The outcome of looking `key` up in the trie with root `root`, built from the
/// nodes of `proof`: `None` when the nodes do not suffice, else the value found, if any.
pub uninterp spec fn trie_read(root: Seq<u8>, nodes: Seq<Seq<u8>>, key: Seq<u8>) -> Option<Option<Seq<u8>>>;

pub open spec fn nodes_view(nodes: Seq<Vec<u8>>) -> Seq<Seq<u8>> {
    nodes.map_values(|n: Vec<u8>| n@)
}

pub open spec fn value_view(v: Option<Vec<u8>>) -> Option<Seq<u8>> {
    match v {
        Some(v) => Some(v@),
        None => None,
    }
}

/// Relies on sp_trie::StorageProof::into_memory_db (with the Blake2-256 hasher) and
/// HashDB::contains: whether the proof holds the root node.
#[verifier::external_body]
fn proof_contains_root(root: &[u8; 32], nodes: &Vec<Vec<u8>>) -> (r: bool)
    ensures
        r == proof_has_root(root@, nodes_view(nodes@)),
{
    let db = sp_trie::StorageProof::new(nodes.iter().cloned()).into_memory_db::<sp_core::Blake2Hasher>();
    db.contains(&sp_core::H256::from(*root), sp_trie::EMPTY_PREFIX)
}

/// Relies on sp_trie::read_trie_value (layout V1, Blake2-256 hasher) over the
/// nodes of the proof: the value at `key`, or `None` where the lookup fails.
#[verifier::external_body]
fn read_trie_value(root: &[u8; 32], nodes: &Vec<Vec<u8>>, key: &[u8]) -> (r: Option<Option<Vec<u8>>>)
    ensures
        match r {
            None => trie_read(root@, nodes_view(nodes@), key@) is None,
            Some(v) => trie_read(root@, nodes_view(nodes@), key@) == Some(value_view(v)),
        },
{
    let db = sp_trie::StorageProof::new(nodes.iter().cloned()).into_memory_db::<sp_core::Blake2Hasher>();
    let root = sp_core::H256::from(*root);
    sp_trie::read_trie_value::<sp_trie::LayoutV1<sp_core::Blake2Hasher>, _>(&db, &root, key, None, None).ok()
}

/// Why a storage entry could not be trusted.
#[derive(Clone, Copy, Debug, PartialEq, Eq, Structural)]
pub enum ProofError {
    /// The entry came without a proof.
    NoProofSupplied,
    /// The proof does not hold the header's state root.
    StorageRootMismatch,
    /// The proof does not reach the entry's key.
    StorageValueUnavailable,
    /// The proof shows another value than the entry claims.
    WrongValue,
}

/// A storage entry as fetched from the public chain, not yet trusted.
#[derive(Clone, Debug)]
pub struct StorageEntry {
    pub key: Vec<u8>,
    pub value: Option<Vec<u8>>,
    pub proof: Option<Vec<Vec<u8>>>,
}

/// A storage entry whose value the proof has confirmed.
#[derive(Clone, Debug)]
pub struct StorageEntryVerified {
    pub key: Vec<u8>,
    pub value: Option<Vec<u8>>,
}

/// What the trie built from `proof` holds at `key`, or why it cannot tell.
pub open spec fn proof_lookup(root: Seq<u8>, key: Seq<u8>, nodes: Seq<Seq<u8>>) -> Result<Option<Seq<u8>>, ProofError> {
    if !proof_has_root(root, nodes) {
        Err(ProofError::StorageRootMismatch)
    } else {
        match trie_read(root, nodes, key) {
            None => Err(ProofError::StorageValueUnavailable),
            Some(v) => Ok(v),
        }
    }
}

/// The outcome of checking a claimed value against a proof.
pub open spec fn entry_check(
    root: Seq<u8>,
    key: Seq<u8>,
    value: Option<Seq<u8>>,
    nodes: Option<Seq<Seq<u8>>>,
) -> Result<(), ProofError> {
    match nodes {
        None => Err(ProofError::NoProofSupplied),
        Some(p) => match proof_lookup(root, key, p) {
            Err(e) => Err(e),
            Ok(actual) => if actual == value {
                Ok(())
            } else {
                Err(ProofError::WrongValue)
            },
        },
    }
}

pub open spec fn proof_view(p: Option<Vec<Vec<u8>>>) -> Option<Seq<Seq<u8>>> {
    match p {
        Some(p) => Some(nodes_view(p@)),
        None => None,
    }
}

impl StorageEntry {
    pub open spec fn check(&self, root: Seq<u8>) -> Result<(), ProofError> {
        entry_check(root, self.key@, value_view(self.value), proof_view(self.proof))
    }
}

fn same_value(a: &Option<Vec<u8>>, b: &Option<Vec<u8>>) -> (r: bool)
    ensures
        r == (value_view(*a) == value_view(*b)),
{
    match (a, b) {
        (Some(x), Some(y)) => crate::types::bytes_equal(x.as_slice(), y.as_slice()),
        (None, None) => true,
        _ => false,
    }
}

/// Reads the value at `key` from the trie with root `root` that the proof's nodes make up.
pub fn check_proof(root: &[u8; 32], key: &[u8], nodes: &Vec<Vec<u8>>) -> (r: Result<Option<Vec<u8>>, ProofError>)
    ensures
        match proof_lookup(root@, key@, nodes_view(nodes@)) {
            Err(e) => r == Err::<Option<Vec<u8>>, ProofError>(e),
            Ok(v) => r is Ok && value_view(r->Ok_0) == v,
        },
{
    if !proof_contains_root(root, nodes) {
        return Err(ProofError::StorageRootMismatch);
    }
    match read_trie_value(root, nodes, key) {
        None => Err(ProofError::StorageValueUnavailable),
        Some(v) => Ok(v),
    }
}

/// Verification of a fetched fact against the state root of a trusted header.
pub trait VerifyStorageProof {
    /// The outcome that verification against `root` must have.
    spec fn proof_outcome(&self, root: Seq<u8>) -> Result<(), ProofError>;

    fn verify_storage_proof(&self, state_root: &[u8; 32]) -> (r: Result<(), ProofError>)
        ensures
            r == self.proof_outcome(state_root@),
    ;
}

impl VerifyStorageProof for StorageEntry {
    open spec fn proof_outcome(&self, root: Seq<u8>) -> Result<(), ProofError> {
        self.check(root)
    }

    /// Checks that the proof shows exactly the claimed value at the entry's key
    /// under `state_root`.
    fn verify_storage_proof(&self, state_root: &[u8; 32]) -> (r: Result<(), ProofError>) {
        match &self.proof {
            None => Err(ProofError::NoProofSupplied),
            Some(nodes) => match check_proof(state_root, self.key.as_slice(), nodes) {
                Err(e) => Err(e),
                Ok(actual) => if same_value(&actual, &self.value) {
                    Ok(())
                } else {
                    Err(ProofError::WrongValue)
                },
            },
        }
    }
}

/// Verifies every entry against `state_root`, stopping at the first that fails.
pub fn verify_storage_entries(entries: Vec<StorageEntry>, state_root: &[u8; 32]) -> (r: Result<Vec<StorageEntryVerified>, ProofError>)
    ensures
        (forall|i: int| 0 <= i < entries@.len() ==> #[trigger] entries@[i].check(state_root@) is Ok) ==> r is Ok
            && r->Ok_0@.len() == entries@.len() && forall|i: int| 0 <= i < entries@.len() ==> #[trigger] r->Ok_0@[i].key@
            == entries@[i].key@ && value_view(r->Ok_0@[i].value) == value_view(entries@[i].value),
        r is Err ==> exists|i: int| 0 <= i < entries@.len() && #[trigger] entries@[i].check(state_root@) == Err::<(), ProofError>(r->Err_0)
            && forall|j: int| 0 <= j < i ==> #[trigger] entries@[j].check(state_root@) is Ok,
{
    let mut verified: Vec<StorageEntryVerified> = Vec::new();
    let mut i: usize = 0;
    while i < entries.len()
        invariant
            i <= entries@.len(),
            verified@.len() == i,
            forall|j: int| 0 <= j < i ==> #[trigger] entries@[j].check(state_root@) is Ok,
            forall|j: int| 0 <= j < i ==> #[trigger] verified@[j].key@ == entries@[j].key@ && value_view(verified@[j].value)
                == value_view(entries@[j].value),
        decreases entries@.len() - i,
    {
        let e = &entries[i];
        match e.verify_storage_proof(state_root) {
            Err(err) => {
                return Err(err);
            },
            Ok(()) => {},
        }
        let mut key: Vec<u8> = Vec::new();
        key.extend_from_slice(e.key.as_slice());
        let value = match &e.value {
            Some(v) => {
                let mut c: Vec<u8> = Vec::new();
                c.extend_from_slice(v.as_slice());
                Some(c)
            },
            None => None,
        };
        verified.push(StorageEntryVerified { key, value });
        i = i + 1;
    }
    Ok(verified)
}

} // verus!
