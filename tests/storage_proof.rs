use ita_stf::storage_proof::{check_proof, verify_storage_entries, ProofError, StorageEntry, VerifyStorageProof};
use sp_core::{Blake2Hasher, Hasher};
use sp_trie::{LayoutV1, MemoryDB, TrieDBMutBuilder, TrieMut};

fn trie() -> ([u8; 32], Vec<Vec<u8>>) {
    let mut db = MemoryDB::<Blake2Hasher>::default();
    let mut root = sp_core::H256::default();
    {
        let mut t = TrieDBMutBuilder::<LayoutV1<Blake2Hasher>>::new(&mut db, &mut root).build();
        t.insert(b"alpha", b"one").unwrap();
        t.insert(b"beta", b"a value longer than thirty-two bytes, stored by hash").unwrap();
        t.insert(b"gamma", b"three").unwrap();
    }
    let nodes: Vec<Vec<u8>> = db.drain().into_values().filter(|(_, rc)| *rc > 0).map(|(v, _)| v).collect();
    (root.0, nodes)
}

fn entry(key: &[u8], value: Option<&[u8]>, proof: Option<Vec<Vec<u8>>>) -> StorageEntry {
    StorageEntry { key: key.to_vec(), value: value.map(|v| v.to_vec()), proof }
}

#[test]
fn valid_entry_verifies() {
    let (root, nodes) = trie();
    assert_eq!(entry(b"alpha", Some(b"one"), Some(nodes.clone())).verify_storage_proof(&root), Ok(()));
    assert_eq!(
        entry(b"beta", Some(b"a value longer than thirty-two bytes, stored by hash"), Some(nodes.clone()))
            .verify_storage_proof(&root),
        Ok(())
    );
    assert_eq!(entry(b"delta", None, Some(nodes.clone())).verify_storage_proof(&root), Ok(()));
    assert_eq!(check_proof(&root, b"gamma", &nodes), Ok(Some(b"three".to_vec())));
}

#[test]
fn tampered_value_is_wrong_value() {
    let (root, nodes) = trie();
    assert_eq!(
        entry(b"alpha", Some(b"onf"), Some(nodes.clone())).verify_storage_proof(&root),
        Err(ProofError::WrongValue)
    );
    assert_eq!(entry(b"alpha", None, Some(nodes)).verify_storage_proof(&root), Err(ProofError::WrongValue));
}

#[test]
fn tampered_proof_byte_fails() {
    let (root, nodes) = trie();
    for i in 0..nodes.len() {
        for j in 0..nodes[i].len() {
            let mut bad = nodes.clone();
            bad[i][j] ^= 0x01;
            let r = entry(b"alpha", Some(b"one"), Some(bad)).verify_storage_proof(&root);
            assert!(r.is_err() || {
                // a flipped byte in a node that the lookup never visits leaves the proof intact
                let mut unused = nodes.clone();
                unused.remove(i);
                entry(b"alpha", Some(b"one"), Some(unused)).verify_storage_proof(&root).is_ok()
            });
        }
    }
}

#[test]
fn missing_proof_is_no_proof_supplied() {
    let (root, _) = trie();
    assert_eq!(entry(b"alpha", Some(b"one"), None).verify_storage_proof(&root), Err(ProofError::NoProofSupplied));
}

#[test]
fn foreign_root_is_root_mismatch() {
    let (_, nodes) = trie();
    assert_eq!(
        entry(b"alpha", Some(b"one"), Some(nodes)).verify_storage_proof(&[3u8; 32]),
        Err(ProofError::StorageRootMismatch)
    );
}

#[test]
fn incomplete_proof_is_value_unavailable() {
    let (root, nodes) = trie();
    let root_node: Vec<Vec<u8>> = nodes
        .iter()
        .filter(|n| sp_core::Blake2Hasher::hash(n).0 == root)
        .cloned()
        .collect();
    assert_eq!(root_node.len(), 1);
    assert_eq!(
        entry(b"beta", Some(b"a value longer than thirty-two bytes, stored by hash"), Some(root_node))
            .verify_storage_proof(&root),
        Err(ProofError::StorageValueUnavailable)
    );
}

#[test]
fn batch_stops_at_first_bad_entry() {
    let (root, nodes) = trie();
    let good = entry(b"alpha", Some(b"one"), Some(nodes.clone()));
    let bad = entry(b"gamma", Some(b"four"), Some(nodes.clone()));
    let all = verify_storage_entries(vec![good.clone(), entry(b"gamma", Some(b"three"), Some(nodes))], &root).unwrap();
    assert_eq!(all.len(), 2);
    assert_eq!(all[1].value, Some(b"three".to_vec()));
    assert!(matches!(verify_storage_entries(vec![good, bad], &root), Err(ProofError::WrongValue)));
}
