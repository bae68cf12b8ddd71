use ita_stf::call::{TrustedCall, TrustedCallSigned, TrustedOperation};
use ita_stf::dispatch::OpaqueCall;
use ita_stf::error::StfError;
use ita_stf::getter::{Getter, PublicGetter, TrustedGetter};
use ita_stf::helpers::{current_ceremony_phase, current_ceremony_phase_storage_key, is_ceremony_master};
use ita_stf::state::{AccountInfo, StfState};
use ita_stf::storage::{storage_double_map_key, storage_map_key, storage_value_key, StorageHasher};
use ita_stf::types::{AccountId, CeremonyPhaseType, CommunityIdentifier, KeyPair, ShardIdentifier, Signature};
use parity_scale_codec::Encode;
use sp_core::Pair;
use sp_keyring::Sr25519Keyring;

fn alice_seed() -> [u8; 32] {
    sp_core::sr25519::Pair::from_string_with_seed("//Alice", None).unwrap().1.unwrap()
}

fn ed_key(n: u8) -> KeyPair {
    KeyPair::Ed25519([n; 32])
}

fn cid() -> CommunityIdentifier {
    CommunityIdentifier { geohash: *b"u0qj9", digest: [1, 2, 3, 4] }
}

fn fresh_state(phase: CeremonyPhaseType, master: &KeyPair) -> StfState {
    let m = master.public();
    StfState::new(phase, Some(m), m, m)
}

fn fund(state: &mut StfState, who: &AccountId, free: u128) {
    let info = state.account_info(who);
    state.set_account(who, AccountInfo { nonce: info.nonce, free, reserved: info.reserved });
}

fn run(state: &mut StfState, signed: TrustedCallSigned) -> Result<(), StfError> {
    let mut calls: Vec<OpaqueCall> = Vec::new();
    signed.execute(state, &mut calls, [7, 1], Ok(()))
}

#[test]
fn verify_signature_works() {
    let nonce = 21;
    let mrenclave = [0u8; 32];
    let shard = ShardIdentifier::default();

    let pair = KeyPair::Sr25519(alice_seed());
    assert_eq!(pair.public().0, Sr25519Keyring::Alice.public().0);
    let alice = AccountId(Sr25519Keyring::Alice.public().0);
    let call = TrustedCall::balance_set_balance(alice, alice, 42, 42);
    let signed_call = call.sign(&pair, nonce, &mrenclave, &shard);

    assert!(signed_call.verify_signature(&mrenclave, &shard));
}

#[test]
fn signature_binds_call_nonce_enclave_and_shard() {
    let key = ed_key(3);
    let me = key.public();
    let other = ed_key(4).public();
    let mrenclave = [9u8; 32];
    let shard = [5u8; 32];
    let signed = TrustedCall::balance_transfer(me, other, 10).sign(&key, 2, &mrenclave, &shard);
    assert!(signed.verify_signature(&mrenclave, &shard));
    assert!(!signed.verify_signature(&[8u8; 32], &shard));
    assert!(!signed.verify_signature(&mrenclave, &[6u8; 32]));
    let mut renonced = signed.clone();
    renonced.nonce = 3;
    assert!(!renonced.verify_signature(&mrenclave, &shard));
    let mut recalled = signed.clone();
    recalled.call = TrustedCall::balance_transfer(me, other, 11);
    assert!(!recalled.verify_signature(&mrenclave, &shard));
    let mut flipped = signed.clone();
    if let Signature::Ed25519(ref mut s) = flipped.signature {
        s[0] ^= 1;
    }
    assert!(!flipped.verify_signature(&mrenclave, &shard));
}

#[test]
fn signature_fails_for_a_sender_other_than_the_signer() {
    let key = ed_key(3);
    let impostor = ed_key(4).public();
    let signed = TrustedCall::balance_transfer(impostor, impostor, 1).sign(&key, 0, &[0; 32], &[0; 32]);
    assert!(!signed.verify_signature(&[0; 32], &[0; 32]));
}

#[test]
fn ed25519_signing_is_deterministic() {
    let key = ed_key(3);
    let me = key.public();
    let a = TrustedCall::balance_transfer(me, me, 1).sign(&key, 0, &[0; 32], &[0; 32]);
    let b = TrustedCall::balance_transfer(me, me, 1).sign(&key, 0, &[0; 32], &[0; 32]);
    match (a.signature, b.signature) {
        (Signature::Ed25519(x), Signature::Ed25519(y)) => assert_eq!(x.to_vec(), y.to_vec()),
        _ => panic!("expected ed25519 signatures"),
    }
}

#[test]
fn call_encoding_matches_scale() {
    let from = AccountId([1; 32]);
    let to = AccountId([2; 32]);
    let mut expected = vec![1u8];
    expected.extend((from.0, to.0, 500u128).encode());
    assert_eq!(TrustedCall::balance_transfer(from, to, 500).encode(), expected);

    let attestees: Vec<AccountId> = (0..70u8).map(|i| AccountId([i; 32])).collect();
    let raw: Vec<[u8; 32]> = attestees.iter().map(|a| a.0).collect();
    let mut expected = vec![10u8];
    expected.extend((from.0, *b"u0qj9", [1u8, 2, 3, 4], 71u32, raw).encode());
    let call = TrustedCall::ceremonies_attest_attendees(from, cid(), 71, attestees);
    assert_eq!(call.encode(), expected);

    let mut expected = vec![18u8];
    expected.extend((from.0, -5i32).encode());
    assert_eq!(TrustedCall::ceremonies_set_meetup_time_offset(from, -5).encode(), expected);
}

#[test]
fn nonce_advances_and_replay_is_rejected() {
    let key = ed_key(3);
    let me = key.public();
    let other = ed_key(4).public();
    let mut state = fresh_state(CeremonyPhaseType::Registering, &ed_key(9));
    fund(&mut state, &me, 100);
    let signed = TrustedCall::balance_transfer(me, other, 30).sign(&key, 0, &[0; 32], &[0; 32]);
    assert!(run(&mut state, signed.clone()).is_ok());
    assert_eq!(state.account_nonce(&me), 1);
    assert_eq!(state.account_info(&me).free, 70);
    assert_eq!(state.account_info(&other).free, 30);
    match run(&mut state, signed) {
        Err(StfError::InvalidNonce(n)) => assert_eq!(n, 1),
        other => panic!("unexpected {:?}", other),
    }
    assert_eq!(state.account_nonce(&me), 1);
    assert_eq!(state.account_info(&me).free, 70);
    let next = TrustedCall::balance_transfer(me, other, 5).sign(&key, 1, &[0; 32], &[0; 32]);
    assert!(run(&mut state, next).is_ok());
    assert_eq!(state.account_nonce(&me), 2);
}

#[test]
fn failed_call_keeps_nonce_for_resubmission() {
    let key = ed_key(3);
    let me = key.public();
    let mut state = fresh_state(CeremonyPhaseType::Registering, &ed_key(9));
    let signed = TrustedCall::balance_transfer(me, ed_key(4).public(), 30).sign(&key, 0, &[0; 32], &[0; 32]);
    match run(&mut state, signed) {
        Err(StfError::Dispatch(m)) => assert_eq!(m, "Balance Transfer error: InsufficientBalance"),
        other => panic!("unexpected {:?}", other),
    }
    assert_eq!(state.account_nonce(&me), 0);
}

#[test]
fn runtime_refusal_is_reported_with_its_cause() {
    let key = ed_key(3);
    let me = key.public();
    let mut state = fresh_state(CeremonyPhaseType::Registering, &ed_key(9));
    let signed = TrustedCall::ceremonies_register_participant(me, cid(), None).sign(&key, 0, &[0; 32], &[0; 32]);
    let mut calls: Vec<OpaqueCall> = Vec::new();
    match signed.execute(&mut state, &mut calls, [0, 0], Err("AlreadyRegistered".to_string())) {
        Err(StfError::Dispatch(m)) => assert_eq!(m, "Ceremonies register participant error: AlreadyRegistered"),
        other => panic!("unexpected {:?}", other),
    }
    assert_eq!(state.account_nonce(&me), 0);
}

#[test]
fn register_participant_rejected_while_assigning() {
    let key = ed_key(3);
    let me = key.public();
    let mut state = fresh_state(CeremonyPhaseType::Assigning, &ed_key(9));
    let signed = TrustedCall::ceremonies_register_participant(me, cid(), None).sign(&key, 0, &[0; 32], &[0; 32]);
    match run(&mut state, signed) {
        Err(StfError::Dispatch(m)) => {
            assert_eq!(m, "registering participants can only be done during registering or attesting phase")
        },
        other => panic!("unexpected {:?}", other),
    }
    assert_eq!(state.account_nonce(&me), 0);
}

#[test]
fn attestation_only_while_attesting() {
    let key = ed_key(3);
    let me = key.public();
    let mut state = fresh_state(CeremonyPhaseType::Registering, &ed_key(9));
    let signed = TrustedCall::ceremonies_attest_claims(me, vec![]).sign(&key, 0, &[0; 32], &[0; 32]);
    assert!(matches!(run(&mut state, signed), Err(StfError::Dispatch(_))));
    state.phase = CeremonyPhaseType::Attesting;
    let signed = TrustedCall::ceremonies_attest_claims(me, vec![]).sign(&key, 0, &[0; 32], &[0; 32]);
    assert!(run(&mut state, signed).is_ok());
    assert_eq!(state.account_nonce(&me), 1);
}

#[test]
fn unshield_more_than_free_balance_is_missing_funds() {
    let key = ed_key(3);
    let me = key.public();
    let mut state = fresh_state(CeremonyPhaseType::Registering, &ed_key(9));
    fund(&mut state, &me, 50);
    let signed = TrustedCall::balance_unshield(me, me, 51, [2; 32]).sign(&key, 0, &[0; 32], &[0; 32]);
    let mut calls: Vec<OpaqueCall> = Vec::new();
    assert!(matches!(signed.execute(&mut state, &mut calls, [7, 1], Ok(())), Err(StfError::MissingFunds)));
    assert_eq!(state.account_info(&me).free, 50);
    assert_eq!(state.account_nonce(&me), 0);
    assert!(calls.is_empty());
}

#[test]
fn unshield_exact_balance_zeroes_it_and_queues_payout() {
    let key = ed_key(3);
    let me = key.public();
    let beneficiary = AccountId([8; 32]);
    let mut state = fresh_state(CeremonyPhaseType::Registering, &ed_key(9));
    fund(&mut state, &me, 50);
    let call = TrustedCall::balance_unshield(me, beneficiary, 50, [2; 32]);
    let call_hash = sp_io::hashing::blake2_256(&call.encode());
    let signed = call.sign(&key, 0, &[0; 32], &[0; 32]);
    let mut calls: Vec<OpaqueCall> = Vec::new();
    assert!(signed.execute(&mut state, &mut calls, [7, 1], Ok(())).is_ok());
    assert_eq!(state.account_info(&me).free, 0);
    assert_eq!(state.account_nonce(&me), 1);
    assert_eq!(calls.len(), 1);
    assert_eq!(calls[0].0, ([7u8, 1u8], beneficiary.0, 50u128, [2u8; 32], call_hash).encode());
}

#[test]
fn shield_requires_enclave_account() {
    let enclave = ed_key(9);
    let key = ed_key(3);
    let me = key.public();
    let mut state = fresh_state(CeremonyPhaseType::Registering, &enclave);
    let signed = TrustedCall::balance_shield(me, me, 5).sign(&key, 0, &[0; 32], &[0; 32]);
    assert!(matches!(run(&mut state, signed), Err(StfError::RequireEnclaveSignerAccount)));
    let e = enclave.public();
    let signed = TrustedCall::balance_shield(e, me, 5).sign(&enclave, 0, &[0; 32], &[0; 32]);
    assert!(run(&mut state, signed).is_ok());
    assert_eq!(state.account_info(&me).free, 5);
    assert_eq!(state.account_nonce(&e), 1);
}

#[test]
fn set_balance_requires_root() {
    let root = ed_key(9);
    let key = ed_key(3);
    let me = key.public();
    let mut state = fresh_state(CeremonyPhaseType::Registering, &root);
    let signed = TrustedCall::balance_set_balance(me, me, 5, 6).sign(&key, 0, &[0; 32], &[0; 32]);
    match run(&mut state, signed) {
        Err(StfError::MissingPrivileges(a)) => assert_eq!(a.0, me.0),
        other => panic!("unexpected {:?}", other),
    }
    let r = root.public();
    let signed = TrustedCall::balance_set_balance(r, me, 5, 6).sign(&root, 0, &[0; 32], &[0; 32]);
    assert!(run(&mut state, signed).is_ok());
    assert_eq!(state.account_info(&me).free, 5);
    assert_eq!(state.account_info(&me).reserved, 6);
}

#[test]
fn ceremony_parameters_only_for_master() {
    let master = ed_key(9);
    let key = ed_key(3);
    let me = key.public();
    let mut state = fresh_state(CeremonyPhaseType::Registering, &master);
    let signed = TrustedCall::ceremonies_set_inactivity_timeout(me, 3).sign(&key, 0, &[0; 32], &[0; 32]);
    assert!(matches!(run(&mut state, signed), Err(StfError::MissingPrivileges(_))));
    let m = master.public();
    let signed = TrustedCall::ceremonies_set_inactivity_timeout(m, 3).sign(&master, 0, &[0; 32], &[0; 32]);
    assert!(run(&mut state, signed).is_ok());
    assert!(is_ceremony_master(&state, m));
    assert!(!is_ceremony_master(&state, me));
}

fn registry_state(master: &KeyPair) -> (StfState, Vec<AccountId>) {
    let mut state = fresh_state(CeremonyPhaseType::Registering, master);
    let cc = (cid().geohash, cid().digest, 3u32).encode();
    let count_key = storage_map_key("EncointerCeremonies", "BootstrapperCount", &cc, &StorageHasher::Blake2_128Concat);
    state.storage_set(count_key, 3u64.encode());
    let b1 = AccountId([11; 32]);
    let b3 = AccountId([13; 32]);
    for (i, a) in [(1u64, b1), (3u64, b3)] {
        let k = storage_double_map_key(
            "EncointerCeremonies",
            "BootstrapperRegistry",
            &cc,
            &StorageHasher::Blake2_128Concat,
            &i.encode(),
            &StorageHasher::Blake2_128Concat,
        );
        state.storage_set(k, a.0.to_vec());
    }
    (state, vec![b1, b3])
}

#[test]
fn confidential_getter_blocked_for_non_master() {
    let master = ed_key(9);
    let outsider = ed_key(3);
    let (state, _) = registry_state(&master);
    let g = TrustedGetter::ceremonies_registered_bootstrappers(outsider.public(), cid(), 3).sign(&outsider);
    assert_eq!(g.execute(&state), None);
}

#[test]
fn confidential_getter_serves_master() {
    let master = ed_key(9);
    let (state, accounts) = registry_state(&master);
    let g = TrustedGetter::ceremonies_registered_bootstrappers(master.public(), cid(), 3).sign(&master);
    let raw: Vec<[u8; 32]> = accounts.iter().map(|a| a.0).collect();
    assert_eq!(g.execute(&state), Some(raw.encode()));
    let one = TrustedGetter::ceremonies_registered_bootstrapper(master.public(), cid(), 3, 3).sign(&master);
    assert_eq!(one.execute(&state), Some(accounts[1].0.to_vec()));
    let missing = TrustedGetter::ceremonies_registered_bootstrapper(master.public(), cid(), 3, 2).sign(&master);
    assert_eq!(missing.execute(&state), None);
}

#[test]
fn aggregation_with_no_registrations_is_no_result() {
    let master = ed_key(9);
    let state = fresh_state(CeremonyPhaseType::Registering, &master);
    let g = TrustedGetter::ceremonies_registered_newbies(master.public(), cid(), 3).sign(&master);
    assert_eq!(g.execute(&state), None);
}

#[test]
fn getter_with_bad_signature_reads_nothing() {
    let key = ed_key(3);
    let mut g = TrustedGetter::free_balance(key.public()).sign(&key);
    if let Signature::Ed25519(ref mut s) = g.signature {
        s[5] ^= 0x40;
    }
    let state = fresh_state(CeremonyPhaseType::Registering, &ed_key(9));
    assert_eq!(g.execute(&state), None);
}

#[test]
fn getter_twice_gives_same_bytes_and_changes_nothing() {
    let key = ed_key(3);
    let me = key.public();
    let mut state = fresh_state(CeremonyPhaseType::Registering, &ed_key(9));
    fund(&mut state, &me, 1234);
    let g = Getter::trusted(TrustedGetter::free_balance(me).sign(&key));
    let first = g.execute(&state);
    let second = g.execute(&state);
    assert_eq!(first, Some(1234u128.encode()));
    assert_eq!(first, second);
    assert_eq!(state.account_nonce(&me), 0);
    let n = Getter::trusted(TrustedGetter::nonce(me).sign(&key));
    assert_eq!(n.execute(&state), Some(0u32.encode()));
}

#[test]
fn public_getters_read_values_or_zero() {
    let state = fresh_state(CeremonyPhaseType::Registering, &ed_key(9));
    assert_eq!(PublicGetter::some_value.execute(&state), Some(42u32.encode()));
    assert_eq!(PublicGetter::ceremonies_meetup_count(cid(), 1).execute(&state), Some(0u64.encode()));
    let (state, _) = registry_state(&ed_key(9));
    assert_eq!(
        PublicGetter::ceremonies_registered_bootstrappers_count(cid(), 3).execute(&state),
        Some(3u64.encode())
    );
}

#[test]
fn storage_keys_are_hashed_names() {
    let mut expected = sp_io::hashing::twox_128(b"EncointerScheduler").to_vec();
    expected.extend(sp_io::hashing::twox_128(b"CurrentPhase"));
    assert_eq!(storage_value_key("EncointerScheduler", "CurrentPhase"), expected);
    assert_eq!(current_ceremony_phase_storage_key(), expected);
    let key = 5u32.encode();
    let mut m = expected.clone();
    m.extend(sp_io::hashing::blake2_128(&key));
    m.extend(key.clone());
    assert_eq!(storage_map_key("EncointerScheduler", "CurrentPhase", &key, &StorageHasher::Blake2_128Concat), m);
}

#[test]
fn current_phase_is_read_from_storage() {
    let mut state = fresh_state(CeremonyPhaseType::Registering, &ed_key(9));
    assert_eq!(current_ceremony_phase(&state), None);
    state.storage_set(current_ceremony_phase_storage_key(), vec![2u8]);
    assert_eq!(current_ceremony_phase(&state), Some(CeremonyPhaseType::Attesting));
}

#[test]
fn storage_hashes_for_registration() {
    let key = ed_key(3);
    let signed = TrustedCall::ceremonies_register_participant(key.public(), cid(), None).sign(&key, 0, &[0; 32], &[0; 32]);
    let keys = signed.get_storage_hashes_to_update();
    assert_eq!(keys.len(), 3);
    assert_eq!(keys[0], storage_value_key("EncointerScheduler", "CurrentPhase"));
    assert_eq!(keys[2], storage_value_key("EncointerCommunities", "CommunityIdentifiers"));
    let t = TrustedCall::balance_transfer(key.public(), key.public(), 1).sign(&key, 0, &[0; 32], &[0; 32]);
    assert!(t.get_storage_hashes_to_update().is_empty());
}

#[test]
fn operation_kind_follows_direct_flag() {
    let key = ed_key(3);
    let signed = TrustedCall::balance_transfer(key.public(), key.public(), 1).sign(&key, 0, &[0; 32], &[0; 32]);
    assert!(matches!(signed.clone().into_trusted_operation(true), TrustedOperation::direct_call(_)));
    assert!(matches!(signed.into_trusted_operation(false), TrustedOperation::indirect_call(_)));
}
