use ita_stf::call::TrustedCall;
use ita_stf::cli::{decode_participants, prove_attendance};
use ita_stf::getter::{Getter, PublicGetter, TrustedGetter};
use ita_stf::helpers::{is_private_community, private_community_ids, private_community_ids_storage_key};
use ita_stf::state::StfState;
use ita_stf::types::{hash_from_slice, AccountId, CeremonyPhaseType, CommunityIdentifier, KeyPair};
use parity_scale_codec::{Compact, Encode};

fn state() -> StfState {
    let m = AccountId([9; 32]);
    StfState::new(CeremonyPhaseType::Registering, None, m, m)
}

#[test]
fn participants_decode_from_scale_list() {
    let accounts: Vec<[u8; 32]> = (0..3u8).map(|i| [i; 32]).collect();
    let decoded = decode_participants(Some(accounts.encode())).unwrap();
    assert_eq!(decoded.len(), 3);
    assert_eq!(decoded[2].0, [2u8; 32]);
    assert!(decode_participants(None).is_none());
    let mut short = accounts.encode();
    short.pop();
    assert!(decode_participants(Some(short)).is_none());
    assert_eq!(decode_participants(Some(vec![0u8])).unwrap().len(), 0);
}

#[test]
fn large_lists_use_wider_compact_prefixes() {
    let accounts: Vec<[u8; 32]> = (0..300u32).map(|i| [(i % 256) as u8; 32]).collect();
    let decoded = decode_participants(Some(accounts.encode())).unwrap();
    assert_eq!(decoded.len(), 300);
    assert_eq!(decoded[299].0, [43u8; 32]);
    let many: Vec<ita_stf::types::AccountId> = (0..70u8).map(|i| AccountId([i; 32])).collect();
    let call = TrustedCall::ceremonies_attest_attendees(AccountId([1; 32]), CommunityIdentifier { geohash: [0; 5], digest: [0; 4] }, 1, many);
    let enc = call.encode();
    assert_eq!(&enc[1 + 32 + 9 + 4..1 + 32 + 9 + 4 + 2], &Compact(70u32).encode()[..]);
}

#[test]
fn proof_of_attendance_is_signed_by_attendee() {
    let attendee = KeyPair::Ed25519([4; 32]);
    let prover = AccountId([5; 32]);
    let cid = CommunityIdentifier { geohash: *b"u0qj9", digest: [1, 2, 3, 4] };
    let p = prove_attendance(&prover, cid, 7, &attendee);
    assert_eq!(p.attendee_public.0, attendee.public().0);
    assert_eq!(p.ceremony_index, 7);
    assert!(p.attendee_signature.verify(&(prover.0, 7u32).encode(), &attendee.public()));
    assert!(!p.attendee_signature.verify(&(prover.0, 8u32).encode(), &attendee.public()));
}

#[test]
fn private_communities_are_read_from_storage() {
    let mut s = state();
    let a = CommunityIdentifier { geohash: *b"u0qj9", digest: [1, 2, 3, 4] };
    let b = CommunityIdentifier { geohash: *b"sqm1w", digest: [9, 9, 9, 9] };
    let c = CommunityIdentifier { geohash: *b"gbsuv", digest: [0, 0, 0, 1] };
    assert!(private_community_ids(&s).is_none());
    assert!(!is_private_community(&s, &a));
    let list = vec![(a.geohash, a.digest), (b.geohash, b.digest)];
    s.storage_set(private_community_ids_storage_key(), list.encode());
    let ids = private_community_ids(&s).unwrap();
    assert_eq!(ids.len(), 2);
    assert_eq!(ids[1].geohash, *b"sqm1w");
    assert!(is_private_community(&s, &a));
    assert!(is_private_community(&s, &b));
    assert!(!is_private_community(&s, &c));
}

#[test]
fn hash_is_copied_from_slice() {
    let bytes: Vec<u8> = (0..32u8).collect();
    assert_eq!(hash_from_slice(&bytes).to_vec(), bytes);
}

#[test]
fn getters_convert_into_getter() {
    let g: Getter = PublicGetter::some_value.into();
    assert!(matches!(g, Getter::public(PublicGetter::some_value)));
    let key = KeyPair::Ed25519([4; 32]);
    let t: Getter = TrustedGetter::nonce(key.public()).sign(&key).into();
    assert!(matches!(t, Getter::trusted(_)));
}
