//! Getters: public reads, and signed reads whose confidential variants only the
//! ceremony master may make.
//!
//! Pallet values are kept in the state in their encoded form, at their storage
//! key, and handed out as they are; a value that is not there reads as the
//! encoding of zero of its type, or as no result where the item is optional.

use crate::codec::{compact_bytes, le_value, push_compact, u128_bytes, u32_bytes, u64_bytes, push_u32, push_u64, push_u128, decode_u64};
use crate::dispatch::same_account;
use crate::state::StfState;
use crate::storage::{
    double_map_key_bytes, map_key_bytes, storage_double_map_key, storage_map_key, storage_value_key,
    value_key_bytes, StorageHasher,
};
use crate::types::{
    community_ceremony_bytes, encode_community_ceremony, AccountId,
    AttestationIndexType, CeremonyIndexType, CommunityCeremony, CommunityIdentifier, KeyPair,
    ParticipantIndexType, Signature,
};
use vstd::prelude::*;
use vstd::string::StringSliceAdditionalSpecFns;

verus! {

/// A read that needs no signature.
#[allow(non_camel_case_types)]
#[derive(Clone, Copy, Debug)]
pub enum PublicGetter {
    some_value,
    encointer_total_issuance(CommunityIdentifier),
    ceremonies_assignment_counts(CommunityIdentifier, CeremonyIndexType),
    ceremonies_attestation_count(CommunityIdentifier, CeremonyIndexType),
    ceremonies_meetup_count(CommunityIdentifier, CeremonyIndexType),
    ceremonies_meetup_time_offset(),
    ceremonies_registered_bootstrappers_count(CommunityIdentifier, CeremonyIndexType),
    ceremonies_registered_endorsees_count(CommunityIdentifier, CeremonyIndexType),
    ceremonies_registered_newbies_count(CommunityIdentifier, CeremonyIndexType),
    ceremonies_registered_reputables_count(CommunityIdentifier, CeremonyIndexType),
    ceremonies_reward(CommunityIdentifier),
}

/// A read made by a signer; each variant's first field is the signer.
#[allow(non_camel_case_types)]
#[derive(Clone, Copy, Debug)]
pub enum TrustedGetter {
    free_balance(AccountId),
    reserved_balance(AccountId),
    nonce(AccountId),
    encointer_balance(AccountId, CommunityIdentifier),
    ceremonies_aggregated_account_data(AccountId, CommunityIdentifier, AccountId),
    ceremonies_assignments(AccountId, CommunityIdentifier, CeremonyIndexType),
    ceremonies_meetup_participant_count_vote(AccountId, CommunityIdentifier, CeremonyIndexType, AccountId),
    ceremonies_participant_attestees(AccountId, CommunityIdentifier, CeremonyIndexType, AttestationIndexType),
    ceremonies_participant_attestation_index(AccountId, CommunityIdentifier, CeremonyIndexType, AccountId),
    ceremonies_registered_bootstrapper(AccountId, CommunityIdentifier, CeremonyIndexType, ParticipantIndexType),
    ceremonies_registered_bootstrappers(AccountId, CommunityIdentifier, CeremonyIndexType),
    ceremonies_registered_reputable(AccountId, CommunityIdentifier, CeremonyIndexType, ParticipantIndexType),
    ceremonies_registered_reputables(AccountId, CommunityIdentifier, CeremonyIndexType),
    ceremonies_registered_endorsee(AccountId, CommunityIdentifier, CeremonyIndexType, ParticipantIndexType),
    ceremonies_registered_endorsees(AccountId, CommunityIdentifier, CeremonyIndexType),
    ceremonies_registered_newbie(AccountId, CommunityIdentifier, CeremonyIndexType, ParticipantIndexType),
    ceremonies_registered_newbies(AccountId, CommunityIdentifier, CeremonyIndexType),
}

/// A trusted getter with the signer's signature over its encoding.
#[derive(Clone, Copy, Debug)]
pub struct TrustedGetterSigned {
    pub getter: TrustedGetter,
    pub signature: Signature,
}

#[allow(non_camel_case_types)]
#[derive(Clone, Copy, Debug)]
pub enum Getter {
    public(PublicGetter),
    trusted(TrustedGetterSigned),
}

impl From<PublicGetter> for Getter {
    fn from(item: PublicGetter) -> (r: Getter)
        ensures
            r == Getter::public(item),
    {
        Getter::public(item)
    }
}

impl vstd::std_specs::convert::FromSpecImpl<PublicGetter> for Getter {
    open spec fn obeys_from_spec() -> bool {
        true
    }

    open spec fn from_spec(item: PublicGetter) -> Getter {
        Getter::public(item)
    }
}

impl From<TrustedGetterSigned> for Getter {
    fn from(item: TrustedGetterSigned) -> (r: Getter)
        ensures
            r == Getter::trusted(item),
    {
        Getter::trusted(item)
    }
}

impl vstd::std_specs::convert::FromSpecImpl<TrustedGetterSigned> for Getter {
    open spec fn obeys_from_spec() -> bool {
        true
    }

    open spec fn from_spec(item: TrustedGetterSigned) -> Getter {
        Getter::trusted(item)
    }
}

impl TrustedGetter {
    pub open spec fn sender(&self) -> AccountId {
        match *self {
            TrustedGetter::free_balance(a) => a,
            TrustedGetter::reserved_balance(a) => a,
            TrustedGetter::nonce(a) => a,
            TrustedGetter::encointer_balance(a, ..) => a,
            TrustedGetter::ceremonies_aggregated_account_data(a, ..) => a,
            TrustedGetter::ceremonies_assignments(a, ..) => a,
            TrustedGetter::ceremonies_meetup_participant_count_vote(a, ..) => a,
            TrustedGetter::ceremonies_participant_attestees(a, ..) => a,
            TrustedGetter::ceremonies_participant_attestation_index(a, ..) => a,
            TrustedGetter::ceremonies_registered_bootstrapper(a, ..) => a,
            TrustedGetter::ceremonies_registered_bootstrappers(a, ..) => a,
            TrustedGetter::ceremonies_registered_reputable(a, ..) => a,
            TrustedGetter::ceremonies_registered_reputables(a, ..) => a,
            TrustedGetter::ceremonies_registered_endorsee(a, ..) => a,
            TrustedGetter::ceremonies_registered_endorsees(a, ..) => a,
            TrustedGetter::ceremonies_registered_newbie(a, ..) => a,
            TrustedGetter::ceremonies_registered_newbies(a, ..) => a,
        }
    }

    /// The SCALE encoding of the getter: its variant tag, then its fields.
    pub open spec fn bytes(&self) -> Seq<u8> {
        match *self {
            TrustedGetter::free_balance(a) => seq![0u8] + a.view_bytes(),
            TrustedGetter::reserved_balance(a) => seq![1u8] + a.view_bytes(),
            TrustedGetter::nonce(a) => seq![2u8] + a.view_bytes(),
            TrustedGetter::encointer_balance(a, c) => seq![3u8] + a.view_bytes() + c.bytes(),
            TrustedGetter::ceremonies_aggregated_account_data(a, c, b) => seq![4u8] + a.view_bytes() + c.bytes() + b.view_bytes(),
            TrustedGetter::ceremonies_assignments(a, c, i) => seq![5u8] + a.view_bytes() + c.bytes() + u32_bytes(i),
            TrustedGetter::ceremonies_meetup_participant_count_vote(a, c, i, b) => seq![6u8] + a.view_bytes() + c.bytes() + u32_bytes(i) + b.view_bytes(),
            TrustedGetter::ceremonies_participant_attestees(a, c, i, x) => seq![7u8] + a.view_bytes() + c.bytes() + u32_bytes(i) + u64_bytes(x),
            TrustedGetter::ceremonies_participant_attestation_index(a, c, i, b) => seq![8u8] + a.view_bytes() + c.bytes() + u32_bytes(i) + b.view_bytes(),
            TrustedGetter::ceremonies_registered_bootstrapper(a, c, i, x) => seq![9u8] + a.view_bytes() + c.bytes() + u32_bytes(i) + u64_bytes(x),
            TrustedGetter::ceremonies_registered_bootstrappers(a, c, i) => seq![10u8] + a.view_bytes() + c.bytes() + u32_bytes(i),
            TrustedGetter::ceremonies_registered_reputable(a, c, i, x) => seq![11u8] + a.view_bytes() + c.bytes() + u32_bytes(i) + u64_bytes(x),
            TrustedGetter::ceremonies_registered_reputables(a, c, i) => seq![12u8] + a.view_bytes() + c.bytes() + u32_bytes(i),
            TrustedGetter::ceremonies_registered_endorsee(a, c, i, x) => seq![13u8] + a.view_bytes() + c.bytes() + u32_bytes(i) + u64_bytes(x),
            TrustedGetter::ceremonies_registered_endorsees(a, c, i) => seq![14u8] + a.view_bytes() + c.bytes() + u32_bytes(i),
            TrustedGetter::ceremonies_registered_newbie(a, c, i, x) => seq![15u8] + a.view_bytes() + c.bytes() + u32_bytes(i) + u64_bytes(x),
            TrustedGetter::ceremonies_registered_newbies(a, c, i) => seq![16u8] + a.view_bytes() + c.bytes() + u32_bytes(i),
        }
    }

    /// The getters that expose ceremony registry data, which could deanonymise participants.
    pub open spec fn is_confidential(&self) -> bool {
        match *self {
            TrustedGetter::free_balance(..) => false,
            TrustedGetter::reserved_balance(..) => false,
            TrustedGetter::nonce(..) => false,
            TrustedGetter::encointer_balance(..) => false,
            _ => true,
        }
    }

    pub fn sender_account(&self) -> (r: &AccountId)
        ensures
            *r == self.sender(),
    {
        match self {
            TrustedGetter::free_balance(a) => a,
            TrustedGetter::reserved_balance(a) => a,
            TrustedGetter::nonce(a) => a,
            TrustedGetter::encointer_balance(a, ..) => a,
            TrustedGetter::ceremonies_aggregated_account_data(a, ..) => a,
            TrustedGetter::ceremonies_assignments(a, ..) => a,
            TrustedGetter::ceremonies_meetup_participant_count_vote(a, ..) => a,
            TrustedGetter::ceremonies_participant_attestees(a, ..) => a,
            TrustedGetter::ceremonies_participant_attestation_index(a, ..) => a,
            TrustedGetter::ceremonies_registered_bootstrapper(a, ..) => a,
            TrustedGetter::ceremonies_registered_bootstrappers(a, ..) => a,
            TrustedGetter::ceremonies_registered_reputable(a, ..) => a,
            TrustedGetter::ceremonies_registered_reputables(a, ..) => a,
            TrustedGetter::ceremonies_registered_endorsee(a, ..) => a,
            TrustedGetter::ceremonies_registered_endorsees(a, ..) => a,
            TrustedGetter::ceremonies_registered_newbie(a, ..) => a,
            TrustedGetter::ceremonies_registered_newbies(a, ..) => a,
        }
    }

    pub fn encode(&self) -> (r: Vec<u8>)
        ensures
            r@ == self.bytes(),
    {
        let mut out: Vec<u8> = Vec::new();
        match self {
            TrustedGetter::free_balance(a) => {
                out.push(0u8);
                a.encode_to(&mut out);
            },
            TrustedGetter::reserved_balance(a) => {
                out.push(1u8);
                a.encode_to(&mut out);
            },
            TrustedGetter::nonce(a) => {
                out.push(2u8);
                a.encode_to(&mut out);
            },
            TrustedGetter::encointer_balance(a, c) => {
                out.push(3u8);
                a.encode_to(&mut out);
                c.encode_to(&mut out);
            },
            TrustedGetter::ceremonies_aggregated_account_data(a, c, b) => {
                out.push(4u8);
                a.encode_to(&mut out);
                c.encode_to(&mut out);
                b.encode_to(&mut out);
            },
            TrustedGetter::ceremonies_assignments(a, c, i) => {
                out.push(5u8);
                a.encode_to(&mut out);
                c.encode_to(&mut out);
                push_u32(&mut out, *i);
            },
            TrustedGetter::ceremonies_meetup_participant_count_vote(a, c, i, b) => {
                out.push(6u8);
                a.encode_to(&mut out);
                c.encode_to(&mut out);
                push_u32(&mut out, *i);
                b.encode_to(&mut out);
            },
            TrustedGetter::ceremonies_participant_attestees(a, c, i, x) => {
                out.push(7u8);
                a.encode_to(&mut out);
                c.encode_to(&mut out);
                push_u32(&mut out, *i);
                push_u64(&mut out, *x);
            },
            TrustedGetter::ceremonies_participant_attestation_index(a, c, i, b) => {
                out.push(8u8);
                a.encode_to(&mut out);
                c.encode_to(&mut out);
                push_u32(&mut out, *i);
                b.encode_to(&mut out);
            },
            TrustedGetter::ceremonies_registered_bootstrapper(a, c, i, x) => {
                out.push(9u8);
                a.encode_to(&mut out);
                c.encode_to(&mut out);
                push_u32(&mut out, *i);
                push_u64(&mut out, *x);
            },
            TrustedGetter::ceremonies_registered_bootstrappers(a, c, i) => {
                out.push(10u8);
                a.encode_to(&mut out);
                c.encode_to(&mut out);
                push_u32(&mut out, *i);
            },
            TrustedGetter::ceremonies_registered_reputable(a, c, i, x) => {
                out.push(11u8);
                a.encode_to(&mut out);
                c.encode_to(&mut out);
                push_u32(&mut out, *i);
                push_u64(&mut out, *x);
            },
            TrustedGetter::ceremonies_registered_reputables(a, c, i) => {
                out.push(12u8);
                a.encode_to(&mut out);
                c.encode_to(&mut out);
                push_u32(&mut out, *i);
            },
            TrustedGetter::ceremonies_registered_endorsee(a, c, i, x) => {
                out.push(13u8);
                a.encode_to(&mut out);
                c.encode_to(&mut out);
                push_u32(&mut out, *i);
                push_u64(&mut out, *x);
            },
            TrustedGetter::ceremonies_registered_endorsees(a, c, i) => {
                out.push(14u8);
                a.encode_to(&mut out);
                c.encode_to(&mut out);
                push_u32(&mut out, *i);
            },
            TrustedGetter::ceremonies_registered_newbie(a, c, i, x) => {
                out.push(15u8);
                a.encode_to(&mut out);
                c.encode_to(&mut out);
                push_u32(&mut out, *i);
                push_u64(&mut out, *x);
            },
            TrustedGetter::ceremonies_registered_newbies(a, c, i) => {
                out.push(16u8);
                a.encode_to(&mut out);
                c.encode_to(&mut out);
                push_u32(&mut out, *i);
            },
        }
        assert(out@ =~= self.bytes());
        out
    }

    /// Signs the getter's encoding.
    pub fn sign(&self, pair: &KeyPair) -> (r: TrustedGetterSigned)
        ensures
            r.getter == *self,
            r.signature.valid_for(self.bytes(), pair.public_bytes()),
    {
        let payload = self.encode();
        let signature = pair.sign(payload.as_slice());
        TrustedGetterSigned { getter: *self, signature }
    }
}

impl TrustedGetterSigned {
    pub fn new(getter: TrustedGetter, signature: Signature) -> (r: Self)
        ensures
            r.getter == getter,
            r.signature == signature,
    {
        TrustedGetterSigned { getter, signature }
    }

    /// Whether the signature covers the getter, under the key of its own signer.
    pub open spec fn signature_valid(&self) -> bool {
        self.signature.valid_for(self.getter.bytes(), self.getter.sender().view_bytes())
    }

    pub fn verify_signature(&self) -> (r: bool)
        ensures
            r == self.signature_valid(),
    {
        let payload = self.getter.encode();
        self.signature.verify(payload.as_slice(), self.getter.sender_account())
    }
}

/// The encoded value at `key`, if the state holds one.
pub open spec fn stored(state: StfState, key: Seq<u8>) -> Option<Seq<u8>> {
    if state.storage_view().contains_key(key) {
        Some(state.storage_view()[key])
    } else {
        None
    }
}

/// The encoded value at `key`, or `len` zero bytes (the encoding of zero) if there is none.
pub open spec fn stored_or_zero(state: StfState, key: Seq<u8>, len: nat) -> Seq<u8> {
    if state.storage_view().contains_key(key) {
        state.storage_view()[key]
    } else {
        Seq::new(len, |i: int| 0u8)
    }
}

/// The key of the entry for a community ceremony in map `item` of the ceremonies pallet.
pub open spec fn cc_key(item: &str, cc: CommunityCeremony) -> Seq<u8> {
    map_key_bytes("EncointerCeremonies".spec_bytes(), item.spec_bytes(), community_ceremony_bytes(cc), StorageHasher::Blake2_128Concat)
}

/// The key of the entry for a community ceremony and a second encoded key in
/// double map `item` of the ceremonies pallet.
pub open spec fn cc_double_key(item: &str, cc: CommunityCeremony, key2: Seq<u8>) -> Seq<u8> {
    double_map_key_bytes(
        "EncointerCeremonies".spec_bytes(),
        item.spec_bytes(),
        community_ceremony_bytes(cc),
        StorageHasher::Blake2_128Concat,
        key2,
        StorageHasher::Blake2_128Concat,
    )
}

/// How many participants a registry declares for a ceremony; zero if the count is missing or malformed.
pub open spec fn registry_count(state: StfState, count_item: &str, cc: CommunityCeremony) -> nat {
    let k = cc_key(count_item, cc);
    if state.storage_view().contains_key(k) && state.storage_view()[k].len() == 8 {
        le_value(state.storage_view()[k])
    } else {
        0
    }
}

/// The account registered at 1-based index `idx`, if the slot holds one.
pub open spec fn registry_slot(state: StfState, registry_item: &str, cc: CommunityCeremony, idx: nat) -> Option<Seq<u8>> {
    let k = cc_double_key(registry_item, cc, crate::codec::le_bytes(idx, 8));
    if state.storage_view().contains_key(k) && state.storage_view()[k].len() == 32 {
        Some(state.storage_view()[k])
    } else {
        None
    }
}

/// The accounts found in slots `1..=n`, in order; missing slots are skipped,
/// and the list stops growing at the largest length the wire format carries.
pub open spec fn registry_entries(state: StfState, registry_item: &str, cc: CommunityCeremony, n: nat) -> Seq<Seq<u8>>
    decreases n,
{
    if n == 0 {
        Seq::empty()
    } else {
        let prev = registry_entries(state, registry_item, cc, (n - 1) as nat);
        match registry_slot(state, registry_item, cc, n) {
            Some(v) => if prev.len() < u32::MAX {
                prev.push(v)
            } else {
                prev
            },
            None => prev,
        }
    }
}

pub open spec fn flatten(s: Seq<Seq<u8>>) -> Seq<u8>
    decreases s.len(),
{
    if s.len() == 0 {
        Seq::empty()
    } else {
        flatten(s.drop_last()) + s.last()
    }
}

/// The encoded list of all accounts of a registry, or no result when it declares none.
pub open spec fn registry_list(state: StfState, count_item: &str, registry_item: &str, cc: CommunityCeremony) -> Option<Seq<u8>> {
    let n = registry_count(state, count_item, cc);
    if n == 0 {
        None
    } else {
        let e = registry_entries(state, registry_item, cc, n);
        Some(compact_bytes(e.len()) + flatten(e))
    }
}

/// What a trusted getter reads, once its signer is allowed to read it.
pub open spec fn trusted_result(state: StfState, g: TrustedGetter) -> Option<Seq<u8>> {
    match g {
        TrustedGetter::free_balance(w) => Some(u128_bytes(state.account(w).free)),
        TrustedGetter::reserved_balance(w) => Some(u128_bytes(state.account(w).reserved)),
        TrustedGetter::nonce(w) => Some(u32_bytes(state.account(w).nonce)),
        TrustedGetter::encointer_balance(w, c) => Some(stored_or_zero(state, double_map_key_bytes(
            "EncointerBalances".spec_bytes(), "Balance".spec_bytes(), c.bytes(), StorageHasher::Blake2_128Concat,
            w.view_bytes(), StorageHasher::Blake2_128Concat), 16)),
        TrustedGetter::ceremonies_aggregated_account_data(_, c, a) => stored(state, double_map_key_bytes(
            "EncointerCeremonies".spec_bytes(), "AggregatedAccountData".spec_bytes(), c.bytes(),
            StorageHasher::Blake2_128Concat, a.view_bytes(), StorageHasher::Blake2_128Concat)),
        TrustedGetter::ceremonies_assignments(_, c, i) =>
            Some(stored_or_zero(state, cc_key("Assignments", CommunityCeremony(c, i)), 96)),
        TrustedGetter::ceremonies_meetup_participant_count_vote(_, c, i, p) =>
            Some(stored_or_zero(state, cc_double_key("MeetupParticipantCountVote", CommunityCeremony(c, i), p.view_bytes()), 4)),
        TrustedGetter::ceremonies_participant_attestees(_, c, i, x) =>
            stored(state, cc_double_key("AttestationRegistry", CommunityCeremony(c, i), u64_bytes(x))),
        TrustedGetter::ceremonies_participant_attestation_index(_, c, i, p) =>
            Some(stored_or_zero(state, cc_double_key("AttestationIndex", CommunityCeremony(c, i), p.view_bytes()), 8)),
        TrustedGetter::ceremonies_registered_bootstrapper(_, c, i, x) =>
            registry_slot(state, "BootstrapperRegistry", CommunityCeremony(c, i), x as nat),
        TrustedGetter::ceremonies_registered_bootstrappers(_, c, i) =>
            registry_list(state, "BootstrapperCount", "BootstrapperRegistry", CommunityCeremony(c, i)),
        TrustedGetter::ceremonies_registered_reputable(_, c, i, x) =>
            registry_slot(state, "ReputableRegistry", CommunityCeremony(c, i), x as nat),
        TrustedGetter::ceremonies_registered_reputables(_, c, i) =>
            registry_list(state, "ReputableCount", "ReputableRegistry", CommunityCeremony(c, i)),
        TrustedGetter::ceremonies_registered_endorsee(_, c, i, x) =>
            registry_slot(state, "EndorseeRegistry", CommunityCeremony(c, i), x as nat),
        TrustedGetter::ceremonies_registered_endorsees(_, c, i) =>
            registry_list(state, "EndorseeCount", "EndorseeRegistry", CommunityCeremony(c, i)),
        TrustedGetter::ceremonies_registered_newbie(_, c, i, x) =>
            registry_slot(state, "NewbieRegistry", CommunityCeremony(c, i), x as nat),
        TrustedGetter::ceremonies_registered_newbies(_, c, i) =>
            registry_list(state, "NewbieCount", "NewbieRegistry", CommunityCeremony(c, i)),
    }
}

/// The result of a signed getter: nothing unless the signature holds and,
/// for a confidential getter, the signer is the ceremony master.
pub open spec fn signed_getter_result(state: StfState, g: TrustedGetterSigned) -> Option<Seq<u8>> {
    if !g.signature_valid() {
        None
    } else if g.getter.is_confidential() && !same_account(g.getter.sender(), state.ceremony_master) {
        None
    } else {
        trusted_result(state, g.getter)
    }
}

/// What a public getter reads.
pub open spec fn public_result(state: StfState, g: PublicGetter) -> Option<Seq<u8>> {
    match g {
        PublicGetter::some_value => Some(u32_bytes(42)),
        PublicGetter::encointer_total_issuance(c) => Some(stored_or_zero(state, map_key_bytes(
            "EncointerBalances".spec_bytes(), "TotalIssuance".spec_bytes(), c.bytes(), StorageHasher::Blake2_128Concat), 16)),
        PublicGetter::ceremonies_assignment_counts(c, i) =>
            Some(stored_or_zero(state, cc_key("AssignmentCounts", CommunityCeremony(c, i)), 32)),
        PublicGetter::ceremonies_attestation_count(c, i) =>
            Some(stored_or_zero(state, cc_key("AttestationCount", CommunityCeremony(c, i)), 8)),
        PublicGetter::ceremonies_meetup_count(c, i) =>
            Some(stored_or_zero(state, cc_key("MeetupCount", CommunityCeremony(c, i)), 8)),
        PublicGetter::ceremonies_meetup_time_offset() => Some(stored_or_zero(state, value_key_bytes(
            "EncointerCeremonies".spec_bytes(), "MeetupTimeOffset".spec_bytes()), 4)),
        PublicGetter::ceremonies_registered_bootstrappers_count(c, i) =>
            Some(stored_or_zero(state, cc_key("BootstrapperCount", CommunityCeremony(c, i)), 8)),
        PublicGetter::ceremonies_registered_endorsees_count(c, i) =>
            Some(stored_or_zero(state, cc_key("EndorseeCount", CommunityCeremony(c, i)), 8)),
        PublicGetter::ceremonies_registered_newbies_count(c, i) =>
            Some(stored_or_zero(state, cc_key("NewbieCount", CommunityCeremony(c, i)), 8)),
        PublicGetter::ceremonies_registered_reputables_count(c, i) =>
            Some(stored_or_zero(state, cc_key("ReputableCount", CommunityCeremony(c, i)), 8)),
        PublicGetter::ceremonies_reward(c) => Some(stored_or_zero(state, map_key_bytes(
            "EncointerCommunities".spec_bytes(), "NominalIncome".spec_bytes(), c.bytes(), StorageHasher::Blake2_128Concat), 16)),
    }
}

pub open spec fn getter_result(state: StfState, g: Getter) -> Option<Seq<u8>> {
    match g {
        Getter::public(p) => public_result(state, p),
        Getter::trusted(t) => signed_getter_result(state, t),
    }
}

pub open spec fn bytes_opt(r: Option<Vec<u8>>) -> Option<Seq<u8>> {
    match r {
        Some(v) => Some(v@),
        None => None,
    }
}

fn read_or_zero(state: &StfState, key: &[u8], len: usize) -> (r: Vec<u8>)
    requires
        state.wf(),
    ensures
        r@ == stored_or_zero(*state, key@, len as nat),
{
    match state.storage_get(key) {
        Some(v) => v,
        None => {
            let mut z: Vec<u8> = Vec::new();
            let mut i: usize = 0;
            while i < len
                invariant
                    i <= len,
                    z@ == Seq::new(i as nat, |j: int| 0u8),
                decreases len - i,
            {
                z.push(0u8);
                i = i + 1;
                assert(z@ =~= Seq::new(i as nat, |j: int| 0u8));
            }
            z
        },
    }
}

fn read_some_or_zero(state: &StfState, key: &[u8], len: usize) -> (r: Option<Vec<u8>>)
    requires
        state.wf(),
    ensures
        bytes_opt(r) == Some(stored_or_zero(*state, key@, len as nat)),
{
    Some(read_or_zero(state, key, len))
}

fn read_stored(state: &StfState, key: &[u8]) -> (r: Option<Vec<u8>>)
    requires
        state.wf(),
    ensures
        bytes_opt(r) == stored(*state, key@),
{
    state.storage_get(key)
}

fn cc_key_of(item: &str, cc: &CommunityCeremony) -> (r: Vec<u8>)
    ensures
        r@ == cc_key(item, *cc),
{
    let mut k: Vec<u8> = Vec::new();
    encode_community_ceremony(cc, &mut k);
    assert(k@ =~= community_ceremony_bytes(*cc));
    storage_map_key("EncointerCeremonies", item, k.as_slice(), &StorageHasher::Blake2_128Concat)
}

fn cc_double_key_of(item: &str, cc: &CommunityCeremony, key2: &[u8]) -> (r: Vec<u8>)
    ensures
        r@ == cc_double_key(item, *cc, key2@),
{
    let mut k: Vec<u8> = Vec::new();
    encode_community_ceremony(cc, &mut k);
    assert(k@ =~= community_ceremony_bytes(*cc));
    storage_double_map_key(
        "EncointerCeremonies",
        item,
        k.as_slice(),
        &StorageHasher::Blake2_128Concat,
        key2,
        &StorageHasher::Blake2_128Concat,
    )
}

fn u64_key(x: u64) -> (r: Vec<u8>)
    ensures
        r@ == u64_bytes(x),
{
    let mut k: Vec<u8> = Vec::new();
    push_u64(&mut k, x);
    assert(k@ =~= u64_bytes(x));
    k
}

fn account_bytes(a: &AccountId) -> (r: Vec<u8>)
    ensures
        r@ == a.view_bytes(),
{
    let mut k: Vec<u8> = Vec::new();
    a.encode_to(&mut k);
    assert(k@ =~= a.view_bytes());
    k
}

/// The account in slot `idx` of a registry, if it holds one.
fn registry_entry(state: &StfState, registry_item: &str, cc: &CommunityCeremony, idx: u64) -> (r: Option<Vec<u8>>)
    requires
        state.wf(),
    ensures
        bytes_opt(r) == registry_slot(*state, registry_item, *cc, idx as nat),
{
    let key = cc_double_key_of(registry_item, cc, u64_key(idx).as_slice());
    match state.storage_get(key.as_slice()) {
        Some(v) => if v.len() == 32 {
            Some(v)
        } else {
            None
        },
        None => None,
    }
}

/// Collects the accounts of slots `1..=count` of a registry, skipping empty slots.
fn registered_accounts(state: &StfState, count_item: &str, registry_item: &str, cc: &CommunityCeremony) -> (r: Option<Vec<u8>>)
    requires
        state.wf(),
    ensures
        bytes_opt(r) == registry_list(*state, count_item, registry_item, *cc),
{
    let count_key = cc_key_of(count_item, cc);
    let count: u64 = match state.storage_get(count_key.as_slice()) {
        Some(v) => match decode_u64(v.as_slice()) {
            Some(n) => n,
            None => 0,
        },
        None => 0,
    };
    assert(count as nat == registry_count(*state, count_item, *cc));
    if count < 1 {
        return None;
    }
    let mut body: Vec<u8> = Vec::new();
    let mut found: usize = 0;
    let mut i: u64 = 0;
    while i < count
        invariant
            state.wf(),
            i <= count,
            found as nat == registry_entries(*state, registry_item, *cc, i as nat).len(),
            found <= u32::MAX,
            body@ == flatten(registry_entries(*state, registry_item, *cc, i as nat)),
        decreases count - i,
    {
        let ghost prev = registry_entries(*state, registry_item, *cc, i as nat);
        match registry_entry(state, registry_item, cc, i + 1) {
            Some(v) => {
                if found < 0xffff_ffff {
                    body.extend_from_slice(v.as_slice());
                    found = found + 1;
                    assert(prev.push(v@).drop_last() =~= prev);
                }
            },
            None => {},
        }
        i = i + 1;
    }
    let mut out: Vec<u8> = Vec::new();
    push_compact(&mut out, found as u32);
    out.extend_from_slice(body.as_slice());
    Some(out)
}

impl TrustedGetterSigned {
    /// Runs the getter: nothing unless the signature holds and, for a
    /// confidential getter, the signer is the ceremony master.
    pub fn execute(self, state: &StfState) -> (r: Option<Vec<u8>>)
        requires
            state.wf(),
        ensures
            bytes_opt(r) == signed_getter_result(*state, self),
    {
        if !self.verify_signature() {
            return None;
        }
        if is_confidential(&self.getter) && !self.getter.sender_account().same(&state.ceremony_master) {
            return None;
        }
        match self.getter {
            TrustedGetter::free_balance(w) => {
                let mut out: Vec<u8> = Vec::new();
                push_u128(&mut out, state.account_info(&w).free);
                assert(out@ =~= u128_bytes(state.account(w).free));
                Some(out)
            },
            TrustedGetter::reserved_balance(w) => {
                let mut out: Vec<u8> = Vec::new();
                push_u128(&mut out, state.account_info(&w).reserved);
                assert(out@ =~= u128_bytes(state.account(w).reserved));
                Some(out)
            },
            TrustedGetter::nonce(w) => {
                let mut out: Vec<u8> = Vec::new();
                push_u32(&mut out, state.account_nonce(&w));
                assert(out@ =~= u32_bytes(state.account(w).nonce));
                Some(out)
            },
            TrustedGetter::encointer_balance(w, c) => {
                let mut ck: Vec<u8> = Vec::new();
                c.encode_to(&mut ck);
                assert(ck@ =~= c.bytes());
                let key = storage_double_map_key("EncointerBalances", "Balance", ck.as_slice(),
                    &StorageHasher::Blake2_128Concat, account_bytes(&w).as_slice(), &StorageHasher::Blake2_128Concat);
                read_some_or_zero(state, key.as_slice(), 16)
            },
            TrustedGetter::ceremonies_aggregated_account_data(_, c, a) => {
                let mut ck: Vec<u8> = Vec::new();
                c.encode_to(&mut ck);
                assert(ck@ =~= c.bytes());
                let key = storage_double_map_key("EncointerCeremonies", "AggregatedAccountData", ck.as_slice(),
                    &StorageHasher::Blake2_128Concat, account_bytes(&a).as_slice(), &StorageHasher::Blake2_128Concat);
                read_stored(state, key.as_slice())
            },
            TrustedGetter::ceremonies_assignments(_, c, i) => {
                let key = cc_key_of("Assignments", &CommunityCeremony(c, i));
                read_some_or_zero(state, key.as_slice(), 96)
            },
            TrustedGetter::ceremonies_meetup_participant_count_vote(_, c, i, p) => {
                let key = cc_double_key_of("MeetupParticipantCountVote", &CommunityCeremony(c, i), account_bytes(&p).as_slice());
                read_some_or_zero(state, key.as_slice(), 4)
            },
            TrustedGetter::ceremonies_participant_attestees(_, c, i, x) => {
                let key = cc_double_key_of("AttestationRegistry", &CommunityCeremony(c, i), u64_key(x).as_slice());
                read_stored(state, key.as_slice())
            },
            TrustedGetter::ceremonies_participant_attestation_index(_, c, i, p) => {
                let key = cc_double_key_of("AttestationIndex", &CommunityCeremony(c, i), account_bytes(&p).as_slice());
                read_some_or_zero(state, key.as_slice(), 8)
            },
            TrustedGetter::ceremonies_registered_bootstrapper(_, c, i, x) =>
                registry_entry(state, "BootstrapperRegistry", &CommunityCeremony(c, i), x),
            TrustedGetter::ceremonies_registered_bootstrappers(_, c, i) =>
                registered_accounts(state, "BootstrapperCount", "BootstrapperRegistry", &CommunityCeremony(c, i)),
            TrustedGetter::ceremonies_registered_reputable(_, c, i, x) =>
                registry_entry(state, "ReputableRegistry", &CommunityCeremony(c, i), x),
            TrustedGetter::ceremonies_registered_reputables(_, c, i) =>
                registered_accounts(state, "ReputableCount", "ReputableRegistry", &CommunityCeremony(c, i)),
            TrustedGetter::ceremonies_registered_endorsee(_, c, i, x) =>
                registry_entry(state, "EndorseeRegistry", &CommunityCeremony(c, i), x),
            TrustedGetter::ceremonies_registered_endorsees(_, c, i) =>
                registered_accounts(state, "EndorseeCount", "EndorseeRegistry", &CommunityCeremony(c, i)),
            TrustedGetter::ceremonies_registered_newbie(_, c, i, x) =>
                registry_entry(state, "NewbieRegistry", &CommunityCeremony(c, i), x),
            TrustedGetter::ceremonies_registered_newbies(_, c, i) =>
                registered_accounts(state, "NewbieCount", "NewbieRegistry", &CommunityCeremony(c, i)),
        }
    }
}

fn is_confidential(g: &TrustedGetter) -> (r: bool)
    ensures
        r == g.is_confidential(),
{
    match g {
        TrustedGetter::free_balance(..) => false,
        TrustedGetter::reserved_balance(..) => false,
        TrustedGetter::nonce(..) => false,
        TrustedGetter::encointer_balance(..) => false,
        _ => true,
    }
}

impl PublicGetter {
    pub fn execute(self, state: &StfState) -> (r: Option<Vec<u8>>)
        requires
            state.wf(),
        ensures
            bytes_opt(r) == public_result(*state, self),
    {
        match self {
            PublicGetter::some_value => {
                let mut out: Vec<u8> = Vec::new();
                push_u32(&mut out, 42);
                assert(out@ =~= u32_bytes(42));
                Some(out)
            },
            PublicGetter::encointer_total_issuance(c) => {
                let mut ck: Vec<u8> = Vec::new();
                c.encode_to(&mut ck);
                assert(ck@ =~= c.bytes());
                let key = storage_map_key("EncointerBalances", "TotalIssuance", ck.as_slice(), &StorageHasher::Blake2_128Concat);
                read_some_or_zero(state, key.as_slice(), 16)
            },
            PublicGetter::ceremonies_assignment_counts(c, i) =>
                read_some_or_zero(state, cc_key_of("AssignmentCounts", &CommunityCeremony(c, i)).as_slice(), 32),
            PublicGetter::ceremonies_attestation_count(c, i) =>
                read_some_or_zero(state, cc_key_of("AttestationCount", &CommunityCeremony(c, i)).as_slice(), 8),
            PublicGetter::ceremonies_meetup_count(c, i) =>
                read_some_or_zero(state, cc_key_of("MeetupCount", &CommunityCeremony(c, i)).as_slice(), 8),
            PublicGetter::ceremonies_meetup_time_offset() =>
                read_some_or_zero(state, storage_value_key("EncointerCeremonies", "MeetupTimeOffset").as_slice(), 4),
            PublicGetter::ceremonies_registered_bootstrappers_count(c, i) =>
                read_some_or_zero(state, cc_key_of("BootstrapperCount", &CommunityCeremony(c, i)).as_slice(), 8),
            PublicGetter::ceremonies_registered_endorsees_count(c, i) =>
                read_some_or_zero(state, cc_key_of("EndorseeCount", &CommunityCeremony(c, i)).as_slice(), 8),
            PublicGetter::ceremonies_registered_newbies_count(c, i) =>
                read_some_or_zero(state, cc_key_of("NewbieCount", &CommunityCeremony(c, i)).as_slice(), 8),
            PublicGetter::ceremonies_registered_reputables_count(c, i) =>
                read_some_or_zero(state, cc_key_of("ReputableCount", &CommunityCeremony(c, i)).as_slice(), 8),
            PublicGetter::ceremonies_reward(c) => {
                let mut ck: Vec<u8> = Vec::new();
                c.encode_to(&mut ck);
                assert(ck@ =~= c.bytes());
                let key = storage_map_key("EncointerCommunities", "NominalIncome", ck.as_slice(), &StorageHasher::Blake2_128Concat);
                read_some_or_zero(state, key.as_slice(), 16)
            },
        }
    }
}

impl Getter {
    pub fn execute(self, state: &StfState) -> (r: Option<Vec<u8>>)
        requires
            state.wf(),
        ensures
            bytes_opt(r) == getter_result(*state, self),
    {
        match self {
            Getter::trusted(g) => g.execute(state),
            Getter::public(g) => g.execute(state),
        }
    }
}

} // verus!
