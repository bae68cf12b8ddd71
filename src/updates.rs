//! The storage keys that a call or getter depends on and that must be
//! re-synchronised from the public chain before it runs.

use crate::call::{TrustedCall, TrustedCallSigned};
use crate::getter::{Getter, PublicGetter, TrustedGetter, TrustedGetterSigned};
use crate::state::StfState;
use crate::storage::{map_key_bytes, storage_map_key, storage_value_key, value_key_bytes, StorageHasher};
use crate::types::{encode_phase, phase_tag};
use vstd::prelude::*;
use vstd::string::StringSliceAdditionalSpecFns;

verus! {

pub open spec fn keys_view(v: Seq<Vec<u8>>) -> Seq<Seq<u8>> {
    v.map_values(|k: Vec<u8>| k@)
}

pub open spec fn current_phase_key() -> Seq<u8> {
    value_key_bytes("EncointerScheduler".spec_bytes(), "CurrentPhase".spec_bytes())
}

pub open spec fn current_ceremony_index_key() -> Seq<u8> {
    value_key_bytes("EncointerScheduler".spec_bytes(), "CurrentCeremonyIndex".spec_bytes())
}

pub open spec fn next_phase_timestamp_key() -> Seq<u8> {
    value_key_bytes("EncointerScheduler".spec_bytes(), "NextPhaseTimestamp".spec_bytes())
}

pub open spec fn community_identifiers_key() -> Seq<u8> {
    value_key_bytes("EncointerCommunities".spec_bytes(), "CommunityIdentifiers".spec_bytes())
}

pub open spec fn bootstrappers_key() -> Seq<u8> {
    value_key_bytes("EncointerCommunities".spec_bytes(), "Bootstrappers".spec_bytes())
}

/// The keys a call depends on, by variant.
pub open spec fn call_update_keys(call: TrustedCall) -> Seq<Seq<u8>> {
    match call {
        TrustedCall::ceremonies_register_participant(..) | TrustedCall::ceremonies_upgrade_registration(..)
        | TrustedCall::ceremonies_unregister_participant(..) | TrustedCall::ceremonies_attest_claims(..) =>
            seq![current_phase_key(), current_ceremony_index_key(), community_identifiers_key()],
        TrustedCall::ceremonies_attest_attendees(..) | TrustedCall::ceremonies_claim_rewards(..) =>
            seq![current_phase_key(), community_identifiers_key()],
        TrustedCall::ceremonies_set_meetup_time_offset(..) => seq![current_phase_key()],
        TrustedCall::ceremonies_endorse_newcomer(..) => seq![
            current_phase_key(),
            current_ceremony_index_key(),
            community_identifiers_key(),
            bootstrappers_key(),
        ],
        _ => Seq::empty(),
    }
}

/// The keys a signed getter depends on; the phase-duration key is the one of the current phase.
pub open spec fn trusted_getter_update_keys(state: StfState, getter: TrustedGetter) -> Seq<Seq<u8>> {
    match getter {
        TrustedGetter::encointer_balance(_, c) => seq![map_key_bytes(
            "EncointerBalances".spec_bytes(),
            "DemurragePerBlock".spec_bytes(),
            c.bytes(),
            StorageHasher::Blake2_128Concat,
        )],
        TrustedGetter::ceremonies_aggregated_account_data(..) => seq![
            current_ceremony_index_key(),
            map_key_bytes(
                "EncointerScheduler".spec_bytes(),
                "PhaseDurations".spec_bytes(),
                seq![phase_tag(state.phase)],
                StorageHasher::Blake2_128Concat,
            ),
            next_phase_timestamp_key(),
        ],
        _ => Seq::empty(),
    }
}

pub open spec fn public_getter_update_keys(getter: PublicGetter) -> Seq<Seq<u8>> {
    match getter {
        PublicGetter::ceremonies_reward(c) => seq![map_key_bytes(
            "EncointerCommunities".spec_bytes(),
            "NominalIncome".spec_bytes(),
            c.bytes(),
            StorageHasher::Blake2_128Concat,
        )],
        _ => Seq::empty(),
    }
}

impl TrustedCallSigned {
    pub fn get_storage_hashes_to_update(self) -> (r: Vec<Vec<u8>>)
        ensures
            keys_view(r@) == call_update_keys(self.call),
    {
        let mut key_hashes: Vec<Vec<u8>> = Vec::new();
        match self.call {
            TrustedCall::ceremonies_register_participant(..) | TrustedCall::ceremonies_upgrade_registration(..)
            | TrustedCall::ceremonies_unregister_participant(..) | TrustedCall::ceremonies_attest_claims(..) => {
                key_hashes.push(storage_value_key("EncointerScheduler", "CurrentPhase"));
                key_hashes.push(storage_value_key("EncointerScheduler", "CurrentCeremonyIndex"));
                key_hashes.push(storage_value_key("EncointerCommunities", "CommunityIdentifiers"));
            },
            TrustedCall::ceremonies_attest_attendees(..) | TrustedCall::ceremonies_claim_rewards(..) => {
                key_hashes.push(storage_value_key("EncointerScheduler", "CurrentPhase"));
                key_hashes.push(storage_value_key("EncointerCommunities", "CommunityIdentifiers"));
            },
            TrustedCall::ceremonies_set_meetup_time_offset(..) => {
                key_hashes.push(storage_value_key("EncointerScheduler", "CurrentPhase"));
            },
            TrustedCall::ceremonies_endorse_newcomer(..) => {
                key_hashes.push(storage_value_key("EncointerScheduler", "CurrentPhase"));
                key_hashes.push(storage_value_key("EncointerScheduler", "CurrentCeremonyIndex"));
                key_hashes.push(storage_value_key("EncointerCommunities", "CommunityIdentifiers"));
                key_hashes.push(storage_value_key("EncointerCommunities", "Bootstrappers"));
            },
            _ => {},
        }
        assert(keys_view(key_hashes@) =~= call_update_keys(self.call));
        key_hashes
    }
}

impl TrustedGetterSigned {
    pub fn get_storage_hashes_to_update(self, state: &StfState) -> (r: Vec<Vec<u8>>)
        ensures
            keys_view(r@) == trusted_getter_update_keys(*state, self.getter),
    {
        let mut key_hashes: Vec<Vec<u8>> = Vec::new();
        match self.getter {
            TrustedGetter::encointer_balance(_, c) => {
                let mut ck: Vec<u8> = Vec::new();
                c.encode_to(&mut ck);
                assert(ck@ =~= c.bytes());
                key_hashes.push(storage_map_key(
                    "EncointerBalances",
                    "DemurragePerBlock",
                    ck.as_slice(),
                    &StorageHasher::Blake2_128Concat,
                ));
            },
            TrustedGetter::ceremonies_aggregated_account_data(..) => {
                key_hashes.push(storage_value_key("EncointerScheduler", "CurrentCeremonyIndex"));
                let mut pk: Vec<u8> = Vec::new();
                encode_phase(state.phase, &mut pk);
                assert(pk@ =~= seq![phase_tag(state.phase)]);
                key_hashes.push(storage_map_key(
                    "EncointerScheduler",
                    "PhaseDurations",
                    pk.as_slice(),
                    &StorageHasher::Blake2_128Concat,
                ));
                key_hashes.push(storage_value_key("EncointerScheduler", "NextPhaseTimestamp"));
            },
            _ => {},
        }
        assert(keys_view(key_hashes@) =~= trusted_getter_update_keys(*state, self.getter));
        key_hashes
    }
}

impl PublicGetter {
    pub fn get_storage_hashes_to_update(self) -> (r: Vec<Vec<u8>>)
        ensures
            keys_view(r@) == public_getter_update_keys(self),
    {
        let mut key_hashes: Vec<Vec<u8>> = Vec::new();
        match self {
            PublicGetter::ceremonies_reward(c) => {
                let mut ck: Vec<u8> = Vec::new();
                c.encode_to(&mut ck);
                assert(ck@ =~= c.bytes());
                key_hashes.push(storage_map_key(
                    "EncointerCommunities",
                    "NominalIncome",
                    ck.as_slice(),
                    &StorageHasher::Blake2_128Concat,
                ));
            },
            _ => {},
        }
        assert(keys_view(key_hashes@) =~= public_getter_update_keys(self));
        key_hashes
    }
}

impl Getter {
    pub fn get_storage_hashes_to_update(self, state: &StfState) -> (r: Vec<Vec<u8>>)
        ensures
            keys_view(r@) == match self {
                Getter::trusted(g) => trusted_getter_update_keys(*state, g.getter),
                Getter::public(g) => public_getter_update_keys(g),
            },
    {
        match self {
            Getter::trusted(g) => g.get_storage_hashes_to_update(state),
            Getter::public(g) => g.get_storage_hashes_to_update(),
        }
    }
}

} // verus!
