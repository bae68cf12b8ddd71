//! Trusted calls: the signed, state-mutating operations of the confidential ledger,
//! and the payload that binds their signature to a nonce, an enclave and a shard.

use crate::codec::{
    compact_bytes, i32_bytes, option_bytes, push_compact, push_i128, push_i32, push_u128, push_u32,
    push_u64, push_u8, u128_bytes, u32_bytes, u64_bytes, u8_bytes, i128_bytes,
};

use crate::getter::Getter;
use crate::types::{
    claim_bytes, community_ceremony_bytes, encode_claim, encode_community_ceremony, encode_proof,
    proof_bytes, location_bytes, AccountId, Location, Balance, BalanceType, ClaimOfAttendance, CommunityCeremony,
    CommunityIdentifier, EndorsementTicketsType, FeeConversionFactorType, InactivityTimeoutType,
    Index, KeyPair, MeetupIndexType, MeetupTimeOffsetType, Moment, ProofOfAttendance,
    ReputationLifetimeType, ShardIdentifier, Signature,
};
use vstd::prelude::*;

verus! {

/// The mutating operations; each variant's first field is its sender.
/// The order of the variants is the wire tag and must only ever be appended to.
#[allow(non_camel_case_types)]
#[derive(Clone, Debug)]
pub enum TrustedCall {
    /// (root, who, free, reserved)
    balance_set_balance(AccountId, AccountId, Balance, Balance),
    /// (from, to, amount)
    balance_transfer(AccountId, AccountId, Balance),
    /// (confidential account, public beneficiary, amount, shard)
    balance_unshield(AccountId, AccountId, Balance, ShardIdentifier),
    /// (enclave signer, confidential account, amount)
    balance_shield(AccountId, AccountId, Balance),
    encointer_balance_transfer(AccountId, AccountId, CommunityIdentifier, BalanceType),
    encointer_set_fee_conversion_factor(AccountId, FeeConversionFactorType),
    encointer_transfer_all(AccountId, AccountId, CommunityIdentifier),
    ceremonies_register_participant(AccountId, CommunityIdentifier, Option<ProofOfAttendance>),
    ceremonies_upgrade_registration(AccountId, CommunityIdentifier, ProofOfAttendance),
    ceremonies_unregister_participant(AccountId, CommunityIdentifier, Option<CommunityCeremony>),
    ceremonies_attest_attendees(AccountId, CommunityIdentifier, u32, Vec<AccountId>),
    ceremonies_attest_claims(AccountId, Vec<ClaimOfAttendance>),
    ceremonies_endorse_newcomer(AccountId, CommunityIdentifier, AccountId),
    ceremonies_claim_rewards(AccountId, CommunityIdentifier, Option<MeetupIndexType>),
    ceremonies_set_inactivity_timeout(AccountId, InactivityTimeoutType),
    ceremonies_set_endorsement_tickets_per_bootstrapper(AccountId, EndorsementTicketsType),
    ceremonies_set_endorsement_tickets_per_reputable(AccountId, EndorsementTicketsType),
    ceremonies_set_reputation_lifetime(AccountId, ReputationLifetimeType),
    ceremonies_set_meetup_time_offset(AccountId, MeetupTimeOffsetType),
    ceremonies_set_time_tolerance(AccountId, Moment),
    ceremonies_set_location_tolerance(AccountId, u32),
    ceremonies_purge_community_ceremony(AccountId, CommunityCeremony),
    ceremonies_migrate_to_private_community(AccountId, CommunityIdentifier, Vec<Location>),
}

/// The concatenated encodings of a sequence of accounts.
pub open spec fn accounts_concat(s: Seq<AccountId>) -> Seq<u8>
    decreases s.len(),
{
    if s.len() == 0 {
        Seq::empty()
    } else {
        accounts_concat(s.drop_last()) + s.last().view_bytes()
    }
}

/// A list of accounts in SCALE form: its length in compact form, then each account.
pub open spec fn accounts_bytes(s: Seq<AccountId>) -> Seq<u8> {
    compact_bytes(s.len()) + accounts_concat(s)
}

pub open spec fn claims_concat(s: Seq<ClaimOfAttendance>) -> Seq<u8>
    decreases s.len(),
{
    if s.len() == 0 {
        Seq::empty()
    } else {
        claims_concat(s.drop_last()) + claim_bytes(s.last())
    }
}

pub open spec fn claims_bytes(s: Seq<ClaimOfAttendance>) -> Seq<u8> {
    compact_bytes(s.len()) + claims_concat(s)
}

pub open spec fn locations_concat(s: Seq<Location>) -> Seq<u8>
    decreases s.len(),
{
    if s.len() == 0 {
        Seq::empty()
    } else {
        locations_concat(s.drop_last()) + location_bytes(s.last())
    }
}

pub open spec fn locations_bytes(s: Seq<Location>) -> Seq<u8> {
    compact_bytes(s.len()) + locations_concat(s)
}

pub fn encode_locations(v: &Vec<Location>, out: &mut Vec<u8>)
    requires
        v@.len() <= u32::MAX,
    ensures
        final(out)@ == old(out)@ + locations_bytes(v@),
{
    push_compact(out, v.len() as u32);
    let ghost start = out@;
    let mut i: usize = 0;
    while i < v.len()
        invariant
            i <= v@.len(),
            out@ == start + locations_concat(v@.subrange(0, i as int)),
            start == old(out)@ + compact_bytes(v@.len()),
        decreases v@.len() - i,
    {
        assert(v@.subrange(0, i + 1).drop_last() =~= v@.subrange(0, i as int));
        push_i128(out, v[i].lat.bits);
        push_i128(out, v[i].lon.bits);
        i = i + 1;
        assert(out@ =~= start + locations_concat(v@.subrange(0, i as int)));
    }
    assert(v@.subrange(0, v@.len() as int) =~= v@);
    assert(out@ =~= old(out)@ + locations_bytes(v@));
}

/// Appends a list of accounts in SCALE form.
pub fn encode_accounts(v: &Vec<AccountId>, out: &mut Vec<u8>)
    requires
        v@.len() <= u32::MAX,
    ensures
        final(out)@ == old(out)@ + accounts_bytes(v@),
{
    push_compact(out, v.len() as u32);
    let ghost start = out@;
    let mut i: usize = 0;
    while i < v.len()
        invariant
            i <= v@.len(),
            out@ == start + accounts_concat(v@.subrange(0, i as int)),
            start == old(out)@ + compact_bytes(v@.len()),
        decreases v@.len() - i,
    {
        assert(v@.subrange(0, i + 1).drop_last() =~= v@.subrange(0, i as int));
        v[i].encode_to(out);
        i = i + 1;
        assert(out@ =~= start + accounts_concat(v@.subrange(0, i as int)));
    }
    assert(v@.subrange(0, v@.len() as int) =~= v@);
    assert(out@ =~= old(out)@ + accounts_bytes(v@));
}

pub fn encode_claims(v: &Vec<ClaimOfAttendance>, out: &mut Vec<u8>)
    requires
        v@.len() <= u32::MAX,
    ensures
        final(out)@ == old(out)@ + claims_bytes(v@),
{
    push_compact(out, v.len() as u32);
    let ghost start = out@;
    let mut i: usize = 0;
    while i < v.len()
        invariant
            i <= v@.len(),
            out@ == start + claims_concat(v@.subrange(0, i as int)),
            start == old(out)@ + compact_bytes(v@.len()),
        decreases v@.len() - i,
    {
        assert(v@.subrange(0, i + 1).drop_last() =~= v@.subrange(0, i as int));
        encode_claim(&v[i], out);
        i = i + 1;
        assert(out@ =~= start + claims_concat(v@.subrange(0, i as int)));
    }
    assert(v@.subrange(0, v@.len() as int) =~= v@);
    assert(out@ =~= old(out)@ + claims_bytes(v@));
}

impl TrustedCall {
    /// The collections in the call are small enough to be encoded.
    pub open spec fn wf(&self) -> bool {
        match self {
            TrustedCall::ceremonies_attest_attendees(_, _, _, v) => v@.len() <= u32::MAX,
            TrustedCall::ceremonies_attest_claims(_, v) => v@.len() <= u32::MAX,
            TrustedCall::ceremonies_migrate_to_private_community(_, _, v) => v@.len() <= u32::MAX,
            _ => true,
        }
    }

    pub open spec fn sender(&self) -> AccountId {
        match self {
            TrustedCall::balance_set_balance(a, ..) => *a,
            TrustedCall::balance_transfer(a, ..) => *a,
            TrustedCall::balance_unshield(a, ..) => *a,
            TrustedCall::balance_shield(a, ..) => *a,
            TrustedCall::encointer_balance_transfer(a, ..) => *a,
            TrustedCall::encointer_set_fee_conversion_factor(a, ..) => *a,
            TrustedCall::encointer_transfer_all(a, ..) => *a,
            TrustedCall::ceremonies_register_participant(a, ..) => *a,
            TrustedCall::ceremonies_upgrade_registration(a, ..) => *a,
            TrustedCall::ceremonies_unregister_participant(a, ..) => *a,
            TrustedCall::ceremonies_attest_attendees(a, ..) => *a,
            TrustedCall::ceremonies_attest_claims(a, ..) => *a,
            TrustedCall::ceremonies_endorse_newcomer(a, ..) => *a,
            TrustedCall::ceremonies_claim_rewards(a, ..) => *a,
            TrustedCall::ceremonies_set_inactivity_timeout(a, ..) => *a,
            TrustedCall::ceremonies_set_endorsement_tickets_per_bootstrapper(a, ..) => *a,
            TrustedCall::ceremonies_set_endorsement_tickets_per_reputable(a, ..) => *a,
            TrustedCall::ceremonies_set_reputation_lifetime(a, ..) => *a,
            TrustedCall::ceremonies_set_meetup_time_offset(a, ..) => *a,
            TrustedCall::ceremonies_set_time_tolerance(a, ..) => *a,
            TrustedCall::ceremonies_set_location_tolerance(a, ..) => *a,
            TrustedCall::ceremonies_purge_community_ceremony(a, ..) => *a,
            TrustedCall::ceremonies_migrate_to_private_community(a, ..) => *a,
        }
    }

    /// The SCALE encoding of the call: its variant tag, then its fields in order.
    pub open spec fn bytes(&self) -> Seq<u8> {
        match self {
            TrustedCall::balance_set_balance(r, w, f, v) => seq![0u8] + r.view_bytes()
                + w.view_bytes() + u128_bytes(*f) + u128_bytes(*v),
            TrustedCall::balance_transfer(f, t, v) => seq![1u8] + f.view_bytes() + t.view_bytes()
                + u128_bytes(*v),
            TrustedCall::balance_unshield(a, b, v, s) => seq![2u8] + a.view_bytes()
                + b.view_bytes() + u128_bytes(*v) + s@,
            TrustedCall::balance_shield(e, w, v) => seq![3u8] + e.view_bytes() + w.view_bytes()
                + u128_bytes(*v),
            TrustedCall::encointer_balance_transfer(f, t, c, v) => seq![4u8] + f.view_bytes()
                + t.view_bytes() + c.bytes() + i128_bytes(v.bits),
            TrustedCall::encointer_set_fee_conversion_factor(w, x) => seq![5u8] + w.view_bytes()
                + u128_bytes(*x),
            TrustedCall::encointer_transfer_all(f, t, c) => seq![6u8] + f.view_bytes()
                + t.view_bytes() + c.bytes(),
            TrustedCall::ceremonies_register_participant(w, c, p) => seq![7u8] + w.view_bytes()
                + c.bytes() + match p {
                Some(p) => option_bytes(true, proof_bytes(*p)),
                None => option_bytes(false, Seq::empty()),
            },
            TrustedCall::ceremonies_upgrade_registration(w, c, p) => seq![8u8] + w.view_bytes()
                + c.bytes() + proof_bytes(*p),
            TrustedCall::ceremonies_unregister_participant(w, c, cc) => seq![9u8]
                + w.view_bytes() + c.bytes() + match cc {
                Some(cc) => option_bytes(true, community_ceremony_bytes(*cc)),
                None => option_bytes(false, Seq::empty()),
            },
            TrustedCall::ceremonies_attest_attendees(w, c, n, v) => seq![10u8] + w.view_bytes()
                + c.bytes() + u32_bytes(*n) + accounts_bytes(v@),
            TrustedCall::ceremonies_attest_claims(w, v) => seq![11u8] + w.view_bytes()
                + claims_bytes(v@),
            TrustedCall::ceremonies_endorse_newcomer(w, c, n) => seq![12u8] + w.view_bytes()
                + c.bytes() + n.view_bytes(),
            TrustedCall::ceremonies_claim_rewards(w, c, m) => seq![13u8] + w.view_bytes()
                + c.bytes() + match m {
                Some(m) => option_bytes(true, u64_bytes(*m)),
                None => option_bytes(false, Seq::empty()),
            },
            TrustedCall::ceremonies_set_inactivity_timeout(w, x) => seq![14u8] + w.view_bytes()
                + u32_bytes(*x),
            TrustedCall::ceremonies_set_endorsement_tickets_per_bootstrapper(w, x) => seq![15u8]
                + w.view_bytes() + u8_bytes(*x),
            TrustedCall::ceremonies_set_endorsement_tickets_per_reputable(w, x) => seq![16u8]
                + w.view_bytes() + u8_bytes(*x),
            TrustedCall::ceremonies_set_reputation_lifetime(w, x) => seq![17u8] + w.view_bytes()
                + u32_bytes(*x),
            TrustedCall::ceremonies_set_meetup_time_offset(w, x) => seq![18u8] + w.view_bytes()
                + i32_bytes(*x),
            TrustedCall::ceremonies_set_time_tolerance(w, x) => seq![19u8] + w.view_bytes()
                + u64_bytes(*x),
            TrustedCall::ceremonies_set_location_tolerance(w, x) => seq![20u8] + w.view_bytes()
                + u32_bytes(*x),
            TrustedCall::ceremonies_purge_community_ceremony(w, cc) => seq![21u8]
                + w.view_bytes() + community_ceremony_bytes(*cc),
            TrustedCall::ceremonies_migrate_to_private_community(w, c, v) => seq![22u8]
                + w.view_bytes() + c.bytes() + locations_bytes(v@),
        }
    }

    /// The account that sent the call.
    pub fn sender_account(&self) -> (r: &AccountId)
        ensures
            *r == self.sender(),
    {
        match self {
            TrustedCall::balance_set_balance(a, ..) => a,
            TrustedCall::balance_transfer(a, ..) => a,
            TrustedCall::balance_unshield(a, ..) => a,
            TrustedCall::balance_shield(a, ..) => a,
            TrustedCall::encointer_balance_transfer(a, ..) => a,
            TrustedCall::encointer_set_fee_conversion_factor(a, ..) => a,
            TrustedCall::encointer_transfer_all(a, ..) => a,
            TrustedCall::ceremonies_register_participant(a, ..) => a,
            TrustedCall::ceremonies_upgrade_registration(a, ..) => a,
            TrustedCall::ceremonies_unregister_participant(a, ..) => a,
            TrustedCall::ceremonies_attest_attendees(a, ..) => a,
            TrustedCall::ceremonies_attest_claims(a, ..) => a,
            TrustedCall::ceremonies_endorse_newcomer(a, ..) => a,
            TrustedCall::ceremonies_claim_rewards(a, ..) => a,
            TrustedCall::ceremonies_set_inactivity_timeout(a, ..) => a,
            TrustedCall::ceremonies_set_endorsement_tickets_per_bootstrapper(a, ..) => a,
            TrustedCall::ceremonies_set_endorsement_tickets_per_reputable(a, ..) => a,
            TrustedCall::ceremonies_set_reputation_lifetime(a, ..) => a,
            TrustedCall::ceremonies_set_meetup_time_offset(a, ..) => a,
            TrustedCall::ceremonies_set_time_tolerance(a, ..) => a,
            TrustedCall::ceremonies_set_location_tolerance(a, ..) => a,
            TrustedCall::ceremonies_purge_community_ceremony(a, ..) => a,
            TrustedCall::ceremonies_migrate_to_private_community(a, ..) => a,
        }
    }

    /// Appends the SCALE encoding of the call.
    pub fn encode_to(&self, out: &mut Vec<u8>)
        requires
            self.wf(),
        ensures
            final(out)@ == old(out)@ + self.bytes(),
    {
        match self {
            TrustedCall::balance_set_balance(r, w, f, v) => {
                out.push(0u8);
                r.encode_to(out);
                w.encode_to(out);
                push_u128(out, *f);
                push_u128(out, *v);
            },
            TrustedCall::balance_transfer(f, t, v) => {
                out.push(1u8);
                f.encode_to(out);
                t.encode_to(out);
                push_u128(out, *v);
            },
            TrustedCall::balance_unshield(a, b, v, s) => {
                out.push(2u8);
                a.encode_to(out);
                b.encode_to(out);
                push_u128(out, *v);
                out.extend_from_slice(s.as_slice());
            },
            TrustedCall::balance_shield(e, w, v) => {
                out.push(3u8);
                e.encode_to(out);
                w.encode_to(out);
                push_u128(out, *v);
            },
            TrustedCall::encointer_balance_transfer(f, t, c, v) => {
                out.push(4u8);
                f.encode_to(out);
                t.encode_to(out);
                c.encode_to(out);
                push_i128(out, v.bits);
            },
            TrustedCall::encointer_set_fee_conversion_factor(w, x) => {
                out.push(5u8);
                w.encode_to(out);
                push_u128(out, *x);
            },
            TrustedCall::encointer_transfer_all(f, t, c) => {
                out.push(6u8);
                f.encode_to(out);
                t.encode_to(out);
                c.encode_to(out);
            },
            TrustedCall::ceremonies_register_participant(w, c, p) => {
                out.push(7u8);
                w.encode_to(out);
                c.encode_to(out);
                match p {
                    Some(p) => {
                        out.push(1u8);
                        encode_proof(p, out);
                    },
                    None => {
                        out.push(0u8);
                    },
                }
            },
            TrustedCall::ceremonies_upgrade_registration(w, c, p) => {
                out.push(8u8);
                w.encode_to(out);
                c.encode_to(out);
                encode_proof(p, out);
            },
            TrustedCall::ceremonies_unregister_participant(w, c, cc) => {
                out.push(9u8);
                w.encode_to(out);
                c.encode_to(out);
                match cc {
                    Some(cc) => {
                        out.push(1u8);
                        encode_community_ceremony(cc, out);
                    },
                    None => {
                        out.push(0u8);
                    },
                }
            },
            TrustedCall::ceremonies_attest_attendees(w, c, n, v) => {
                out.push(10u8);
                w.encode_to(out);
                c.encode_to(out);
                push_u32(out, *n);
                encode_accounts(v, out);
            },
            TrustedCall::ceremonies_attest_claims(w, v) => {
                out.push(11u8);
                w.encode_to(out);
                encode_claims(v, out);
            },
            TrustedCall::ceremonies_endorse_newcomer(w, c, n) => {
                out.push(12u8);
                w.encode_to(out);
                c.encode_to(out);
                n.encode_to(out);
            },
            TrustedCall::ceremonies_claim_rewards(w, c, m) => {
                out.push(13u8);
                w.encode_to(out);
                c.encode_to(out);
                match m {
                    Some(m) => {
                        out.push(1u8);
                        push_u64(out, *m);
                    },
                    None => {
                        out.push(0u8);
                    },
                }
            },
            TrustedCall::ceremonies_set_inactivity_timeout(w, x) => {
                out.push(14u8);
                w.encode_to(out);
                push_u32(out, *x);
            },
            TrustedCall::ceremonies_set_endorsement_tickets_per_bootstrapper(w, x) => {
                out.push(15u8);
                w.encode_to(out);
                push_u8(out, *x);
            },
            TrustedCall::ceremonies_set_endorsement_tickets_per_reputable(w, x) => {
                out.push(16u8);
                w.encode_to(out);
                push_u8(out, *x);
            },
            TrustedCall::ceremonies_set_reputation_lifetime(w, x) => {
                out.push(17u8);
                w.encode_to(out);
                push_u32(out, *x);
            },
            TrustedCall::ceremonies_set_meetup_time_offset(w, x) => {
                out.push(18u8);
                w.encode_to(out);
                push_i32(out, *x);
            },
            TrustedCall::ceremonies_set_time_tolerance(w, x) => {
                out.push(19u8);
                w.encode_to(out);
                push_u64(out, *x);
            },
            TrustedCall::ceremonies_set_location_tolerance(w, x) => {
                out.push(20u8);
                w.encode_to(out);
                push_u32(out, *x);
            },
            TrustedCall::ceremonies_purge_community_ceremony(w, cc) => {
                out.push(21u8);
                w.encode_to(out);
                encode_community_ceremony(cc, out);
            },
            TrustedCall::ceremonies_migrate_to_private_community(w, c, v) => {
                out.push(22u8);
                w.encode_to(out);
                c.encode_to(out);
                encode_locations(v, out);
            },
        }
        assert(final(out)@ =~= old(out)@ + self.bytes());
    }

    pub fn encode(&self) -> (r: Vec<u8>)
        requires
            self.wf(),
        ensures
            r@ == self.bytes(),
    {
        let mut out: Vec<u8> = Vec::new();
        self.encode_to(&mut out);
        assert(out@ =~= self.bytes());
        out
    }
}

/// The bytes that the signature of a call covers: the call, its nonce, the
/// enclave identity and the shard.
pub open spec fn call_payload(call: TrustedCall, nonce: Index, mrenclave: Seq<u8>, shard: Seq<u8>) -> Seq<u8> {
    call.bytes() + u32_bytes(nonce) + mrenclave + shard
}

fn payload(call: &TrustedCall, nonce: Index, mrenclave: &[u8; 32], shard: &ShardIdentifier) -> (r: Vec<u8>)
    requires
        call.wf(),
    ensures
        r@ == call_payload(*call, nonce, mrenclave@, shard@),
{
    let mut out = call.encode();
    push_u32(&mut out, nonce);
    out.extend_from_slice(mrenclave.as_slice());
    out.extend_from_slice(shard.as_slice());
    assert(out@ =~= call_payload(*call, nonce, mrenclave@, shard@));
    out
}

/// An element-wise copy of a vector of plain values.
pub fn copy_vec<T: Copy>(v: &Vec<T>) -> (r: Vec<T>)
    ensures
        r@ == v@,
{
    let mut r: Vec<T> = Vec::new();
    let mut i: usize = 0;
    while i < v.len()
        invariant
            i <= v@.len(),
            r@ == v@.subrange(0, i as int),
        decreases v@.len() - i,
    {
        r.push(v[i]);
        i = i + 1;
        assert(r@ =~= v@.subrange(0, i as int));
    }
    assert(v@.subrange(0, v@.len() as int) =~= v@);
    r
}

impl TrustedCall {
    /// A copy of the call, equal to it field by field.
    pub fn duplicate(&self) -> (r: TrustedCall)
        ensures
            r.bytes() == self.bytes(),
            r.sender() == self.sender(),
            r.wf() == self.wf(),
            r.same_as(*self),
    {
        match self {
            TrustedCall::ceremonies_attest_attendees(w, c, n, v) =>
                TrustedCall::ceremonies_attest_attendees(*w, *c, *n, copy_vec(v)),
            TrustedCall::ceremonies_attest_claims(w, v) =>
                TrustedCall::ceremonies_attest_claims(*w, copy_vec(v)),
            TrustedCall::ceremonies_migrate_to_private_community(w, c, v) =>
                TrustedCall::ceremonies_migrate_to_private_community(*w, *c, copy_vec(v)),
            TrustedCall::balance_set_balance(a, b, c, d) => TrustedCall::balance_set_balance(*a, *b, *c, *d),
            TrustedCall::balance_transfer(a, b, c) => TrustedCall::balance_transfer(*a, *b, *c),
            TrustedCall::balance_unshield(a, b, c, d) => TrustedCall::balance_unshield(*a, *b, *c, *d),
            TrustedCall::balance_shield(a, b, c) => TrustedCall::balance_shield(*a, *b, *c),
            TrustedCall::encointer_balance_transfer(a, b, c, d) =>
                TrustedCall::encointer_balance_transfer(*a, *b, *c, *d),
            TrustedCall::encointer_set_fee_conversion_factor(a, b) =>
                TrustedCall::encointer_set_fee_conversion_factor(*a, *b),
            TrustedCall::encointer_transfer_all(a, b, c) => TrustedCall::encointer_transfer_all(*a, *b, *c),
            TrustedCall::ceremonies_register_participant(a, b, c) =>
                TrustedCall::ceremonies_register_participant(*a, *b, *c),
            TrustedCall::ceremonies_upgrade_registration(a, b, c) =>
                TrustedCall::ceremonies_upgrade_registration(*a, *b, *c),
            TrustedCall::ceremonies_unregister_participant(a, b, c) =>
                TrustedCall::ceremonies_unregister_participant(*a, *b, *c),
            TrustedCall::ceremonies_endorse_newcomer(a, b, c) =>
                TrustedCall::ceremonies_endorse_newcomer(*a, *b, *c),
            TrustedCall::ceremonies_claim_rewards(a, b, c) => TrustedCall::ceremonies_claim_rewards(*a, *b, *c),
            TrustedCall::ceremonies_set_inactivity_timeout(a, b) =>
                TrustedCall::ceremonies_set_inactivity_timeout(*a, *b),
            TrustedCall::ceremonies_set_endorsement_tickets_per_bootstrapper(a, b) =>
                TrustedCall::ceremonies_set_endorsement_tickets_per_bootstrapper(*a, *b),
            TrustedCall::ceremonies_set_endorsement_tickets_per_reputable(a, b) =>
                TrustedCall::ceremonies_set_endorsement_tickets_per_reputable(*a, *b),
            TrustedCall::ceremonies_set_reputation_lifetime(a, b) =>
                TrustedCall::ceremonies_set_reputation_lifetime(*a, *b),
            TrustedCall::ceremonies_set_meetup_time_offset(a, b) =>
                TrustedCall::ceremonies_set_meetup_time_offset(*a, *b),
            TrustedCall::ceremonies_set_time_tolerance(a, b) => TrustedCall::ceremonies_set_time_tolerance(*a, *b),
            TrustedCall::ceremonies_set_location_tolerance(a, b) =>
                TrustedCall::ceremonies_set_location_tolerance(*a, *b),
            TrustedCall::ceremonies_purge_community_ceremony(a, b) =>
                TrustedCall::ceremonies_purge_community_ceremony(*a, *b),
        }
    }

    /// Equal variants with equal fields; vectors are compared by their contents.
    pub open spec fn same_as(&self, other: TrustedCall) -> bool {
        match (self, other) {
            (TrustedCall::ceremonies_attest_attendees(w, c, n, v), TrustedCall::ceremonies_attest_attendees(w2, c2, n2, v2)) =>
                *w == w2 && *c == c2 && *n == n2 && v@ == v2@,
            (TrustedCall::ceremonies_attest_claims(w, v), TrustedCall::ceremonies_attest_claims(w2, v2)) =>
                *w == w2 && v@ == v2@,
            (TrustedCall::ceremonies_migrate_to_private_community(w, c, v), TrustedCall::ceremonies_migrate_to_private_community(w2, c2, v2)) =>
                *w == w2 && *c == c2 && v@ == v2@,
            (TrustedCall::ceremonies_migrate_to_private_community(..), _) => false,
            (TrustedCall::ceremonies_attest_attendees(..), _) => false,
            (TrustedCall::ceremonies_attest_claims(..), _) => false,
            _ => *self == other,
        }
    }

    /// Signs the call for execution with `nonce` by the enclave `mrenclave` on `shard`.
    pub fn sign(&self, pair: &KeyPair, nonce: Index, mrenclave: &[u8; 32], shard: &ShardIdentifier) -> (r: TrustedCallSigned)
        requires
            self.wf(),
        ensures
            r.call.same_as(*self),
            r.call.bytes() == self.bytes(),
            r.call.sender() == self.sender(),
            r.call.wf(),
            r.nonce == nonce,
            r.signature.valid_for(call_payload(*self, nonce, mrenclave@, shard@), pair.public_bytes()),
            pair matches KeyPair::Ed25519(seed) ==> r.signature matches Signature::Ed25519(s) && s@
                == crate::crypto::ed25519_signature_of(seed@, call_payload(*self, nonce, mrenclave@, shard@)),
    {
        let p = payload(self, nonce, mrenclave, shard);
        let signature = pair.sign(p.as_slice());
        TrustedCallSigned { call: self.duplicate(), nonce, signature }
    }
}

/// A call with its nonce and the sender's signature: the unit that crosses the trust boundary.
#[derive(Clone, Debug)]
pub struct TrustedCallSigned {
    pub call: TrustedCall,
    pub nonce: Index,
    pub signature: Signature,
}

impl TrustedCallSigned {
    pub fn new(call: TrustedCall, nonce: Index, signature: Signature) -> (r: Self)
        ensures
            r.call == call,
            r.nonce == nonce,
            r.signature == signature,
    {
        TrustedCallSigned { call, nonce, signature }
    }

    /// Whether the signature covers this call and nonce for `mrenclave` and
    /// `shard`, under the key of the call's own sender.
    pub open spec fn signature_valid(&self, mrenclave: Seq<u8>, shard: Seq<u8>) -> bool {
        self.signature.valid_for(
            call_payload(self.call, self.nonce, mrenclave, shard),
            self.call.sender().view_bytes(),
        )
    }

    pub fn verify_signature(&self, mrenclave: &[u8; 32], shard: &ShardIdentifier) -> (r: bool)
        requires
            self.call.wf(),
        ensures
            r == self.signature_valid(mrenclave@, shard@),
    {
        let p = payload(&self.call, self.nonce, mrenclave, shard);
        self.signature.verify(p.as_slice(), self.call.sender_account())
    }

    pub fn into_trusted_operation(self, direct: bool) -> (r: TrustedOperation)
        ensures
            direct ==> r == TrustedOperation::direct_call(self),
            !direct ==> r == TrustedOperation::indirect_call(self),
    {
        if direct {
            TrustedOperation::direct_call(self)
        } else {
            TrustedOperation::indirect_call(self)
        }
    }
}

/// A trusted operation as it is submitted: a call sent on chain or directly to
/// the enclave, or a read.
#[allow(non_camel_case_types)]
#[derive(Clone, Debug)]
pub enum TrustedOperation {
    indirect_call(TrustedCallSigned),
    direct_call(TrustedCallSigned),
    get(Getter),
}

} // verus!

