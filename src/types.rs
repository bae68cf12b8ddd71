//! Plain data types of the trusted operation engine and their wire encoding.

use crate::codec::{
    i128_bytes, option_bytes, push_bytes, push_i128, push_u32, push_u64, u32_bytes, u64_bytes,
};
use crate::crypto::{
    ed25519_public, ed25519_public_of, ed25519_sign, ed25519_signature_of, ed25519_valid,
    ed25519_verify, sr25519_public, sr25519_public_of, sr25519_sign, sr25519_valid, sr25519_verify,
};
use vstd::prelude::*;

verus! {

pub type Balance = u128;

pub type Index = u32;

pub type Moment = u64;

pub type CeremonyIndexType = u32;

pub type MeetupIndexType = u64;

pub type ParticipantIndexType = u64;

pub type AttestationIndexType = u64;

pub type InactivityTimeoutType = u32;

pub type EndorsementTicketsType = u8;

pub type ReputationLifetimeType = u32;

pub type MeetupTimeOffsetType = i32;

pub type FeeConversionFactorType = u128;

/// Identifier of a logical partition of the confidential state.
pub type ShardIdentifier = [u8; 32];

/// A 32-byte account identity; for sr25519 and ed25519 keys it is the public key itself.
#[derive(Clone, Copy, Debug)]
pub struct AccountId(pub [u8; 32]);

impl AccountId {
    pub open spec fn view_bytes(&self) -> Seq<u8> {
        self.0@
    }

    /// Byte-wise equality of two account identities.
    pub fn same(&self, other: &AccountId) -> (r: bool)
        ensures
            r == (self.view_bytes() == other.view_bytes()),
    {
        let mut i: usize = 0;
        while i < 32
            invariant
                0 <= i <= 32,
                self.0@.len() == 32,
                other.0@.len() == 32,
                forall|j: int| 0 <= j < i ==> self.0@[j] == other.0@[j],
            decreases 32 - i,
        {
            if self.0[i] != other.0[i] {
                return false;
            }
            i = i + 1;
        }
        assert(self.0@ =~= other.0@);
        true
    }

    pub fn encode_to(&self, out: &mut Vec<u8>)
        ensures
            final(out)@ == old(out)@ + self.view_bytes(),
    {
        push_bytes(out, self.0.as_slice());
    }
}

/// A community: a geohash of its location and a digest of its bootstrappers.
#[derive(Clone, Copy, Debug)]
pub struct CommunityIdentifier {
    pub geohash: [u8; 5],
    pub digest: [u8; 4],
}

impl CommunityIdentifier {
    pub open spec fn bytes(&self) -> Seq<u8> {
        self.geohash@ + self.digest@
    }

    pub fn same(&self, other: &CommunityIdentifier) -> (r: bool)
        ensures
            r == (self.bytes() == other.bytes()),
    {
        let mut a: Vec<u8> = Vec::new();
        self.encode_to(&mut a);
        let mut b: Vec<u8> = Vec::new();
        other.encode_to(&mut b);
        assert(a@ =~= self.bytes());
        assert(b@ =~= other.bytes());
        bytes_equal(a.as_slice(), b.as_slice())
    }

    pub fn encode_to(&self, out: &mut Vec<u8>)
        ensures
            final(out)@ == old(out)@ + self.bytes(),
    {
        push_bytes(out, self.geohash.as_slice());
        push_bytes(out, self.digest.as_slice());
        assert(final(out)@ =~= old(out)@ + self.bytes());
    }
}

/// Byte-wise equality of two byte strings.
pub fn bytes_equal(a: &[u8], b: &[u8]) -> (r: bool)
    ensures
        r == (a@ == b@),
{
    if a.len() != b.len() {
        return false;
    }
    let mut i: usize = 0;
    while i < a.len()
        invariant
            i <= a@.len(),
            a@.len() == b@.len(),
            forall|j: int| 0 <= j < i ==> a@[j] == b@[j],
        decreases a@.len() - i,
    {
        if a[i] != b[i] {
            return false;
        }
        i = i + 1;
    }
    assert(a@ =~= b@);
    true
}

/// The 32 bytes of a hash given as a slice of exactly that length.
pub fn hash_from_slice(hash_slize: &[u8]) -> (r: [u8; 32])
    requires
        hash_slize@.len() == 32,
    ensures
        r@ == hash_slize@,
{
    let mut g = [0u8; 32];
    let mut i: usize = 0;
    while i < 32
        invariant
            i <= 32,
            hash_slize@.len() == 32,
            g@.len() == 32,
            forall|j: int| 0 <= j < i ==> g@[j] == hash_slize@[j],
        decreases 32 - i,
    {
        g.set(i, hash_slize[i]);
        i = i + 1;
    }
    assert(g@ =~= hash_slize@);
    g
}

/// A community and the index of one of its ceremonies.
#[derive(Clone, Copy, Debug)]
pub struct CommunityCeremony(pub CommunityIdentifier, pub CeremonyIndexType);

pub open spec fn community_ceremony_bytes(cc: CommunityCeremony) -> Seq<u8> {
    cc.0.bytes() + u32_bytes(cc.1)
}

pub fn encode_community_ceremony(cc: &CommunityCeremony, out: &mut Vec<u8>)
    ensures
        final(out)@ == old(out)@ + community_ceremony_bytes(*cc),
{
    cc.0.encode_to(out);
    push_u32(out, cc.1);
    assert(final(out)@ =~= old(out)@ + community_ceremony_bytes(*cc));
}

/// A signed fixed-point number with 64 integer and 64 fractional bits, held by its bits.
#[derive(Clone, Copy, Debug)]
pub struct I64F64 {
    pub bits: i128,
}

/// An amount of a community currency.
pub type BalanceType = I64F64;

/// A latitude or longitude.
pub type Degree = I64F64;

#[derive(Clone, Copy, Debug)]
pub struct Location {
    pub lat: Degree,
    pub lon: Degree,
}

pub open spec fn location_bytes(l: Location) -> Seq<u8> {
    i128_bytes(l.lat.bits) + i128_bytes(l.lon.bits)
}

/// The phase of the ceremony cycle that the ledger is in.
#[derive(Clone, Copy, Debug, PartialEq, Eq, Structural)]
pub enum CeremonyPhaseType {
    Registering,
    Assigning,
    Attesting,
}

pub open spec fn phase_tag(p: CeremonyPhaseType) -> u8 {
    match p {
        CeremonyPhaseType::Registering => 0,
        CeremonyPhaseType::Assigning => 1,
        CeremonyPhaseType::Attesting => 2,
    }
}

pub fn encode_phase(p: CeremonyPhaseType, out: &mut Vec<u8>)
    ensures
        final(out)@ == old(out)@ + seq![phase_tag(p)],
{
    let t: u8 = match p {
        CeremonyPhaseType::Registering => 0,
        CeremonyPhaseType::Assigning => 1,
        CeremonyPhaseType::Attesting => 2,
    };
    out.push(t);
}

/// A signature of one of the two supported schemes.
#[derive(Clone, Copy, Debug)]
pub enum Signature {
    Ed25519([u8; 64]),
    Sr25519([u8; 64]),
}

impl Signature {
    pub open spec fn bytes(&self) -> Seq<u8> {
        match self {
            Signature::Ed25519(s) => seq![0u8] + s@,
            Signature::Sr25519(s) => seq![1u8] + s@,
        }
    }

    /// Whether this signature is valid for `msg` under the public key `signer`.
    pub open spec fn valid_for(&self, msg: Seq<u8>, signer: Seq<u8>) -> bool {
        match self {
            Signature::Ed25519(s) => ed25519_valid(s@, msg, signer),
            Signature::Sr25519(s) => sr25519_valid(s@, msg, signer),
        }
    }

    pub fn encode_to(&self, out: &mut Vec<u8>)
        ensures
            final(out)@ == old(out)@ + self.bytes(),
    {
        match self {
            Signature::Ed25519(s) => {
                out.push(0u8);
                push_bytes(out, s.as_slice());
            },
            Signature::Sr25519(s) => {
                out.push(1u8);
                push_bytes(out, s.as_slice());
            },
        }
        assert(final(out)@ =~= old(out)@ + self.bytes());
    }

    /// Checks the signature against `msg` and the account that claims to have made it.
    pub fn verify(&self, msg: &[u8], signer: &AccountId) -> (r: bool)
        ensures
            r == self.valid_for(msg@, signer.view_bytes()),
    {
        match self {
            Signature::Ed25519(s) => ed25519_verify(s, msg, &signer.0),
            Signature::Sr25519(s) => sr25519_verify(s, msg, &signer.0),
        }
    }
}

/// A signing key, held by its 32-byte secret seed.
#[derive(Clone, Copy, Debug)]
pub enum KeyPair {
    Ed25519([u8; 32]),
    Sr25519([u8; 32]),
}

impl KeyPair {
    pub open spec fn public_bytes(&self) -> Seq<u8> {
        match self {
            KeyPair::Ed25519(seed) => ed25519_public_of(seed@),
            KeyPair::Sr25519(seed) => sr25519_public_of(seed@),
        }
    }

    /// The account whose identity bytes are this key's public key.
    pub open spec fn account(&self) -> AccountId {
        choose|a: AccountId| a.view_bytes() == self.public_bytes()
    }

    /// The account that this key signs for.
    pub fn public(&self) -> (r: AccountId)
        ensures
            r.view_bytes() == self.public_bytes(),
            r == self.account(),
    {
        let r = match self {
            KeyPair::Ed25519(seed) => AccountId(ed25519_public(seed)),
            KeyPair::Sr25519(seed) => AccountId(sr25519_public(seed)),
        };
        assert(r.view_bytes() == self.public_bytes());
        let ghost a = self.account();
        assert(a.view_bytes() == self.public_bytes());
        assert(r.0 =~= a.0);
        r
    }

    /// Signs `msg`; the signature verifies under this key's account.
    pub fn sign(&self, msg: &[u8]) -> (r: Signature)
        ensures
            r.valid_for(msg@, self.public_bytes()),
            self matches KeyPair::Ed25519(seed) ==> r matches Signature::Ed25519(s) && s@
                == ed25519_signature_of(seed@, msg@),
            self matches KeyPair::Sr25519(_) ==> r matches Signature::Sr25519(_),
    {
        match self {
            KeyPair::Ed25519(seed) => Signature::Ed25519(ed25519_sign(seed, msg)),
            KeyPair::Sr25519(seed) => Signature::Sr25519(sr25519_sign(seed, msg)),
        }
    }
}

/// A proof, signed by the attendee's key, that `attendee_public` attended a ceremony.
#[derive(Clone, Copy, Debug)]
pub struct ProofOfAttendance {
    pub prover_public: AccountId,
    pub community_identifier: CommunityIdentifier,
    pub ceremony_index: CeremonyIndexType,
    pub attendee_public: AccountId,
    pub attendee_signature: Signature,
}

pub open spec fn proof_bytes(p: ProofOfAttendance) -> Seq<u8> {
    p.prover_public.view_bytes() + p.community_identifier.bytes() + u32_bytes(p.ceremony_index)
        + p.attendee_public.view_bytes() + p.attendee_signature.bytes()
}

pub fn encode_proof(p: &ProofOfAttendance, out: &mut Vec<u8>)
    ensures
        final(out)@ == old(out)@ + proof_bytes(*p),
{
    p.prover_public.encode_to(out);
    p.community_identifier.encode_to(out);
    push_u32(out, p.ceremony_index);
    p.attendee_public.encode_to(out);
    p.attendee_signature.encode_to(out);
    assert(final(out)@ =~= old(out)@ + proof_bytes(*p));
}

/// A participant's claim of having attended a meetup.
#[derive(Clone, Copy, Debug)]
pub struct ClaimOfAttendance {
    pub claimant_public: AccountId,
    pub ceremony_index: CeremonyIndexType,
    pub community_identifier: CommunityIdentifier,
    pub meetup_index: MeetupIndexType,
    pub location: Location,
    pub timestamp: Moment,
    pub number_of_participants_confirmed: u32,
    pub claimant_signature: Option<Signature>,
}

pub open spec fn claim_bytes(c: ClaimOfAttendance) -> Seq<u8> {
    c.claimant_public.view_bytes() + u32_bytes(c.ceremony_index) + c.community_identifier.bytes()
        + u64_bytes(c.meetup_index) + location_bytes(c.location) + u64_bytes(c.timestamp)
        + u32_bytes(c.number_of_participants_confirmed) + match c.claimant_signature {
        Some(s) => option_bytes(true, s.bytes()),
        None => option_bytes(false, Seq::empty()),
    }
}

pub fn encode_claim(c: &ClaimOfAttendance, out: &mut Vec<u8>)
    ensures
        final(out)@ == old(out)@ + claim_bytes(*c),
{
    c.claimant_public.encode_to(out);
    push_u32(out, c.ceremony_index);
    c.community_identifier.encode_to(out);
    push_u64(out, c.meetup_index);
    push_i128(out, c.location.lat.bits);
    push_i128(out, c.location.lon.bits);
    push_u64(out, c.timestamp);
    push_u32(out, c.number_of_participants_confirmed);
    match &c.claimant_signature {
        Some(s) => {
            out.push(1u8);
            s.encode_to(out);
        },
        None => {
            out.push(0u8);
        },
    }
    assert(final(out)@ =~= old(out)@ + claim_bytes(*c));
}

} // verus!
