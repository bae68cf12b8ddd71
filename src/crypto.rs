//! Hashes and signature schemes, taken from the Substrate primitives.
//! Their results are named here and otherwise left to those crates.

use sp_core::Pair as _;
use vstd::prelude::*;

verus! {

/// The 256-bit Blake2b digest of some bytes.
pub uninterp spec fn blake2_256_of(data: Seq<u8>) -> Seq<u8>;

/// The 128-bit Blake2b digest of some bytes.
pub uninterp spec fn blake2_128_of(data: Seq<u8>) -> Seq<u8>;

/// The 128-bit xxHash (two 64-bit xxHash64 runs, seeds 0 and 1) of some bytes.
pub uninterp spec fn twox_128_of(data: Seq<u8>) -> Seq<u8>;

/// The ed25519 public key of a 32-byte secret seed.
pub uninterp spec fn ed25519_public_of(seed: Seq<u8>) -> Seq<u8>;

/// The ed25519 signature of a message under a 32-byte secret seed (ed25519 signing is deterministic).
pub uninterp spec fn ed25519_signature_of(seed: Seq<u8>, msg: Seq<u8>) -> Seq<u8>;

/// Whether an ed25519 signature is valid for a message and a public key.
pub uninterp spec fn ed25519_valid(sig: Seq<u8>, msg: Seq<u8>, public: Seq<u8>) -> bool;

/// The sr25519 public key of a 32-byte mini secret key.
pub uninterp spec fn sr25519_public_of(seed: Seq<u8>) -> Seq<u8>;

/// Whether an sr25519 signature is valid for a message and a public key.
pub uninterp spec fn sr25519_valid(sig: Seq<u8>, msg: Seq<u8>, public: Seq<u8>) -> bool;

/// Relies on sp_io::hashing::blake2_256 (Blake2b with a 32-byte output).
#[verifier::external_body]
pub(crate) fn blake2_256(data: &[u8]) -> (r: [u8; 32])
    ensures
        r@ == blake2_256_of(data@),
{
    sp_io::hashing::blake2_256(data)
}

/// Relies on sp_io::hashing::blake2_128 (Blake2b with a 16-byte output).
#[verifier::external_body]
pub(crate) fn blake2_128(data: &[u8]) -> (r: [u8; 16])
    ensures
        r@ == blake2_128_of(data@),
{
    sp_io::hashing::blake2_128(data)
}

/// Relies on sp_io::hashing::twox_128.
#[verifier::external_body]
pub(crate) fn twox_128(data: &[u8]) -> (r: [u8; 16])
    ensures
        r@ == twox_128_of(data@),
{
    sp_io::hashing::twox_128(data)
}

/// Relies on sp_core::ed25519::Pair::from_seed and Pair::public: the public key of a seed.
#[verifier::external_body]
pub(crate) fn ed25519_public(seed: &[u8; 32]) -> (r: [u8; 32])
    ensures
        r@ == ed25519_public_of(seed@),
{
    sp_core::ed25519::Pair::from_seed(seed).public().0
}

/// Relies on sp_core::ed25519::Pair::sign: a deterministic signature, which
/// verifies under the public key of the same seed.
#[verifier::external_body]
pub(crate) fn ed25519_sign(seed: &[u8; 32], msg: &[u8]) -> (r: [u8; 64])
    ensures
        r@ == ed25519_signature_of(seed@, msg@),
        ed25519_valid(r@, msg@, ed25519_public_of(seed@)),
{
    sp_core::ed25519::Pair::from_seed(seed).sign(msg).0
}

/// Relies on sp_core::ed25519::Pair::verify.
#[verifier::external_body]
pub(crate) fn ed25519_verify(sig: &[u8; 64], msg: &[u8], public: &[u8; 32]) -> (r: bool)
    ensures
        r == ed25519_valid(sig@, msg@, public@),
{
    let sig = sp_core::ed25519::Signature::from_raw(*sig);
    let public = sp_core::ed25519::Public::from_raw(*public);
    sp_core::ed25519::Pair::verify(&sig, msg, &public)
}

/// Relies on sp_core::sr25519::Pair::from_seed and Pair::public: the public key of a mini secret key.
#[verifier::external_body]
pub(crate) fn sr25519_public(seed: &[u8; 32]) -> (r: [u8; 32])
    ensures
        r@ == sr25519_public_of(seed@),
{
    sp_core::sr25519::Pair::from_seed(seed).public().0
}

/// Relies on sp_core::sr25519::Pair::sign: the signature is randomised, and
/// verifies under the public key of the same mini secret key.
#[verifier::external_body]
pub(crate) fn sr25519_sign(seed: &[u8; 32], msg: &[u8]) -> (r: [u8; 64])
    ensures
        sr25519_valid(r@, msg@, sr25519_public_of(seed@)),
{
    sp_core::sr25519::Pair::from_seed(seed).sign(msg).0
}

/// Relies on sp_core::sr25519::Pair::verify.
#[verifier::external_body]
pub(crate) fn sr25519_verify(sig: &[u8; 64], msg: &[u8], public: &[u8; 32]) -> (r: bool)
    ensures
        r == sr25519_valid(sig@, msg@, public@),
{
    let sig = sp_core::sr25519::Signature::from_raw(*sig);
    let public = sp_core::sr25519::Public::from_raw(*public);
    sp_core::sr25519::Pair::verify(&sig, msg, &public)
}

} // verus!
