//! Storage keys of the public chain's state: the hashed pallet prefix, the
//! hashed item name and, for maps, the hashed encoding of the map key.

use crate::crypto::{blake2_128, blake2_128_of, blake2_256, blake2_256_of, twox_128, twox_128_of};
use vstd::prelude::*;
use vstd::string::StringSliceAdditionalSpecFns;

verus! {

/// How a map key is hashed into a storage key.
#[derive(Clone, Copy, Debug, PartialEq, Eq, Structural)]
pub enum StorageHasher {
    Blake2_128,
    Blake2_256,
    Blake2_128Concat,
    Twox128,
    Identity,
}

/// The part of a storage key that an encoded map key contributes.
pub open spec fn key_hash_bytes(key: Seq<u8>, hasher: StorageHasher) -> Seq<u8> {
    match hasher {
        StorageHasher::Blake2_128 => blake2_128_of(key),
        StorageHasher::Blake2_256 => blake2_256_of(key),
        StorageHasher::Blake2_128Concat => blake2_128_of(key) + key,
        StorageHasher::Twox128 => twox_128_of(key),
        StorageHasher::Identity => key,
    }
}

/// The storage key of a plain value: the hashes of its pallet and item names.
pub open spec fn value_key_bytes(module: Seq<u8>, item: Seq<u8>) -> Seq<u8> {
    twox_128_of(module) + twox_128_of(item)
}

pub open spec fn map_key_bytes(module: Seq<u8>, item: Seq<u8>, key: Seq<u8>, hasher: StorageHasher) -> Seq<u8> {
    value_key_bytes(module, item) + key_hash_bytes(key, hasher)
}

pub open spec fn double_map_key_bytes(
    module: Seq<u8>,
    item: Seq<u8>,
    key1: Seq<u8>,
    hasher1: StorageHasher,
    key2: Seq<u8>,
    hasher2: StorageHasher,
) -> Seq<u8> {
    value_key_bytes(module, item) + key_hash_bytes(key1, hasher1) + key_hash_bytes(key2, hasher2)
}

/// Appends the hash of an encoded map key, as `hasher` prescribes.
pub fn key_hash(key: &[u8], hasher: &StorageHasher) -> (r: Vec<u8>)
    ensures
        r@ == key_hash_bytes(key@, *hasher),
{
    let mut out: Vec<u8> = Vec::new();
    match hasher {
        StorageHasher::Blake2_128 => {
            out.extend_from_slice(blake2_128(key).as_slice());
        },
        StorageHasher::Blake2_256 => {
            out.extend_from_slice(blake2_256(key).as_slice());
        },
        StorageHasher::Blake2_128Concat => {
            out.extend_from_slice(blake2_128(key).as_slice());
            out.extend_from_slice(key);
        },
        StorageHasher::Twox128 => {
            out.extend_from_slice(twox_128(key).as_slice());
        },
        StorageHasher::Identity => {
            out.extend_from_slice(key);
        },
    }
    assert(out@ =~= key_hash_bytes(key@, *hasher));
    out
}

/// The storage key of the plain value `item` of pallet `module`.
pub fn storage_value_key(module: &str, item: &str) -> (r: Vec<u8>)
    ensures
        r@ == value_key_bytes(module.spec_bytes(), item.spec_bytes()),
{
    let mut out: Vec<u8> = Vec::new();
    out.extend_from_slice(twox_128(module.as_bytes()).as_slice());
    out.extend_from_slice(twox_128(item.as_bytes()).as_slice());
    assert(out@ =~= value_key_bytes(module.spec_bytes(), item.spec_bytes()));
    out
}

/// The storage key of the entry of map `item` of pallet `module` at the encoded key `key`.
pub fn storage_map_key(module: &str, item: &str, key: &[u8], hasher: &StorageHasher) -> (r: Vec<u8>)
    ensures
        r@ == map_key_bytes(module.spec_bytes(), item.spec_bytes(), key@, *hasher),
{
    let mut out = storage_value_key(module, item);
    let h = key_hash(key, hasher);
    out.extend_from_slice(h.as_slice());
    assert(out@ =~= map_key_bytes(module.spec_bytes(), item.spec_bytes(), key@, *hasher));
    out
}

/// The storage key of the entry of double map `item` of pallet `module` at two encoded keys.
pub fn storage_double_map_key(
    module: &str,
    item: &str,
    key1: &[u8],
    hasher1: &StorageHasher,
    key2: &[u8],
    hasher2: &StorageHasher,
) -> (r: Vec<u8>)
    ensures
        r@ == double_map_key_bytes(
            module.spec_bytes(),
            item.spec_bytes(),
            key1@,
            *hasher1,
            key2@,
            *hasher2,
        ),
{
    let mut out = storage_value_key(module, item);
    let h1 = key_hash(key1, hasher1);
    out.extend_from_slice(h1.as_slice());
    let h2 = key_hash(key2, hasher2);
    out.extend_from_slice(h2.as_slice());
    assert(out@ =~= double_map_key_bytes(
        module.spec_bytes(),
        item.spec_bytes(),
        key1@,
        *hasher1,
        key2@,
        *hasher2,
    ));
    out
}

} // verus!
