//! Hash functions. SHA-256, RIPEMD-160 and the HMACs come from the `bitcoin` crate; everything else
//! here is composed of them.
use bitcoin::hashes::{hmac, ripemd160 as ripemd, sha256 as sha2, sha512, HashEngine};
use vstd::prelude::*;

use crate::bytes::{append, array32, concat};

verus! {

/// The SHA-256 digest of a byte string.
pub uninterp spec fn sha256(data: Seq<u8>) -> Seq<u8>;

/// The RIPEMD-160 digest of a byte string.
pub uninterp spec fn ripemd160(data: Seq<u8>) -> Seq<u8>;

/// The HMAC-SHA256 of a message under a key.
pub uninterp spec fn hmac_sha256(key: Seq<u8>, message: Seq<u8>) -> Seq<u8>;

/// The HMAC-SHA512 of a message under a key.
pub uninterp spec fn hmac_sha512(key: Seq<u8>, message: Seq<u8>) -> Seq<u8>;

/// SHA-256 applied twice.
pub open spec fn sha256d(data: Seq<u8>) -> Seq<u8> {
    sha256(sha256(data))
}

/// RIPEMD-160 of SHA-256, the digest that addresses a public key.
pub open spec fn hash160(data: Seq<u8>) -> Seq<u8> {
    ripemd160(sha256(data))
}

/// SHA-256 in the domain that `tag` names: the digest of the tag's digest, twice, and the data.
pub open spec fn tagged_hash(tag: Seq<u8>, data: Seq<u8>) -> Seq<u8> {
    sha256(sha256(tag) + sha256(tag) + data)
}

/// The pseudo-random key that HKDF extracts, then its first output block.
pub open spec fn hkdf_first(salt: Seq<u8>, ikm: Seq<u8>) -> Seq<u8> {
    hmac_sha256(hmac_sha256(salt, ikm), seq![1u8])
}

/// The second output block of HKDF.
pub open spec fn hkdf_second(salt: Seq<u8>, ikm: Seq<u8>) -> Seq<u8> {
    hmac_sha256(hmac_sha256(salt, ikm), hkdf_first(salt, ikm) + seq![2u8])
}

/// `bitcoin::hashes::sha256::Hash::hash`: the digest depends on the data alone.
#[verifier::external_body]
pub(crate) fn sha256_of(data: &[u8]) -> (r: [u8; 32])
    ensures
        r@ == sha256(data@),
{
    let digest: sha2::Hash = bitcoin::hashes::Hash::hash(data);
    bitcoin::hashes::Hash::to_byte_array(digest)
}

/// `bitcoin::hashes::ripemd160::Hash::hash`: the digest depends on the data alone.
#[verifier::external_body]
pub(crate) fn ripemd160_of(data: &[u8]) -> (r: [u8; 20])
    ensures
        r@ == ripemd160(data@),
{
    let digest: ripemd::Hash = bitcoin::hashes::Hash::hash(data);
    bitcoin::hashes::Hash::to_byte_array(digest)
}

/// `bitcoin::hashes::HmacEngine` over SHA-256: the code depends on the key and the message alone.
#[verifier::external_body]
pub(crate) fn hmac_sha256_of(key: &[u8], message: &[u8]) -> (r: [u8; 32])
    ensures
        r@ == hmac_sha256(key@, message@),
{
    let mut engine = hmac::HmacEngine::<sha2::Hash>::new(key);
    engine.input(message);
    let code: hmac::Hmac<sha2::Hash> = bitcoin::hashes::Hash::from_engine(engine);
    bitcoin::hashes::Hash::to_byte_array(code)
}

/// `bitcoin::hashes::HmacEngine` over SHA-512: the code depends on the key and the message alone.
#[verifier::external_body]
pub(crate) fn hmac_sha512_of(key: &[u8], message: &[u8]) -> (r: [u8; 64])
    ensures
        r@ == hmac_sha512(key@, message@),
{
    let mut engine = hmac::HmacEngine::<sha512::Hash>::new(key);
    engine.input(message);
    let code: hmac::Hmac<sha512::Hash> = bitcoin::hashes::Hash::from_engine(engine);
    bitcoin::hashes::Hash::to_byte_array(code)
}

pub(crate) fn sha256d_of(data: &[u8]) -> (r: [u8; 32])
    ensures
        r@ == sha256d(data@),
{
    let inner: [u8; 32] = sha256_of(data);
    sha256_of(&inner)
}

pub(crate) fn hash160_of(data: &[u8]) -> (r: [u8; 20])
    ensures
        r@ == hash160(data@),
{
    let inner: [u8; 32] = sha256_of(data);
    ripemd160_of(&inner)
}

pub(crate) fn tagged_hash_of(tag: &[u8], data: &[u8]) -> (r: [u8; 32])
    ensures
        r@ == tagged_hash(tag@, data@),
{
    let domain: [u8; 32] = sha256_of(tag);
    let mut message: Vec<u8> = concat(&domain, &domain);
    append(&mut message, data);
    sha256_of(message.as_slice())
}

/// HKDF with an empty `info`, expanded to two 32-byte keys.
pub fn hkdf_extract_expand_twice(salt: &[u8], ikm: &[u8]) -> (r: ([u8; 32], [u8; 32]))
    ensures
        r.0@ == hkdf_first(salt@, ikm@),
        r.1@ == hkdf_second(salt@, ikm@),
{
    let prk: [u8; 32] = hmac_sha256_of(salt, ikm);
    let one: [u8; 1] = [1u8];
    let first: [u8; 32] = hmac_sha256_of(&prk, &one);
    assert(one@ =~= seq![1u8]);
    let two: [u8; 1] = [2u8];
    let message: Vec<u8> = concat(&first, &two);
    assert(two@ =~= seq![2u8]);
    let second: [u8; 32] = hmac_sha256_of(&prk, message.as_slice());
    (first, second)
}

/// The two halves of a 64-byte digest.
pub(crate) fn halves(d: &[u8; 64]) -> (r: ([u8; 32], [u8; 32]))
    ensures
        r.0@ == d@.take(32),
        r.1@ == d@.skip(32),
{
    let all: &[u8] = d.as_slice();
    let left: [u8; 32] = array32(vstd::slice::slice_subrange(all, 0, 32));
    let right: [u8; 32] = array32(vstd::slice::slice_subrange(all, 32, 64));
    assert(left@ =~= d@.take(32));
    assert(right@ =~= d@.skip(32));
    (left, right)
}

} // verus!
