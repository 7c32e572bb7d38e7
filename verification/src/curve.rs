//! Keys and signatures on the secp256k1 curve. A key is held as the bytes it is written in; the
//! arithmetic and the signing are done by the `secp256k1` crate.
use bitcoin::secp256k1;
use vstd::prelude::*;

use crate::bytes::{array32, be_bytes, be_nat};

verus! {

/// The order of the group the curve's generator spans.
pub open spec fn curve_order() -> nat {
    0xFFFFFFFF_FFFFFFFF_FFFFFFFF_FFFFFFFE_BAAEDCE6_AF48A03B_BFD25E8C_D0364141nat
}

/// Bytes that spell a secret key: 32 of them, a number above zero and below the group order.
pub open spec fn valid_secret(s: Seq<u8>) -> bool {
    s.len() == 32 && 0 < be_nat(s) < curve_order()
}

/// Bytes that spell a scalar: 32 of them, a number below the group order.
pub open spec fn valid_scalar(s: Seq<u8>) -> bool {
    s.len() == 32 && be_nat(s) < curve_order()
}

/// Bytes that spell an ECDSA signature: two scalars.
pub open spec fn valid_ecdsa(s: Seq<u8>) -> bool {
    s.len() == 64 && be_nat(s.take(32)) < curve_order() && be_nat(s.skip(32)) < curve_order()
}

/// The sum of a secret key and a tweak, where it is a key.
pub open spec fn tweak_add(key: Seq<u8>, tweak: Seq<u8>) -> Option<Seq<u8>> {
    let sum = (be_nat(key) + be_nat(tweak)) % curve_order();
    if sum == 0 {
        None
    } else {
        Some(be_bytes(sum, 32))
    }
}

/// The product of a secret key and a tweak, where it is a key.
pub open spec fn tweak_mul(key: Seq<u8>, tweak: Seq<u8>) -> Option<Seq<u8>> {
    if be_nat(tweak) == 0 {
        None
    } else {
        Some(be_bytes((be_nat(key) * be_nat(tweak)) % curve_order(), 32))
    }
}

/// Whether bytes are the compressed serialization of a point of the curve.
pub uninterp spec fn valid_point(bytes: Seq<u8>) -> bool;

/// The point that a secret key multiplies the generator to, compressed.
pub uninterp spec fn public_of(secret: Seq<u8>) -> Seq<u8>;

/// The sum of two points, compressed; none where it is the point at infinity.
pub uninterp spec fn point_sum(a: Seq<u8>, b: Seq<u8>) -> Option<Seq<u8>>;

/// The product of a point and a nonzero scalar, compressed.
pub uninterp spec fn point_product(point: Seq<u8>, scalar: Seq<u8>) -> Seq<u8>;

/// The point with this x coordinate and even y, plus a scalar times the generator: its x
/// coordinate, and whether its y is odd. None where the coordinate belongs to no point or the sum is
/// the point at infinity.
pub uninterp spec fn xonly_sum(x: Seq<u8>, scalar: Seq<u8>) -> Option<(Seq<u8>, bool)>;

/// The secret key of a key pair tweaked as an x-only key; none where it would be zero.
pub uninterp spec fn xonly_tweaked_secret(secret: Seq<u8>, scalar: Seq<u8>) -> Option<Seq<u8>>;

/// The deterministic ECDSA signature of a message, compact.
pub uninterp spec fn ecdsa(message: Seq<u8>, secret: Seq<u8>) -> Seq<u8>;

/// The deterministic ECDSA signature of a message with extra nonce data, compact.
pub uninterp spec fn ecdsa_with_noncedata(
    message: Seq<u8>,
    secret: Seq<u8>,
    noncedata: Seq<u8>,
) -> Seq<u8>;

/// The deterministic ECDSA signature of a message with its recovery id.
pub uninterp spec fn ecdsa_recoverable(message: Seq<u8>, secret: Seq<u8>) -> (u8, Seq<u8>);

/// The DER encoding of a compact ECDSA signature.
pub uninterp spec fn der(compact: Seq<u8>) -> Seq<u8>;

/// The BIP 340 signature of a message, without auxiliary randomness.
pub uninterp spec fn schnorr(message: Seq<u8>, secret: Seq<u8>) -> Seq<u8>;

/// The BIP 340 signature of a message with auxiliary randomness.
pub uninterp spec fn schnorr_with_aux(message: Seq<u8>, secret: Seq<u8>, aux: Seq<u8>) -> Seq<u8>;

/// Whether a BIP 340 signature of a message verifies under an x-only key.
pub uninterp spec fn schnorr_verifies(signature: Seq<u8>, message: Seq<u8>, x: Seq<u8>) -> bool;

/// The hashed Diffie-Hellman secret of a point and a secret key.
pub uninterp spec fn shared_secret(point: Seq<u8>, secret: Seq<u8>) -> Seq<u8>;

/// A secret key.
#[derive(Clone, Copy, Debug, PartialEq, Eq)]
pub struct SecretKey {
    bytes: [u8; 32],
}

/// A number below the group order.
#[derive(Clone, Copy, Debug, PartialEq, Eq)]
pub struct Scalar {
    bytes: [u8; 32],
}

/// A point of the curve other than the point at infinity, in its compressed serialization.
#[derive(Clone, Copy, Debug, Hash, PartialEq, Eq)]
pub struct PublicKey {
    bytes: [u8; 33],
}

/// An ECDSA signature in its compact serialization.
#[derive(Clone, Copy, Debug, PartialEq, Eq)]
pub struct Signature {
    compact: [u8; 64],
}

/// An ECDSA signature with the id by which its public key can be recovered.
#[derive(Clone, Copy, Debug, PartialEq, Eq)]
pub struct RecoverableSignature {
    pub recovery_id: u8,
    pub compact: [u8; 64],
}

/// A BIP 340 signature.
#[derive(Clone, Copy, Debug, PartialEq, Eq)]
pub struct SchnorrSignature {
    pub bytes: [u8; 64],
}

impl View for SecretKey {
    type V = Seq<u8>;

    closed spec fn view(&self) -> Seq<u8> {
        self.bytes@
    }
}

impl View for Scalar {
    type V = Seq<u8>;

    closed spec fn view(&self) -> Seq<u8> {
        self.bytes@
    }
}

impl View for PublicKey {
    type V = Seq<u8>;

    closed spec fn view(&self) -> Seq<u8> {
        self.bytes@
    }
}

impl View for Signature {
    type V = Seq<u8>;

    closed spec fn view(&self) -> Seq<u8> {
        self.compact@
    }
}

impl View for SchnorrSignature {
    type V = Seq<u8>;

    open spec fn view(&self) -> Seq<u8> {
        self.bytes@
    }
}

/// The bytes of a key that may be missing.
pub open spec fn secret_view(k: Option<SecretKey>) -> Option<Seq<u8>> {
    match k {
        Some(k) => Some(k@),
        None => None,
    }
}

/// The bytes of a point that may be missing.
pub open spec fn point_view(k: Option<PublicKey>) -> Option<Seq<u8>> {
    match k {
        Some(k) => Some(k@),
        None => None,
    }
}

/// The x coordinate of a point.
pub open spec fn x_only(point: Seq<u8>) -> Seq<u8> {
    point.subrange(1, 33)
}

/// Whether a compact signature has its second half no greater than half the group order.
pub open spec fn low_s(compact: Seq<u8>) -> bool {
    be_nat(compact.skip(32)) <= curve_order() / 2
}

/// `secp256k1::SecretKey::from_slice`: succeeds exactly on a number above zero and below the order.
#[verifier::external_body]
fn secret_in_range(bytes: &[u8; 32]) -> (r: bool)
    ensures
        r == valid_secret(bytes@),
{
    secp256k1::SecretKey::from_slice(bytes).is_ok()
}

/// `secp256k1::Scalar::from_be_bytes`: succeeds exactly on a number below the order.
#[verifier::external_body]
fn scalar_in_range(bytes: &[u8; 32]) -> (r: bool)
    ensures
        r == valid_scalar(bytes@),
{
    secp256k1::Scalar::from_be_bytes(*bytes).is_ok()
}

/// `secp256k1::PublicKey::from_slice`: whether 33 bytes are a point depends on the bytes alone.
#[verifier::external_body]
fn point_on_curve(bytes: &[u8; 33]) -> (r: bool)
    ensures
        r == valid_point(bytes@),
{
    secp256k1::PublicKey::from_slice(bytes).is_ok()
}

/// `secp256k1::SecretKey::add_tweak`: the sum modulo the order, an error where it is zero.
#[verifier::external_body]
fn secret_add(key: &SecretKey, tweak: &Scalar) -> (r: Option<SecretKey>)
    ensures
        secret_view(r) == tweak_add(key@, tweak@),
{
    let k = secp256k1::SecretKey::from_slice(&key.bytes).unwrap();
    let t = secp256k1::Scalar::from_be_bytes(tweak.bytes).unwrap();
    k.add_tweak(&t).ok().map(|s| SecretKey { bytes: s.secret_bytes() })
}

/// `secp256k1::SecretKey::mul_tweak`: the product modulo the order, an error where the tweak is
/// zero.
#[verifier::external_body]
fn secret_mul(key: &SecretKey, tweak: &Scalar) -> (r: Option<SecretKey>)
    ensures
        secret_view(r) == tweak_mul(key@, tweak@),
{
    let k = secp256k1::SecretKey::from_slice(&key.bytes).unwrap();
    let t = secp256k1::Scalar::from_be_bytes(tweak.bytes).unwrap();
    k.mul_tweak(&t).ok().map(|s| SecretKey { bytes: s.secret_bytes() })
}

/// `secp256k1::PublicKey::from_secret_key`: depends on the key alone.
#[verifier::external_body]
fn secret_to_public(key: &SecretKey) -> (r: PublicKey)
    ensures
        r@ == public_of(key@),
{
    let k = secp256k1::SecretKey::from_slice(&key.bytes).unwrap();
    let p = secp256k1::PublicKey::from_secret_key(&secp256k1::Secp256k1::signing_only(), &k);
    PublicKey { bytes: p.serialize() }
}

/// `secp256k1::PublicKey::combine`: the sum of the points, an error at infinity. The sum of the
/// points of two secret keys is the point of the keys' sum.
#[verifier::external_body]
fn point_add(a: &PublicKey, b: &PublicKey) -> (r: Option<PublicKey>)
    ensures
        point_view(r) == point_sum(a@, b@),
        forall|j: Seq<u8>, k: Seq<u8>|
            #![trigger public_of(j), public_of(k)]
            valid_secret(j) && valid_secret(k) && a@ == public_of(j) && b@ == public_of(k) ==> (
            match tweak_add(j, k) {
                Some(s) => point_view(r) == Some(public_of(s)),
                None => r is None,
            }),
{
    let p = secp256k1::PublicKey::from_slice(&a.bytes).unwrap();
    let q = secp256k1::PublicKey::from_slice(&b.bytes).unwrap();
    p.combine(&q).ok().map(|s| PublicKey { bytes: s.serialize() })
}

/// `secp256k1::PublicKey::mul_tweak`: the product, an error where the scalar is zero. The product
/// of the point of a secret key is the point of the key's product, which is a key.
#[verifier::external_body]
fn point_mul(p: &PublicKey, t: &Scalar) -> (r: Option<PublicKey>)
    ensures
        r is None <==> be_nat(t@) == 0,
        r matches Some(q) ==> q@ == point_product(p@, t@),
        forall|k: Seq<u8>|
            #![trigger public_of(k)]
            valid_secret(k) && p@ == public_of(k) ==> match tweak_mul(k, t@) {
                Some(s) => valid_secret(s) && point_view(r) == Some(public_of(s)),
                None => r is None,
            },
{
    let k = secp256k1::PublicKey::from_slice(&p.bytes).unwrap();
    let s = secp256k1::Scalar::from_be_bytes(t.bytes).unwrap();
    let m = k.mul_tweak(&secp256k1::Secp256k1::verification_only(), &s);
    m.ok().map(|q| PublicKey { bytes: q.serialize() })
}

/// `secp256k1::XOnlyPublicKey::from_slice` and `add_tweak`: the tweaked key and its parity, or an
/// error, depend on the coordinate and the scalar alone.
#[verifier::external_body]
pub(crate) fn xonly_add(x: &[u8; 32], t: &Scalar) -> (r: Option<([u8; 32], bool)>)
    ensures
        r is Some <==> xonly_sum(x@, t@) is Some,
        r matches Some(q) ==> xonly_sum(x@, t@) == Some((q.0@, q.1)),
{
    let s = secp256k1::Scalar::from_be_bytes(t.bytes).unwrap();
    let secp = secp256k1::Secp256k1::verification_only();
    let key = secp256k1::XOnlyPublicKey::from_slice(x).ok()?;
    let (q, parity) = key.add_tweak(&secp, &s).ok()?;
    Some((q.serialize(), parity == secp256k1::Parity::Odd))
}

/// `secp256k1::Keypair::add_xonly_tweak`: the tweaked pair's secret key, or an error, depends on the
/// key and the scalar alone. Its point is the one that the pair's x coordinate is tweaked to.
#[verifier::external_body]
pub(crate) fn keypair_add_xonly(key: &SecretKey, t: &Scalar) -> (r: Option<SecretKey>)
    ensures
        secret_view(r) == xonly_tweaked_secret(key@, t@),
        match (r, xonly_sum(x_only(public_of(key@)), t@)) {
            (Some(k), Some((x, _))) => x_only(public_of(k@)) == x,
            (None, None) => true,
            _ => false,
        },
{
    let secp = secp256k1::Secp256k1::new();
    let s = secp256k1::Scalar::from_be_bytes(t.bytes).unwrap();
    let pair = secp256k1::Keypair::from_seckey_slice(&secp, &key.bytes).unwrap();
    let tweaked = pair.add_xonly_tweak(&secp, &s).ok()?;
    Some(SecretKey { bytes: tweaked.secret_bytes() })
}

/// `secp256k1::Secp256k1::sign_ecdsa`: RFC 6979, so the signature depends on the message and the key
/// alone. It is always in lower-S form.
#[verifier::external_body]
pub(crate) fn sign_ecdsa(message: &[u8; 32], key: &SecretKey) -> (r: Signature)
    ensures
        r@ == ecdsa(message@, key@),
        low_s(r@),
{
    let m = secp256k1::Message::from_digest(*message);
    let k = secp256k1::SecretKey::from_slice(&key.bytes).unwrap();
    let s = secp256k1::Secp256k1::signing_only().sign_ecdsa(&m, &k);
    Signature { compact: s.serialize_compact() }
}

/// `secp256k1::Secp256k1::sign_ecdsa_with_noncedata`: RFC 6979 with the data mixed in, so the
/// signature depends on the message, the key and the data alone. It is always in lower-S form.
#[verifier::external_body]
pub(crate) fn sign_ecdsa_with_noncedata(
    message: &[u8; 32],
    key: &SecretKey,
    noncedata: &[u8; 32],
) -> (r: Signature)
    ensures
        r@ == ecdsa_with_noncedata(message@, key@, noncedata@),
        low_s(r@),
{
    let m = secp256k1::Message::from_digest(*message);
    let k = secp256k1::SecretKey::from_slice(&key.bytes).unwrap();
    let s = secp256k1::Secp256k1::signing_only().sign_ecdsa_with_noncedata(&m, &k, noncedata);
    Signature { compact: s.serialize_compact() }
}

/// `secp256k1::Secp256k1::sign_ecdsa_recoverable`: RFC 6979, so the signature and its recovery id
/// depend on the message and the key alone. A recovery id is one of 0 to 3.
#[verifier::external_body]
pub(crate) fn sign_ecdsa_recoverable(message: &[u8; 32], key: &SecretKey) -> (r:
    RecoverableSignature)
    ensures
        (r.recovery_id, r.compact@) == ecdsa_recoverable(message@, key@),
        r.recovery_id < 4,
{
    let m = secp256k1::Message::from_digest(*message);
    let k = secp256k1::SecretKey::from_slice(&key.bytes).unwrap();
    let s = secp256k1::Secp256k1::signing_only().sign_ecdsa_recoverable(&m, &k);
    let (id, compact) = s.serialize_compact();
    RecoverableSignature { recovery_id: id.to_i32() as u8, compact }
}

/// `secp256k1::ecdsa::Signature::serialize_der`: the encoding depends on the signature alone. It has
/// six bytes of framing and two integers of at most 32 bytes, one more where the top bit is set.
#[verifier::external_body]
fn signature_der(s: &Signature) -> (r: Vec<u8>)
    ensures
        r@ == der(s@),
        r@.len() <= 72,
        low_s(s@) ==> r@.len() <= 71,
{
    secp256k1::ecdsa::Signature::from_compact(&s.compact).unwrap().serialize_der().to_vec()
}

/// `secp256k1::Secp256k1::sign_schnorr_no_aux_rand`: depends on the message and the key alone. The signature
/// verifies under the x coordinate of the key's point.
#[verifier::external_body]
pub(crate) fn sign_schnorr(message: &[u8; 32], key: &SecretKey) -> (r: SchnorrSignature)
    ensures
        r@ == schnorr(message@, key@),
        schnorr_verifies(r@, message@, x_only(public_of(key@))),
{
    let secp = secp256k1::Secp256k1::signing_only();
    let m = secp256k1::Message::from_digest(*message);
    let pair = secp256k1::Keypair::from_seckey_slice(&secp, &key.bytes).unwrap();
    SchnorrSignature { bytes: secp.sign_schnorr_no_aux_rand(&m, &pair).serialize() }
}

/// `secp256k1::Secp256k1::sign_schnorr_with_aux_rand`: depends on the message, the key and the
/// auxiliary bytes alone. The signature verifies under the x coordinate of the key's point.
#[verifier::external_body]
pub(crate) fn sign_schnorr_with_aux(
    message: &[u8; 32],
    key: &SecretKey,
    aux: &[u8; 32],
) -> (r: SchnorrSignature)
    ensures
        r@ == schnorr_with_aux(message@, key@, aux@),
        schnorr_verifies(r@, message@, x_only(public_of(key@))),
{
    let secp = secp256k1::Secp256k1::signing_only();
    let m = secp256k1::Message::from_digest(*message);
    let pair = secp256k1::Keypair::from_seckey_slice(&secp, &key.bytes).unwrap();
    SchnorrSignature { bytes: secp.sign_schnorr_with_aux_rand(&m, &pair, aux).serialize() }
}

/// `secp256k1::Secp256k1::verify_schnorr`: the verdict depends on the three byte strings alone. A
/// string that is no x coordinate of a point verifies nothing.
#[verifier::external_body]
pub(crate) fn verify_schnorr(s: &SchnorrSignature, message: &[u8; 32], x: &[u8; 32]) -> (r: bool)
    ensures
        r == schnorr_verifies(s@, message@, x@),
{
    let secp = secp256k1::Secp256k1::verification_only();
    let sig = secp256k1::schnorr::Signature::from_slice(&s.bytes).unwrap();
    let m = secp256k1::Message::from_digest(*message);
    secp256k1::XOnlyPublicKey::from_slice(x)
        .is_ok_and(|key| secp.verify_schnorr(&sig, &m, &key).is_ok())
}

/// `secp256k1::ecdh::SharedSecret::new`: depends on the point and the key alone, by their product. So the
/// two sides of a pair of keys share it, and a factor of the key may be one of the point instead.
#[verifier::external_body]
pub(crate) fn ecdh_secret(point: &PublicKey, key: &SecretKey) -> (r: [u8; 32])
    ensures
        r@ == shared_secret(point@, key@),
        forall|j: Seq<u8>|
            #![trigger public_of(j)]
            valid_secret(j) && point@ == public_of(j) ==> r@ == shared_secret(
                public_of(key@),
                j,
            ),
        forall|k: Seq<u8>, t: Seq<u8>|
            #![trigger tweak_mul(k, t)]
            valid_secret(k) && valid_scalar(t) && tweak_mul(k, t) == Some(key@) ==> r@
                == shared_secret(point_product(point@, t), k),
{
    let p = secp256k1::PublicKey::from_slice(&point.bytes).unwrap();
    let k = secp256k1::SecretKey::from_slice(&key.bytes).unwrap();
    secp256k1::ecdh::SharedSecret::new(&p, &k).secret_bytes()
}

impl SecretKey {
    #[verifier::type_invariant]
    spec fn in_range(self) -> bool {
        valid_secret(self.bytes@)
    }

    /// The key that 32 bytes spell, where they spell one.
    pub fn from_bytes(bytes: &[u8; 32]) -> (r: Option<SecretKey>)
        ensures
            r is Some <==> valid_secret(bytes@),
            r matches Some(k) ==> k@ == bytes@,
    {
        if secret_in_range(bytes) {
            Some(SecretKey { bytes: *bytes })
        } else {
            None
        }
    }

    /// The bytes of the key.
    pub fn secret_bytes(&self) -> (r: [u8; 32])
        ensures
            r@ == self@,
            valid_secret(self@),
    {
        proof {
            use_type_invariant(&*self);
        }
        self.bytes
    }

    /// The key's point.
    pub fn public_key(&self) -> (r: PublicKey)
        ensures
            r@ == public_of(self@),
            valid_secret(self@),
    {
        proof {
            use_type_invariant(&*self);
        }
        secret_to_public(self)
    }

    /// The sum of the key and a tweak, where it is not zero.
    pub fn add_tweak(&self, tweak: &Scalar) -> (r: Option<SecretKey>)
        ensures
            secret_view(r) == tweak_add(self@, tweak@),
    {
        secret_add(self, tweak)
    }

    /// The product of the key and a tweak, where the tweak is not zero.
    pub fn mul_tweak(&self, tweak: &Scalar) -> (r: Option<SecretKey>)
        ensures
            secret_view(r) == tweak_mul(self@, tweak@),
            valid_secret(self@),
            valid_scalar(tweak@),
    {
        proof {
            use_type_invariant(&*self);
            use_type_invariant(&*tweak);
        }
        secret_mul(self, tweak)
    }

    /// The key as a scalar.
    pub fn as_scalar(&self) -> (r: Scalar)
        ensures
            r@ == self@,
    {
        proof {
            use_type_invariant(&*self);
        }
        Scalar { bytes: self.bytes }
    }
}

impl Scalar {
    #[verifier::type_invariant]
    spec fn in_range(self) -> bool {
        valid_scalar(self.bytes@)
    }

    /// The number that 32 bytes spell, where it is below the group order.
    pub fn from_be_bytes(bytes: &[u8; 32]) -> (r: Option<Scalar>)
        ensures
            r is Some <==> valid_scalar(bytes@),
            r matches Some(t) ==> t@ == bytes@,
    {
        if scalar_in_range(bytes) {
            Some(Scalar { bytes: *bytes })
        } else {
            None
        }
    }

    /// The bytes of the number.
    pub fn to_be_bytes(&self) -> (r: [u8; 32])
        ensures
            r@ == self@,
            valid_scalar(self@),
    {
        proof {
            use_type_invariant(&*self);
        }
        self.bytes
    }
}

impl PublicKey {
    #[verifier::type_invariant]
    spec fn on_curve(self) -> bool {
        valid_point(self.bytes@)
    }

    /// The point that 33 bytes serialize, where they do.
    pub fn from_bytes(bytes: &[u8; 33]) -> (r: Option<PublicKey>)
        ensures
            r is Some <==> valid_point(bytes@),
            r matches Some(k) ==> k@ == bytes@,
    {
        if point_on_curve(bytes) {
            Some(PublicKey { bytes: *bytes })
        } else {
            None
        }
    }

    /// The compressed serialization.
    pub fn serialize(&self) -> (r: [u8; 33])
        ensures
            r@ == self@,
            valid_point(self@),
            self@.len() == 33,
    {
        proof {
            use_type_invariant(&*self);
        }
        self.bytes
    }

    /// The x coordinate.
    pub fn x_only(&self) -> (r: [u8; 32])
        ensures
            r@ == x_only(self@),
    {
        let all: &[u8] = self.bytes.as_slice();
        array32(vstd::slice::slice_subrange(all, 1, 33))
    }

    /// The sum of two points, where it is not the point at infinity. The sum of the points of two
    /// secret keys is the point of the keys' sum.
    pub fn combine(&self, other: &PublicKey) -> (r: Option<PublicKey>)
        ensures
            point_view(r) == point_sum(self@, other@),
            forall|j: Seq<u8>, k: Seq<u8>|
                #![trigger public_of(j), public_of(k)]
                valid_secret(j) && valid_secret(k) && self@ == public_of(j) && other@ == public_of(
                    k,
                ) ==> (match tweak_add(j, k) {
                    Some(s) => point_view(r) == Some(public_of(s)),
                    None => r is None,
                }),
    {
        point_add(self, other)
    }

    /// The product of the point and a scalar, where the scalar is not zero. The product of the point
    /// of a secret key is the point of the key's product.
    pub fn mul_tweak(&self, scalar: &Scalar) -> (r: Option<PublicKey>)
        ensures
            r is None <==> be_nat(scalar@) == 0,
            r matches Some(q) ==> q@ == point_product(self@, scalar@),
            forall|k: Seq<u8>|
                #![trigger public_of(k)]
                valid_secret(k) && self@ == public_of(k) ==> match tweak_mul(k, scalar@) {
                    Some(s) => valid_secret(s) && point_view(r) == Some(public_of(s)),
                    None => r is None,
                },
    {
        point_mul(self, scalar)
    }
}

/// A serialized point has 33 bytes.
pub(crate) proof fn lemma_point_len(k: PublicKey)
    ensures
        k@.len() == 33,
{
}

impl Signature {
    #[verifier::type_invariant]
    spec fn two_scalars(self) -> bool {
        valid_ecdsa(self.compact@)
    }

    /// The signature that 64 bytes spell, where both halves are below the group order.
    pub fn from_compact(bytes: &[u8; 64]) -> (r: Option<Signature>)
        ensures
            r is Some <==> valid_ecdsa(bytes@),
            r matches Some(s) ==> s@ == bytes@,
    {
        let all: &[u8] = bytes.as_slice();
        let first: [u8; 32] = array32(vstd::slice::slice_subrange(all, 0, 32));
        let second: [u8; 32] = array32(vstd::slice::slice_subrange(all, 32, 64));
        assert(first@ =~= bytes@.take(32));
        assert(second@ =~= bytes@.skip(32));
        if scalar_in_range(&first) && scalar_in_range(&second) {
            Some(Signature { compact: *bytes })
        } else {
            None
        }
    }

    /// The compact serialization.
    pub fn serialize_compact(&self) -> (r: [u8; 64])
        ensures
            r@ == self@,
            valid_ecdsa(self@),
    {
        proof {
            use_type_invariant(&*self);
        }
        self.compact
    }

    /// The DER encoding: at most 72 bytes, and at most 71 of a signature in lower-S form.
    pub fn serialize_der(&self) -> (r: Vec<u8>)
        ensures
            r@ == der(self@),
            r@.len() <= 72,
            low_s(self@) ==> r@.len() <= 71,
    {
        signature_der(self)
    }
}

} // verus!
