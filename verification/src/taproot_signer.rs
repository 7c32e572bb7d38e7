//! MuSig2 (BIP 327) key-path signing core for simple taproot channels. The protocol's rounds are run by
//! the `musig2` crate; this module sorts the keys, derives the nonces and places what the parties
//! exchange.
//!
//! Nonces are deterministic per height, re-derivable after a restart, never random and never stored:
//! the seed at a height is `HMAC-SHA256(key = sha256(shachain_root), msg = height)`.
use musig2::secp::MaybeScalar;
use musig2::secp256k1::{PublicKey as OutsideKey, SecretKey as OutsideSecret};
use musig2::{
    AggNonce, BinaryEncoding, FirstRound, KeyAggContext as OutsideContext, PubNonce as OutsideNonce,
    SecNonceSpices, SecondRound,
};
use vstd::prelude::*;

use crate::bytes::{array32, bytes_equal, bytes_less, lemma_lex_total, lex_less, text};
use crate::curve::{
    public_of, schnorr_verifies, valid_point, valid_scalar, valid_secret, verify_schnorr, x_only,
    PublicKey, Scalar, SchnorrSignature, SecretKey,
};
use crate::nonce::{
    derive_secnonce_seed, derive_secnonce_seed_domain, secnonce_seed,
    COUNTERPARTY_COMMITMENT_NONCE_TAG,
};

verus! {

/// The point that two keys aggregate to, compressed; none where it is the point at infinity.
pub uninterp spec fn musig_key_sum(lo: Seq<u8>, hi: Seq<u8>) -> Option<Seq<u8>>;

/// The aggregate of two keys with the taproot tweak of an output that has no scripts, compressed; none
/// where the keys have no aggregate or the tweak leads to no key.
pub uninterp spec fn musig_taproot_key(lo: Seq<u8>, hi: Seq<u8>) -> Option<Seq<u8>>;

/// Whether bytes are the serialization of a public nonce.
pub uninterp spec fn valid_pubnonce(bytes: Seq<u8>) -> bool;

/// The public nonce of the signer at an index, from a seed and, where they are mixed in, a message and
/// the peer's nonce.
pub uninterp spec fn musig_nonce(
    lo: Seq<u8>,
    hi: Seq<u8>,
    seed: Seq<u8>,
    index: nat,
    binding: Option<(Seq<u8>, Seq<u8>)>,
) -> Seq<u8>;

/// The partial signature over a message of the signer at an index, whose secret key is given, under the
/// nonce from a seed and the nonce of the other signer.
pub uninterp spec fn musig_partial(
    lo: Seq<u8>,
    hi: Seq<u8>,
    seed: Seq<u8>,
    index: nat,
    binding: Option<(Seq<u8>, Seq<u8>)>,
    peer_nonce: Seq<u8>,
    secret: Seq<u8>,
    message: Seq<u8>,
) -> Seq<u8>;

/// The nonce that a signature of a message carries where it is made under two public nonces, compressed:
/// their sum, weighted by the message, or the generator where that is the point at infinity.
pub uninterp spec fn musig_final_nonce(
    lo: Seq<u8>,
    hi: Seq<u8>,
    nonce: Seq<u8>,
    other_nonce: Seq<u8>,
    message: Seq<u8>,
) -> Seq<u8>;

/// The signature that two partial signatures under two nonces sum to; none where it does not verify.
pub uninterp spec fn musig_signature(
    lo: Seq<u8>,
    hi: Seq<u8>,
    nonce: Seq<u8>,
    other_nonce: Seq<u8>,
    partials: (Seq<u8>, Seq<u8>),
    message: Seq<u8>,
) -> Option<Seq<u8>>;

/// `musig2::KeyAggContext::new` on two valid points: the aggregate, or the error, depends on the keys in
/// their order alone.
#[verifier::external_body]
fn aggregate_keys(lo: &[u8; 33], hi: &[u8; 33]) -> (r: Option<[u8; 33]>)
    requires
        valid_point(lo@),
        valid_point(hi@),
    ensures
        r is Some <==> musig_key_sum(lo@, hi@) is Some,
        r matches Some(k) ==> musig_key_sum(lo@, hi@) == Some(k@),
{
    let keys = [lo, hi].map(|k| OutsideKey::from_slice(k).unwrap());
    let context = OutsideContext::new(keys).ok()?;
    Some(context.aggregated_pubkey::<OutsideKey>().serialize())
}

/// `musig2::KeyAggContext::with_unspendable_taproot_tweak` on the aggregate of two keys: the tweaked key,
/// or the error, depends on the keys in their order alone.
#[verifier::external_body]
fn tweak_keys(lo: &[u8; 33], hi: &[u8; 33]) -> (r: Option<[u8; 33]>)
    requires
        valid_point(lo@),
        valid_point(hi@),
        musig_key_sum(lo@, hi@) is Some,
    ensures
        r is Some <==> musig_taproot_key(lo@, hi@) is Some,
        r matches Some(k) ==> musig_taproot_key(lo@, hi@) == Some(k@),
{
    let keys = [lo, hi].map(|k| OutsideKey::from_slice(k).unwrap());
    let context = OutsideContext::new(keys).unwrap().with_unspendable_taproot_tweak().ok()?;
    Some(context.aggregated_pubkey::<OutsideKey>().serialize())
}

/// `musig2::PubNonce::from_bytes`: whether 66 bytes are a nonce depends on the bytes alone.
#[verifier::external_body]
fn is_pubnonce(bytes: &[u8; 66]) -> (r: bool)
    ensures
        r == valid_pubnonce(bytes@),
{
    OutsideNonce::from_bytes(bytes).is_ok()
}

/// `musig2::FirstRound::new` and `our_public_nonce`: fails exactly where the index is not that of one
/// of the two keys; otherwise the nonce depends on the arguments alone.
#[verifier::external_body]
fn first_round_nonce(
    ctx: &KeyAggContext,
    seed: &[u8; 32],
    index: usize,
    binding: Option<(&[u8; 32], &[u8; 66])>,
) -> (r: Option<[u8; 66]>)
    ensures
        r is Some <==> index < 2,
        r matches Some(n) ==> valid_pubnonce(n@) && n@ == musig_nonce(
            ctx@.lo,
            ctx@.hi,
            seed@,
            index as nat,
            binding_view(binding),
        ),
{
    let keys = [ctx.lo, ctx.hi].map(|k| OutsideKey::from_slice(&k).unwrap());
    let context = OutsideContext::new(keys).unwrap().with_unspendable_taproot_tweak().unwrap();
    let bound = |(m, n)| SecNonceSpices::new().with_message(m).with_extra_input(n);
    let spices = binding.map(bound).unwrap_or_default();
    Some(FirstRound::new(context, *seed, index, spices).ok()?.our_public_nonce().serialize())
}

/// `musig2::FirstRound::receive_nonce`: a nonce is accepted at the index of the other key, and at the
/// signer's own index exactly where it is the signer's nonce.
#[verifier::external_body]
fn first_round_accepts(
    ctx: &KeyAggContext,
    seed: &[u8; 32],
    index: usize,
    binding: Option<(&[u8; 32], &[u8; 66])>,
    peer_index: usize,
    peer_nonce: &PubNonce,
) -> (r: bool)
    requires
        index < 2,
    ensures
        r == (peer_index < 2 && (peer_index == index ==> peer_nonce@ == musig_nonce(
            ctx@.lo,
            ctx@.hi,
            seed@,
            index as nat,
            binding_view(binding),
        ))),
{
    let keys = [ctx.lo, ctx.hi].map(|k| OutsideKey::from_slice(&k).unwrap());
    let context = OutsideContext::new(keys).unwrap().with_unspendable_taproot_tweak().unwrap();
    let bound = |(m, n)| SecNonceSpices::new().with_message(m).with_extra_input(n);
    let spices = binding.map(bound).unwrap_or_default();
    let mut round = FirstRound::new(context, *seed, index, spices).unwrap();
    round.receive_nonce(peer_index, OutsideNonce::from_bytes(&peer_nonce.bytes).unwrap()).is_ok()
}

/// `musig2::FirstRound::finalize` and `SecondRound::our_signature`, once the peer's nonce is placed: fails
/// exactly where the other key's nonce is missing, because the one that was placed stands at our own index,
/// or the secret key is not that of our index. Otherwise the partial signature depends on the arguments
/// alone.
#[verifier::external_body]
fn second_round_partial(
    ctx: &KeyAggContext,
    seed: &[u8; 32],
    index: usize,
    binding: Option<(&[u8; 32], &[u8; 66])>,
    peer_index: usize,
    peer_nonce: &PubNonce,
    secret: &[u8; 32],
    message: &[u8; 32],
) -> (r: Option<[u8; 32]>)
    requires
        valid_secret(secret@),
        index < 2,
        peer_index < 2,
        peer_index == index ==> peer_nonce@ == musig_nonce(
            ctx@.lo,
            ctx@.hi,
            seed@,
            index as nat,
            binding_view(binding),
        ),
    ensures
        r is Some <==> (peer_index != index && public_of(secret@) == slot_key(ctx@, index as nat)),
        r matches Some(p) ==> valid_scalar(p@) && p@ == musig_partial(
            ctx@.lo,
            ctx@.hi,
            seed@,
            index as nat,
            binding_view(binding),
            peer_nonce@,
            secret@,
            message@,
        ),
{
    let keys = [ctx.lo, ctx.hi].map(|k| OutsideKey::from_slice(&k).unwrap());
    let context = OutsideContext::new(keys).unwrap().with_unspendable_taproot_tweak().unwrap();
    let bound = |(m, n)| SecNonceSpices::new().with_message(m).with_extra_input(n);
    let spices = binding.map(bound).unwrap_or_default();
    let mut round = FirstRound::new(context, *seed, index, spices).unwrap();
    round.receive_nonce(peer_index, OutsideNonce::from_bytes(&peer_nonce.bytes).unwrap()).unwrap();
    let key = OutsideSecret::from_slice(secret).unwrap();
    let second: SecondRound<[u8; 32]> = round.finalize(key, *message).ok()?;
    Some(second.our_signature::<MaybeScalar>().serialize())
}

/// `musig2::AggNonce::sum`, `nonce_coefficient` and `final_nonce`: the nonce depends on the arguments alone,
/// and not on which of the two nonces comes first, as they are summed.
#[verifier::external_body]
fn sum_nonces(ctx: &KeyAggContext, nonce: &PubNonce, other_nonce: &PubNonce, message: &[u8; 32]) -> (r: [u8;
    33])
    ensures
        r@ == musig_final_nonce(ctx@.lo, ctx@.hi, nonce@, other_nonce@, message@),
        r@ == musig_final_nonce(ctx@.lo, ctx@.hi, other_nonce@, nonce@, message@),
{
    let keys = [ctx.lo, ctx.hi].map(|k| OutsideKey::from_slice(&k).unwrap());
    let context = OutsideContext::new(keys).unwrap().with_unspendable_taproot_tweak().unwrap();
    let nonces = [nonce, other_nonce].map(|n| OutsideNonce::from_bytes(&n.bytes).unwrap());
    let sum = AggNonce::sum(&nonces);
    let weight: MaybeScalar =
        sum.nonce_coefficient(context.aggregated_pubkey::<OutsideKey>(), message);
    sum.final_nonce::<OutsideKey>(weight).serialize()
}

/// `musig2::AggNonce::sum` and `musig2::aggregate_partial_signatures`: the signature, or the error,
/// depends on the arguments alone, and not on which of the two nonces comes first, as they are summed. A
/// signature that comes out has been checked against the tweaked aggregate key, so it verifies, and it
/// carries the nonce of [`sum_nonces`]. Unless the nonces' sum is the generator, which stands for a sum at
/// infinity, one does come out where each partial signature was made by the key of its slot under the
/// other's nonce, and none where one of them was and the other is not what the key of its slot would make:
/// the check fixes the sum of the two.
#[verifier::external_body]
fn aggregate_partials(
    ctx: &KeyAggContext,
    nonce: &PubNonce,
    other_nonce: &PubNonce,
    partials: (&[u8; 32], &[u8; 32]),
    message: &[u8; 32],
) -> (r: Option<SchnorrSignature>)
    requires
        valid_scalar(partials.0@),
        valid_scalar(partials.1@),
    ensures
        r is Some <==> musig_signature(
            ctx@.lo,
            ctx@.hi,
            nonce@,
            other_nonce@,
            (partials.0@, partials.1@),
            message@,
        ) is Some,
        r matches Some(s) ==> musig_signature(
            ctx@.lo,
            ctx@.hi,
            nonce@,
            other_nonce@,
            (partials.0@, partials.1@),
            message@,
        ) == Some(s@) && schnorr_verifies(s@, message@, x_only(ctx@.aggregate)) && s@.take(32)
            == x_only(musig_final_nonce(ctx@.lo, ctx@.hi, nonce@, other_nonce@, message@)),
        r is Some <==> musig_signature(
            ctx@.lo,
            ctx@.hi,
            other_nonce@,
            nonce@,
            (partials.0@, partials.1@),
            message@,
        ) is Some,
        r matches Some(s) ==> musig_signature(
            ctx@.lo,
            ctx@.hi,
            other_nonce@,
            nonce@,
            (partials.0@, partials.1@),
            message@,
        ) == Some(s@),
        r is Some && musig_final_nonce(ctx@.lo, ctx@.hi, nonce@, other_nonce@, message@) != GENERATOR@
            ==> {
            let parts = (partials.0@, partials.1@);
            &&& partners(ctx@, nonce@, other_nonce@, parts, message@)
            &&& partners(ctx@, other_nonce@, nonce@, parts, message@)
        },
        ({
            let parts = (partials.0@, partials.1@);
            &&& session(ctx@, nonce@, other_nonce@, parts, message@) || session(
                ctx@,
                other_nonce@,
                nonce@,
                parts,
                message@,
            )
            &&& musig_final_nonce(ctx@.lo, ctx@.hi, nonce@, other_nonce@, message@) != GENERATOR@
        }) ==> r is Some,
{
    let keys = [ctx.lo, ctx.hi].map(|k| OutsideKey::from_slice(&k).unwrap());
    let context = OutsideContext::new(keys).unwrap().with_unspendable_taproot_tweak().unwrap();
    let nonces = [nonce, other_nonce].map(|n| OutsideNonce::from_bytes(&n.bytes).unwrap());
    let scalars = [partials.0, partials.1].map(|p| MaybeScalar::from_slice(p).unwrap());
    let sig = musig2::aggregate_partial_signatures(&context, &AggNonce::sum(&nonces), scalars, message);
    let sig: Option<musig2::secp256k1::schnorr::Signature> = sig.ok();
    sig.map(|s| SchnorrSignature { bytes: s.serialize() })
}

/// Errors building the per-channel [`KeyAggContext`].
#[derive(Debug, Clone, Copy, PartialEq, Eq, Structural)]
pub enum KeyAggError {
    /// A funding key was not a valid 33-byte compressed secp256k1 point.
    BadPubkey,
    /// The two keys aggregated to the point at infinity (degenerate input).
    Aggregate,
    /// The taproot tweak produced the point at infinity (degenerate input).
    Tweak,
    /// `my_funding_pubkey` is neither of the two channel participants.
    NotAParticipant,
}

/// Errors in the key-path signing flow.
#[derive(Debug, Clone, Copy, PartialEq, Eq, Structural)]
pub enum SignError {
    /// Failed to set up the first round (bad signer index / key mismatch).
    RoundSetup,
    /// Failed to place the counterparty's public nonce.
    Nonce,
    /// Failed to finalize the first round (partial sign).
    Finalize,
    /// The counterparty's partial signature failed verification.
    PartialVerify,
    /// Final aggregation failed.
    Aggregate,
}

/// The two funding keys of a channel in their sorted order, with the tweaked key they aggregate to.
#[derive(Clone, Copy, Debug, PartialEq, Eq)]
pub struct KeyAggContext {
    lo: [u8; 33],
    hi: [u8; 33],
    aggregate: [u8; 33],
}

/// What a [`KeyAggContext`] holds.
#[verifier::ext_equal]
pub struct KeyAggContextView {
    pub lo: Seq<u8>,
    pub hi: Seq<u8>,
    pub aggregate: Seq<u8>,
}

impl View for KeyAggContext {
    type V = KeyAggContextView;

    closed spec fn view(&self) -> KeyAggContextView {
        KeyAggContextView { lo: self.lo@, hi: self.hi@, aggregate: self.aggregate@ }
    }
}

/// A public nonce: two points, compressed.
#[derive(Clone, Copy, Debug, PartialEq, Eq)]
pub struct PubNonce {
    bytes: [u8; 66],
}

impl View for PubNonce {
    type V = Seq<u8>;

    closed spec fn view(&self) -> Seq<u8> {
        self.bytes@
    }
}

/// A partial signature: a number below the group order.
#[derive(Clone, Copy, Debug, PartialEq, Eq)]
pub struct PartialSignature {
    scalar: Scalar,
}

impl View for PartialSignature {
    type V = Seq<u8>;

    closed spec fn view(&self) -> Seq<u8> {
        self.scalar@
    }
}

/// A partial signature and the nonce it was made under.
#[derive(Clone, Copy, Debug, PartialEq, Eq)]
pub struct PartialSignatureWithNonce(pub PartialSignature, pub PubNonce);

/// The generator of the group, compressed.
pub const GENERATOR: [u8; 33] = [
    0x02, 0x79, 0xbe, 0x66, 0x7e, 0xf9, 0xdc, 0xbb, 0xac, 0x55, 0xa0, 0x62, 0x95, 0xce, 0x87, 0x0b,
    0x07, 0x02, 0x9b, 0xfc, 0xdb, 0x2d, 0xce, 0x28, 0xd9, 0x59, 0xf2, 0x81, 0x5b, 0x16, 0xf8, 0x17,
    0x98,
];

/// The key at a slot.
pub open spec fn slot_key(ctx: KeyAggContextView, slot: nat) -> Seq<u8> {
    if slot == 0 {
        ctx.lo
    } else {
        ctx.hi
    }
}

/// That a partial signature of a message was made by the key of a slot, under a nonce of that slot and the
/// peer's nonce.
pub open spec fn honest_partial(
    ctx: KeyAggContextView,
    slot: nat,
    partial: Seq<u8>,
    nonce: Seq<u8>,
    peer_nonce: Seq<u8>,
    message: Seq<u8>,
) -> bool {
    exists|seed: Seq<u8>, binding: Option<(Seq<u8>, Seq<u8>)>, secret: Seq<u8>|
        {
            &&& partial == #[trigger] musig_partial(
                ctx.lo,
                ctx.hi,
                seed,
                slot,
                binding,
                peer_nonce,
                secret,
                message,
            )
            &&& nonce == musig_nonce(ctx.lo, ctx.hi, seed, slot, binding)
            &&& seed.len() == 32
            &&& valid_secret(secret)
            &&& public_of(secret) == slot_key(ctx, slot)
        }
}

/// That both slots' partial signatures of a message were made under each other's nonces.
pub open spec fn session(
    ctx: KeyAggContextView,
    first_nonce: Seq<u8>,
    second_nonce: Seq<u8>,
    partials: (Seq<u8>, Seq<u8>),
    message: Seq<u8>,
) -> bool {
    &&& honest_partial(ctx, 0, partials.0, first_nonce, second_nonce, message)
    &&& honest_partial(ctx, 1, partials.1, second_nonce, first_nonce, message)
}

/// That a partial signature is the only one that its slot's key can have made under a nonce and the peer's.
pub open spec fn only_honest(
    ctx: KeyAggContextView,
    slot: nat,
    partial: Seq<u8>,
    nonce: Seq<u8>,
    peer_nonce: Seq<u8>,
    message: Seq<u8>,
) -> bool {
    forall|q: Seq<u8>| #[trigger]
        honest_partial(ctx, slot, q, nonce, peer_nonce, message) ==> q == partial
}

/// That where one slot's partial signature of a message was made by its key, the other's is what its key
/// makes.
pub open spec fn partners(
    ctx: KeyAggContextView,
    first_nonce: Seq<u8>,
    second_nonce: Seq<u8>,
    partials: (Seq<u8>, Seq<u8>),
    message: Seq<u8>,
) -> bool {
    &&& honest_partial(ctx, 0, partials.0, first_nonce, second_nonce, message) ==> only_honest(
        ctx,
        1,
        partials.1,
        second_nonce,
        first_nonce,
        message,
    )
    &&& honest_partial(ctx, 1, partials.1, second_nonce, first_nonce, message) ==> only_honest(
        ctx,
        0,
        partials.0,
        first_nonce,
        second_nonce,
        message,
    )
}

/// What a nonce is bound to.
pub open spec fn binding_view(b: Option<(&[u8; 32], &[u8; 66])>) -> Option<(Seq<u8>, Seq<u8>)> {
    match b {
        Some((message, nonce)) => Some((message@, nonce@)),
        None => None,
    }
}

/// Two keys, the lesser first.
pub open spec fn key_sort(a: Seq<u8>, b: Seq<u8>) -> (Seq<u8>, Seq<u8>) {
    if lex_less(a, b) {
        (a, b)
    } else {
        (b, a)
    }
}

/// The slot of a key among two: 0 where it is the lesser, 1 where it is the greater.
pub open spec fn key_slot(a: Seq<u8>, b: Seq<u8>, mine: Seq<u8>) -> Option<nat> {
    let (lo, hi) = key_sort(a, b);
    if mine == lo {
        Some(0)
    } else if mine == hi {
        Some(1)
    } else {
        None
    }
}

/// The context of two keys and a party's slot in it, or why there is none.
pub open spec fn key_agg(a: Seq<u8>, b: Seq<u8>, mine: Seq<u8>) -> Result<
    (KeyAggContextView, nat),
    KeyAggError,
> {
    let (lo, hi) = key_sort(a, b);
    if !valid_point(lo) || !valid_point(hi) {
        Err(KeyAggError::BadPubkey)
    } else if musig_key_sum(lo, hi) is None {
        Err(KeyAggError::Aggregate)
    } else {
        match musig_taproot_key(lo, hi) {
            None => Err(KeyAggError::Tweak),
            Some(aggregate) => match key_slot(a, b, mine) {
                Some(slot) => Ok((KeyAggContextView { lo, hi, aggregate }, slot)),
                None => Err(KeyAggError::NotAParticipant),
            },
        }
    }
}

/// What [`our_key_path_partial`] and [`our_key_path_partial_counterparty`] give, from the seed of the
/// nonce and what it is bound to.
pub open spec fn key_path_partial(
    ctx: KeyAggContextView,
    our_index: nat,
    counterparty_index: nat,
    secret: Seq<u8>,
    seed: Seq<u8>,
    binding: Option<(Seq<u8>, Seq<u8>)>,
    counterparty_nonce: Seq<u8>,
    message: Seq<u8>,
) -> Result<(Seq<u8>, Seq<u8>), SignError> {
    let our_nonce = musig_nonce(ctx.lo, ctx.hi, seed, our_index, binding);
    if our_index >= 2 {
        Err(SignError::RoundSetup)
    } else if counterparty_index >= 2 || (counterparty_index == our_index && counterparty_nonce
        != our_nonce) {
        Err(SignError::Nonce)
    } else if counterparty_index == our_index || public_of(secret) != slot_key(ctx, our_index) {
        Err(SignError::Finalize)
    } else {
        Ok(
            (
                musig_partial(
                    ctx.lo,
                    ctx.hi,
                    seed,
                    our_index,
                    binding,
                    counterparty_nonce,
                    secret,
                    message,
                ),
                our_nonce,
            ),
        )
    }
}

/// What a partial signature with its nonce holds, or the error in its place.
pub open spec fn partial_result(r: Result<(PartialSignature, PubNonce), SignError>) -> Result<
    (Seq<u8>, Seq<u8>),
    SignError,
> {
    match r {
        Ok((p, n)) => Ok((p@, n@)),
        Err(e) => Err(e),
    }
}

impl PubNonce {
    #[verifier::type_invariant]
    spec fn two_points(self) -> bool {
        valid_pubnonce(self.bytes@)
    }

    /// The nonce that 66 bytes serialize, where they do.
    pub fn from_bytes(bytes: &[u8; 66]) -> (r: Option<PubNonce>)
        ensures
            r is Some <==> valid_pubnonce(bytes@),
            r matches Some(n) ==> n@ == bytes@,
    {
        if is_pubnonce(bytes) {
            Some(PubNonce { bytes: *bytes })
        } else {
            None
        }
    }

    /// The serialization.
    pub fn serialize(&self) -> (r: [u8; 66])
        ensures
            r@ == self@,
            valid_pubnonce(self@),
    {
        proof {
            use_type_invariant(&*self);
        }
        self.bytes
    }
}

impl PartialSignature {
    /// The partial signature that 32 bytes spell, where they are a number below the group order.
    pub fn from_bytes(bytes: &[u8; 32]) -> (r: Option<PartialSignature>)
        ensures
            r is Some <==> valid_scalar(bytes@),
            r matches Some(p) ==> p@ == bytes@,
    {
        match Scalar::from_be_bytes(bytes) {
            Some(scalar) => Some(PartialSignature { scalar }),
            None => None,
        }
    }

    /// The serialization.
    pub fn serialize(&self) -> (r: [u8; 32])
        ensures
            r@ == self@,
            valid_scalar(self@),
    {
        self.scalar.to_be_bytes()
    }
}

impl KeyAggContext {
    #[verifier::type_invariant]
    spec fn aggregated(self) -> bool {
        &&& valid_point(self.lo@)
        &&& valid_point(self.hi@)
        &&& musig_key_sum(self.lo@, self.hi@) is Some
        &&& musig_taproot_key(self.lo@, self.hi@) == Some(self.aggregate@)
    }
}

/// KeySort the two 33-byte compressed funding keys lexicographically, aggregate them with the BIP 341
/// key-path-only (empty merkle root) taproot tweak, and report our slot in the sorted list.
pub fn channel_key_agg_ctx(lp: &[u8; 33], hop: &[u8; 33], my_funding_pubkey: &[u8; 33]) -> (r: Result<
    (KeyAggContext, usize),
    KeyAggError,
>)
    ensures
        match (r, key_agg(lp@, hop@, my_funding_pubkey@)) {
            (Ok((ctx, slot)), Ok((view, n))) => ctx@ == view && slot == n && slot < 2,
            (Err(e), Err(f)) => e == f,
            _ => false,
        },
{
    let (lo, hi): ([u8; 33], [u8; 33]) = if bytes_less(lp, hop) {
        (*lp, *hop)
    } else {
        (*hop, *lp)
    };
    if PublicKey::from_bytes(&lo).is_none() || PublicKey::from_bytes(&hi).is_none() {
        return Err(KeyAggError::BadPubkey);
    }
    if aggregate_keys(&lo, &hi).is_none() {
        return Err(KeyAggError::Aggregate);
    }
    let aggregate: [u8; 33] = match tweak_keys(&lo, &hi) {
        Some(k) => k,
        None => {
            return Err(KeyAggError::Tweak);
        },
    };
    let ctx = KeyAggContext { lo, hi, aggregate };
    if bytes_equal(my_funding_pubkey, &lo) {
        Ok((ctx, 0))
    } else if bytes_equal(my_funding_pubkey, &hi) {
        Ok((ctx, 1))
    } else {
        Err(KeyAggError::NotAParticipant)
    }
}

/// The x-only tweaked aggregate output key `Q` (the BIP340 verification key and
/// the key committed in `0x5120 || Q`).
pub fn aggregated_xonly(ctx: &KeyAggContext) -> (r: [u8; 32])
    ensures
        r@ == x_only(ctx@.aggregate),
{
    array32(vstd::slice::slice_subrange(ctx.aggregate.as_slice(), 1, 33))
}

/// Derive **our** deterministic public nonce for `height`. This must be used to advertise the nonce we
/// later sign with.
pub fn local_pubnonce(
    ctx: KeyAggContext,
    our_index: usize,
    shachain_root: &[u8; 32],
    height: u64,
) -> (r: Result<PubNonce, SignError>)
    ensures
        r is Err <==> our_index >= 2,
        r matches Err(e) ==> e == SignError::RoundSetup,
        r matches Ok(n) ==> n@ == musig_nonce(
            ctx@.lo,
            ctx@.hi,
            secnonce_seed(shachain_root@, Seq::empty(), height),
            our_index as nat,
            None,
        ),
{
    let seed: [u8; 32] = derive_secnonce_seed(shachain_root, height);
    match first_round_nonce(&ctx, &seed, our_index, None) {
        Some(bytes) => Ok(PubNonce { bytes }),
        None => Err(SignError::RoundSetup),
    }
}

fn partial_from_seed(
    ctx: &KeyAggContext,
    our_index: usize,
    counterparty_index: usize,
    seckey: &SecretKey,
    seed: &[u8; 32],
    binding: Option<(&[u8; 32], &[u8; 66])>,
    counterparty_nonce: &PubNonce,
    message: &[u8; 32],
) -> (r: Result<(PartialSignature, PubNonce), SignError>)
    ensures
        partial_result(r) == key_path_partial(
            ctx@,
            our_index as nat,
            counterparty_index as nat,
            seckey@,
            seed@,
            binding_view(binding),
            counterparty_nonce@,
            message@,
        ),
        r matches Ok((p, n)) ==> honest_partial(
            ctx@,
            our_index as nat,
            p@,
            n@,
            counterparty_nonce@,
            message@,
        ),
{
    let our_pubnonce: PubNonce = match first_round_nonce(ctx, seed, our_index, binding) {
        Some(bytes) => PubNonce { bytes },
        None => {
            return Err(SignError::RoundSetup);
        },
    };
    if !first_round_accepts(ctx, seed, our_index, binding, counterparty_index, counterparty_nonce) {
        return Err(SignError::Nonce);
    }
    match second_round_partial(
        ctx,
        seed,
        our_index,
        binding,
        counterparty_index,
        counterparty_nonce,
        &seckey.secret_bytes(),
        message,
    ) {
        Some(bytes) => {
            let partial: PartialSignature = PartialSignature::from_bytes(&bytes).unwrap();
            Ok((partial, our_pubnonce))
        },
        None => Err(SignError::Finalize),
    }
}

/// Produce **our** key-path partial over `message`, given the counterparty's
/// public nonce. Returns our partial and our pubnonce.
pub fn our_key_path_partial(
    ctx: KeyAggContext,
    our_index: usize,
    counterparty_index: usize,
    seckey: SecretKey,
    shachain_root: &[u8; 32],
    height: u64,
    counterparty_nonce: PubNonce,
    message: [u8; 32],
) -> (r: Result<(PartialSignature, PubNonce), SignError>)
    ensures
        partial_result(r) == key_path_partial(
            ctx@,
            our_index as nat,
            counterparty_index as nat,
            seckey@,
            secnonce_seed(shachain_root@, Seq::empty(), height),
            None,
            counterparty_nonce@,
            message@,
        ),
        r matches Ok((p, n)) ==> honest_partial(
            ctx@,
            our_index as nat,
            p@,
            n@,
            counterparty_nonce@,
            message@,
        ),
{
    let seed: [u8; 32] = derive_secnonce_seed(shachain_root, height);
    partial_from_seed(
        &ctx,
        our_index,
        counterparty_index,
        &seckey,
        &seed,
        None,
        &counterparty_nonce,
        &message,
    )
}

/// Counterparty-commitment variant of [`our_key_path_partial`]: the secret nonce is derived from a
/// domain-separated seed ([`COUNTERPARTY_COMMITMENT_NONCE_TAG`]) and bound to the counterparty's nonce and
/// the message, so that no two distinct signing sessions at one height share it. Our pubnonce goes out
/// with the partial, never before it.
///
/// What is proved is that the inputs differ, of the seed and of the nonce; that the nonces then differ rests
/// on the hash functions, and no clause says so.
pub fn our_key_path_partial_counterparty(
    ctx: KeyAggContext,
    our_index: usize,
    counterparty_index: usize,
    seckey: SecretKey,
    shachain_root: &[u8; 32],
    height: u64,
    counterparty_nonce: PubNonce,
    message: [u8; 32],
) -> (r: Result<(PartialSignature, PubNonce), SignError>)
    ensures
        partial_result(r) == key_path_partial(
            ctx@,
            our_index as nat,
            counterparty_index as nat,
            seckey@,
            secnonce_seed(shachain_root@, text(COUNTERPARTY_COMMITMENT_NONCE_TAG), height),
            Some((message@, counterparty_nonce@)),
            counterparty_nonce@,
            message@,
        ),
        r matches Ok((p, n)) ==> honest_partial(
            ctx@,
            our_index as nat,
            p@,
            n@,
            counterparty_nonce@,
            message@,
        ),
{
    let seed: [u8; 32] = derive_secnonce_seed_domain(
        shachain_root,
        height,
        COUNTERPARTY_COMMITMENT_NONCE_TAG.as_bytes(),
    );
    let cp_nonce_bytes: [u8; 66] = counterparty_nonce.serialize();
    partial_from_seed(
        &ctx,
        our_index,
        counterparty_index,
        &seckey,
        &seed,
        Some((&message, &cp_nonce_bytes)),
        &counterparty_nonce,
        &message,
    )
}

/// What stands at each slot once two partial signatures are placed, the second over the first.
pub open spec fn placed_partials(ours: (nat, Seq<u8>), theirs: (nat, Seq<u8>)) -> (Seq<u8>, Seq<u8>) {
    let zero = Seq::new(32, |i: int| 0u8);
    (
        if theirs.0 == 0 {
            theirs.1
        } else if ours.0 == 0 {
            ours.1
        } else {
            zero
        },
        if theirs.0 == 1 {
            theirs.1
        } else if ours.0 == 1 {
            ours.1
        } else {
            zero
        },
    )
}

/// What [`aggregate_key_path_partials`] gives, from each party's slot, nonce and partial signature.
pub open spec fn aggregation(
    ctx: KeyAggContextView,
    message: Seq<u8>,
    ours: (nat, Seq<u8>, Seq<u8>),
    theirs: (nat, Seq<u8>, Seq<u8>),
) -> Result<Seq<u8>, SignError> {
    match musig_signature(
        ctx.lo,
        ctx.hi,
        ours.1,
        theirs.1,
        placed_partials((ours.0, ours.2), (theirs.0, theirs.2)),
        message,
    ) {
        Some(s) => Ok(s),
        None => Err(SignError::Aggregate),
    }
}

/// What a signature holds, or the error in its place.
pub open spec fn signature_result(r: Result<SchnorrSignature, SignError>) -> Result<
    Seq<u8>,
    SignError,
> {
    match r {
        Ok(s) => Ok(s@),
        Err(e) => Err(e),
    }
}

/// Aggregate **our** + the **counterparty's** key-path partials (each with their
/// pubnonce) into the final BIP 340 key-path signature that spends the
/// `0x5120||Q` funding output. A signature that comes out verifies under `Q`; where it would not, that is
/// an error. Which party is called ours makes no difference. Unless the nonces cancel out (see
/// [`final_nonce`]), partials that the two parties made for each other's nonces do aggregate, and a partial
/// that its party's key did not make is an error beside one that was.
pub fn aggregate_key_path_partials(
    ctx: KeyAggContext,
    message: [u8; 32],
    our_index: usize,
    our_pubnonce: PubNonce,
    our_partial: PartialSignature,
    counterparty_index: usize,
    counterparty_pubnonce: PubNonce,
    counterparty_partial: PartialSignature,
) -> (r: Result<SchnorrSignature, SignError>)
    requires
        our_index < 2,
        counterparty_index < 2,
    ensures
        signature_result(r) == aggregation(
            ctx@,
            message@,
            (our_index as nat, our_pubnonce@, our_partial@),
            (counterparty_index as nat, counterparty_pubnonce@, counterparty_partial@),
        ),
        our_index != counterparty_index ==> signature_result(r) == aggregation(
            ctx@,
            message@,
            (counterparty_index as nat, counterparty_pubnonce@, counterparty_partial@),
            (our_index as nat, our_pubnonce@, our_partial@),
        ),
        ({
            &&& r is Ok
            &&& our_index != counterparty_index
            &&& musig_final_nonce(
                ctx@.lo,
                ctx@.hi,
                our_pubnonce@,
                counterparty_pubnonce@,
                message@,
            ) != GENERATOR@
        }) ==> ({
            &&& honest_partial(
                ctx@,
                our_index as nat,
                our_partial@,
                our_pubnonce@,
                counterparty_pubnonce@,
                message@,
            ) ==> only_honest(
                ctx@,
                counterparty_index as nat,
                counterparty_partial@,
                counterparty_pubnonce@,
                our_pubnonce@,
                message@,
            )
            &&& honest_partial(
                ctx@,
                counterparty_index as nat,
                counterparty_partial@,
                counterparty_pubnonce@,
                our_pubnonce@,
                message@,
            ) ==> only_honest(
                ctx@,
                our_index as nat,
                our_partial@,
                our_pubnonce@,
                counterparty_pubnonce@,
                message@,
            )
        }),
        r matches Ok(s) ==> schnorr_verifies(s@, message@, x_only(ctx@.aggregate)) && s@.take(32)
            == x_only(
            musig_final_nonce(
                ctx@.lo,
                ctx@.hi,
                our_pubnonce@,
                counterparty_pubnonce@,
                message@,
            ),
        ),
        ({
            &&& our_index != counterparty_index
            &&& honest_partial(
                ctx@,
                our_index as nat,
                our_partial@,
                our_pubnonce@,
                counterparty_pubnonce@,
                message@,
            )
            &&& honest_partial(
                ctx@,
                counterparty_index as nat,
                counterparty_partial@,
                counterparty_pubnonce@,
                our_pubnonce@,
                message@,
            )
            &&& musig_final_nonce(
                ctx@.lo,
                ctx@.hi,
                our_pubnonce@,
                counterparty_pubnonce@,
                message@,
            ) != GENERATOR@
        }) ==> r is Ok,
{
    let mut first: [u8; 32] = [0u8; 32];
    let mut second: [u8; 32] = [0u8; 32];
    let ghost zero = Seq::new(32, |i: int| 0u8);
    assert(first@ =~= zero && second@ =~= zero);
    proof {
        lemma_zero_is_scalar(zero);
    }
    if our_index == 0 {
        first = our_partial.serialize();
    } else {
        second = our_partial.serialize();
    }
    if counterparty_index == 0 {
        first = counterparty_partial.serialize();
    } else {
        second = counterparty_partial.serialize();
    }
    match aggregate_partials(
        &ctx,
        &our_pubnonce,
        &counterparty_pubnonce,
        (&first, &second),
        &message,
    ) {
        Some(s) => Ok(s),
        None => Err(SignError::Aggregate),
    }
}

proof fn lemma_zero_is_scalar(s: Seq<u8>)
    requires
        s == Seq::new(32, |i: int| 0u8),
    ensures
        valid_scalar(s),
{
    lemma_zeros(s);
}

proof fn lemma_zeros(s: Seq<u8>)
    requires
        forall|i: int| 0 <= i < s.len() ==> s[i] == 0,
    ensures
        crate::bytes::be_nat(s) == 0,
    decreases s.len(),
{
    if s.len() > 0 {
        lemma_zeros(s.drop_last());
    }
}

/// The nonce, compressed, that the signature of a message carries where two parties make it under the given
/// nonces, whichever comes first. It is the generator where the two cancel out: no signature comes of those.
pub fn final_nonce(
    ctx: &KeyAggContext,
    our_pubnonce: &PubNonce,
    counterparty_pubnonce: &PubNonce,
    message: &[u8; 32],
) -> (r: [u8; 33])
    ensures
        r@ == musig_final_nonce(
            ctx@.lo,
            ctx@.hi,
            our_pubnonce@,
            counterparty_pubnonce@,
            message@,
        ),
        r@ == musig_final_nonce(
            ctx@.lo,
            ctx@.hi,
            counterparty_pubnonce@,
            our_pubnonce@,
            message@,
        ),
{
    sum_nonces(ctx, our_pubnonce, counterparty_pubnonce, message)
}

/// Whether a signature of a message verifies under the aggregate key.
pub fn key_path_signature_verifies(
    ctx: &KeyAggContext,
    message: &[u8; 32],
    signature: &SchnorrSignature,
) -> (r: bool)
    ensures
        r == schnorr_verifies(signature@, message@, x_only(ctx@.aggregate)),
{
    verify_schnorr(signature, message, &aggregated_xonly(ctx))
}

/// Both parties build the same context, whichever of the two keys they name first.
pub proof fn context_is_shared(a: Seq<u8>, b: Seq<u8>, mine: Seq<u8>)
    requires
        a.len() == b.len(),
    ensures
        key_sort(a, b) == key_sort(b, a),
        key_slot(a, b, mine) == key_slot(b, a, mine),
        key_agg(a, b, mine) == key_agg(b, a, mine),
{
    lemma_lex_total(a, b);
}

/// The two parties of a channel stand at complementary slots, whatever keys a splice rotates them to.
pub proof fn slots_are_complementary(a: Seq<u8>, b: Seq<u8>)
    requires
        a.len() == b.len(),
        a != b,
    ensures
        key_slot(a, b, a) is Some,
        key_slot(a, b, b) is Some,
        key_slot(a, b, a)->0 + key_slot(a, b, b)->0 == 1,
{
    lemma_lex_total(a, b);
}

} // verus!
