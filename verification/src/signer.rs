//! A channel signer that keeps its keys in memory.
use vstd::prelude::*;

use crate::bytes::{bytes_equal, concat, copy_bytes};
use crate::channel::{
    derive_private_key, derived_secret, ChannelPublicKeys, ChannelTypeFeatures,
    HolderCommitmentTransaction, SignerError,
};
use crate::curve::{
    der, ecdsa_with_noncedata, low_s, point_view, public_of, schnorr, secret_view, sign_ecdsa_with_noncedata,
    sign_schnorr, tweak_add, valid_scalar, valid_secret, PublicKey, Scalar, SchnorrSignature,
    SecretKey, Signature,
};
use crate::entropy::{EntropySource, RandomBytes, RandomBytesView};
use crate::hashes::{sha256, sha256_of};
use crate::script::{
    countersigner_payment_script, get_countersigner_payment_script, get_revokeable_redeemscript,
    get_taproot_to_local_delay_script, get_taproot_to_remote_script,
    get_to_countersigner_keyed_anchor_redeemscript, new_p2pkh, new_p2tr, p2pkh, p2tr, p2wsh,
    push_int, revokeable_redeemscript, taproot_to_local_delay_script, taproot_to_remote_script,
    to_countersigner_anchor_redeemscript, to_p2wsh,
};
use crate::sighash::{
    p2wsh_signature_hash, segwit_sighash, tap_leaf_sighash, taproot_script_spend_signature_hash,
    SIGHASH_ALL,
};
use crate::spend::{
    taproot_channel, taproot_to_local_spend_info, taproot_to_remote_spend_info, to_local_spend,
    to_remote_spend, DelayedPaymentOutputDescriptor, StaticPaymentOutputDescriptor,
};
use crate::taproot::{
    build_taproot_script_path_witness, leaf_hash, tap_leaf_hash, TaprootSpend,
};
use crate::taproot_signer::PubNonce;
use crate::tx::{
    lemma_three_items, lemma_two_items, outputs_view, prefixed_len, rows, same_outpoint,
    witness_size, OutPoint, OutPointView, Transaction, TransactionView, TxOut, TxOutView,
    SEGWIT_MARKER_FLAG_WEIGHT,
};

verus! {

/// The secret key of a channel's funding output, which a splice rotates.
#[derive(Clone, Copy)]
pub struct MaybeTweakedSecretKey(pub SecretKey);

impl MaybeTweakedSecretKey {
    /// The key with a tweak added, if there is one.
    ///
    /// See [`Self::try_with_tweak`] for a tweak of which it is not known that the sum exists.
    pub fn with_tweak(&self, tweak: Option<Scalar>) -> (r: SecretKey)
        requires
            tweak matches Some(t) ==> tweak_add(self.0@, t@) is Some,
        ensures
            match tweak {
                Some(t) => Some(r@) == tweak_add(self.0@, t@),
                None => r@ == self.0@,
            },
    {
        match tweak {
            Some(t) => self.0.add_tweak(&t).unwrap(),
            None => self.0,
        }
    }

    /// [`Self::with_tweak`] where the sum exists.
    pub fn try_with_tweak(&self, tweak: Option<Scalar>) -> (r: Option<SecretKey>)
        ensures
            secret_view(r) == match tweak {
                Some(t) => tweak_add(self.0@, t@),
                None => Some(self.0@),
            },
    {
        if let Some(t) = tweak {
            if self.0.add_tweak(&t).is_none() {
                return None;
            }
        }
        Some(self.with_tweak(tweak))
    }
}

/// The hash that rotates a funding key when a splice spends a funding transaction.
pub open spec fn funding_tweak(base: Seq<u8>, parent_txid: Seq<u8>) -> Seq<u8> {
    sha256(parent_txid + base)
}

/// The funding key of a channel whose current funding transaction, if a splice made it, spent the given
/// one; none where the rotated key does not exist.
pub open spec fn rotated_key(base: Seq<u8>, parent_txid: Option<Seq<u8>>) -> Option<Seq<u8>> {
    match parent_txid {
        None => Some(base),
        Some(txid) => if valid_scalar(funding_tweak(base, txid)) {
            tweak_add(base, funding_tweak(base, txid))
        } else {
            None
        },
    }
}

/// The bytes of a transaction id that may be missing.
pub open spec fn txid_view(t: Option<[u8; 32]>) -> Option<Seq<u8>> {
    match t {
        Some(t) => Some(t@),
        None => None,
    }
}

fn funding_tweak_bytes(base: &SecretKey, parent_txid: &[u8; 32]) -> (r: [u8; 32])
    ensures
        r@ == funding_tweak(base@, parent_txid@),
{
    sha256_of(concat(parent_txid, &base.secret_bytes()).as_slice())
}

/// Computes the tweak to apply to the base funding key of a channel.
///
/// The tweak is computed similar to existing tweaks used in
/// [BOLT-3](https://github.com/lightning/bolts/blob/master/03-transactions.md#key-derivation):
///
/// 1. We use the txid of the funding transaction the splice transaction is spending instead of the
///    `per_commitment_point` to guarantee uniqueness.
/// 2. We include the private key instead of the public key to guarantee only those with knowledge
///    of it can re-derive the new funding key.
///
///   tweak = SHA256(splice_parent_funding_txid || base_funding_secret_key)
///   tweaked_funding_key = base_funding_key + tweak
///
/// See [`try_compute_funding_key_tweak`] for inputs of which it is not known that the hash is a scalar.
pub fn compute_funding_key_tweak(
    base_funding_secret_key: &SecretKey,
    splice_parent_funding_txid: &[u8; 32],
) -> (r: Scalar)
    requires
        valid_scalar(funding_tweak(base_funding_secret_key@, splice_parent_funding_txid@)),
    ensures
        r@ == funding_tweak(base_funding_secret_key@, splice_parent_funding_txid@),
{
    Scalar::from_be_bytes(
        &funding_tweak_bytes(base_funding_secret_key, splice_parent_funding_txid),
    ).unwrap()
}

/// [`compute_funding_key_tweak`] where the hash is a scalar.
pub fn try_compute_funding_key_tweak(
    base_funding_secret_key: &SecretKey,
    splice_parent_funding_txid: &[u8; 32],
) -> (r: Option<Scalar>)
    ensures
        r is Some <==> valid_scalar(
            funding_tweak(base_funding_secret_key@, splice_parent_funding_txid@),
        ),
        r matches Some(t) ==> t@ == funding_tweak(
            base_funding_secret_key@,
            splice_parent_funding_txid@,
        ),
{
    let bytes: [u8; 32] = funding_tweak_bytes(base_funding_secret_key, splice_parent_funding_txid);
    if Scalar::from_be_bytes(&bytes).is_some() {
        Some(compute_funding_key_tweak(base_funding_secret_key, splice_parent_funding_txid))
    } else {
        None
    }
}

/// Whether a bit of a commitment number is set.
pub open spec fn number_bit(idx: u64, bit: nat) -> bool {
    (idx >> (bit as u64)) & 1 == 1
}

/// A byte string with one bit flipped, the lowest bit of the first byte being bit 0.
pub open spec fn flip_bit(s: Seq<u8>, bit: nat) -> Seq<u8> {
    s.update((bit / 8) as int, s[(bit / 8) as int] ^ (1u8 << ((bit % 8) as u8)))
}

/// The secret reached from another by the low `bits` bits of a commitment number, highest first: each
/// set bit is flipped in the secret, which is then hashed.
pub open spec fn commitment_secret_from(secret: Seq<u8>, idx: u64, bits: nat) -> Seq<u8>
    decreases bits,
{
    if bits == 0 {
        secret
    } else {
        let bit = (bits - 1) as nat;
        let next = if number_bit(idx, bit) {
            sha256(flip_bit(secret, bit))
        } else {
            secret
        };
        commitment_secret_from(next, idx, bit)
    }
}

/// The secret of a commitment number.
pub open spec fn commitment_secret(seed: Seq<u8>, idx: u64) -> Seq<u8> {
    commitment_secret_from(seed, idx, 48)
}

/// A commitment number with its low bits cleared.
pub open spec fn cleared(idx: u64, bits: u64) -> u64 {
    (idx >> bits) << bits
}

proof fn lemma_cleared_bits(idx: u64, bits: u64, bit: u64)
    requires
        bits <= 48,
        bit < 48,
    ensures
        bit >= bits ==> number_bit(cleared(idx, bits), bit as nat) == number_bit(idx, bit as nat),
        bit < bits ==> !number_bit(cleared(idx, bits), bit as nat),
{
    if bit >= bits {
        assert((((idx >> bits) << bits) >> bit) & 1 == (idx >> bit) & 1) by (bit_vector)
            requires
                bits <= 48,
                bit < 48,
                bit >= bits,
        ;
    } else {
        assert((((idx >> bits) << bits) >> bit) & 1 == 0) by (bit_vector)
            requires
                bits <= 48,
                bit < bits,
        ;
    }
}

proof fn lemma_cleared_stays(secret: Seq<u8>, idx: u64, bits: u64, n: nat)
    requires
        n <= bits <= 48,
    ensures
        commitment_secret_from(secret, cleared(idx, bits), n) == secret,
    decreases n,
{
    if n > 0 {
        lemma_cleared_bits(idx, bits, (n - 1) as u64);
        lemma_cleared_stays(secret, idx, bits, (n - 1) as nat);
    }
}

proof fn lemma_secret_splits(secret: Seq<u8>, idx: u64, bits: u64, n: nat)
    requires
        bits <= n <= 48,
    ensures
        commitment_secret_from(secret, idx, n) == commitment_secret_from(
            commitment_secret_from(secret, cleared(idx, bits), n),
            idx,
            bits as nat,
        ),
    decreases n,
{
    if n > bits {
        let bit = (n - 1) as nat;
        lemma_cleared_bits(idx, bits, bit as u64);
        let next = if number_bit(idx, bit) {
            sha256(flip_bit(secret, bit))
        } else {
            secret
        };
        lemma_secret_splits(next, idx, bits, bit);
    } else {
        lemma_cleared_stays(secret, idx, bits, n);
    }
}

/// Who knows the secret of a commitment number that ends in zero bits can derive the secret of every number
/// that differs from it in those bits alone: so the secrets that were released, in the order in which they
/// are, can be kept in the room of a few.
pub proof fn released_secrets_give_later_ones(seed: Seq<u8>, idx: u64, bits: u64)
    requires
        bits <= 48,
    ensures
        commitment_secret(seed, idx) == commitment_secret_from(
            commitment_secret(seed, cleared(idx, bits)),
            idx,
            bits as nat,
        ),
{
    lemma_secret_splits(seed, idx, bits, 48);
}

/// The secret of a commitment number, from the seed that all of a channel's secrets are derived from.
pub fn build_commitment_secret(commitment_seed: &[u8; 32], idx: u64) -> (r: [u8; 32])
    ensures
        r@ == commitment_secret(commitment_seed@, idx),
{
    let mut res: [u8; 32] = *commitment_seed;
    let mut bits: u64 = 48;
    while bits > 0
        invariant
            bits <= 48,
            commitment_secret(commitment_seed@, idx) == commitment_secret_from(
                res@,
                idx,
                bits as nat,
            ),
        decreases bits,
    {
        bits -= 1;
        if (idx >> bits) & 1 == 1 {
            let byte: usize = (bits / 8) as usize;
            let mask: u8 = 1u8 << ((bits % 8) as u8);
            let ghost before = res@;
            res[byte] = res[byte] ^ mask;
            assert(res@ =~= flip_bit(before, bits as nat));
            res = sha256_of(&res);
        }
    }
    res
}

/// The late-bound per-channel data the MuSig2 bodies of [`InMemorySigner`] need but their arguments do not
/// carry. Supplied via [`InMemorySigner::provide_taproot_context`].
#[derive(Clone, Copy)]
pub struct TaprootSignerContext {
    /// The counterparty's 33-byte compressed funding pubkey.
    pub counterparty_funding_pubkey: PublicKey,
    /// The channel funding amount in satoshis (committed in the key-path sighash).
    pub funding_value_sat: u64,
    /// The counterparty's current cooperative-close nonce. `None` until `shutdown` is exchanged.
    pub counterparty_closing_nonce: Option<PubNonce>,
    /// The cooperative-close round index (`0` for the first, incremented for every subsequent
    /// fee-negotiation round). The closing secret nonce is derived at the height of the round, so no
    /// two distinct close transactions are signed with the same nonce.
    pub closing_round: u64,
    /// For a spliced funding scope: the transaction the new funding key was rotated from. When set,
    /// the signer derives both its funding key and the key aggregate from the rotated key. The
    /// shared-input splice spend always uses the base key.
    pub splice_parent_funding_txid: Option<[u8; 32]>,
}

/// What an [`InMemorySigner`] holds.
#[verifier::ext_equal]
pub struct SignerView {
    pub funding_key: Seq<u8>,
    pub revocation_base_key: Seq<u8>,
    pub payment_key_v1: Seq<u8>,
    pub payment_key_v2: Seq<u8>,
    pub v2_remote_key_derivation: bool,
    pub delayed_payment_base_key: Seq<u8>,
    pub htlc_base_key: Seq<u8>,
    pub commitment_seed: Seq<u8>,
    pub channel_keys_id: Seq<u8>,
    pub entropy: RandomBytesView,
    pub taproot: Option<TaprootSignerContext>,
}

impl SignerView {
    /// The signer after one draw of random bytes.
    pub open spec fn drawn(self) -> SignerView {
        SignerView { entropy: self.entropy.next(), ..self }
    }

    /// The signer's keys, without its randomness and its taproot context.
    pub open spec fn same_keys(self, other: SignerView) -> bool {
        self == (SignerView { entropy: self.entropy, taproot: self.taproot, ..other })
    }
}

/// A simple channel signer that just keeps the private keys in memory.
///
/// This implementation performs no policy checks and is insufficient by itself as
/// a secure external signer.
pub struct InMemorySigner {
    /// Holder secret key for blinded revocation pubkey.
    pub revocation_base_key: SecretKey,
    /// Holder secret key used in an HTLC transaction.
    pub delayed_payment_base_key: SecretKey,
    /// Holder HTLC secret key used in commitment transaction HTLC outputs.
    pub htlc_base_key: SecretKey,
    /// Commitment seed.
    pub commitment_seed: [u8; 32],
    /// What only the signer itself reads.
    pub sealed: SealedSigner,
}

/// What an [`InMemorySigner`] keeps to itself.
pub struct SealedSigner {
    /// Holder secret key in the 2-of-2 multisig script of a channel. This key also backs the
    /// holder's anchor output in a commitment transaction, if one is present.
    funding_key: MaybeTweakedSecretKey,
    /// Holder secret key used for our balance in counterparty-broadcasted commitment transactions,
    /// old-style derivation.
    payment_key_v1: SecretKey,
    /// Holder secret key used for our balance in counterparty-broadcasted commitment transactions,
    /// new-style derivation.
    payment_key_v2: SecretKey,
    /// Which of the two payment keys to use by default.
    v2_remote_key_derivation: bool,
    /// Key derivation parameters.
    channel_keys_id: [u8; 32],
    /// A source of random bytes.
    entropy_source: RandomBytes,
    /// Late-bound per-channel MuSig2 (simple-taproot) signing context. It is never persisted and no part
    /// of the signer's identity; a clone starts with no context.
    taproot_ctx: Option<TaprootSignerContext>,
}

impl View for InMemorySigner {
    type V = SignerView;

    closed spec fn view(&self) -> SignerView {
        SignerView {
            funding_key: self.sealed.funding_key.0@,
            revocation_base_key: self.revocation_base_key@,
            payment_key_v1: self.sealed.payment_key_v1@,
            payment_key_v2: self.sealed.payment_key_v2@,
            v2_remote_key_derivation: self.sealed.v2_remote_key_derivation,
            delayed_payment_base_key: self.delayed_payment_base_key@,
            htlc_base_key: self.htlc_base_key@,
            commitment_seed: self.commitment_seed@,
            channel_keys_id: self.sealed.channel_keys_id@,
            entropy: self.sealed.entropy_source@,
            taproot: self.sealed.taproot_ctx,
        }
    }
}

/// The public fields of a signer are the keys and the seed that it works with.
pub proof fn public_fields_are_used(s: InMemorySigner)
    ensures
        s@.revocation_base_key == s.revocation_base_key@,
        s@.delayed_payment_base_key == s.delayed_payment_base_key@,
        s@.htlc_base_key == s.htlc_base_key@,
        s@.commitment_seed == s.commitment_seed@,
{
}

fn same_secret(a: &SecretKey, b: &SecretKey) -> (r: bool)
    ensures
        r == (a@ == b@),
{
    bytes_equal(&a.secret_bytes(), &b.secret_bytes())
}

impl PartialEq for InMemorySigner {
    fn eq(&self, other: &Self) -> (r: bool) {
        same_secret(&self.sealed.funding_key.0, &other.sealed.funding_key.0) && same_secret(
            &self.revocation_base_key,
            &other.revocation_base_key,
        ) && same_secret(&self.sealed.payment_key_v1, &other.sealed.payment_key_v1) && same_secret(
            &self.sealed.payment_key_v2,
            &other.sealed.payment_key_v2,
        ) && self.sealed.v2_remote_key_derivation == other.sealed.v2_remote_key_derivation
            && same_secret(
            &self.delayed_payment_base_key,
            &other.delayed_payment_base_key,
        ) && same_secret(&self.htlc_base_key, &other.htlc_base_key) && bytes_equal(
            &self.commitment_seed,
            &other.commitment_seed,
        ) && bytes_equal(&self.sealed.channel_keys_id, &other.sealed.channel_keys_id)
    }
}

impl vstd::std_specs::cmp::PartialEqSpecImpl for InMemorySigner {
    open spec fn obeys_eq_spec() -> bool {
        true
    }

    open spec fn eq_spec(&self, other: &Self) -> bool {
        self@.same_keys(other@)
    }
}

/// Signers are equal where they have the same keys, every one of them, for the same channel; neither randomness
/// nor context enters.
pub proof fn signers_are_equal_by_all_their_keys(a: SignerView, b: SignerView)
    ensures
        a.same_keys(b) <==> {
            &&& a.funding_key == b.funding_key
            &&& a.revocation_base_key == b.revocation_base_key
            &&& a.payment_key_v1 == b.payment_key_v1
            &&& a.payment_key_v2 == b.payment_key_v2
            &&& a.v2_remote_key_derivation == b.v2_remote_key_derivation
            &&& a.delayed_payment_base_key == b.delayed_payment_base_key
            &&& a.htlc_base_key == b.htlc_base_key
            &&& a.commitment_seed == b.commitment_seed
            &&& a.channel_keys_id == b.channel_keys_id
        },
{
}

/// Whether an input that exists has no script signature and spends an output.
pub open spec fn spends_output(tx: TransactionView, index: nat, outpoint: OutPointView) -> bool {
    index < tx.input.len() && tx.input[index as int].script_sig.len() == 0
        && tx.input[index as int].previous_output == outpoint
}

fn input_spends(tx: &Transaction, index: usize, outpoint: &OutPoint) -> (r: bool)
    ensures
        r == spends_output(tx@, index as nat, outpoint@),
{
    if tx.input.len() <= index {
        return false;
    }
    assert(tx@.input[index as int] == tx.input@[index as int]@);
    tx.input[index].script_sig.len() == 0 && same_outpoint(
        &tx.input[index].previous_output,
        outpoint,
    )
}

/// The witness of a script-path spend: a signature over all that the transaction spends, the leaf and
/// its control block; refused where what is spent does not match the inputs.
pub open spec fn leaf_witness(
    tx: TransactionView,
    index: nat,
    prevouts: Seq<TxOutView>,
    leaf: Seq<u8>,
    control_block: Seq<u8>,
    secret: Seq<u8>,
) -> Result<Seq<Seq<u8>>, SignerError> {
    if prevouts.len() != tx.input.len() {
        Err(SignerError::Refused)
    } else {
        Ok(
            seq![
                schnorr(tap_leaf_sighash(tx, index, prevouts, tap_leaf_hash(leaf)), secret),
                leaf,
                control_block,
            ],
        )
    }
}

/// What a witness that may be missing holds.
pub open spec fn witness_result(r: Result<Vec<Vec<u8>>, SignerError>) -> Result<
    Seq<Seq<u8>>,
    SignerError,
> {
    match r {
        Ok(w) => Ok(rows(w@)),
        Err(e) => Err(e),
    }
}

fn sign_leaf(
    tx: &Transaction,
    index: usize,
    prevouts: &[TxOut],
    leaf: &[u8],
    control_block: &[u8],
    secret: &SecretKey,
) -> (r: Result<Vec<Vec<u8>>, SignerError>)
    ensures
        witness_result(r) == leaf_witness(
            tx@,
            index as nat,
            outputs_view(prevouts@),
            leaf@,
            control_block@,
            secret@,
        ),
        r matches Ok(w) ==> w@.len() == 3 && witness_size(rows(w@)) == 1 + 65 + prefixed_len(leaf@.len())
            + prefixed_len(control_block@.len()),
{
    match taproot_script_spend_signature_hash(tx, index, prevouts, &leaf_hash(leaf)) {
        Some(digest) => {
            let sig: SchnorrSignature = sign_schnorr(&digest, secret);
            let w: Vec<Vec<u8>> = build_taproot_script_path_witness(
                &sig.bytes,
                leaf,
                control_block,
            );
            proof {
                lemma_three_items(rows(w@));
            }
            Ok(w)
        },
        None => Err(SignerError::Refused),
    }
}

/// The features of the channel that an output to our payment key came from.
pub open spec fn payment_features(d: StaticPaymentOutputDescriptor) -> ChannelTypeFeatures {
    match d.channel_transaction_parameters {
        Some(p) => p.channel_type_features,
        None => ChannelTypeFeatures {
            static_remote_key: true,
            anchors_zero_fee_htlc_tx: false,
            anchor_zero_fee_commitments: false,
            simple_taproot: false,
        },
    }
}

/// Which of the two payment keys, if any, an output of a channel without taproot outputs pays.
pub open spec fn paid_key(s: SignerView, anchors: bool, script_pubkey: Seq<u8>) -> Option<Seq<u8>> {
    if countersigner_payment_script(anchors, public_of(s.payment_key_v1)) == script_pubkey {
        Some(s.payment_key_v1)
    } else if countersigner_payment_script(anchors, public_of(s.payment_key_v2)) == script_pubkey {
        Some(s.payment_key_v2)
    } else {
        None
    }
}

/// The witness of an input that spends an output to our payment key, as one of two keys is paid.
pub open spec fn payment_witness(
    s: SignerView,
    tx: TransactionView,
    index: nat,
    anchors: bool,
    secret: Seq<u8>,
    value: u64,
) -> Seq<Seq<u8>> {
    let key = public_of(secret);
    let script = if anchors {
        to_countersigner_anchor_redeemscript(key)
    } else {
        p2pkh(key)
    };
    let digest = segwit_sighash(tx, index, script, value, SIGHASH_ALL);
    seq![
        der(ecdsa_with_noncedata(digest, secret, s.entropy.value())).push(SIGHASH_ALL),
        if anchors {
            script
        } else {
            key
        },
    ]
}

/// What [`InMemorySigner::sign_counterparty_payment_input`] gives, and whether it draws randomness.
pub open spec fn payment_input(
    s: SignerView,
    tx: TransactionView,
    index: nat,
    d: StaticPaymentOutputDescriptor,
    prevouts: Seq<TxOutView>,
) -> (Result<Seq<Seq<u8>>, SignerError>, bool) {
    let anchors = payment_features(d).anchors_zero_fee_htlc_tx;
    if !spends_output(tx, index, d.outpoint@) {
        (Err(SignerError::Refused), false)
    } else if payment_features(d).simple_taproot {
        match (
            to_remote_spend(public_of(s.payment_key_v1)),
            to_remote_spend(public_of(s.payment_key_v2)),
        ) {
            (Some((v1, block_v1)), Some((v2, block_v2))) => if p2tr(v1) == d.output.script_pubkey@ {
                (
                    leaf_witness(
                        tx,
                        index,
                        prevouts,
                        taproot_to_remote_script(public_of(s.payment_key_v1)),
                        block_v1,
                        s.payment_key_v1,
                    ),
                    false,
                )
            } else if p2tr(v2) == d.output.script_pubkey@ {
                (
                    leaf_witness(
                        tx,
                        index,
                        prevouts,
                        taproot_to_remote_script(public_of(s.payment_key_v2)),
                        block_v2,
                        s.payment_key_v2,
                    ),
                    false,
                )
            } else {
                (Err(SignerError::Refused), false)
            },
            _ => (Err(SignerError::DegenerateKey), false),
        }
    } else {
        match paid_key(s, anchors, d.output.script_pubkey@) {
            Some(secret) => (
                Ok(payment_witness(s, tx, index, anchors, secret, d.output.value)),
                true,
            ),
            None => (Err(SignerError::Refused), false),
        }
    }
}

/// What [`InMemorySigner::sign_dynamic_p2wsh_input`] gives, and whether it draws randomness.
pub open spec fn delayed_input(
    s: SignerView,
    tx: TransactionView,
    index: nat,
    d: DelayedPaymentOutputDescriptor,
    prevouts: Seq<TxOutView>,
) -> (Result<Seq<Seq<u8>>, SignerError>, bool) {
    if !spends_output(tx, index, d.outpoint@) || tx.input[index as int].sequence
        != d.to_self_delay as u32 {
        (Err(SignerError::Refused), false)
    } else {
        match derived_secret(s.delayed_payment_base_key, d.per_commitment_point@) {
            None => (Err(SignerError::DegenerateKey), false),
            Some(secret) => if taproot_channel(d.channel_transaction_parameters) {
                match to_local_spend(d.revocation_pubkey@, d.to_self_delay, public_of(secret)) {
                    None => (Err(SignerError::DegenerateKey), false),
                    Some((key, block)) => if d.output.script_pubkey@ != p2tr(key) {
                        (Err(SignerError::Refused), false)
                    } else {
                        (
                            leaf_witness(
                                tx,
                                index,
                                prevouts,
                                taproot_to_local_delay_script(d.to_self_delay, public_of(secret)),
                                block,
                                secret,
                            ),
                            false,
                        )
                    },
                }
            } else {
                let script = revokeable_redeemscript(
                    d.revocation_pubkey@,
                    d.to_self_delay,
                    public_of(secret),
                );
                let digest = segwit_sighash(tx, index, script, d.output.value, SIGHASH_ALL);
                if d.output.script_pubkey@ != p2wsh(script) {
                    (Err(SignerError::Refused), true)
                } else {
                    (
                        Ok(
                            seq![
                                der(
                                    ecdsa_with_noncedata(digest, secret, s.entropy.value()),
                                ).push(SIGHASH_ALL),
                                Seq::empty(),
                                script,
                            ],
                        ),
                        true,
                    )
                }
            },
        }
    }
}

/// The most bytes that the witness of an input to our payment key takes.
pub open spec fn payment_witness_limit(d: StaticPaymentOutputDescriptor) -> nat {
    if taproot_channel(d.channel_transaction_parameters) {
        1 + 65 + (1 + 36) + (1 + 33)
    } else {
        d.legacy_witness_length() as nat
    }
}

/// The most bytes that the witness of an input to our delayed key takes.
pub open spec fn delayed_witness_limit(d: DelayedPaymentOutputDescriptor) -> nat {
    if taproot_channel(d.channel_transaction_parameters) {
        1 + 65 + (1 + 35 + push_int(d.to_self_delay as nat).len()) + 66
    } else {
        DelayedPaymentOutputDescriptor::MAX_WITNESS_LENGTH as nat
    }
}

/// On a taproot channel the weight that is estimated for the witness of an output to our delayed key is that
/// of every witness that is signed for it, and of the transaction's marker and flag. On other channels it is
/// the most such a witness takes.
pub proof fn delayed_estimate_is_exact(d: DelayedPaymentOutputDescriptor)
    requires
        d.witness_weight() is Some,
    ensures
        d.witness_weight()->0 == delayed_witness_limit(d) + if taproot_channel(
            d.channel_transaction_parameters,
        ) {
            SEGWIT_MARKER_FLAG_WEIGHT as nat
        } else {
            0
        },
{
}

/// On a taproot channel the weight that is estimated for the witness of an output to our payment key is that
/// of every witness that is signed for it, and of the transaction's marker and flag. On other channels it is
/// the most such a witness takes.
pub proof fn payment_estimate_is_exact(d: StaticPaymentOutputDescriptor)
    requires
        d.witness_weight() is Some,
    ensures
        d.witness_weight()->0 == payment_witness_limit(d) + if taproot_channel(
            d.channel_transaction_parameters,
        ) {
            SEGWIT_MARKER_FLAG_WEIGHT as nat
        } else {
            0
        },
{
}

impl EntropySource for InMemorySigner {
    fn get_secure_random_bytes(&mut self) -> (r: [u8; 32])
        ensures
            r@ == old(self)@.entropy.value(),
            final(self)@ == old(self)@.drawn(),
    {
        self.sealed.entropy_source.get_secure_random_bytes()
    }
}

impl InMemorySigner {
    /// Creates a signer from its keys; `rand_bytes_unique_start` seeds its randomness.
    pub fn new(
        funding_key: SecretKey,
        revocation_base_key: SecretKey,
        payment_key_v1: SecretKey,
        payment_key_v2: SecretKey,
        v2_remote_key_derivation: bool,
        delayed_payment_base_key: SecretKey,
        htlc_base_key: SecretKey,
        commitment_seed: [u8; 32],
        channel_keys_id: [u8; 32],
        rand_bytes_unique_start: [u8; 32],
    ) -> (r: InMemorySigner)
        ensures
            r@ == (SignerView {
                funding_key: funding_key@,
                revocation_base_key: revocation_base_key@,
                payment_key_v1: payment_key_v1@,
                payment_key_v2: payment_key_v2@,
                v2_remote_key_derivation,
                delayed_payment_base_key: delayed_payment_base_key@,
                htlc_base_key: htlc_base_key@,
                commitment_seed: commitment_seed@,
                channel_keys_id: channel_keys_id@,
                entropy: RandomBytesView { seed: rand_bytes_unique_start@, index: 0 },
                taproot: None,
            }),
    {
        InMemorySigner {
            revocation_base_key,
            delayed_payment_base_key,
            htlc_base_key,
            commitment_seed,
            sealed: SealedSigner {
                funding_key: MaybeTweakedSecretKey(funding_key),
                payment_key_v1,
                payment_key_v2,
                v2_remote_key_derivation,
                channel_keys_id,
                entropy_source: RandomBytes::new(rand_bytes_unique_start),
                taproot_ctx: None,
            },
        }
    }

    /// A signer with the same keys, randomness of its own, and no taproot context. Its randomness is
    /// seeded by a draw from this signer's.
    pub fn clone(&mut self) -> (r: InMemorySigner)
        ensures
            r@ == (SignerView {
                entropy: RandomBytesView { seed: old(self)@.entropy.value(), index: 0 },
                taproot: None,
                ..old(self)@
            }),
            final(self)@ == old(self)@.drawn(),
    {
        let seed: [u8; 32] = self.get_secure_random_bytes();
        InMemorySigner {
            revocation_base_key: self.revocation_base_key,
            delayed_payment_base_key: self.delayed_payment_base_key,
            htlc_base_key: self.htlc_base_key,
            commitment_seed: self.commitment_seed,
            sealed: SealedSigner {
                funding_key: self.sealed.funding_key,
                payment_key_v1: self.sealed.payment_key_v1,
                payment_key_v2: self.sealed.payment_key_v2,
                v2_remote_key_derivation: self.sealed.v2_remote_key_derivation,
                channel_keys_id: self.sealed.channel_keys_id,
                entropy_source: RandomBytes::new(seed),
                taproot_ctx: None,
            },
        }
    }

    /// Holder secret key in the 2-of-2 multisig script of a channel. This key also backs the
    /// holder's anchor output in a commitment transaction, if one is present.
    ///
    /// See [`Self::try_funding_key`] for a transaction of which it is not known that the rotated key
    /// exists.
    pub fn funding_key(&self, splice_parent_funding_txid: Option<[u8; 32]>) -> (r: SecretKey)
        requires
            rotated_key(self@.funding_key, txid_view(splice_parent_funding_txid)) is Some,
        ensures
            Some(r@) == rotated_key(self@.funding_key, txid_view(splice_parent_funding_txid)),
    {
        match splice_parent_funding_txid {
            Some(txid) => self.sealed.funding_key.with_tweak(
                Some(compute_funding_key_tweak(&self.sealed.funding_key.with_tweak(None), &txid)),
            ),
            None => self.sealed.funding_key.with_tweak(None),
        }
    }

    /// [`Self::funding_key`] where the rotated key exists.
    pub fn try_funding_key(&self, splice_parent_funding_txid: Option<[u8; 32]>) -> (r: Option<
        SecretKey,
    >)
        ensures
            secret_view(r) == rotated_key(
                self@.funding_key,
                txid_view(splice_parent_funding_txid),
            ),
    {
        if let Some(txid) = splice_parent_funding_txid {
            match try_compute_funding_key_tweak(&self.sealed.funding_key.0, &txid) {
                Some(tweak) => {
                    if self.sealed.funding_key.try_with_tweak(Some(tweak)).is_none() {
                        return None;
                    }
                },
                None => {
                    return None;
                },
            }
        }
        Some(self.funding_key(splice_parent_funding_txid))
    }

    /// Supply the late-bound per-channel taproot (MuSig2) signing context. Re-supplying a different one
    /// replaces it.
    pub fn provide_taproot_context(&mut self, ctx: TaprootSignerContext)
        ensures
            final(self)@ == (SignerView { taproot: Some(ctx), ..old(self)@ }),
    {
        self.sealed.taproot_ctx = Some(ctx);
    }

    /// Signs a digest with a key, mixing a draw of random bytes into the nonce.
    pub(crate) fn sign_with_aux_rand(&mut self, digest: &[u8; 32], key: &SecretKey) -> (r: Signature)
        ensures
            r@ == ecdsa_with_noncedata(digest@, key@, old(self)@.entropy.value()),
            low_s(r@),
            final(self)@ == old(self)@.drawn(),
    {
        let aux: [u8; 32] = self.get_secure_random_bytes();
        sign_ecdsa_with_noncedata(digest, key, &aux)
    }

    /// Sign the single input of `spend_tx` at index `input_idx`, which spends the output described
    /// by `descriptor`, returning the witness stack for the input.
    ///
    /// Returns an error if the input at `input_idx` does not exist, has a non-empty `script_sig`,
    /// is not spending the outpoint described by `descriptor.outpoint`,
    /// or if an output descriptor `script_pubkey` does not match the one we can spend.
    pub fn sign_counterparty_payment_input(
        &mut self,
        spend_tx: &Transaction,
        input_idx: usize,
        descriptor: &StaticPaymentOutputDescriptor,
        all_prevouts: &[TxOut],
    ) -> (r: Result<Vec<Vec<u8>>, SignerError>)
        ensures
            ({
                let (result, draws) = payment_input(
                    old(self)@,
                    spend_tx@,
                    input_idx as nat,
                    *descriptor,
                    outputs_view(all_prevouts@),
                );
                &&& witness_result(r) == result
                &&& final(self)@ == if draws {
                    old(self)@.drawn()
                } else {
                    old(self)@
                }
            }),
            r matches Ok(w) ==> w@.len() > 0 && witness_size(rows(w@)) <= payment_witness_limit(
                *descriptor,
            ),
            r matches Ok(w) ==> (taproot_channel(descriptor.channel_transaction_parameters)
                ==> witness_size(rows(w@)) == payment_witness_limit(*descriptor)),
            r matches Ok(w) ==> (descriptor.witness_weight() matches Some(m) ==> witness_size(
                rows(w@),
            ) <= m && (taproot_channel(descriptor.channel_transaction_parameters) ==> m
                == witness_size(rows(w@)) + SEGWIT_MARKER_FLAG_WEIGHT)),
    {
        if !input_spends(spend_tx, input_idx, &descriptor.outpoint) {
            return Err(SignerError::Refused);
        }
        let features: ChannelTypeFeatures = match &descriptor.channel_transaction_parameters {
            Some(p) => p.channel_type_features,
            None => ChannelTypeFeatures::only_static_remote_key(),
        };
        let script_pubkey: &[u8] = descriptor.output.script_pubkey.as_slice();
        let payment_point_v1: PublicKey = self.sealed.payment_key_v1.public_key();
        let payment_point_v2: PublicKey = self.sealed.payment_key_v2.public_key();
        if features.simple_taproot {
            let (spend_v1, spend_v2): (TaprootSpend, TaprootSpend) = match (
                taproot_to_remote_spend_info(&payment_point_v1),
                taproot_to_remote_spend_info(&payment_point_v2),
            ) {
                (Some(a), Some(b)) => (a, b),
                _ => {
                    return Err(SignerError::DegenerateKey);
                },
            };
            let (key, spend, secret): (PublicKey, TaprootSpend, SecretKey) = if bytes_equal(
                new_p2tr(&spend_v1.output_key).as_slice(),
                script_pubkey,
            ) {
                (payment_point_v1, spend_v1, self.sealed.payment_key_v1)
            } else if bytes_equal(new_p2tr(&spend_v2.output_key).as_slice(), script_pubkey) {
                (payment_point_v2, spend_v2, self.sealed.payment_key_v2)
            } else {
                return Err(SignerError::Refused);
            };
            let leaf: Vec<u8> = get_taproot_to_remote_script(&key);
            return sign_leaf(
                spend_tx,
                input_idx,
                all_prevouts,
                leaf.as_slice(),
                spend.control_block.as_slice(),
                &secret,
            );
        }
        let anchors: bool = features.anchors_zero_fee_htlc_tx;
        let spk_v1: Vec<u8> = get_countersigner_payment_script(anchors, &payment_point_v1);
        let spk_v2: Vec<u8> = get_countersigner_payment_script(anchors, &payment_point_v2);
        let (key, secret): (PublicKey, SecretKey) = if bytes_equal(
            spk_v1.as_slice(),
            script_pubkey,
        ) {
            (payment_point_v1, self.sealed.payment_key_v1)
        } else if bytes_equal(spk_v2.as_slice(), script_pubkey) {
            (payment_point_v2, self.sealed.payment_key_v2)
        } else {
            return Err(SignerError::Refused);
        };
        let witness_script: Vec<u8> = if anchors {
            get_to_countersigner_keyed_anchor_redeemscript(&key)
        } else {
            new_p2pkh(&key)
        };
        let digest: [u8; 32] = p2wsh_signature_hash(
            spend_tx,
            input_idx,
            witness_script.as_slice(),
            descriptor.output.value,
            SIGHASH_ALL,
        ).unwrap();
        let ghost before = self@;
        let mut signature: Vec<u8> = self.sign_with_aux_rand(&digest, &secret).serialize_der();
        signature.push(SIGHASH_ALL);
        let mut witness: Vec<Vec<u8>> = Vec::new();
        witness.push(signature);
        witness.push(
            if anchors {
                witness_script
            } else {
                copy_bytes(&key.serialize())
            },
        );
        proof {
            assert(rows(witness@) =~= payment_witness(
                before,
                spend_tx@,
                input_idx as nat,
                anchors,
                secret@,
                descriptor.output.value,
            ));
            lemma_two_items(rows(witness@));
        }
        Ok(witness)
    }

    /// Sign the single input of `spend_tx` at index `input_idx` which spends the output
    /// described by `descriptor`, returning the witness stack for the input.
    ///
    /// Returns an error if the input at `input_idx` does not exist, has a non-empty `script_sig`,
    /// is not spending the outpoint described by `descriptor.outpoint`, does not have a
    /// sequence set to `descriptor.to_self_delay`, or if an output descriptor
    /// `script_pubkey` does not match the one we can spend.
    pub fn sign_dynamic_p2wsh_input(
        &mut self,
        spend_tx: &Transaction,
        input_idx: usize,
        descriptor: &DelayedPaymentOutputDescriptor,
        all_prevouts: &[TxOut],
    ) -> (r: Result<Vec<Vec<u8>>, SignerError>)
        ensures
            ({
                let (result, draws) = delayed_input(
                    old(self)@,
                    spend_tx@,
                    input_idx as nat,
                    *descriptor,
                    outputs_view(all_prevouts@),
                );
                &&& witness_result(r) == result
                &&& final(self)@ == if draws {
                    old(self)@.drawn()
                } else {
                    old(self)@
                }
            }),
            r matches Ok(w) ==> w@.len() > 0 && witness_size(rows(w@)) <= delayed_witness_limit(
                *descriptor,
            ),
            r matches Ok(w) ==> (taproot_channel(descriptor.channel_transaction_parameters)
                ==> witness_size(rows(w@)) == delayed_witness_limit(*descriptor)),
            r matches Ok(w) ==> (descriptor.witness_weight() matches Some(m) ==> witness_size(
                rows(w@),
            ) <= m && (taproot_channel(descriptor.channel_transaction_parameters) ==> m
                == witness_size(rows(w@)) + SEGWIT_MARKER_FLAG_WEIGHT)),
    {
        if !input_spends(spend_tx, input_idx, &descriptor.outpoint) {
            return Err(SignerError::Refused);
        }
        assert(spend_tx@.input[input_idx as int] == spend_tx.input@[input_idx as int]@);
        if spend_tx.input[input_idx].sequence != descriptor.to_self_delay as u32 {
            return Err(SignerError::Refused);
        }
        let secret: SecretKey = match derive_private_key(
            &descriptor.per_commitment_point,
            &self.delayed_payment_base_key(),
        ) {
            Some(k) => k,
            None => {
                return Err(SignerError::DegenerateKey);
            },
        };
        let key: PublicKey = secret.public_key();
        let script_pubkey: &[u8] = descriptor.output.script_pubkey.as_slice();
        if descriptor.is_taproot() {
            let leaf: Vec<u8> = get_taproot_to_local_delay_script(descriptor.to_self_delay, &key);
            let spend: TaprootSpend = match taproot_to_local_spend_info(
                &descriptor.revocation_pubkey,
                descriptor.to_self_delay,
                &key,
            ) {
                Some(s) => s,
                None => {
                    return Err(SignerError::DegenerateKey);
                },
            };
            if !bytes_equal(script_pubkey, new_p2tr(&spend.output_key).as_slice()) {
                return Err(SignerError::Refused);
            }
            return sign_leaf(
                spend_tx,
                input_idx,
                all_prevouts,
                leaf.as_slice(),
                spend.control_block.as_slice(),
                &secret,
            );
        }
        let witness_script: Vec<u8> = get_revokeable_redeemscript(
            &descriptor.revocation_pubkey,
            descriptor.to_self_delay,
            &key,
        );
        let digest: [u8; 32] = p2wsh_signature_hash(
            spend_tx,
            input_idx,
            witness_script.as_slice(),
            descriptor.output.value,
            SIGHASH_ALL,
        ).unwrap();
        let mut signature: Vec<u8> = self.sign_with_aux_rand(&digest, &secret).serialize_der();
        signature.push(SIGHASH_ALL);
        if !bytes_equal(script_pubkey, to_p2wsh(witness_script.as_slice()).as_slice()) {
            return Err(SignerError::Refused);
        }
        let ghost sig = signature@;
        let ghost script = witness_script@;
        let mut witness: Vec<Vec<u8>> = Vec::new();
        witness.push(signature);
        witness.push(Vec::new());
        witness.push(witness_script);
        proof {
            assert(rows(witness@) =~= seq![sig, Seq::empty(), script]);
            lemma_three_items(rows(witness@));
        }
        Ok(witness)
    }
}

impl InMemorySigner {
    pub(crate) fn revocation_base_key(&self) -> (r: SecretKey)
        ensures
            r@ == self@.revocation_base_key,
    {
        self.revocation_base_key
    }

    pub(crate) fn delayed_payment_base_key(&self) -> (r: SecretKey)
        ensures
            r@ == self@.delayed_payment_base_key,
    {
        self.delayed_payment_base_key
    }

    pub(crate) fn htlc_base_key(&self) -> (r: SecretKey)
        ensures
            r@ == self@.htlc_base_key,
    {
        self.htlc_base_key
    }

    pub(crate) fn commitment_seed(&self) -> (r: [u8; 32])
        ensures
            r@ == self@.commitment_seed,
    {
        self.commitment_seed
    }

    pub(crate) fn taproot_context(&self) -> (r: Option<TaprootSignerContext>)
        ensures
            r == self@.taproot,
    {
        self.sealed.taproot_ctx
    }
}

/// A trait to handle Lightning channel key material without concretizing the channel type or
/// the signature mechanism.
pub trait ChannelSigner {
    /// Gets the per-commitment point for a specific commitment number
    ///
    /// Note that the commitment number starts at `(1 << 48) - 1` and counts backwards.
    fn get_per_commitment_point(&self, idx: u64) -> Result<PublicKey, SignerError>;

    /// Gets the commitment secret for a specific commitment number as part of the revocation process
    ///
    /// An external signer implementation should error here if the commitment was already signed
    /// and should refuse to sign it in the future.
    ///
    /// May be called more than once for the same index.
    ///
    /// Note that the commitment number starts at `(1 << 48) - 1` and counts backwards.
    fn release_commitment_secret(&self, idx: u64) -> Result<[u8; 32], SignerError>;

    /// Validate the counterparty's signatures on the holder commitment transaction and HTLCs.
    ///
    /// The preimages of outbound HTLCs that were fulfilled since the last commitment are provided.
    /// A validating signer should ensure that an HTLC output is removed only when the matching
    /// preimage is provided, or when the value to holder is restored.
    fn validate_holder_commitment(
        &self,
        holder_tx: &HolderCommitmentTransaction,
        outbound_htlc_preimages: Vec<[u8; 32]>,
    ) -> Result<(), SignerError>;

    /// Validate the counterparty's revocation.
    ///
    /// This is required in order for the signer to make sure that the state has moved
    /// forward and it is safe to sign the next counterparty commitment.
    fn validate_counterparty_revocation(&self, idx: u64, secret: &SecretKey) -> Result<
        (),
        SignerError,
    >;

    /// Returns the holder channel public keys and basepoints.
    fn pubkeys(&self) -> ChannelPublicKeys;

    /// Returns a new funding pubkey (i.e. our public which is used in a 2-of-2 with the
    /// counterparty's key to to lock the funds on-chain) for a spliced channel, where it exists.
    ///
    /// `splice_parent_funding_txid` can be used to compute a tweak with which to rotate the base
    /// key.
    fn new_funding_pubkey(&self, splice_parent_funding_txid: [u8; 32]) -> Option<PublicKey>;

    /// Returns an arbitrary identifier describing the set of keys which are provided back to you in
    /// some spendable output descriptors. This should be sufficient to identify this signer uniquely
    /// and lookup or re-derive its keys.
    fn channel_keys_id(&self) -> [u8; 32];
}

impl ChannelSigner for InMemorySigner {
    fn get_per_commitment_point(&self, idx: u64) -> (r: Result<PublicKey, SignerError>)
        ensures
            ({
                let secret = commitment_secret(self@.commitment_seed, idx);
                if valid_secret(secret) {
                    r is Ok && (r->Ok_0)@ == public_of(secret)
                } else {
                    r == Err::<PublicKey, SignerError>(SignerError::DegenerateKey)
                }
            }),
    {
        match SecretKey::from_bytes(&build_commitment_secret(&self.commitment_seed, idx)) {
            Some(secret) => Ok(secret.public_key()),
            None => Err(SignerError::DegenerateKey),
        }
    }

    fn release_commitment_secret(&self, idx: u64) -> (r: Result<[u8; 32], SignerError>)
        ensures
            r is Ok,
            (r->Ok_0)@ == commitment_secret(self@.commitment_seed, idx),
    {
        Ok(build_commitment_secret(&self.commitment_seed, idx))
    }

    fn validate_holder_commitment(
        &self,
        holder_tx: &HolderCommitmentTransaction,
        outbound_htlc_preimages: Vec<[u8; 32]>,
    ) -> (r: Result<(), SignerError>)
        ensures
            r is Ok,
    {
        Ok(())
    }

    fn validate_counterparty_revocation(&self, idx: u64, secret: &SecretKey) -> (r: Result<
        (),
        SignerError,
    >)
        ensures
            r is Ok,
    {
        Ok(())
    }

    fn pubkeys(&self) -> (r: ChannelPublicKeys)
        ensures
            r.funding_pubkey@ == public_of(self@.funding_key),
            r.revocation_basepoint@ == public_of(self@.revocation_base_key),
            r.payment_point@ == public_of(
                if self@.v2_remote_key_derivation {
                    self@.payment_key_v2
                } else {
                    self@.payment_key_v1
                },
            ),
            r.delayed_payment_basepoint@ == public_of(self@.delayed_payment_base_key),
            r.htlc_basepoint@ == public_of(self@.htlc_base_key),
    {
        let payment_key: &SecretKey = if self.sealed.v2_remote_key_derivation {
            &self.sealed.payment_key_v2
        } else {
            &self.sealed.payment_key_v1
        };
        ChannelPublicKeys {
            funding_pubkey: self.sealed.funding_key.0.public_key(),
            revocation_basepoint: self.revocation_base_key.public_key(),
            payment_point: payment_key.public_key(),
            delayed_payment_basepoint: self.delayed_payment_base_key.public_key(),
            htlc_basepoint: self.htlc_base_key.public_key(),
        }
    }

    fn new_funding_pubkey(&self, splice_parent_funding_txid: [u8; 32]) -> (r: Option<PublicKey>)
        ensures
            point_view(r) == match rotated_key(
                self@.funding_key,
                Some(splice_parent_funding_txid@),
            ) {
                Some(key) => Some(public_of(key)),
                None => None,
            },
    {
        match self.try_funding_key(Some(splice_parent_funding_txid)) {
            Some(key) => Some(key.public_key()),
            None => None,
        }
    }

    fn channel_keys_id(&self) -> (r: [u8; 32])
        ensures
            r@ == self@.channel_keys_id,
    {
        self.sealed.channel_keys_id
    }
}

} // verus!
