//! What a signer knows of a channel: its type, both parties' keys, its HTLCs and transactions, and how
//! the keys of one commitment follow from the channel's.
use vstd::prelude::*;

use crate::bytes::{concat, copy_bytes};
use crate::curve::{
    point_product, point_sum, point_view, public_of, secret_view, tweak_add, tweak_mul, valid_scalar,
    valid_secret, PublicKey, Scalar, SecretKey, Signature,
};
use crate::hashes::{sha256, sha256_of};
use crate::script::{
    get_offered_htlc_script, get_received_htlc_script, get_revokeable_redeemscript,
    offered_htlc_script, p2wsh, received_htlc_script, revokeable_redeemscript, to_p2wsh,
};
use crate::taproot::opt_bytes;
use crate::tx::{
    BitcoinOutPoint, OutPoint, OutPointView, Transaction, TransactionView, TxIn, TxInView, TxOut,
    TxOutView,
};

verus! {

/// The value of an anchor output.
pub const ANCHOR_OUTPUT_VALUE_SATOSHI: u64 = 330;

/// Why a signer gave no signature.
#[derive(Clone, Copy, Debug, PartialEq, Eq, Structural)]
pub enum SignerError {
    /// The request does not fit what the signer can sign.
    Refused,
    /// A derived key is not a key: a hash fell outside the group order, or a sum on its zero. No such
    /// input is known.
    DegenerateKey,
}

/// The features of a channel's type that a signer acts on.
#[derive(Clone, Copy, Debug, Hash, PartialEq, Eq)]
pub struct ChannelTypeFeatures {
    /// Our balance in the counterparty's commitments pays a key that does not change.
    pub static_remote_key: bool,
    /// Commitments have anchor outputs, and second-level HTLC transactions pay no fee.
    pub anchors_zero_fee_htlc_tx: bool,
    /// Commitments pay no fee themselves, and are bumped by a shared anchor.
    pub anchor_zero_fee_commitments: bool,
    /// The funding output and the outputs of commitments are taproot outputs.
    pub simple_taproot: bool,
}

/// One party's public keys and basepoints.
#[derive(Clone, Copy, Debug, Hash, PartialEq, Eq)]
pub struct ChannelPublicKeys {
    /// The key of the 2-of-2 that locks the channel's funds.
    pub funding_pubkey: PublicKey,
    /// The base of the keys by which revoked outputs of the other party are claimed.
    pub revocation_basepoint: PublicKey,
    /// The key that the party's balance pays in commitments that the other party broadcasts.
    pub payment_point: PublicKey,
    /// The base of the keys that the party's balance pays, after a delay, in its own commitments.
    pub delayed_payment_basepoint: PublicKey,
    /// The base of the keys by which HTLC outputs are claimed.
    pub htlc_basepoint: PublicKey,
}

/// The counterparty's part of a channel's parameters.
#[derive(Clone, Copy, Debug, Hash, PartialEq, Eq)]
pub struct CounterpartyChannelTransactionParameters {
    /// The counterparty's keys and basepoints.
    pub pubkeys: ChannelPublicKeys,
    /// The delay that the counterparty selected for our balance in commitments we broadcast.
    pub selected_contest_delay: u16,
}

/// The parameters from which a channel's transactions are built.
#[derive(Clone, Copy, Debug, Hash, PartialEq, Eq)]
pub struct ChannelTransactionParameters {
    /// Our keys and basepoints.
    pub holder_pubkeys: ChannelPublicKeys,
    /// The delay that we selected for the counterparty's balance in commitments it broadcasts.
    pub holder_selected_contest_delay: u16,
    /// Whether we opened the channel.
    pub is_outbound_from_holder: bool,
    /// The counterparty's part, once it is known.
    pub counterparty_parameters: Option<CounterpartyChannelTransactionParameters>,
    /// The funding output, once it is known.
    pub funding_outpoint: Option<OutPoint>,
    /// The funding transaction that the current one, where a splice made it, spends.
    pub splice_parent_funding_txid: Option<[u8; 32]>,
    /// The channel's type.
    pub channel_type_features: ChannelTypeFeatures,
    /// The value of the funding output.
    pub channel_value_satoshis: u64,
}

/// An HTLC as it appears in a commitment transaction.
#[derive(Clone, Copy, Debug, PartialEq, Eq)]
pub struct HTLCOutputInCommitment {
    /// Whether the commitment's broadcaster offered the HTLC, rather than received it.
    pub offered: bool,
    /// The HTLC's value in thousandths of a satoshi.
    pub amount_msat: u64,
    /// The block height at which the HTLC expires.
    pub cltv_expiry: u32,
    /// The hash whose preimage claims the HTLC.
    pub payment_hash: [u8; 32],
    /// The index of the HTLC's output, where it has one.
    pub transaction_output_index: Option<u32>,
}

/// The keys of one commitment transaction.
#[derive(Clone, Copy, Debug, PartialEq, Eq)]
pub struct TxCreationKeys {
    /// The point that ties the other keys to the commitment.
    pub per_commitment_point: PublicKey,
    /// The key by which the other party claims the broadcaster's outputs once they are revoked.
    pub revocation_key: PublicKey,
    /// The broadcaster's key in HTLC outputs.
    pub broadcaster_htlc_key: PublicKey,
    /// The other party's key in HTLC outputs.
    pub countersignatory_htlc_key: PublicKey,
    /// The key that the broadcaster's balance pays after a delay.
    pub broadcaster_delayed_payment_key: PublicKey,
}

/// A transaction with its id.
#[derive(Clone, Debug, PartialEq, Eq)]
pub struct BuiltCommitmentTransaction {
    pub transaction: Transaction,
    pub txid: [u8; 32],
}

/// A commitment transaction with what it was built from.
#[derive(Clone, Debug, PartialEq, Eq)]
pub struct CommitmentTransaction {
    /// The number of the commitment, which counts down.
    pub commitment_number: u64,
    /// The feerate that was negotiated, in satoshis per 1000 weight units.
    pub feerate_per_kw: u32,
    /// The HTLCs that have an output.
    pub nondust_htlcs: Vec<HTLCOutputInCommitment>,
    /// The commitment's keys.
    pub keys: TxCreationKeys,
    /// The transaction itself.
    pub built: BuiltCommitmentTransaction,
}

/// A commitment transaction that the holder can broadcast, with the counterparty's signatures.
#[derive(Clone, Debug, PartialEq, Eq)]
pub struct HolderCommitmentTransaction {
    pub inner: CommitmentTransaction,
    pub counterparty_sig: Signature,
    pub counterparty_htlc_sigs: Vec<Signature>,
}

/// A cooperative-close transaction.
#[derive(Clone, Debug, PartialEq, Eq)]
pub struct ClosingTransaction {
    pub built: Transaction,
}

/// The hash that ties a basepoint to a commitment.
pub open spec fn commitment_tweak(point: Seq<u8>, base: Seq<u8>) -> Seq<u8> {
    sha256(point + base)
}

/// The key of a basepoint at a commitment: `base + SHA256(point || base) * G`.
pub open spec fn derived_public(base: Seq<u8>, point: Seq<u8>) -> Option<Seq<u8>> {
    let tweak = commitment_tweak(point, base);
    if valid_secret(tweak) {
        point_sum(base, public_of(tweak))
    } else {
        None
    }
}

/// The secret key of a base secret at a commitment: `base + SHA256(point || base * G)`.
pub open spec fn derived_secret(base: Seq<u8>, point: Seq<u8>) -> Option<Seq<u8>> {
    let tweak = commitment_tweak(point, public_of(base));
    if valid_scalar(tweak) {
        tweak_add(base, tweak)
    } else {
        None
    }
}

/// The revocation key of a basepoint at a commitment:
/// `SHA256(base || point) * base + SHA256(point || base) * point`.
pub open spec fn revocation_public(base: Seq<u8>, point: Seq<u8>) -> Option<Seq<u8>> {
    let own = sha256(base + point);
    let other = sha256(point + base);
    if valid_secret(own) && valid_secret(other) {
        point_sum(point_product(base, own), point_product(point, other))
    } else {
        None
    }
}

/// The revocation secret of a base secret at a commitment whose secret is known.
pub open spec fn revocation_secret(base: Seq<u8>, commitment_secret: Seq<u8>) -> Option<Seq<u8>> {
    let own = sha256(public_of(base) + public_of(commitment_secret));
    let other = sha256(public_of(commitment_secret) + public_of(base));
    if valid_secret(own) && valid_secret(other) {
        tweak_add(tweak_mul(base, own)->0, tweak_mul(commitment_secret, other)->0)
    } else {
        None
    }
}

/// The keys of one commitment as byte strings.
pub struct TxKeysView {
    pub per_commitment_point: Seq<u8>,
    pub revocation_key: Seq<u8>,
    pub broadcaster_htlc_key: Seq<u8>,
    pub countersignatory_htlc_key: Seq<u8>,
    pub broadcaster_delayed_payment_key: Seq<u8>,
}

impl View for TxCreationKeys {
    type V = TxKeysView;

    open spec fn view(&self) -> TxKeysView {
        TxKeysView {
            per_commitment_point: self.per_commitment_point@,
            revocation_key: self.revocation_key@,
            broadcaster_htlc_key: self.broadcaster_htlc_key@,
            countersignatory_htlc_key: self.countersignatory_htlc_key@,
            broadcaster_delayed_payment_key: self.broadcaster_delayed_payment_key@,
        }
    }
}

/// The keys of a commitment that one party broadcasts and the other countersigns, where all exist.
pub open spec fn commitment_keys(
    point: Seq<u8>,
    broadcaster: ChannelPublicKeys,
    countersignatory: ChannelPublicKeys,
) -> Option<TxKeysView> {
    let revocation = revocation_public(countersignatory.revocation_basepoint@, point);
    let broadcaster_htlc = derived_public(broadcaster.htlc_basepoint@, point);
    let countersignatory_htlc = derived_public(countersignatory.htlc_basepoint@, point);
    let delayed = derived_public(broadcaster.delayed_payment_basepoint@, point);
    if revocation is Some && broadcaster_htlc is Some && countersignatory_htlc is Some
        && delayed is Some {
        Some(
            TxKeysView {
                per_commitment_point: point,
                revocation_key: revocation->0,
                broadcaster_htlc_key: broadcaster_htlc->0,
                countersignatory_htlc_key: countersignatory_htlc->0,
                broadcaster_delayed_payment_key: delayed->0,
            },
        )
    } else {
        None
    }
}

/// The script of an HTLC output.
pub open spec fn htlc_redeemscript(
    htlc: HTLCOutputInCommitment,
    features: ChannelTypeFeatures,
    broadcaster: Seq<u8>,
    countersignatory: Seq<u8>,
    revocation: Seq<u8>,
) -> Seq<u8> {
    if htlc.offered {
        offered_htlc_script(
            htlc.payment_hash@,
            features.anchors_zero_fee_htlc_tx,
            broadcaster,
            countersignatory,
            revocation,
        )
    } else {
        received_htlc_script(
            htlc.payment_hash@,
            htlc.cltv_expiry,
            features.anchors_zero_fee_htlc_tx,
            broadcaster,
            countersignatory,
            revocation,
        )
    }
}

/// The weight of a second-level HTLC transaction.
pub open spec fn htlc_tx_weight(offered: bool, anchors: bool) -> u64 {
    if offered {
        if anchors {
            666
        } else {
            663
        }
    } else {
        if anchors {
            706
        } else {
            703
        }
    }
}

impl ChannelTypeFeatures {
    /// Whether second-level HTLC transactions pay no fee.
    pub open spec fn zero_fee_htlcs(self) -> bool {
        self.anchors_zero_fee_htlc_tx || self.anchor_zero_fee_commitments
    }
}

impl HTLCOutputInCommitment {
    /// The value of the HTLC's output, in satoshis.
    pub open spec fn value_satoshis(self) -> u64 {
        self.amount_msat / 1000
    }

    /// The fee that the HTLC's second-level transaction pays.
    pub open spec fn second_level_fee(self, feerate: u32, features: ChannelTypeFeatures) -> nat {
        if features.zero_fee_htlcs() {
            0
        } else {
            (feerate as nat * htlc_tx_weight(self.offered, features.anchors_zero_fee_htlc_tx) as nat)
                / 1000
        }
    }
}

/// The input of a second-level HTLC transaction.
pub open spec fn htlc_input(
    txid: Seq<u8>,
    htlc: HTLCOutputInCommitment,
    features: ChannelTypeFeatures,
) -> TxInView {
    TxInView {
        previous_output: OutPointView { txid, vout: htlc.transaction_output_index->0 },
        script_sig: Seq::empty(),
        sequence: if features.anchors_zero_fee_htlc_tx {
            1
        } else {
            0
        },
        witness: Seq::empty(),
    }
}

/// The output of a second-level HTLC transaction: what is left of the HTLC, revocable and delayed. On a
/// taproot channel its script is the given one.
pub open spec fn htlc_output(
    feerate: u32,
    contest_delay: u16,
    htlc: HTLCOutputInCommitment,
    features: ChannelTypeFeatures,
    delayed: Seq<u8>,
    revocation: Seq<u8>,
    taproot_script: Option<Seq<u8>>,
) -> TxOutView {
    TxOutView {
        value: (htlc.value_satoshis() - htlc.second_level_fee(feerate, features)) as u64,
        script_pubkey: if features.simple_taproot {
            taproot_script->0
        } else {
            p2wsh(revokeable_redeemscript(revocation, contest_delay, delayed))
        },
    }
}

/// The second-level transaction that spends an HTLC output.
pub open spec fn htlc_transaction(
    txid: Seq<u8>,
    feerate: u32,
    contest_delay: u16,
    htlc: HTLCOutputInCommitment,
    features: ChannelTypeFeatures,
    delayed: Seq<u8>,
    revocation: Seq<u8>,
    taproot_script: Option<Seq<u8>>,
) -> TransactionView {
    TransactionView {
        version: if features.anchor_zero_fee_commitments {
            3
        } else {
            2
        },
        lock_time: if htlc.offered {
            htlc.cltv_expiry
        } else {
            0
        },
        input: seq![htlc_input(txid, htlc, features)],
        output: seq![
            htlc_output(
                feerate,
                contest_delay,
                htlc,
                features,
                delayed,
                revocation,
                taproot_script,
            ),
        ],
    }
}

impl ChannelTypeFeatures {
    /// The features of a channel of the oldest type.
    pub fn only_static_remote_key() -> (r: ChannelTypeFeatures)
        ensures
            r == (ChannelTypeFeatures {
                static_remote_key: true,
                anchors_zero_fee_htlc_tx: false,
                anchor_zero_fee_commitments: false,
                simple_taproot: false,
            }),
    {
        ChannelTypeFeatures {
            static_remote_key: true,
            anchors_zero_fee_htlc_tx: false,
            anchor_zero_fee_commitments: false,
            simple_taproot: false,
        }
    }
}

impl ChannelTransactionParameters {
    /// Whether the counterparty's parameters and the funding outpoint are known.
    pub open spec fn populated(&self) -> bool {
        self.counterparty_parameters is Some && self.funding_outpoint is Some
    }

    /// Whether the counterparty's parameters and the funding outpoint are known.
    pub fn is_populated(&self) -> (r: bool)
        ensures
            r == self.populated(),
    {
        self.counterparty_parameters.is_some() && self.funding_outpoint.is_some()
    }
}

impl HTLCOutputInCommitment {
    /// The value of the HTLC's output, in satoshis.
    pub fn to_bitcoin_amount(&self) -> (r: u64)
        ensures
            r == self.value_satoshis(),
    {
        self.amount_msat / 1000
    }
}

/// The hash that ties a basepoint to a commitment. Its scalar is what is added to the basepoint's
/// secret to reach the commitment's key.
pub fn derive_add_tweak(base: &PublicKey, point: &PublicKey) -> (r: [u8; 32])
    ensures
        r@ == commitment_tweak(point@, base@),
{
    sha256_of(concat(&point.serialize(), &base.serialize()).as_slice())
}

/// Adds the point of a tweak to a basepoint, where tweak and sum exist.
pub fn add_public_key_tweak(base: &PublicKey, tweak: &[u8; 32]) -> (r: Option<PublicKey>)
    ensures
        point_view(r) == if valid_secret(tweak@) {
            point_sum(base@, public_of(tweak@))
        } else {
            None
        },
        valid_secret(tweak@) ==> forall|k: Seq<u8>|
            #![trigger public_of(k)]
            valid_secret(k) && base@ == public_of(k) ==> match tweak_add(k, tweak@) {
                Some(s) => point_view(r) == Some(public_of(s)),
                None => r is None,
            },
{
    match SecretKey::from_bytes(tweak) {
        Some(secret) => base.combine(&secret.public_key()),
        None => None,
    }
}

/// The key of a basepoint at a commitment. For the basepoint of a secret key, it is the public key of
/// the secret that [`derive_private_key`] gives.
pub fn derive_public_key(base: &PublicKey, point: &PublicKey) -> (r: Option<PublicKey>)
    ensures
        point_view(r) == derived_public(base@, point@),
        forall|k: Seq<u8>|
            #![trigger public_of(k)]
            valid_secret(k) && base@ == public_of(k) && valid_secret(
                commitment_tweak(point@, base@),
            ) ==> match derived_secret(k, point@) {
                Some(s) => point_view(r) == Some(public_of(s)),
                None => r is None,
            },
{
    let tweak: [u8; 32] = derive_add_tweak(base, point);
    add_public_key_tweak(base, &tweak)
}

/// The secret key of a base secret at a commitment.
pub fn derive_private_key(point: &PublicKey, base: &SecretKey) -> (r: Option<SecretKey>)
    ensures
        secret_view(r) == derived_secret(base@, point@),
{
    let tweak: [u8; 32] = derive_add_tweak(&base.public_key(), point);
    match Scalar::from_be_bytes(&tweak) {
        Some(t) => base.add_tweak(&t),
        None => None,
    }
}

/// The revocation key of a basepoint at a commitment. For the points of two secrets, it is the public
/// key of the secret that [`derive_private_revocation_key`] gives.
pub fn derive_revocation_key(base: &PublicKey, point: &PublicKey) -> (r: Option<PublicKey>)
    ensures
        point_view(r) == revocation_public(base@, point@),
        forall|k: Seq<u8>, c: Seq<u8>|
            #![trigger public_of(k), public_of(c)]
            valid_secret(k) && valid_secret(c) && base@ == public_of(k) && point@ == public_of(c)
                ==> match revocation_secret(k, c) {
                Some(s) => point_view(r) == Some(public_of(s)),
                None => r is None,
            },
{
    let own: [u8; 32] = sha256_of(concat(&base.serialize(), &point.serialize()).as_slice());
    let other: [u8; 32] = sha256_of(concat(&point.serialize(), &base.serialize()).as_slice());
    match (SecretKey::from_bytes(&own), SecretKey::from_bytes(&other)) {
        (Some(a), Some(b)) => {
            match (base.mul_tweak(&a.as_scalar()), point.mul_tweak(&b.as_scalar())) {
                (Some(p), Some(q)) => p.combine(&q),
                _ => None,
            }
        },
        _ => None,
    }
}

/// The revocation secret of a base secret at a commitment whose secret is known.
pub fn derive_private_revocation_key(commitment_secret: &SecretKey, base: &SecretKey) -> (r: Option<
    SecretKey,
>)
    ensures
        secret_view(r) == revocation_secret(base@, commitment_secret@),
        valid_secret(base@),
        valid_secret(commitment_secret@),
{
    let base_point: [u8; 33] = base.public_key().serialize();
    let point: [u8; 33] = commitment_secret.public_key().serialize();
    let own: [u8; 32] = sha256_of(concat(&base_point, &point).as_slice());
    let other: [u8; 32] = sha256_of(concat(&point, &base_point).as_slice());
    match (SecretKey::from_bytes(&own), SecretKey::from_bytes(&other)) {
        (Some(a), Some(b)) => {
            match (base.mul_tweak(&a.as_scalar()), commitment_secret.mul_tweak(&b.as_scalar())) {
                (Some(p), Some(q)) => p.add_tweak(&q.as_scalar()),
                _ => None,
            }
        },
        _ => None,
    }
}

impl TxCreationKeys {
    /// The keys of a commitment that one party broadcasts and the other countersigns.
    pub fn from_channel_static_keys(
        point: &PublicKey,
        broadcaster: &ChannelPublicKeys,
        countersignatory: &ChannelPublicKeys,
    ) -> (r: Option<TxCreationKeys>)
        ensures
            match r {
                Some(k) => Some(k@),
                None => None,
            } == commitment_keys(point@, *broadcaster, *countersignatory),
    {
        let revocation_key: PublicKey = match derive_revocation_key(
            &countersignatory.revocation_basepoint,
            point,
        ) {
            Some(k) => k,
            None => {
                return None;
            },
        };
        let broadcaster_htlc_key: PublicKey = match derive_public_key(
            &broadcaster.htlc_basepoint,
            point,
        ) {
            Some(k) => k,
            None => {
                return None;
            },
        };
        let countersignatory_htlc_key: PublicKey = match derive_public_key(
            &countersignatory.htlc_basepoint,
            point,
        ) {
            Some(k) => k,
            None => {
                return None;
            },
        };
        match derive_public_key(&broadcaster.delayed_payment_basepoint, point) {
            Some(k) => Some(
                TxCreationKeys {
                    per_commitment_point: *point,
                    revocation_key,
                    broadcaster_htlc_key,
                    countersignatory_htlc_key,
                    broadcaster_delayed_payment_key: k,
                },
            ),
            None => None,
        }
    }
}

/// The script of an HTLC output, from the three keys it names.
pub fn get_htlc_redeemscript_with_explicit_keys(
    htlc: &HTLCOutputInCommitment,
    features: &ChannelTypeFeatures,
    broadcaster: &PublicKey,
    countersignatory: &PublicKey,
    revocation: &PublicKey,
) -> (r: Vec<u8>)
    ensures
        r@ == htlc_redeemscript(*htlc, *features, broadcaster@, countersignatory@, revocation@),
{
    if htlc.offered {
        get_offered_htlc_script(
            &htlc.payment_hash,
            features.anchors_zero_fee_htlc_tx,
            broadcaster,
            countersignatory,
            revocation,
        )
    } else {
        get_received_htlc_script(
            &htlc.payment_hash,
            htlc.cltv_expiry,
            features.anchors_zero_fee_htlc_tx,
            broadcaster,
            countersignatory,
            revocation,
        )
    }
}

/// The input of a second-level HTLC transaction.
pub fn build_htlc_input(
    commitment_txid: &[u8; 32],
    htlc: &HTLCOutputInCommitment,
    features: &ChannelTypeFeatures,
) -> (r: TxIn)
    requires
        htlc.transaction_output_index is Some,
    ensures
        r@ == htlc_input(commitment_txid@, *htlc, *features),
{
    let r = TxIn {
        previous_output: BitcoinOutPoint {
            txid: *commitment_txid,
            vout: htlc.transaction_output_index.unwrap(),
        },
        script_sig: Vec::new(),
        sequence: if features.anchors_zero_fee_htlc_tx {
            1
        } else {
            0
        },
        witness: Vec::new(),
    };
    assert(r@ =~= htlc_input(commitment_txid@, *htlc, *features));
    r
}

/// The fee that an HTLC's second-level transaction pays.
pub fn second_level_fee(
    htlc: &HTLCOutputInCommitment,
    feerate: u32,
    features: &ChannelTypeFeatures,
) -> (r: u64)
    ensures
        r as nat == htlc.second_level_fee(feerate, *features),
{
    if features.anchors_zero_fee_htlc_tx || features.anchor_zero_fee_commitments {
        0
    } else if htlc.offered {
        feerate as u64 * 663 / 1000
    } else {
        feerate as u64 * 703 / 1000
    }
}

/// The output of a second-level HTLC transaction. `taproot_script` is its script on a taproot channel.
pub fn build_htlc_output(
    feerate: u32,
    contest_delay: u16,
    htlc: &HTLCOutputInCommitment,
    features: &ChannelTypeFeatures,
    delayed: &PublicKey,
    revocation: &PublicKey,
    taproot_script: Option<&[u8]>,
) -> (r: TxOut)
    requires
        features.simple_taproot ==> taproot_script is Some,
        htlc.second_level_fee(feerate, *features) <= htlc.value_satoshis(),
    ensures
        r@ == htlc_output(
            feerate,
            contest_delay,
            *htlc,
            *features,
            delayed@,
            revocation@,
            opt_bytes(taproot_script),
        ),
{
    let script_pubkey: Vec<u8> = if features.simple_taproot {
        copy_bytes(taproot_script.unwrap())
    } else {
        let script: Vec<u8> = get_revokeable_redeemscript(revocation, contest_delay, delayed);
        to_p2wsh(script.as_slice())
    };
    TxOut {
        value: htlc.to_bitcoin_amount() - second_level_fee(htlc, feerate, features),
        script_pubkey,
    }
}

/// The second-level transaction that spends an HTLC output. `taproot_script` is the script of its output on
/// a taproot channel.
pub fn build_htlc_transaction(
    commitment_txid: &[u8; 32],
    feerate: u32,
    contest_delay: u16,
    htlc: &HTLCOutputInCommitment,
    features: &ChannelTypeFeatures,
    delayed: &PublicKey,
    revocation: &PublicKey,
    taproot_script: Option<&[u8]>,
) -> (r: Transaction)
    requires
        features.simple_taproot ==> taproot_script is Some,
        htlc.transaction_output_index is Some,
        htlc.second_level_fee(feerate, *features) <= htlc.value_satoshis(),
    ensures
        r@ == htlc_transaction(
            commitment_txid@,
            feerate,
            contest_delay,
            *htlc,
            *features,
            delayed@,
            revocation@,
            opt_bytes(taproot_script),
        ),
{
    let mut input: Vec<TxIn> = Vec::new();
    input.push(build_htlc_input(commitment_txid, htlc, features));
    let mut output: Vec<TxOut> = Vec::new();
    output.push(
        build_htlc_output(
            feerate,
            contest_delay,
            htlc,
            features,
            delayed,
            revocation,
            taproot_script,
        ),
    );
    let r = Transaction {
        version: if features.anchor_zero_fee_commitments {
            3
        } else {
            2
        },
        lock_time: if htlc.offered {
            htlc.cltv_expiry
        } else {
            0
        },
        input,
        output,
    };
    assert(r@ =~= htlc_transaction(
        commitment_txid@,
        feerate,
        contest_delay,
        *htlc,
        *features,
        delayed@,
        revocation@,
        opt_bytes(taproot_script),
    ));
    r
}

} // verus!
