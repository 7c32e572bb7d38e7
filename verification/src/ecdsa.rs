//! Signing a channel's transactions: ECDSA for channels whose outputs are scripts, Schnorr for the
//! script-path sweeps of taproot channels.
use vstd::prelude::*;

use crate::channel::{
    build_htlc_transaction, derive_private_key, derive_private_revocation_key, derive_public_key,
    derive_revocation_key, derived_public, derived_secret, get_htlc_redeemscript_with_explicit_keys,
    htlc_redeemscript, htlc_transaction, revocation_public, revocation_secret, ChannelPublicKeys,
    ChannelTransactionParameters, ClosingTransaction, CommitmentTransaction,
    HTLCOutputInCommitment, HolderCommitmentTransaction, SignerError,
    ANCHOR_OUTPUT_VALUE_SATOSHI,
};
use crate::curve::{
    ecdsa, ecdsa_with_noncedata, keypair_add_xonly, public_of, schnorr, schnorr_verifies, sign_ecdsa,
    sign_schnorr, valid_scalar, x_only, xonly_tweaked_secret, PublicKey, SchnorrSignature, SecretKey, Signature,
};
use crate::entropy::{chacha_block, draw_nonce, draws_never_share_an_input, RandomBytesView};
use crate::hashes::{sha256d, sha256d_of};
use crate::htlc::{taproot_htlc_spend, HTLCDescriptor, TaprootHtlcScripts};
use crate::script::{
    anchor_redeemscript, funding_redeemscript, get_keyed_anchor_redeemscript,
    get_revokeable_redeemscript, get_taproot_to_local_revoke_script, make_funding_redeemscript,
    revokeable_redeemscript, taproot_to_local_revoke_script,
};
use crate::sighash::{
    p2wsh_signature_hash, segwit_sighash, tap_key_sighash, tap_leaf_sighash,
    taproot_key_spend_signature_hash, taproot_script_spend_signature_hash, SIGHASH_ALL,
    SIGHASH_SINGLE_ANYONECANPAY,
};
use crate::signer::{rotated_key, txid_view, ChannelSigner, InMemorySigner, SignerView};
use crate::taproot::{commitment_tweak, leaf_hash, tap_leaf_hash, tap_root, tap_tweak, tree_root};
use crate::taproot_channel::{holder_htlc_signing, TaprootChannelSigner};
use crate::tx::{outputs_view, Transaction, TransactionView, TxOut, TxOutView};

verus! {

/// That a signature with fresh randomness was made of a digest with a key, or, where they do not exist,
/// that there is none; in the first case the signer drew randomness once.
pub open spec fn aux_signed(
    before: SignerView,
    after: SignerView,
    r: Result<Signature, SignerError>,
    what: Result<(Seq<u8>, Seq<u8>), SignerError>,
) -> bool {
    match what {
        Ok((digest, key)) => r is Ok && (r->Ok_0)@ == ecdsa_with_noncedata(
            digest,
            key,
            before.entropy.value(),
        ) && after == before.drawn(),
        Err(e) => r == Err::<Signature, SignerError>(e) && after == before,
    }
}

/// That a deterministic signature was made of a digest with a key, or that there is none.
pub open spec fn plain_signed(
    r: Result<Signature, SignerError>,
    what: Result<(Seq<u8>, Seq<u8>), SignerError>,
) -> bool {
    match what {
        Ok((digest, key)) => r is Ok && (r->Ok_0)@ == ecdsa(digest, key),
        Err(e) => r == Err::<Signature, SignerError>(e),
    }
}

/// That a Schnorr signature was made of a digest with a key, under whose point it verifies, or that there
/// is none.
pub open spec fn schnorr_signed(
    r: Result<SchnorrSignature, SignerError>,
    what: Result<(Seq<u8>, Seq<u8>), SignerError>,
) -> bool {
    match what {
        Ok((digest, key)) => r is Ok && (r->Ok_0)@ == schnorr(digest, key) && schnorr_verifies(
            (r->Ok_0)@,
            digest,
            x_only(public_of(key)),
        ),
        Err(e) => r == Err::<SchnorrSignature, SignerError>(e),
    }
}

/// A signature with fresh randomness is one of the digest by the key, with the next block of the signer's own
/// random bytes mixed in, and that block is used up: the signer's next signature has another.
pub proof fn fresh_randomness_is_used_once(
    before: SignerView,
    after: SignerView,
    r: Result<Signature, SignerError>,
    digest: Seq<u8>,
    key: Seq<u8>,
)
    requires
        aux_signed(before, after, r, Ok((digest, key))),
    ensures
        r is Ok,
        (r->Ok_0)@ == ecdsa_with_noncedata(
            digest,
            key,
            chacha_block(before.entropy.seed, draw_nonce(before.entropy.index)),
        ),
        after.same_keys(before),
        after.taproot == before.taproot,
        after.entropy.seed == before.entropy.seed,
        after.entropy.index != before.entropy.index,
        draw_nonce(after.entropy.index) != draw_nonce(before.entropy.index),
{
    draws_never_share_an_input(before.entropy, 0, 1);
    reveal_with_fuel(RandomBytesView::after, 2);
}

/// The counterparty's keys.
pub open spec fn counterparty_keys(p: ChannelTransactionParameters) -> ChannelPublicKeys {
    (p.counterparty_parameters->0).pubkeys
}

/// What is signed to spend the funding output by its script, and the key it is signed with.
pub open spec fn funding_spend(
    s: SignerView,
    p: ChannelTransactionParameters,
    tx: TransactionView,
    index: nat,
) -> Result<(Seq<u8>, Seq<u8>), SignerError> {
    match rotated_key(s.funding_key, txid_view(p.splice_parent_funding_txid)) {
        Some(key) => Ok(
            (
                segwit_sighash(
                    tx,
                    index,
                    funding_redeemscript(
                        public_of(key),
                        counterparty_keys(p).funding_pubkey@,
                    ),
                    p.channel_value_satoshis,
                    SIGHASH_ALL,
                ),
                key,
            ),
        ),
        None => Err(SignerError::DegenerateKey),
    }
}

/// The signature of one HTLC of a counterparty's commitment: over its second-level transaction, with
/// our key at that commitment. `taproot_script` is what that transaction pays on a taproot channel.
pub open spec fn counterparty_htlc_signature(
    key: Seq<u8>,
    p: ChannelTransactionParameters,
    tx: CommitmentTransaction,
    htlc: HTLCOutputInCommitment,
    taproot_script: Option<Seq<u8>>,
) -> Seq<u8> {
    let features = p.channel_type_features;
    ecdsa(
        segwit_sighash(
            htlc_transaction(
                tx.built.txid@,
                tx.feerate_per_kw,
                p.holder_selected_contest_delay,
                htlc,
                features,
                tx.keys.broadcaster_delayed_payment_key@,
                tx.keys.revocation_key@,
                taproot_script,
            ),
            0,
            htlc_redeemscript(
                htlc,
                features,
                tx.keys.broadcaster_htlc_key@,
                tx.keys.countersignatory_htlc_key@,
                tx.keys.revocation_key@,
            ),
            htlc.value_satoshis(),
            if features.zero_fee_htlcs() {
                SIGHASH_SINGLE_ANYONECANPAY
            } else {
                SIGHASH_ALL
            },
        ),
        key,
    )
}

/// The script that the second-level transaction of an HTLC pays, where it is given: on a taproot channel.
pub open spec fn second_level_script(
    p: ChannelTransactionParameters,
    taproot_scripts: Seq<Vec<u8>>,
    i: int,
) -> Option<Seq<u8>> {
    if p.channel_type_features.simple_taproot {
        Some(taproot_scripts[i]@)
    } else {
        None
    }
}

/// That every HTLC of a commitment can be claimed by a second-level transaction.
pub open spec fn htlcs_claimable(p: ChannelTransactionParameters, tx: CommitmentTransaction) -> bool {
    forall|i: int|
        0 <= i < tx.nondust_htlcs@.len() ==> {
            let htlc = #[trigger] tx.nondust_htlcs@[i];
            &&& htlc.transaction_output_index is Some
            &&& htlc.second_level_fee(tx.feerate_per_kw, p.channel_type_features)
                <= htlc.value_satoshis()
        }
}

/// What is signed to claim a revoked `to_local` output.
pub open spec fn justice_output(
    s: SignerView,
    p: ChannelTransactionParameters,
    tx: TransactionView,
    input: nat,
    amount: u64,
    commitment_secret: Seq<u8>,
) -> Result<(Seq<u8>, Seq<u8>), SignerError> {
    let point = public_of(commitment_secret);
    match (
        revocation_secret(s.revocation_base_key, commitment_secret),
        revocation_public(p.holder_pubkeys.revocation_basepoint@, point),
        derived_public(counterparty_keys(p).delayed_payment_basepoint@, point),
    ) {
        (Some(key), Some(revocation), Some(delayed)) => Ok(
            (
                segwit_sighash(
                    tx,
                    input,
                    revokeable_redeemscript(revocation, p.holder_selected_contest_delay, delayed),
                    amount,
                    SIGHASH_ALL,
                ),
                key,
            ),
        ),
        _ => Err(SignerError::DegenerateKey),
    }
}

/// The script of an HTLC output of a commitment that the counterparty broadcast.
pub open spec fn counterparty_htlc_script(
    p: ChannelTransactionParameters,
    point: Seq<u8>,
    htlc: HTLCOutputInCommitment,
) -> Option<Seq<u8>> {
    match (
        derived_public(counterparty_keys(p).htlc_basepoint@, point),
        derived_public(p.holder_pubkeys.htlc_basepoint@, point),
        revocation_public(p.holder_pubkeys.revocation_basepoint@, point),
    ) {
        (Some(theirs), Some(ours), Some(revocation)) => Some(
            htlc_redeemscript(htlc, p.channel_type_features, theirs, ours, revocation),
        ),
        _ => None,
    }
}

/// What is signed to claim a revoked HTLC output.
pub open spec fn justice_htlc(
    s: SignerView,
    p: ChannelTransactionParameters,
    tx: TransactionView,
    input: nat,
    amount: u64,
    commitment_secret: Seq<u8>,
    htlc: HTLCOutputInCommitment,
) -> Result<(Seq<u8>, Seq<u8>), SignerError> {
    match (
        revocation_secret(s.revocation_base_key, commitment_secret),
        counterparty_htlc_script(p, public_of(commitment_secret), htlc),
    ) {
        (Some(key), Some(script)) => Ok(
            (segwit_sighash(tx, input, script, amount, SIGHASH_ALL), key),
        ),
        _ => Err(SignerError::DegenerateKey),
    }
}

/// What is signed to claim an HTLC output of a commitment that the holder broadcast.
pub open spec fn holder_htlc(
    s: SignerView,
    tx: TransactionView,
    input: nat,
    d: HTLCDescriptor,
) -> Result<(Seq<u8>, Seq<u8>), SignerError> {
    match (d.script(), derived_secret(s.htlc_base_key, d.per_commitment_point@)) {
        (Some(script), Some(key)) => if input < tx.input.len() {
            Ok((segwit_sighash(tx, input, script, d.htlc.value_satoshis(), SIGHASH_ALL), key))
        } else {
            Err(SignerError::Refused)
        },
        _ => Err(SignerError::DegenerateKey),
    }
}

/// What is signed to claim an HTLC output of a commitment that the counterparty broadcast.
pub open spec fn counterparty_htlc(
    s: SignerView,
    p: ChannelTransactionParameters,
    tx: TransactionView,
    input: nat,
    amount: u64,
    point: Seq<u8>,
    htlc: HTLCOutputInCommitment,
) -> Result<(Seq<u8>, Seq<u8>), SignerError> {
    match (derived_secret(s.htlc_base_key, point), counterparty_htlc_script(p, point, htlc)) {
        (Some(key), Some(script)) => Ok(
            (segwit_sighash(tx, input, script, amount, SIGHASH_ALL), key),
        ),
        _ => Err(SignerError::DegenerateKey),
    }
}

/// What is signed to claim a revoked taproot `to_local` output by its revocation leaf.
pub open spec fn justice_output_taproot(
    s: SignerView,
    p: ChannelTransactionParameters,
    tx: TransactionView,
    input: nat,
    commitment_secret: Seq<u8>,
    prevouts: Seq<TxOutView>,
) -> Result<(Seq<u8>, Seq<u8>), SignerError> {
    let point = public_of(commitment_secret);
    match (
        revocation_secret(s.revocation_base_key, commitment_secret),
        revocation_public(p.holder_pubkeys.revocation_basepoint@, point),
        derived_public(counterparty_keys(p).delayed_payment_basepoint@, point),
    ) {
        (Some(key), Some(revocation), Some(delayed)) => if prevouts.len() == tx.input.len() {
            Ok(
                (
                    tap_leaf_sighash(
                        tx,
                        input,
                        prevouts,
                        tap_leaf_hash(taproot_to_local_revoke_script(revocation, delayed)),
                    ),
                    key,
                ),
            )
        } else {
            Err(SignerError::Refused)
        },
        _ => Err(SignerError::DegenerateKey),
    }
}

/// What is signed to claim a revoked taproot HTLC output by its key path: the revocation key is the
/// internal key, so the key is the revocation secret tweaked by the output's scripts.
pub open spec fn justice_htlc_taproot(
    s: SignerView,
    p: ChannelTransactionParameters,
    tx: TransactionView,
    input: nat,
    commitment_secret: Seq<u8>,
    htlc: HTLCOutputInCommitment,
    scripts: TaprootHtlcScripts,
    prevouts: Seq<TxOutView>,
) -> Result<(Seq<u8>, Seq<u8>), SignerError> {
    match (
        revocation_secret(s.revocation_base_key, commitment_secret),
        revocation_public(
            p.holder_pubkeys.revocation_basepoint@,
            public_of(commitment_secret),
        ),
    ) {
        (Some(key), Some(revocation)) => {
            let tweak = tap_tweak(
                x_only(revocation),
                tap_root(scripts.two_party(htlc), Some(scripts.direct_claim(htlc))),
            );
            if !valid_scalar(tweak) {
                Err(SignerError::DegenerateKey)
            } else if prevouts.len() != tx.input.len() {
                Err(SignerError::Refused)
            } else {
                match xonly_tweaked_secret(key, tweak) {
                    Some(tweaked) => Ok((tap_key_sighash(tx, input, prevouts), tweaked)),
                    None => Err(SignerError::Refused),
                }
            }
        },
        _ => Err(SignerError::DegenerateKey),
    }
}

/// What is signed to claim a taproot HTLC output of a commitment that the counterparty broadcast.
pub open spec fn counterparty_htlc_taproot(
    s: SignerView,
    tx: TransactionView,
    input: nat,
    point: Seq<u8>,
    leaf: Seq<u8>,
    prevouts: Seq<TxOutView>,
) -> Result<(Seq<u8>, Seq<u8>), SignerError> {
    match derived_secret(s.htlc_base_key, point) {
        Some(key) => if prevouts.len() == tx.input.len() {
            Ok((tap_leaf_sighash(tx, input, prevouts, tap_leaf_hash(leaf)), key))
        } else {
            Err(SignerError::Refused)
        },
        None => Err(SignerError::DegenerateKey),
    }
}

/// What is signed to spend the holder's anchor output.
pub open spec fn anchor_spend(
    s: SignerView,
    p: ChannelTransactionParameters,
    tx: TransactionView,
    input: nat,
) -> Result<(Seq<u8>, Seq<u8>), SignerError> {
    match rotated_key(s.funding_key, txid_view(p.splice_parent_funding_txid)) {
        Some(key) => Ok(
            (
                segwit_sighash(
                    tx,
                    input,
                    anchor_redeemscript(p.holder_pubkeys.funding_pubkey@),
                    ANCHOR_OUTPUT_VALUE_SATOSHI,
                    SIGHASH_ALL,
                ),
                key,
            ),
        ),
        None => Err(SignerError::DegenerateKey),
    }
}

/// A trait to sign a channel's transactions.
pub trait EcdsaChannelSigner: ChannelSigner {
    /// Create a signature for a counterparty's commitment transaction and associated HTLC
    /// transactions. `taproot_scripts` are the scripts that the second-level transactions of a taproot
    /// channel pay, one for each HTLC; on other channels they are not read.
    fn sign_counterparty_commitment(
        &self,
        channel_parameters: &ChannelTransactionParameters,
        commitment_tx: &CommitmentTransaction,
        inbound_htlc_preimages: Vec<[u8; 32]>,
        outbound_htlc_preimages: Vec<[u8; 32]>,
        taproot_scripts: &[Vec<u8>],
    ) -> Result<(Signature, Vec<Signature>), SignerError>
        requires
            channel_parameters.populated(),
            channel_parameters.channel_type_features.simple_taproot
                ==> taproot_scripts@.len() == commitment_tx.nondust_htlcs@.len(),
            commitment_tx.built.transaction@.input.len() > 0,
            htlcs_claimable(*channel_parameters, *commitment_tx),
    ;

    /// Creates a signature for a holder's commitment transaction.
    fn sign_holder_commitment(
        &mut self,
        channel_parameters: &ChannelTransactionParameters,
        commitment_tx: &HolderCommitmentTransaction,
    ) -> Result<Signature, SignerError>
        requires
            channel_parameters.populated(),
            commitment_tx.inner.built.transaction@.input.len() > 0,
    ;

    /// Same as [`Self::sign_holder_commitment`], but exists only for revoked states in tests.
    fn unsafe_sign_holder_commitment(
        &mut self,
        channel_parameters: &ChannelTransactionParameters,
        commitment_tx: &HolderCommitmentTransaction,
    ) -> Result<Signature, SignerError>
        requires
            channel_parameters.populated(),
            commitment_tx.inner.built.transaction@.input.len() > 0,
    ;

    /// Create a signature for the given input in a transaction spending a revoked `to_local` output when
    /// our counterparty broadcasts an old state.
    fn sign_justice_revoked_output(
        &mut self,
        channel_parameters: &ChannelTransactionParameters,
        justice_tx: &Transaction,
        input: usize,
        amount: u64,
        per_commitment_key: &SecretKey,
    ) -> Result<Signature, SignerError>
        requires
            channel_parameters.populated(),
            input < justice_tx@.input.len(),
    ;

    /// Create a signature for the given input in a transaction spending a revoked HTLC output when our
    /// counterparty broadcasts an old state.
    fn sign_justice_revoked_htlc(
        &mut self,
        channel_parameters: &ChannelTransactionParameters,
        justice_tx: &Transaction,
        input: usize,
        amount: u64,
        per_commitment_key: &SecretKey,
        htlc: &HTLCOutputInCommitment,
    ) -> Result<Signature, SignerError>
        requires
            channel_parameters.populated(),
            input < justice_tx@.input.len(),
    ;

    /// Computes the signature for a commitment transaction's HTLC output used as an input within
    /// `htlc_tx`, which spends the commitment transaction at index `input`.
    fn sign_holder_htlc_transaction(
        &mut self,
        htlc_tx: &Transaction,
        input: usize,
        htlc_descriptor: &HTLCDescriptor,
    ) -> Result<Signature, SignerError>
        requires
            htlc_descriptor.params().populated(),
    ;

    /// Create a signature for a claiming transaction for a HTLC output on a counterparty's commitment
    /// transaction, either offered or received.
    fn sign_counterparty_htlc_transaction(
        &mut self,
        channel_parameters: &ChannelTransactionParameters,
        htlc_tx: &Transaction,
        input: usize,
        amount: u64,
        per_commitment_point: &PublicKey,
        htlc: &HTLCOutputInCommitment,
    ) -> Result<Signature, SignerError>
        requires
            channel_parameters.populated(),
            input < htlc_tx@.input.len(),
    ;

    /// [`Self::sign_justice_revoked_output`] for a taproot output, by its revocation leaf.
    fn sign_justice_revoked_output_taproot(
        &self,
        channel_parameters: &ChannelTransactionParameters,
        justice_tx: &Transaction,
        input: usize,
        amount: u64,
        per_commitment_key: &SecretKey,
        all_prevouts: &[TxOut],
    ) -> Result<SchnorrSignature, SignerError>
        requires
            channel_parameters.populated(),
    ;

    /// [`Self::sign_justice_revoked_htlc`] for a taproot output, by its key path.
    fn sign_justice_revoked_htlc_taproot(
        &self,
        channel_parameters: &ChannelTransactionParameters,
        justice_tx: &Transaction,
        input: usize,
        amount: u64,
        per_commitment_key: &SecretKey,
        htlc: &HTLCOutputInCommitment,
        htlc_scripts: &TaprootHtlcScripts,
        all_prevouts: &[TxOut],
    ) -> Result<SchnorrSignature, SignerError>
        requires
            channel_parameters.populated(),
    ;

    /// [`Self::sign_holder_htlc_transaction`] for a taproot output, by the leaf that both parties sign.
    fn sign_holder_htlc_transaction_taproot(
        &self,
        htlc_tx: &Transaction,
        input: usize,
        htlc_descriptor: &HTLCDescriptor,
        htlc_scripts: &TaprootHtlcScripts,
    ) -> Result<SchnorrSignature, SignerError>
        requires
            htlc_descriptor.params().counterparty_parameters is Some,
    ;

    /// [`Self::sign_counterparty_htlc_transaction`] for a taproot output, by the leaf that we alone sign:
    /// of an HTLC they offered the one that takes the preimage, of one they received the one that takes
    /// the timeout.
    fn sign_counterparty_htlc_transaction_taproot(
        &self,
        channel_parameters: &ChannelTransactionParameters,
        htlc_tx: &Transaction,
        input: usize,
        amount: u64,
        per_commitment_point: &PublicKey,
        htlc: &HTLCOutputInCommitment,
        htlc_scripts: &TaprootHtlcScripts,
        all_prevouts: &[TxOut],
    ) -> Result<SchnorrSignature, SignerError>
        requires
            channel_parameters.populated(),
    ;

    /// Create a signature for a (proposed) closing transaction.
    fn sign_closing_transaction(
        &self,
        channel_parameters: &ChannelTransactionParameters,
        closing_tx: &ClosingTransaction,
    ) -> Result<Signature, SignerError>
        requires
            channel_parameters.populated(),
            closing_tx.built@.input.len() > 0,
    ;

    /// Computes the signature for a commitment transaction's anchor output used as an
    /// input within `anchor_tx`, which spends the commitment transaction, at index `input`.
    fn sign_holder_keyed_anchor_input(
        &mut self,
        chan_params: &ChannelTransactionParameters,
        anchor_tx: &Transaction,
        input: usize,
    ) -> Result<Signature, SignerError>
        requires
            chan_params.populated(),
            input < anchor_tx@.input.len(),
    ;

    /// Signs the serialization of a channel announcement message with our funding key proving it comes
    /// from one of the channel participants.
    fn sign_channel_announcement_with_funding_key(
        &self,
        channel_parameters: &ChannelTransactionParameters,
        msg: &[u8],
    ) -> Result<Signature, SignerError>;

    /// Signs the input of a splice funding transaction with our funding key.
    fn sign_splice_shared_input(
        &self,
        channel_parameters: &ChannelTransactionParameters,
        tx: &Transaction,
        input_index: usize,
    ) -> Result<Signature, SignerError>
        requires
            channel_parameters.populated(),
            input_index < tx@.input.len(),
            tx@.input[input_index as int].previous_output
                == (channel_parameters.funding_outpoint->0)@,
    ;
}

/// The counterparty's keys.
fn their_keys(p: &ChannelTransactionParameters) -> (r: ChannelPublicKeys)
    requires
        p.counterparty_parameters is Some,
    ensures
        r == counterparty_keys(*p),
{
    p.counterparty_parameters.unwrap().pubkeys
}

/// The script of an HTLC output of a commitment that the counterparty broadcast.
fn their_htlc_script(
    p: &ChannelTransactionParameters,
    point: &PublicKey,
    htlc: &HTLCOutputInCommitment,
) -> (r: Option<Vec<u8>>)
    requires
        p.counterparty_parameters is Some,
    ensures
        match r {
            Some(s) => Some(s@),
            None => None,
        } == counterparty_htlc_script(*p, point@, *htlc),
{
    match (
        derive_public_key(&their_keys(p).htlc_basepoint, point),
        derive_public_key(&p.holder_pubkeys.htlc_basepoint, point),
        derive_revocation_key(&p.holder_pubkeys.revocation_basepoint, point),
    ) {
        (Some(theirs), Some(ours), Some(revocation)) => Some(
            get_htlc_redeemscript_with_explicit_keys(
                htlc,
                &p.channel_type_features,
                &theirs,
                &ours,
                &revocation,
            ),
        ),
        _ => None,
    }
}

impl InMemorySigner {
    /// The digest that spends the funding output by its script, and the key.
    fn funding_digest(
        &self,
        p: &ChannelTransactionParameters,
        tx: &Transaction,
        index: usize,
    ) -> (r: Option<([u8; 32], SecretKey)>)
        requires
            p.counterparty_parameters is Some,
            index < tx@.input.len(),
        ensures
            match (r, funding_spend(self@, *p, tx@, index as nat)) {
                (Some((d, k)), Ok((digest, key))) => d@ == digest && k@ == key,
                (None, Err(e)) => e == SignerError::DegenerateKey,
                _ => false,
            },
    {
        match self.try_funding_key(p.splice_parent_funding_txid) {
            Some(key) => {
                let script: Vec<u8> = make_funding_redeemscript(
                    &key.public_key(),
                    &their_keys(p).funding_pubkey,
                );
                let digest: [u8; 32] = p2wsh_signature_hash(
                    tx,
                    index,
                    script.as_slice(),
                    p.channel_value_satoshis,
                    SIGHASH_ALL,
                ).unwrap();
                Some((digest, key))
            },
            None => None,
        }
    }
}

impl EcdsaChannelSigner for InMemorySigner {
    fn sign_counterparty_commitment(
        &self,
        channel_parameters: &ChannelTransactionParameters,
        commitment_tx: &CommitmentTransaction,
        inbound_htlc_preimages: Vec<[u8; 32]>,
        outbound_htlc_preimages: Vec<[u8; 32]>,
        taproot_scripts: &[Vec<u8>],
    ) -> (r: Result<(Signature, Vec<Signature>), SignerError>)
        ensures
            ({
                let funding = funding_spend(
                    self@,
                    *channel_parameters,
                    commitment_tx.built.transaction@,
                    0,
                );
                let htlc_key = derived_secret(
                    self@.htlc_base_key,
                    commitment_tx.keys.per_commitment_point@,
                );
                let htlcs = commitment_tx.nondust_htlcs@;
                if funding is Err || (htlcs.len() > 0 && htlc_key is None) {
                    r == Err::<(Signature, Vec<Signature>), SignerError>(SignerError::DegenerateKey)
                } else {
                    &&& r is Ok
                    &&& (r->Ok_0).0@ == ecdsa((funding->Ok_0).0, (funding->Ok_0).1)
                    &&& (r->Ok_0).1@.len() == htlcs.len()
                    &&& forall|i: int|
                        0 <= i < htlcs.len() ==> (#[trigger] (r->Ok_0).1@[i])@
                            == counterparty_htlc_signature(
                            htlc_key->0,
                            *channel_parameters,
                            *commitment_tx,
                            htlcs[i],
                            second_level_script(*channel_parameters, taproot_scripts@, i),
                        )
                }
            }),
    {
        let (digest, funding_key): ([u8; 32], SecretKey) = match self.funding_digest(
            channel_parameters,
            &commitment_tx.built.transaction,
            0,
        ) {
            Some(d) => d,
            None => {
                return Err(SignerError::DegenerateKey);
            },
        };
        let commitment_sig: Signature = sign_ecdsa(&digest, &funding_key);
        let features = channel_parameters.channel_type_features;
        let hash_type: u8 = if features.anchors_zero_fee_htlc_tx
            || features.anchor_zero_fee_commitments {
            SIGHASH_SINGLE_ANYONECANPAY
        } else {
            SIGHASH_ALL
        };
        let keys = commitment_tx.keys;
        let mut htlc_sigs: Vec<Signature> = Vec::new();
        let mut i: usize = 0;
        while i < commitment_tx.nondust_htlcs.len()
            invariant
                i <= commitment_tx.nondust_htlcs@.len(),
                i > 0 ==> derived_secret(
                    self@.htlc_base_key,
                    commitment_tx.keys.per_commitment_point@,
                ) is Some,
                htlcs_claimable(*channel_parameters, *commitment_tx),
                features.simple_taproot ==> taproot_scripts@.len()
                    == commitment_tx.nondust_htlcs@.len(),
                features == channel_parameters.channel_type_features,
                keys == commitment_tx.keys,
                hash_type == if features.zero_fee_htlcs() {
                    SIGHASH_SINGLE_ANYONECANPAY
                } else {
                    SIGHASH_ALL
                },
                htlc_sigs@.len() == i,
                forall|j: int|
                    0 <= j < i ==> (#[trigger] htlc_sigs@[j])@ == counterparty_htlc_signature(
                        derived_secret(
                            self@.htlc_base_key,
                            commitment_tx.keys.per_commitment_point@,
                        )->0,
                        *channel_parameters,
                        *commitment_tx,
                        commitment_tx.nondust_htlcs@[j],
                        second_level_script(*channel_parameters, taproot_scripts@, j),
                    ),
            decreases commitment_tx.nondust_htlcs@.len() - i,
        {
            let htlc: &HTLCOutputInCommitment = &commitment_tx.nondust_htlcs[i];
            let taproot_script: Option<&[u8]> = if features.simple_taproot {
                Some(taproot_scripts[i].as_slice())
            } else {
                None
            };
            let htlc_tx: Transaction = build_htlc_transaction(
                &commitment_tx.built.txid,
                commitment_tx.feerate_per_kw,
                channel_parameters.holder_selected_contest_delay,
                htlc,
                &features,
                &keys.broadcaster_delayed_payment_key,
                &keys.revocation_key,
                taproot_script,
            );
            let script: Vec<u8> = get_htlc_redeemscript_with_explicit_keys(
                htlc,
                &features,
                &keys.broadcaster_htlc_key,
                &keys.countersignatory_htlc_key,
                &keys.revocation_key,
            );
            let htlc_digest: [u8; 32] = p2wsh_signature_hash(
                &htlc_tx,
                0,
                script.as_slice(),
                htlc.to_bitcoin_amount(),
                hash_type,
            ).unwrap();
            match derive_private_key(&keys.per_commitment_point, &self.htlc_base_key()) {
                Some(key) => {
                    htlc_sigs.push(sign_ecdsa(&htlc_digest, &key));
                },
                None => {
                    return Err(SignerError::DegenerateKey);
                },
            }
            i += 1;
        }
        Ok((commitment_sig, htlc_sigs))
    }

    fn sign_holder_commitment(
        &mut self,
        channel_parameters: &ChannelTransactionParameters,
        commitment_tx: &HolderCommitmentTransaction,
    ) -> (r: Result<Signature, SignerError>)
        ensures
            aux_signed(
                old(self)@,
                final(self)@,
                r,
                funding_spend(
                    old(self)@,
                    *channel_parameters,
                    commitment_tx.inner.built.transaction@,
                    0,
                ),
            ),
    {
        match self.funding_digest(
            channel_parameters,
            &commitment_tx.inner.built.transaction,
            0,
        ) {
            Some((digest, key)) => Ok(self.sign_with_aux_rand(&digest, &key)),
            None => Err(SignerError::DegenerateKey),
        }
    }

    fn unsafe_sign_holder_commitment(
        &mut self,
        channel_parameters: &ChannelTransactionParameters,
        commitment_tx: &HolderCommitmentTransaction,
    ) -> (r: Result<Signature, SignerError>)
        ensures
            aux_signed(
                old(self)@,
                final(self)@,
                r,
                funding_spend(
                    old(self)@,
                    *channel_parameters,
                    commitment_tx.inner.built.transaction@,
                    0,
                ),
            ),
    {
        self.sign_holder_commitment(channel_parameters, commitment_tx)
    }

    fn sign_justice_revoked_output(
        &mut self,
        channel_parameters: &ChannelTransactionParameters,
        justice_tx: &Transaction,
        input: usize,
        amount: u64,
        per_commitment_key: &SecretKey,
    ) -> (r: Result<Signature, SignerError>)
        ensures
            aux_signed(
                old(self)@,
                final(self)@,
                r,
                justice_output(
                    old(self)@,
                    *channel_parameters,
                    justice_tx@,
                    input as nat,
                    amount,
                    per_commitment_key@,
                ),
            ),
    {
        let point: PublicKey = per_commitment_key.public_key();
        match (
            derive_private_revocation_key(per_commitment_key, &self.revocation_base_key()),
            derive_revocation_key(&channel_parameters.holder_pubkeys.revocation_basepoint, &point),
            derive_public_key(&their_keys(channel_parameters).delayed_payment_basepoint, &point),
        ) {
            (Some(key), Some(revocation), Some(delayed)) => {
                let script: Vec<u8> = get_revokeable_redeemscript(
                    &revocation,
                    channel_parameters.holder_selected_contest_delay,
                    &delayed,
                );
                let digest: [u8; 32] = p2wsh_signature_hash(
                    justice_tx,
                    input,
                    script.as_slice(),
                    amount,
                    SIGHASH_ALL,
                ).unwrap();
                Ok(self.sign_with_aux_rand(&digest, &key))
            },
            _ => Err(SignerError::DegenerateKey),
        }
    }

    fn sign_justice_revoked_htlc(
        &mut self,
        channel_parameters: &ChannelTransactionParameters,
        justice_tx: &Transaction,
        input: usize,
        amount: u64,
        per_commitment_key: &SecretKey,
        htlc: &HTLCOutputInCommitment,
    ) -> (r: Result<Signature, SignerError>)
        ensures
            aux_signed(
                old(self)@,
                final(self)@,
                r,
                justice_htlc(
                    old(self)@,
                    *channel_parameters,
                    justice_tx@,
                    input as nat,
                    amount,
                    per_commitment_key@,
                    *htlc,
                ),
            ),
    {
        let point: PublicKey = per_commitment_key.public_key();
        match (
            derive_private_revocation_key(per_commitment_key, &self.revocation_base_key()),
            their_htlc_script(channel_parameters, &point, htlc),
        ) {
            (Some(key), Some(script)) => {
                let digest: [u8; 32] = p2wsh_signature_hash(
                    justice_tx,
                    input,
                    script.as_slice(),
                    amount,
                    SIGHASH_ALL,
                ).unwrap();
                Ok(self.sign_with_aux_rand(&digest, &key))
            },
            _ => Err(SignerError::DegenerateKey),
        }
    }

    fn sign_holder_htlc_transaction(
        &mut self,
        htlc_tx: &Transaction,
        input: usize,
        htlc_descriptor: &HTLCDescriptor,
    ) -> (r: Result<Signature, SignerError>)
        ensures
            aux_signed(
                old(self)@,
                final(self)@,
                r,
                holder_htlc(old(self)@, htlc_tx@, input as nat, *htlc_descriptor),
            ),
    {
        match (
            htlc_descriptor.try_witness_script(),
            derive_private_key(&htlc_descriptor.per_commitment_point, &self.htlc_base_key()),
        ) {
            (Some(script), Some(key)) => match p2wsh_signature_hash(
                htlc_tx,
                input,
                script.as_slice(),
                htlc_descriptor.htlc.to_bitcoin_amount(),
                SIGHASH_ALL,
            ) {
                Some(digest) => Ok(self.sign_with_aux_rand(&digest, &key)),
                None => Err(SignerError::Refused),
            },
            _ => Err(SignerError::DegenerateKey),
        }
    }

    fn sign_counterparty_htlc_transaction(
        &mut self,
        channel_parameters: &ChannelTransactionParameters,
        htlc_tx: &Transaction,
        input: usize,
        amount: u64,
        per_commitment_point: &PublicKey,
        htlc: &HTLCOutputInCommitment,
    ) -> (r: Result<Signature, SignerError>)
        ensures
            aux_signed(
                old(self)@,
                final(self)@,
                r,
                counterparty_htlc(
                    old(self)@,
                    *channel_parameters,
                    htlc_tx@,
                    input as nat,
                    amount,
                    per_commitment_point@,
                    *htlc,
                ),
            ),
    {
        match (
            derive_private_key(per_commitment_point, &self.htlc_base_key()),
            their_htlc_script(channel_parameters, per_commitment_point, htlc),
        ) {
            (Some(key), Some(script)) => {
                let digest: [u8; 32] = p2wsh_signature_hash(
                    htlc_tx,
                    input,
                    script.as_slice(),
                    amount,
                    SIGHASH_ALL,
                ).unwrap();
                Ok(self.sign_with_aux_rand(&digest, &key))
            },
            _ => Err(SignerError::DegenerateKey),
        }
    }

    fn sign_justice_revoked_output_taproot(
        &self,
        channel_parameters: &ChannelTransactionParameters,
        justice_tx: &Transaction,
        input: usize,
        amount: u64,
        per_commitment_key: &SecretKey,
        all_prevouts: &[TxOut],
    ) -> (r: Result<SchnorrSignature, SignerError>)
        ensures
            schnorr_signed(
                r,
                justice_output_taproot(
                    self@,
                    *channel_parameters,
                    justice_tx@,
                    input as nat,
                    per_commitment_key@,
                    outputs_view(all_prevouts@),
                ),
            ),
    {
        let point: PublicKey = per_commitment_key.public_key();
        match (
            derive_private_revocation_key(per_commitment_key, &self.revocation_base_key()),
            derive_revocation_key(&channel_parameters.holder_pubkeys.revocation_basepoint, &point),
            derive_public_key(&their_keys(channel_parameters).delayed_payment_basepoint, &point),
        ) {
            (Some(key), Some(revocation), Some(delayed)) => {
                let leaf: Vec<u8> = get_taproot_to_local_revoke_script(&revocation, &delayed);
                match taproot_script_spend_signature_hash(
                    justice_tx,
                    input,
                    all_prevouts,
                    &leaf_hash(leaf.as_slice()),
                ) {
                    Some(digest) => Ok(sign_schnorr(&digest, &key)),
                    None => Err(SignerError::Refused),
                }
            },
            _ => Err(SignerError::DegenerateKey),
        }
    }

    fn sign_justice_revoked_htlc_taproot(
        &self,
        channel_parameters: &ChannelTransactionParameters,
        justice_tx: &Transaction,
        input: usize,
        amount: u64,
        per_commitment_key: &SecretKey,
        htlc: &HTLCOutputInCommitment,
        htlc_scripts: &TaprootHtlcScripts,
        all_prevouts: &[TxOut],
    ) -> (r: Result<SchnorrSignature, SignerError>)
        ensures
            schnorr_signed(
                r,
                justice_htlc_taproot(
                    self@,
                    *channel_parameters,
                    justice_tx@,
                    input as nat,
                    per_commitment_key@,
                    *htlc,
                    *htlc_scripts,
                    outputs_view(all_prevouts@),
                ),
            ),
            r is Ok && channel_parameters.holder_pubkeys.revocation_basepoint@ == public_of(
                self@.revocation_base_key,
            ) ==> match taproot_htlc_spend(
                revocation_public(
                    public_of(self@.revocation_base_key),
                    public_of(per_commitment_key@),
                )->0,
                *htlc,
                *htlc_scripts,
            ) {
                Some((output_key, _)) => schnorr_verifies(
                    (r->Ok_0)@,
                    tap_key_sighash(justice_tx@, input as nat, outputs_view(all_prevouts@)),
                    output_key,
                ),
                None => false,
            },
    {
        let point: PublicKey = per_commitment_key.public_key();
        let (key, revocation): (SecretKey, PublicKey) = match (
            derive_private_revocation_key(per_commitment_key, &self.revocation_base_key()),
            derive_revocation_key(&channel_parameters.holder_pubkeys.revocation_basepoint, &point),
        ) {
            (Some(k), Some(p)) => (k, p),
            _ => {
                return Err(SignerError::DegenerateKey);
            },
        };
        let root: [u8; 32] = tree_root(
            htlc_scripts.two_party_leaf(htlc),
            Some(htlc_scripts.direct_claim_leaf(htlc)),
        );
        match commitment_tweak(&revocation.x_only(), &root) {
            Some(tweak) => match taproot_key_spend_signature_hash(justice_tx, input, all_prevouts) {
                Some(digest) => match keypair_add_xonly(&key, &tweak) {
                    Some(tweaked) => Ok(sign_schnorr(&digest, &tweaked)),
                    None => Err(SignerError::Refused),
                },
                None => Err(SignerError::Refused),
            },
            None => Err(SignerError::DegenerateKey),
        }
    }

    fn sign_holder_htlc_transaction_taproot(
        &self,
        htlc_tx: &Transaction,
        input: usize,
        htlc_descriptor: &HTLCDescriptor,
        htlc_scripts: &TaprootHtlcScripts,
    ) -> (r: Result<SchnorrSignature, SignerError>)
        ensures
            schnorr_signed(
                r,
                holder_htlc_signing(
                    self@,
                    htlc_tx@,
                    input as nat,
                    *htlc_descriptor,
                    *htlc_scripts,
                ),
            ),
    {
        TaprootChannelSigner::sign_holder_htlc_transaction(
            self,
            htlc_tx,
            input,
            htlc_descriptor,
            htlc_scripts,
        )
    }

    fn sign_counterparty_htlc_transaction_taproot(
        &self,
        channel_parameters: &ChannelTransactionParameters,
        htlc_tx: &Transaction,
        input: usize,
        amount: u64,
        per_commitment_point: &PublicKey,
        htlc: &HTLCOutputInCommitment,
        htlc_scripts: &TaprootHtlcScripts,
        all_prevouts: &[TxOut],
    ) -> (r: Result<SchnorrSignature, SignerError>)
        ensures
            schnorr_signed(
                r,
                counterparty_htlc_taproot(
                    self@,
                    htlc_tx@,
                    input as nat,
                    per_commitment_point@,
                    htlc_scripts.direct_claim(*htlc),
                    outputs_view(all_prevouts@),
                ),
            ),
    {
        match derive_private_key(per_commitment_point, &self.htlc_base_key()) {
            Some(key) => match taproot_script_spend_signature_hash(
                htlc_tx,
                input,
                all_prevouts,
                &leaf_hash(htlc_scripts.direct_claim_leaf(htlc)),
            ) {
                Some(digest) => Ok(sign_schnorr(&digest, &key)),
                None => Err(SignerError::Refused),
            },
            None => Err(SignerError::DegenerateKey),
        }
    }

    fn sign_closing_transaction(
        &self,
        channel_parameters: &ChannelTransactionParameters,
        closing_tx: &ClosingTransaction,
    ) -> (r: Result<Signature, SignerError>)
        ensures
            plain_signed(
                r,
                funding_spend(self@, *channel_parameters, closing_tx.built@, 0),
            ),
    {
        match self.funding_digest(channel_parameters, &closing_tx.built, 0) {
            Some((digest, key)) => Ok(sign_ecdsa(&digest, &key)),
            None => Err(SignerError::DegenerateKey),
        }
    }

    fn sign_holder_keyed_anchor_input(
        &mut self,
        chan_params: &ChannelTransactionParameters,
        anchor_tx: &Transaction,
        input: usize,
    ) -> (r: Result<Signature, SignerError>)
        ensures
            aux_signed(
                old(self)@,
                final(self)@,
                r,
                anchor_spend(old(self)@, *chan_params, anchor_tx@, input as nat),
            ),
    {
        let script: Vec<u8> = get_keyed_anchor_redeemscript(
            &chan_params.holder_pubkeys.funding_pubkey,
        );
        let digest: [u8; 32] = p2wsh_signature_hash(
            anchor_tx,
            input,
            script.as_slice(),
            ANCHOR_OUTPUT_VALUE_SATOSHI,
            SIGHASH_ALL,
        ).unwrap();
        match self.try_funding_key(chan_params.splice_parent_funding_txid) {
            Some(key) => Ok(self.sign_with_aux_rand(&digest, &key)),
            None => Err(SignerError::DegenerateKey),
        }
    }

    fn sign_channel_announcement_with_funding_key(
        &self,
        channel_parameters: &ChannelTransactionParameters,
        msg: &[u8],
    ) -> (r: Result<Signature, SignerError>)
        ensures
            plain_signed(
                r,
                match rotated_key(
                    self@.funding_key,
                    txid_view(channel_parameters.splice_parent_funding_txid),
                ) {
                    Some(key) => Ok((sha256d(msg@), key)),
                    None => Err(SignerError::DegenerateKey),
                },
            ),
    {
        match self.try_funding_key(channel_parameters.splice_parent_funding_txid) {
            Some(key) => Ok(sign_ecdsa(&sha256d_of(msg), &key)),
            None => Err(SignerError::DegenerateKey),
        }
    }

    fn sign_splice_shared_input(
        &self,
        channel_parameters: &ChannelTransactionParameters,
        tx: &Transaction,
        input_index: usize,
    ) -> (r: Result<Signature, SignerError>)
        ensures
            plain_signed(
                r,
                funding_spend(self@, *channel_parameters, tx@, input_index as nat),
            ),
    {
        match self.funding_digest(channel_parameters, tx, input_index) {
            Some((digest, key)) => Ok(sign_ecdsa(&digest, &key)),
            None => Err(SignerError::DegenerateKey),
        }
    }
}

} // verus!
