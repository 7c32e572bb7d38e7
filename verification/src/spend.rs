//! Outputs that are ours to spend, and the transactions that spend them.
use vstd::prelude::*;

use crate::bytes::{bytes_equal, copy_bytes, text};
use crate::change::{
    change_decision, change_is_what_is_left, fee, maybe_add_change_output, minimal_non_dust,
    ChangeDecision,
};
use crate::channel::{
    add_public_key_tweak, commitment_tweak, derive_add_tweak, derived_public,
    ChannelTransactionParameters, SignerError,
};
use crate::curve::{point_sum, public_of, valid_secret, PublicKey};
use crate::script::{
    countersigner_payment_script, get_revokeable_redeemscript,
    get_taproot_to_local_delay_script, get_taproot_to_local_revoke_script,
    get_taproot_to_remote_script, get_to_countersigner_keyed_anchor_redeemscript, new_p2tr, p2tr,
    p2wsh, push_int, revokeable_redeemscript, taproot_to_local_delay_script,
    taproot_to_local_revoke_script, taproot_to_remote_script,
    to_countersigner_anchor_redeemscript, to_p2wsh,
};
use crate::taproot::{build_taproot_script_path_witness, tap_spend, taproot_spend, TaprootSpend};
use crate::tx::{
    inputs_size, inputs_view, lemma_three_items, outputs_size, outputs_value, outputs_view, rows,
    weight, witness_size_of, witnesses_size, OutPoint, OutPointView, Transaction, TransactionView, TxIn,
    TxInView, TxOut, TxOutView, MAX_MONEY, SEGWIT_MARKER_FLAG_WEIGHT,
};

verus! {

/// The size of a public key in its compressed serialization.
pub const COMPRESSED_PUBLIC_KEY_SIZE: usize = 33;

/// The most an ECDSA signature and its hash type take.
pub const MAX_STANDARD_SIGNATURE_SIZE: usize = 72;

/// Witness weight for satisfying a P2WPKH spend: the number of items, the signature and the key, the
/// last two behind a length byte.
pub const P2WPKH_WITNESS_WEIGHT: u64 = 1 + 1 + 72 + 1 + 33;

/// The internal key of taproot outputs that can be spent by script alone: a point to which nobody
/// knows the secret.
pub const TAPROOT_NUMS_KEY: [u8; 32] = [
    0xdc, 0xa0, 0x94, 0x75, 0x11, 0x09, 0xd0, 0xbd, 0x05, 0x5d, 0x03, 0x56, 0x58, 0x74, 0xe8, 0x27,
    0x6d, 0xd5, 0x3e, 0x92, 0x6b, 0x44, 0xe3, 0xbd, 0x1b, 0xb6, 0xbf, 0x4b, 0xc1, 0x30, 0xa2, 0x79,
];

/// Information about a spendable output to a P2WSH script.
///
/// See [`SpendableOutputDescriptor::DelayedPaymentOutput`] for more details on how to spend this.
#[derive(Clone, Debug, Hash, PartialEq, Eq)]
pub struct DelayedPaymentOutputDescriptor {
    /// The outpoint which is spendable.
    pub outpoint: OutPoint,
    /// Per commitment point to derive the delayed payment key by key holder.
    pub per_commitment_point: PublicKey,
    /// The `nSequence` value which must be set in the spending input to satisfy the `OP_CSV` in
    /// the witness_script.
    pub to_self_delay: u16,
    /// The output which is referenced by the given outpoint.
    pub output: TxOut,
    /// The revocation point specific to the commitment transaction which was broadcast. Used to
    /// derive the witnessScript for this output.
    pub revocation_pubkey: PublicKey,
    /// Arbitrary identification information returned by a call to `channel_keys_id`. This may be
    /// useful in re-deriving keys used in the channel to spend the output.
    pub channel_keys_id: [u8; 32],
    /// The value of the channel which this output originated from, possibly indirectly.
    pub channel_value_satoshis: u64,
    /// The channel public keys and other parameters needed to generate a spending transaction or
    /// to provide to a signer.
    pub channel_transaction_parameters: Option<ChannelTransactionParameters>,
}

/// Information about a spendable output to our "payment key".
///
/// See [`SpendableOutputDescriptor::StaticPaymentOutput`] for more details on how to spend this.
#[derive(Clone, Debug, Hash, PartialEq, Eq)]
pub struct StaticPaymentOutputDescriptor {
    /// The outpoint which is spendable.
    pub outpoint: OutPoint,
    /// The output which is referenced by the given outpoint.
    pub output: TxOut,
    /// Arbitrary identification information returned by a call to `channel_keys_id`. This may be
    /// useful in re-deriving keys used in the channel to spend the output.
    pub channel_keys_id: [u8; 32],
    /// The value of the channel which this transactions spends.
    pub channel_value_satoshis: u64,
    /// The necessary channel parameters that need to be provided to the signer.
    pub channel_transaction_parameters: Option<ChannelTransactionParameters>,
}

/// Describes the necessary information to spend a spendable output.
#[derive(Clone, Debug, Hash, PartialEq, Eq)]
pub enum SpendableOutputDescriptor {
    /// An output to a script of the node's own wallet: the destination script or the shutdown script.
    StaticOutput {
        /// The outpoint which is spendable.
        outpoint: OutPoint,
        /// The output which is referenced by the given outpoint.
        output: TxOut,
        /// The `channel_keys_id` for the channel which this output came from.
        channel_keys_id: Option<[u8; 32]>,
    },
    /// An output to a P2WSH script which can be spent with a single signature after an `OP_CSV`
    /// delay. The witness of the spending input is the signature, an empty item and the script, and
    /// its sequence is the delay.
    DelayedPaymentOutput(DelayedPaymentOutputDescriptor),
    /// An output spendable exclusively by our payment key. The witness of the spending input is the
    /// signature and, with anchors, the witness script, otherwise the key.
    StaticPaymentOutput(StaticPaymentOutputDescriptor),
}

/// The key of an entry in a PSBT input's proprietary map.
#[derive(Clone, Debug, PartialEq, Eq)]
pub struct ProprietaryKey {
    /// The namespace.
    pub prefix: Vec<u8>,
    /// The type within the namespace.
    pub subtype: u8,
    /// The key itself.
    pub key: Vec<u8>,
}

/// An input of a partially signed transaction.
#[derive(Clone, Debug, PartialEq, Eq)]
pub struct PsbtInput {
    /// The output that the input spends.
    pub witness_utxo: Option<TxOut>,
    /// The witness script of that output.
    pub witness_script: Option<Vec<u8>>,
    /// What this library adds to the input.
    pub proprietary: Vec<(ProprietaryKey, Vec<u8>)>,
    /// The script signature, once the input is signed.
    pub final_script_sig: Option<Vec<u8>>,
    /// The witness, once the input is signed.
    pub final_script_witness: Option<Vec<Vec<u8>>>,
}

/// An output of a partially signed transaction, which says nothing beyond the transaction.
#[derive(Clone, Copy, Debug, PartialEq, Eq)]
pub struct PsbtOutput {}

/// A partially signed transaction.
#[derive(Clone, Debug, PartialEq, Eq)]
pub struct Psbt {
    pub unsigned_tx: Transaction,
    pub inputs: Vec<PsbtInput>,
    pub outputs: Vec<PsbtOutput>,
}

/// What a [`PsbtInput`] holds.
#[verifier::ext_equal]
pub struct PsbtInputView {
    pub witness_utxo: Option<TxOutView>,
    pub witness_script: Option<Seq<u8>>,
    pub proprietary: Seq<(ProprietaryKeyView, Seq<u8>)>,
    pub final_script_sig: Option<Seq<u8>>,
    pub final_script_witness: Option<Seq<Seq<u8>>>,
}

/// What a [`ProprietaryKey`] holds.
#[verifier::ext_equal]
pub struct ProprietaryKeyView {
    pub prefix: Seq<u8>,
    pub subtype: u8,
    pub key: Seq<u8>,
}

/// What a [`Psbt`] holds.
#[verifier::ext_equal]
pub struct PsbtView {
    pub unsigned_tx: TransactionView,
    pub inputs: Seq<PsbtInputView>,
    pub outputs: nat,
}

impl View for PsbtInput {
    type V = PsbtInputView;

    open spec fn view(&self) -> PsbtInputView {
        PsbtInputView {
            witness_utxo: match self.witness_utxo {
                Some(o) => Some(o@),
                None => None,
            },
            witness_script: match self.witness_script {
                Some(s) => Some(s@),
                None => None,
            },
            proprietary: self.proprietary@.map_values(
                |e: (ProprietaryKey, Vec<u8>)|
                    (
                        ProprietaryKeyView {
                            prefix: e.0.prefix@,
                            subtype: e.0.subtype,
                            key: e.0.key@,
                        },
                        e.1@,
                    ),
            ),
            final_script_sig: match self.final_script_sig {
                Some(s) => Some(s@),
                None => None,
            },
            final_script_witness: match self.final_script_witness {
                Some(w) => Some(rows(w@)),
                None => None,
            },
        }
    }
}

/// What a list of inputs holds.
pub open spec fn psbt_inputs_view(v: Seq<PsbtInput>) -> Seq<PsbtInputView> {
    v.map_values(|i: PsbtInput| i@)
}

impl View for Psbt {
    type V = PsbtView;

    open spec fn view(&self) -> PsbtView {
        PsbtView {
            unsigned_tx: self.unsigned_tx@,
            inputs: psbt_inputs_view(self.inputs@),
            outputs: self.outputs@.len(),
        }
    }
}

/// A PSBT input that says nothing but which output it spends, and perhaps by which script.
pub open spec fn plain_psbt_input(output: TxOutView, script: Option<Seq<u8>>) -> PsbtInputView {
    PsbtInputView {
        witness_utxo: Some(output),
        witness_script: script,
        proprietary: Seq::empty(),
        final_script_sig: None,
        final_script_witness: None,
    }
}

/// The key under which a PSBT input carries what to add to the basepoint's secret.
pub open spec fn add_tweak_key() -> ProprietaryKeyView {
    ProprietaryKeyView {
        prefix: text("LDK_spendable_output"),
        subtype: 0,
        key: text("add_tweak"),
    }
}

/// The output key and the control block for the delay leaf of a taproot `to_local` output.
pub open spec fn to_local_spend(revocation: Seq<u8>, delay: u16, delayed: Seq<u8>) -> Option<
    (Seq<u8>, Seq<u8>),
> {
    tap_spend(
        TAPROOT_NUMS_KEY@,
        taproot_to_local_delay_script(delay, delayed),
        Some(taproot_to_local_revoke_script(revocation, delayed)),
    )
}

/// The output key and the control block for the only leaf of a taproot `to_remote` output.
pub open spec fn to_remote_spend(key: Seq<u8>) -> Option<(Seq<u8>, Seq<u8>)> {
    tap_spend(TAPROOT_NUMS_KEY@, taproot_to_remote_script(key), None)
}

/// What spending a taproot `to_local` output by its delay leaf takes.
pub fn taproot_to_local_spend_info(revocation: &PublicKey, delay: u16, delayed: &PublicKey) -> (r:
    Option<TaprootSpend>)
    ensures
        match (r, to_local_spend(revocation@, delay, delayed@)) {
            (Some(s), Some((key, block))) => s.output_key@ == key && s.control_block@ == block
                && block.len() == 65,
            (None, None) => true,
            _ => false,
        },
{
    let leaf: Vec<u8> = get_taproot_to_local_delay_script(delay, delayed);
    let sibling: Vec<u8> = get_taproot_to_local_revoke_script(revocation, delayed);
    taproot_spend(&TAPROOT_NUMS_KEY, leaf.as_slice(), Some(sibling.as_slice()))
}

/// What spending a taproot `to_remote` output takes.
pub fn taproot_to_remote_spend_info(key: &PublicKey) -> (r: Option<TaprootSpend>)
    ensures
        match (r, to_remote_spend(key@)) {
            (Some(s), Some((out, block))) => s.output_key@ == out && s.control_block@ == block
                && block.len() == 33,
            (None, None) => true,
            _ => false,
        },
{
    let leaf: Vec<u8> = get_taproot_to_remote_script(key);
    taproot_spend(&TAPROOT_NUMS_KEY, leaf.as_slice(), None)
}

/// Whether a channel's outputs are simple-taproot outputs; not, where its parameters are unknown.
pub open spec fn taproot_channel(params: Option<ChannelTransactionParameters>) -> bool {
    params is Some && params->0.channel_type_features.simple_taproot
}

/// Whether a channel has anchor outputs; not, where its parameters are unknown.
pub open spec fn anchor_channel(params: Option<ChannelTransactionParameters>) -> bool {
    params is Some && params->0.channel_type_features.anchors_zero_fee_htlc_tx
}

fn is_taproot_channel(params: &Option<ChannelTransactionParameters>) -> (r: bool)
    ensures
        r == taproot_channel(*params),
{
    match params {
        Some(p) => p.channel_type_features.simple_taproot,
        None => false,
    }
}

fn is_anchor_channel(params: &Option<ChannelTransactionParameters>) -> (r: bool)
    ensures
        r == anchor_channel(*params),
{
    match params {
        Some(p) => p.channel_type_features.anchors_zero_fee_htlc_tx,
        None => false,
    }
}

/// The weight of a script-path witness with a 64-byte signature.
fn script_path_weight(leaf: &[u8], control_block: &[u8]) -> (r: u64)
    requires
        leaf@.len() < 0xfd,
        control_block@.len() < 0xfd,
    ensures
        r == 1 + 65 + (1 + leaf@.len()) + (1 + control_block@.len()) + SEGWIT_MARKER_FLAG_WEIGHT,
{
    let placeholder: [u8; 64] = [0u8; 64];
    let witness: Vec<Vec<u8>> = build_taproot_script_path_witness(
        &placeholder,
        leaf,
        control_block,
    );
    proof {
        lemma_three_items(rows(witness@));
    }
    witness_size_of(witness.as_slice()) + SEGWIT_MARKER_FLAG_WEIGHT
}

impl DelayedPaymentOutputDescriptor {
    /// The maximum length a well-formed witness spending one of these should have: the number of
    /// items, the signature, an empty item and the script, each behind a length byte.
    pub const MAX_WITNESS_LENGTH: u64 = 1 + 1 + 72 + 1 + 1 + 78;

    /// Whether this descriptor's `to_local` output is a simple-taproot P2TR output, swept via a BIP 341
    /// script-path spend, rather than a P2WSH output swept via an ECDSA witness.
    pub fn is_taproot(&self) -> (r: bool)
        ensures
            r == taproot_channel(self.channel_transaction_parameters),
    {
        is_taproot_channel(&self.channel_transaction_parameters)
    }

    /// The maximum length a well-formed witness spending this output should have, unless it is a
    /// taproot output. For those, use [`Self::taproot_max_witness_weight`].
    pub fn max_witness_length(&self) -> (r: u64)
        ensures
            r == Self::MAX_WITNESS_LENGTH,
    {
        Self::MAX_WITNESS_LENGTH
    }

    /// The most a witness spending this output weighs, where the output key exists.
    pub open spec fn witness_weight(self) -> Option<nat> {
        if !taproot_channel(self.channel_transaction_parameters) {
            Some(Self::MAX_WITNESS_LENGTH as nat)
        } else if to_local_spend(
            self.revocation_pubkey@,
            self.to_self_delay,
            self.revocation_pubkey@,
        ) is Some {
            Some(1 + 65 + (1 + 35 + push_int(self.to_self_delay as nat).len()) + 66 + 2)
        } else {
            None
        }
    }

    /// The worst-case serialized weight of the witness spending this `to_local` output.
    ///
    /// For a taproot output this is the weight of a witness built from the output's own leaf and
    /// control block, with a placeholder signature and the revocation key standing in for the delayed
    /// key, neither of which changes the length; the marker and flag of the transaction count too.
    pub fn taproot_max_witness_weight(&self) -> (r: Result<u64, SignerError>)
        ensures
            match self.witness_weight() {
                Some(w) => r == Ok::<u64, SignerError>(w as u64) && w <= 174,
                None => r == Err::<u64, SignerError>(SignerError::DegenerateKey),
            },
    {
        if !self.is_taproot() {
            return Ok(Self::MAX_WITNESS_LENGTH);
        }
        let placeholder: PublicKey = self.revocation_pubkey;
        let leaf: Vec<u8> = get_taproot_to_local_delay_script(self.to_self_delay, &placeholder);
        proof {
            crate::script::lemma_push_int_len(self.to_self_delay as nat);
        }
        match taproot_to_local_spend_info(&self.revocation_pubkey, self.to_self_delay, &placeholder) {
            Some(spend) => Ok(script_path_weight(leaf.as_slice(), spend.control_block.as_slice())),
            None => Err(SignerError::DegenerateKey),
        }
    }

    /// The key that the output pays after the delay, as far as the channel parameters tell it.
    pub open spec fn delayed_key(self) -> Option<Seq<u8>> {
        derived_public(
            (self.channel_transaction_parameters->0).holder_pubkeys.delayed_payment_basepoint@,
            self.per_commitment_point@,
        )
    }

    /// The script that the channel parameters, where known, say the output has.
    pub open spec fn expected_script(self) -> Result<Option<Seq<u8>>, SignerError> {
        if self.channel_transaction_parameters is None {
            Ok(None)
        } else {
            match self.delayed_key() {
                None => Err(SignerError::DegenerateKey),
                Some(key) => if taproot_channel(self.channel_transaction_parameters) {
                    match to_local_spend(self.revocation_pubkey@, self.to_self_delay, key) {
                        Some((out, _)) => Ok(Some(p2tr(out))),
                        None => Err(SignerError::DegenerateKey),
                    }
                } else {
                    Ok(
                        Some(
                            p2wsh(
                                revokeable_redeemscript(
                                    self.revocation_pubkey@,
                                    self.to_self_delay,
                                    key,
                                ),
                            ),
                        ),
                    )
                },
            }
        }
    }

    fn delayed_payment_key(&self, params: &ChannelTransactionParameters) -> (r: Option<
        (PublicKey, [u8; 32]),
    >)
        requires
            self.channel_transaction_parameters == Some(*params),
        ensures
            match r {
                Some(k) => Some(k.0@),
                None => None,
            } == self.delayed_key(),
            r matches Some(k) ==> k.1@ == commitment_tweak(
                self.per_commitment_point@,
                params.holder_pubkeys.delayed_payment_basepoint@,
            ),
    {
        let base: PublicKey = params.holder_pubkeys.delayed_payment_basepoint;
        let tweak: [u8; 32] = derive_add_tweak(&base, &self.per_commitment_point);
        match add_public_key_tweak(&base, &tweak) {
            Some(key) => Some((key, tweak)),
            None => None,
        }
    }

    fn expected_script_pubkey(&self) -> (r: Result<Option<Vec<u8>>, SignerError>)
        ensures
            script_result(r) == self.expected_script(),
    {
        match &self.channel_transaction_parameters {
            None => Ok(None),
            Some(params) => {
                match self.delayed_payment_key(params) {
                    None => Err(SignerError::DegenerateKey),
                    Some((key, _)) => if params.channel_type_features.simple_taproot {
                        match taproot_to_local_spend_info(
                            &self.revocation_pubkey,
                            self.to_self_delay,
                            &key,
                        ) {
                            Some(spend) => Ok(Some(new_p2tr(&spend.output_key))),
                            None => Err(SignerError::DegenerateKey),
                        }
                    } else {
                        let script: Vec<u8> = get_revokeable_redeemscript(
                            &self.revocation_pubkey,
                            self.to_self_delay,
                            &key,
                        );
                        Ok(Some(to_p2wsh(script.as_slice())))
                    },
                }
            },
        }
    }
}

/// What a script that may be unknown holds.
pub open spec fn script_result(r: Result<Option<Vec<u8>>, SignerError>) -> Result<
    Option<Seq<u8>>,
    SignerError,
> {
    match r {
        Ok(Some(s)) => Ok(Some(s@)),
        Ok(None) => Ok(None),
        Err(e) => Err(e),
    }
}

impl StaticPaymentOutputDescriptor {
    /// Returns the `witness_script` of the spendable output.
    ///
    /// Note that this will only return `Some` for [`StaticPaymentOutputDescriptor`]s that
    /// originated from an anchor outputs channel, as they take the form of a P2WSH script.
    pub fn witness_script(&self) -> (r: Option<Vec<u8>>)
        ensures
            match r {
                Some(s) => Some(s@),
                None => None,
            } == self.anchor_script(),
    {
        match &self.channel_transaction_parameters {
            Some(params) => if params.channel_type_features.anchors_zero_fee_htlc_tx {
                Some(
                    get_to_countersigner_keyed_anchor_redeemscript(
                        &params.holder_pubkeys.payment_point,
                    ),
                )
            } else {
                None
            },
            None => None,
        }
    }

    /// The witness script of an anchor channel's output.
    pub open spec fn anchor_script(self) -> Option<Seq<u8>> {
        if anchor_channel(self.channel_transaction_parameters) {
            Some(
                to_countersigner_anchor_redeemscript(
                    (self.channel_transaction_parameters->0).holder_pubkeys.payment_point@,
                ),
            )
        } else {
            None
        }
    }

    /// The most a witness spending this output takes, unless it is a taproot output.
    pub open spec fn legacy_witness_length(self) -> u64 {
        if anchor_channel(self.channel_transaction_parameters) {
            (1 + 1 + MAX_STANDARD_SIGNATURE_SIZE + 1 + (1 + COMPRESSED_PUBLIC_KEY_SIZE + 3)) as u64
        } else {
            P2WPKH_WITNESS_WEIGHT
        }
    }

    /// The maximum length a well-formed witness spending one of these should have, unless it is a
    /// taproot output. For those, use [`Self::taproot_max_witness_weight`].
    pub fn max_witness_length(&self) -> (r: u64)
        ensures
            r == self.legacy_witness_length(),
    {
        if is_anchor_channel(&self.channel_transaction_parameters) {
            // A key push, OP_CHECKSIGVERIFY, OP_1 and OP_CHECKSEQUENCEVERIFY.
            let witness_script_weight: usize = 1 + COMPRESSED_PUBLIC_KEY_SIZE + 1 + 1 + 1;
            (1 + 1 + MAX_STANDARD_SIGNATURE_SIZE + 1 + witness_script_weight) as u64
        } else {
            P2WPKH_WITNESS_WEIGHT
        }
    }

    /// Whether this descriptor's `to_remote` output is a simple-taproot P2TR output, swept via a
    /// BIP 341 script-path spend.
    pub fn is_taproot(&self) -> (r: bool)
        ensures
            r == taproot_channel(self.channel_transaction_parameters),
    {
        is_taproot_channel(&self.channel_transaction_parameters)
    }

    /// The most a witness spending this output weighs, where the output key exists.
    pub open spec fn witness_weight(self) -> Option<nat> {
        if !taproot_channel(self.channel_transaction_parameters) {
            Some(self.legacy_witness_length() as nat)
        } else if to_remote_spend(
            (self.channel_transaction_parameters->0).holder_pubkeys.payment_point@,
        ) is Some {
            Some(1 + 65 + (1 + 36) + (1 + 33) + 2)
        } else {
            None
        }
    }

    /// The worst-case serialized weight of the witness spending this `to_remote` output, measured on
    /// a witness built from the output's own leaf and control block where it is a taproot output.
    pub fn taproot_max_witness_weight(&self) -> (r: Result<u64, SignerError>)
        ensures
            match self.witness_weight() {
                Some(w) => r == Ok::<u64, SignerError>(w as u64) && w <= 174,
                None => r == Err::<u64, SignerError>(SignerError::DegenerateKey),
            },
    {
        match &self.channel_transaction_parameters {
            Some(params) => if params.channel_type_features.simple_taproot {
                let key: PublicKey = params.holder_pubkeys.payment_point;
                let leaf: Vec<u8> = get_taproot_to_remote_script(&key);
                match taproot_to_remote_spend_info(&key) {
                    Some(spend) => Ok(
                        script_path_weight(leaf.as_slice(), spend.control_block.as_slice()),
                    ),
                    None => Err(SignerError::DegenerateKey),
                }
            } else {
                Ok(self.max_witness_length())
            },
            None => Ok(self.max_witness_length()),
        }
    }

    /// Returns true if spending this output requires a transaction with a CheckSequenceVerify
    /// value of at least 1: the anchor script and the taproot leaf both wait one block.
    pub fn needs_csv_1_for_spend(&self) -> (r: bool)
        ensures
            r == (anchor_channel(self.channel_transaction_parameters) || taproot_channel(
                self.channel_transaction_parameters,
            )),
    {
        is_anchor_channel(&self.channel_transaction_parameters) || self.is_taproot()
    }
}

impl SpendableOutputDescriptor {
    /// The output that the descriptor describes.
    pub open spec fn output(self) -> TxOutView {
        match self {
            SpendableOutputDescriptor::StaticOutput { output, .. } => output@,
            SpendableOutputDescriptor::DelayedPaymentOutput(d) => d.output@,
            SpendableOutputDescriptor::StaticPaymentOutput(d) => d.output@,
        }
    }

    /// Where that output is.
    pub open spec fn outpoint(self) -> OutPointView {
        match self {
            SpendableOutputDescriptor::StaticOutput { outpoint, .. } => outpoint@,
            SpendableOutputDescriptor::DelayedPaymentOutput(d) => d.outpoint@,
            SpendableOutputDescriptor::StaticPaymentOutput(d) => d.outpoint@,
        }
    }

    /// The sequence of the input that spends it: the delay, one where a script waits a block, or zero.
    pub open spec fn sequence(self) -> u32 {
        match self {
            SpendableOutputDescriptor::StaticOutput { .. } => 0,
            SpendableOutputDescriptor::DelayedPaymentOutput(d) => d.to_self_delay as u32,
            SpendableOutputDescriptor::StaticPaymentOutput(d) => if anchor_channel(
                d.channel_transaction_parameters,
            ) || taproot_channel(d.channel_transaction_parameters) {
                1
            } else {
                0
            },
        }
    }

    /// The unsigned input that spends the output.
    pub open spec fn unsigned_input(self) -> TxInView {
        TxInView {
            previous_output: self.outpoint(),
            script_sig: Seq::empty(),
            sequence: self.sequence(),
            witness: Seq::empty(),
        }
    }

    /// What a PSBT says of that input, where the keys it names exist.
    pub open spec fn psbt_input(self) -> Option<PsbtInputView> {
        match self {
            SpendableOutputDescriptor::StaticOutput { output, .. } => Some(
                plain_psbt_input(output@, None),
            ),
            SpendableOutputDescriptor::DelayedPaymentOutput(
                d,
            ) => if d.channel_transaction_parameters is None {
                Some(plain_psbt_input(d.output@, None))
            } else {
                match d.delayed_key() {
                    Some(key) => Some(
                        PsbtInputView {
                            proprietary: seq![
                                (
                                    add_tweak_key(),
                                    commitment_tweak(
                                        d.per_commitment_point@,
                                        (d.channel_transaction_parameters->0)
                                            .holder_pubkeys.delayed_payment_basepoint@,
                                    ),
                                ),
                            ],
                            ..plain_psbt_input(
                                d.output@,
                                Some(
                                    revokeable_redeemscript(
                                        d.revocation_pubkey@,
                                        d.to_self_delay,
                                        key,
                                    ),
                                ),
                            )
                        },
                    ),
                    None => None,
                }
            },
            SpendableOutputDescriptor::StaticPaymentOutput(d) => Some(
                plain_psbt_input(d.output@, d.anchor_script()),
            ),
        }
    }

    /// The most the witness of that input weighs. A signature ground to a low R is one byte shorter,
    /// which no Schnorr signature is.
    pub open spec fn witness_weight(self, grind: bool) -> Option<nat> {
        match self {
            SpendableOutputDescriptor::StaticOutput { .. } => Some(
                (P2WPKH_WITNESS_WEIGHT - (if grind {
                    1int
                } else {
                    0
                })) as nat,
            ),
            SpendableOutputDescriptor::DelayedPaymentOutput(d) => match d.witness_weight() {
                Some(w) => Some(
                    (w - (if grind && !taproot_channel(d.channel_transaction_parameters) {
                        1int
                    } else {
                        0
                    })) as nat,
                ),
                None => None,
            },
            SpendableOutputDescriptor::StaticPaymentOutput(d) => match d.witness_weight() {
                Some(w) => Some(
                    (w - (if grind && !taproot_channel(d.channel_transaction_parameters) {
                        1int
                    } else {
                        0
                    })) as nat,
                ),
                None => None,
            },
        }
    }

    /// The script that the channel parameters, where known, say a delayed output has. Of an output to our
    /// payment key they say nothing certain: a channel has two such keys, and they name one.
    pub open spec fn expected_script(self) -> Result<Option<Seq<u8>>, SignerError> {
        match self {
            SpendableOutputDescriptor::StaticOutput { .. } => Ok(None),
            SpendableOutputDescriptor::DelayedPaymentOutput(d) => d.expected_script(),
            SpendableOutputDescriptor::StaticPaymentOutput(_) => Ok(None),
        }
    }

    /// The weight and the PSBT input of a spend, or why there is none.
    pub open spec fn plan(self, grind: bool) -> Result<(nat, PsbtInputView), SignerError> {
        match (self.witness_weight(grind), self.expected_script(), self.psbt_input()) {
            (Some(w), Ok(script), Some(input)) => if script is Some && script->0
                != self.output().script_pubkey {
                Err(SignerError::Refused)
            } else {
                Ok((w, input))
            },
            _ => Err(SignerError::DegenerateKey),
        }
    }
}

/// That no two descriptors are of one output.
pub open spec fn all_distinct(descriptors: Seq<&SpendableOutputDescriptor>) -> bool {
    forall|i: int, j: int|
        #![trigger descriptors[i], descriptors[j]]
        0 <= i < j < descriptors.len() ==> descriptors[i].outpoint() != descriptors[j].outpoint()
}

/// The satoshis that descriptors describe.
pub open spec fn total_value(descriptors: Seq<&SpendableOutputDescriptor>) -> nat
    decreases descriptors.len(),
{
    if descriptors.len() == 0 {
        0
    } else {
        total_value(descriptors.drop_last()) + descriptors.last().output().value as nat
    }
}

/// The weight and the PSBT inputs of all spends, or why the first one that fails does.
pub open spec fn plans(descriptors: Seq<&SpendableOutputDescriptor>, grind: bool) -> Result<
    (nat, Seq<PsbtInputView>),
    SignerError,
>
    decreases descriptors.len(),
{
    if descriptors.len() == 0 {
        Ok((0, Seq::empty()))
    } else {
        match plans(descriptors.drop_last(), grind) {
            Err(e) => Err(e),
            Ok((w, inputs)) => match descriptors.last().plan(grind) {
                Err(e) => Err(e),
                Ok((x, input)) => Ok((w + x, inputs.push(input))),
            },
        }
    }
}

/// The inputs that spend all descriptors, in order.
pub open spec fn unsigned_inputs(descriptors: Seq<&SpendableOutputDescriptor>) -> Seq<TxInView> {
    descriptors.map_values(|d: &SpendableOutputDescriptor| d.unsigned_input())
}

/// The PSBT that spends descriptors to outputs and change, with the most it weighs signed, or why
/// there is none.
pub open spec fn spend_plan(
    descriptors: Seq<&SpendableOutputDescriptor>,
    outputs: Seq<TxOutView>,
    change_script: Seq<u8>,
    feerate: u32,
    locktime: Option<u32>,
    grind: bool,
) -> Result<(PsbtView, nat), SignerError> {
    if !all_distinct(descriptors) || total_value(descriptors) > MAX_MONEY {
        Err(SignerError::Refused)
    } else {
        match plans(descriptors, grind) {
            Err(e) => Err(e),
            Ok((w, inputs)) => {
                let tx = TransactionView {
                    version: 2,
                    lock_time: match locktime {
                        Some(t) => t,
                        None => 0,
                    },
                    input: unsigned_inputs(descriptors),
                    output: outputs,
                };
                match change_decision(
                    tx,
                    total_value(descriptors) as u64,
                    w,
                    feerate,
                    change_script,
                ) {
                    ChangeDecision::Unfunded => Err(SignerError::Refused),
                    ChangeDecision::Without(max) => Ok(
                        (PsbtView { unsigned_tx: tx, inputs, outputs: outputs.len() }, max),
                    ),
                    ChangeDecision::With(value, max) => Ok(
                        (
                            PsbtView {
                                unsigned_tx: TransactionView {
                                    output: outputs.push(
                                        TxOutView {
                                            value: value as u64,
                                            script_pubkey: change_script,
                                        },
                                    ),
                                    ..tx
                                },
                                inputs,
                                outputs: outputs.len() + 1,
                            },
                            max,
                        ),
                    ),
                }
            },
        }
    }
}

/// That the sizes at hand fit 64 bits.
pub open spec fn spend_fits(count: nat, outputs: Seq<TxOutView>, change_script: Seq<u8>) -> bool {
    4 * outputs_size(outputs) + 1000 * count + 4 * change_script.len() + 1000 <= u64::MAX
}

proof fn lemma_unsigned_sizes(descriptors: Seq<&SpendableOutputDescriptor>)
    ensures
        inputs_size(unsigned_inputs(descriptors)) == 41 * descriptors.len(),
        witnesses_size(unsigned_inputs(descriptors)) == descriptors.len(),
    decreases descriptors.len(),
{
    if descriptors.len() > 0 {
        lemma_unsigned_sizes(descriptors.drop_last());
        assert(unsigned_inputs(descriptors).drop_last() =~= unsigned_inputs(
            descriptors.drop_last(),
        ));
        assert(unsigned_inputs(descriptors).last() == descriptors.last().unsigned_input());
        assert(crate::tx::items_size(Seq::<Seq<u8>>::empty()) == 0);
    }
}

proof fn lemma_plans_weight(descriptors: Seq<&SpendableOutputDescriptor>, grind: bool)
    requires
        plans(descriptors, grind) is Ok,
    ensures
        (plans(descriptors, grind)->Ok_0).0 <= 174 * descriptors.len(),
        (plans(descriptors, grind)->Ok_0).1.len() == descriptors.len(),
    decreases descriptors.len(),
{
    if descriptors.len() > 0 {
        lemma_plans_weight(descriptors.drop_last(), grind);
        let d = *descriptors.last();
        if let SpendableOutputDescriptor::DelayedPaymentOutput(x) = d {
            crate::script::lemma_push_int_len(x.to_self_delay as nat);
        }
    }
}

/// What a plan says of each input is what its descriptor says of it.
proof fn lemma_plans_inputs(descriptors: Seq<&SpendableOutputDescriptor>, grind: bool)
    requires
        plans(descriptors, grind) is Ok,
    ensures
        (plans(descriptors, grind)->Ok_0).1.len() == descriptors.len(),
        forall|i: int|
            0 <= i < descriptors.len() ==> (#[trigger] descriptors[i]).plan(grind) is Ok && (plans(
                descriptors,
                grind,
            )->Ok_0).1[i] == (descriptors[i].plan(grind)->Ok_0).1,
    decreases descriptors.len(),
{
    if descriptors.len() > 0 {
        let before = descriptors.drop_last();
        lemma_plans_inputs(before, grind);
        assert forall|i: int| 0 <= i < descriptors.len() implies (
        #[trigger] descriptors[i]).plan(grind) is Ok && (plans(descriptors, grind)->Ok_0).1[i] == (
        descriptors[i].plan(grind)->Ok_0).1 by {
            if i < before.len() {
                assert(before[i] == descriptors[i]);
            }
        }
    }
}

/// A plan spends each of the outputs described, once and in order, each input waiting as long as the output's
/// script asks for, and says of each input which output it spends. It pays the outputs asked for and at most
/// one more, to the change script and worth an output. What it pays, and the fee of the weight that it gives,
/// are covered by what is described; with change, they take all of it. That weight is the transaction's, its
/// marker's and flag's, and what its witnesses are planned at.
pub proof fn plans_spend_what_is_described(
    descriptors: Seq<&SpendableOutputDescriptor>,
    outputs: Seq<TxOutView>,
    change_script: Seq<u8>,
    feerate: u32,
    locktime: Option<u32>,
    grind: bool,
)
    requires
        spend_plan(descriptors, outputs, change_script, feerate, locktime, grind) is Ok,
    ensures
        ({
            let (psbt, max) = spend_plan(
                descriptors,
                outputs,
                change_script,
                feerate,
                locktime,
                grind,
            )->Ok_0;
            let tx = psbt.unsigned_tx;
            let n = outputs.len();
            &&& tx.version == 2
            &&& tx.lock_time == match locktime {
                Some(t) => t,
                None => 0,
            }
            &&& tx.input.len() == descriptors.len()
            &&& psbt.inputs.len() == descriptors.len()
            &&& forall|i: int|
                0 <= i < descriptors.len() ==> {
                    let d = *(#[trigger] descriptors[i]);
                    &&& tx.input[i].previous_output == d.outpoint()
                    &&& tx.input[i].script_sig.len() == 0
                    &&& tx.input[i].witness.len() == 0
                    &&& tx.input[i].sequence == match d {
                        SpendableOutputDescriptor::StaticOutput { .. } => 0u32,
                        SpendableOutputDescriptor::DelayedPaymentOutput(x) => x.to_self_delay as u32,
                        SpendableOutputDescriptor::StaticPaymentOutput(x) => match x.channel_transaction_parameters {
                            Some(p) => if p.channel_type_features.anchors_zero_fee_htlc_tx
                                || p.channel_type_features.simple_taproot {
                                1u32
                            } else {
                                0u32
                            },
                            None => 0u32,
                        },
                    }
                    &&& psbt.inputs[i].witness_utxo == Some(d.output())
                    &&& psbt.inputs[i].final_script_sig is None
                    &&& psbt.inputs[i].final_script_witness is None
                }
            &&& forall|i: int, j: int|
                #![trigger descriptors[i], descriptors[j]]
                0 <= i < j < descriptors.len() ==> descriptors[i].outpoint()
                    != descriptors[j].outpoint()
            &&& n <= tx.output.len() <= n + 1
            &&& psbt.outputs == tx.output.len()
            &&& tx.output.take(n as int) == outputs
            &&& outputs_value(tx.output) + fee(max, feerate) <= total_value(descriptors)
            &&& tx.output.len() == n + 1 ==> {
                &&& tx.output[n as int].script_pubkey == change_script
                &&& tx.output[n as int].value >= minimal_non_dust(change_script)
                &&& outputs_value(tx.output) + fee(max, feerate) == total_value(descriptors)
            }
            &&& max == weight(tx) + 2 + (plans(descriptors, grind)->Ok_0).0
        }),
{
    let (psbt, max) = spend_plan(
        descriptors,
        outputs,
        change_script,
        feerate,
        locktime,
        grind,
    )->Ok_0;
    let planned = TransactionView { output: outputs, ..psbt.unsigned_tx };
    lemma_plans_inputs(descriptors, grind);
    change_is_what_is_left(
        planned,
        total_value(descriptors) as u64,
        (plans(descriptors, grind)->Ok_0).0,
        feerate,
        change_script,
    );
    assert(psbt.unsigned_tx.output.take(outputs.len() as int) =~= outputs);
    assert forall|i: int| 0 <= i < descriptors.len() implies psbt.unsigned_tx.input[i]
        == (#[trigger] descriptors[i]).unsigned_input() by {}
}

/// When a plan is owed. A spend of one output is planned unless a key that it names does not exist, or the
/// channel's parameters say that a delayed output has another script than it has. A spend of many is planned
/// where no output is described twice, they hold no more than can exist, each can be planned, and what is
/// asked for and its fee are covered.
pub proof fn plans_are_made_where_they_can_be(
    descriptors: Seq<&SpendableOutputDescriptor>,
    outputs: Seq<TxOutView>,
    change_script: Seq<u8>,
    feerate: u32,
    locktime: Option<u32>,
    grind: bool,
    d: SpendableOutputDescriptor,
)
    ensures
        d is StaticOutput ==> d.plan(grind) is Ok,
        d matches SpendableOutputDescriptor::StaticPaymentOutput(x) ==> (d.plan(grind) is Ok <==> (
        taproot_channel(x.channel_transaction_parameters) ==> to_remote_spend(
            (x.channel_transaction_parameters->0).holder_pubkeys.payment_point@,
        ) is Some)),
        d matches SpendableOutputDescriptor::DelayedPaymentOutput(x) ==> match x.channel_transaction_parameters {
            None => d.plan(grind) is Ok,
            Some(p) => {
                let key = derived_public(
                    p.holder_pubkeys.delayed_payment_basepoint@,
                    x.per_commitment_point@,
                );
                &&& !p.channel_type_features.simple_taproot ==> (d.plan(grind) is Ok <==> key is Some
                    && x.output.script_pubkey@ == p2wsh(
                    revokeable_redeemscript(x.revocation_pubkey@, x.to_self_delay, key->0),
                ))
                &&& p.channel_type_features.simple_taproot && d.plan(grind) is Ok ==> key is Some
                    && to_local_spend(x.revocation_pubkey@, x.to_self_delay, key->0) is Some
                    && x.output.script_pubkey@ == p2tr(
                    (to_local_spend(x.revocation_pubkey@, x.to_self_delay, key->0)->0).0,
                )
                &&& p.channel_type_features.simple_taproot && key is Some && to_local_spend(
                    x.revocation_pubkey@,
                    x.to_self_delay,
                    x.revocation_pubkey@,
                ) is Some && to_local_spend(x.revocation_pubkey@, x.to_self_delay, key->0) is Some
                    && x.output.script_pubkey@ == p2tr(
                    (to_local_spend(x.revocation_pubkey@, x.to_self_delay, key->0)->0).0,
                ) ==> d.plan(grind) is Ok
            },
        },
        spend_plan(descriptors, outputs, change_script, feerate, locktime, grind) is Ok <==> {
            &&& forall|i: int, j: int|
                #![trigger descriptors[i], descriptors[j]]
                0 <= i < j < descriptors.len() ==> descriptors[i].outpoint()
                    != descriptors[j].outpoint()
            &&& total_value(descriptors) <= MAX_MONEY
            &&& forall|i: int|
                0 <= i < descriptors.len() ==> (#[trigger] descriptors[i]).plan(grind) is Ok
            &&& change_decision(
                TransactionView {
                    version: 2,
                    lock_time: match locktime {
                        Some(t) => t,
                        None => 0,
                    },
                    input: unsigned_inputs(descriptors),
                    output: outputs,
                },
                total_value(descriptors) as u64,
                (plans(descriptors, grind)->Ok_0).0,
                feerate,
                change_script,
            ) !is Unfunded
        },
{
    lemma_plans_exist(descriptors, grind);
    if plans(descriptors, grind) is Ok {
        lemma_plans_inputs(descriptors, grind);
    }
}

proof fn lemma_plans_exist(descriptors: Seq<&SpendableOutputDescriptor>, grind: bool)
    ensures
        (forall|i: int|
            0 <= i < descriptors.len() ==> (#[trigger] descriptors[i]).plan(grind) is Ok) ==> plans(
            descriptors,
            grind,
        ) is Ok,
    decreases descriptors.len(),
{
    if descriptors.len() > 0 {
        let before = descriptors.drop_last();
        lemma_plans_exist(before, grind);
        assert(forall|i: int| 0 <= i < before.len() ==> #[trigger] before[i] == descriptors[i]);
        assert(descriptors.last() == descriptors[descriptors.len() - 1]);
    }
}

/// What a plan carries for an outside signer opens the output. Of a delayed output with a script, the script
/// that it carries is the one that the output pays; what it carries to be added takes the basepoint to the
/// key that the script names. Of an anchor channel's output to the payment key that the parameters name, too.
pub proof fn planned_scripts_open_their_outputs(d: SpendableOutputDescriptor, grind: bool)
    requires
        d.plan(grind) is Ok,
    ensures
        ({
            let (_, input) = d.plan(grind)->Ok_0;
            match d {
                SpendableOutputDescriptor::StaticOutput { .. } => {
                    &&& input.witness_script is None
                    &&& input.proprietary.len() == 0
                },
                SpendableOutputDescriptor::StaticPaymentOutput(x) => {
                    &&& input.proprietary.len() == 0
                    &&& input.witness_script is Some <==> anchor_channel(
                        x.channel_transaction_parameters,
                    )
                    &&& input.witness_script matches Some(s) ==> countersigner_payment_script(
                        true,
                        (x.channel_transaction_parameters->0).holder_pubkeys.payment_point@,
                    ) == p2wsh(s)
                },
                SpendableOutputDescriptor::DelayedPaymentOutput(x) => {
                    match x.channel_transaction_parameters {
                        None => input.witness_script is None && input.proprietary.len() == 0,
                        Some(p) => {
                            let (name, tweak) = input.proprietary[0];
                            let key = point_sum(
                                p.holder_pubkeys.delayed_payment_basepoint@,
                                public_of(tweak),
                            );
                            &&& input.proprietary.len() == 1
                            &&& name == add_tweak_key()
                            &&& valid_secret(tweak)
                            &&& key is Some
                            &&& input.witness_script == Some(
                                revokeable_redeemscript(
                                    x.revocation_pubkey@,
                                    x.to_self_delay,
                                    key->0,
                                ),
                            )
                            &&& !p.channel_type_features.simple_taproot
                                ==> x.output.script_pubkey@ == p2wsh(input.witness_script->0)
                        },
                    }
                },
            }
        }),
{
}

/// A failure to plan a prefix is a failure to plan the whole.
proof fn lemma_plans_prefix(descriptors: Seq<&SpendableOutputDescriptor>, i: int, grind: bool)
    requires
        0 <= i <= descriptors.len(),
        plans(descriptors.take(i), grind) is Err,
    ensures
        plans(descriptors, grind) == plans(descriptors.take(i), grind),
    decreases descriptors.len(),
{
    if i < descriptors.len() {
        assert(descriptors.drop_last().take(i) =~= descriptors.take(i));
        lemma_plans_prefix(descriptors.drop_last(), i, grind);
    } else {
        assert(descriptors.take(i) =~= descriptors);
    }
}

proof fn lemma_total_value_prefix(descriptors: Seq<&SpendableOutputDescriptor>, i: int)
    requires
        0 <= i <= descriptors.len(),
    ensures
        total_value(descriptors.take(i)) <= total_value(descriptors),
    decreases descriptors.len(),
{
    if i < descriptors.len() {
        assert(descriptors.drop_last().take(i) =~= descriptors.take(i));
        lemma_total_value_prefix(descriptors.drop_last(), i);
    } else {
        assert(descriptors.take(i) =~= descriptors);
    }
}

/// Whether two outpoints name one output.
fn same_output(a: &OutPoint, b: &OutPoint) -> (r: bool)
    ensures
        r == (a@ == b@),
{
    a.index == b.index && bytes_equal(&a.txid, &b.txid)
}

fn new_plain_psbt_input(output: &TxOut, script: Option<Vec<u8>>) -> (r: PsbtInput)
    ensures
        r@ == plain_psbt_input(
            output@,
            match script {
                Some(s) => Some(s@),
                None => None,
            },
        ),
{
    let r = PsbtInput {
        witness_utxo: Some(output.copy()),
        witness_script: script,
        proprietary: Vec::new(),
        final_script_sig: None,
        final_script_witness: None,
    };
    assert(r@.proprietary =~= Seq::empty());
    r
}

impl SpendableOutputDescriptor {
    /// Returns the outpoint of the spendable output.
    pub fn spendable_outpoint(&self) -> (r: OutPoint)
        ensures
            r@ == self.outpoint(),
    {
        match self {
            SpendableOutputDescriptor::StaticOutput { outpoint, .. } => *outpoint,
            SpendableOutputDescriptor::StaticPaymentOutput(d) => d.outpoint,
            SpendableOutputDescriptor::DelayedPaymentOutput(d) => d.outpoint,
        }
    }

    /// Turns this into a [`PsbtInput`] which can be used to create a [`Psbt`] which spends the given
    /// descriptor.
    ///
    /// Note that this does not include any signatures, just the information required to
    /// construct the transaction and sign it.
    ///
    /// The proprietary field is used to store the add tweak for the signing key of this transaction.
    ///
    /// See [`Self::try_to_psbt_input`] for a descriptor of which it is not known that its keys exist.
    pub fn to_psbt_input(&self) -> (r: PsbtInput)
        requires
            self.psbt_input() is Some,
        ensures
            Some(r@) == self.psbt_input(),
    {
        match self {
            SpendableOutputDescriptor::StaticOutput { output, .. } => new_plain_psbt_input(
                output,
                None,
            ),
            SpendableOutputDescriptor::DelayedPaymentOutput(d) => {
                match &d.channel_transaction_parameters {
                    Some(params) => {
                        let (key, add_tweak): (PublicKey, [u8; 32]) = d.delayed_payment_key(
                            params,
                        ).unwrap();
                        let script: Vec<u8> = get_revokeable_redeemscript(
                            &d.revocation_pubkey,
                            d.to_self_delay,
                            &key,
                        );
                        let mut input: PsbtInput = new_plain_psbt_input(&d.output, Some(script));
                        // A non standard namespace for spendable outputs, used to store the tweak
                        // needed to derive the private key.
                        let name = ProprietaryKey {
                            prefix: copy_bytes("LDK_spendable_output".as_bytes()),
                            subtype: 0,
                            key: copy_bytes("add_tweak".as_bytes()),
                        };
                        input.proprietary.push((name, copy_bytes(&add_tweak)));
                        assert(input@.proprietary =~= seq![(add_tweak_key(), add_tweak@)]);
                        input
                    },
                    None => new_plain_psbt_input(&d.output, None),
                }
            },
            SpendableOutputDescriptor::StaticPaymentOutput(d) => new_plain_psbt_input(
                &d.output,
                d.witness_script(),
            ),
        }
    }

    /// [`Self::to_psbt_input`] where the keys that the input names exist.
    pub fn try_to_psbt_input(&self) -> (r: Option<PsbtInput>)
        ensures
            match r {
                Some(i) => Some(i@),
                None => None,
            } == self.psbt_input(),
    {
        if let SpendableOutputDescriptor::DelayedPaymentOutput(d) = self {
            if let Some(params) = &d.channel_transaction_parameters {
                if d.delayed_payment_key(params).is_none() {
                    return None;
                }
            }
        }
        Some(self.to_psbt_input())
    }

    fn max_witness_weight(&self, grind: bool) -> (r: Result<u64, SignerError>)
        ensures
            match self.witness_weight(grind) {
                Some(w) => r == Ok::<u64, SignerError>(w as u64) && w <= 174,
                None => r == Err::<u64, SignerError>(SignerError::DegenerateKey),
            },
    {
        let (weight, can_grind): (u64, bool) = match self {
            SpendableOutputDescriptor::StaticOutput { .. } => (P2WPKH_WITNESS_WEIGHT, true),
            SpendableOutputDescriptor::DelayedPaymentOutput(
                d,
            ) => match d.taproot_max_witness_weight() {
                Ok(w) => (w, !d.is_taproot()),
                Err(e) => {
                    return Err(e);
                },
            },
            SpendableOutputDescriptor::StaticPaymentOutput(
                d,
            ) => match d.taproot_max_witness_weight() {
                Ok(w) => (w, !d.is_taproot()),
                Err(e) => {
                    return Err(e);
                },
            },
        };
        Ok(
            if grind && can_grind {
                weight - 1
            } else {
                weight
            },
        )
    }

    fn to_plan(&self, grind: bool) -> (r: Result<(u64, PsbtInput), SignerError>)
        ensures
            match (r, self.plan(grind)) {
                (Ok((w, i)), Ok((x, j))) => w == x && i@ == j,
                (Err(e), Err(f)) => e == f,
                _ => false,
            },
    {
        let weight: u64 = match self.max_witness_weight(grind) {
            Ok(w) => w,
            Err(e) => {
                return Err(e);
            },
        };
        let (expected, actual): (Option<Vec<u8>>, &TxOut) = match self {
            SpendableOutputDescriptor::StaticOutput { output, .. } => (None, output),
            SpendableOutputDescriptor::DelayedPaymentOutput(d) => match d.expected_script_pubkey() {
                Ok(s) => (s, &d.output),
                Err(e) => {
                    return Err(e);
                },
            },
            SpendableOutputDescriptor::StaticPaymentOutput(d) => (None, &d.output),
        };
        let input: PsbtInput = match self.try_to_psbt_input() {
            Some(i) => i,
            None => {
                return Err(SignerError::DegenerateKey);
            },
        };
        if let Some(script) = expected {
            if !bytes_equal(script.as_slice(), actual.script_pubkey.as_slice()) {
                return Err(SignerError::Refused);
            }
        }
        Ok((weight, input))
    }

    fn to_unsigned_input(&self) -> (r: TxIn)
        ensures
            r@ == self.unsigned_input(),
    {
        let sequence: u32 = match self {
            SpendableOutputDescriptor::StaticOutput { .. } => 0,
            SpendableOutputDescriptor::DelayedPaymentOutput(d) => d.to_self_delay as u32,
            SpendableOutputDescriptor::StaticPaymentOutput(d) => if d.needs_csv_1_for_spend() {
                1
            } else {
                0
            },
        };
        let r = TxIn {
            previous_output: self.spendable_outpoint().into_bitcoin_outpoint(),
            script_sig: Vec::new(),
            sequence,
            witness: Vec::new(),
        };
        assert(r@ =~= self.unsigned_input());
        r
    }

    fn value(&self) -> (r: u64)
        ensures
            r == self.output().value,
    {
        match self {
            SpendableOutputDescriptor::StaticOutput { output, .. } => output.value,
            SpendableOutputDescriptor::DelayedPaymentOutput(d) => d.output.value,
            SpendableOutputDescriptor::StaticPaymentOutput(d) => d.output.value,
        }
    }

    /// The inputs that spend all descriptors and what they are worth, where no output is described
    /// twice and no more is spent than can exist.
    fn gather(descriptors: &[&SpendableOutputDescriptor]) -> (r: Option<(Vec<TxIn>, u64)>)
        ensures
            match r {
                Some((input, value)) => all_distinct(descriptors@) && total_value(descriptors@)
                    <= MAX_MONEY && inputs_view(input@) == unsigned_inputs(descriptors@) && value
                    == total_value(descriptors@),
                None => !all_distinct(descriptors@) || total_value(descriptors@) > MAX_MONEY,
            },
    {
        let mut input: Vec<TxIn> = Vec::new();
        let mut value: u64 = 0;
        let mut i: usize = 0;
        while i < descriptors.len()
            invariant
                i <= descriptors.len(),
                inputs_view(input@) == unsigned_inputs(descriptors@.take(i as int)),
                all_distinct(descriptors@.take(i as int)),
                value == total_value(descriptors@.take(i as int)),
                value <= MAX_MONEY,
            decreases descriptors.len() - i,
        {
            let descriptor: &SpendableOutputDescriptor = descriptors[i];
            let outpoint: OutPoint = descriptor.spendable_outpoint();
            let mut j: usize = 0;
            while j < i
                invariant
                    j <= i < descriptors.len(),
                    outpoint@ == descriptors@[i as int].outpoint(),
                    forall|k: int|
                        0 <= k < j ==> (#[trigger] descriptors@[k]).outpoint() != outpoint@,
                decreases i - j,
            {
                if same_output(&descriptors[j].spendable_outpoint(), &outpoint) {
                    assert(descriptors@[j as int].outpoint() == descriptors@[i as int].outpoint());
                    return None;
                }
                j += 1;
            }
            proof {
                let before = descriptors@.take(i as int);
                let now = descriptors@.take(i + 1);
                assert(now.drop_last() =~= before);
                assert(now.last() == descriptors@[i as int]);
                lemma_total_value_prefix(descriptors@, i + 1);
                assert(unsigned_inputs(now) =~= unsigned_inputs(before).push(
                    descriptor.unsigned_input(),
                ));
                assert forall|a: int, b: int|
                    #![trigger now[a], now[b]]
                    0 <= a < b < now.len() implies now[a].outpoint() != now[b].outpoint() by {
                    assert(now[a] == descriptors@[a]);
                    if b < i {
                        assert(before[a] == now[a] && before[b] == now[b]);
                    }
                }
            }
            let ghost was = input@;
            input.push(descriptor.to_unsigned_input());
            assert(inputs_view(input@) =~= inputs_view(was).push(descriptor.unsigned_input()));
            match value.checked_add(descriptor.value()) {
                Some(v) => {
                    if v > MAX_MONEY {
                        return None;
                    }
                    value = v;
                },
                None => {
                    return None;
                },
            }
            i += 1;
        }
        assert(descriptors@.take(i as int) =~= descriptors@);
        Some((input, value))
    }

    /// The weight and the PSBT inputs of all spends.
    fn plan_all(descriptors: &[&SpendableOutputDescriptor], grind: bool) -> (r: Result<
        (u64, Vec<PsbtInput>),
        SignerError,
    >)
        requires
            1000 * descriptors@.len() <= u64::MAX,
        ensures
            match (r, plans(descriptors@, grind)) {
                (Ok((w, inputs)), Ok((x, views))) => w == x && psbt_inputs_view(inputs@) == views,
                (Err(e), Err(f)) => e == f,
                _ => false,
            },
    {
        let mut weight: u64 = 0;
        let mut inputs: Vec<PsbtInput> = Vec::new();
        let mut i: usize = 0;
        assert(psbt_inputs_view(inputs@) =~= Seq::empty());
        while i < descriptors.len()
            invariant
                i <= descriptors.len(),
                1000 * descriptors@.len() <= u64::MAX,
                plans(descriptors@.take(i as int), grind) == Ok::<
                    (nat, Seq<PsbtInputView>),
                    SignerError,
                >((weight as nat, psbt_inputs_view(inputs@))),
            decreases descriptors.len() - i,
        {
            proof {
                let now = descriptors@.take(i + 1);
                assert(now.drop_last() =~= descriptors@.take(i as int));
                assert(now.last() == descriptors@[i as int]);
                lemma_plans_weight(descriptors@.take(i as int), grind);
            }
            match descriptors[i].to_plan(grind) {
                Ok((w, input)) => {
                    proof {
                        lemma_plans_weight(descriptors@.take(i + 1), grind);
                    }
                    let ghost was = inputs@;
                    weight = weight + w;
                    inputs.push(input);
                    assert(psbt_inputs_view(inputs@) =~= psbt_inputs_view(was).push(input@));
                },
                Err(e) => {
                    proof {
                        lemma_plans_prefix(descriptors@, i + 1, grind);
                    }
                    return Err(e);
                },
            }
            i += 1;
        }
        assert(descriptors@.take(i as int) =~= descriptors@);
        Ok((weight, inputs))
    }

    /// Creates an unsigned [`Psbt`] which spends the given descriptors to
    /// the given outputs, plus an output to the given change destination (if sufficient
    /// change value remains). The PSBT will have a feerate, at least, of the given value.
    ///
    /// The `locktime` argument is used to set the transaction's locktime. If `None`, the
    /// transaction will have a locktime of 0. It it recommended to set this to the current block
    /// height to avoid fee sniping, unless you have some specific reason to use a different
    /// locktime. `grind_signatures` says that signatures will be ground to a low R, so that each ECDSA
    /// witness is one byte lighter.
    ///
    /// Returns the PSBT and expected max transaction weight.
    ///
    /// Returns an error if the output value is greater than the input value minus required fee,
    /// if a descriptor was duplicated, or if the `script_pubkey` of a delayed payment output
    /// does not match the one its channel parameters say we can spend. An output to our payment key may pay
    /// either of a channel's two such keys; signing refuses one that pays neither.
    ///
    /// We do not enforce that outputs meet the dust limit or that any output scripts are standard.
    pub fn create_spendable_outputs_psbt(
        descriptors: &[&SpendableOutputDescriptor],
        outputs: Vec<TxOut>,
        change_destination_script: Vec<u8>,
        feerate_sat_per_1000_weight: u32,
        locktime: Option<u32>,
        grind_signatures: bool,
    ) -> (r: Result<(Psbt, u64), SignerError>)
        requires
            spend_fits(descriptors@.len(), outputs_view(outputs@), change_destination_script@),
        ensures
            match (
                r,
                spend_plan(
                    descriptors@,
                    outputs_view(outputs@),
                    change_destination_script@,
                    feerate_sat_per_1000_weight,
                    locktime,
                    grind_signatures,
                ),
            ) {
                (Ok((psbt, w)), Ok((view, x))) => psbt@ == view && w == x,
                (Err(e), Err(f)) => e == f,
                _ => false,
            },
            r matches Ok((psbt, w)) ==> outputs_value(psbt@.unsigned_tx.output) + fee(
                w as nat,
                feerate_sat_per_1000_weight,
            ) <= total_value(descriptors@),
    {
        let (input, input_value): (Vec<TxIn>, u64) = match Self::gather(descriptors) {
            Some(g) => g,
            None => {
                return Err(SignerError::Refused);
            },
        };
        let (witness_weight, inputs): (u64, Vec<PsbtInput>) = match Self::plan_all(
            descriptors,
            grind_signatures,
        ) {
            Ok(p) => p,
            Err(e) => {
                return Err(e);
            },
        };
        let mut tx = Transaction {
            version: 2,
            lock_time: match locktime {
                Some(t) => t,
                None => 0,
            },
            input,
            output: outputs,
        };
        proof {
            lemma_plans_weight(descriptors@, grind_signatures);
            lemma_unsigned_sizes(descriptors@);
        }
        match maybe_add_change_output(
            &mut tx,
            input_value,
            witness_weight,
            feerate_sat_per_1000_weight,
            change_destination_script,
        ) {
            Ok(expected_max_weight) => {
                let mut placeholders: Vec<PsbtOutput> = Vec::new();
                let mut i: usize = 0;
                while i < tx.output.len()
                    invariant
                        i <= tx.output.len(),
                        placeholders@.len() == i,
                    decreases tx.output.len() - i,
                {
                    placeholders.push(PsbtOutput {  });
                    i += 1;
                }
                Ok((Psbt { unsigned_tx: tx, inputs, outputs: placeholders }, expected_max_weight))
            },
            Err(_) => Err(SignerError::Refused),
        }
    }
}

} // verus!
