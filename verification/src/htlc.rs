//! HTLC outputs of a commitment transaction that the holder broadcast.
use vstd::prelude::*;

use crate::bytes::copy_bytes;
use crate::channel::{
    build_htlc_input, build_htlc_output, commitment_keys, derive_public_key, derive_revocation_key,
    derived_public, get_htlc_redeemscript_with_explicit_keys, htlc_input, htlc_output,
    htlc_redeemscript, revocation_public, second_level_fee, ChannelPublicKeys,
    ChannelTransactionParameters, ChannelTypeFeatures, HTLCOutputInCommitment, SignerError,
    TxCreationKeys, TxKeysView,
};
use crate::curve::{der, x_only, PublicKey, SchnorrSignature, Signature};
use crate::script::{new_p2tr, p2tr, p2wsh, to_p2wsh};
use crate::sighash::{SIGHASH_ALL, SIGHASH_SINGLE_ANYONECANPAY};
use crate::taproot::{opt_bytes, tap_spend, taproot_spend, TaprootSpend};
use crate::tx::{
    items_size, prefixed_len, rows, witness_size, witness_size_of, BitcoinOutPoint, OutPointView,
    TxIn, TxOut, TxOutView, SEGWIT_MARKER_FLAG_WEIGHT,
};

verus! {

/// The parameters required to derive a channel signer via `SignerProvider`.
#[derive(Clone, Copy, Debug, PartialEq, Eq)]
pub struct ChannelDerivationParameters {
    /// The value in satoshis of the channel we're attempting to spend the anchor output of.
    pub value_satoshis: u64,
    /// The unique identifier to re-derive the signer for the associated channel.
    pub keys_id: [u8; 32],
    /// The necessary channel parameters that need to be provided to the signer.
    pub transaction_parameters: ChannelTransactionParameters,
}

/// A descriptor used to sign for a commitment transaction's HTLC output.
#[derive(Clone, Copy, Debug, PartialEq, Eq)]
pub struct HTLCDescriptor {
    /// The parameters required to derive the signer for the HTLC input.
    pub channel_derivation_parameters: ChannelDerivationParameters,
    /// The txid of the commitment transaction in which the HTLC output lives.
    pub commitment_txid: [u8; 32],
    /// The number of the commitment transaction in which the HTLC output lives.
    pub per_commitment_number: u64,
    /// The key tweak corresponding to the number of the commitment transaction in which the HTLC
    /// output lives. This tweak is applied to all the basepoints for both parties in the channel to
    /// arrive at unique keys per commitment.
    pub per_commitment_point: PublicKey,
    /// The feerate to use on the HTLC claiming transaction. This is always `0` for HTLCs
    /// originating from a channel supporting anchor outputs, otherwise it is the channel's
    /// negotiated feerate at the time the commitment transaction was built.
    pub feerate_per_kw: u32,
    /// The details of the HTLC as it appears in the commitment transaction.
    pub htlc: HTLCOutputInCommitment,
    /// The preimage, if `Some`, to claim the HTLC output with. If `None`, the timeout path must be
    /// taken.
    pub preimage: Option<[u8; 32]>,
    /// The counterparty's signature required to spend the HTLC output.
    pub counterparty_sig: Signature,
    /// The counterparty's signature over the two-party leaf of a taproot HTLC output; `None` for
    /// other channels.
    pub counterparty_sig_taproot: Option<SchnorrSignature>,
}

/// The leaves of a taproot HTLC output, as the channel lays them out. The output's internal key is the
/// commitment's revocation key.
#[derive(Clone, Debug, PartialEq, Eq)]
pub struct TaprootHtlcScripts {
    /// The leaf by which the HTLC's recipient claims it with the preimage.
    pub success_leaf: Vec<u8>,
    /// The leaf by which the HTLC's offerer takes it back after its expiry.
    pub timeout_leaf: Vec<u8>,
}

impl TaprootHtlcScripts {
    /// The leaf that both parties sign, by which the commitment's broadcaster claims the HTLC into a
    /// second-level transaction: the timeout leaf of an HTLC it offered, the success leaf of one it
    /// received.
    pub open spec fn two_party(self, htlc: HTLCOutputInCommitment) -> Seq<u8> {
        if htlc.offered {
            self.timeout_leaf@
        } else {
            self.success_leaf@
        }
    }

    /// The leaf that the other party alone signs, by which it claims the HTLC directly: the success leaf
    /// of an HTLC that the broadcaster offered, the timeout leaf of one it received.
    pub open spec fn direct_claim(self, htlc: HTLCOutputInCommitment) -> Seq<u8> {
        if htlc.offered {
            self.success_leaf@
        } else {
            self.timeout_leaf@
        }
    }

    /// The leaf that both parties sign.
    pub fn two_party_leaf(&self, htlc: &HTLCOutputInCommitment) -> (r: &[u8])
        ensures
            r@ == self.two_party(*htlc),
    {
        if htlc.offered {
            self.timeout_leaf.as_slice()
        } else {
            self.success_leaf.as_slice()
        }
    }

    /// The leaf that the party who did not broadcast the commitment signs alone.
    pub fn direct_claim_leaf(&self, htlc: &HTLCOutputInCommitment) -> (r: &[u8])
        ensures
            r@ == self.direct_claim(*htlc),
    {
        if htlc.offered {
            self.success_leaf.as_slice()
        } else {
            self.timeout_leaf.as_slice()
        }
    }
}

/// The output key and, for the two-party leaf, the control block of a taproot HTLC output.
pub open spec fn taproot_htlc_spend(
    revocation: Seq<u8>,
    htlc: HTLCOutputInCommitment,
    scripts: TaprootHtlcScripts,
) -> Option<(Seq<u8>, Seq<u8>)> {
    tap_spend(x_only(revocation), scripts.two_party(htlc), Some(scripts.direct_claim(htlc)))
}

/// What spending a taproot HTLC output by its two-party leaf takes.
pub fn taproot_htlc_spend_info(
    revocation: &PublicKey,
    htlc: &HTLCOutputInCommitment,
    scripts: &TaprootHtlcScripts,
) -> (r: Option<TaprootSpend>)
    ensures
        match (r, taproot_htlc_spend(revocation@, *htlc, *scripts)) {
            (Some(s), Some((key, block))) => s.output_key@ == key && s.control_block@ == block
                && block.len() == 65,
            (None, None) => true,
            _ => false,
        },
{
    taproot_spend(
        &revocation.x_only(),
        scripts.two_party_leaf(htlc),
        Some(scripts.direct_claim_leaf(htlc)),
    )
}

/// A preimage as a witness item: its bytes, or an empty item.
pub open spec fn preimage_item(preimage: Option<[u8; 32]>) -> Seq<u8> {
    match preimage {
        Some(p) => p@,
        None => Seq::empty(),
    }
}

/// The witness of a second-level HTLC transaction: an empty item for the multisig, the counterparty's
/// signature, ours, the preimage or an empty item, the script.
pub open spec fn htlc_input_witness(
    ours: Seq<u8>,
    theirs: Seq<u8>,
    preimage: Option<[u8; 32]>,
    script: Seq<u8>,
    features: ChannelTypeFeatures,
) -> Seq<Seq<u8>> {
    seq![
        Seq::empty(),
        der(theirs).push(
            if features.zero_fee_htlcs() {
                SIGHASH_SINGLE_ANYONECANPAY
            } else {
                SIGHASH_ALL
            },
        ),
        der(ours).push(SIGHASH_ALL),
        preimage_item(preimage),
        script,
    ]
}

/// The witness of a second-level transaction of a taproot HTLC: the counterparty's signature, ours, the
/// preimage if there is one, the leaf and the control block.
pub open spec fn taproot_htlc_witness(
    ours: Seq<u8>,
    theirs: Seq<u8>,
    preimage: Option<[u8; 32]>,
    leaf: Seq<u8>,
    control_block: Seq<u8>,
) -> Seq<Seq<u8>> {
    let signatures = seq![
        theirs.push(SIGHASH_SINGLE_ANYONECANPAY),
        ours.push(SIGHASH_SINGLE_ANYONECANPAY),
    ];
    match preimage {
        Some(p) => signatures + seq![p@, leaf, control_block],
        None => signatures + seq![leaf, control_block],
    }
}

/// The witness of a second-level HTLC transaction.
pub fn build_htlc_input_witness(
    ours: &Signature,
    theirs: &Signature,
    preimage: &Option<[u8; 32]>,
    script: &[u8],
    features: &ChannelTypeFeatures,
) -> (r: Vec<Vec<u8>>)
    ensures
        rows(r@) == htlc_input_witness(ours@, theirs@, *preimage, script@, *features),
{
    let mut remote: Vec<u8> = theirs.serialize_der();
    remote.push(
        if features.anchors_zero_fee_htlc_tx || features.anchor_zero_fee_commitments {
            SIGHASH_SINGLE_ANYONECANPAY
        } else {
            SIGHASH_ALL
        },
    );
    let mut local: Vec<u8> = ours.serialize_der();
    local.push(SIGHASH_ALL);
    let mut r: Vec<Vec<u8>> = Vec::new();
    r.push(Vec::new());
    r.push(remote);
    r.push(local);
    r.push(
        match preimage {
            Some(p) => copy_bytes(p),
            None => Vec::new(),
        },
    );
    r.push(copy_bytes(script));
    assert(rows(r@) =~= htlc_input_witness(ours@, theirs@, *preimage, script@, *features));
    r
}

/// The witness of a second-level transaction of a taproot HTLC.
pub fn build_taproot_htlc_input_witness(
    ours: &SchnorrSignature,
    theirs: &SchnorrSignature,
    preimage: &Option<[u8; 32]>,
    leaf: &[u8],
    control_block: &[u8],
) -> (r: Vec<Vec<u8>>)
    ensures
        rows(r@) == taproot_htlc_witness(ours@, theirs@, *preimage, leaf@, control_block@),
{
    let mut remote: Vec<u8> = copy_bytes(&theirs.bytes);
    remote.push(SIGHASH_SINGLE_ANYONECANPAY);
    let mut local: Vec<u8> = copy_bytes(&ours.bytes);
    local.push(SIGHASH_SINGLE_ANYONECANPAY);
    let mut r: Vec<Vec<u8>> = Vec::new();
    r.push(remote);
    r.push(local);
    if let Some(p) = preimage {
        r.push(copy_bytes(p));
    }
    r.push(copy_bytes(leaf));
    r.push(copy_bytes(control_block));
    assert(rows(r@) =~= taproot_htlc_witness(ours@, theirs@, *preimage, leaf@, control_block@));
    r
}

/// The weight of the witness of [`build_taproot_htlc_input_witness`].
pub open spec fn taproot_htlc_witness_weight(preimage: Option<[u8; 32]>, leaf_len: nat) -> nat {
    1 + 66 + 66 + (if preimage is Some {
        33nat
    } else {
        0
    }) + prefixed_len(leaf_len) + 66 + SEGWIT_MARKER_FLAG_WEIGHT as nat
}

proof fn lemma_taproot_htlc_witness_size(
    ours: Seq<u8>,
    theirs: Seq<u8>,
    preimage: Option<[u8; 32]>,
    leaf: Seq<u8>,
    control_block: Seq<u8>,
)
    requires
        ours.len() == 64,
        theirs.len() == 64,
        control_block.len() == 65,
    ensures
        witness_size(taproot_htlc_witness(ours, theirs, preimage, leaf, control_block))
            + SEGWIT_MARKER_FLAG_WEIGHT == taproot_htlc_witness_weight(preimage, leaf.len()),
{
    let w = taproot_htlc_witness(ours, theirs, preimage, leaf, control_block);
    reveal_with_fuel(items_size, 6);
    let a = w.drop_last();
    let b = a.drop_last();
    let c = b.drop_last();
    assert(w.last() == control_block);
    assert(a.last() == leaf);
    if let Some(p) = preimage {
        assert(b.last() == p@);
        assert(c.last() == ours.push(SIGHASH_SINGLE_ANYONECANPAY));
        assert(c.drop_last().last() == theirs.push(SIGHASH_SINGLE_ANYONECANPAY));
    } else {
        assert(b.last() == ours.push(SIGHASH_SINGLE_ANYONECANPAY));
        assert(c.last() == theirs.push(SIGHASH_SINGLE_ANYONECANPAY));
    }
}

/// The weight that is estimated for the witness of a taproot HTLC input is that of every witness that is built
/// for it, and of the transaction's marker and flag.
pub proof fn taproot_htlc_estimate_is_exact(
    d: HTLCDescriptor,
    scripts: TaprootHtlcScripts,
    ours: SchnorrSignature,
    theirs: SchnorrSignature,
)
    requires
        d.taproot_control_block(scripts) matches Some(block) && block.len() == 65,
    ensures
        witness_size(
            taproot_htlc_witness(
                ours@,
                theirs@,
                d.preimage,
                scripts.two_party(d.htlc),
                d.taproot_control_block(scripts)->0,
            ),
        ) + SEGWIT_MARKER_FLAG_WEIGHT == taproot_htlc_witness_weight(
            d.preimage,
            scripts.two_party(d.htlc).len(),
        ),
{
    lemma_taproot_htlc_witness_size(
        ours@,
        theirs@,
        d.preimage,
        scripts.two_party(d.htlc),
        d.taproot_control_block(scripts)->0,
    );
}

impl HTLCDescriptor {
    /// The channel's parameters.
    pub open spec fn params(self) -> ChannelTransactionParameters {
        self.channel_derivation_parameters.transaction_parameters
    }

    /// The holder's keys, which the commitment's broadcaster has.
    pub open spec fn holder_keys(self) -> ChannelPublicKeys {
        self.params().holder_pubkeys
    }

    /// The counterparty's keys.
    pub open spec fn counterparty_keys(self) -> ChannelPublicKeys {
        (self.params().counterparty_parameters->0).pubkeys
    }

    /// The keys of the commitment, where all exist.
    pub open spec fn keys(self) -> Option<TxKeysView> {
        commitment_keys(self.per_commitment_point@, self.holder_keys(), self.counterparty_keys())
    }

    /// The witness script of the HTLC output, where the keys it names exist.
    pub open spec fn script(self) -> Option<Seq<u8>> {
        let point = self.per_commitment_point@;
        match (
            derived_public(self.holder_keys().htlc_basepoint@, point),
            derived_public(self.counterparty_keys().htlc_basepoint@, point),
            revocation_public(self.counterparty_keys().revocation_basepoint@, point),
        ) {
            (Some(ours), Some(theirs), Some(revocation)) => Some(
                htlc_redeemscript(
                    self.htlc,
                    self.params().channel_type_features,
                    ours,
                    theirs,
                    revocation,
                ),
            ),
            _ => None,
        }
    }

    /// The script of the HTLC output where it is a taproot output, where its key exists.
    pub open spec fn taproot_script_pubkey(self, scripts: TaprootHtlcScripts) -> Option<Seq<u8>> {
        match self.keys() {
            Some(keys) => match taproot_htlc_spend(keys.revocation_key, self.htlc, scripts) {
                Some((key, _)) => Some(p2tr(key)),
                None => None,
            },
            None => None,
        }
    }

    /// The HTLC output, where its script exists.
    pub open spec fn utxo(self, scripts: Option<TaprootHtlcScripts>) -> Option<TxOutView> {
        let script = if self.params().channel_type_features.simple_taproot {
            self.taproot_script_pubkey(scripts->0)
        } else {
            match self.script() {
                Some(s) => Some(p2wsh(s)),
                None => None,
            }
        };
        match script {
            Some(script_pubkey) => Some(
                TxOutView { script_pubkey, value: self.htlc.value_satoshis() },
            ),
            None => None,
        }
    }

    /// The output of the second-level transaction, where its keys exist. On a taproot channel its script
    /// is the given one.
    pub open spec fn second_level_output(self, taproot_script: Option<Seq<u8>>) -> Option<TxOutView> {
        let point = self.per_commitment_point@;
        let features = self.params().channel_type_features;
        match (
            derived_public(self.holder_keys().delayed_payment_basepoint@, point),
            revocation_public(self.counterparty_keys().revocation_basepoint@, point),
        ) {
            (Some(delayed), Some(revocation)) => Some(
                htlc_output(
                    self.feerate_per_kw,
                    (self.params().counterparty_parameters->0).selected_contest_delay,
                    self.htlc,
                    features,
                    delayed,
                    revocation,
                    taproot_script,
                ),
            ),
            _ => None,
        }
    }

    /// What the descriptor must hold for its HTLC to be spendable: the counterparty's parameters, and
    /// the scripts where the channel is a taproot channel.
    pub open spec fn complete(self, scripts: Option<TaprootHtlcScripts>) -> bool {
        &&& self.params().counterparty_parameters is Some
        &&& self.params().channel_type_features.simple_taproot ==> scripts is Some
    }

    /// Returns the outpoint of the HTLC output in the commitment transaction. This is the outpoint
    /// being spent by the HTLC input in the HTLC transaction.
    pub fn outpoint(&self) -> (r: BitcoinOutPoint)
        requires
            self.htlc.transaction_output_index is Some,
        ensures
            r@ == (OutPointView {
                txid: self.commitment_txid@,
                vout: self.htlc.transaction_output_index->0,
            }),
    {
        BitcoinOutPoint {
            txid: self.commitment_txid,
            vout: self.htlc.transaction_output_index.unwrap(),
        }
    }

    /// Returns the unsigned transaction input spending the HTLC output in the commitment
    /// transaction.
    pub fn unsigned_tx_input(&self) -> (r: TxIn)
        requires
            self.htlc.transaction_output_index is Some,
        ensures
            r@ == htlc_input(self.commitment_txid@, self.htlc, self.params().channel_type_features),
    {
        build_htlc_input(
            &self.commitment_txid,
            &self.htlc,
            &self.channel_derivation_parameters.transaction_parameters.channel_type_features,
        )
    }

    fn counterparty(&self) -> (r: ChannelPublicKeys)
        requires
            self.params().counterparty_parameters is Some,
        ensures
            r == self.counterparty_keys(),
    {
        self.channel_derivation_parameters.transaction_parameters.counterparty_parameters.unwrap().pubkeys
    }

    /// Returns the witness script of the HTLC output in the commitment transaction.
    ///
    /// See [`Self::try_witness_script`] for a descriptor of which it is not known that its keys exist.
    pub fn witness_script(&self) -> (r: Vec<u8>)
        requires
            self.params().counterparty_parameters is Some,
            self.script() is Some,
        ensures
            Some(r@) == self.script(),
    {
        let params: ChannelTransactionParameters =
            self.channel_derivation_parameters.transaction_parameters;
        let theirs: ChannelPublicKeys = self.counterparty();
        let point: &PublicKey = &self.per_commitment_point;
        let broadcaster_htlc_key: PublicKey = derive_public_key(
            &params.holder_pubkeys.htlc_basepoint,
            point,
        ).unwrap();
        let counterparty_htlc_key: PublicKey = derive_public_key(
            &theirs.htlc_basepoint,
            point,
        ).unwrap();
        let counterparty_revocation_key: PublicKey = derive_revocation_key(
            &theirs.revocation_basepoint,
            point,
        ).unwrap();
        get_htlc_redeemscript_with_explicit_keys(
            &self.htlc,
            &params.channel_type_features,
            &broadcaster_htlc_key,
            &counterparty_htlc_key,
            &counterparty_revocation_key,
        )
    }

    /// [`Self::witness_script`] where the keys that the script names exist.
    pub fn try_witness_script(&self) -> (r: Option<Vec<u8>>)
        requires
            self.params().counterparty_parameters is Some,
        ensures
            match r {
                Some(s) => Some(s@),
                None => None,
            } == self.script(),
    {
        let ours: ChannelPublicKeys =
            self.channel_derivation_parameters.transaction_parameters.holder_pubkeys;
        let theirs: ChannelPublicKeys = self.counterparty();
        let point: &PublicKey = &self.per_commitment_point;
        if derive_public_key(&ours.htlc_basepoint, point).is_some() && derive_public_key(
            &theirs.htlc_basepoint,
            point,
        ).is_some() && derive_revocation_key(&theirs.revocation_basepoint, point).is_some() {
            Some(self.witness_script())
        } else {
            None
        }
    }

    /// The keys of the commitment, where all exist.
    pub fn tx_creation_keys(&self) -> (r: Option<TxCreationKeys>)
        requires
            self.params().counterparty_parameters is Some,
        ensures
            match r {
                Some(k) => Some(k@),
                None => None,
            } == self.keys(),
    {
        TxCreationKeys::from_channel_static_keys(
            &self.per_commitment_point,
            &self.channel_derivation_parameters.transaction_parameters.holder_pubkeys,
            &self.counterparty(),
        )
    }

    /// The taproot HTLC output's scriptPubKey, used as the prevout the second-level transaction spends.
    fn taproot_htlc_spk(&self, scripts: &TaprootHtlcScripts) -> (r: Option<Vec<u8>>)
        requires
            self.params().counterparty_parameters is Some,
        ensures
            match r {
                Some(s) => Some(s@),
                None => None,
            } == self.taproot_script_pubkey(*scripts),
    {
        match self.tx_creation_keys() {
            Some(keys) => match taproot_htlc_spend_info(
                &keys.revocation_key,
                &self.htlc,
                scripts,
            ) {
                Some(spend) => Some(new_p2tr(&spend.output_key)),
                None => None,
            },
            None => None,
        }
    }

    /// Returns the UTXO to be spent by the HTLC input, which can be obtained via
    /// [`Self::unsigned_tx_input`]. `scripts` are those of the output where it is a taproot output.
    ///
    /// See [`Self::try_previous_utxo`] for a descriptor of which it is not known that its keys exist.
    pub fn previous_utxo(&self, scripts: Option<&TaprootHtlcScripts>) -> (r: TxOut)
        requires
            self.complete(opt_scripts(scripts)),
            self.utxo(opt_scripts(scripts)) is Some,
        ensures
            Some(r@) == self.utxo(opt_scripts(scripts)),
    {
        let features: ChannelTypeFeatures =
            self.channel_derivation_parameters.transaction_parameters.channel_type_features;
        let script_pubkey: Vec<u8> = if features.simple_taproot {
            self.taproot_htlc_spk(scripts.unwrap()).unwrap()
        } else {
            to_p2wsh(self.witness_script().as_slice())
        };
        TxOut { script_pubkey, value: self.htlc.to_bitcoin_amount() }
    }

    /// [`Self::previous_utxo`] where the keys that the output's script commits to exist.
    pub fn try_previous_utxo(&self, scripts: Option<&TaprootHtlcScripts>) -> (r: Option<TxOut>)
        requires
            self.complete(opt_scripts(scripts)),
        ensures
            match r {
                Some(o) => Some(o@),
                None => None,
            } == self.utxo(opt_scripts(scripts)),
    {
        let features: ChannelTypeFeatures =
            self.channel_derivation_parameters.transaction_parameters.channel_type_features;
        let known: bool = if features.simple_taproot {
            self.taproot_htlc_spk(scripts.unwrap()).is_some()
        } else {
            self.try_witness_script().is_some()
        };
        if known {
            Some(self.previous_utxo(scripts))
        } else {
            None
        }
    }

    /// Returns the delayed output created as a result of spending the HTLC output in the commitment
    /// transaction. `taproot_script` is the script of that output where the channel is a taproot channel.
    ///
    /// See [`Self::try_tx_output`] for a descriptor of which it is not known that its keys exist.
    pub fn tx_output(&self, taproot_script: Option<&[u8]>) -> (r: TxOut)
        requires
            self.params().counterparty_parameters is Some,
            self.params().channel_type_features.simple_taproot ==> taproot_script is Some,
            self.htlc.second_level_fee(self.feerate_per_kw, self.params().channel_type_features)
                <= self.htlc.value_satoshis(),
            self.second_level_output(opt_bytes(taproot_script)) is Some,
        ensures
            Some(r@) == self.second_level_output(opt_bytes(taproot_script)),
    {
        let params: ChannelTransactionParameters =
            self.channel_derivation_parameters.transaction_parameters;
        let broadcaster_delayed_key: PublicKey = derive_public_key(
            &params.holder_pubkeys.delayed_payment_basepoint,
            &self.per_commitment_point,
        ).unwrap();
        let counterparty_revocation_key: PublicKey = derive_revocation_key(
            &self.counterparty().revocation_basepoint,
            &self.per_commitment_point,
        ).unwrap();
        build_htlc_output(
            self.feerate_per_kw,
            params.counterparty_parameters.unwrap().selected_contest_delay,
            &self.htlc,
            &params.channel_type_features,
            &broadcaster_delayed_key,
            &counterparty_revocation_key,
            taproot_script,
        )
    }

    /// [`Self::tx_output`] where the keys of the second-level output exist.
    pub fn try_tx_output(&self, taproot_script: Option<&[u8]>) -> (r: Option<TxOut>)
        requires
            self.params().counterparty_parameters is Some,
            self.params().channel_type_features.simple_taproot ==> taproot_script is Some,
            self.htlc.second_level_fee(self.feerate_per_kw, self.params().channel_type_features)
                <= self.htlc.value_satoshis(),
        ensures
            match r {
                Some(o) => Some(o@),
                None => None,
            } == self.second_level_output(opt_bytes(taproot_script)),
    {
        let ours: ChannelPublicKeys =
            self.channel_derivation_parameters.transaction_parameters.holder_pubkeys;
        let theirs: ChannelPublicKeys = self.counterparty();
        let point: &PublicKey = &self.per_commitment_point;
        if derive_public_key(&ours.delayed_payment_basepoint, point).is_some()
            && derive_revocation_key(&theirs.revocation_basepoint, point).is_some() {
            Some(self.tx_output(taproot_script))
        } else {
            None
        }
    }

    /// Returns the fully signed witness required to spend the HTLC output in the commitment
    /// transaction.
    pub fn tx_input_witness(&self, signature: &Signature, witness_script: &[u8]) -> (r: Vec<Vec<u8>>)
        ensures
            rows(r@) == htlc_input_witness(
                signature@,
                self.counterparty_sig@,
                self.preimage,
                witness_script@,
                self.params().channel_type_features,
            ),
    {
        build_htlc_input_witness(
            signature,
            &self.counterparty_sig,
            &self.preimage,
            witness_script,
            &self.channel_derivation_parameters.transaction_parameters.channel_type_features,
        )
    }

    /// The control block of the two-party leaf, where the output key exists.
    pub open spec fn taproot_control_block(self, scripts: TaprootHtlcScripts) -> Option<Seq<u8>> {
        match self.keys() {
            Some(keys) => match taproot_htlc_spend(keys.revocation_key, self.htlc, scripts) {
                Some((_, block)) => Some(block),
                None => None,
            },
            None => None,
        }
    }

    fn control_block(&self, scripts: &TaprootHtlcScripts) -> (r: Option<Vec<u8>>)
        requires
            self.params().counterparty_parameters is Some,
        ensures
            match r {
                Some(b) => Some(b@),
                None => None,
            } == self.taproot_control_block(*scripts),
            r matches Some(b) ==> b@.len() == 65,
    {
        match self.tx_creation_keys() {
            Some(keys) => match taproot_htlc_spend_info(
                &keys.revocation_key,
                &self.htlc,
                scripts,
            ) {
                Some(spend) => Some(spend.control_block),
                None => None,
            },
            None => None,
        }
    }

    /// Returns the fully signed BIP 341 script-path witness for spending a taproot HTLC output with the
    /// second-level transaction. Refused where the counterparty's signature is not known.
    pub fn taproot_tx_input_witness(
        &self,
        our_sig: &SchnorrSignature,
        scripts: &TaprootHtlcScripts,
    ) -> (r: Result<Vec<Vec<u8>>, SignerError>)
        requires
            self.counterparty_sig_taproot is Some ==> self.params().counterparty_parameters is Some,
        ensures
            match (self.counterparty_sig_taproot, self.taproot_control_block(*scripts)) {
                (None, _) => r == Err::<Vec<Vec<u8>>, SignerError>(SignerError::Refused),
                (_, None) => r == Err::<Vec<Vec<u8>>, SignerError>(SignerError::DegenerateKey),
                (Some(theirs), Some(block)) => r is Ok && rows((r->Ok_0)@) == taproot_htlc_witness(
                    our_sig@,
                    theirs@,
                    self.preimage,
                    scripts.two_party(self.htlc),
                    block,
                ),
            },
    {
        match self.counterparty_sig_taproot {
            None => Err(SignerError::Refused),
            Some(theirs) => match self.control_block(scripts) {
                None => Err(SignerError::DegenerateKey),
                Some(block) => Ok(
                    build_taproot_htlc_input_witness(
                        our_sig,
                        &theirs,
                        &self.preimage,
                        scripts.two_party_leaf(&self.htlc),
                        block.as_slice(),
                    ),
                ),
            },
        }
    }

    /// The worst-case serialized weight of the script-path witness this descriptor's taproot HTLC input
    /// is spent with, measured on a witness built from the output's own leaf and control block with
    /// placeholder signatures. The marker and flag of the transaction count too.
    pub fn taproot_max_witness_weight(&self, scripts: &TaprootHtlcScripts) -> (r: Result<
        u64,
        SignerError,
    >)
        requires
            self.params().counterparty_parameters is Some,
            scripts.two_party(self.htlc).len() + 400 <= u64::MAX,
        ensures
            match self.taproot_control_block(*scripts) {
                None => r == Err::<u64, SignerError>(SignerError::DegenerateKey),
                Some(_) => r == Ok::<u64, SignerError>(
                    taproot_htlc_witness_weight(
                        self.preimage,
                        scripts.two_party(self.htlc).len(),
                    ) as u64,
                ),
            },
    {
        let placeholder = SchnorrSignature { bytes: [0u8; 64] };
        match self.control_block(scripts) {
            None => Err(SignerError::DegenerateKey),
            Some(block) => {
                let witness: Vec<Vec<u8>> = build_taproot_htlc_input_witness(
                    &placeholder,
                    &placeholder,
                    &self.preimage,
                    scripts.two_party_leaf(&self.htlc),
                    block.as_slice(),
                );
                proof {
                    lemma_taproot_htlc_witness_size(
                        placeholder@,
                        placeholder@,
                        self.preimage,
                        scripts.two_party(self.htlc),
                        block@,
                    );
                }
                Ok(witness_size_of(witness.as_slice()) + SEGWIT_MARKER_FLAG_WEIGHT)
            },
        }
    }
}

/// Scripts that may be absent.
pub open spec fn opt_scripts(s: Option<&TaprootHtlcScripts>) -> Option<TaprootHtlcScripts> {
    match s {
        Some(s) => Some(*s),
        None => None,
    }
}

} // verus!
