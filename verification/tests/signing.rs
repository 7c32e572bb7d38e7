use bitcoin::absolute::LockTime;
use bitcoin::hashes::{sha256d, Hash as _};
use bitcoin::secp256k1::{self, Message, Secp256k1};
use bitcoin::sighash::{EcdsaSighashType, Prevouts, SighashCache, TapSighashType};
use bitcoin::taproot::{LeafVersion, TapLeafHash, TaprootBuilder};
use bitcoin::transaction::Version;
use bitcoin::{Amount, ScriptBuf};
use lightning_sign::channel::{
    derive_private_key, derive_private_revocation_key, derive_public_key, derive_revocation_key,
    get_htlc_redeemscript_with_explicit_keys, build_htlc_transaction, BuiltCommitmentTransaction,
    ChannelTransactionParameters, ChannelTypeFeatures, ClosingTransaction, CommitmentTransaction,
    CounterpartyChannelTransactionParameters, HTLCOutputInCommitment, HolderCommitmentTransaction,
    SignerError, TxCreationKeys,
};
use lightning_sign::curve::{PublicKey, SchnorrSignature, SecretKey, Signature};
use lightning_sign::ecdsa::EcdsaChannelSigner;
use lightning_sign::entropy::EntropySource;
use lightning_sign::htlc::{ChannelDerivationParameters, HTLCDescriptor, TaprootHtlcScripts};
use lightning_sign::nonce::closing_nonce_height;
use lightning_sign::script::{
    get_keyed_anchor_redeemscript, get_revokeable_redeemscript, get_taproot_to_local_revoke_script,
    make_funding_redeemscript, new_p2tr,
};
use lightning_sign::signer::{ChannelSigner, InMemorySigner, TaprootSignerContext};
use lightning_sign::taproot_channel::{TaprootChannelSigner, TaprootHtlcSpend};
use lightning_sign::taproot_signer::{
    aggregate_key_path_partials, aggregated_xonly, channel_key_agg_ctx, local_pubnonce,
    our_key_path_partial, PartialSignatureWithNonce, PubNonce,
};
use lightning_sign::tx::{BitcoinOutPoint, OutPoint, Transaction, TxIn, TxOut};

#[test]
pub fn dyn_sign() {
    let _signer: Box<dyn EcdsaChannelSigner>;
}

fn secret(b: u8) -> SecretKey {
    SecretKey::from_bytes(&[b; 32]).unwrap()
}

fn signer(b: u8) -> InMemorySigner {
    InMemorySigner::new(
        secret(b),
        secret(b + 1),
        secret(b + 2),
        secret(b + 3),
        false,
        secret(b + 4),
        secret(b + 5),
        [b + 6; 32],
        [b + 7; 32],
        [b + 8; 32],
    )
}

fn features(taproot: bool) -> ChannelTypeFeatures {
    ChannelTypeFeatures {
        static_remote_key: true,
        anchors_zero_fee_htlc_tx: false,
        anchor_zero_fee_commitments: false,
        simple_taproot: taproot,
    }
}

fn params(holder: &InMemorySigner, counterparty: &InMemorySigner) -> ChannelTransactionParameters {
    ChannelTransactionParameters {
        holder_pubkeys: holder.pubkeys(),
        holder_selected_contest_delay: 144,
        is_outbound_from_holder: true,
        counterparty_parameters: Some(CounterpartyChannelTransactionParameters {
            pubkeys: counterparty.pubkeys(),
            selected_contest_delay: 200,
        }),
        funding_outpoint: Some(OutPoint { txid: [0x77; 32], index: 1 }),
        splice_parent_funding_txid: None,
        channel_type_features: features(false),
        channel_value_satoshis: 1_000_000,
    }
}

fn input(txid: [u8; 32], vout: u32) -> TxIn {
    TxIn {
        previous_output: BitcoinOutPoint { txid, vout },
        script_sig: vec![],
        sequence: 0,
        witness: vec![],
    }
}

fn tx(inputs: usize, outputs: usize) -> Transaction {
    Transaction {
        version: 2,
        lock_time: 500_123,
        input: (0..inputs).map(|i| input([0x77; 32], 1 + i as u32)).collect(),
        output: (0..outputs)
            .map(|i| TxOut { value: 1000 + i as u64, script_pubkey: vec![0x51; 22 + i] })
            .collect(),
    }
}

fn outside(tx: &Transaction) -> bitcoin::Transaction {
    bitcoin::Transaction {
        version: Version(tx.version),
        lock_time: LockTime::from_consensus(tx.lock_time),
        input: tx
            .input
            .iter()
            .map(|i| bitcoin::TxIn {
                previous_output: bitcoin::OutPoint::new(
                    bitcoin::Txid::from_byte_array(i.previous_output.txid),
                    i.previous_output.vout,
                ),
                script_sig: ScriptBuf::from(i.script_sig.clone()),
                sequence: bitcoin::Sequence(i.sequence),
                witness: Default::default(),
            })
            .collect(),
        output: tx.output.iter().map(outside_out).collect(),
    }
}

fn outside_out(o: &TxOut) -> bitcoin::TxOut {
    bitcoin::TxOut {
        value: Amount::from_sat(o.value),
        script_pubkey: ScriptBuf::from(o.script_pubkey.clone()),
    }
}

fn digest(t: &Transaction, index: usize, script: &[u8], value: u64, kind: EcdsaSighashType) -> [u8; 32] {
    SighashCache::new(&outside(t))
        .p2wsh_signature_hash(index, &ScriptBuf::from(script.to_vec()), Amount::from_sat(value), kind)
        .unwrap()
        .to_byte_array()
}

fn verifies(sig: &Signature, digest: [u8; 32], key: &PublicKey) -> bool {
    let sig = secp256k1::ecdsa::Signature::from_compact(&sig.serialize_compact()).unwrap();
    let key = secp256k1::PublicKey::from_slice(&key.serialize()).unwrap();
    Secp256k1::new().verify_ecdsa(&Message::from_digest(digest), &sig, &key).is_ok()
}

fn schnorr_verifies(sig: &SchnorrSignature, digest: [u8; 32], x: [u8; 32]) -> bool {
    let sig = secp256k1::schnorr::Signature::from_slice(&sig.bytes).unwrap();
    let key = secp256k1::XOnlyPublicKey::from_slice(&x).unwrap();
    Secp256k1::new().verify_schnorr(&sig, &Message::from_digest(digest), &key).is_ok()
}

fn htlc(offered: bool) -> HTLCOutputInCommitment {
    HTLCOutputInCommitment {
        offered,
        amount_msat: 5_000_000,
        cltv_expiry: 600_000,
        payment_hash: [0x31; 32],
        transaction_output_index: Some(if offered { 0 } else { 1 }),
    }
}

fn commitment(holder: &InMemorySigner, counterparty: &InMemorySigner) -> CommitmentTransaction {
    let point = secret(0x60).public_key();
    CommitmentTransaction {
        commitment_number: 99,
        feerate_per_kw: 253,
        nondust_htlcs: vec![htlc(true), htlc(false)],
        // The counterparty broadcasts, we countersign.
        keys: TxCreationKeys::from_channel_static_keys(
            &point,
            &counterparty.pubkeys(),
            &holder.pubkeys(),
        )
        .unwrap(),
        built: BuiltCommitmentTransaction { transaction: tx(1, 3), txid: [0x99; 32] },
    }
}

#[test]
fn counterparty_commitment_is_signed_with_its_htlcs() {
    let (us, them) = (signer(0x10), signer(0x20));
    for (anchors, zero_fee) in [(false, false), (true, false), (false, true)] {
        let mut p = params(&us, &them);
        p.channel_type_features.anchors_zero_fee_htlc_tx = anchors;
        p.channel_type_features.anchor_zero_fee_commitments = zero_fee;
        let c = commitment(&us, &them);
        let (sig, htlc_sigs) = us.sign_counterparty_commitment(&p, &c, vec![], vec![], &[]).unwrap();
        let script = make_funding_redeemscript(
            &us.pubkeys().funding_pubkey,
            &them.pubkeys().funding_pubkey,
        );
        let d = digest(&c.built.transaction, 0, &script, 1_000_000, EcdsaSighashType::All);
        assert!(verifies(&sig, d, &us.pubkeys().funding_pubkey));
        assert_eq!(htlc_sigs.len(), 2);
        let key = derive_private_key(&c.keys.per_commitment_point, &us.htlc_base_key).unwrap();
        assert_eq!(key.public_key(), c.keys.countersignatory_htlc_key);
        for (h, s) in c.nondust_htlcs.iter().zip(htlc_sigs.iter()) {
            let second = build_htlc_transaction(
                &c.built.txid,
                253,
                144,
                h,
                &p.channel_type_features,
                &c.keys.broadcaster_delayed_payment_key,
                &c.keys.revocation_key,
                None,
            );
            let script = get_htlc_redeemscript_with_explicit_keys(
                h,
                &p.channel_type_features,
                &c.keys.broadcaster_htlc_key,
                &c.keys.countersignatory_htlc_key,
                &c.keys.revocation_key,
            );
            let kind = if anchors || zero_fee {
                EcdsaSighashType::SinglePlusAnyoneCanPay
            } else {
                EcdsaSighashType::All
            };
            let d = digest(&second, 0, &script, 5000, kind);
            assert!(verifies(s, d, &key.public_key()));
        }
    }
}

#[test]
fn holder_commitment_and_close_are_signed_with_the_funding_key() {
    let (mut us, them) = (signer(0x10), signer(0x20));
    let mut p = params(&us, &them);
    let parent = [0x42; 32];
    for splice in [None, Some(parent)] {
        p.splice_parent_funding_txid = splice;
        let key = us.funding_key(splice).public_key();
        let script = make_funding_redeemscript(&key, &them.pubkeys().funding_pubkey);
        let c = HolderCommitmentTransaction {
            inner: commitment(&us, &them),
            counterparty_sig: Signature::from_compact(&[1; 64]).unwrap(),
            counterparty_htlc_sigs: vec![],
        };
        let d = digest(&c.inner.built.transaction, 0, &script, 1_000_000, EcdsaSighashType::All);
        let first = us.sign_holder_commitment(&p, &c).unwrap();
        let second = us.unsafe_sign_holder_commitment(&p, &c).unwrap();
        assert!(verifies(&first, d, &key) && verifies(&second, d, &key));
        // Each signature mixes fresh randomness into its nonce.
        assert_ne!(first, second);
        let closing = ClosingTransaction { built: tx(1, 2) };
        let d = digest(&closing.built, 0, &script, 1_000_000, EcdsaSighashType::All);
        let sig = us.sign_closing_transaction(&p, &closing).unwrap();
        assert!(verifies(&sig, d, &key));
        assert_eq!(us.sign_closing_transaction(&p, &closing).unwrap(), sig);
        let spliced = tx(2, 1);
        let d = digest(&spliced, 0, &script, 1_000_000, EcdsaSighashType::All);
        let sig = us.sign_splice_shared_input(&p, &spliced, 0).unwrap();
        assert!(verifies(&sig, d, &key));
        let anchor = tx(2, 1);
        let script = get_keyed_anchor_redeemscript(&p.holder_pubkeys.funding_pubkey);
        let d = digest(&anchor, 1, &script, 330, EcdsaSighashType::All);
        let sig = us.sign_holder_keyed_anchor_input(&p, &anchor, 1).unwrap();
        assert!(verifies(&sig, d, &key));
        let msg = b"channel announcement";
        let sig = us.sign_channel_announcement_with_funding_key(&p, msg).unwrap();
        assert!(verifies(&sig, sha256d::Hash::hash(msg).to_byte_array(), &key));
    }
    assert_ne!(us.funding_key(Some(parent)), us.funding_key(None));
    assert_eq!(us.new_funding_pubkey(parent).unwrap(), us.funding_key(Some(parent)).public_key());
    assert_eq!(us.try_funding_key(Some(parent)).unwrap(), us.funding_key(Some(parent)));
}

#[test]
fn revoked_outputs_are_claimed_with_the_revocation_key() {
    let (mut us, them) = (signer(0x10), signer(0x20));
    let p = params(&us, &them);
    let commitment_secret = secret(0x61);
    let point = commitment_secret.public_key();
    let revocation = derive_revocation_key(&us.pubkeys().revocation_basepoint, &point).unwrap();
    let own = derive_private_revocation_key(&commitment_secret, &us.revocation_base_key).unwrap();
    assert_eq!(own.public_key(), revocation);
    let delayed = derive_public_key(&them.pubkeys().delayed_payment_basepoint, &point).unwrap();
    let justice = tx(3, 1);
    let script = get_revokeable_redeemscript(&revocation, 144, &delayed);
    let d = digest(&justice, 2, &script, 7777, EcdsaSighashType::All);
    let sig = EcdsaChannelSigner::sign_justice_revoked_output(
        &mut us, &p, &justice, 2, 7777, &commitment_secret,
    )
    .unwrap();
    assert!(verifies(&sig, d, &revocation));
    let theirs = derive_public_key(&them.pubkeys().htlc_basepoint, &point).unwrap();
    let ours = derive_public_key(&us.pubkeys().htlc_basepoint, &point).unwrap();
    for offered in [true, false] {
        let script = get_htlc_redeemscript_with_explicit_keys(
            &htlc(offered), &p.channel_type_features, &theirs, &ours, &revocation,
        );
        let d = digest(&justice, 1, &script, 5000, EcdsaSighashType::All);
        let sig = EcdsaChannelSigner::sign_justice_revoked_htlc(
            &mut us, &p, &justice, 1, 5000, &commitment_secret, &htlc(offered),
        )
        .unwrap();
        assert!(verifies(&sig, d, &revocation));
        let sig = EcdsaChannelSigner::sign_counterparty_htlc_transaction(
            &mut us, &p, &justice, 1, 5000, &point, &htlc(offered),
        )
        .unwrap();
        assert!(verifies(&sig, d, &ours));
    }
    // Without the channel's parameters the taproot trait's sweeps decline.
    let refused = SignerError::Refused;
    assert_eq!(
        TaprootChannelSigner::sign_justice_revoked_output(&us, &justice, 0, 1, &commitment_secret),
        Err(refused)
    );
    assert_eq!(
        TaprootChannelSigner::sign_justice_revoked_htlc(
            &us, &justice, 0, 1, &commitment_secret, &htlc(true)
        ),
        Err(refused)
    );
    assert_eq!(
        TaprootChannelSigner::sign_counterparty_htlc_transaction(
            &us, &justice, 0, 1, &point, &htlc(true)
        ),
        Err(refused)
    );
}

fn descriptor(us: &InMemorySigner, them: &InMemorySigner, taproot: bool) -> HTLCDescriptor {
    let mut p = params(us, them);
    p.channel_type_features = features(taproot);
    HTLCDescriptor {
        channel_derivation_parameters: ChannelDerivationParameters {
            value_satoshis: 1_000_000,
            keys_id: [7; 32],
            transaction_parameters: p,
        },
        commitment_txid: [0x99; 32],
        per_commitment_number: 99,
        per_commitment_point: secret(0x62).public_key(),
        feerate_per_kw: 253,
        htlc: htlc(true),
        preimage: None,
        counterparty_sig: Signature::from_compact(&[1; 64]).unwrap(),
        counterparty_sig_taproot: None,
    }
}

#[test]
fn holder_htlcs_are_claimed_by_the_descriptor() {
    let (mut us, them) = (signer(0x10), signer(0x20));
    let mut d = descriptor(&us, &them, false);
    let script = d.witness_script();
    assert_eq!(d.try_witness_script().unwrap(), script);
    let point = d.per_commitment_point;
    let ours = derive_public_key(&us.pubkeys().htlc_basepoint, &point).unwrap();
    let theirs = derive_public_key(&them.pubkeys().htlc_basepoint, &point).unwrap();
    let revocation = derive_revocation_key(&them.pubkeys().revocation_basepoint, &point).unwrap();
    assert_eq!(
        script,
        get_htlc_redeemscript_with_explicit_keys(
            &d.htlc, &features(false), &ours, &theirs, &revocation
        )
    );
    let utxo = d.previous_utxo(None);
    assert_eq!(utxo.value, 5000);
    assert_eq!(utxo.script_pubkey, ScriptBuf::from(script.clone()).to_p2wsh().to_bytes());
    assert_eq!(d.try_previous_utxo(None).unwrap(), utxo);
    let out = d.tx_output(None);
    assert_eq!(out.value, 5000 - 253 * 663 / 1000);
    let delayed = derive_public_key(&us.pubkeys().delayed_payment_basepoint, &point).unwrap();
    let second = get_revokeable_redeemscript(&revocation, 200, &delayed);
    assert_eq!(out.script_pubkey, ScriptBuf::from(second).to_p2wsh().to_bytes());
    assert_eq!(d.try_tx_output(None).unwrap(), out);
    assert_eq!(d.outpoint(), BitcoinOutPoint { txid: [0x99; 32], vout: 0 });
    assert_eq!(d.unsigned_tx_input(), input([0x99; 32], 0));

    let spend = tx(2, 1);
    let sig =
        EcdsaChannelSigner::sign_holder_htlc_transaction(&mut us, &spend, 1, &d).unwrap();
    assert!(verifies(&sig, digest(&spend, 1, &script, 5000, EcdsaSighashType::All), &ours));
    assert_eq!(
        EcdsaChannelSigner::sign_holder_htlc_transaction(&mut us, &spend, 2, &d),
        Err(SignerError::Refused)
    );

    let witness = d.tx_input_witness(&sig, &script);
    let mut remote = d.counterparty_sig.serialize_der();
    remote.push(0x01);
    let mut local = sig.serialize_der();
    local.push(0x01);
    assert_eq!(witness, vec![vec![], remote, local, vec![], script.clone()]);
    d.preimage = Some([0x33; 32]);
    d.channel_derivation_parameters
        .transaction_parameters
        .channel_type_features
        .anchors_zero_fee_htlc_tx = true;
    let witness = d.tx_input_witness(&sig, &script);
    assert_eq!(*witness[1].last().unwrap(), 0x83);
    assert_eq!(*witness[2].last().unwrap(), 0x01);
    assert_eq!(witness[3], vec![0x33; 32]);
}

fn scripts() -> TaprootHtlcScripts {
    TaprootHtlcScripts {
        success_leaf: vec![0x51; 70],
        timeout_leaf: vec![0x52; 60],
    }
}

fn tree(revocation: &PublicKey) -> bitcoin::taproot::TaprootSpendInfo {
    TaprootBuilder::new()
        .add_leaf(1, ScriptBuf::from(scripts().success_leaf))
        .unwrap()
        .add_leaf(1, ScriptBuf::from(scripts().timeout_leaf))
        .unwrap()
        .finalize(
            &Secp256k1::new(),
            bitcoin::XOnlyPublicKey::from_slice(&revocation.x_only()).unwrap(),
        )
        .unwrap()
}

fn leaf(script: &[u8]) -> TapLeafHash {
    TapLeafHash::from_script(&ScriptBuf::from(script.to_vec()), LeafVersion::TapScript)
}

#[test]
fn taproot_htlcs_are_claimed_by_their_leaves() {
    let (us, them) = (signer(0x10), signer(0x20));
    for offered in [true, false] {
        // We take back what we offered after its expiry, and claim what we received with the preimage.
        let two_party = if offered { scripts().timeout_leaf } else { scripts().success_leaf };
        let mut d = descriptor(&us, &them, true);
        d.htlc = htlc(offered);
        let point = d.per_commitment_point;
        let revocation =
            derive_revocation_key(&them.pubkeys().revocation_basepoint, &point).unwrap();
        let info = tree(&revocation);
        let utxo = d.previous_utxo(Some(&scripts()));
        assert_eq!(
            utxo.script_pubkey,
            ScriptBuf::new_p2tr_tweaked(info.output_key()).to_bytes()
        );
        assert_eq!(d.try_previous_utxo(Some(&scripts())).unwrap(), utxo);
        let out = d.tx_output(Some(&[0x51, 0x20, 0x55]));
        assert_eq!(out.script_pubkey, vec![0x51, 0x20, 0x55]);
        assert_eq!(out.value, 5000 - 253 * (if offered { 663 } else { 703 }) / 1000);
        assert_eq!(d.try_tx_output(Some(&[0x51, 0x20, 0x55])).unwrap(), out);

        let spend = tx(2, 2);
        let sig = us.sign_holder_htlc_transaction_taproot(&spend, 1, &d, &scripts()).unwrap();
        let ours = derive_public_key(&us.pubkeys().htlc_basepoint, &point).unwrap();
        let expected = SighashCache::new(&outside(&spend))
            .taproot_script_spend_signature_hash(
                1,
                &Prevouts::One(1, outside_out(&utxo)),
                leaf(&two_party),
                TapSighashType::SinglePlusAnyoneCanPay,
            )
            .unwrap()
            .to_byte_array();
        assert!(schnorr_verifies(&sig, expected, ours.x_only()));
        // There is no output, or no input, at the index.
        for (t, i) in [(tx(2, 1), 1), (tx(1, 2), 1)] {
            assert_eq!(
                us.sign_holder_htlc_transaction_taproot(&t, i, &d, &scripts()),
                Err(SignerError::Refused)
            );
        }

        assert_eq!(d.taproot_tx_input_witness(&sig, &scripts()), Err(SignerError::Refused));
        d.counterparty_sig_taproot = Some(SchnorrSignature { bytes: [0x44; 64] });
        let block = info
            .control_block(&(ScriptBuf::from(two_party.clone()), LeafVersion::TapScript))
            .unwrap()
            .serialize();
        for preimage in [None, Some([0x33u8; 32])] {
            d.preimage = preimage;
            let witness = d.taproot_tx_input_witness(&sig, &scripts()).unwrap();
            let mut remote = vec![0x44; 64];
            remote.push(0x83);
            let mut local = sig.bytes.to_vec();
            local.push(0x83);
            let mut expected = vec![remote, local];
            if preimage.is_some() {
                expected.push(vec![0x33; 32]);
            }
            expected.push(two_party.clone());
            expected.push(block.clone());
            assert_eq!(witness, expected);
            let size = bitcoin::Witness::from_slice(&witness).size() as u64;
            assert_eq!(d.taproot_max_witness_weight(&scripts()).unwrap(), size + 2);
        }
    }
}

#[test]
fn revoked_taproot_outputs_are_claimed() {
    let (us, them) = (signer(0x10), signer(0x20));
    let mut p = params(&us, &them);
    p.channel_type_features = features(true);
    let commitment_secret = secret(0x61);
    let point = commitment_secret.public_key();
    let revocation = derive_revocation_key(&us.pubkeys().revocation_basepoint, &point).unwrap();
    let delayed = derive_public_key(&them.pubkeys().delayed_payment_basepoint, &point).unwrap();
    let justice = tx(2, 1);
    let prevouts = tx(0, 2).output;
    let all: Vec<bitcoin::TxOut> = prevouts.iter().map(outside_out).collect();
    let by_leaf = |script: &[u8], index: usize| {
        SighashCache::new(&outside(&justice))
            .taproot_script_spend_signature_hash(
                index,
                &Prevouts::All(&all),
                leaf(script),
                TapSighashType::Default,
            )
            .unwrap()
            .to_byte_array()
    };
    let sig = us
        .sign_justice_revoked_output_taproot(&p, &justice, 1, 0, &commitment_secret, &prevouts)
        .unwrap();
    let script = get_taproot_to_local_revoke_script(&revocation, &delayed);
    assert!(schnorr_verifies(&sig, by_leaf(&script, 1), revocation.x_only()));

    let sig = us
        .sign_justice_revoked_htlc_taproot(
            &p, &justice, 0, 0, &commitment_secret, &htlc(true), &scripts(), &prevouts,
        )
        .unwrap();
    let d = SighashCache::new(&outside(&justice))
        .taproot_key_spend_signature_hash(0, &Prevouts::All(&all), TapSighashType::Default)
        .unwrap()
        .to_byte_array();
    let output_key = tree(&revocation).output_key().to_inner().serialize();
    assert!(schnorr_verifies(&sig, d, output_key));

    // What they offered we claim with the preimage; what they received we take back.
    let ours = derive_public_key(&us.pubkeys().htlc_basepoint, &point).unwrap();
    for (offered, claimed) in [(true, scripts().success_leaf), (false, scripts().timeout_leaf)] {
        let sig = us
            .sign_counterparty_htlc_transaction_taproot(
                &p, &justice, 1, 0, &point, &htlc(offered), &scripts(), &prevouts,
            )
            .unwrap();
        assert!(schnorr_verifies(&sig, by_leaf(&claimed, 1), ours.x_only()));
    }

    // One output must be known for each input.
    let short = &prevouts[..1];
    let refused = SignerError::Refused;
    assert_eq!(
        us.sign_justice_revoked_output_taproot(&p, &justice, 1, 0, &commitment_secret, short),
        Err(refused)
    );
    assert_eq!(
        us.sign_justice_revoked_htlc_taproot(
            &p, &justice, 1, 0, &commitment_secret, &htlc(true), &scripts(), short
        ),
        Err(refused)
    );
    assert_eq!(
        us.sign_counterparty_htlc_transaction_taproot(
            &p, &justice, 1, 0, &point, &htlc(true), &scripts(), short
        ),
        Err(refused)
    );
}

fn context(them: &InMemorySigner, nonce: Option<PubNonce>, round: u64) -> TaprootSignerContext {
    TaprootSignerContext {
        counterparty_funding_pubkey: them.pubkeys().funding_pubkey,
        funding_value_sat: 1_000_000,
        counterparty_closing_nonce: nonce,
        closing_round: round,
        splice_parent_funding_txid: None,
    }
}

fn key_path_digest(t: &Transaction, index: usize, prevouts: &[TxOut]) -> [u8; 32] {
    let all: Vec<bitcoin::TxOut> = prevouts.iter().map(outside_out).collect();
    SighashCache::new(&outside(t))
        .taproot_key_spend_signature_hash(index, &Prevouts::All(&all), TapSighashType::Default)
        .unwrap()
        .to_byte_array()
}

#[test]
fn taproot_commitments_aggregate_to_the_funding_key() {
    let (mut us, mut them) = (signer(0x10), signer(0x20));
    let refused = SignerError::Refused;
    assert_eq!(us.generate_local_nonce_pair(99), Err(refused));
    let theirs_for_us = context(&us, None, 0);
    us.provide_taproot_context(context(&them, None, 0));
    TaprootChannelSigner::provide_taproot_context(&mut them, theirs_for_us);

    let (our_key, their_key) =
        (us.pubkeys().funding_pubkey.serialize(), them.pubkeys().funding_pubkey.serialize());
    let (ctx, slot) = channel_key_agg_ctx(&our_key, &their_key, &our_key).unwrap();
    let q = aggregated_xonly(&ctx);
    let funding = TxOut { value: 1_000_000, script_pubkey: new_p2tr(&q) };

    // The counterparty broadcasts: they advertised a nonce at the height, we sign under a bound one.
    let c = commitment(&us, &them);
    let their_nonce = them.generate_local_nonce_pair(c.commitment_number).unwrap();
    let spends: Vec<TaprootHtlcSpend> = c
        .nondust_htlcs
        .iter()
        .map(|_| TaprootHtlcSpend { htlc_tx: tx(1, 1), scripts: scripts() })
        .collect();
    let (partial, sigs) = us
        .partially_sign_counterparty_commitment(their_nonce, &c, vec![], vec![], &spends)
        .unwrap();
    assert_eq!(sigs.len(), 2);
    let htlc_key = derive_private_key(&c.keys.per_commitment_point, &us.htlc_base_key).unwrap();
    for (s, h) in sigs.iter().zip(c.nondust_htlcs.iter()) {
        let prevout = bitcoin::TxOut {
            value: Amount::from_sat(5000),
            script_pubkey: ScriptBuf::new_p2tr_tweaked(tree(&c.keys.revocation_key).output_key()),
        };
        let two_party = if h.offered { scripts().timeout_leaf } else { scripts().success_leaf };
        let d = SighashCache::new(&outside(&tx(1, 1)))
            .taproot_script_spend_signature_hash(
                0,
                &Prevouts::One(0, prevout),
                leaf(&two_party),
                TapSighashType::SinglePlusAnyoneCanPay,
            )
            .unwrap()
            .to_byte_array();
        assert!(schnorr_verifies(s, d, htlc_key.public_key().x_only()));
    }
    let d = key_path_digest(&c.built.transaction, 0, &[funding.clone()]);
    let theirs = HolderCommitmentTransaction {
        inner: c.clone(),
        counterparty_sig: Signature::from_compact(&[1; 64]).unwrap(),
        counterparty_htlc_sigs: vec![],
    };
    let their_partial = them.finalize_holder_commitment(&theirs, partial).unwrap();
    let sig = aggregate_key_path_partials(
        ctx, d, slot, partial.1, partial.0, 1 - slot, their_nonce, their_partial,
    )
    .unwrap();
    assert!(schnorr_verifies(&sig, d, q));

    // What cannot be signed: a second input, a second-level transaction without outputs.
    let mut wide = c.clone();
    wide.built.transaction = tx(2, 1);
    assert_eq!(
        us.partially_sign_counterparty_commitment(their_nonce, &wide, vec![], vec![], &spends),
        Err(refused)
    );
    let mut empty = spends.clone();
    empty[1].htlc_tx = tx(1, 0);
    assert_eq!(
        us.partially_sign_counterparty_commitment(their_nonce, &c, vec![], vec![], &empty),
        Err(refused)
    );
}

#[test]
fn closes_aggregate_at_the_height_of_their_round() {
    let (mut us, them) = (signer(0x10), signer(0x20));
    let (our_key, their_key) =
        (us.pubkeys().funding_pubkey.serialize(), them.pubkeys().funding_pubkey.serialize());
    let (ctx, slot) = channel_key_agg_ctx(&our_key, &their_key, &our_key).unwrap();
    let q = aggregated_xonly(&ctx);
    let close = ClosingTransaction { built: tx(1, 2) };
    let d = key_path_digest(
        &close.built, 0, &[TxOut { value: 1_000_000, script_pubkey: new_p2tr(&q) }],
    );
    us.provide_taproot_context(context(&them, None, 0));
    assert_eq!(us.partially_sign_closing_transaction(&close), Err(SignerError::Refused));
    for round in [0u64, 1, 2] {
        let height = closing_nonce_height(round);
        let our_nonce = local_pubnonce(ctx, slot, &us.commitment_seed, height).unwrap();
        assert_eq!(us.generate_local_nonce_pair(height).unwrap(), our_nonce);
        let their_nonce = local_pubnonce(ctx, 1 - slot, &[3; 32], height).unwrap();
        us.provide_taproot_context(context(&them, Some(their_nonce), round));
        let ours = us.partially_sign_closing_transaction(&close).unwrap();
        let (theirs, _) = our_key_path_partial(
            ctx, 1 - slot, slot, secret(0x20), &[3; 32], height, our_nonce, d,
        )
        .unwrap();
        let sig = aggregate_key_path_partials(
            ctx, d, slot, our_nonce, ours, 1 - slot, their_nonce, theirs,
        )
        .unwrap();
        assert!(schnorr_verifies(&sig, d, q));
    }
}

#[test]
fn splices_spend_the_old_funding_output_with_the_base_key() {
    let (mut us, mut them) = (signer(0x10), signer(0x20));
    let prev = [0x77; 32];
    assert!(us.generate_splice_nonce(&prev).is_none());
    let theirs_for_us = context(&us, None, 0);
    them.provide_taproot_context(theirs_for_us);
    let (our_key, their_key) =
        (us.pubkeys().funding_pubkey.serialize(), them.pubkeys().funding_pubkey.serialize());
    let (ctx, slot) = channel_key_agg_ctx(&our_key, &their_key, &our_key).unwrap();
    let q = aggregated_xonly(&ctx);
    let splice = tx(3, 2);
    let mut prevouts = tx(0, 3).output;
    prevouts[1] = TxOut { value: 1_000_000, script_pubkey: new_p2tr(&q) };
    let d = key_path_digest(&splice, 1, &prevouts);
    let their_nonce = them.generate_splice_nonce(&prev).unwrap();
    let mut nonces = vec![];
    // The scope of the context's commitment may already be that of the new funding output.
    for parent in [None, Some(prev)] {
        let mut c = context(&them, None, 0);
        c.splice_parent_funding_txid = parent;
        us.provide_taproot_context(c);
        let our_nonce = us.generate_splice_nonce(&prev).unwrap();
        let (ours, used) = us
            .partially_sign_splice_shared_input(&splice, 1, &prevouts, their_nonce, &prev)
            .unwrap();
        assert_eq!(used, our_nonce);
        let (theirs, _) = them
            .partially_sign_splice_shared_input(&splice, 1, &prevouts, our_nonce, &prev)
            .unwrap();
        let sig = aggregate_key_path_partials(
            ctx, d, slot, our_nonce, ours, 1 - slot, their_nonce, theirs,
        )
        .unwrap();
        assert!(schnorr_verifies(&sig, d, q));
        nonces.push(our_nonce);
    }
    assert_eq!(nonces[0], nonces[1]);
    assert_ne!(us.generate_splice_nonce(&[0x78; 32]).unwrap(), nonces[0]);
    assert_eq!(
        us.partially_sign_splice_shared_input(&splice, 1, &prevouts[..2], their_nonce, &prev),
        Err(SignerError::Refused)
    );
}

#[test]
fn rotated_scopes_sign_with_the_rotated_key() {
    let (mut us, them) = (signer(0x10), signer(0x20));
    let parent = [0x42; 32];
    let mut c = context(&them, None, 0);
    c.counterparty_funding_pubkey = them.new_funding_pubkey(parent).unwrap();
    c.splice_parent_funding_txid = Some(parent);
    us.provide_taproot_context(c);
    let our_key = us.new_funding_pubkey(parent).unwrap().serialize();
    let their_key = them.new_funding_pubkey(parent).unwrap().serialize();
    let (ctx, slot) = channel_key_agg_ctx(&our_key, &their_key, &our_key).unwrap();
    let our_nonce = us.generate_local_nonce_pair(7).unwrap();
    assert_eq!(our_nonce, local_pubnonce(ctx, slot, &us.commitment_seed, 7).unwrap());
    let mut built = commitment(&us, &them);
    built.commitment_number = 7;
    let their_nonce = local_pubnonce(ctx, 1 - slot, &[3; 32], 7).unwrap();
    let h = HolderCommitmentTransaction {
        inner: built,
        counterparty_sig: Signature::from_compact(&[1; 64]).unwrap(),
        counterparty_htlc_sigs: vec![],
    };
    let q = aggregated_xonly(&ctx);
    let d = key_path_digest(
        &h.inner.built.transaction,
        0,
        &[TxOut { value: 1_000_000, script_pubkey: new_p2tr(&q) }],
    );
    let (theirs, _) = our_key_path_partial(
        ctx, 1 - slot, slot, them.funding_key(Some(parent)), &[3; 32], 7, our_nonce, d,
    )
    .unwrap();
    let ours =
        us.finalize_holder_commitment(&h, PartialSignatureWithNonce(theirs, their_nonce)).unwrap();
    let sig =
        aggregate_key_path_partials(ctx, d, slot, our_nonce, ours, 1 - slot, their_nonce, theirs)
            .unwrap();
    assert!(schnorr_verifies(&sig, d, q));
}

#[test]
fn signers_work_with_their_public_fields() {
    let mut s = signer(0x10);
    assert_eq!(s.revocation_base_key, secret(0x11));
    assert_eq!(s.delayed_payment_base_key, secret(0x14));
    assert_eq!(s.htlc_base_key, secret(0x15));
    assert_eq!(s.commitment_seed, [0x16; 32]);
    s.revocation_base_key = secret(0x31);
    s.delayed_payment_base_key = secret(0x34);
    s.htlc_base_key = secret(0x35);
    s.commitment_seed = [0x36; 32];
    let keys = s.pubkeys();
    assert_eq!(keys.revocation_basepoint, secret(0x31).public_key());
    assert_eq!(keys.delayed_payment_basepoint, secret(0x34).public_key());
    assert_eq!(keys.htlc_basepoint, secret(0x35).public_key());
    assert_eq!(s.release_commitment_secret(7), signer(0x30).release_commitment_secret(7));
    assert_eq!(keys.funding_pubkey, signer(0x10).pubkeys().funding_pubkey);
}

#[test]
fn signers_are_equal_by_their_keys() {
    let (mut a, b) = (signer(0x10), signer(0x10));
    assert!(a == b);
    let _ = a.get_secure_random_bytes();
    let other = signer(0x20);
    a.provide_taproot_context(context(&other, None, 0));
    assert!(a == b);
    assert!(a != other);
    let mut copy = a.clone();
    assert!(copy == a);
    // A copy starts with no context, and with randomness of its own.
    assert!(a.generate_local_nonce_pair(1).is_ok());
    assert!(copy.generate_local_nonce_pair(1).is_err());
    assert_ne!(copy.get_secure_random_bytes(), a.get_secure_random_bytes());
}

#[test]
fn commitment_points_follow_the_secrets() {
    let us = signer(0x10);
    let idx = (1u64 << 48) - 1;
    let released = us.release_commitment_secret(idx).unwrap();
    let point = us.get_per_commitment_point(idx).unwrap();
    assert_eq!(SecretKey::from_bytes(&released).unwrap().public_key(), point);
    assert_ne!(us.get_per_commitment_point(idx - 1).unwrap(), point);
    assert_eq!(us.channel_keys_id(), [0x17; 32]);
    assert_eq!(us.pubkeys().payment_point, secret(0x12).public_key());
    assert_eq!(us.pubkeys().htlc_basepoint, secret(0x15).public_key());
    assert!(us.validate_counterparty_revocation(idx, &secret(1)).is_ok());
    let c = HolderCommitmentTransaction {
        inner: commitment(&us, &signer(0x20)),
        counterparty_sig: Signature::from_compact(&[1; 64]).unwrap(),
        counterparty_htlc_sigs: vec![],
    };
    assert!(us.validate_holder_commitment(&c, vec![]).is_ok());
}

#[test]
fn parameters_are_populated_by_both_halves() {
    let (us, them) = (signer(0x10), signer(0x20));
    let mut p = params(&us, &them);
    assert!(p.is_populated());
    p.funding_outpoint = None;
    assert!(!p.is_populated());
    let mut p = params(&us, &them);
    p.counterparty_parameters = None;
    assert!(!p.is_populated());
}

#[test]
fn taproot_witness_is_refused_without_their_signature() {
    let (us, them) = (signer(0x10), signer(0x20));
    let mut d = descriptor(&us, &them, true);
    d.channel_derivation_parameters.transaction_parameters.counterparty_parameters = None;
    let sig = SchnorrSignature { bytes: [0x45; 64] };
    assert_eq!(d.taproot_tx_input_witness(&sig, &scripts()), Err(SignerError::Refused));
}

#[test]
fn taproot_commitment_is_signed_with_the_scripts_given() {
    let (us, them) = (signer(0x10), signer(0x20));
    let mut p = params(&us, &them);
    p.channel_type_features = features(true);
    let mut c = commitment(&us, &them);
    let paid = [vec![0x51, 0x20, 0x01], vec![0x51, 0x20, 0x02]];
    let (sig, htlc_sigs) =
        us.sign_counterparty_commitment(&p, &c, vec![], vec![], &paid).unwrap();
    let script =
        make_funding_redeemscript(&us.pubkeys().funding_pubkey, &them.pubkeys().funding_pubkey);
    let d = digest(&c.built.transaction, 0, &script, 1_000_000, EcdsaSighashType::All);
    assert!(verifies(&sig, d, &us.pubkeys().funding_pubkey));
    assert_eq!(htlc_sigs.len(), 2);
    let key = derive_private_key(&c.keys.per_commitment_point, &us.htlc_base_key).unwrap();
    for i in 0..2 {
        let h = &c.nondust_htlcs[i];
        let second = Transaction {
            version: 2,
            lock_time: if h.offered { 600_000 } else { 0 },
            input: vec![input([0x99; 32], i as u32)],
            output: vec![TxOut {
                value: 5000 - 253 * (if h.offered { 663 } else { 703 }) / 1000,
                script_pubkey: paid[i].clone(),
            }],
        };
        let script = get_htlc_redeemscript_with_explicit_keys(
            h,
            &p.channel_type_features,
            &c.keys.broadcaster_htlc_key,
            &c.keys.countersignatory_htlc_key,
            &c.keys.revocation_key,
        );
        let d = digest(&second, 0, &script, 5000, EcdsaSighashType::All);
        assert!(verifies(&htlc_sigs[i], d, &key.public_key()));
    }
    c.nondust_htlcs = vec![];
    let (again, none) = us.sign_counterparty_commitment(&p, &c, vec![], vec![], &[]).unwrap();
    assert_eq!(again, sig);
    assert!(none.is_empty());
}
