use bitcoin::absolute::LockTime;
use bitcoin::bip32::{ChildNumber, Xpriv};
use bitcoin::hashes::{sha256, sha256d, Hash as _};
use bitcoin::secp256k1::{self, Message, Secp256k1};
use bitcoin::sighash::{EcdsaSighashType, Prevouts, SighashCache, TapSighashType};
use bitcoin::taproot::{LeafVersion, TapLeafHash};
use bitcoin::transaction::Version;
use bitcoin::{Amount, ScriptBuf};
use lightning_sign::change::maybe_add_change_output;
use lightning_sign::channel::{
    derive_add_tweak, derive_public_key, ChannelTransactionParameters, ChannelTypeFeatures,
    SignerError,
};
use lightning_sign::curve::{PublicKey, Scalar, SecretKey};
use lightning_sign::entropy::EntropySource;
use lightning_sign::keys_manager::{KeysManager, STATIC_PAYMENT_KEY_COUNT};
use lightning_sign::node::{
    sign_node_message, NodeSigner, OutputSpender, Recipient, SignerProvider,
};
use lightning_sign::phantom::PhantomKeysManager;
use lightning_sign::script::{
    get_countersigner_payment_script, get_revokeable_redeemscript,
    get_taproot_to_local_delay_script, get_taproot_to_remote_script,
    get_to_countersigner_keyed_anchor_redeemscript, new_p2pkh, new_p2tr, new_p2wpkh, to_p2wsh,
};
use lightning_sign::signer::{ChannelSigner, InMemorySigner};
use lightning_sign::spend::{
    taproot_to_local_spend_info, taproot_to_remote_spend_info, DelayedPaymentOutputDescriptor,
    SpendableOutputDescriptor, StaticPaymentOutputDescriptor,
};
use lightning_sign::tx::{BitcoinOutPoint, OutPoint, Transaction, TxIn, TxOut, MAX_MONEY};
use lightning_sign::type_resolver::ChannelSignerType;

fn manager() -> KeysManager {
    KeysManager::new(&[0x2a; 32], 1000, 7, false)
}

fn features(anchors: bool, taproot: bool) -> ChannelTypeFeatures {
    ChannelTypeFeatures {
        static_remote_key: true,
        anchors_zero_fee_htlc_tx: anchors,
        anchor_zero_fee_commitments: false,
        simple_taproot: taproot,
    }
}

fn params(signer: &InMemorySigner, f: ChannelTypeFeatures) -> ChannelTransactionParameters {
    ChannelTransactionParameters {
        holder_pubkeys: signer.pubkeys(),
        holder_selected_contest_delay: 144,
        is_outbound_from_holder: true,
        counterparty_parameters: None,
        funding_outpoint: None,
        splice_parent_funding_txid: None,
        channel_type_features: f,
        channel_value_satoshis: 1_000_000,
    }
}

fn point(b: u8) -> PublicKey {
    SecretKey::from_bytes(&[b; 32]).unwrap().public_key()
}

const ID: [u8; 32] = [0x0d; 32];

fn delayed(m: &mut KeysManager, index: u16, taproot: bool) -> DelayedPaymentOutputDescriptor {
    let signer = m.derive_channel_keys(&ID);
    let p = params(&signer, features(false, taproot));
    let key = derive_public_key(&p.holder_pubkeys.delayed_payment_basepoint, &point(9)).unwrap();
    let script_pubkey = if taproot {
        new_p2tr(&taproot_to_local_spend_info(&point(8), 144, &key).unwrap().output_key)
    } else {
        to_p2wsh(&get_revokeable_redeemscript(&point(8), 144, &key))
    };
    DelayedPaymentOutputDescriptor {
        outpoint: OutPoint { txid: [1; 32], index },
        per_commitment_point: point(9),
        to_self_delay: 144,
        output: TxOut { value: 50_000, script_pubkey },
        revocation_pubkey: point(8),
        channel_keys_id: ID,
        channel_value_satoshis: 1_000_000,
        channel_transaction_parameters: Some(p),
    }
}

fn payment(m: &mut KeysManager, index: u16, anchors: bool, taproot: bool) -> StaticPaymentOutputDescriptor {
    let signer = m.derive_channel_keys(&ID);
    let p = params(&signer, features(anchors, taproot));
    let key = p.holder_pubkeys.payment_point;
    let script_pubkey = if taproot {
        new_p2tr(&taproot_to_remote_spend_info(&key).unwrap().output_key)
    } else {
        get_countersigner_payment_script(anchors, &key)
    };
    StaticPaymentOutputDescriptor {
        outpoint: OutPoint { txid: [2; 32], index },
        output: TxOut { value: 60_000, script_pubkey },
        channel_keys_id: ID,
        channel_value_satoshis: 1_000_000,
        channel_transaction_parameters: Some(p),
    }
}

fn wallet(m: &KeysManager, index: u16, shutdown: bool) -> SpendableOutputDescriptor {
    let script_pubkey = if shutdown {
        m.get_shutdown_scriptpubkey().unwrap().script
    } else {
        m.get_destination_script([0; 32]).unwrap()
    };
    SpendableOutputDescriptor::StaticOutput {
        outpoint: OutPoint { txid: [3; 32], index },
        output: TxOut { value: 70_000, script_pubkey },
        channel_keys_id: None,
    }
}

fn outside(tx: &Transaction) -> bitcoin::Transaction {
    bitcoin::Transaction {
        version: Version(tx.version),
        lock_time: LockTime::from_consensus(tx.lock_time),
        input: tx
            .input
            .iter()
            .map(|i| bitcoin::TxIn {
                previous_output: bitcoin::OutPoint::new(
                    bitcoin::Txid::from_byte_array(i.previous_output.txid),
                    i.previous_output.vout,
                ),
                script_sig: ScriptBuf::from(i.script_sig.clone()),
                sequence: bitcoin::Sequence(i.sequence),
                witness: bitcoin::Witness::from_slice(&i.witness),
            })
            .collect(),
        output: tx.output.iter().map(outside_out).collect(),
    }
}

fn outside_out(o: &TxOut) -> bitcoin::TxOut {
    bitcoin::TxOut {
        value: Amount::from_sat(o.value),
        script_pubkey: ScriptBuf::from(o.script_pubkey.clone()),
    }
}

fn segwit_ok(tx: &Transaction, i: usize, script: &[u8], value: u64, key: &PublicKey) -> bool {
    let mut sig = tx.input[i].witness[0].clone();
    assert_eq!(sig.pop(), Some(0x01));
    let d = SighashCache::new(&outside(tx))
        .p2wsh_signature_hash(
            i,
            &ScriptBuf::from(script.to_vec()),
            Amount::from_sat(value),
            EcdsaSighashType::All,
        )
        .unwrap()
        .to_byte_array();
    let sig = secp256k1::ecdsa::Signature::from_der(&sig).unwrap();
    let key = secp256k1::PublicKey::from_slice(&key.serialize()).unwrap();
    Secp256k1::new().verify_ecdsa(&Message::from_digest(d), &sig, &key).is_ok()
}

fn leaf_ok(tx: &Transaction, i: usize, prevouts: &[TxOut], leaf: &[u8], key: &PublicKey) -> bool {
    let all: Vec<bitcoin::TxOut> = prevouts.iter().map(outside_out).collect();
    let d = SighashCache::new(&outside(tx))
        .taproot_script_spend_signature_hash(
            i,
            &Prevouts::All(&all),
            TapLeafHash::from_script(&ScriptBuf::from(leaf.to_vec()), LeafVersion::TapScript),
            TapSighashType::Default,
        )
        .unwrap()
        .to_byte_array();
    let sig = secp256k1::schnorr::Signature::from_slice(&tx.input[i].witness[0]).unwrap();
    let key = secp256k1::XOnlyPublicKey::from_slice(&key.x_only()).unwrap();
    Secp256k1::new().verify_schnorr(&sig, &Message::from_digest(d), &key).is_ok()
}

fn change_script() -> Vec<u8> {
    new_p2wpkh(&point(0x55))
}

#[test]
fn every_kind_of_output_is_spent() {
    let mut m = manager();
    let signer = m.derive_channel_keys(&ID);
    let keys = signer.pubkeys();
    let delayed_key = derive_public_key(&keys.delayed_payment_basepoint, &point(9)).unwrap();
    let descriptors = vec![
        SpendableOutputDescriptor::DelayedPaymentOutput(delayed(&mut m, 0, false)),
        SpendableOutputDescriptor::DelayedPaymentOutput(delayed(&mut m, 1, true)),
        SpendableOutputDescriptor::StaticPaymentOutput(payment(&mut m, 0, false, false)),
        SpendableOutputDescriptor::StaticPaymentOutput(payment(&mut m, 1, true, false)),
        SpendableOutputDescriptor::StaticPaymentOutput(payment(&mut m, 2, false, true)),
        wallet(&m, 0, false),
        wallet(&m, 1, true),
    ];
    let refs: Vec<&SpendableOutputDescriptor> = descriptors.iter().collect();
    let outputs = vec![TxOut { value: 100_000, script_pubkey: vec![0x51; 34] }];
    let (psbt, max) = SpendableOutputDescriptor::create_spendable_outputs_psbt(
        &refs, outputs.clone(), change_script(), 253, Some(42), false,
    )
    .unwrap();
    let prevouts: Vec<TxOut> =
        psbt.inputs.iter().map(|i| i.witness_utxo.clone().unwrap()).collect();
    let tx = m.spend_spendable_outputs(&refs, outputs, change_script(), 253, Some(42)).unwrap();
    assert_eq!((tx.version, tx.lock_time), (2, 42));
    assert_eq!(
        tx.input.iter().map(|i| i.sequence).collect::<Vec<u32>>(),
        vec![144, 144, 0, 1, 1, 0, 0]
    );
    for (i, d) in descriptors.iter().enumerate() {
        assert_eq!(tx.input[i].previous_output, d.spendable_outpoint().into_bitcoin_outpoint());
        assert!(tx.input[i].script_sig.is_empty());
    }

    let script = get_revokeable_redeemscript(&point(8), 144, &delayed_key);
    assert_eq!(tx.input[0].witness[1..], [vec![], script.clone()]);
    assert!(segwit_ok(&tx, 0, &script, 50_000, &delayed_key));

    let leaf = get_taproot_to_local_delay_script(144, &delayed_key);
    let info = taproot_to_local_spend_info(&point(8), 144, &delayed_key).unwrap();
    assert_eq!(tx.input[1].witness[1..], [leaf.clone(), info.control_block]);
    assert!(leaf_ok(&tx, 1, &prevouts, &leaf, &delayed_key));

    assert_eq!(tx.input[2].witness[1], keys.payment_point.serialize().to_vec());
    assert!(segwit_ok(&tx, 2, &new_p2pkh(&keys.payment_point), 60_000, &keys.payment_point));

    let script = get_to_countersigner_keyed_anchor_redeemscript(&keys.payment_point);
    assert_eq!(tx.input[3].witness[1], script);
    assert!(segwit_ok(&tx, 3, &script, 60_000, &keys.payment_point));

    let leaf = get_taproot_to_remote_script(&keys.payment_point);
    let info = taproot_to_remote_spend_info(&keys.payment_point).unwrap();
    assert_eq!(tx.input[4].witness[1..], [leaf.clone(), info.control_block]);
    assert!(leaf_ok(&tx, 4, &prevouts, &leaf, &keys.payment_point));

    for i in [5, 6] {
        let key: [u8; 33] = tx.input[i].witness[1].clone().try_into().unwrap();
        let key = PublicKey::from_bytes(&key).unwrap();
        assert_eq!(new_p2wpkh(&key), prevouts[i].script_pubkey);
        assert!(segwit_ok(&tx, i, &new_p2pkh(&key), 70_000, &key));
    }

    // But for its witnesses, which every input has, the transaction is the planned one.
    let mut bare = tx.clone();
    for i in bare.input.iter_mut() {
        assert!(!i.witness.is_empty());
        i.witness.clear();
    }
    assert_eq!(bare, psbt.unsigned_tx);

    // The weight is what the bitcoin crate says it is, and within what was expected.
    let weight = outside(&tx).weight().to_wu();
    assert_eq!(tx.weight(), weight);
    assert!(weight <= max);
    let planned = [154, 1 + 65 + 39 + 66 + 2, 108, 112, 1 + 65 + 37 + 34 + 2, 108, 108];
    let sizes: Vec<u64> = outside(&tx).input.iter().map(|i| i.witness.size() as u64).collect();
    let spared: u64 = planned.iter().zip(&sizes).map(|(p, s)| p - s).sum();
    assert_eq!(max - weight, spared);
    // What is planned for a taproot input is what its witness takes, with the marker and flag.
    assert_eq!((planned[1] - sizes[1], planned[4] - sizes[4]), (2, 2));
    let paid: u64 = tx.output.iter().map(|o| o.value).sum();
    assert_eq!(420_000 - paid, max * 253 / 1000);
    assert_eq!(tx.output.len(), 2);
    assert_eq!(tx.output[1].script_pubkey, change_script());
}

#[test]
fn change_is_added_where_it_is_worth_it() {
    let base = Transaction {
        version: 2,
        lock_time: 0,
        input: vec![TxIn {
            previous_output: BitcoinOutPoint { txid: [1; 32], vout: 0 },
            script_sig: vec![],
            sequence: 0,
            witness: vec![],
        }],
        output: vec![TxOut { value: 10_000, script_pubkey: vec![0x51; 34] }],
    };
    let without = outside(&base).weight().to_wu() + 2 + 108;
    let script = change_script();
    let dust = ScriptBuf::from(script.clone()).minimal_non_dust().to_sat();
    assert_eq!(dust, 294);
    let with = without + 4 * (8 + 1 + 22);
    let run = |input_value: u64, feerate: u32| {
        let mut tx = base.clone();
        let r = maybe_add_change_output(&mut tx, input_value, 108, feerate, script.clone());
        (r, tx.output.len(), tx.output.last().unwrap().value)
    };
    let fee = with * 1000 / 1000;
    assert_eq!(run(10_000 + fee + dust, 1000), (Ok(with), 2, dust));
    assert_eq!(run(10_000 + fee + dust - 1, 1000), (Ok(without), 1, 10_000));
    assert_eq!(run(10_000 + without, 1000), (Ok(without), 1, 10_000));
    assert_eq!(run(10_000 + without - 1, 1000), (Err(()), 1, 10_000));
    assert_eq!(run(10_000, 0), (Err(()), 1, 10_000));
    assert_eq!(run(10_001, 0), (Ok(without), 1, 10_000));
    assert_eq!(run(MAX_MONEY + 1, 0), (Err(()), 1, 10_000));
    assert_eq!(run(MAX_MONEY, 0).0, Ok(with));
    // A feerate that no input can pay.
    assert_eq!(run(MAX_MONEY, u32::MAX).0, Ok(with));
    assert_eq!(run(1_000_000, u32::MAX), (Err(()), 1, 10_000));
}

#[test]
fn dust_depends_on_the_script() {
    // With nothing to pay in fees, change is added from its dust limit on.
    let base = Transaction { version: 2, lock_time: 0, input: vec![], output: vec![] };
    let scripts: Vec<Vec<u8>> = vec![
        change_script(),
        to_p2wsh(&[0x51]),
        new_p2tr(&[9; 32]),
        new_p2pkh(&point(1)),
        vec![0x6a, 0x01, 0x02],
        vec![],
        vec![0x51; 300],
    ];
    for script in scripts {
        let dust = ScriptBuf::from(script.clone()).minimal_non_dust().to_sat();
        let mut tx = base.clone();
        assert!(maybe_add_change_output(&mut tx, dust, 0, 0, script.clone()).is_ok());
        assert_eq!(tx.output.len(), 1);
        if dust > 0 {
            let mut tx = base.clone();
            assert!(maybe_add_change_output(&mut tx, dust - 1, 0, 0, script).is_ok());
            assert_eq!(tx.output.len(), 0);
        }
    }
}

#[test]
fn another_output_can_widen_the_count() {
    let mut tx = Transaction {
        version: 2,
        lock_time: 0,
        input: vec![],
        output: (0..252).map(|_| TxOut { value: 1, script_pubkey: vec![] }).collect(),
    };
    let before = outside(&tx).weight().to_wu();
    let r = maybe_add_change_output(&mut tx, 1_000_000, 0, 0, change_script()).unwrap();
    assert_eq!(r, before + 2 + 4 * 31 + 4 * 2);
    assert_eq!(outside(&tx).weight().to_wu() + 2, r);
    assert_eq!(tx.weight() + 2, r);
}

#[test]
fn refused_spends() {
    let mut m = manager();
    let d = SpendableOutputDescriptor::DelayedPaymentOutput(delayed(&mut m, 0, false));
    let w = wallet(&m, 0, false);
    let refused = SignerError::Refused;
    let create = |ds: &[&SpendableOutputDescriptor], outputs: Vec<TxOut>, feerate: u32| {
        SpendableOutputDescriptor::create_spendable_outputs_psbt(
            ds, outputs, change_script(), feerate, None, false,
        )
    };
    assert_eq!(create(&[&d, &w, &d], vec![], 253).unwrap_err(), refused);
    let out = |value: u64| vec![TxOut { value, script_pubkey: vec![0x51; 34] }];
    assert_eq!(create(&[&d], out(50_000), 0).unwrap_err(), refused);
    assert_eq!(create(&[&d], out(49_900), 1000).unwrap_err(), refused);
    assert_eq!(create(&[&d], out(u64::MAX), 0).unwrap_err(), refused);
    assert!(create(&[&d], out(49_000), 253).is_ok());
    // An input worth more than can exist, alone or together with another.
    for values in [(MAX_MONEY + 1, 0), (MAX_MONEY, 1), (u64::MAX, u64::MAX)] {
        let rich = |index: u16, value: u64| SpendableOutputDescriptor::StaticOutput {
            outpoint: OutPoint { txid: [4; 32], index },
            output: TxOut { value, script_pubkey: vec![] },
            channel_keys_id: None,
        };
        let (a, b) = (rich(0, values.0), rich(1, values.1));
        assert_eq!(create(&[&a, &b], vec![], 0).unwrap_err(), refused);
    }
    // A script that the channel's own parameters contradict.
    let mut wrong = delayed(&mut m, 0, false);
    wrong.output.script_pubkey[5] ^= 1;
    let wrong = SpendableOutputDescriptor::DelayedPaymentOutput(wrong);
    assert_eq!(create(&[&wrong], vec![], 253).unwrap_err(), refused);
    // A payment output to neither of the channel's payment keys is planned, and refused by the signer.
    for (anchors, taproot) in [(false, false), (true, false), (false, true)] {
        let mut wrong = payment(&mut m, 0, anchors, taproot);
        wrong.output.script_pubkey[5] ^= 1;
        let wrong = SpendableOutputDescriptor::StaticPaymentOutput(wrong);
        let (psbt, _) = create(&[&wrong], vec![], 253).unwrap();
        assert_eq!(m.sign_spendable_outputs_psbt(&[&wrong], psbt).unwrap_err(), refused);
        assert_eq!(
            m.spend_spendable_outputs(&[&wrong], vec![], change_script(), 253, None).unwrap_err(),
            refused
        );
    }
    // One that they leave open is refused by the signer.
    let mut open = delayed(&mut m, 0, false);
    open.output.script_pubkey[5] ^= 1;
    open.channel_transaction_parameters = None;
    let open = SpendableOutputDescriptor::DelayedPaymentOutput(open);
    let (psbt, _) = create(&[&open], vec![], 253).unwrap();
    assert_eq!(m.sign_spendable_outputs_psbt(&[&open], psbt).unwrap_err(), refused);
    assert_eq!(
        m.spend_spendable_outputs(&[&open], vec![], change_script(), 253, None).unwrap_err(),
        refused
    );
    // A descriptor that the PSBT does not spend.
    let (psbt, _) = create(&[&d], vec![], 253).unwrap();
    assert_eq!(m.sign_spendable_outputs_psbt(&[&w], psbt).unwrap_err(), refused);
    // A wallet output to a script that is neither of the wallet's.
    let stranger = SpendableOutputDescriptor::StaticOutput {
        outpoint: OutPoint { txid: [4; 32], index: 0 },
        output: TxOut { value: 70_000, script_pubkey: new_p2wpkh(&point(3)) },
        channel_keys_id: None,
    };
    let (psbt, _) = create(&[&stranger], vec![], 253).unwrap();
    assert_eq!(m.sign_spendable_outputs_psbt(&[&stranger], psbt).unwrap_err(), refused);
}

#[test]
fn nothing_can_be_spent_for_nothing() {
    let (psbt, weight) = SpendableOutputDescriptor::create_spendable_outputs_psbt(
        &[], vec![], change_script(), 0, None, false,
    )
    .unwrap();
    assert!(psbt.inputs.is_empty() && psbt.unsigned_tx.output.is_empty());
    // Ten bytes, and the marker and flag twice: once of a transaction without inputs, once expected.
    assert_eq!(weight, 4 * 10 + 2 + 2);
    let none = SpendableOutputDescriptor::create_spendable_outputs_psbt(
        &[], vec![], change_script(), 253, None, false,
    );
    assert_eq!(none.unwrap_err(), SignerError::Refused);
}

#[test]
fn inputs_are_refused_unless_they_fit_the_descriptor() {
    let mut m = manager();
    let mut signer = m.derive_channel_keys(&ID);
    let d = delayed(&mut m, 0, false);
    let s = payment(&mut m, 0, false, false);
    let refused = SignerError::Refused;
    let spend = |outpoint: OutPoint, sequence: u32, script_sig: Vec<u8>| Transaction {
        version: 2,
        lock_time: 0,
        input: vec![TxIn {
            previous_output: outpoint.into_bitcoin_outpoint(),
            script_sig,
            sequence,
            witness: vec![],
        }],
        output: vec![],
    };
    let good = spend(d.outpoint, 144, vec![]);
    assert!(signer.sign_dynamic_p2wsh_input(&good, 0, &d, &[]).is_ok());
    assert_eq!(signer.sign_dynamic_p2wsh_input(&good, 1, &d, &[]).unwrap_err(), refused);
    let bad = spend(d.outpoint, 143, vec![]);
    assert_eq!(signer.sign_dynamic_p2wsh_input(&bad, 0, &d, &[]).unwrap_err(), refused);
    let bad = spend(d.outpoint, 144, vec![0x51]);
    assert_eq!(signer.sign_dynamic_p2wsh_input(&bad, 0, &d, &[]).unwrap_err(), refused);
    let bad = spend(s.outpoint, 144, vec![]);
    assert_eq!(signer.sign_dynamic_p2wsh_input(&bad, 0, &d, &[]).unwrap_err(), refused);

    let good = spend(s.outpoint, 0, vec![]);
    assert!(signer.sign_counterparty_payment_input(&good, 0, &s, &[]).is_ok());
    assert_eq!(signer.sign_counterparty_payment_input(&good, 1, &s, &[]).unwrap_err(), refused);
    let bad = spend(s.outpoint, 0, vec![0x51]);
    assert_eq!(signer.sign_counterparty_payment_input(&bad, 0, &s, &[]).unwrap_err(), refused);
    let bad = spend(d.outpoint, 0, vec![]);
    assert_eq!(signer.sign_counterparty_payment_input(&bad, 0, &s, &[]).unwrap_err(), refused);
    let mut other = s.clone();
    other.output.script_pubkey = new_p2wpkh(&point(1));
    assert_eq!(signer.sign_counterparty_payment_input(&good, 0, &other, &[]).unwrap_err(), refused);
    // Taproot sweeps need the spent outputs, and the right script.
    let t = payment(&mut m, 2, false, true);
    let good = spend(t.outpoint, 1, vec![]);
    assert_eq!(signer.sign_counterparty_payment_input(&good, 0, &t, &[]).unwrap_err(), refused);
    assert!(signer.sign_counterparty_payment_input(&good, 0, &t, &[t.output.clone()]).is_ok());
    let mut other = t.clone();
    other.output.script_pubkey = new_p2tr(&[9; 32]);
    assert_eq!(
        signer.sign_counterparty_payment_input(&good, 0, &other, &[t.output.clone()]).unwrap_err(),
        refused
    );
    let t = delayed(&mut m, 2, true);
    let good = spend(t.outpoint, 144, vec![]);
    assert_eq!(signer.sign_dynamic_p2wsh_input(&good, 0, &t, &[]).unwrap_err(), refused);
    assert!(signer.sign_dynamic_p2wsh_input(&good, 0, &t, &[t.output.clone()]).is_ok());
    let mut other = t.clone();
    other.output.script_pubkey = new_p2tr(&[9; 32]);
    assert_eq!(
        signer.sign_dynamic_p2wsh_input(&good, 0, &other, &[t.output.clone()]).unwrap_err(),
        refused
    );
}

#[test]
fn the_new_style_key_can_spend_what_it_was_paid() {
    let mut m = manager();
    let mut v2 = KeysManager::new(&[0x2a; 32], 1001, 7, true);
    let key = v2.derive_channel_keys(&ID).pubkeys().payment_point;
    assert_ne!(key, m.derive_channel_keys(&ID).pubkeys().payment_point);
    for anchors in [false, true] {
        let mut d = payment(&mut v2, 0, anchors, false);
        assert_eq!(d.output.script_pubkey, get_countersigner_payment_script(anchors, &key));
        d.channel_transaction_parameters.as_mut().unwrap().holder_pubkeys.payment_point = key;
        let d = SpendableOutputDescriptor::StaticPaymentOutput(d);
        let tx = m.spend_spendable_outputs(&[&d], vec![], change_script(), 253, None).unwrap();
        let script = if anchors {
            get_to_countersigner_keyed_anchor_redeemscript(&key)
        } else {
            new_p2pkh(&key)
        };
        assert!(segwit_ok(&tx, 0, &script, 60_000, &key));
    }
    let spks = v2.possible_v2_counterparty_closed_balance_spks();
    assert_eq!(spks.len(), 2 * STATIC_PAYMENT_KEY_COUNT as usize);
    assert_eq!(v2.try_possible_v2_counterparty_closed_balance_spks().unwrap(), spks);
    assert!(spks.contains(&get_countersigner_payment_script(false, &key)));
    assert!(spks.contains(&get_countersigner_payment_script(true, &key)));
    assert!(!spks.contains(&new_p2wpkh(&point(1))));
}

#[test]
fn either_payment_key_is_spent_whatever_the_parameters_name() {
    let mut m = manager();
    let mut v2 = KeysManager::new(&[0x2a; 32], 1001, 7, true);
    for (anchors, taproot) in [(false, false), (true, false), (false, true)] {
        // The parameters name the old key, and the output pays the new one, or the other way round.
        let (old, new) =
            (payment(&mut m, 0, anchors, taproot), payment(&mut v2, 0, anchors, taproot));
        let mut crossed = [old.clone(), new.clone()];
        crossed[0].output.script_pubkey = new.output.script_pubkey;
        crossed[1].output.script_pubkey = old.output.script_pubkey;
        for d in crossed {
            let d = SpendableOutputDescriptor::StaticPaymentOutput(d);
            let tx = m.spend_spendable_outputs(&[&d], vec![], change_script(), 253, None).unwrap();
            assert!(!tx.input[0].witness.is_empty());
        }
    }
}

#[test]
fn witness_weights() {
    let mut m = manager();
    let d = delayed(&mut m, 0, false);
    assert!(!d.is_taproot());
    assert_eq!(DelayedPaymentOutputDescriptor::MAX_WITNESS_LENGTH, 154);
    assert_eq!(d.max_witness_length(), 154);
    assert_eq!(d.taproot_max_witness_weight(), Ok(154));
    let mut d = delayed(&mut m, 0, true);
    assert!(d.is_taproot());
    // Three items: a signature, a leaf with a three-byte delay push, a control block of two leaves.
    assert_eq!(d.taproot_max_witness_weight(), Ok(1 + 65 + (1 + 35 + 3) + 66 + 2));
    d.to_self_delay = 16;
    assert_eq!(d.taproot_max_witness_weight(), Ok(1 + 65 + (1 + 35 + 1) + 66 + 2));
    d.to_self_delay = 0xffff;
    assert_eq!(d.taproot_max_witness_weight(), Ok(1 + 65 + (1 + 35 + 4) + 66 + 2));

    let p = payment(&mut m, 0, false, false);
    assert_eq!((p.max_witness_length(), p.taproot_max_witness_weight()), (108, Ok(108)));
    assert!(!p.needs_csv_1_for_spend() && !p.is_taproot());
    assert!(p.witness_script().is_none());
    let p = payment(&mut m, 0, true, false);
    assert_eq!((p.max_witness_length(), p.taproot_max_witness_weight()), (112, Ok(112)));
    assert!(p.needs_csv_1_for_spend());
    assert_eq!(
        p.witness_script().unwrap(),
        get_to_countersigner_keyed_anchor_redeemscript(
            &p.channel_transaction_parameters.unwrap().holder_pubkeys.payment_point
        )
    );
    let mut p = payment(&mut m, 0, false, true);
    assert_eq!(p.taproot_max_witness_weight(), Ok(1 + 65 + 37 + 34 + 2));
    assert!(p.needs_csv_1_for_spend() && p.is_taproot());
    p.channel_transaction_parameters = None;
    assert!(!p.needs_csv_1_for_spend() && !p.is_taproot());
    assert_eq!(p.taproot_max_witness_weight(), Ok(108));
}

#[test]
fn ground_signatures_are_a_byte_lighter() {
    let mut m = manager();
    let legacy = SpendableOutputDescriptor::DelayedPaymentOutput(delayed(&mut m, 0, false));
    let taproot = SpendableOutputDescriptor::DelayedPaymentOutput(delayed(&mut m, 1, true));
    let w = wallet(&m, 0, false);
    let weight = |d: &SpendableOutputDescriptor, grind: bool| {
        SpendableOutputDescriptor::create_spendable_outputs_psbt(
            &[d], vec![], change_script(), 253, None, grind,
        )
        .unwrap()
        .1
    };
    assert_eq!(weight(&legacy, false), weight(&legacy, true) + 1);
    assert_eq!(weight(&w, false), weight(&w, true) + 1);
    assert_eq!(weight(&taproot, false), weight(&taproot, true));
}

#[test]
fn psbt_inputs_carry_what_signing_takes() {
    let mut m = manager();
    let d = delayed(&mut m, 0, false);
    let base = d.channel_transaction_parameters.unwrap().holder_pubkeys.delayed_payment_basepoint;
    let key = derive_public_key(&base, &point(9)).unwrap();
    let input = SpendableOutputDescriptor::DelayedPaymentOutput(d.clone()).to_psbt_input();
    assert_eq!(input.witness_utxo.unwrap(), d.output);
    assert_eq!(
        input.witness_script.unwrap(),
        get_revokeable_redeemscript(&point(8), 144, &key)
    );
    assert_eq!(input.proprietary.len(), 1);
    let (name, value) = &input.proprietary[0];
    assert_eq!(name.prefix, "LDK_spendable_output".as_bytes());
    assert_eq!(name.subtype, 0);
    assert_eq!(name.key, "add_tweak".as_bytes());
    assert_eq!(value[..], derive_add_tweak(&base, &point(9)));
    assert!(input.final_script_witness.is_none() && input.final_script_sig.is_none());
    let mut bare = d;
    bare.channel_transaction_parameters = None;
    let bare = SpendableOutputDescriptor::DelayedPaymentOutput(bare);
    let input = bare.try_to_psbt_input().unwrap();
    assert!(input.witness_script.is_none() && input.proprietary.is_empty());
    let p = payment(&mut m, 0, true, false);
    let input = SpendableOutputDescriptor::StaticPaymentOutput(p.clone()).to_psbt_input();
    assert_eq!(input.witness_script, p.witness_script());
    let input = wallet(&m, 0, false).to_psbt_input();
    assert!(input.witness_script.is_none());
    assert_eq!(input.witness_utxo.unwrap().value, 70_000);
}

fn child(seed: &[u8; 32], index: u32) -> Xpriv {
    let secp = Secp256k1::new();
    let master = Xpriv::new_master(bitcoin::Network::Testnet, seed).unwrap();
    master.derive_priv(&secp, &[ChildNumber::from_hardened_idx(index).unwrap()]).unwrap()
}

#[test]
fn manager_keys_are_children_of_the_seed() {
    let seed = [0x2a; 32];
    let mut m = manager();
    let public = |i: u32| {
        let key = child(&seed, i).private_key.secret_bytes();
        SecretKey::from_bytes(&key).unwrap().public_key()
    };
    assert_eq!(m.get_node_secret_key().secret_bytes(), child(&seed, 0).private_key.secret_bytes());
    assert_eq!(m.get_node_id(Recipient::Node), Ok(public(0)));
    assert_eq!(m.get_node_id(Recipient::PhantomNode), Err(()));
    assert_eq!(m.get_destination_script([0; 32]).unwrap(), new_p2wpkh(&public(1)));
    assert_eq!(m.get_shutdown_scriptpubkey().unwrap().script, new_p2wpkh(&public(2)));
    assert_eq!(
        m.get_expanded_key().key_material,
        child(&seed, 5).private_key.secret_bytes()
    );
    assert_eq!(m.get_peer_storage_key().inner, child(&seed, 6).private_key.secret_bytes());
    assert_eq!(m.get_receive_auth_key().0, child(&seed, 7).private_key.secret_bytes());
    let id = m.get_node_id(Recipient::Node).unwrap();
    let script = m.get_destination_script(ID).unwrap();
    let shutdown = m.get_shutdown_scriptpubkey().unwrap();
    let _ = m.get_secure_random_bytes();
    let _ = m.derive_channel_keys(&ID);
    assert_eq!(m.get_node_id(Recipient::Node), Ok(id));
    assert_eq!(id, m.get_node_secret_key().public_key());
    assert_eq!(m.get_destination_script(ID), Ok(script));
    assert_eq!(m.get_shutdown_scriptpubkey(), Ok(shutdown));
    assert!(KeysManager::try_new(&seed, 1, 2, false).is_some());
}

#[test]
fn channel_keys_are_derived_step_by_step() {
    let seed = [0x2a; 32];
    let mut m = manager();
    let mut id = [0u8; 32];
    for (i, b) in id.iter_mut().enumerate() {
        *b = 0xf0 + (i % 8) as u8;
    }
    let secp = Secp256k1::new();
    let hash = |parts: &[&[u8]]| sha256::Hash::hash(&parts.concat()).to_byte_array();
    let index = 0xf4f5f6f7u32 % (1 << 31);
    let path = [ChildNumber::from_hardened_idx(index).unwrap()];
    let key = child(&seed, 3).derive_priv(&secp, &path).unwrap().private_key.secret_bytes();
    let unique = hash(&[&id, &seed, &key]);
    let commitment_seed = hash(&[&unique, b"commitment seed"]);
    let funding = hash(&[&unique, &commitment_seed, b"funding key"]);
    let revocation = hash(&[&unique, &funding, b"revocation base key"]);
    let payment = hash(&[&unique, &revocation, b"payment key"]);
    let delayed = hash(&[&unique, &payment, b"delayed payment base key"]);
    let htlc = hash(&[&unique, &delayed, b"HTLC base key"]);
    let s = m.derive_channel_keys(&id);
    assert_eq!(s.funding_key(None).secret_bytes(), funding);
    assert_eq!(s.revocation_base_key.secret_bytes(), revocation);
    assert_eq!(s.delayed_payment_base_key.secret_bytes(), delayed);
    assert_eq!(s.htlc_base_key.secret_bytes(), htlc);
    assert_eq!(s.commitment_seed, commitment_seed);
    assert_eq!(s.channel_keys_id(), id);
    assert_eq!(
        s.pubkeys().payment_point,
        SecretKey::from_bytes(&payment).unwrap().public_key()
    );
    let mut v2 = KeysManager::new(&seed, 1000, 7, true);
    let mut first = [0u8; 8];
    first.copy_from_slice(&commitment_seed[..8]);
    let index = (u64::from_le_bytes(first) % 1000) as u32;
    let path = [ChildNumber::from_hardened_idx(index).unwrap()];
    let key = child(&seed, 8).derive_priv(&secp, &path).unwrap().private_key.secret_bytes();
    let s = v2.derive_channel_signer(id).unwrap();
    assert_eq!(s.pubkeys().payment_point, SecretKey::from_bytes(&key).unwrap().public_key());
    assert!(v2.derive_taproot_channel_signer(id).unwrap() == s);
}

#[test]
fn signers_are_rederived_after_a_restart() {
    let mut before = KeysManager::new(&[0x2a; 32], 1000, 7, false);
    let mut after = KeysManager::new(&[0x2a; 32], 2000, 8, false);
    let id = before.generate_channel_keys_id(false, 77);
    let mut a = before.derive_channel_keys(&id);
    let mut b = after.try_derive_channel_keys(&id).unwrap();
    assert!(a == b);
    assert_ne!(a.get_secure_random_bytes(), b.get_secure_random_bytes());
    assert_ne!(before.get_secure_random_bytes(), after.get_secure_random_bytes());
}

#[test]
fn channel_ids_are_laid_out_and_unique() {
    let mut m = KeysManager::new(&[0x2a; 32], 0x0102030405060708, 0x11121314, false);
    let user = 0x2122232425262728_292a2b2c2d2e2f30u128;
    let first = m.generate_channel_keys_id(true, user);
    let second = m.generate_channel_keys_id(false, user);
    let mut expected = vec![0, 0, 0, 0, 0x11, 0x12, 0x13, 0x14, 1, 2, 3, 4, 5, 6, 7, 8];
    expected.extend(0x21..=0x30);
    assert_eq!(first.to_vec(), expected);
    expected[3] = 1;
    assert_eq!(second.to_vec(), expected);
}

#[test]
fn randomness_of_a_manager_starts_at_its_second_value() {
    let mut m = KeysManager::new(&[0x2a; 32], 5, 6, false);
    let mut preimage = 5u64.to_be_bytes().to_vec();
    preimage.extend_from_slice(&6u32.to_be_bytes());
    preimage.extend_from_slice(&[0x2a; 32]);
    preimage.extend_from_slice(b"LDK PRNG Seed");
    let seed = sha256::Hash::hash(&preimage).to_byte_array();
    let mut nonce = [0u8; 16];
    nonce[7] = 1;
    let expected = lightning_sign::entropy::get_single_block(&seed, &nonce);
    assert_eq!(m.get_secure_random_bytes(), expected);
}

#[test]
fn node_keys_sign_and_share() {
    let mut m = manager();
    let secp = Secp256k1::new();
    let node = secp256k1::SecretKey::from_slice(&m.get_node_secret_key().secret_bytes()).unwrap();
    let public = node.public_key(&secp);
    let hash = [0x42; 32];
    let sig = m.sign_invoice(&hash, Recipient::Node).unwrap();
    let id = secp256k1::ecdsa::RecoveryId::from_i32(sig.recovery_id as i32).unwrap();
    let rec = secp256k1::ecdsa::RecoverableSignature::from_compact(&sig.compact, id).unwrap();
    assert_eq!(secp.recover_ecdsa(&Message::from_digest(hash), &rec).unwrap(), public);
    assert_eq!(m.sign_invoice(&hash, Recipient::PhantomNode), Err(()));

    let sig = m.sign_gossip_message(b"gossip").unwrap();
    let sig = secp256k1::ecdsa::Signature::from_compact(&sig.serialize_compact()).unwrap();
    let digest = sha256d::Hash::hash(b"gossip").to_byte_array();
    assert!(secp.verify_ecdsa(&Message::from_digest(digest), &sig, &public).is_ok());

    let first = m.sign_bolt12_invoice(&hash).unwrap();
    let second = m.sign_bolt12_invoice(&hash).unwrap();
    assert_ne!(first, second);
    for s in [first, second] {
        let s = secp256k1::schnorr::Signature::from_slice(&s.bytes).unwrap();
        let key = public.x_only_public_key().0;
        assert!(secp.verify_schnorr(&s, &Message::from_digest(hash), &key).is_ok());
    }

    let other = secp256k1::SecretKey::from_slice(&[0x66; 32]).unwrap();
    let other_key = point(0x66);
    let expected = secp256k1::ecdh::SharedSecret::new(&public, &other).secret_bytes();
    assert_eq!(m.ecdh(Recipient::Node, &other_key, None), Ok(expected));
    assert_eq!(m.ecdh(Recipient::PhantomNode, &other_key, None), Err(()));
    let tweak = Scalar::from_be_bytes(&[0x0f; 32]).unwrap();
    let tweaked = other
        .mul_tweak(&secp256k1::Scalar::from_be_bytes([0x0f; 32]).unwrap())
        .unwrap();
    let expected = secp256k1::ecdh::SharedSecret::new(&public, &tweaked).secret_bytes();
    assert_eq!(m.ecdh(Recipient::Node, &other_key, Some(&tweak)), Ok(expected));
    let zero = Scalar::from_be_bytes(&[0; 32]).unwrap();
    assert_eq!(m.ecdh(Recipient::Node, &other_key, Some(&zero)), Err(()));
}

#[test]
fn two_nodes_share_a_secret() {
    let a = manager();
    let b = KeysManager::new(&[0x2b; 32], 1000, 7, false);
    let (id_a, id_b) =
        (a.get_node_id(Recipient::Node).unwrap(), b.get_node_id(Recipient::Node).unwrap());
    let shared = a.ecdh(Recipient::Node, &id_b, None).unwrap();
    assert_eq!(b.ecdh(Recipient::Node, &id_a, None).unwrap(), shared);
    // A tweak of the secret may be one of the point instead.
    let tweak = Scalar::from_be_bytes(&[0x0f; 32]).unwrap();
    let tweaked = a.ecdh(Recipient::Node, &id_b, Some(&tweak)).unwrap();
    assert_ne!(tweaked, shared);
    let point = id_b.mul_tweak(&tweak).unwrap();
    assert_eq!(a.ecdh(Recipient::Node, &point, None).unwrap(), tweaked);
}

#[test]
fn messages_are_signed_in_zbase32() {
    let mut one = [0u8; 32];
    one[31] = 1;
    let key = SecretKey::from_bytes(&one).unwrap();
    assert_eq!(
        sign_node_message(b"test message", &key),
        "d9tibmnic9t5y41hg7hkakdcra94akas9ku3rmmj4ag9mritc8ok4p5qzefs78c9pqfhpuftqqzhydbdwfg7u6w6wdxcqpqn4sj4e73e"
    );
    let m = manager();
    assert_eq!(m.sign_message(b"hello").unwrap(), sign_node_message(b"hello", &m.get_node_secret_key()));
}

#[test]
fn phantom_nodes_share_their_phantom_keys() {
    let cross = [0x77; 32];
    let mut a = PhantomKeysManager::new(&[0x2a; 32], 1, 2, &cross, false);
    let b = PhantomKeysManager::try_new(&[0x2b; 32], 3, 4, &cross, true).unwrap();
    assert_eq!(a.get_phantom_node_secret_key(), b.get_phantom_node_secret_key());
    assert_eq!(a.get_node_id(Recipient::PhantomNode), b.get_node_id(Recipient::PhantomNode));
    assert_eq!(a.get_expanded_key(), b.get_expanded_key());
    assert_ne!(a.get_node_id(Recipient::Node), b.get_node_id(Recipient::Node));
    let (inbound, phantom) = lightning_sign::hashes::hkdf_extract_expand_twice(
        b"LDK Inbound and Phantom Payment Key Expansion",
        &cross,
    );
    assert_eq!(a.get_expanded_key().key_material, inbound);
    assert_eq!(a.get_phantom_node_secret_key().secret_bytes(), phantom);
    let phantom_key = a.get_phantom_node_secret_key().public_key();
    assert_eq!(a.get_node_id(Recipient::PhantomNode), Ok(phantom_key));

    // Everything else is the node's own.
    let mut inner = KeysManager::new(&[0x2a; 32], 1, 2, false);
    assert_eq!(a.get_node_secret_key(), inner.get_node_secret_key());
    assert_ne!(a.get_expanded_key(), inner.get_expanded_key());
    assert_eq!(a.get_peer_storage_key(), inner.get_peer_storage_key());
    assert_eq!(a.get_receive_auth_key(), inner.get_receive_auth_key());
    assert_eq!(a.sign_gossip_message(b"x"), inner.sign_gossip_message(b"x"));
    assert_eq!(a.sign_message(b"x"), inner.sign_message(b"x"));
    assert_eq!(a.sign_bolt12_invoice(&[1; 32]), inner.sign_bolt12_invoice(&[1; 32]));
    assert_eq!(a.get_secure_random_bytes(), inner.get_secure_random_bytes());
    assert_eq!(
        a.generate_channel_keys_id(false, 9),
        inner.generate_channel_keys_id(false, 9)
    );
    assert!(a.derive_channel_keys(&ID) == inner.derive_channel_keys(&ID));
    assert!(a.try_derive_channel_keys(&ID).unwrap() == a.derive_channel_signer(ID).unwrap());
    assert!(a.derive_taproot_channel_signer(ID).unwrap() == inner.derive_channel_keys(&ID));
    assert_eq!(a.get_destination_script(ID), inner.get_destination_script(ID));
    assert_eq!(a.get_shutdown_scriptpubkey(), inner.get_shutdown_scriptpubkey());

    let hash = [0x42; 32];
    assert_eq!(
        a.sign_invoice(&hash, Recipient::Node),
        inner.sign_invoice(&hash, Recipient::Node)
    );
    assert_eq!(
        a.sign_invoice(&hash, Recipient::PhantomNode),
        b.sign_invoice(&hash, Recipient::PhantomNode)
    );
    let other = point(5);
    assert_eq!(
        a.ecdh(Recipient::PhantomNode, &other, None),
        b.ecdh(Recipient::PhantomNode, &other, None)
    );
    assert_eq!(a.ecdh(Recipient::Node, &other, None), inner.ecdh(Recipient::Node, &other, None));

    let w = wallet(&inner, 0, true);
    let tx = a.spend_spendable_outputs(&[&w], vec![], change_script(), 253, None).unwrap();
    assert_eq!(tx.output.len(), 1);
    assert_eq!(tx.input[0].witness.len(), 2);
}

#[test]
fn signer_types_give_out_the_signer_they_hold() {
    let mut m = manager();
    let mut e = ChannelSignerType::<KeysManager>::Ecdsa(m.derive_channel_keys(&ID));
    let t = ChannelSignerType::<KeysManager>::Taproot(m.derive_channel_keys(&[1; 32]));
    assert_eq!(e.as_ref().channel_keys_id(), ID);
    assert_eq!(t.as_ref().channel_keys_id(), [1; 32]);
    assert!(e.as_ecdsa().is_some() && e.as_taproot().is_none());
    assert!(t.as_ecdsa().is_none() && t.as_taproot().is_some());
    let drawn = e.as_mut_ecdsa().unwrap().get_secure_random_bytes();
    assert_ne!(e.as_mut_ecdsa().unwrap().get_secure_random_bytes(), drawn);
    let mut t = t;
    assert!(t.as_mut_ecdsa().is_none());
}
