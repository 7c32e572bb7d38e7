use bitcoin::hashes::{hash160, ripemd160, Hash as _};
use bitcoin::opcodes::all as op;
use bitcoin::script::Builder;
use bitcoin::taproot::{LeafVersion, TapLeafHash, TaprootBuilder};
use bitcoin::{ScriptBuf, WPubkeyHash};
use lightning_sign::channel::{
    build_htlc_transaction, get_htlc_redeemscript_with_explicit_keys, second_level_fee,
    ChannelTypeFeatures, HTLCOutputInCommitment,
};
use lightning_sign::curve::{PublicKey, SecretKey};
use lightning_sign::script::{
    get_countersigner_payment_script, get_keyed_anchor_redeemscript, get_revokeable_redeemscript,
    get_taproot_to_local_delay_script, get_taproot_to_local_revoke_script,
    get_taproot_to_remote_script, get_to_countersigner_keyed_anchor_redeemscript,
    make_funding_redeemscript, new_p2pkh, new_p2tr, new_p2wpkh, to_p2wsh,
};
use lightning_sign::spend::{
    taproot_to_local_spend_info, taproot_to_remote_spend_info, TAPROOT_NUMS_KEY,
};
use lightning_sign::taproot::{leaf_hash, taproot_spend};

fn hex(s: &str) -> Vec<u8> {
    (0..s.len() / 2).map(|i| u8::from_str_radix(&s[2 * i..2 * i + 2], 16).unwrap()).collect()
}

fn key(b: u8) -> PublicKey {
    SecretKey::from_bytes(&[b; 32]).unwrap().public_key()
}

fn outside(k: &PublicKey) -> bitcoin::PublicKey {
    bitcoin::PublicKey::from_slice(&k.serialize()).unwrap()
}

fn xonly(k: &PublicKey) -> bitcoin::XOnlyPublicKey {
    bitcoin::XOnlyPublicKey::from_slice(&k.x_only()).unwrap()
}

#[test]
fn revokeable_script_of_a_known_output() {
    let revocation: [u8; 33] =
        hex("0394a27a700617f5b7aee72bd4f8076b5770a582b7fbd1d4ee2ea3802cd3cfbe20").try_into().unwrap();
    let delayed: [u8; 33] =
        hex("034629b1c8fdebfaeb58a74cd181f485e2c462e594cb3034dee655875f69f6c7c9").try_into().unwrap();
    let script = get_revokeable_redeemscript(
        &PublicKey::from_bytes(&revocation).unwrap(),
        144,
        &PublicKey::from_bytes(&delayed).unwrap(),
    );
    assert_eq!(
        script,
        hex("63210394a27a700617f5b7aee72bd4f8076b5770a582b7fbd1d4ee2ea3802cd3cfbe2067029000b27521034629b1c8fdebfaeb58a74cd181f485e2c462e594cb3034dee655875f69f6c7c968ac")
    );
    assert_eq!(
        to_p2wsh(&script),
        hex("00200afe4736760d814a2651bae63b572d935d9ab74a1a16c01774e341a32afa7636")
    );
}

#[test]
fn revokeable_scripts_match_the_builder() {
    for delay in [0u16, 1, 16, 17, 127, 128, 255, 256, 0x7fff, 0x8000, 0xffff] {
        let script = get_revokeable_redeemscript(&key(1), delay, &key(2));
        let expected = Builder::new()
            .push_opcode(op::OP_IF)
            .push_key(&outside(&key(1)))
            .push_opcode(op::OP_ELSE)
            .push_int(delay as i64)
            .push_opcode(op::OP_CSV)
            .push_opcode(op::OP_DROP)
            .push_key(&outside(&key(2)))
            .push_opcode(op::OP_ENDIF)
            .push_opcode(op::OP_CHECKSIG)
            .into_script();
        assert_eq!(script, expected.to_bytes());
        assert!(script.len() <= 78);
    }
    assert_eq!(get_revokeable_redeemscript(&key(1), 0xffff, &key(2)).len(), 78);
}

#[test]
fn simple_scripts_match_the_bitcoin_crate() {
    let k = key(3);
    let o = outside(&k);
    assert_eq!(new_p2wpkh(&k), ScriptBuf::new_p2wpkh(&o.wpubkey_hash().unwrap()).to_bytes());
    assert_eq!(new_p2pkh(&k), ScriptBuf::new_p2pkh(&o.pubkey_hash()).to_bytes());
    let script = get_keyed_anchor_redeemscript(&k);
    let expected = Builder::new()
        .push_key(&o)
        .push_opcode(op::OP_CHECKSIG)
        .push_opcode(op::OP_IFDUP)
        .push_opcode(op::OP_NOTIF)
        .push_int(16)
        .push_opcode(op::OP_CSV)
        .push_opcode(op::OP_ENDIF)
        .into_script();
    assert_eq!(script, expected.to_bytes());
    assert_eq!(to_p2wsh(&script), expected.to_p2wsh().to_bytes());
    let anchored = Builder::new()
        .push_key(&o)
        .push_opcode(op::OP_CHECKSIGVERIFY)
        .push_int(1)
        .push_opcode(op::OP_CSV)
        .into_script();
    assert_eq!(get_to_countersigner_keyed_anchor_redeemscript(&k), anchored.to_bytes());
    assert_eq!(get_countersigner_payment_script(true, &k), anchored.to_p2wsh().to_bytes());
    let hash: WPubkeyHash = o.wpubkey_hash().unwrap();
    assert_eq!(get_countersigner_payment_script(false, &k), ScriptBuf::new_p2wpkh(&hash).to_bytes());
}

#[test]
fn funding_script_sorts_its_keys() {
    let (a, b) = (key(4), key(5));
    let script = make_funding_redeemscript(&a, &b);
    assert_eq!(script, make_funding_redeemscript(&b, &a));
    let (lo, hi) = if a.serialize() < b.serialize() { (a, b) } else { (b, a) };
    let expected = Builder::new()
        .push_int(2)
        .push_key(&outside(&lo))
        .push_key(&outside(&hi))
        .push_int(2)
        .push_opcode(op::OP_CHECKMULTISIG)
        .into_script();
    assert_eq!(script, expected.to_bytes());
}

fn features(anchors: bool, zero_fee: bool) -> ChannelTypeFeatures {
    ChannelTypeFeatures {
        static_remote_key: true,
        anchors_zero_fee_htlc_tx: anchors,
        anchor_zero_fee_commitments: zero_fee,
        simple_taproot: false,
    }
}

fn htlc(offered: bool, amount_msat: u64, cltv_expiry: u32) -> HTLCOutputInCommitment {
    HTLCOutputInCommitment {
        offered,
        amount_msat,
        cltv_expiry,
        payment_hash: [0x66; 32],
        transaction_output_index: Some(3),
    }
}

#[test]
fn htlc_scripts_match_the_builder() {
    let (broadcaster, countersignatory, revocation) = (key(1), key(2), key(3));
    let payment = ripemd160::Hash::hash(&[0x66; 32]).to_byte_array();
    let revocation_hash = hash160::Hash::hash(&revocation.serialize()).to_byte_array();
    for anchors in [false, true] {
        let mut offered = Builder::new()
            .push_opcode(op::OP_DUP)
            .push_opcode(op::OP_HASH160)
            .push_slice(revocation_hash)
            .push_opcode(op::OP_EQUAL)
            .push_opcode(op::OP_IF)
            .push_opcode(op::OP_CHECKSIG)
            .push_opcode(op::OP_ELSE)
            .push_slice(countersignatory.serialize())
            .push_opcode(op::OP_SWAP)
            .push_opcode(op::OP_SIZE)
            .push_int(32)
            .push_opcode(op::OP_EQUAL);
        let mut received = offered.clone();
        offered = offered
            .push_opcode(op::OP_NOTIF)
            .push_opcode(op::OP_DROP)
            .push_int(2)
            .push_opcode(op::OP_SWAP)
            .push_slice(broadcaster.serialize())
            .push_int(2)
            .push_opcode(op::OP_CHECKMULTISIG)
            .push_opcode(op::OP_ELSE)
            .push_opcode(op::OP_HASH160)
            .push_slice(payment)
            .push_opcode(op::OP_EQUALVERIFY)
            .push_opcode(op::OP_CHECKSIG)
            .push_opcode(op::OP_ENDIF);
        received = received
            .push_opcode(op::OP_IF)
            .push_opcode(op::OP_HASH160)
            .push_slice(payment)
            .push_opcode(op::OP_EQUALVERIFY)
            .push_int(2)
            .push_opcode(op::OP_SWAP)
            .push_slice(broadcaster.serialize())
            .push_int(2)
            .push_opcode(op::OP_CHECKMULTISIG)
            .push_opcode(op::OP_ELSE)
            .push_opcode(op::OP_DROP)
            .push_int(500_000)
            .push_opcode(op::OP_CLTV)
            .push_opcode(op::OP_DROP)
            .push_opcode(op::OP_CHECKSIG)
            .push_opcode(op::OP_ENDIF);
        if anchors {
            offered = offered.push_int(1).push_opcode(op::OP_CSV).push_opcode(op::OP_DROP);
            received = received.push_int(1).push_opcode(op::OP_CSV).push_opcode(op::OP_DROP);
        }
        let offered = offered.push_opcode(op::OP_ENDIF).into_script();
        let received = received.push_opcode(op::OP_ENDIF).into_script();
        let script = |is_offered: bool| {
            get_htlc_redeemscript_with_explicit_keys(
                &htlc(is_offered, 1000, 500_000),
                &features(anchors, false),
                &broadcaster,
                &countersignatory,
                &revocation,
            )
        };
        assert_eq!(script(true), offered.to_bytes());
        assert_eq!(script(false), received.to_bytes());
    }
}

#[test]
fn second_level_transactions_pay_the_fee_of_their_weight() {
    let plain = features(false, false);
    let offered = htlc(true, 2_000_999, 77);
    let received = htlc(false, 2_000_999, 77);
    assert_eq!(second_level_fee(&offered, 1000, &plain), 663);
    assert_eq!(second_level_fee(&received, 1000, &plain), 703);
    assert_eq!(second_level_fee(&received, 253, &plain), 177);
    assert_eq!(second_level_fee(&received, 253, &features(true, false)), 0);
    assert_eq!(second_level_fee(&received, 253, &features(false, true)), 0);
    let tx = build_htlc_transaction(&[9; 32], 1000, 144, &offered, &plain, &key(1), &key(2), None);
    assert_eq!(tx.version, 2);
    assert_eq!(tx.lock_time, 77);
    assert_eq!(tx.input.len(), 1);
    assert_eq!(tx.input[0].previous_output.txid, [9; 32]);
    assert_eq!(tx.input[0].previous_output.vout, 3);
    assert_eq!(tx.input[0].sequence, 0);
    assert_eq!(tx.output.len(), 1);
    assert_eq!(tx.output[0].value, 2000 - 663);
    assert_eq!(
        tx.output[0].script_pubkey,
        to_p2wsh(&get_revokeable_redeemscript(&key(2), 144, &key(1)))
    );
    let tx = build_htlc_transaction(
        &[9; 32], 1000, 144, &received, &features(true, false), &key(1), &key(2), None,
    );
    assert_eq!((tx.lock_time, tx.input[0].sequence, tx.output[0].value), (0, 1, 2000));
    let tx = build_htlc_transaction(
        &[9; 32], 1000, 144, &received, &features(false, true), &key(1), &key(2), None,
    );
    assert_eq!((tx.version, tx.input[0].sequence, tx.output[0].value), (3, 0, 2000));
    let taproot = ChannelTypeFeatures { simple_taproot: true, ..features(true, false) };
    let paid = [0x51, 0x20, 0x07];
    let tx = build_htlc_transaction(
        &[9; 32], 1000, 144, &received, &taproot, &key(1), &key(2), Some(&paid),
    );
    assert_eq!(tx.output[0].script_pubkey, paid.to_vec());
    assert_eq!(tx.output[0].value, 2000);
}

#[test]
fn taproot_leaves_match_the_builder() {
    let (delayed, revocation) = (key(1), key(2));
    for delay in [1u16, 144, 2016, 0xffff] {
        let expected = Builder::new()
            .push_x_only_key(&xonly(&delayed))
            .push_opcode(op::OP_CHECKSIGVERIFY)
            .push_int(delay as i64)
            .push_opcode(op::OP_CSV)
            .into_script();
        assert_eq!(get_taproot_to_local_delay_script(delay, &delayed), expected.to_bytes());
    }
    let expected = Builder::new()
        .push_x_only_key(&xonly(&delayed))
        .push_opcode(op::OP_DROP)
        .push_x_only_key(&xonly(&revocation))
        .push_opcode(op::OP_CHECKSIG)
        .into_script();
    assert_eq!(get_taproot_to_local_revoke_script(&revocation, &delayed), expected.to_bytes());
    let expected = Builder::new()
        .push_x_only_key(&xonly(&delayed))
        .push_opcode(op::OP_CHECKSIGVERIFY)
        .push_int(1)
        .push_opcode(op::OP_CSV)
        .into_script();
    assert_eq!(get_taproot_to_remote_script(&delayed), expected.to_bytes());
}

#[test]
fn taproot_spends_match_the_tree_builder() {
    let secp = bitcoin::secp256k1::Secp256k1::new();
    let nums = bitcoin::XOnlyPublicKey::from_slice(&TAPROOT_NUMS_KEY).unwrap();
    for b in 1u8..20 {
        let (delayed, revocation) = (key(b), key(b + 50));
        let leaf = ScriptBuf::from(get_taproot_to_local_delay_script(144, &delayed));
        let other = ScriptBuf::from(get_taproot_to_local_revoke_script(&revocation, &delayed));
        let info = TaprootBuilder::new()
            .add_leaf(1, leaf.clone())
            .unwrap()
            .add_leaf(1, other)
            .unwrap()
            .finalize(&secp, nums)
            .unwrap();
        let spend = taproot_to_local_spend_info(&revocation, 144, &delayed).unwrap();
        assert_eq!(
            new_p2tr(&spend.output_key),
            ScriptBuf::new_p2tr_tweaked(info.output_key()).to_bytes()
        );
        let block = info.control_block(&(leaf.clone(), LeafVersion::TapScript)).unwrap();
        assert_eq!(spend.control_block, block.serialize());
        assert_eq!(spend.control_block.len(), 65);

        let leaf = ScriptBuf::from(get_taproot_to_remote_script(&delayed));
        let info =
            TaprootBuilder::new().add_leaf(0, leaf.clone()).unwrap().finalize(&secp, nums).unwrap();
        let spend = taproot_to_remote_spend_info(&delayed).unwrap();
        assert_eq!(
            new_p2tr(&spend.output_key),
            ScriptBuf::new_p2tr_tweaked(info.output_key()).to_bytes()
        );
        let block = info.control_block(&(leaf, LeafVersion::TapScript)).unwrap();
        assert_eq!(spend.control_block, block.serialize());
        assert_eq!(spend.control_block.len(), 33);
    }
}

#[test]
fn leaf_digests_cover_the_length_prefix() {
    for len in [0usize, 1, 252, 253, 254, 65535, 65536] {
        let script = vec![0x51u8; len];
        let expected =
            TapLeafHash::from_script(&ScriptBuf::from(script.clone()), LeafVersion::TapScript);
        assert_eq!(leaf_hash(&script), expected.to_byte_array());
    }
}

#[test]
fn spends_of_no_internal_key_do_not_exist() {
    // No point has the x coordinate 5.
    let mut x = [0u8; 32];
    x[31] = 5;
    assert!(taproot_spend(&x, &[0x51], None).is_none());
    let spend = taproot_spend(&TAPROOT_NUMS_KEY, &[0x51], Some(&[0x52])).unwrap();
    let swapped = taproot_spend(&TAPROOT_NUMS_KEY, &[0x52], Some(&[0x51])).unwrap();
    assert_eq!(spend.output_key, swapped.output_key);
    assert_ne!(spend.control_block, swapped.control_block);
}
