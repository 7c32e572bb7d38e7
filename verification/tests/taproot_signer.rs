use bitcoin::secp256k1::{schnorr, Message, Secp256k1, XOnlyPublicKey};
use lightning_sign::curve::{PublicKey, SchnorrSignature, SecretKey};
use lightning_sign::nonce::{
    derive_secnonce_seed, derive_secnonce_seed_domain, COUNTERPARTY_COMMITMENT_NONCE_TAG,
};
use lightning_sign::signer::compute_funding_key_tweak;
use lightning_sign::taproot_signer::{
    aggregate_key_path_partials, aggregated_xonly, channel_key_agg_ctx, final_nonce,
    key_path_signature_verifies, local_pubnonce, our_key_path_partial,
    our_key_path_partial_counterparty, KeyAggContext, KeyAggError, PartialSignature, PubNonce,
    SignError, GENERATOR,
};
use musig2::{FirstRound, SecNonceSpices};

fn keypair(seed: u8) -> (SecretKey, [u8; 33]) {
    let sk = SecretKey::from_bytes(&[seed; 32]).unwrap();
    (sk, sk.public_key().serialize())
}

fn verifies(sig: &SchnorrSignature, msg: [u8; 32], q: &[u8; 32]) -> bool {
    let secp = Secp256k1::new();
    let sig = schnorr::Signature::from_slice(&sig.bytes).unwrap();
    let q = XOnlyPublicKey::from_slice(q).unwrap();
    secp.verify_schnorr(&sig, &Message::from_digest(msg), &q).is_ok()
}

#[test]
fn in_tree_key_path_roundtrip_verifies() {
    let (lp_sec, lp_pub) = keypair(0x11);
    let (hop_sec, hop_pub) = keypair(0x22);
    let lp_root = [0xAB; 32];
    let hop_root = [0xCD; 32];
    let height = 281_474_976_710_654u64;
    let msg = [0x42u8; 32];

    let (lp_ctx, lp_idx) = channel_key_agg_ctx(&lp_pub, &hop_pub, &lp_pub).unwrap();
    let (hop_ctx, hop_idx) = channel_key_agg_ctx(&lp_pub, &hop_pub, &hop_pub).unwrap();
    let q = aggregated_xonly(&lp_ctx);

    let lp_pn = local_pubnonce(lp_ctx, lp_idx, &lp_root, height).unwrap();
    let hop_pn = local_pubnonce(hop_ctx, hop_idx, &hop_root, height).unwrap();

    let (lp_ctx2, _) = channel_key_agg_ctx(&lp_pub, &hop_pub, &lp_pub).unwrap();
    let (hop_ctx2, _) = channel_key_agg_ctx(&lp_pub, &hop_pub, &hop_pub).unwrap();
    let (lp_partial, lp_pn2) = our_key_path_partial(
        lp_ctx2, lp_idx, hop_idx, lp_sec, &lp_root, height, hop_pn.clone(), msg,
    )
    .unwrap();
    let (hop_partial, _hop_pn2) = our_key_path_partial(
        hop_ctx2, hop_idx, lp_idx, hop_sec, &hop_root, height, lp_pn.clone(), msg,
    )
    .unwrap();
    assert_eq!(lp_pn.serialize(), lp_pn2.serialize());

    let (agg_ctx, _) = channel_key_agg_ctx(&lp_pub, &hop_pub, &lp_pub).unwrap();
    let sig = aggregate_key_path_partials(
        agg_ctx, msg, lp_idx, lp_pn, lp_partial, hop_idx, hop_pn, hop_partial,
    )
    .unwrap();
    assert!(verifies(&sig, msg, &q), "in-tree aggregated key-path sig verifies vs Q");
    assert!(key_path_signature_verifies(&agg_ctx, &msg, &sig));
    assert!(!key_path_signature_verifies(&agg_ctx, &[0x43; 32], &sig));
}

#[test]
fn order_flipping_splice_rotation_aggregate_verifies() {
    // Base (pre-splice) individual funding secret keys for lp and hop.
    let lp_base = SecretKey::from_bytes(&[0x11; 32]).unwrap();
    let hop_base = SecretKey::from_bytes(&[0x22; 32]).unwrap();
    let lp_base_pub = lp_base.public_key().serialize();
    let hop_base_pub = hop_base.public_key().serialize();
    // Original sort order: which of lp/hop is `lo`.
    let orig_lp_is_lo = lp_base_pub[..] < hop_base_pub[..];

    // Rotate by `SHA256(txid || sk)` exactly as `InMemorySigner::funding_key(Some(txid))`.
    let rotate = |base: &SecretKey, txid: &[u8; 32]| -> SecretKey {
        let tweak = compute_funding_key_tweak(base, txid);
        base.add_tweak(&tweak).expect("non-degenerate tweak")
    };

    // Search prev_funding_txid candidates until the ROTATED pair FLIPS the sort.
    let mut found: Option<([u8; 32], SecretKey, SecretKey, [u8; 33], [u8; 33])> = None;
    for n in 0u32..10_000 {
        let mut raw = [0u8; 32];
        raw[..4].copy_from_slice(&n.to_be_bytes());
        let txid = raw;
        let lp_rot = rotate(&lp_base, &txid);
        let hop_rot = rotate(&hop_base, &txid);
        let lp_rot_pub = lp_rot.public_key().serialize();
        let hop_rot_pub = hop_rot.public_key().serialize();
        let rot_lp_is_lo = lp_rot_pub[..] < hop_rot_pub[..];
        if rot_lp_is_lo != orig_lp_is_lo {
            found = Some((txid, lp_rot, hop_rot, lp_rot_pub, hop_rot_pub));
            break;
        }
    }
    let (_txid, lp_rot, hop_rot, lp_rot_pub, hop_rot_pub) =
        found.expect("must find a prev_funding_txid that flips the sort order");

    // Sanity: the rotated pair really does sort the OTHER way than the base pair.
    assert_ne!(
        lp_rot_pub[..] < hop_rot_pub[..],
        orig_lp_is_lo,
        "constructed case must flip the KeySort order across the splice"
    );

    // Post-splice roundtrip over Q': each party derives its index from the ROTATED keys.
    let lp_root = [0xA1; 32];
    let hop_root = [0xB2; 32];
    let height = 7u64;
    let msg = [0x5Cu8; 32];

    let (lp_ctx, lp_idx) = channel_key_agg_ctx(&lp_rot_pub, &hop_rot_pub, &lp_rot_pub).unwrap();
    let (hop_ctx, hop_idx) = channel_key_agg_ctx(&lp_rot_pub, &hop_rot_pub, &hop_rot_pub).unwrap();
    // The two parties land at distinct, complementary slots.
    assert_ne!(lp_idx, hop_idx);
    assert_eq!(lp_idx, 1 - hop_idx);
    let q = aggregated_xonly(&lp_ctx);

    let lp_pn = local_pubnonce(lp_ctx, lp_idx, &lp_root, height).unwrap();
    let hop_pn = local_pubnonce(hop_ctx, hop_idx, &hop_root, height).unwrap();

    let (lp_ctx2, _) = channel_key_agg_ctx(&lp_rot_pub, &hop_rot_pub, &lp_rot_pub).unwrap();
    let (hop_ctx2, _) = channel_key_agg_ctx(&lp_rot_pub, &hop_rot_pub, &hop_rot_pub).unwrap();
    let (lp_partial, lp_pn2) = our_key_path_partial(
        lp_ctx2, lp_idx, hop_idx, lp_rot, &lp_root, height, hop_pn.clone(), msg,
    )
    .unwrap();
    let (hop_partial, _) = our_key_path_partial(
        hop_ctx2, hop_idx, lp_idx, hop_rot, &hop_root, height, lp_pn.clone(), msg,
    )
    .unwrap();
    assert_eq!(lp_pn.serialize(), lp_pn2.serialize());

    let (agg_ctx, _) = channel_key_agg_ctx(&lp_rot_pub, &hop_rot_pub, &lp_rot_pub).unwrap();
    let sig = aggregate_key_path_partials(
        agg_ctx, msg, lp_idx, lp_pn, lp_partial, hop_idx, hop_pn, hop_partial,
    )
    .expect("post-flip splice partials aggregate");
    assert!(verifies(&sig, msg, &q), "post-flip-splice aggregated key-path sig verifies vs Q'");
}

#[test]
fn nonce_seed_is_deterministic_per_height() {
    let root = [0x07; 32];
    assert_eq!(derive_secnonce_seed(&root, 100), derive_secnonce_seed(&root, 100));
    assert_ne!(derive_secnonce_seed(&root, 100), derive_secnonce_seed(&root, 101));
}

#[test]
fn counterparty_nonce_domain_separated_from_holder_at_same_height() {
    let (_lp_sec, lp_pub) = keypair(0x11);
    let (_hop_sec, hop_pub) = keypair(0x22);
    let root = [0x5A; 32];
    let height = (1u64 << 48) - 1; // INITIAL_COMMITMENT_NUMBER (holder# == counterparty#)
    let tag = COUNTERPARTY_COMMITMENT_NONCE_TAG.as_bytes();

    assert_ne!(
        derive_secnonce_seed(&root, height),
        derive_secnonce_seed_domain(&root, height, tag),
        "counterparty-tagged seed must differ from the untagged holder seed at the same height",
    );

    let (ctx_h, idx) = channel_key_agg_ctx(&lp_pub, &hop_pub, &lp_pub).unwrap();
    let holder_pn = local_pubnonce(ctx_h, idx, &root, height).unwrap();
    let cp_seed = derive_secnonce_seed_domain(&root, height, tag);
    let (lo, hi) = if lp_pub < hop_pub { (lp_pub, hop_pub) } else { (hop_pub, lp_pub) };
    let ctx_c = musig2::KeyAggContext::new(
        [lo, hi].map(|k| musig2::secp256k1::PublicKey::from_slice(&k).unwrap()),
    )
    .unwrap()
    .with_unspendable_taproot_tweak()
    .unwrap();
    let cp_pn = FirstRound::new(ctx_c, cp_seed, idx, SecNonceSpices::new())
        .unwrap()
        .our_public_nonce();
    assert_ne!(
        holder_pn.serialize(),
        cp_pn.serialize(),
        "holder and counterparty commitment nonces MUST differ at the same height (funding-key-leak guard)",
    );
}

#[test]
fn counterparty_commitment_nonce_binds_to_peer_nonce_and_message() {
    let (lp_sec, lp_pub) = keypair(0x11);
    let (hop_sec, hop_pub) = keypair(0x22);
    let root = [0x5A; 32];
    let height = 1_000u64;
    let msg = [0x9Au8; 32];

    let (_c, lp_idx) = channel_key_agg_ctx(&lp_pub, &hop_pub, &lp_pub).unwrap();
    let (_c2, hop_idx) = channel_key_agg_ctx(&lp_pub, &hop_pub, &hop_pub).unwrap();

    let cp = |seed: [u8; 32]| -> PubNonce {
        let (ctx, _) = channel_key_agg_ctx(&lp_pub, &hop_pub, &hop_pub).unwrap();
        local_pubnonce(ctx, hop_idx, &seed, height).unwrap()
    };
    let sign_cp = |cpn: &PubNonce, m: [u8; 32]| {
        let (ctx, _) = channel_key_agg_ctx(&lp_pub, &hop_pub, &lp_pub).unwrap();
        our_key_path_partial_counterparty(
            ctx, lp_idx, hop_idx, lp_sec, &root, height, cpn.clone(), m,
        )
        .unwrap()
    };

    // SAME (root, height) - a ROTATED counterparty nonce yields a DIFFERENT secret nonce
    // (and so a different public nonce).
    let (cp1, cp2) = (cp([0xB1; 32]), cp([0xB2; 32]));
    let (_s1, pn1) = sign_cp(&cp1, msg);
    let (_s2, pn2) = sign_cp(&cp2, msg);
    assert_ne!(
        pn1.serialize(), pn2.serialize(),
        "rotated counterparty nonce MUST rotate our secret nonce (no reuse)"
    );
    // A different message at the same height also rotates the secret nonce.
    let (_s3, pn3) = sign_cp(&cp1, [0x77u8; 32]);
    assert_ne!(pn1.serialize(), pn3.serialize(), "different message MUST rotate our secret nonce");

    // Identical (root, height, cp_nonce, message) re-derives the identical nonce + partial.
    let (s1a, pn1a) = sign_cp(&cp1, msg);
    let (s1b, pn1b) = sign_cp(&cp1, msg);
    assert_eq!(pn1a.serialize(), pn1b.serialize(), "same inputs give the same nonce (crash-safe)");
    assert_eq!(s1a, s1b, "same inputs give the same partial (crash-safe)");

    // The partial still aggregates with the peer's to a BIP340 sig verifying vs Q, using the
    // pubnonce we send alongside the partial.
    let (agg_ctx, _) = channel_key_agg_ctx(&lp_pub, &hop_pub, &lp_pub).unwrap();
    let q = aggregated_xonly(&agg_ctx);
    let (our_partial, our_pn) = sign_cp(&cp1, msg);
    // The hop signs against our (bound) pubnonce, using the SAME seed that produced `cp1`
    // so its re-derived nonce equals the `cp1` we aggregate against.
    let (hop_ctx, _) = channel_key_agg_ctx(&lp_pub, &hop_pub, &hop_pub).unwrap();
    let (hop_partial, hop_pn) = our_key_path_partial(
        hop_ctx, hop_idx, lp_idx, hop_sec, &[0xB1; 32], height, our_pn.clone(), msg,
    )
    .unwrap();
    assert_eq!(hop_pn.serialize(), cp1.serialize(), "hop re-derives the cp1 nonce");
    let (agg_ctx2, _) = channel_key_agg_ctx(&lp_pub, &hop_pub, &lp_pub).unwrap();
    let sig = aggregate_key_path_partials(
        agg_ctx2, msg, lp_idx, our_pn, our_partial, hop_idx, cp1, hop_partial,
    )
    .unwrap();
    assert!(
        verifies(&sig, msg, &q),
        "bound-nonce counterparty partial still aggregates + verifies vs Q"
    );
}

#[test]
fn nonce_and_partial_reproduce_after_simulated_reload() {
    let (lp_sec, lp_pub) = keypair(0x33);
    let (_hop_sec, hop_pub) = keypair(0x44);
    let lp_root = [0xEF; 32]; // the shachain root re-derived on reboot
    let height = 123_456u64;
    let msg = [0x9Au8; 32];

    // Peer (hop) nonce - stable for this fixed height (the peer re-derives it too).
    let (hop_ctx, hop_idx) = channel_key_agg_ctx(&lp_pub, &hop_pub, &hop_pub).unwrap();
    let hop_pn = local_pubnonce(hop_ctx, hop_idx, &[0x55; 32], height).unwrap();

    // "Pre-reboot": our local pubnonce for (root, height).
    let (lp_ctx_a, lp_idx) = channel_key_agg_ctx(&lp_pub, &hop_pub, &lp_pub).unwrap();
    let pn_before = local_pubnonce(lp_ctx_a, lp_idx, &lp_root, height).unwrap();

    // "Post-reboot": rebuild EVERYTHING from only (root, height).
    let (lp_ctx_b, lp_idx_b) = channel_key_agg_ctx(&lp_pub, &hop_pub, &lp_pub).unwrap();
    let pn_after = local_pubnonce(lp_ctx_b, lp_idx_b, &lp_root, height).unwrap();
    assert_eq!(
        pn_before.serialize(),
        pn_after.serialize(),
        "re-derived MuSig2 nonce is identical after a reload (crash-safe, no nonce DB)"
    );

    // And the post-reboot partial still produces a valid aggregate sig.
    let (lp_ctx_c, _) = channel_key_agg_ctx(&lp_pub, &hop_pub, &lp_pub).unwrap();
    let (lp_partial, lp_pn) = our_key_path_partial(
        lp_ctx_c, lp_idx, hop_idx, lp_sec, &lp_root, height, hop_pn.clone(), msg,
    )
    .unwrap();
    assert_eq!(lp_pn.serialize(), pn_after.serialize(), "partial uses the same re-derived nonce");

    let (hop_sec, _) = keypair(0x44);
    let (hop_ctx2, _) = channel_key_agg_ctx(&lp_pub, &hop_pub, &hop_pub).unwrap();
    let (hop_partial, _) = our_key_path_partial(
        hop_ctx2, hop_idx, lp_idx, hop_sec, &[0x55; 32], height, pn_after.clone(), msg,
    )
    .unwrap();

    let (agg_ctx, _) = channel_key_agg_ctx(&lp_pub, &hop_pub, &lp_pub).unwrap();
    let q = aggregated_xonly(&agg_ctx);
    let (agg_ctx2, _) = channel_key_agg_ctx(&lp_pub, &hop_pub, &lp_pub).unwrap();
    let sig = aggregate_key_path_partials(
        agg_ctx2, msg, lp_idx, lp_pn, lp_partial, hop_idx, hop_pn, hop_partial,
    )
    .unwrap();
    assert!(verifies(&sig, msg, &q), "post-reload aggregated key-path sig verifies vs Q");
}

fn context(a: u8, b: u8, mine: u8) -> (KeyAggContext, usize) {
    channel_key_agg_ctx(&keypair(a).1, &keypair(b).1, &keypair(mine).1).unwrap()
}

#[test]
fn context_does_not_depend_on_argument_order() {
    let (one, i) = context(0x11, 0x22, 0x11);
    let (other, j) = context(0x22, 0x11, 0x11);
    assert_eq!(one, other);
    assert_eq!(i, j);
}

#[test]
fn aggregate_key_is_the_tweaked_one() {
    let (ctx, _) = context(0x11, 0x22, 0x11);
    let (a, b) = (keypair(0x11).1, keypair(0x22).1);
    let (lo, hi) = if a < b { (a, b) } else { (b, a) };
    let outside = musig2::KeyAggContext::new(
        [lo, hi].map(|k| musig2::secp256k1::PublicKey::from_slice(&k).unwrap()),
    )
    .unwrap()
    .with_unspendable_taproot_tweak()
    .unwrap();
    let q: musig2::secp256k1::PublicKey = outside.aggregated_pubkey();
    assert_eq!(aggregated_xonly(&ctx), q.x_only_public_key().0.serialize());
}

#[test]
fn key_aggregation_errors() {
    let (_, a) = keypair(0x11);
    let (sk, b) = keypair(0x22);
    let mut bad = a;
    bad[0] = 0x05;
    assert_eq!(channel_key_agg_ctx(&bad, &b, &b).unwrap_err(), KeyAggError::BadPubkey);
    assert_eq!(channel_key_agg_ctx(&b, &bad, &b).unwrap_err(), KeyAggError::BadPubkey);
    let (_, stranger) = keypair(0x33);
    assert_eq!(channel_key_agg_ctx(&a, &b, &stranger).unwrap_err(), KeyAggError::NotAParticipant);
    // A key and its negation differ in the parity byte; their coefficients differ too, so they
    // aggregate all the same.
    let mut negated = sk.public_key().serialize();
    negated[0] ^= 1;
    assert!(channel_key_agg_ctx(&b, &negated, &b).is_ok());
    // One key twice is at the first slot.
    assert_eq!(channel_key_agg_ctx(&a, &a, &a).unwrap().1, 0);
}

#[test]
fn signing_errors() {
    let (ctx, ours) = context(0x11, 0x22, 0x11);
    let theirs = 1 - ours;
    let (sk, _) = keypair(0x11);
    let (wrong, _) = keypair(0x22);
    let root = [1u8; 32];
    let msg = [2u8; 32];
    assert_eq!(local_pubnonce(ctx, 2, &root, 5).unwrap_err(), SignError::RoundSetup);
    let own = local_pubnonce(ctx, ours, &root, 5).unwrap();
    let peer = local_pubnonce(ctx, theirs, &[9u8; 32], 5).unwrap();
    let run = |i: usize, j: usize, key: SecretKey, nonce: PubNonce| {
        our_key_path_partial(ctx, i, j, key, &root, 5, nonce, msg)
    };
    assert_eq!(run(2, theirs, sk, peer).unwrap_err(), SignError::RoundSetup);
    assert_eq!(run(ours, 2, sk, peer).unwrap_err(), SignError::Nonce);
    // Another nonce at our own slot is refused; our own is accepted, but leaves the round incomplete.
    assert_eq!(run(ours, ours, sk, peer).unwrap_err(), SignError::Nonce);
    assert_eq!(run(ours, ours, sk, own).unwrap_err(), SignError::Finalize);
    assert_eq!(run(ours, theirs, wrong, peer).unwrap_err(), SignError::Finalize);
    assert!(run(ours, theirs, sk, peer).is_ok());
    // The counterparty variant reports the same errors.
    let bound = |i: usize, j: usize, key: SecretKey| {
        our_key_path_partial_counterparty(ctx, i, j, key, &root, 5, peer, msg)
    };
    assert_eq!(bound(3, theirs, sk).unwrap_err(), SignError::RoundSetup);
    assert_eq!(bound(ours, 7, sk).unwrap_err(), SignError::Nonce);
    assert_eq!(bound(ours, theirs, wrong).unwrap_err(), SignError::Finalize);
}

#[test]
fn aggregation_rejects_bad_and_misplaced_partials() {
    let (ctx, ours) = context(0x11, 0x22, 0x11);
    let theirs = 1 - ours;
    let msg = [2u8; 32];
    let our_pn = local_pubnonce(ctx, ours, &[1; 32], 5).unwrap();
    let their_pn = local_pubnonce(ctx, theirs, &[9; 32], 5).unwrap();
    let (our_sk, _) = keypair(0x11);
    let (their_sk, _) = keypair(0x22);
    let (p, _) =
        our_key_path_partial(ctx, ours, theirs, our_sk, &[1; 32], 5, their_pn, msg).unwrap();
    let (q, _) =
        our_key_path_partial(ctx, theirs, ours, their_sk, &[9; 32], 5, our_pn, msg).unwrap();
    let good = aggregate_key_path_partials(ctx, msg, ours, our_pn, p, theirs, their_pn, q).unwrap();
    assert!(key_path_signature_verifies(&ctx, &msg, &good));
    // The partials are summed, so two that are placed apart may be placed either way round.
    assert_eq!(
        aggregate_key_path_partials(ctx, msg, theirs, our_pn, p, ours, their_pn, q).unwrap(),
        good
    );
    // Placed at one slot, the second covers the first.
    let one = aggregate_key_path_partials(ctx, msg, ours, our_pn, p, ours, their_pn, q);
    assert_eq!(one.unwrap_err(), SignError::Aggregate);
    let twice = aggregate_key_path_partials(ctx, msg, ours, our_pn, p, theirs, their_pn, p);
    assert_eq!(twice.unwrap_err(), SignError::Aggregate);
    let other = aggregate_key_path_partials(ctx, [3; 32], ours, our_pn, p, theirs, their_pn, q);
    assert_eq!(other.unwrap_err(), SignError::Aggregate);
}

#[test]
fn nonces_and_partials_parse() {
    let (ctx, ours) = context(0x11, 0x22, 0x11);
    let nonce = local_pubnonce(ctx, ours, &[1; 32], 5).unwrap();
    assert_eq!(PubNonce::from_bytes(&nonce.serialize()).unwrap(), nonce);
    assert!(PubNonce::from_bytes(&[0xff; 66]).is_none());
    let zero = PartialSignature::from_bytes(&[0; 32]).unwrap();
    assert_eq!(zero.serialize(), [0; 32]);
    assert!(PartialSignature::from_bytes(&[0xff; 32]).is_none());
    assert!(PublicKey::from_bytes(&[0; 33]).is_none());
}

#[test]
fn signatures_carry_the_final_nonce() {
    let (ctx, ours) = context(0x11, 0x22, 0x11);
    let theirs = 1 - ours;
    let msg = [2u8; 32];
    let our_pn = local_pubnonce(ctx, ours, &[1; 32], 5).unwrap();
    let their_pn = local_pubnonce(ctx, theirs, &[9; 32], 5).unwrap();
    let (p, _) =
        our_key_path_partial(ctx, ours, theirs, keypair(0x11).0, &[1; 32], 5, their_pn, msg)
            .unwrap();
    let (q, _) =
        our_key_path_partial(ctx, theirs, ours, keypair(0x22).0, &[9; 32], 5, our_pn, msg)
            .unwrap();
    let sig = aggregate_key_path_partials(ctx, msg, ours, our_pn, p, theirs, their_pn, q).unwrap();
    let nonce = final_nonce(&ctx, &our_pn, &their_pn, &msg);
    assert_eq!(sig.bytes[..32], nonce[1..]);
    assert_ne!(nonce, GENERATOR);
    assert_eq!(final_nonce(&ctx, &their_pn, &our_pn, &msg), nonce);
    assert_ne!(final_nonce(&ctx, &our_pn, &their_pn, &[3; 32]), nonce);
}

#[test]
fn nonces_that_cancel_out_leave_no_signature() {
    let (ctx, ours) = context(0x11, 0x22, 0x11);
    let theirs = 1 - ours;
    let msg = [2u8; 32];
    let our_pn = local_pubnonce(ctx, ours, &[1; 32], 5).unwrap();
    // The negations of both points differ in the parity byte alone.
    let mut negated = our_pn.serialize();
    negated[0] ^= 1;
    negated[33] ^= 1;
    let negated = PubNonce::from_bytes(&negated).unwrap();
    assert_eq!(final_nonce(&ctx, &our_pn, &negated, &msg), GENERATOR);
    let (p, _) =
        our_key_path_partial(ctx, ours, theirs, keypair(0x11).0, &[1; 32], 5, negated, msg)
            .unwrap();
    assert_eq!(
        aggregate_key_path_partials(ctx, msg, ours, our_pn, p, theirs, negated, p).unwrap_err(),
        SignError::Aggregate
    );
}

#[test]
fn both_parties_aggregate_to_one_signature() {
    let (ctx, ours) = context(0x11, 0x22, 0x11);
    let theirs = 1 - ours;
    let msg = [2u8; 32];
    let our_pn = local_pubnonce(ctx, ours, &[1; 32], 5).unwrap();
    let their_pn = local_pubnonce(ctx, theirs, &[9; 32], 5).unwrap();
    let (p, _) =
        our_key_path_partial(ctx, ours, theirs, keypair(0x11).0, &[1; 32], 5, their_pn, msg)
            .unwrap();
    let (q, _) =
        our_key_path_partial(ctx, theirs, ours, keypair(0x22).0, &[9; 32], 5, our_pn, msg)
            .unwrap();
    let run = |q: PartialSignature| {
        (
            aggregate_key_path_partials(ctx, msg, ours, our_pn, p, theirs, their_pn, q),
            aggregate_key_path_partials(ctx, msg, theirs, their_pn, q, ours, our_pn, p),
        )
    };
    let (a, b) = run(q);
    assert!(a.is_ok());
    assert_eq!(a, b);
    // Beside our honest partial, theirs is the only one that aggregates.
    let mut bytes = q.serialize();
    for other in [1u8, 2, 0x80] {
        bytes[31] ^= other;
        let (a, b) = run(PartialSignature::from_bytes(&bytes).unwrap());
        assert_eq!(a.unwrap_err(), SignError::Aggregate);
        assert_eq!(b.unwrap_err(), SignError::Aggregate);
        bytes[31] ^= other;
    }
}
