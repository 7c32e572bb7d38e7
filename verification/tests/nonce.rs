use bitcoin::hashes::{sha256, Hash as _, HashEngine, Hmac, HmacEngine};
use lightning_sign::nonce::{
    closing_nonce_height, derive_secnonce_seed, derive_secnonce_seed_domain, splice_nonce_height,
    CLOSING_NONCE_BASE, COMMITMENT_TOP as LIBRARY_COMMITMENT_TOP, COUNTERPARTY_COMMITMENT_NONCE_TAG,
    SPLICE_TOP as LIBRARY_SPLICE_TOP,
};

#[test]
fn taproot_closing_and_splice_nonce_heights_disjoint_and_distinct() {
    // Per-round closing heights are strictly decreasing from the sentinel and unique.
    let h0 = closing_nonce_height(0);
    let h1 = closing_nonce_height(1);
    let h2 = closing_nonce_height(2);
    assert_eq!(h0, CLOSING_NONCE_BASE);
    assert!(h0 > h1 && h1 > h2, "each closing round gets a strictly distinct height");

    // Closing heights live at the very top (near u64::MAX), strictly ABOVE the
    // commitment range [0, 2^48) and the splice window [2^48, 2^56 + 2^48).
    const COMMITMENT_TOP: u64 = 1u64 << 48;
    const SPLICE_TOP: u64 = (1u64 << 56) + (1u64 << 48);
    for r in 0..1000u64 {
        let h = closing_nonce_height(r);
        assert!(h >= SPLICE_TOP, "closing nonce height must be above the splice window");
    }

    // Distinct splice txids give distinct splice nonce heights, all inside the disjoint
    // [2^48, 2^56 + 2^48) window (above commitments, below the closing range).
    let txid_a = [0x11; 32];
    let txid_b = [0x22; 32];
    let sa = splice_nonce_height(&txid_a);
    let sb = splice_nonce_height(&txid_b);
    assert_ne!(sa, sb, "distinct splices get distinct nonce heights (reuse guard)");
    for s in [sa, sb] {
        assert!(s >= COMMITMENT_TOP, "splice nonce height is above the commitment range");
        assert!(s < SPLICE_TOP, "splice nonce height is below the closing range");
    }
    assert_eq!(COMMITMENT_TOP, LIBRARY_COMMITMENT_TOP);
    assert_eq!(SPLICE_TOP, LIBRARY_SPLICE_TOP);
}

#[test]
fn closing_heights_at_the_ends() {
    assert_eq!(closing_nonce_height(0), u64::MAX);
    assert_eq!(closing_nonce_height(5), u64::MAX - 5);
    // The heights go down to the top of the splice window and stay there, however many rounds follow.
    let last = u64::MAX - LIBRARY_SPLICE_TOP;
    assert_eq!(closing_nonce_height(last - 1), LIBRARY_SPLICE_TOP + 1);
    assert_eq!(closing_nonce_height(last), LIBRARY_SPLICE_TOP);
    for round in [last + 1, u64::MAX - (1u64 << 48), u64::MAX - 5, u64::MAX] {
        assert_eq!(closing_nonce_height(round), LIBRARY_SPLICE_TOP);
    }
}

#[test]
fn splice_height_is_56_bits_of_a_hash() {
    let txid = [0x11u8; 32];
    let mut eng = sha256::Hash::engine();
    eng.input(b"quid-taproot-splice-nonce");
    eng.input(&txid);
    let h = sha256::Hash::from_engine(eng).to_byte_array();
    let raw = u64::from_be_bytes([h[0], h[1], h[2], h[3], h[4], h[5], h[6], h[7]]);
    assert_eq!(splice_nonce_height(&txid), (1u64 << 48) + (raw & ((1u64 << 56) - 1)));
}

#[test]
fn seeds_are_hmacs_under_the_hashed_root() {
    let root = [0x07u8; 32];
    let key = sha256::Hash::hash(&root).to_byte_array();
    let mac = |parts: &[&[u8]]| {
        let mut engine = HmacEngine::<sha256::Hash>::new(&key);
        for p in parts {
            engine.input(p);
        }
        Hmac::<sha256::Hash>::from_engine(engine).to_byte_array()
    };
    let height = 0x0102_0304_0506_0708u64;
    assert_eq!(derive_secnonce_seed(&root, height), mac(&[&[1, 2, 3, 4, 5, 6, 7, 8]]));
    let tag = COUNTERPARTY_COMMITMENT_NONCE_TAG.as_bytes();
    assert_eq!(tag, b"quid/musig2/counterparty-commitment");
    assert_eq!(
        derive_secnonce_seed_domain(&root, height, tag),
        mac(&[tag, &[1, 2, 3, 4, 5, 6, 7, 8]])
    );
}
