use bitcoin::bip32::{ChildNumber, Xpriv as Outside};
use bitcoin::hashes::{sha256, Hash as _, HashEngine, Hmac, HmacEngine};
use bitcoin::secp256k1;
use lightning_sign::bip32::Xpriv;
use lightning_sign::channel::{
    add_public_key_tweak, derive_add_tweak, derive_private_key, derive_private_revocation_key,
    derive_public_key, derive_revocation_key,
};
use lightning_sign::curve::{PublicKey, Scalar, SecretKey, Signature};
use lightning_sign::entropy::{get_single_block, EntropySource, RandomBytes};
use lightning_sign::hashes::hkdf_extract_expand_twice;
use lightning_sign::signer::{
    build_commitment_secret, compute_funding_key_tweak, try_compute_funding_key_tweak,
    MaybeTweakedSecretKey,
};

fn hex(s: &str) -> Vec<u8> {
    (0..s.len() / 2).map(|i| u8::from_str_radix(&s[2 * i..2 * i + 2], 16).unwrap()).collect()
}

fn hex32(s: &str) -> [u8; 32] {
    hex(s).try_into().unwrap()
}

fn secret(s: &str) -> SecretKey {
    SecretKey::from_bytes(&hex32(s)).unwrap()
}

const ORDER: &str = "fffffffffffffffffffffffffffffffebaaedce6af48a03bbfd25e8cd0364141";
const ORDER_LESS_ONE: &str = "fffffffffffffffffffffffffffffffebaaedce6af48a03bbfd25e8cd0364140";

#[test]
fn secret_keys_are_numbers_between_zero_and_the_order() {
    assert!(SecretKey::from_bytes(&[0; 32]).is_none());
    assert!(SecretKey::from_bytes(&hex32(ORDER)).is_none());
    assert!(SecretKey::from_bytes(&hex32(ORDER_LESS_ONE)).is_some());
    assert!(Scalar::from_be_bytes(&[0; 32]).is_some());
    assert!(Scalar::from_be_bytes(&hex32(ORDER)).is_none());
    assert_eq!(Scalar::from_be_bytes(&[7; 32]).unwrap().to_be_bytes(), [7; 32]);
    assert_eq!(secret(ORDER_LESS_ONE).as_scalar().to_be_bytes(), hex32(ORDER_LESS_ONE));
}

#[test]
fn tweaks_are_modular() {
    let one = SecretKey::from_bytes(&hex32(&format!("{:064x}", 1))).unwrap();
    let last = secret(ORDER_LESS_ONE);
    assert!(last.add_tweak(&one.as_scalar()).is_none());
    let two = Scalar::from_be_bytes(&hex32(&format!("{:064x}", 2))).unwrap();
    assert_eq!(last.add_tweak(&two).unwrap(), one);
    // (order - 1) * 2 = order - 2
    let mut expected = hex32(ORDER_LESS_ONE);
    expected[31] -= 1;
    assert_eq!(last.mul_tweak(&two).unwrap().secret_bytes(), expected);
    assert!(last.mul_tweak(&Scalar::from_be_bytes(&[0; 32]).unwrap()).is_none());
}

#[test]
fn points_add_and_multiply_as_their_secrets_do() {
    let a = SecretKey::from_bytes(&[3; 32]).unwrap();
    let b = SecretKey::from_bytes(&[5; 32]).unwrap();
    let sum = a.add_tweak(&b.as_scalar()).unwrap();
    assert_eq!(a.public_key().combine(&b.public_key()).unwrap(), sum.public_key());
    let product = a.mul_tweak(&b.as_scalar()).unwrap();
    assert_eq!(a.public_key().mul_tweak(&b.as_scalar()).unwrap(), product.public_key());
    let mut negated = a.public_key().serialize();
    negated[0] ^= 1;
    let negated = PublicKey::from_bytes(&negated).unwrap();
    assert!(a.public_key().combine(&negated).is_none());
    assert!(a.public_key().mul_tweak(&Scalar::from_be_bytes(&[0; 32]).unwrap()).is_none());
    let outside = secp256k1::SecretKey::from_slice(&[3; 32]).unwrap();
    let outside = outside.public_key(&secp256k1::Secp256k1::new());
    assert_eq!(a.public_key().serialize(), outside.serialize());
    assert_eq!(a.public_key().x_only(), outside.x_only_public_key().0.serialize());
}

#[test]
fn signatures_are_two_scalars() {
    assert!(Signature::from_compact(&[0; 64]).is_some());
    assert!(Signature::from_compact(&[0xff; 64]).is_none());
    let mut high = [0u8; 64];
    high[32..].copy_from_slice(&hex32(ORDER));
    assert!(Signature::from_compact(&high).is_none());
    let bytes = [0x11; 64];
    let sig = Signature::from_compact(&bytes).unwrap();
    assert_eq!(sig.serialize_compact(), bytes);
    let outside = secp256k1::ecdsa::Signature::from_compact(&bytes).unwrap();
    assert_eq!(sig.serialize_der(), outside.serialize_der().to_vec());
    assert_eq!(Signature::from_compact(&[0x80; 64]).unwrap().serialize_der().len(), 72);
}

#[test]
fn commitment_keys_follow_the_basepoints() {
    let base = secret("000102030405060708090a0b0c0d0e0f101112131415161718191a1b1c1d1e1f");
    let commitment = secret("1f1e1d1c1b1a191817161514131211100f0e0d0c0b0a09080706050403020100");
    let base_point = base.public_key();
    let point = commitment.public_key();
    assert_eq!(
        base_point.serialize().to_vec(),
        hex("036d6caac248af96f6afa7f904f550253a0f3ef3f5aa2fe6838a95b216691468e2")
    );
    assert_eq!(
        point.serialize().to_vec(),
        hex("025f7117a78150fe2ef97db7cfc83bd57b2e2c0d0dd25eaf467a4a1c2a45ce1486")
    );
    assert_eq!(
        derive_public_key(&base_point, &point).unwrap().serialize().to_vec(),
        hex("0235f2dbfaa89b57ec7b055afe29849ef7ddfeb1cefdb9ebdc43f5494984db29e5")
    );
    let derived = derive_private_key(&point, &base).unwrap();
    assert_eq!(
        derived.secret_bytes(),
        hex32("cbced912d3b21bf196a766651e436aff192362621ce317704ea2f75d87e7be0f")
    );
    assert_eq!(derived.public_key(), derive_public_key(&base_point, &point).unwrap());
    assert_eq!(
        derive_revocation_key(&base_point, &point).unwrap().serialize().to_vec(),
        hex("02916e326636d19c33f13e8c0c3a03dd157f332f3e99c317c141dd865eb01f8ff0")
    );
    let revocation = derive_private_revocation_key(&commitment, &base).unwrap();
    assert_eq!(
        revocation.secret_bytes(),
        hex32("d09ffff62ddb2297ab000cc85bcb4283fdeb6aa052affbc9dddcf33b61078110")
    );
    assert_eq!(revocation.public_key(), derive_revocation_key(&base_point, &point).unwrap());
    let tweak = derive_add_tweak(&base_point, &point);
    assert_eq!(
        add_public_key_tweak(&base_point, &tweak).unwrap(),
        derive_public_key(&base_point, &point).unwrap()
    );
    assert!(add_public_key_tweak(&base_point, &[0; 32]).is_none());
}

#[test]
fn commitment_secrets_follow_the_seed() {
    let cases: [([u8; 32], u64, &str); 5] = [
        (
            [0; 32],
            281474976710655,
            "02a40c85b6f28da08dfdbe0926c53fab2de6d28c10301f8f7c4073d5e42e3148",
        ),
        (
            [0xff; 32],
            281474976710655,
            "7cc854b54e3e0dcdb010d7a3fee464a9687be6e8db3be6854c475621e007a5dc",
        ),
        (
            [0xff; 32],
            0xaaaaaaaaaaa,
            "56f4008fb007ca9acf0e15b054d5c9fd12ee06cea347914ddbaed70d1c13a528",
        ),
        (
            [0xff; 32],
            0x555555555555,
            "9015daaeb06dba4ccc05b91b2f73bd54405f2be9f217fbacd3c5ac2e62327d31",
        ),
        ([1; 32], 1, "915c75942a26bb3a433a8ce2cb0427c29ec6c1775cfc78328b57f6ba7bfeaa9c"),
    ];
    for (seed, idx, expected) in cases {
        assert_eq!(build_commitment_secret(&seed, idx), hex32(expected));
    }
    // Bits above the 48 of a commitment number do not count.
    assert_eq!(build_commitment_secret(&[1; 32], 1 << 48), [1; 32]);
}

#[test]
fn block_of_a_known_key() {
    // The example block of RFC 8439, 2.3.2, whose counter is 1.
    let mut key = [0u8; 32];
    for (i, k) in key.iter_mut().enumerate() {
        *k = i as u8;
    }
    let nonce: [u8; 16] = hex("01000000000000090000004a00000000").try_into().unwrap();
    assert_eq!(
        get_single_block(&key, &nonce).to_vec(),
        hex("10f1e7e4d13b5915500fdd1fa32071c4c7d1f4c733c068030422aa9ac3d46c4e")
    );
}

#[test]
fn random_bytes_count_their_draws() {
    let seed = [0x42; 32];
    let mut source = RandomBytes::new(seed);
    let first = source.get_secure_random_bytes();
    let second = source.get_secure_random_bytes();
    assert_ne!(first, second);
    assert_eq!(first, get_single_block(&seed, &[0; 16]));
    let mut nonce = [0u8; 16];
    nonce[7] = 1;
    assert_eq!(second, get_single_block(&seed, &nonce));
    let mut again = RandomBytes::new(seed);
    assert_eq!(again.get_secure_random_bytes(), first);
}

#[test]
fn hkdf_matches_the_known_expansion() {
    let mac = |key: &[u8], msg: &[u8]| {
        let mut e = HmacEngine::<sha256::Hash>::new(key);
        e.input(msg);
        Hmac::<sha256::Hash>::from_engine(e).to_byte_array()
    };
    let prk = mac(b"salt", b"key material");
    let t1 = mac(&prk, &[1]);
    let mut msg = t1.to_vec();
    msg.push(2);
    assert_eq!(hkdf_extract_expand_twice(b"salt", b"key material"), (t1, mac(&prk, &msg)));
}

#[test]
fn extended_keys_match_the_bitcoin_crate() {
    let seed = [0x5a; 32];
    let secp = secp256k1::Secp256k1::new();
    let outside = Outside::new_master(bitcoin::Network::Testnet, &seed).unwrap();
    let ours = Xpriv::new_master(&seed).unwrap();
    assert_eq!(ours.private_key.secret_bytes(), outside.private_key.secret_bytes());
    assert_eq!(ours.chain_code, outside.chain_code.to_bytes());
    for index in [0u32, 1, 999, 0x7fff_ffff] {
        let child = ours.try_derive_hardened(index).unwrap();
        let path = [ChildNumber::from_hardened_idx(index).unwrap()];
        let expected = outside.derive_priv(&secp, &path).unwrap();
        assert_eq!(child.private_key.secret_bytes(), expected.private_key.secret_bytes());
        assert_eq!(child.chain_code, expected.chain_code.to_bytes());
        let grandchild = child.derive_hardened(5);
        let path = [ChildNumber::from_hardened_idx(5).unwrap()];
        let expected = expected.derive_priv(&secp, &path).unwrap();
        assert_eq!(grandchild.private_key.secret_bytes(), expected.private_key.secret_bytes());
    }
}

#[test]
fn funding_keys_rotate_by_a_hash_of_transaction_and_secret() {
    let base = SecretKey::from_bytes(&[0x11; 32]).unwrap();
    let txid = [0x77; 32];
    let mut preimage = txid.to_vec();
    preimage.extend_from_slice(&[0x11; 32]);
    let expected = sha256::Hash::hash(&preimage).to_byte_array();
    let tweak = compute_funding_key_tweak(&base, &txid);
    assert_eq!(tweak.to_be_bytes(), expected);
    assert_eq!(try_compute_funding_key_tweak(&base, &txid).unwrap(), tweak);
    let key = MaybeTweakedSecretKey(base);
    assert_eq!(key.with_tweak(None), base);
    assert_eq!(key.with_tweak(Some(tweak)), base.add_tweak(&tweak).unwrap());
    assert_eq!(key.try_with_tweak(Some(tweak)), base.add_tweak(&tweak));
    let mut negated = hex32(ORDER);
    // order - base, byte by byte
    let mut borrow = 0i32;
    for i in (0..32).rev() {
        let mut d = negated[i] as i32 - 0x11 - borrow;
        borrow = 0;
        if d < 0 {
            d += 256;
            borrow = 1;
        }
        negated[i] = d as u8;
    }
    let inverse = Scalar::from_be_bytes(&negated).unwrap();
    assert!(key.try_with_tweak(Some(inverse)).is_none());
}
