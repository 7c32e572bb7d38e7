//! Hardened key derivation (BIP 32), as the `bitcoin` crate does it.
use bitcoin::bip32::{ChainCode, ChildNumber};
use bitcoin::secp256k1;
use vstd::prelude::*;

use crate::bytes::{append, be_bytes, byte_range, lemma_be_bytes_len, lemma_be_round_trip, text, to_be};
use crate::curve::{curve_order, tweak_add, valid_secret, SecretKey};
use crate::hashes::{halves, hmac_sha512, hmac_sha512_of};

verus! {

/// One above the highest index of a hardened child.
pub const HARDENED_INDEX_TOP: u32 = 0x8000_0000;

/// What an [`Xpriv`] holds.
#[verifier::ext_equal]
pub struct XprivView {
    pub key: Seq<u8>,
    pub chain_code: Seq<u8>,
}

/// The key and the chain code that a digest splits into.
pub open spec fn master_key(seed: Seq<u8>) -> Option<XprivView> {
    let digest = hmac_sha512(text("Bitcoin seed"), seed);
    if valid_secret(digest.take(32)) {
        Some(XprivView { key: digest.take(32), chain_code: digest.skip(32) })
    } else {
        None
    }
}

/// What is hashed to derive a hardened child.
pub open spec fn child_message(parent: XprivView, index: u32) -> Seq<u8> {
    seq![0u8] + parent.key + be_bytes(index as nat + HARDENED_INDEX_TOP as nat, 4)
}

/// The hardened child at an index; none where the digest is no key, or its sum with the parent's is
/// none.
pub open spec fn hardened_child(parent: XprivView, index: u32) -> Option<XprivView> {
    let digest = hmac_sha512(parent.chain_code, child_message(parent, index));
    if valid_secret(digest.take(32)) {
        match tweak_add(digest.take(32), parent.key) {
            Some(key) => Some(XprivView { key, chain_code: digest.skip(32) }),
            None => None,
        }
    } else {
        None
    }
}

/// An extended private key: a key and a chain code.
#[derive(Clone, Copy)]
pub struct Xpriv {
    pub private_key: SecretKey,
    pub chain_code: [u8; 32],
}

impl View for Xpriv {
    type V = XprivView;

    open spec fn view(&self) -> XprivView {
        XprivView { key: self.private_key@, chain_code: self.chain_code@ }
    }
}

/// What an extended key that may be missing holds.
pub open spec fn xpriv_view(x: Option<Xpriv>) -> Option<XprivView> {
    match x {
        Some(x) => Some(x@),
        None => None,
    }
}

/// `bitcoin::bip32::Xpriv::new_master`: the two halves of the seed's HMAC, an error where the first is no
/// key. The network does not enter the key.
#[verifier::external_body]
fn outside_master(seed: &[u8; 32]) -> (r: Option<([u8; 32], [u8; 32])>)
    ensures
        r is Some <==> master_key(seed@) is Some,
        r matches Some(x) ==> master_key(seed@) == Some(
            (XprivView { key: x.0@, chain_code: x.1@ }),
        ),
{
    let x = bitcoin::bip32::Xpriv::new_master(bitcoin::Network::Testnet, seed).ok()?;
    Some((x.private_key.secret_bytes(), x.chain_code.to_bytes()))
}

/// `bitcoin::bip32::Xpriv::derive_priv` by one hardened step: the child's key and chain code. It panics
/// where there is no child.
#[verifier::external_body]
fn outside_child(key: &[u8; 32], chain_code: &[u8; 32], index: u32) -> (r: ([u8; 32], [u8; 32]))
    requires
        valid_secret(key@),
        index < HARDENED_INDEX_TOP,
        hardened_child((XprivView { key: key@, chain_code: chain_code@ }), index) is Some,
    ensures
        hardened_child((XprivView { key: key@, chain_code: chain_code@ }), index) == Some(
            (XprivView { key: r.0@, chain_code: r.1@ }),
        ),
{
    let parent = bitcoin::bip32::Xpriv {
        network: bitcoin::NetworkKind::Test,
        depth: 0,
        parent_fingerprint: Default::default(),
        child_number: ChildNumber::Hardened { index },
        private_key: secp256k1::SecretKey::from_slice(key).unwrap(),
        chain_code: ChainCode::from(*chain_code),
    };
    let path = [ChildNumber::from_hardened_idx(index).unwrap()];
    let child = parent.derive_priv(&secp256k1::Secp256k1::signing_only(), &path).unwrap();
    (child.private_key.secret_bytes(), child.chain_code.to_bytes())
}

/// A tweaked key is a key.
pub proof fn lemma_tweak_add_valid(key: Seq<u8>, tweak: Seq<u8>)
    ensures
        tweak_add(key, tweak) matches Some(k) ==> valid_secret(k),
{
    if let Some(k) = tweak_add(key, tweak) {
        let sum = (crate::bytes::be_nat(key) + crate::bytes::be_nat(tweak)) % curve_order();
        assert(curve_order() < byte_range(32)) by {
            reveal_with_fuel(byte_range, 33);
        }
        lemma_be_bytes_len(sum, 32);
        lemma_be_round_trip(sum, 32);
    }
}

impl Xpriv {
    /// The master key of a seed, where there is one.
    pub fn new_master(seed: &[u8; 32]) -> (r: Option<Xpriv>)
        ensures
            xpriv_view(r) == master_key(seed@),
    {
        match outside_master(seed) {
            Some((key, chain_code)) => Some(
                Xpriv { private_key: SecretKey::from_bytes(&key).unwrap(), chain_code },
            ),
            None => None,
        }
    }

    /// The hardened child at an index.
    ///
    /// See [`Self::try_derive_hardened`] for an index of which it is not known that the child exists.
    pub fn derive_hardened(&self, index: u32) -> (r: Xpriv)
        requires
            index < HARDENED_INDEX_TOP,
            hardened_child(self@, index) is Some,
        ensures
            Some(r@) == hardened_child(self@, index),
    {
        let (key, chain_code): ([u8; 32], [u8; 32]) = outside_child(
            &self.private_key.secret_bytes(),
            &self.chain_code,
            index,
        );
        proof {
            lemma_tweak_add_valid(
                hmac_sha512(self@.chain_code, child_message(self@, index)).take(32),
                self@.key,
            );
        }
        Xpriv { private_key: SecretKey::from_bytes(&key).unwrap(), chain_code }
    }

    /// [`Self::derive_hardened`] where the child exists.
    pub fn try_derive_hardened(&self, index: u32) -> (r: Option<Xpriv>)
        requires
            index < HARDENED_INDEX_TOP,
        ensures
            xpriv_view(r) == hardened_child(self@, index),
    {
        let mut message: Vec<u8> = vec![0u8];
        append(&mut message, &self.private_key.secret_bytes());
        append(&mut message, to_be(index as u128 + HARDENED_INDEX_TOP as u128, 4).as_slice());
        assert(message@ =~= child_message(self@, index));
        let digest: [u8; 64] = hmac_sha512_of(&self.chain_code, message.as_slice());
        let (left, _): ([u8; 32], [u8; 32]) = halves(&digest);
        match SecretKey::from_bytes(&left) {
            Some(sk) => if sk.add_tweak(&self.private_key.as_scalar()).is_some() {
                Some(self.derive_hardened(index))
            } else {
                None
            },
            None => None,
        }
    }
}

} // verus!
