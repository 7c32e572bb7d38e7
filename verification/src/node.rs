//! What a node's own keys are used for, beside its channels: the traits, and the signing of messages.
use vstd::prelude::*;

use crate::bytes::{be_nat, concat, from_be, text};
use crate::curve::{
    ecdsa_recoverable, sign_ecdsa_recoverable, PublicKey, RecoverableSignature, Scalar,
    SchnorrSignature, SecretKey, Signature,
};
use crate::channel::SignerError;
use crate::ecdsa::EcdsaChannelSigner;
use crate::hashes::{sha256d, sha256d_of};
use crate::spend::{spend_fits, SpendableOutputDescriptor};
use crate::taproot_channel::TaprootChannelSigner;
use crate::tx::{outputs_view, Transaction, TxOut};

verus! {

/// Represents the secret key material used for encrypting Peer Storage.
#[derive(Clone, Copy, PartialEq, Eq, Debug)]
pub struct PeerStorageKey {
    /// Represents the key used to encrypt and decrypt Peer Storage.
    pub inner: [u8; 32],
}

/// A secret key used to authenticate message contexts in received blinded message paths.
///
/// This key ensures that a node only accepts incoming messages delivered through
/// blinded paths that it constructed itself.
#[derive(Clone, Copy, PartialEq, Eq, Debug)]
pub struct ReceiveAuthKey(pub [u8; 32]);

/// The key from which the keys for inbound payments are expanded.
#[derive(Clone, Copy, PartialEq, Eq, Debug)]
pub struct ExpandedKey {
    pub key_material: [u8; 32],
}

/// The script that a channel's cooperative close pays us to.
#[derive(Clone, PartialEq, Eq, Debug)]
pub struct ShutdownScript {
    pub script: Vec<u8>,
}

/// Specifies the recipient of an invoice.
///
/// This indicates to [`NodeSigner::sign_invoice`] what node secret key should be used to sign
/// the invoice.
#[derive(Clone, Copy, PartialEq, Eq, Structural, Debug)]
pub enum Recipient {
    /// The invoice should be signed with the local node secret key.
    Node,
    /// The invoice should be signed with the phantom node secret key. This secret key must be the
    /// same for all nodes participating in the phantom node payment.
    PhantomNode,
}

/// A trait that can handle cryptographic operations at the scope level of a node.
pub trait NodeSigner {
    /// Get the [`ExpandedKey`] which provides cryptographic material for various Lightning Network
    /// operations.
    ///
    /// This method must return the same value each time it is called.
    fn get_expanded_key(&self) -> ExpandedKey;

    /// Defines a method to derive a 32-byte encryption key for peer storage.
    fn get_peer_storage_key(&self) -> PeerStorageKey;

    /// Returns the [`ReceiveAuthKey`] used to authenticate incoming blinded message path contexts.
    fn get_receive_auth_key(&self) -> ReceiveAuthKey;

    /// Get node id based on the provided [`Recipient`].
    ///
    /// Errors if the [`Recipient`] variant is not supported by the implementation.
    fn get_node_id(&self, recipient: Recipient) -> Result<PublicKey, ()>;

    /// Gets the ECDH shared secret of our node secret and `other_key`, multiplying by `tweak` if
    /// one is provided.
    ///
    /// Errors if the [`Recipient`] variant is not supported by the implementation.
    fn ecdh(&self, recipient: Recipient, other_key: &PublicKey, tweak: Option<&Scalar>) -> Result<
        [u8; 32],
        (),
    >;

    /// Sign an invoice, by the hash that stands for it.
    ///
    /// The secret key used to sign the invoice is dependent on the [`Recipient`].
    ///
    /// Errors if the [`Recipient`] variant is not supported by the implementation.
    fn sign_invoice(&self, signable_hash: &[u8; 32], recipient: Recipient) -> Result<
        RecoverableSignature,
        (),
    >;

    /// Signs the tagged hash of a BOLT 12 invoice.
    fn sign_bolt12_invoice(&mut self, tagged_hash: &[u8; 32]) -> Result<SchnorrSignature, ()>;

    /// Sign the serialization of a gossip message.
    fn sign_gossip_message(&self, msg: &[u8]) -> Result<Signature, ()>;

    /// Sign an arbitrary message with the node's secret key.
    ///
    /// Creates a digital signature of a message given the node's secret. The message is prefixed
    /// with "Lightning Signed Message:" before signing.
    ///
    /// A receiver knowing the node's id and the message can be sure that the signature was generated by
    /// the caller.
    fn sign_message(&self, msg: &[u8]) -> Result<String, ()>;
}

/// A trait that describes a wallet capable of creating a spending [`Transaction`] from a set of
/// [`SpendableOutputDescriptor`]s.
pub trait OutputSpender {
    /// Creates a [`Transaction`] which spends the given descriptors to the given outputs, plus an
    /// output to the given change destination (if sufficient change value remains). The
    /// transaction will have a feerate, at least, of the given value.
    ///
    /// The `locktime` argument is used to set the transaction's locktime. If `None`, the
    /// transaction will have a locktime of 0.
    ///
    /// Returns an error if the output value is greater than the input value minus required fee,
    /// if a descriptor was duplicated, or if an output descriptor `script_pubkey`
    /// does not match the one we can spend.
    fn spend_spendable_outputs(
        &mut self,
        descriptors: &[&SpendableOutputDescriptor],
        outputs: Vec<TxOut>,
        change_destination_script: Vec<u8>,
        feerate_sat_per_1000_weight: u32,
        locktime: Option<u32>,
    ) -> Result<Transaction, SignerError>
        requires
            spend_fits(descriptors@.len(), outputs_view(outputs@), change_destination_script@),
    ;
}

/// A trait that can return signer instances for individual channels.
pub trait SignerProvider {
    /// A type which implements [`EcdsaChannelSigner`] which will be returned by
    /// [`Self::derive_channel_signer`].
    type EcdsaSigner: EcdsaChannelSigner;

    /// A type which implements [`TaprootChannelSigner`]
    type TaprootSigner: TaprootChannelSigner;

    /// Whether another channel identifier can be generated.
    spec fn has_channel_keys_id(&self) -> bool;

    /// Generates a unique `channel_keys_id` that can be used to obtain a [`Self::EcdsaSigner`] through
    /// [`SignerProvider::derive_channel_signer`]. The `user_channel_id` is provided to allow
    /// implementations of [`SignerProvider`] to maintain a mapping between itself and the generated
    /// `channel_keys_id`.
    ///
    /// This method must return a different value each time it is called.
    fn generate_channel_keys_id(&mut self, inbound: bool, user_channel_id: u128) -> [u8; 32]
        requires
            old(self).has_channel_keys_id(),
    ;

    /// Derives the private key material backing a `Signer`, where it exists.
    ///
    /// To derive a new `Signer`, a fresh `channel_keys_id` should be obtained through
    /// [`SignerProvider::generate_channel_keys_id`]. Otherwise, an existing `Signer` can be
    /// re-derived from its `channel_keys_id`.
    fn derive_channel_signer(&mut self, channel_keys_id: [u8; 32]) -> Option<Self::EcdsaSigner>;

    /// Derives the [`Self::TaprootSigner`] for a simple taproot channel, from the same key material.
    fn derive_taproot_channel_signer(&mut self, channel_keys_id: [u8; 32]) -> Option<
        Self::TaprootSigner,
    >;

    /// Get a script pubkey which we send funds to when claiming on-chain contestable outputs.
    ///
    /// If this function returns an error, this will result in a channel failing to open.
    fn get_destination_script(&self, channel_keys_id: [u8; 32]) -> Result<Vec<u8>, ()>;

    /// Get a script pubkey which we will send funds to when closing a channel.
    fn get_shutdown_scriptpubkey(&self) -> Result<ShutdownScript, ()>;
}

/// A synchronous helper trait that describes an on-chain wallet capable of returning a (change)
/// destination script.
pub trait ChangeDestinationSourceSync {
    /// Returns a script pubkey which can be used as a change destination for
    /// [`OutputSpender::spend_spendable_outputs`].
    ///
    /// This method should return a different value each time it is called, to avoid linking
    /// on-chain funds controlled to the same user.
    fn get_change_destination_script(&self) -> Result<Vec<u8>, ()>;
}

/// The zbase32 alphabet.
pub open spec fn zbase32_alphabet() -> Seq<u8> {
    seq![
        0x79u8, 0x62, 0x6e, 0x64, 0x72, 0x66, 0x67, 0x38,
        0x65, 0x6a, 0x6b, 0x6d, 0x63, 0x70, 0x71, 0x78,
        0x6f, 0x74, 0x31, 0x75, 0x77, 0x69, 0x73, 0x7a,
        0x61, 0x33, 0x34, 0x35, 0x68, 0x37, 0x36, 0x39,
    ]
}

/// The character of the lowest five bits of `n / unit`.
pub open spec fn zbase32_digit(n: nat, unit: nat) -> u8 {
    zbase32_alphabet()[((n / unit) % 32) as int]
}

/// The eight characters of a number of forty bits, in groups of five, highest first.
pub open spec fn zbase32_group(n: nat) -> Seq<u8> {
    seq![
        zbase32_digit(n, 0x8_0000_0000),
        zbase32_digit(n, 0x4000_0000),
        zbase32_digit(n, 0x200_0000),
        zbase32_digit(n, 0x10_0000),
        zbase32_digit(n, 0x8000),
        zbase32_digit(n, 0x400),
        zbase32_digit(n, 0x20),
        zbase32_digit(n, 1),
    ]
}

/// The characters of a byte string whose length is a multiple of five.
pub open spec fn zbase32(s: Seq<u8>) -> Seq<u8>
    decreases s.len(),
{
    if s.len() < 5 {
        Seq::empty()
    } else {
        zbase32_group(be_nat(s.take(5))) + zbase32(s.skip(5))
    }
}

/// The text of an ASCII byte string.
pub open spec fn ascii_chars(s: Seq<u8>) -> Seq<char> {
    s.map_values(|b: u8| b as char)
}

/// The signature of a message by a node's secret key, as text: the recovery id, offset by 31, and the
/// signature of the prefixed message's double hash.
pub open spec fn message_signature(msg: Seq<u8>, secret: Seq<u8>) -> Seq<char> {
    let digest = sha256d(text("Lightning Signed Message:") + msg);
    let (id, compact) = ecdsa_recoverable(digest, secret);
    ascii_chars(zbase32(seq![(id + 31) as u8] + compact))
}

/// `String::from_utf8` on ASCII bytes, each of which is a character.
#[verifier::external_body]
fn ascii_string(bytes: Vec<u8>) -> (r: String)
    requires
        forall|i: int| 0 <= i < bytes@.len() ==> bytes@[i] < 128,
    ensures
        r@ == ascii_chars(bytes@),
{
    String::from_utf8(bytes).unwrap()
}

fn alphabet_char(i: u64) -> (r: u8)
    requires
        i < 32,
    ensures
        r == zbase32_alphabet()[i as int],
        r < 128,
{
    let alphabet: [u8; 32] = [
        0x79, 0x62, 0x6e, 0x64, 0x72, 0x66, 0x67, 0x38,
        0x65, 0x6a, 0x6b, 0x6d, 0x63, 0x70, 0x71, 0x78,
        0x6f, 0x74, 0x31, 0x75, 0x77, 0x69, 0x73, 0x7a,
        0x61, 0x33, 0x34, 0x35, 0x68, 0x37, 0x36, 0x39,
    ];
    assert(alphabet@ =~= zbase32_alphabet());
    alphabet[i as usize]
}

fn push_digit(v: &mut Vec<u8>, n: u64, unit: u64)
    requires
        unit > 0,
    ensures
        final(v)@ == old(v)@.push(zbase32_digit(n as nat, unit as nat)),
        zbase32_digit(n as nat, unit as nat) < 128,
{
    v.push(alphabet_char((n / unit) % 32));
}

fn push_group(v: &mut Vec<u8>, n: u64)
    requires
        forall|i: int| 0 <= i < old(v)@.len() ==> old(v)@[i] < 128,
    ensures
        final(v)@ == old(v)@ + zbase32_group(n as nat),
        forall|i: int| 0 <= i < final(v)@.len() ==> final(v)@[i] < 128,
{
    push_digit(v, n, 0x8_0000_0000);
    push_digit(v, n, 0x4000_0000);
    push_digit(v, n, 0x200_0000);
    push_digit(v, n, 0x10_0000);
    push_digit(v, n, 0x8000);
    push_digit(v, n, 0x400);
    push_digit(v, n, 0x20);
    push_digit(v, n, 1);
    assert(v@ =~= old(v)@ + zbase32_group(n as nat));
}

fn zbase32_encode(s: &[u8]) -> (r: Vec<u8>)
    requires
        s@.len() % 5 == 0,
    ensures
        r@ == zbase32(s@),
        forall|i: int| 0 <= i < r@.len() ==> r@[i] < 128,
{
    let mut r: Vec<u8> = Vec::new();
    let mut i: usize = 0;
    assert(s@.skip(0) =~= s@);
    while i < s.len()
        invariant
            i <= s.len(),
            i % 5 == 0,
            s@.len() % 5 == 0,
            zbase32(s@) == r@ + zbase32(s@.skip(i as int)),
            forall|j: int| 0 <= j < r@.len() ==> r@[j] < 128,
        decreases s.len() - i,
    {
        let n: u64 = from_be(vstd::slice::slice_subrange(s, i, i + 5));
        let ghost before = r@;
        push_group(&mut r, n);
        proof {
            let rest = s@.skip(i as int);
            assert(rest.take(5) =~= s@.subrange(i as int, i + 5));
            assert(rest.skip(5) =~= s@.skip(i + 5));
            assert(before + zbase32(rest) =~= r@ + zbase32(s@.skip(i + 5)));
        }
        i += 5;
    }
    assert(r@ + zbase32(s@.skip(i as int)) =~= r@);
    r
}

/// Signs a message with a node's secret key.
pub fn sign_node_message(msg: &[u8], secret: &SecretKey) -> (r: String)
    ensures
        r@ == message_signature(msg@, secret@),
{
    let prefixed: Vec<u8> = concat("Lightning Signed Message:".as_bytes(), msg);
    let digest: [u8; 32] = sha256d_of(prefixed.as_slice());
    let sig: RecoverableSignature = sign_ecdsa_recoverable(&digest, secret);
    let head: [u8; 1] = [sig.recovery_id + 31];
    let encoded: Vec<u8> = concat(&head, &sig.compact);
    assert(head@ =~= seq![(sig.recovery_id + 31) as u8]);
    ascii_string(zbase32_encode(encoded.as_slice()))
}

} // verus!
