//! The keys of a node that takes part in phantom node payments.
use vstd::prelude::*;

use crate::change::fee;
use crate::channel::SignerError;
use crate::curve::{
    ecdsa, ecdsa_recoverable, public_of, schnorr_verifies, schnorr_with_aux, shared_secret,
    sign_ecdsa_recoverable, valid_secret, x_only, PublicKey, RecoverableSignature, Scalar,
    SchnorrSignature, SecretKey, Signature,
};
use crate::bytes::text;
use crate::entropy::EntropySource;
use crate::hashes::{hkdf_extract_expand_twice, hkdf_first, hkdf_second, sha256d};
use crate::keys_manager::{
    channel_keys_id, channel_signer, ecdh_is_shared, new_manager, of_seed, seed_child, seed_usable,
    tweaked_ecdh, tweaked_secret, KeysManager, KeysManagerView,
};
use crate::node::{
    message_signature, ExpandedKey, NodeSigner, OutputSpender, PeerStorageKey, ReceiveAuthKey,
    Recipient, ShutdownScript, SignerProvider,
};
use crate::script::p2wpkh;
use crate::signer::InMemorySigner;
use crate::spend::{spend_plan, total_value, SpendableOutputDescriptor};
use crate::sweep::spent;
use crate::tx::{outputs_value, outputs_view, weight, Transaction, TxOut};

verus! {

/// What a [`PhantomKeysManager`] holds.
#[verifier::ext_equal]
pub struct PhantomKeysManagerView {
    pub inner: KeysManagerView,
    pub inbound_payment_key: Seq<u8>,
    pub phantom_secret: Seq<u8>,
    pub phantom_node_id: Seq<u8>,
}

impl PhantomKeysManagerView {
    /// The manager after one draw of random bytes.
    pub open spec fn drawn(self) -> PhantomKeysManagerView {
        PhantomKeysManagerView { inner: self.inner.drawn(), ..self }
    }

    /// The secret key of a recipient.
    pub open spec fn secret_of(self, recipient: Recipient) -> Seq<u8> {
        match recipient {
            Recipient::Node => self.inner.node_secret,
            Recipient::PhantomNode => self.phantom_secret,
        }
    }
}

/// What the keys that phantom nodes share are expanded with.
pub open spec fn phantom_salt() -> Seq<u8> {
    text("LDK Inbound and Phantom Payment Key Expansion")
}

/// A manager as [`PhantomKeysManager::new`] makes it: the keys that phantom nodes share come from the
/// seed they share, all others from the node's own.
pub open spec fn new_phantom_manager(
    seed: Seq<u8>,
    secs: u64,
    nanos: u32,
    cross_node_seed: Seq<u8>,
    v2: bool,
) -> PhantomKeysManagerView {
    PhantomKeysManagerView {
        inner: new_manager(seed, secs, nanos, v2),
        inbound_payment_key: hkdf_first(phantom_salt(), cross_node_seed),
        phantom_secret: hkdf_second(phantom_salt(), cross_node_seed),
        phantom_node_id: public_of(hkdf_second(phantom_salt(), cross_node_seed)),
    }
}

/// Similar to [`KeysManager`], but allows the node using this struct to receive phantom node
/// payments.
///
/// A phantom node payment is a payment made to a phantom invoice, which is an invoice that can be
/// paid to one of multiple nodes.
///
/// Note that multi-path payments are not supported in phantom invoices for security reasons.
///
/// Switching between this struct and [`KeysManager`] will invalidate any previously issued
/// invoices and attempts to pay previous invoices will fail.
pub struct PhantomKeysManager {
    inner: KeysManager,
    inbound_payment_key: ExpandedKey,
    phantom_secret: SecretKey,
}

impl View for PhantomKeysManager {
    type V = PhantomKeysManagerView;

    closed spec fn view(&self) -> PhantomKeysManagerView {
        PhantomKeysManagerView {
            inner: self.inner@,
            inbound_payment_key: self.inbound_payment_key.key_material@,
            phantom_secret: self.phantom_secret@,
            phantom_node_id: public_of(self.phantom_secret@),
        }
    }
}

impl EntropySource for PhantomKeysManager {
    fn get_secure_random_bytes(&mut self) -> (r: [u8; 32])
        ensures
            r@ == old(self)@.inner.entropy.value(),
            final(self)@ == old(self)@.drawn(),
    {
        self.inner.get_secure_random_bytes()
    }
}

impl PhantomKeysManager {
    /// Constructs a [`PhantomKeysManager`] given a 32-byte seed and an additional `cross_node_seed`
    /// that is shared across all nodes that intend to participate in phantom node payments
    /// together.
    ///
    /// See [`KeysManager::new`] for more information on `seed`, `starting_time_secs`,
    /// `starting_time_nanos`, and `v2_remote_key_derivation`.
    ///
    /// `cross_node_seed` must be the same across all phantom payment-receiving nodes and also the
    /// same across restarts, or else inbound payments may fail.
    ///
    /// See [`Self::try_new`] for seeds of which it is not known that all keys exist.
    pub fn new(
        seed: &[u8; 32],
        starting_time_secs: u64,
        starting_time_nanos: u32,
        cross_node_seed: &[u8; 32],
        v2_remote_key_derivation: bool,
    ) -> (r: Self)
        requires
            seed_usable(seed@),
            valid_secret(hkdf_second(phantom_salt(), cross_node_seed@)),
        ensures
            r@ == new_phantom_manager(
                seed@,
                starting_time_secs,
                starting_time_nanos,
                cross_node_seed@,
                v2_remote_key_derivation,
            ),
    {
        let inner: KeysManager = KeysManager::new(
            seed,
            starting_time_secs,
            starting_time_nanos,
            v2_remote_key_derivation,
        );
        let (inbound_key, phantom_key): ([u8; 32], [u8; 32]) = hkdf_extract_expand_twice(
            "LDK Inbound and Phantom Payment Key Expansion".as_bytes(),
            cross_node_seed,
        );
        let phantom_secret: SecretKey = SecretKey::from_bytes(&phantom_key).unwrap();
        PhantomKeysManager {
            inner,
            inbound_payment_key: ExpandedKey { key_material: inbound_key },
            phantom_secret,
        }
    }

    /// [`Self::new`] where all keys exist.
    pub fn try_new(
        seed: &[u8; 32],
        starting_time_secs: u64,
        starting_time_nanos: u32,
        cross_node_seed: &[u8; 32],
        v2_remote_key_derivation: bool,
    ) -> (r: Option<Self>)
        ensures
            r is Some <==> seed_usable(seed@) && valid_secret(
                hkdf_second(phantom_salt(), cross_node_seed@),
            ),
            r matches Some(m) ==> m@ == new_phantom_manager(
                seed@,
                starting_time_secs,
                starting_time_nanos,
                cross_node_seed@,
                v2_remote_key_derivation,
            ),
    {
        let (_, phantom_key): ([u8; 32], [u8; 32]) = hkdf_extract_expand_twice(
            "LDK Inbound and Phantom Payment Key Expansion".as_bytes(),
            cross_node_seed,
        );
        if SecretKey::from_bytes(&phantom_key).is_some() && KeysManager::try_new(
            seed,
            starting_time_secs,
            starting_time_nanos,
            v2_remote_key_derivation,
        ).is_some() {
            Some(
                Self::new(
                    seed,
                    starting_time_secs,
                    starting_time_nanos,
                    cross_node_seed,
                    v2_remote_key_derivation,
                ),
            )
        } else {
            None
        }
    }

    /// See [`KeysManager::derive_channel_keys`] for documentation on this method.
    pub fn derive_channel_keys(&mut self, params: &[u8; 32]) -> (r: InMemorySigner)
        requires
            channel_signer(old(self)@.inner, params@) is Some,
        ensures
            Some(r@) == channel_signer(old(self)@.inner, params@),
            final(self)@ == old(self)@.drawn(),
    {
        self.inner.derive_channel_keys(params)
    }

    /// See [`KeysManager::try_derive_channel_keys`] for documentation on this method.
    pub fn try_derive_channel_keys(&mut self, params: &[u8; 32]) -> (r: Option<InMemorySigner>)
        ensures
            match channel_signer(old(self)@.inner, params@) {
                Some(s) => r is Some && (r->0)@ == s && final(self)@ == old(self)@.drawn(),
                None => r is None && final(self)@ == old(self)@,
            },
    {
        if self.inner.has_channel_keys(params) {
            Some(self.derive_channel_keys(params))
        } else {
            None
        }
    }

    /// Gets the "node_id" secret key used to sign gossip announcements, decode onion data, etc.
    pub fn get_node_secret_key(&self) -> (r: SecretKey)
        ensures
            r@ == self@.inner.node_secret,
    {
        self.inner.get_node_secret_key()
    }

    /// Gets the "node_id" secret key of the phantom node used to sign invoices, decode the
    /// last-hop onion data, etc.
    pub fn get_phantom_node_secret_key(&self) -> (r: SecretKey)
        ensures
            r@ == self@.phantom_secret,
    {
        self.phantom_secret
    }

    fn secret(&self, recipient: Recipient) -> (r: SecretKey)
        ensures
            r@ == self@.secret_of(recipient),
    {
        match recipient {
            Recipient::Node => self.inner.get_node_secret_key(),
            Recipient::PhantomNode => self.phantom_secret,
        }
    }
}

impl NodeSigner for PhantomKeysManager {
    fn get_expanded_key(&self) -> (r: ExpandedKey)
        ensures
            r.key_material@ == self@.inbound_payment_key,
    {
        self.inbound_payment_key
    }

    fn get_peer_storage_key(&self) -> (r: PeerStorageKey)
        ensures
            r.inner@ == self@.inner.peer_storage_key,
    {
        self.inner.get_peer_storage_key()
    }

    fn get_receive_auth_key(&self) -> (r: ReceiveAuthKey)
        ensures
            r.0@ == self@.inner.receive_auth_key,
    {
        self.inner.get_receive_auth_key()
    }

    fn get_node_id(&self, recipient: Recipient) -> (r: Result<PublicKey, ()>)
        ensures
            r is Ok,
            (r->Ok_0)@ == match recipient {
                Recipient::Node => self@.inner.node_id,
                Recipient::PhantomNode => self@.phantom_node_id,
            },
            (r->Ok_0)@ == match recipient {
                Recipient::Node => public_of(self@.inner.node_secret),
                Recipient::PhantomNode => public_of(self@.phantom_secret),
            },
    {
        match recipient {
            Recipient::Node => self.inner.get_node_id(Recipient::Node),
            Recipient::PhantomNode => Ok(self.phantom_secret.public_key()),
        }
    }

    fn ecdh(&self, recipient: Recipient, other_key: &PublicKey, tweak: Option<&Scalar>) -> (r: Result<
        [u8; 32],
        (),
    >)
        ensures
            r is Ok ==> ecdh_is_shared(
                self@.secret_of(recipient),
                other_key@,
                tweak,
                (r->Ok_0)@,
            ),
            match tweaked_secret(self@.secret_of(recipient), tweak) {
                Some(secret) => r is Ok && (r->Ok_0)@ == shared_secret(other_key@, secret),
                None => r is Err,
            },
            r is Ok ==> ecdh_is_shared(
                match recipient {
                    Recipient::Node => self@.inner.node_secret,
                    Recipient::PhantomNode => self@.phantom_secret,
                },
                other_key@,
                tweak,
                (r->Ok_0)@,
            ),
    {
        tweaked_ecdh(&self.secret(recipient), other_key, tweak)
    }

    fn sign_invoice(&self, signable_hash: &[u8; 32], recipient: Recipient) -> (r: Result<
        RecoverableSignature,
        (),
    >)
        ensures
            r is Ok,
            ((r->Ok_0).recovery_id, (r->Ok_0).compact@) == ecdsa_recoverable(
                signable_hash@,
                self@.secret_of(recipient),
            ),
            ((r->Ok_0).recovery_id, (r->Ok_0).compact@) == ecdsa_recoverable(
                signable_hash@,
                match recipient {
                    Recipient::Node => self@.inner.node_secret,
                    Recipient::PhantomNode => self@.phantom_secret,
                },
            ),
    {
        Ok(sign_ecdsa_recoverable(signable_hash, &self.secret(recipient)))
    }

    fn sign_bolt12_invoice(&mut self, tagged_hash: &[u8; 32]) -> (r: Result<SchnorrSignature, ()>)
        ensures
            r is Ok,
            (r->Ok_0)@ == schnorr_with_aux(
                tagged_hash@,
                old(self)@.inner.node_secret,
                old(self)@.inner.entropy.value(),
            ),
            schnorr_verifies(
                (r->Ok_0)@,
                tagged_hash@,
                x_only(public_of(old(self)@.inner.node_secret)),
            ),
            final(self)@ == old(self)@.drawn(),
    {
        self.inner.sign_bolt12_invoice(tagged_hash)
    }

    fn sign_gossip_message(&self, msg: &[u8]) -> (r: Result<Signature, ()>)
        ensures
            r is Ok,
            (r->Ok_0)@ == ecdsa(sha256d(msg@), self@.inner.node_secret),
    {
        self.inner.sign_gossip_message(msg)
    }

    fn sign_message(&self, msg: &[u8]) -> (r: Result<String, ()>)
        ensures
            r is Ok,
            (r->Ok_0)@ == message_signature(msg@, self@.inner.node_secret),
    {
        self.inner.sign_message(msg)
    }
}

impl OutputSpender for PhantomKeysManager {
    /// See [`OutputSpender::spend_spendable_outputs`] for documentation on this method.
    fn spend_spendable_outputs(
        &mut self,
        descriptors: &[&SpendableOutputDescriptor],
        outputs: Vec<TxOut>,
        change_destination_script: Vec<u8>,
        feerate_sat_per_1000_weight: u32,
        locktime: Option<u32>,
    ) -> (r: Result<Transaction, SignerError>)
        ensures
            spent(
                old(self)@.inner,
                final(self)@.inner,
                descriptors@,
                spend_plan(
                    descriptors@,
                    outputs_view(outputs@),
                    change_destination_script@,
                    feerate_sat_per_1000_weight,
                    locktime,
                    false,
                ),
                match r {
                    Ok(tx) => Ok(tx@),
                    Err(e) => Err(e),
                },
            ),
            r matches Ok(tx) ==> outputs_value(tx@.output) + fee(
                weight(tx@),
                feerate_sat_per_1000_weight,
            ) <= total_value(descriptors@),
            final(self)@ == (PhantomKeysManagerView { inner: final(self)@.inner, ..old(self)@ }),
    {
        self.inner.spend_spendable_outputs(
            descriptors,
            outputs,
            change_destination_script,
            feerate_sat_per_1000_weight,
            locktime,
        )
    }
}

impl SignerProvider for PhantomKeysManager {
    type EcdsaSigner = InMemorySigner;

    type TaprootSigner = InMemorySigner;

    open spec fn has_channel_keys_id(&self) -> bool {
        self@.inner.channel_child_index < u32::MAX
    }

    fn generate_channel_keys_id(&mut self, inbound: bool, user_channel_id: u128) -> (r: [u8; 32])
        ensures
            r@ == channel_keys_id(
                old(self)@.inner.channel_child_index as u32,
                old(self)@.inner.starting_time_nanos,
                old(self)@.inner.starting_time_secs,
                user_channel_id,
            ),
            final(self)@ == (PhantomKeysManagerView {
                inner: KeysManagerView {
                    channel_child_index: (old(self)@.inner.channel_child_index + 1) as u64,
                    ..old(self)@.inner
                },
                ..old(self)@
            }),
    {
        self.inner.generate_channel_keys_id(inbound, user_channel_id)
    }

    fn derive_channel_signer(&mut self, channel_keys_id: [u8; 32]) -> (r: Option<InMemorySigner>)
        ensures
            match channel_signer(old(self)@.inner, channel_keys_id@) {
                Some(s) => r is Some && (r->0)@ == s && final(self)@ == old(self)@.drawn(),
                None => r is None && final(self)@ == old(self)@,
            },
    {
        self.inner.derive_channel_signer(channel_keys_id)
    }

    fn derive_taproot_channel_signer(&mut self, channel_keys_id: [u8; 32]) -> (r: Option<
        InMemorySigner,
    >)
        ensures
            match channel_signer(old(self)@.inner, channel_keys_id@) {
                Some(s) => r is Some && (r->0)@ == s && final(self)@ == old(self)@.drawn(),
                None => r is None && final(self)@ == old(self)@,
            },
    {
        self.inner.derive_taproot_channel_signer(channel_keys_id)
    }

    fn get_destination_script(&self, channel_keys_id: [u8; 32]) -> (r: Result<Vec<u8>, ()>)
        ensures
            r is Ok,
            (r->Ok_0)@ == self@.inner.destination_script,
            (r->Ok_0)@ == p2wpkh(public_of((seed_child(self@.inner.seed, 1)->0).key)),
    {
        self.inner.get_destination_script(channel_keys_id)
    }

    fn get_shutdown_scriptpubkey(&self) -> (r: Result<ShutdownScript, ()>)
        ensures
            r is Ok,
            (r->Ok_0).script@ == p2wpkh(self@.inner.shutdown_pubkey),
            (r->Ok_0).script@ == p2wpkh(public_of((seed_child(self@.inner.seed, 2)->0).key)),
    {
        self.inner.get_shutdown_scriptpubkey()
    }
}

/// What a recipient's invoices are signed with, and its secrets are shared by, is the key behind the id that
/// it is known by: for the node the one that [`PhantomKeysManager::get_node_secret_key`] gives, for the
/// phantom node the one that [`PhantomKeysManager::get_phantom_node_secret_key`] gives. A manager is made
/// so, and stays so whatever is drawn from it.
pub proof fn recipients_hold_the_key_of_their_id(m: PhantomKeysManagerView, recipient: Recipient)
    requires
        of_seed(m.inner),
        m.phantom_node_id == public_of(m.phantom_secret),
    ensures
        public_of(m.secret_of(recipient)) == match recipient {
            Recipient::Node => m.inner.node_id,
            Recipient::PhantomNode => m.phantom_node_id,
        },
        m.secret_of(Recipient::Node) == m.inner.node_secret,
        m.secret_of(Recipient::PhantomNode) == m.phantom_secret,
        m.drawn().secret_of(recipient) == m.secret_of(recipient),
{
}

/// A manager as it is made has the ids of its keys, and the node's own are those of a manager of the same
/// seed without a phantom node.
pub proof fn phantom_managers_are_made_with_their_ids(
    seed: Seq<u8>,
    secs: u64,
    nanos: u32,
    cross_node_seed: Seq<u8>,
    v2: bool,
)
    requires
        seed_usable(seed),
    ensures
        ({
            let m = new_phantom_manager(seed, secs, nanos, cross_node_seed, v2);
            &&& of_seed(m.inner)
            &&& m.inner == new_manager(seed, secs, nanos, v2)
            &&& m.phantom_node_id == public_of(m.phantom_secret)
            &&& m.phantom_secret == hkdf_second(phantom_salt(), cross_node_seed)
            &&& m.inbound_payment_key == hkdf_first(phantom_salt(), cross_node_seed)
        }),
{
}

/// All nodes that share a cross-node seed, and a node across restarts, have the same phantom keys,
/// whatever their own seeds and starting times.
pub proof fn phantom_keys_are_shared(
    a: (Seq<u8>, u64, u32, bool),
    b: (Seq<u8>, u64, u32, bool),
    cross_node_seed: Seq<u8>,
)
    ensures
        ({
            let x = new_phantom_manager(a.0, a.1, a.2, cross_node_seed, a.3);
            let y = new_phantom_manager(b.0, b.1, b.2, cross_node_seed, b.3);
            &&& x.inbound_payment_key == y.inbound_payment_key
            &&& x.phantom_secret == y.phantom_secret
            &&& x.phantom_node_id == y.phantom_node_id
        }),
{
}

} // verus!
