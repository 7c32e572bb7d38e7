//! All of a node's keys, derived from one seed.
use vstd::prelude::*;

use crate::bip32::{
    hardened_child, master_key, xpriv_view, Xpriv, XprivView, HARDENED_INDEX_TOP,
};
use crate::bytes::{
    append, array32, be_bytes, be_nat, byte_range, concat, copy_bytes, from_be, from_le, le_nat,
    lemma_be_bytes_injective, lemma_be_bytes_len, lemma_be_round_trip, lemma_byte_ranges, text, to_be,
};
use crate::curve::{
    ecdsa, ecdh_secret, ecdsa_recoverable, point_product, public_of, schnorr_verifies, schnorr_with_aux,
    shared_secret, sign_ecdsa, sign_ecdsa_recoverable, sign_schnorr_with_aux, tweak_mul, valid_secret,
    x_only, PublicKey, RecoverableSignature, Scalar, SchnorrSignature, SecretKey, Signature,
};
use crate::entropy::{chacha_block, draw_nonce, EntropySource, RandomBytes, RandomBytesView};
use crate::hashes::{sha256, sha256_of, sha256d, sha256d_of};
use crate::node::{
    message_signature, sign_node_message, ExpandedKey, NodeSigner, PeerStorageKey, ReceiveAuthKey,
    Recipient, ShutdownScript, SignerProvider,
};
use crate::script::{
    countersigner_payment_script, get_countersigner_payment_script, new_p2wpkh, p2wpkh,
};
use crate::signer::{InMemorySigner, SignerView};
use crate::tx::rows;

verus! {

/// If a [`KeysManager`] is built with [`KeysManager::new`] with `v2_remote_key_derivation` set
/// (and for all channels after they've been spliced), the script which we receive funds to on-chain
/// when our counterparty force-closes a channel is one of this many possible derivation paths.
///
/// Keeping this limited allows for scanning the chain to find lost funds if our state is destroyed,
/// while this being more than a handful provides some privacy by not constantly reusing the same
/// scripts on-chain across channels.
// Note that this MUST remain below the maximum BIP 32 derivation paths (2^31)
pub const STATIC_PAYMENT_KEY_COUNT: u16 = 1000;

const NODE_SECRET_INDEX: u32 = 0;

const DESTINATION_SCRIPT_INDEX: u32 = 1;

const SHUTDOWN_PUBKEY_INDEX: u32 = 2;

const CHANNEL_MASTER_KEY_INDEX: u32 = 3;

const INBOUND_PAYMENT_KEY_INDEX: u32 = 5;

const PEER_STORAGE_KEY_INDEX: u32 = 6;

const RECEIVE_AUTH_KEY_INDEX: u32 = 7;

const STATIC_PAYMENT_KEY_INDEX: u32 = 8;

/// What a [`KeysManager`] holds.
#[verifier::ext_equal]
pub struct KeysManagerView {
    pub node_secret: Seq<u8>,
    pub node_id: Seq<u8>,
    pub inbound_payment_key: Seq<u8>,
    pub destination_script: Seq<u8>,
    pub shutdown_pubkey: Seq<u8>,
    pub channel_master_key: XprivView,
    pub static_payment_key: XprivView,
    pub v2_remote_key_derivation: bool,
    pub channel_child_index: u64,
    pub peer_storage_key: Seq<u8>,
    pub receive_auth_key: Seq<u8>,
    pub entropy: RandomBytesView,
    pub seed: Seq<u8>,
    pub starting_time_secs: u64,
    pub starting_time_nanos: u32,
}

impl KeysManagerView {
    /// The manager after one draw of random bytes.
    pub open spec fn drawn(self) -> KeysManagerView {
        KeysManagerView { entropy: self.entropy.next(), ..self }
    }
}

/// A child of a seed's master key, where it exists.
pub open spec fn seed_child(seed: Seq<u8>, index: u32) -> Option<XprivView> {
    match master_key(seed) {
        Some(master) => hardened_child(master, index),
        None => None,
    }
}

/// What the randomness of a manager is seeded with: the time it started at, its seed, and a label.
pub open spec fn entropy_seed(seed: Seq<u8>, secs: u64, nanos: u32) -> Seq<u8> {
    sha256(be_bytes(secs as nat, 8) + be_bytes(nanos as nat, 4) + seed + text("LDK PRNG Seed"))
}

/// That all keys of a manager with this seed exist.
pub open spec fn seed_usable(seed: Seq<u8>) -> bool {
    &&& seed_child(seed, 0) is Some
    &&& seed_child(seed, 1) is Some
    &&& seed_child(seed, 2) is Some
    &&& seed_child(seed, 3) is Some
    &&& seed_child(seed, 5) is Some
    &&& seed_child(seed, 6) is Some
    &&& seed_child(seed, 7) is Some
    &&& seed_child(seed, 8) is Some
}

/// A manager as [`KeysManager::new`] makes it. Each key is a hardened child of the seed's master key:
/// the node's at 0, the destination's at 1, the shutdown's at 2, the channels' at 3, the inbound
/// payments' at 5, the peer storage's at 6, the receive authentication's at 7, the static payments' at
/// 8. One value has been drawn from its randomness.
pub open spec fn new_manager(seed: Seq<u8>, secs: u64, nanos: u32, v2: bool) -> KeysManagerView {
    let child = |i: u32| seed_child(seed, i)->0;
    KeysManagerView {
        node_secret: child(0).key,
        node_id: public_of(child(0).key),
        destination_script: p2wpkh(public_of(child(1).key)),
        shutdown_pubkey: public_of(child(2).key),
        channel_master_key: child(3),
        inbound_payment_key: child(5).key,
        peer_storage_key: child(6).key,
        receive_auth_key: child(7).key,
        static_payment_key: child(8),
        v2_remote_key_derivation: v2,
        channel_child_index: 0,
        entropy: RandomBytesView { seed: entropy_seed(seed, secs, nanos), index: 1 },
        seed,
        starting_time_secs: secs,
        starting_time_nanos: nanos,
    }
}

/// That a manager is one of its seed: as it was made, but for the randomness drawn and the identifiers given
/// out since.
pub open spec fn of_seed(m: KeysManagerView) -> bool {
    &&& seed_usable(m.seed)
    &&& m == (KeysManagerView {
        channel_child_index: m.channel_child_index,
        entropy: RandomBytesView {
            seed: entropy_seed(m.seed, m.starting_time_secs, m.starting_time_nanos),
            index: m.entropy.index,
        },
        ..new_manager(
            m.seed,
            m.starting_time_secs,
            m.starting_time_nanos,
            m.v2_remote_key_derivation,
        )
    })
}

/// The payment key at an index of the static set, where it exists.
pub open spec fn static_payment_key(m: KeysManagerView, index: nat) -> Option<Seq<u8>> {
    match hardened_child(m.static_payment_key, index as u32) {
        Some(x) => Some(x.key),
        None => None,
    }
}

/// The next key in a channel's chain of keys.
pub open spec fn key_step(unique: Seq<u8>, previous: Seq<u8>, info: &str) -> Seq<u8> {
    sha256(unique + previous + text(info))
}

/// What identifies a channel's keys among all: its parameters, the seed, and a child of the channel
/// master key picked by the parameters' first eight bytes.
pub open spec fn channel_unique_seed(m: KeysManagerView, params: Seq<u8>, child: XprivView) -> Seq<u8> {
    sha256(params + m.seed + child.key)
}

/// Which child of the channel master key a channel uses.
pub open spec fn channel_child(params: Seq<u8>) -> nat {
    be_nat(params.take(8)) % HARDENED_INDEX_TOP as nat
}

/// Which key of the static set a channel uses.
pub open spec fn payment_key_index(commitment_seed: Seq<u8>) -> nat {
    le_nat(commitment_seed.take(8)) % STATIC_PAYMENT_KEY_COUNT as nat
}

/// A channel's keys, where all exist, with the randomness of the signer yet to be seeded.
pub open spec fn channel_secrets(m: KeysManagerView, params: Seq<u8>) -> Option<SignerView> {
    match hardened_child(m.channel_master_key, channel_child(params) as u32) {
        None => None,
        Some(child) => {
            let unique = channel_unique_seed(m, params, child);
            let commitment_seed = sha256(unique + text("commitment seed"));
            let funding_key = key_step(unique, commitment_seed, "funding key");
            let revocation_base_key = key_step(unique, funding_key, "revocation base key");
            let payment_key_v1 = key_step(unique, revocation_base_key, "payment key");
            let delayed_payment_base_key = key_step(
                unique,
                payment_key_v1,
                "delayed payment base key",
            );
            let htlc_base_key = key_step(unique, delayed_payment_base_key, "HTLC base key");
            match static_payment_key(m, payment_key_index(commitment_seed)) {
                Some(payment_key_v2) => if valid_secret(funding_key) && valid_secret(
                    revocation_base_key,
                ) && valid_secret(payment_key_v1) && valid_secret(delayed_payment_base_key)
                    && valid_secret(htlc_base_key) {
                    Some(
                        SignerView {
                            funding_key,
                            revocation_base_key,
                            payment_key_v1,
                            payment_key_v2,
                            v2_remote_key_derivation: m.v2_remote_key_derivation,
                            delayed_payment_base_key,
                            htlc_base_key,
                            commitment_seed,
                            channel_keys_id: params,
                            entropy: RandomBytesView { seed: Seq::empty(), index: 0 },
                            taproot: None,
                        },
                    )
                } else {
                    None
                },
                None => None,
            }
        },
    }
}

/// The signer of a channel, where its keys exist; its randomness is seeded by the manager's.
pub open spec fn channel_signer(m: KeysManagerView, params: Seq<u8>) -> Option<SignerView> {
    match channel_secrets(m, params) {
        Some(s) => Some(
            SignerView { entropy: RandomBytesView { seed: m.entropy.value(), index: 0 }, ..s },
        ),
        None => None,
    }
}

/// That all keys of the static set exist.
pub open spec fn static_set_usable(m: KeysManagerView) -> bool {
    forall|i: nat| i < STATIC_PAYMENT_KEY_COUNT ==> (#[trigger] static_payment_key(m, i)) is Some
}

/// The scripts of the first `n` keys of the static set: for each, without anchors, then with.
pub open spec fn static_scripts(m: KeysManagerView, n: nat) -> Seq<Seq<u8>>
    decreases n,
{
    if n == 0 {
        Seq::empty()
    } else {
        let key = public_of(static_payment_key(m, (n - 1) as nat)->0);
        static_scripts(m, (n - 1) as nat).push(countersigner_payment_script(false, key)).push(
            countersigner_payment_script(true, key),
        )
    }
}

/// A channel's identifier: how many came before it, when the manager started, and the user's number.
pub open spec fn channel_keys_id(child: u32, nanos: u32, secs: u64, user_channel_id: u128) -> Seq<u8> {
    be_bytes(child as nat, 4) + be_bytes(nanos as nat, 4) + be_bytes(secs as nat, 8) + be_bytes(
        user_channel_id as nat,
        16,
    )
}

/// Simple implementation of [`EntropySource`], [`NodeSigner`], and [`SignerProvider`] that takes a
/// 32-byte seed for use as a BIP 32 extended key and derives keys from that.
///
/// Your `node_id` is seed/0'.
/// Unilateral closes may use seed/1'.
/// Cooperative closes may use seed/2'.
/// The two close keys may be needed to claim on-chain funds!
///
/// This struct cannot be used for nodes that wish to support receiving phantom payments;
/// `PhantomKeysManager` must be used instead.
///
/// Note that switching between this struct and `PhantomKeysManager` will invalidate any
/// previously issued invoices and attempts to pay previous invoices will fail.
pub struct KeysManager {
    node_secret: SecretKey,
    node_id: PublicKey,
    inbound_payment_key: ExpandedKey,
    destination_script: Vec<u8>,
    shutdown_pubkey: PublicKey,
    channel_master_key: Xpriv,
    static_payment_key: Xpriv,
    v2_remote_key_derivation: bool,
    channel_child_index: u64,
    peer_storage_key: PeerStorageKey,
    receive_auth_key: ReceiveAuthKey,
    entropy_source: RandomBytes,
    seed: [u8; 32],
    starting_time_secs: u64,
    starting_time_nanos: u32,
}

impl View for KeysManager {
    type V = KeysManagerView;

    closed spec fn view(&self) -> KeysManagerView {
        KeysManagerView {
            node_secret: self.node_secret@,
            node_id: self.node_id@,
            inbound_payment_key: self.inbound_payment_key.key_material@,
            destination_script: self.destination_script@,
            shutdown_pubkey: self.shutdown_pubkey@,
            channel_master_key: self.channel_master_key@,
            static_payment_key: self.static_payment_key@,
            v2_remote_key_derivation: self.v2_remote_key_derivation,
            channel_child_index: self.channel_child_index,
            peer_storage_key: self.peer_storage_key.inner@,
            receive_auth_key: self.receive_auth_key.0@,
            entropy: self.entropy_source@,
            seed: self.seed@,
            starting_time_secs: self.starting_time_secs,
            starting_time_nanos: self.starting_time_nanos,
        }
    }
}

impl KeysManager {
    #[verifier::type_invariant]
    spec fn is_of_seed(self) -> bool {
        of_seed(self@)
    }
}

impl EntropySource for KeysManager {
    fn get_secure_random_bytes(&mut self) -> (r: [u8; 32])
        ensures
            r@ == old(self)@.entropy.value(),
            final(self)@ == old(self)@.drawn(),
    {
        let (bytes, after): ([u8; 32], RandomBytes) = self.entropy_source.drawn();
        proof {
            use_type_invariant(&*self);
        }
        self.entropy_source = after;
        bytes
    }
}

/// A child of a seed's master key, where it exists.
pub(crate) fn derive_seed_child(seed: &[u8; 32], index: u32) -> (r: Option<Xpriv>)
    requires
        index < HARDENED_INDEX_TOP,
    ensures
        xpriv_view(r) == seed_child(seed@, index),
{
    match Xpriv::new_master(seed) {
        Some(master) => master.try_derive_hardened(index),
        None => None,
    }
}

/// Hashes a step in a channel's chain of keys into a key, where it is one.
fn derive_key_step(unique: &[u8; 32], previous: &[u8; 32], info: &str) -> (r: Option<SecretKey>)
    ensures
        r is Some <==> valid_secret(key_step(unique@, previous@, info)),
        r matches Some(k) ==> k@ == key_step(unique@, previous@, info),
{
    let mut message: Vec<u8> = concat(unique, previous);
    append(&mut message, info.as_bytes());
    SecretKey::from_bytes(&sha256_of(message.as_slice()))
}

/// The keys of a channel.
struct ChannelSecrets {
    funding_key: SecretKey,
    revocation_base_key: SecretKey,
    payment_key_v1: SecretKey,
    payment_key_v2: SecretKey,
    delayed_payment_base_key: SecretKey,
    htlc_base_key: SecretKey,
    commitment_seed: [u8; 32],
}

impl KeysManager {
    /// Constructs a [`KeysManager`] from a 32-byte seed.
    /// `starting_time` isn't strictly required to actually be a time, but it must absolutely,
    /// without a doubt, be unique to this instance. ie if you start multiple times with the same
    /// `seed`, `starting_time` must be unique to each run. Thus, the easiest way to achieve this
    /// is to simply use the current time (with very high precision).
    ///
    /// The `seed` MUST be backed up safely prior to use so that the keys can be re-created, however,
    /// obviously, `starting_time` should be unique every time you reload the library - it is only
    /// used to generate new ephemeral key data (which will be stored by the individual channel if
    /// necessary).
    ///
    /// If `v2_remote_key_derivation` is set, the `script_pubkey`s which receive funds on-chain when
    /// our counterparty force-closes will be one of a static set of [`STATIC_PAYMENT_KEY_COUNT`]*2
    /// possible `script_pubkey`s. This only applies to new or spliced channels.
    ///
    /// See [`Self::try_new`] for a seed of which it is not known that all keys exist.
    pub fn new(
        seed: &[u8; 32],
        starting_time_secs: u64,
        starting_time_nanos: u32,
        v2_remote_key_derivation: bool,
    ) -> (r: Self)
        requires
            seed_usable(seed@),
        ensures
            r@ == new_manager(
                seed@,
                starting_time_secs,
                starting_time_nanos,
                v2_remote_key_derivation,
            ),
    {
        let master_key: Xpriv = Xpriv::new_master(seed).unwrap();
        let node_secret: SecretKey = master_key.derive_hardened(NODE_SECRET_INDEX).private_key;
        let node_id: PublicKey = node_secret.public_key();
        let destination_script: Vec<u8> = new_p2wpkh(
            &master_key.derive_hardened(DESTINATION_SCRIPT_INDEX).private_key.public_key(),
        );
        let shutdown_pubkey: PublicKey = master_key.derive_hardened(
            SHUTDOWN_PUBKEY_INDEX,
        ).private_key.public_key();
        let channel_master_key: Xpriv = master_key.derive_hardened(CHANNEL_MASTER_KEY_INDEX);
        let inbound_payment_key: SecretKey = master_key.derive_hardened(
            INBOUND_PAYMENT_KEY_INDEX,
        ).private_key;
        let peer_storage_key: SecretKey = master_key.derive_hardened(
            PEER_STORAGE_KEY_INDEX,
        ).private_key;
        let receive_auth_key: SecretKey = master_key.derive_hardened(
            RECEIVE_AUTH_KEY_INDEX,
        ).private_key;
        let static_payment_key: Xpriv = master_key.derive_hardened(STATIC_PAYMENT_KEY_INDEX);
        let mut unique: Vec<u8> = to_be(starting_time_secs as u128, 8);
        append(&mut unique, to_be(starting_time_nanos as u128, 4).as_slice());
        append(&mut unique, seed);
        append(&mut unique, "LDK PRNG Seed".as_bytes());
        let rand_bytes_unique_start: [u8; 32] = sha256_of(unique.as_slice());
        let mut res = KeysManager {
            node_secret,
            node_id,
            inbound_payment_key: ExpandedKey { key_material: inbound_payment_key.secret_bytes() },
            peer_storage_key: PeerStorageKey { inner: peer_storage_key.secret_bytes() },
            receive_auth_key: ReceiveAuthKey(receive_auth_key.secret_bytes()),
            destination_script,
            shutdown_pubkey,
            channel_master_key,
            channel_child_index: 0,
            static_payment_key,
            v2_remote_key_derivation,
            entropy_source: RandomBytes::new(rand_bytes_unique_start),
            seed: *seed,
            starting_time_secs,
            starting_time_nanos,
        };
        let _ = res.get_secure_random_bytes();
        res
    }

    /// [`Self::new`] where all keys exist.
    pub fn try_new(
        seed: &[u8; 32],
        starting_time_secs: u64,
        starting_time_nanos: u32,
        v2_remote_key_derivation: bool,
    ) -> (r: Option<Self>)
        ensures
            r is Some <==> seed_usable(seed@),
            r matches Some(m) ==> m@ == new_manager(
                seed@,
                starting_time_secs,
                starting_time_nanos,
                v2_remote_key_derivation,
            ),
    {
        if derive_seed_child(seed, NODE_SECRET_INDEX).is_some() && derive_seed_child(
            seed,
            DESTINATION_SCRIPT_INDEX,
        ).is_some() && derive_seed_child(seed, SHUTDOWN_PUBKEY_INDEX).is_some()
            && derive_seed_child(seed, CHANNEL_MASTER_KEY_INDEX).is_some() && derive_seed_child(
            seed,
            INBOUND_PAYMENT_KEY_INDEX,
        ).is_some() && derive_seed_child(seed, PEER_STORAGE_KEY_INDEX).is_some()
            && derive_seed_child(seed, RECEIVE_AUTH_KEY_INDEX).is_some() && derive_seed_child(
            seed,
            STATIC_PAYMENT_KEY_INDEX,
        ).is_some() {
            Some(
                Self::new(
                    seed,
                    starting_time_secs,
                    starting_time_nanos,
                    v2_remote_key_derivation,
                ),
            )
        } else {
            None
        }
    }

    /// Gets the "node_id" secret key used to sign gossip announcements, decode onion data, etc.
    pub fn get_node_secret_key(&self) -> (r: SecretKey)
        ensures
            r@ == self@.node_secret,
            of_seed(self@),
    {
        proof {
            use_type_invariant(&*self);
        }
        self.node_secret
    }

    /// The payment key at an index of the static set, where it exists.
    fn static_key(&self, index: u32) -> (r: Option<SecretKey>)
        requires
            index < STATIC_PAYMENT_KEY_COUNT,
        ensures
            match r {
                Some(k) => Some(k@),
                None => None,
            } == static_payment_key(self@, index as nat),
    {
        match self.static_payment_key.try_derive_hardened(index) {
            Some(x) => Some(x.private_key),
            None => None,
        }
    }

    /// Gets the set of possible `script_pubkey`s which can appear on chain for our
    /// non-HTLC-encumbered balance if our counterparty force-closes a channel.
    ///
    /// If you've lost all data except your seed, asking your peers nicely to force-close the
    /// chanels they had with you (and hoping they don't broadcast a stale state and that there are
    /// no pending HTLCs in the latest state) and scanning the chain for these `script_pubkey`s can
    /// allow you to recover (some of) your funds.
    ///
    /// Only channels opened when using a [`KeysManager`] with the `v2_remote_key_derivation`
    /// argument to [`KeysManager::new`] set, or any spliced channels will close to such scripts,
    /// other channels will close to a randomly-generated `script_pubkey`.
    ///
    /// See [`Self::try_possible_v2_counterparty_closed_balance_spks`] for a manager of which it is not
    /// known that all keys of the set exist.
    pub fn possible_v2_counterparty_closed_balance_spks(&self) -> (r: Vec<Vec<u8>>)
        requires
            static_set_usable(self@),
        ensures
            rows(r@) == static_scripts(self@, STATIC_PAYMENT_KEY_COUNT as nat),
            r@.len() == 2 * STATIC_PAYMENT_KEY_COUNT,
    {
        let mut res: Vec<Vec<u8>> = Vec::new();
        let mut idx: u16 = 0;
        assert(rows(res@) =~= static_scripts(self@, 0));
        while idx < STATIC_PAYMENT_KEY_COUNT
            invariant
                idx <= STATIC_PAYMENT_KEY_COUNT,
                static_set_usable(self@),
                res@.len() == 2 * idx,
                rows(res@) == static_scripts(self@, idx as nat),
            decreases STATIC_PAYMENT_KEY_COUNT - idx,
        {
            assert(static_payment_key(self@, idx as nat) is Some);
            let key: SecretKey = self.static_key(idx as u32).unwrap();
            let pubkey: PublicKey = key.public_key();
            let ghost before = res@;
            res.push(get_countersigner_payment_script(false, &pubkey));
            res.push(get_countersigner_payment_script(true, &pubkey));
            idx += 1;
            assert(rows(res@) =~= rows(before).push(
                countersigner_payment_script(false, pubkey@),
            ).push(countersigner_payment_script(true, pubkey@)));
        }
        res
    }

    /// [`Self::possible_v2_counterparty_closed_balance_spks`] where all keys of the set exist.
    pub fn try_possible_v2_counterparty_closed_balance_spks(&self) -> (r: Option<Vec<Vec<u8>>>)
        ensures
            r is Some <==> static_set_usable(self@),
            r matches Some(v) ==> rows(v@) == static_scripts(
                self@,
                STATIC_PAYMENT_KEY_COUNT as nat,
            ) && v@.len() == 2 * STATIC_PAYMENT_KEY_COUNT,
    {
        let mut idx: u16 = 0;
        while idx < STATIC_PAYMENT_KEY_COUNT
            invariant
                idx <= STATIC_PAYMENT_KEY_COUNT,
                forall|i: nat| i < idx ==> (#[trigger] static_payment_key(self@, i)) is Some,
            decreases STATIC_PAYMENT_KEY_COUNT - idx,
        {
            if self.static_key(idx as u32).is_none() {
                assert(static_payment_key(self@, idx as nat) is None);
                return None;
            }
            idx += 1;
        }
        Some(self.possible_v2_counterparty_closed_balance_spks())
    }

    fn derive_payment_key_v2(&self, key_idx: u64) -> (r: Option<SecretKey>)
        ensures
            match r {
                Some(k) => Some(k@),
                None => None,
            } == static_payment_key(self@, key_idx as nat % STATIC_PAYMENT_KEY_COUNT as nat),
    {
        let idx: u64 = key_idx % STATIC_PAYMENT_KEY_COUNT as u64;
        self.static_key(idx as u32)
    }

    /// A channel's keys, where all exist.
    fn derive_channel_secrets(&self, params: &[u8; 32]) -> (r: Option<ChannelSecrets>)
        ensures
            match (r, channel_secrets(self@, params@)) {
                (Some(c), Some(s)) => s == (SignerView {
                    funding_key: c.funding_key@,
                    revocation_base_key: c.revocation_base_key@,
                    payment_key_v1: c.payment_key_v1@,
                    payment_key_v2: c.payment_key_v2@,
                    v2_remote_key_derivation: self@.v2_remote_key_derivation,
                    delayed_payment_base_key: c.delayed_payment_base_key@,
                    htlc_base_key: c.htlc_base_key@,
                    commitment_seed: c.commitment_seed@,
                    channel_keys_id: params@,
                    entropy: RandomBytesView { seed: Seq::empty(), index: 0 },
                    taproot: None,
                }),
                (None, None) => true,
                _ => false,
            },
    {
        let chan_id: u64 = from_be(vstd::slice::slice_subrange(params.as_slice(), 0, 8));
        assert(params@.subrange(0, 8) =~= params@.take(8));
        let child: Xpriv = match self.channel_master_key.try_derive_hardened(
            (chan_id % HARDENED_INDEX_TOP as u64) as u32,
        ) {
            Some(c) => c,
            None => {
                return None;
            },
        };
        let mut unique_start: Vec<u8> = concat(params, &self.seed);
        append(&mut unique_start, &child.private_key.secret_bytes());
        let unique: [u8; 32] = sha256_of(unique_start.as_slice());
        let commitment_seed: [u8; 32] = sha256_of(
            concat(&unique, "commitment seed".as_bytes()).as_slice(),
        );
        let funding_key: SecretKey = match derive_key_step(
            &unique,
            &commitment_seed,
            "funding key",
        ) {
            Some(k) => k,
            None => {
                return None;
            },
        };
        let revocation_base_key: SecretKey = match derive_key_step(
            &unique,
            &funding_key.secret_bytes(),
            "revocation base key",
        ) {
            Some(k) => k,
            None => {
                return None;
            },
        };
        let payment_key_v1: SecretKey = match derive_key_step(
            &unique,
            &revocation_base_key.secret_bytes(),
            "payment key",
        ) {
            Some(k) => k,
            None => {
                return None;
            },
        };
        let delayed_payment_base_key: SecretKey = match derive_key_step(
            &unique,
            &payment_key_v1.secret_bytes(),
            "delayed payment base key",
        ) {
            Some(k) => k,
            None => {
                return None;
            },
        };
        let htlc_base_key: SecretKey = match derive_key_step(
            &unique,
            &delayed_payment_base_key.secret_bytes(),
            "HTLC base key",
        ) {
            Some(k) => k,
            None => {
                return None;
            },
        };
        let payment_key_v2_idx: u64 = from_le(
            vstd::slice::slice_subrange(commitment_seed.as_slice(), 0, 8),
        );
        assert(commitment_seed@.subrange(0, 8) =~= commitment_seed@.take(8));
        match self.derive_payment_key_v2(payment_key_v2_idx) {
            Some(payment_key_v2) => Some(
                ChannelSecrets {
                    funding_key,
                    revocation_base_key,
                    payment_key_v1,
                    payment_key_v2,
                    delayed_payment_base_key,
                    htlc_base_key,
                    commitment_seed,
                },
            ),
            None => None,
        }
    }

    /// Whether a channel's keys exist.
    pub(crate) fn has_channel_keys(&self, params: &[u8; 32]) -> (r: bool)
        ensures
            r == (channel_signer(self@, params@) is Some),
    {
        self.derive_channel_secrets(params).is_some()
    }

    /// Derive an old channel signer containing per-channel secrets based on a key derivation
    /// parameters.
    ///
    /// See [`Self::try_derive_channel_keys`] for parameters of which it is not known that the keys exist.
    pub fn derive_channel_keys(&mut self, params: &[u8; 32]) -> (r: InMemorySigner)
        requires
            channel_signer(old(self)@, params@) is Some,
        ensures
            Some(r@) == channel_signer(old(self)@, params@),
            final(self)@ == old(self)@.drawn(),
    {
        let secrets: ChannelSecrets = self.derive_channel_secrets(params).unwrap();
        let prng_seed: [u8; 32] = self.get_secure_random_bytes();
        InMemorySigner::new(
            secrets.funding_key,
            secrets.revocation_base_key,
            secrets.payment_key_v1,
            secrets.payment_key_v2,
            self.v2_remote_key_derivation,
            secrets.delayed_payment_base_key,
            secrets.htlc_base_key,
            secrets.commitment_seed,
            *params,
            prng_seed,
        )
    }

    /// [`Self::derive_channel_keys`] where the keys exist.
    pub fn try_derive_channel_keys(&mut self, params: &[u8; 32]) -> (r: Option<InMemorySigner>)
        ensures
            match channel_signer(old(self)@, params@) {
                Some(s) => r is Some && (r->0)@ == s && final(self)@ == old(self)@.drawn(),
                None => r is None && final(self)@ == old(self)@,
            },
    {
        if self.has_channel_keys(params) {
            Some(self.derive_channel_keys(params))
        } else {
            None
        }
    }

    pub(crate) fn seed_bytes(&self) -> (r: [u8; 32])
        ensures
            r@ == self@.seed,
    {
        self.seed
    }

    pub(crate) fn destination(&self) -> (r: Vec<u8>)
        ensures
            r@ == self@.destination_script,
    {
        copy_bytes(self.destination_script.as_slice())
    }
}

impl NodeSigner for KeysManager {
    fn get_expanded_key(&self) -> (r: ExpandedKey)
        ensures
            r.key_material@ == self@.inbound_payment_key,
            of_seed(self@),
    {
        proof {
            use_type_invariant(&*self);
        }
        self.inbound_payment_key
    }

    fn get_peer_storage_key(&self) -> (r: PeerStorageKey)
        ensures
            r.inner@ == self@.peer_storage_key,
            of_seed(self@),
    {
        proof {
            use_type_invariant(&*self);
        }
        self.peer_storage_key
    }

    fn get_receive_auth_key(&self) -> (r: ReceiveAuthKey)
        ensures
            r.0@ == self@.receive_auth_key,
            of_seed(self@),
    {
        proof {
            use_type_invariant(&*self);
        }
        self.receive_auth_key
    }

    fn get_node_id(&self, recipient: Recipient) -> (r: Result<PublicKey, ()>)
        ensures
            r is Ok <==> recipient == Recipient::Node,
            r matches Ok(id) ==> id@ == self@.node_id && id@ == public_of(self@.node_secret),
            of_seed(self@),
    {
        proof {
            use_type_invariant(&*self);
        }
        match recipient {
            Recipient::Node => Ok(self.node_id),
            Recipient::PhantomNode => Err(()),
        }
    }

    fn ecdh(&self, recipient: Recipient, other_key: &PublicKey, tweak: Option<&Scalar>) -> (r: Result<
        [u8; 32],
        (),
    >)
        ensures
            r is Ok ==> ecdh_is_shared(self@.node_secret, other_key@, tweak, (r->Ok_0)@),
            match tweaked_secret(self@.node_secret, tweak) {
                Some(secret) if recipient == Recipient::Node => r is Ok && (r->Ok_0)@
                    == shared_secret(other_key@, secret),
                _ => r is Err,
            },
    {
        match recipient {
            Recipient::Node => tweaked_ecdh(&self.node_secret, other_key, tweak),
            Recipient::PhantomNode => Err(()),
        }
    }

    fn sign_invoice(&self, signable_hash: &[u8; 32], recipient: Recipient) -> (r: Result<
        RecoverableSignature,
        (),
    >)
        ensures
            r is Ok <==> recipient == Recipient::Node,
            r matches Ok(s) ==> (s.recovery_id, s.compact@) == ecdsa_recoverable(
                signable_hash@,
                self@.node_secret,
            ),
    {
        match recipient {
            Recipient::Node => Ok(sign_ecdsa_recoverable(signable_hash, &self.node_secret)),
            Recipient::PhantomNode => Err(()),
        }
    }

    fn sign_bolt12_invoice(&mut self, tagged_hash: &[u8; 32]) -> (r: Result<SchnorrSignature, ()>)
        ensures
            r is Ok,
            (r->Ok_0)@ == schnorr_with_aux(
                tagged_hash@,
                old(self)@.node_secret,
                old(self)@.entropy.value(),
            ),
            schnorr_verifies(
                (r->Ok_0)@,
                tagged_hash@,
                x_only(public_of(old(self)@.node_secret)),
            ),
            final(self)@ == old(self)@.drawn(),
    {
        let aux_rand: [u8; 32] = self.get_secure_random_bytes();
        Ok(sign_schnorr_with_aux(tagged_hash, &self.node_secret, &aux_rand))
    }

    fn sign_gossip_message(&self, msg: &[u8]) -> (r: Result<Signature, ()>)
        ensures
            r is Ok,
            (r->Ok_0)@ == ecdsa(sha256d(msg@), self@.node_secret),
    {
        Ok(sign_ecdsa(&sha256d_of(msg), &self.node_secret))
    }

    fn sign_message(&self, msg: &[u8]) -> (r: Result<String, ()>)
        ensures
            r is Ok,
            (r->Ok_0)@ == message_signature(msg@, self@.node_secret),
    {
        Ok(sign_node_message(msg, &self.node_secret))
    }
}

/// A secret key multiplied by a tweak, if there is one.
pub open spec fn tweaked_secret(secret: Seq<u8>, tweak: Option<&Scalar>) -> Option<Seq<u8>> {
    match tweak {
        Some(t) => tweak_mul(secret, t@),
        None => Some(secret),
    }
}

/// What makes a secret shared: without a tweak, the holder of the other key reaches it from our point;
/// with one, it is that of the other key multiplied by the tweak.
pub open spec fn ecdh_is_shared(
    secret: Seq<u8>,
    other_key: Seq<u8>,
    tweak: Option<&Scalar>,
    shared: Seq<u8>,
) -> bool {
    match tweak {
        None => forall|j: Seq<u8>|
            #![trigger public_of(j)]
            valid_secret(j) && other_key == public_of(j) ==> shared == shared_secret(
                public_of(secret),
                j,
            ),
        Some(t) => shared == shared_secret(point_product(other_key, t@), secret),
    }
}

/// The shared secret of a point and a secret key multiplied by a tweak, if there is one.
pub(crate) fn tweaked_ecdh(secret: &SecretKey, other_key: &PublicKey, tweak: Option<&Scalar>) -> (r:
    Result<[u8; 32], ()>)
    ensures
        r is Ok ==> ecdh_is_shared(secret@, other_key@, tweak, (r->Ok_0)@),
        match tweaked_secret(secret@, tweak) {
            Some(s) => r is Ok && (r->Ok_0)@ == shared_secret(other_key@, s),
            None => r is Err,
        },
{
    match tweak {
        Some(t) => match secret.mul_tweak(t) {
            Some(s) => Ok(ecdh_secret(other_key, &s)),
            None => Err(()),
        },
        None => Ok(ecdh_secret(other_key, secret)),
    }
}

impl SignerProvider for KeysManager {
    type EcdsaSigner = InMemorySigner;

    type TaprootSigner = InMemorySigner;

    open spec fn has_channel_keys_id(&self) -> bool {
        self@.channel_child_index < u32::MAX
    }

    fn generate_channel_keys_id(&mut self, inbound: bool, user_channel_id: u128) -> (r: [u8; 32])
        ensures
            r@ == channel_keys_id(
                old(self)@.channel_child_index as u32,
                old(self)@.starting_time_nanos,
                old(self)@.starting_time_secs,
                user_channel_id,
            ),
            final(self)@ == (KeysManagerView {
                channel_child_index: (old(self)@.channel_child_index + 1) as u64,
                ..old(self)@
            }),
    {
        let child_idx: u64 = self.channel_child_index;
        proof {
            use_type_invariant(&*self);
        }
        self.channel_child_index = child_idx + 1;
        let mut id: Vec<u8> = to_be((child_idx as u32) as u128, 4);
        append(&mut id, to_be(self.starting_time_nanos as u128, 4).as_slice());
        append(&mut id, to_be(self.starting_time_secs as u128, 8).as_slice());
        append(&mut id, to_be(user_channel_id, 16).as_slice());
        proof {
            lemma_be_bytes_len(child_idx as nat, 4);
            lemma_be_bytes_len(self.starting_time_nanos as nat, 4);
            lemma_be_bytes_len(self.starting_time_secs as nat, 8);
            lemma_be_bytes_len(user_channel_id as nat, 16);
        }
        array32(id.as_slice())
    }

    fn derive_channel_signer(&mut self, channel_keys_id: [u8; 32]) -> (r: Option<InMemorySigner>)
        ensures
            match channel_signer(old(self)@, channel_keys_id@) {
                Some(s) => r is Some && (r->0)@ == s && final(self)@ == old(self)@.drawn(),
                None => r is None && final(self)@ == old(self)@,
            },
    {
        self.try_derive_channel_keys(&channel_keys_id)
    }

    fn derive_taproot_channel_signer(&mut self, channel_keys_id: [u8; 32]) -> (r: Option<
        InMemorySigner,
    >)
        ensures
            match channel_signer(old(self)@, channel_keys_id@) {
                Some(s) => r is Some && (r->0)@ == s && final(self)@ == old(self)@.drawn(),
                None => r is None && final(self)@ == old(self)@,
            },
    {
        self.try_derive_channel_keys(&channel_keys_id)
    }

    fn get_destination_script(&self, channel_keys_id: [u8; 32]) -> (r: Result<Vec<u8>, ()>)
        ensures
            r is Ok,
            (r->Ok_0)@ == self@.destination_script,
            (r->Ok_0)@ == p2wpkh(public_of((seed_child(self@.seed, 1)->0).key)),
            of_seed(self@),
    {
        proof {
            use_type_invariant(&*self);
        }
        Ok(self.destination())
    }

    fn get_shutdown_scriptpubkey(&self) -> (r: Result<ShutdownScript, ()>)
        ensures
            r is Ok,
            (r->Ok_0).script@ == p2wpkh(self@.shutdown_pubkey),
            (r->Ok_0).script@ == p2wpkh(public_of((seed_child(self@.seed, 2)->0).key)),
            of_seed(self@),
    {
        proof {
            use_type_invariant(&*self);
        }
        Ok(ShutdownScript { script: new_p2wpkh(&self.shutdown_pubkey) })
    }
}

/// No two channel identifiers of managers that differ in how many channels they had opened, or in when
/// they started, are the same, whatever the user's numbers.
pub proof fn channel_keys_ids_are_unique(
    a: (u32, u32, u64, u128),
    b: (u32, u32, u64, u128),
)
    requires
        channel_keys_id(a.0, a.1, a.2, a.3) == channel_keys_id(b.0, b.1, b.2, b.3),
    ensures
        a == b,
{
    let x = channel_keys_id(a.0, a.1, a.2, a.3);
    let y = channel_keys_id(b.0, b.1, b.2, b.3);
    lemma_be_bytes_len(a.0 as nat, 4);
    lemma_be_bytes_len(b.0 as nat, 4);
    lemma_be_bytes_len(a.1 as nat, 4);
    lemma_be_bytes_len(b.1 as nat, 4);
    lemma_be_bytes_len(a.2 as nat, 8);
    lemma_be_bytes_len(b.2 as nat, 8);
    lemma_be_bytes_len(a.3 as nat, 16);
    lemma_be_bytes_len(b.3 as nat, 16);
    assert(x.subrange(0, 4) =~= be_bytes(a.0 as nat, 4));
    assert(y.subrange(0, 4) =~= be_bytes(b.0 as nat, 4));
    assert(x.subrange(4, 8) =~= be_bytes(a.1 as nat, 4));
    assert(y.subrange(4, 8) =~= be_bytes(b.1 as nat, 4));
    assert(x.subrange(8, 16) =~= be_bytes(a.2 as nat, 8));
    assert(y.subrange(8, 16) =~= be_bytes(b.2 as nat, 8));
    assert(x.subrange(16, 32) =~= be_bytes(a.3 as nat, 16));
    assert(y.subrange(16, 32) =~= be_bytes(b.3 as nat, 16));
    lemma_byte_ranges();
    lemma_be_bytes_injective(a.0 as nat, b.0 as nat, 4);
    lemma_be_bytes_injective(a.1 as nat, b.1 as nat, 4);
    lemma_be_bytes_injective(a.2 as nat, b.2 as nat, 8);
    lemma_be_bytes_injective(a.3 as nat, b.3 as nat, 16);
}

proof fn lemma_be_nat_concat(a: Seq<u8>, b: Seq<u8>)
    ensures
        be_nat(a + b) == be_nat(a) * byte_range(b.len()) + be_nat(b),
    decreases b.len(),
{
    if b.len() == 0 {
        assert(a + b =~= a);
        assert(byte_range(0) == 1);
        assert(be_nat(a) * 1 == be_nat(a)) by (nonlinear_arith);
    } else {
        let n = byte_range((b.len() - 1) as nat);
        lemma_be_nat_concat(a, b.drop_last());
        assert((a + b).drop_last() =~= a + b.drop_last());
        assert((be_nat(a) * n + be_nat(b.drop_last())) * 256 == be_nat(a) * (256 * n) + be_nat(
            b.drop_last(),
        ) * 256) by (nonlinear_arith);
        assert((a + b).last() == b.last());
        assert(byte_range(b.len()) == 256 * n);
    }
}

proof fn lemma_low_bits(high: nat, low: nat)
    ensures
        (high * 0x1_0000_0000 + low) % 0x8000_0000 == low % 0x8000_0000,
{
    vstd::arithmetic::div_mod::lemma_mod_multiples_vanish(2 * high as int, low as int, 0x8000_0000);
}

/// Which child of the channel master key a channel uses rests on the second four bytes of its identifier
/// alone, of which the top bit is left out. In the identifiers that a manager gives out these are the
/// nanoseconds at which it started.
pub proof fn channel_child_is_in_the_identifier(
    params: Seq<u8>,
    id: (u32, u32, u64, u128),
)
    requires
        params.len() == 32,
    ensures
        channel_child(params) == be_nat(params.subrange(4, 8)) % 0x8000_0000,
        channel_child(channel_keys_id(id.0, id.1, id.2, id.3)) == id.1 as nat % 0x8000_0000,
{
    let made = channel_keys_id(id.0, id.1, id.2, id.3);
    lemma_be_bytes_len(id.0 as nat, 4);
    lemma_be_bytes_len(id.1 as nat, 4);
    lemma_be_bytes_len(id.2 as nat, 8);
    lemma_be_bytes_len(id.3 as nat, 16);
    lemma_byte_ranges();
    lemma_be_round_trip(id.1 as nat, 4);
    assert(made.subrange(4, 8) =~= be_bytes(id.1 as nat, 4));
    lemma_be_nat_concat(params.subrange(0, 4), params.subrange(4, 8));
    lemma_be_nat_concat(made.subrange(0, 4), made.subrange(4, 8));
    lemma_low_bits(be_nat(params.subrange(0, 4)), be_nat(params.subrange(4, 8)));
    lemma_low_bits(be_nat(made.subrange(0, 4)), be_nat(made.subrange(4, 8)));
    assert(params.take(8) =~= params.subrange(0, 4) + params.subrange(4, 8));
    assert(made.take(8) =~= made.subrange(0, 4) + made.subrange(4, 8));
}

/// A signer derived again from its identifier, at whatever time, has the keys it had: only the randomness
/// depends on when it is derived. A manager started anew from the seed derives the same keys.
pub proof fn channel_keys_are_rederived(a: KeysManagerView, b: KeysManagerView, params: Seq<u8>)
    requires
        of_seed(a),
        of_seed(b),
        a.seed == b.seed,
        a.v2_remote_key_derivation == b.v2_remote_key_derivation,
    ensures
        channel_secrets(a, params) == channel_secrets(b, params),
        channel_signer(a, params) is Some ==> channel_signer(b, params) is Some && (channel_signer(
            a,
            params,
        )->0).same_keys(channel_signer(b, params)->0),
{
}

/// The signer of a channel is of that channel, uses the payment key that the manager was told to, has one of the
/// manager's static payment keys as its new-style key, and starts its own randomness at the next block of the
/// manager's; it has no taproot context.
pub proof fn channel_signers_follow_the_manager(m: KeysManagerView, params: Seq<u8>)
    requires
        channel_signer(m, params) is Some,
    ensures
        ({
            let s = channel_signer(m, params)->0;
            &&& s.channel_keys_id == params
            &&& s.v2_remote_key_derivation == m.v2_remote_key_derivation
            &&& s.taproot is None
            &&& s.entropy.seed == chacha_block(m.entropy.seed, draw_nonce(m.entropy.index))
            &&& s.entropy.index == 0
            &&& exists|i: nat|
                i < STATIC_PAYMENT_KEY_COUNT && #[trigger] static_payment_key(m, i) == Some(
                    s.payment_key_v2,
                )
            &&& valid_secret(s.funding_key)
            &&& valid_secret(s.revocation_base_key)
            &&& valid_secret(s.payment_key_v1)
            &&& valid_secret(s.delayed_payment_base_key)
            &&& valid_secret(s.htlc_base_key)
        }),
{
    let s = channel_signer(m, params)->0;
    assert(static_payment_key(m, payment_key_index(s.commitment_seed)) == Some(s.payment_key_v2));
}

/// A channel's keys are a chain that starts at its identifier, the node's seed and the channel's child of the
/// master key: the commitment seed, then each key hashed from the one before it and its own label. They must
/// come out so in every run of the node, or what the channel holds is lost. The new-style payment key is the
/// member of the static set that the commitment seed's first eight bytes pick.
pub proof fn channel_keys_are_a_chain(m: KeysManagerView, params: Seq<u8>)
    requires
        params.len() == 32,
        channel_signer(m, params) is Some,
    ensures
        ({
            let s = channel_signer(m, params)->0;
            let child = hardened_child(
                m.channel_master_key,
                (be_nat(params.subrange(4, 8)) % 0x8000_0000) as u32,
            );
            let start = sha256(params + m.seed + (child->0).key);
            &&& child is Some
            &&& s.commitment_seed == sha256(start + text("commitment seed"))
            &&& s.funding_key == sha256(start + s.commitment_seed + text("funding key"))
            &&& s.revocation_base_key == sha256(
                start + s.funding_key + text("revocation base key"),
            )
            &&& s.payment_key_v1 == sha256(start + s.revocation_base_key + text("payment key"))
            &&& s.delayed_payment_base_key == sha256(
                start + s.payment_key_v1 + text("delayed payment base key"),
            )
            &&& s.htlc_base_key == sha256(
                start + s.delayed_payment_base_key + text("HTLC base key"),
            )
            &&& Some(s.payment_key_v2) == static_payment_key(
                m,
                le_nat(s.commitment_seed.take(8)) % 1000,
            )
        }),
{
    channel_child_is_in_the_identifier(params, (0, 0, 0, 0));
}

/// Where the script of every static payment key stands in the list.
proof fn lemma_static_scripts(m: KeysManagerView, n: nat, i: nat)
    requires
        i < n,
    ensures
        static_scripts(m, n).len() == 2 * n,
        static_scripts(m, n)[2 * i as int] == countersigner_payment_script(
            false,
            public_of(static_payment_key(m, i)->0),
        ),
        static_scripts(m, n)[2 * i as int + 1] == countersigner_payment_script(
            true,
            public_of(static_payment_key(m, i)->0),
        ),
    decreases n,
{
    lemma_static_scripts_len(m, (n - 1) as nat);
    if i < n - 1 {
        lemma_static_scripts(m, (n - 1) as nat, i);
    }
}

proof fn lemma_static_scripts_len(m: KeysManagerView, n: nat)
    ensures
        static_scripts(m, n).len() == 2 * n,
    decreases n,
{
    if n > 0 {
        lemma_static_scripts_len(m, (n - 1) as nat);
    }
}

/// Every script to which a channel's new-style payment key can be paid, with anchors or without, is in the
/// list that [`KeysManager::possible_v2_counterparty_closed_balance_spks`] gives.
pub proof fn v2_balances_are_listed(m: KeysManagerView, params: Seq<u8>, anchors: bool)
    requires
        channel_signer(m, params) is Some,
    ensures
        static_scripts(m, STATIC_PAYMENT_KEY_COUNT as nat).contains(
            countersigner_payment_script(
                anchors,
                public_of((channel_signer(m, params)->0).payment_key_v2),
            ),
        ),
{
    let s = channel_signer(m, params)->0;
    let index = payment_key_index(s.commitment_seed);
    lemma_static_scripts(m, STATIC_PAYMENT_KEY_COUNT as nat, index);
    let list = static_scripts(m, STATIC_PAYMENT_KEY_COUNT as nat);
    if anchors {
        assert(list[2 * index as int + 1] == countersigner_payment_script(
            anchors,
            public_of(s.payment_key_v2),
        ));
    } else {
        assert(list[2 * index as int] == countersigner_payment_script(
            anchors,
            public_of(s.payment_key_v2),
        ));
    }
}

} // verus!
