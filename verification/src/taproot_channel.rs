//! Signing a simple taproot channel's transactions: the funding output by MuSig2 key path, HTLC outputs
//! by script path.
use vstd::prelude::*;

use crate::bytes::text;
use crate::channel::{
    derive_private_key, derived_secret, ClosingTransaction, CommitmentTransaction,
    HTLCOutputInCommitment, HolderCommitmentTransaction, SignerError, TxCreationKeys,
};
use crate::curve::{
    lemma_point_len, public_of, schnorr, sign_schnorr, valid_secret, x_only, PublicKey,
    SchnorrSignature, SecretKey,
};
use crate::ecdsa::schnorr_signed;
use crate::htlc::{
    taproot_htlc_spend, taproot_htlc_spend_info, HTLCDescriptor, TaprootHtlcScripts,
};
use crate::nonce::{
    closing_height, closing_nonce_height, secnonce_seed, splice_height, splice_nonce_height,
    COUNTERPARTY_COMMITMENT_NONCE_TAG,
};
use crate::script::{new_p2tr, p2tr};
use crate::sighash::{
    tap_key_sighash, tap_single_leaf_sighash, taproot_key_spend_signature_hash,
    taproot_single_script_spend_signature_hash,
};
use crate::signer::{
    rotated_key, txid_view, ChannelSigner, InMemorySigner, SignerView, TaprootSignerContext,
};
use crate::taproot::{leaf_hash, tap_leaf_hash, TaprootSpend};
use crate::taproot_signer::{
    aggregated_xonly, channel_key_agg_ctx, context_is_shared, honest_partial, key_agg,
    key_path_partial, key_slot, local_pubnonce, musig_nonce, our_key_path_partial,
    our_key_path_partial_counterparty, slot_key, slots_are_complementary, KeyAggContext,
    KeyAggContextView, PartialSignature, PartialSignatureWithNonce, PubNonce,
};
use crate::tx::{outputs_view, Transaction, TransactionView, TxOut, TxOutView};

verus! {

/// The counterparty's second-level transaction of one HTLC of its commitment, and the leaves of the HTLC
/// output that it spends.
#[derive(Clone, Debug, PartialEq, Eq)]
pub struct TaprootHtlcSpend {
    pub htlc_tx: Transaction,
    pub scripts: TaprootHtlcScripts,
}

/// What key-path signing of a funding output works with: the key aggregate, both parties' slots, our
/// key, and the output's value and script.
pub struct TaprootScope {
    pub ctx: KeyAggContextView,
    pub ours: nat,
    pub theirs: nat,
    pub secret: Seq<u8>,
    pub value: u64,
    pub script: Seq<u8>,
}

/// The scope of the funding output whose key was rotated from the given transaction; refused without a
/// context, and where the two keys do not aggregate.
pub open spec fn taproot_scope(s: SignerView, parent: Option<Seq<u8>>) -> Result<
    TaprootScope,
    SignerError,
> {
    match s.taproot {
        None => Err(SignerError::Refused),
        Some(ctx) => match rotated_key(s.funding_key, parent) {
            None => Err(SignerError::DegenerateKey),
            Some(secret) => {
                let key = public_of(secret);
                match key_agg(key, ctx.counterparty_funding_pubkey@, key) {
                    Err(_) => Err(SignerError::Refused),
                    Ok((view, slot)) => Ok(
                        TaprootScope {
                            ctx: view,
                            ours: slot,
                            theirs: (1 - slot) as nat,
                            secret,
                            value: ctx.funding_value_sat,
                            script: p2tr(x_only(view.aggregate)),
                        },
                    ),
                }
            },
        },
    }
}

/// The scope of the funding output that the signer's context names.
pub open spec fn current_scope(s: SignerView) -> Result<TaprootScope, SignerError> {
    taproot_scope(
        s,
        match s.taproot {
            Some(ctx) => txid_view(ctx.splice_parent_funding_txid),
            None => None,
        },
    )
}

/// The key-path digest of a transaction whose only input spends the scope's funding output.
pub open spec fn funding_message(scope: TaprootScope, tx: TransactionView) -> Option<Seq<u8>> {
    if tx.input.len() == 1 {
        Some(
            tap_key_sighash(
                tx,
                0,
                seq![TxOutView { value: scope.value, script_pubkey: scope.script }],
            ),
        )
    } else {
        None
    }
}

/// Our partial signature of a message and the nonce it was made under, at a nonce seed. A bound nonce
/// depends on the message and the peer's nonce too.
pub open spec fn scope_partial(
    scope: TaprootScope,
    message: Option<Seq<u8>>,
    seed: Seq<u8>,
    bound: bool,
    counterparty_nonce: Seq<u8>,
) -> Result<(Seq<u8>, Seq<u8>), SignerError> {
    match message {
        None => Err(SignerError::Refused),
        Some(m) => match key_path_partial(
            scope.ctx,
            scope.ours,
            scope.theirs,
            scope.secret,
            seed,
            if bound {
                Some((m, counterparty_nonce))
            } else {
                None
            },
            counterparty_nonce,
            m,
        ) {
            Ok(p) => Ok(p),
            Err(_) => Err(SignerError::Refused),
        },
    }
}

/// Our partial signature of a transaction that spends the current funding output.
pub open spec fn funding_partial(
    s: SignerView,
    tx: TransactionView,
    domain: Seq<u8>,
    height: u64,
    bound: bool,
    counterparty_nonce: Seq<u8>,
) -> Result<(Seq<u8>, Seq<u8>), SignerError> {
    match current_scope(s) {
        Err(e) => Err(e),
        Ok(scope) => scope_partial(
            scope,
            funding_message(scope, tx),
            secnonce_seed(s.commitment_seed, domain, height),
            bound,
            counterparty_nonce,
        ),
    }
}

/// Our partial signature of a cooperative close, at the height of the close's round.
pub open spec fn closing_partial(s: SignerView, tx: TransactionView) -> Result<
    (Seq<u8>, Seq<u8>),
    SignerError,
> {
    match current_scope(s) {
        Err(e) => Err(e),
        Ok(_) => match (s.taproot->0).counterparty_closing_nonce {
            None => Err(SignerError::Refused),
            Some(nonce) => funding_partial(
                s,
                tx,
                Seq::empty(),
                closing_height((s.taproot->0).closing_round),
                false,
                nonce@,
            ),
        },
    }
}

/// Our partial signature of the shared input of a splice, with the base funding key, over all that the
/// transaction spends.
pub open spec fn splice_partial(
    s: SignerView,
    tx: TransactionView,
    index: nat,
    prevouts: Seq<TxOutView>,
    counterparty_nonce: Seq<u8>,
    prev_funding_txid: Seq<u8>,
) -> Result<(Seq<u8>, Seq<u8>), SignerError> {
    match taproot_scope(s, None) {
        Err(e) => Err(e),
        Ok(scope) => scope_partial(
            scope,
            if prevouts.len() == tx.input.len() {
                Some(tap_key_sighash(tx, index, prevouts))
            } else {
                None
            },
            secnonce_seed(s.commitment_seed, Seq::empty(), splice_height(prev_funding_txid) as u64),
            false,
            counterparty_nonce,
        ),
    }
}

/// Our public nonce at a height, in a scope.
pub open spec fn scope_nonce(s: SignerView, scope: TaprootScope, height: u64) -> Seq<u8> {
    musig_nonce(
        scope.ctx.lo,
        scope.ctx.hi,
        secnonce_seed(s.commitment_seed, Seq::empty(), height),
        scope.ours,
        None,
    )
}

/// What is signed to claim a taproot HTLC output of a commitment that the holder broadcast, by the leaf
/// that both parties sign.
pub open spec fn holder_htlc_signing(
    s: SignerView,
    tx: TransactionView,
    input: nat,
    d: HTLCDescriptor,
    scripts: TaprootHtlcScripts,
) -> Result<(Seq<u8>, Seq<u8>), SignerError> {
    match (
        d.taproot_script_pubkey(scripts),
        derived_secret(s.htlc_base_key, d.per_commitment_point@),
    ) {
        (Some(script_pubkey), Some(key)) => if input < tx.input.len() && input < tx.output.len() {
            Ok(
                (
                    tap_single_leaf_sighash(
                        tx,
                        input,
                        TxOutView { value: d.htlc.value_satoshis(), script_pubkey },
                        tap_leaf_hash(scripts.two_party(d.htlc)),
                    ),
                    key,
                ),
            )
        } else {
            Err(SignerError::Refused)
        },
        _ => Err(SignerError::DegenerateKey),
    }
}

/// What is signed to let the counterparty claim one HTLC of its commitment: its second-level transaction,
/// by the leaf that both parties sign.
pub open spec fn htlc_spend_digest(
    keys: TxCreationKeys,
    htlc: HTLCOutputInCommitment,
    spend: TaprootHtlcSpend,
) -> Result<Seq<u8>, SignerError> {
    match taproot_htlc_spend(keys.revocation_key@, htlc, spend.scripts) {
        None => Err(SignerError::DegenerateKey),
        Some((key, _)) => if spend.htlc_tx@.input.len() > 0 && spend.htlc_tx@.output.len() > 0 {
            Ok(
                tap_single_leaf_sighash(
                    spend.htlc_tx@,
                    0,
                    TxOutView { value: htlc.value_satoshis(), script_pubkey: p2tr(key) },
                    tap_leaf_hash(spend.scripts.two_party(htlc)),
                ),
            )
        } else {
            Err(SignerError::Refused)
        },
    }
}

/// The signatures of the HTLCs of a counterparty's commitment with our key at that commitment, or why the
/// first one that cannot be signed cannot.
pub open spec fn htlc_signatures(
    key: Option<Seq<u8>>,
    keys: TxCreationKeys,
    htlcs: Seq<HTLCOutputInCommitment>,
    spends: Seq<TaprootHtlcSpend>,
) -> Result<Seq<Seq<u8>>, SignerError>
    decreases spends.len(),
{
    if spends.len() == 0 {
        Ok(Seq::empty())
    } else {
        match htlc_signatures(key, keys, htlcs, spends.drop_last()) {
            Err(e) => Err(e),
            Ok(signatures) => match (
                key,
                htlc_spend_digest(keys, htlcs[spends.len() - 1], spends.last()),
            ) {
                (None, _) => Err(SignerError::DegenerateKey),
                (_, Err(e)) => Err(e),
                (Some(k), Ok(digest)) => Ok(signatures.push(schnorr(digest, k))),
            },
        }
    }
}

/// The bytes of a list of signatures.
pub open spec fn signatures_view(v: Seq<SchnorrSignature>) -> Seq<Seq<u8>> {
    v.map_values(|s: SchnorrSignature| s@)
}

/// A failure to sign a prefix is a failure to sign the whole.
proof fn lemma_htlc_signatures_prefix(
    key: Option<Seq<u8>>,
    keys: TxCreationKeys,
    htlcs: Seq<HTLCOutputInCommitment>,
    spends: Seq<TaprootHtlcSpend>,
    i: int,
)
    requires
        0 <= i <= spends.len(),
        htlc_signatures(key, keys, htlcs, spends.take(i)) is Err,
    ensures
        htlc_signatures(key, keys, htlcs, spends) == htlc_signatures(
            key,
            keys,
            htlcs,
            spends.take(i),
        ),
    decreases spends.len(),
{
    if i < spends.len() {
        assert(spends.drop_last().take(i) =~= spends.take(i));
        lemma_htlc_signatures_prefix(key, keys, htlcs, spends.drop_last(), i);
    } else {
        assert(spends.take(i) =~= spends);
    }
}

/// Each HTLC of a counterparty's commitment has a signature of its own, in order: of its own second-level
/// transaction, with our key at that commitment.
pub proof fn each_htlc_has_its_signature(
    key: Option<Seq<u8>>,
    keys: TxCreationKeys,
    htlcs: Seq<HTLCOutputInCommitment>,
    spends: Seq<TaprootHtlcSpend>,
)
    requires
        htlcs.len() == spends.len(),
    ensures
        htlc_signatures(key, keys, htlcs, spends) matches Ok(signatures) ==> {
            &&& signatures.len() == htlcs.len()
            &&& forall|i: int|
                0 <= i < htlcs.len() ==> key is Some && htlc_spend_digest(keys, htlcs[i], spends[i])
                    is Ok && #[trigger] signatures[i] == schnorr(
                    htlc_spend_digest(keys, htlcs[i], spends[i])->Ok_0,
                    key->0,
                )
        },
        htlc_signatures(key, keys, htlcs, spends) is Ok <==> (htlcs.len() == 0 || key is Some)
            && forall|i: int|
            0 <= i < htlcs.len() ==> htlc_spend_digest(keys, htlcs[i], #[trigger] spends[i]) is Ok,
{
    lemma_htlc_signatures(key, keys, htlcs, spends);
}

proof fn lemma_htlc_signatures(
    key: Option<Seq<u8>>,
    keys: TxCreationKeys,
    htlcs: Seq<HTLCOutputInCommitment>,
    spends: Seq<TaprootHtlcSpend>,
)
    requires
        htlcs.len() >= spends.len(),
    ensures
        htlc_signatures(key, keys, htlcs, spends) matches Ok(signatures) ==> {
            &&& signatures.len() == spends.len()
            &&& forall|i: int|
                0 <= i < spends.len() ==> key is Some && htlc_spend_digest(
                    keys,
                    htlcs[i],
                    spends[i],
                ) is Ok && #[trigger] signatures[i] == schnorr(
                    htlc_spend_digest(keys, htlcs[i], spends[i])->Ok_0,
                    key->0,
                )
        },
        htlc_signatures(key, keys, htlcs, spends) is Ok <==> (spends.len() == 0 || key is Some)
            && forall|i: int|
            0 <= i < spends.len() ==> htlc_spend_digest(keys, htlcs[i], #[trigger] spends[i]) is Ok,
    decreases spends.len(),
{
    if spends.len() > 0 {
        let before = spends.drop_last();
        lemma_htlc_signatures(key, keys, htlcs, before);
        assert(forall|i: int| 0 <= i < before.len() ==> #[trigger] before[i] == spends[i]);
        assert(spends.last() == spends[spends.len() - 1]);
        if htlc_signatures(key, keys, htlcs, spends) is Ok {
            assert forall|i: int| 0 <= i < spends.len() implies htlc_spend_digest(
                keys,
                htlcs[i],
                #[trigger] spends[i],
            ) is Ok by {
                if i < before.len() {
                    assert(before[i] == spends[i]);
                }
            }
        }
    }
}

/// A trait to sign a simple taproot channel's transactions.
pub trait TaprootChannelSigner: ChannelSigner {
    /// Supplies what key-path signing needs beyond the arguments of the signing methods.
    fn provide_taproot_context(&mut self, ctx: TaprootSignerContext);

    /// Our public nonce for a commitment number, where the context has been supplied.
    fn generate_local_nonce_pair(&self, commitment_number: u64) -> Result<PubNonce, SignerError>;

    /// Our partial signature of a counterparty's commitment transaction with its nonce, and a signature
    /// for each of its HTLCs.
    fn partially_sign_counterparty_commitment(
        &self,
        counterparty_nonce: PubNonce,
        commitment_tx: &CommitmentTransaction,
        inbound_htlc_preimages: Vec<[u8; 32]>,
        outbound_htlc_preimages: Vec<[u8; 32]>,
        htlc_spends: &[TaprootHtlcSpend],
    ) -> Result<(PartialSignatureWithNonce, Vec<SchnorrSignature>), SignerError>
        requires
            htlc_spends@.len() == commitment_tx.nondust_htlcs@.len(),
    ;

    /// Our partial signature of the holder's commitment transaction.
    fn finalize_holder_commitment(
        &self,
        commitment_tx: &HolderCommitmentTransaction,
        counterparty_partial_signature: PartialSignatureWithNonce,
    ) -> Result<PartialSignature, SignerError>;

    /// A signature for the given input in a transaction spending a revoked `to_local` output.
    fn sign_justice_revoked_output(
        &self,
        justice_tx: &Transaction,
        input: usize,
        amount: u64,
        per_commitment_key: &SecretKey,
    ) -> Result<SchnorrSignature, SignerError>;

    /// A signature for the given input in a transaction spending a revoked HTLC output.
    fn sign_justice_revoked_htlc(
        &self,
        justice_tx: &Transaction,
        input: usize,
        amount: u64,
        per_commitment_key: &SecretKey,
        htlc: &HTLCOutputInCommitment,
    ) -> Result<SchnorrSignature, SignerError>;

    /// A signature for the second-level transaction of an HTLC of the holder's commitment.
    fn sign_holder_htlc_transaction(
        &self,
        htlc_tx: &Transaction,
        input: usize,
        htlc_descriptor: &HTLCDescriptor,
        htlc_scripts: &TaprootHtlcScripts,
    ) -> Result<SchnorrSignature, SignerError>
        requires
            htlc_descriptor.params().counterparty_parameters is Some,
    ;

    /// A signature for a transaction that claims an HTLC output of a counterparty's commitment.
    fn sign_counterparty_htlc_transaction(
        &self,
        htlc_tx: &Transaction,
        input: usize,
        amount: u64,
        per_commitment_point: &PublicKey,
        htlc: &HTLCOutputInCommitment,
    ) -> Result<SchnorrSignature, SignerError>;

    /// Our partial signature of a cooperative close.
    fn partially_sign_closing_transaction(&self, closing_tx: &ClosingTransaction) -> Result<
        PartialSignature,
        SignerError,
    >;

    /// Our public nonce for the splice that spends a funding transaction.
    fn generate_splice_nonce(&self, prev_funding_txid: &[u8; 32]) -> Option<PubNonce>;

    /// Our partial signature of the shared input of a splice, with its nonce.
    fn partially_sign_splice_shared_input(
        &self,
        tx: &Transaction,
        input_index: usize,
        all_prevouts: &[TxOut],
        counterparty_nonce: PubNonce,
        prev_funding_txid: &[u8; 32],
    ) -> Result<(PartialSignature, PubNonce), SignerError>;
}

/// What [`InMemorySigner::taproot_key_agg`] gives.
struct KeyAgg {
    ctx: KeyAggContext,
    our_index: usize,
    counterparty_index: usize,
    secret: SecretKey,
    funding: TxOut,
}

impl KeyAgg {
    spec fn is_scope(self, scope: TaprootScope) -> bool {
        &&& self.ctx@ == scope.ctx
        &&& self.our_index == scope.ours
        &&& self.counterparty_index == scope.theirs
        &&& scope.ours < 2
        &&& self.secret@ == scope.secret
        &&& self.funding@ == (TxOutView { value: scope.value, script_pubkey: scope.script })
    }

    /// The key-path digest of a transaction whose only input spends the funding output.
    fn message(&self, tx: &Transaction, Ghost(scope): Ghost<TaprootScope>) -> (r: Option<[u8; 32]>)
        requires
            self.is_scope(scope),
        ensures
            match r {
                Some(m) => Some(m@),
                None => None,
            } == funding_message(scope, tx@),
    {
        let mut prevouts: Vec<TxOut> = Vec::new();
        prevouts.push(self.funding.copy());
        assert(outputs_view(prevouts@) =~= seq![
            TxOutView { value: scope.value, script_pubkey: scope.script },
        ]);
        taproot_key_spend_signature_hash(tx, 0, prevouts.as_slice())
    }
}

impl InMemorySigner {
    /// The transaction that the funding key of the current taproot context was rotated from, if
    /// it was.
    fn taproot_parent_txid(&self) -> (r: Option<[u8; 32]>)
        ensures
            txid_view(r) == match self@.taproot {
                Some(ctx) => txid_view(ctx.splice_parent_funding_txid),
                None => None,
            },
    {
        match self.taproot_context() {
            Some(ctx) => ctx.splice_parent_funding_txid,
            None => None,
        }
    }

    /// Sorts and aggregates the funding keys of the scope whose key was rotated from the given
    /// transaction, and gives our slot and the counterparty's, our key, and the funding output.
    fn taproot_key_agg(&self, parent: Option<[u8; 32]>) -> (r: Result<KeyAgg, SignerError>)
        ensures
            match (r, taproot_scope(self@, txid_view(parent))) {
                (Ok(k), Ok(scope)) => k.is_scope(scope),
                (Err(e), Err(f)) => e == f,
                _ => false,
            },
    {
        let ctx: TaprootSignerContext = match self.taproot_context() {
            Some(c) => c,
            None => {
                return Err(SignerError::Refused);
            },
        };
        let secret: SecretKey = match self.try_funding_key(parent) {
            Some(k) => k,
            None => {
                return Err(SignerError::DegenerateKey);
            },
        };
        let holder: [u8; 33] = secret.public_key().serialize();
        let cp: [u8; 33] = ctx.counterparty_funding_pubkey.serialize();
        match channel_key_agg_ctx(&holder, &cp, &holder) {
            Ok((key_agg, our_index)) => {
                let q: [u8; 32] = aggregated_xonly(&key_agg);
                let funding = TxOut { value: ctx.funding_value_sat, script_pubkey: new_p2tr(&q) };
                Ok(
                    KeyAgg {
                        ctx: key_agg,
                        our_index,
                        counterparty_index: 1 - our_index,
                        secret,
                        funding,
                    },
                )
            },
            Err(_) => Err(SignerError::Refused),
        }
    }

    /// Our partial signature of a transaction that spends the current funding output, under the holder's
    /// nonce at a height.
    fn holder_partial(&self, tx: &Transaction, height: u64, counterparty_nonce: PubNonce) -> (r:
        Result<(PartialSignature, PubNonce), SignerError>)
        ensures
            match (
                r,
                funding_partial(
                    self@,
                    tx@,
                    Seq::empty(),
                    height,
                    false,
                    counterparty_nonce@,
                ),
            ) {
                (Ok((p, n)), Ok((partial, nonce))) => p@ == partial && n@ == nonce,
                (Err(e), Err(f)) => e == f,
                _ => false,
            },
    {
        let agg: KeyAgg = match self.taproot_key_agg(self.taproot_parent_txid()) {
            Ok(a) => a,
            Err(e) => {
                return Err(e);
            },
        };
        let ghost scope = current_scope(self@)->Ok_0;
        match agg.message(tx, Ghost(scope)) {
            Some(message) => match our_key_path_partial(
                agg.ctx,
                agg.our_index,
                agg.counterparty_index,
                agg.secret,
                &self.commitment_seed(),
                height,
                counterparty_nonce,
                message,
            ) {
                Ok(p) => Ok(p),
                Err(_) => Err(SignerError::Refused),
            },
            None => Err(SignerError::Refused),
        }
    }

    /// The signature of one HTLC of a counterparty's commitment.
    fn sign_htlc_spend(
        &self,
        keys: &TxCreationKeys,
        htlc: &HTLCOutputInCommitment,
        spend: &TaprootHtlcSpend,
    ) -> (r: Result<SchnorrSignature, SignerError>)
        ensures
            match (
                derived_secret(self@.htlc_base_key, keys.per_commitment_point@),
                htlc_spend_digest(*keys, *htlc, *spend),
            ) {
                (None, _) => r == Err::<SchnorrSignature, SignerError>(SignerError::DegenerateKey),
                (_, Err(e)) => r == Err::<SchnorrSignature, SignerError>(e),
                (Some(k), Ok(digest)) => r is Ok && (r->Ok_0)@ == schnorr(digest, k),
            },
    {
        let key: SecretKey = match derive_private_key(
            &keys.per_commitment_point,
            &self.htlc_base_key(),
        ) {
            Some(k) => k,
            None => {
                return Err(SignerError::DegenerateKey);
            },
        };
        let info: TaprootSpend = match taproot_htlc_spend_info(
            &keys.revocation_key,
            htlc,
            &spend.scripts,
        ) {
            Some(s) => s,
            None => {
                return Err(SignerError::DegenerateKey);
            },
        };
        let prevout = TxOut {
            value: htlc.to_bitcoin_amount(),
            script_pubkey: new_p2tr(&info.output_key),
        };
        match taproot_single_script_spend_signature_hash(
            &spend.htlc_tx,
            0,
            &prevout,
            &leaf_hash(spend.scripts.two_party_leaf(htlc)),
        ) {
            Some(digest) => Ok(sign_schnorr(&digest, &key)),
            None => Err(SignerError::Refused),
        }
    }

    /// The signatures of all HTLCs of a counterparty's commitment.
    fn sign_htlc_spends(&self, commitment_tx: &CommitmentTransaction, spends: &[TaprootHtlcSpend])
        -> (r: Result<Vec<SchnorrSignature>, SignerError>)
        requires
            spends@.len() == commitment_tx.nondust_htlcs@.len(),
        ensures
            match (
                r,
                htlc_signatures(
                    derived_secret(
                        self@.htlc_base_key,
                        commitment_tx.keys.per_commitment_point@,
                    ),
                    commitment_tx.keys,
                    commitment_tx.nondust_htlcs@,
                    spends@,
                ),
            ) {
                (Ok(v), Ok(signatures)) => signatures_view(v@) == signatures,
                (Err(e), Err(f)) => e == f,
                _ => false,
            },
    {
        let ghost key = derived_secret(
            self@.htlc_base_key,
            commitment_tx.keys.per_commitment_point@,
        );
        let ghost keys = commitment_tx.keys;
        let ghost htlcs = commitment_tx.nondust_htlcs@;
        let mut sigs: Vec<SchnorrSignature> = Vec::new();
        let mut i: usize = 0;
        assert(signatures_view(sigs@) =~= Seq::empty());
        while i < spends.len()
            invariant
                i <= spends@.len(),
                spends@.len() == htlcs.len(),
                htlcs == commitment_tx.nondust_htlcs@,
                keys == commitment_tx.keys,
                key == derived_secret(self@.htlc_base_key, keys.per_commitment_point@),
                htlc_signatures(key, keys, htlcs, spends@.take(i as int)) == Ok::<
                    Seq<Seq<u8>>,
                    SignerError,
                >(signatures_view(sigs@)),
            decreases spends@.len() - i,
        {
            proof {
                assert(spends@.take(i + 1).drop_last() =~= spends@.take(i as int));
                assert(spends@.take(i + 1).last() == spends@[i as int]);
            }
            match self.sign_htlc_spend(
                &commitment_tx.keys,
                &commitment_tx.nondust_htlcs[i],
                &spends[i],
            ) {
                Ok(sig) => {
                    let ghost was = sigs@;
                    sigs.push(sig);
                    assert(signatures_view(sigs@) =~= signatures_view(was).push(sig@));
                },
                Err(e) => {
                    proof {
                        lemma_htlc_signatures_prefix(key, keys, htlcs, spends@, i + 1);
                    }
                    return Err(e);
                },
            }
            i += 1;
        }
        assert(spends@.take(i as int) =~= spends@);
        Ok(sigs)
    }
}

impl TaprootChannelSigner for InMemorySigner {
    fn provide_taproot_context(&mut self, ctx: TaprootSignerContext)
        ensures
            final(self)@ == (SignerView { taproot: Some(ctx), ..old(self)@ }),
    {
        InMemorySigner::provide_taproot_context(self, ctx)
    }

    fn generate_local_nonce_pair(&self, commitment_number: u64) -> (r: Result<PubNonce, SignerError>)
        ensures
            match (r, current_scope(self@)) {
                (Ok(n), Ok(scope)) => n@ == scope_nonce(self@, scope, commitment_number),
                (Err(e), Err(f)) => e == f,
                _ => false,
            },
    {
        match self.taproot_key_agg(self.taproot_parent_txid()) {
            Ok(agg) => match local_pubnonce(
                agg.ctx,
                agg.our_index,
                &self.commitment_seed(),
                commitment_number,
            ) {
                Ok(n) => Ok(n),
                Err(_) => Err(SignerError::Refused),
            },
            Err(e) => Err(e),
        }
    }

    fn partially_sign_counterparty_commitment(
        &self,
        counterparty_nonce: PubNonce,
        commitment_tx: &CommitmentTransaction,
        inbound_htlc_preimages: Vec<[u8; 32]>,
        outbound_htlc_preimages: Vec<[u8; 32]>,
        htlc_spends: &[TaprootHtlcSpend],
    ) -> (r: Result<(PartialSignatureWithNonce, Vec<SchnorrSignature>), SignerError>)
        ensures
            match funding_partial(
                self@,
                commitment_tx.built.transaction@,
                text(COUNTERPARTY_COMMITMENT_NONCE_TAG),
                commitment_tx.commitment_number,
                true,
                counterparty_nonce@,
            ) {
                Err(e) => r == Err::<
                    (PartialSignatureWithNonce, Vec<SchnorrSignature>),
                    SignerError,
                >(e),
                Ok((partial, nonce)) => match (
                    r,
                    htlc_signatures(
                        derived_secret(
                            self@.htlc_base_key,
                            commitment_tx.keys.per_commitment_point@,
                        ),
                        commitment_tx.keys,
                        commitment_tx.nondust_htlcs@,
                        htlc_spends@,
                    ),
                ) {
                    (Ok((p, sigs)), Ok(signatures)) => p.0@ == partial && p.1@ == nonce
                        && signatures_view(sigs@) == signatures,
                    (Err(e), Err(f)) => e == f,
                    _ => false,
                },
            },
    {
        let agg: KeyAgg = match self.taproot_key_agg(self.taproot_parent_txid()) {
            Ok(a) => a,
            Err(e) => {
                return Err(e);
            },
        };
        let ghost scope = current_scope(self@)->Ok_0;
        let message: [u8; 32] = match agg.message(
            &commitment_tx.built.transaction,
            Ghost(scope),
        ) {
            Some(m) => m,
            None => {
                return Err(SignerError::Refused);
            },
        };
        match our_key_path_partial_counterparty(
            agg.ctx,
            agg.our_index,
            agg.counterparty_index,
            agg.secret,
            &self.commitment_seed(),
            commitment_tx.commitment_number,
            counterparty_nonce,
            message,
        ) {
            Ok((partial, our_pubnonce)) => match self.sign_htlc_spends(commitment_tx, htlc_spends) {
                Ok(sigs) => Ok((PartialSignatureWithNonce(partial, our_pubnonce), sigs)),
                Err(e) => Err(e),
            },
            Err(_) => Err(SignerError::Refused),
        }
    }

    fn finalize_holder_commitment(
        &self,
        commitment_tx: &HolderCommitmentTransaction,
        counterparty_partial_signature: PartialSignatureWithNonce,
    ) -> (r: Result<PartialSignature, SignerError>)
        ensures
            match funding_partial(
                self@,
                commitment_tx.inner.built.transaction@,
                Seq::empty(),
                commitment_tx.inner.commitment_number,
                false,
                counterparty_partial_signature.1@,
            ) {
                Ok((partial, _)) => r is Ok && (r->Ok_0)@ == partial,
                Err(e) => r == Err::<PartialSignature, SignerError>(e),
            },
    {
        match self.holder_partial(
            &commitment_tx.inner.built.transaction,
            commitment_tx.inner.commitment_number,
            counterparty_partial_signature.1,
        ) {
            Ok((partial, _)) => Ok(partial),
            Err(e) => Err(e),
        }
    }

    fn sign_justice_revoked_output(
        &self,
        justice_tx: &Transaction,
        input: usize,
        amount: u64,
        per_commitment_key: &SecretKey,
    ) -> (r: Result<SchnorrSignature, SignerError>)
        ensures
            r == Err::<SchnorrSignature, SignerError>(SignerError::Refused),
    {
        // The revocation leaf names the counterparty's delayed key, which is not among the arguments.
        Err(SignerError::Refused)
    }

    fn sign_justice_revoked_htlc(
        &self,
        justice_tx: &Transaction,
        input: usize,
        amount: u64,
        per_commitment_key: &SecretKey,
        htlc: &HTLCOutputInCommitment,
    ) -> (r: Result<SchnorrSignature, SignerError>)
        ensures
            r == Err::<SchnorrSignature, SignerError>(SignerError::Refused),
    {
        // The output's script commits to both parties' HTLC keys, which are not among the arguments.
        Err(SignerError::Refused)
    }

    fn sign_holder_htlc_transaction(
        &self,
        htlc_tx: &Transaction,
        input: usize,
        htlc_descriptor: &HTLCDescriptor,
        htlc_scripts: &TaprootHtlcScripts,
    ) -> (r: Result<SchnorrSignature, SignerError>)
        ensures
            schnorr_signed(
                r,
                holder_htlc_signing(
                    self@,
                    htlc_tx@,
                    input as nat,
                    *htlc_descriptor,
                    *htlc_scripts,
                ),
            ),
    {
        let keys: TxCreationKeys = match htlc_descriptor.tx_creation_keys() {
            Some(k) => k,
            None => {
                return Err(SignerError::DegenerateKey);
            },
        };
        let spend: TaprootSpend = match taproot_htlc_spend_info(
            &keys.revocation_key,
            &htlc_descriptor.htlc,
            htlc_scripts,
        ) {
            Some(s) => s,
            None => {
                return Err(SignerError::DegenerateKey);
            },
        };
        let prevout = TxOut {
            value: htlc_descriptor.htlc.to_bitcoin_amount(),
            script_pubkey: new_p2tr(&spend.output_key),
        };
        let key: SecretKey = match derive_private_key(
            &htlc_descriptor.per_commitment_point,
            &self.htlc_base_key(),
        ) {
            Some(k) => k,
            None => {
                return Err(SignerError::DegenerateKey);
            },
        };
        match taproot_single_script_spend_signature_hash(
            htlc_tx,
            input,
            &prevout,
            &leaf_hash(htlc_scripts.two_party_leaf(&htlc_descriptor.htlc)),
        ) {
            Some(digest) => Ok(sign_schnorr(&digest, &key)),
            None => Err(SignerError::Refused),
        }
    }

    fn sign_counterparty_htlc_transaction(
        &self,
        htlc_tx: &Transaction,
        input: usize,
        amount: u64,
        per_commitment_point: &PublicKey,
        htlc: &HTLCOutputInCommitment,
    ) -> (r: Result<SchnorrSignature, SignerError>)
        ensures
            r == Err::<SchnorrSignature, SignerError>(SignerError::Refused),
    {
        // The leaf names both parties' HTLC keys, which are not among the arguments.
        Err(SignerError::Refused)
    }

    fn partially_sign_closing_transaction(&self, closing_tx: &ClosingTransaction) -> (r: Result<
        PartialSignature,
        SignerError,
    >)
        ensures
            match closing_partial(self@, closing_tx.built@) {
                Ok((partial, _)) => r is Ok && (r->Ok_0)@ == partial,
                Err(e) => r == Err::<PartialSignature, SignerError>(e),
            },
    {
        if let Err(e) = self.taproot_key_agg(self.taproot_parent_txid()) {
            return Err(e);
        }
        match self.taproot_context() {
            Some(ctx) => match ctx.counterparty_closing_nonce {
                Some(nonce) => match self.holder_partial(
                    &closing_tx.built,
                    closing_nonce_height(ctx.closing_round),
                    nonce,
                ) {
                    Ok((partial, _)) => Ok(partial),
                    Err(e) => Err(e),
                },
                None => Err(SignerError::Refused),
            },
            None => Err(SignerError::Refused),
        }
    }

    fn generate_splice_nonce(&self, prev_funding_txid: &[u8; 32]) -> (r: Option<PubNonce>)
        ensures
            match (r, taproot_scope(self@, None)) {
                (Some(n), Ok(scope)) => n@ == scope_nonce(
                    self@,
                    scope,
                    splice_height(prev_funding_txid@) as u64,
                ),
                (None, Err(_)) => true,
                _ => false,
            },
    {
        match self.taproot_key_agg(None) {
            Ok(agg) => match local_pubnonce(
                agg.ctx,
                agg.our_index,
                &self.commitment_seed(),
                splice_nonce_height(prev_funding_txid),
            ) {
                Ok(n) => Some(n),
                Err(_) => None,
            },
            Err(_) => None,
        }
    }

    fn partially_sign_splice_shared_input(
        &self,
        tx: &Transaction,
        input_index: usize,
        all_prevouts: &[TxOut],
        counterparty_nonce: PubNonce,
        prev_funding_txid: &[u8; 32],
    ) -> (r: Result<(PartialSignature, PubNonce), SignerError>)
        ensures
            match (
                r,
                splice_partial(
                    self@,
                    tx@,
                    input_index as nat,
                    outputs_view(all_prevouts@),
                    counterparty_nonce@,
                    prev_funding_txid@,
                ),
            ) {
                (Ok((p, n)), Ok((partial, nonce))) => p@ == partial && n@ == nonce,
                (Err(e), Err(f)) => e == f,
                _ => false,
            },
    {
        let agg: KeyAgg = match self.taproot_key_agg(None) {
            Ok(a) => a,
            Err(e) => {
                return Err(e);
            },
        };
        match taproot_key_spend_signature_hash(tx, input_index, all_prevouts) {
            Some(message) => match our_key_path_partial(
                agg.ctx,
                agg.our_index,
                agg.counterparty_index,
                agg.secret,
                &self.commitment_seed(),
                splice_nonce_height(prev_funding_txid),
                counterparty_nonce,
                message,
            ) {
                Ok(p) => Ok(p),
                Err(_) => Err(SignerError::Refused),
            },
            None => Err(SignerError::Refused),
        }
    }
}

/// The nonce advertised for a commitment number is the nonce that the holder's partial signature of that
/// commitment is made under.
pub proof fn advertised_nonce_is_signed_with(
    s: SignerView,
    tx: TransactionView,
    commitment_number: u64,
    counterparty_nonce: Seq<u8>,
)
    requires
        funding_partial(s, tx, Seq::empty(), commitment_number, false, counterparty_nonce) is Ok,
    ensures
        current_scope(s) is Ok,
        (funding_partial(s, tx, Seq::empty(), commitment_number, false, counterparty_nonce)->Ok_0).1
            == scope_nonce(s, current_scope(s)->Ok_0, commitment_number),
{
}

/// The nonce advertised for a splice is the nonce that the partial signature of its shared input is made
/// under.
pub proof fn advertised_splice_nonce_is_signed_with(
    s: SignerView,
    tx: TransactionView,
    index: nat,
    prevouts: Seq<TxOutView>,
    counterparty_nonce: Seq<u8>,
    prev_funding_txid: Seq<u8>,
)
    requires
        splice_partial(s, tx, index, prevouts, counterparty_nonce, prev_funding_txid) is Ok,
    ensures
        taproot_scope(s, None) is Ok,
        (splice_partial(s, tx, index, prevouts, counterparty_nonce, prev_funding_txid)->Ok_0).1
            == scope_nonce(
            s,
            taproot_scope(s, None)->Ok_0,
            splice_height(prev_funding_txid) as u64,
        ),
{
}

/// A signer that is derived again from the same keys, and given the same context, advertises the same
/// nonces and makes the same partial signatures: nothing but the keys and the height goes into them.
pub proof fn partials_reproduce_after_reload(
    before: SignerView,
    after: SignerView,
    tx: TransactionView,
    domain: Seq<u8>,
    height: u64,
    bound: bool,
    counterparty_nonce: Seq<u8>,
)
    requires
        before.same_keys(after),
        before.taproot == after.taproot,
    ensures
        current_scope(before) == current_scope(after),
        current_scope(before) matches Ok(scope) ==> scope_nonce(before, scope, height)
            == scope_nonce(after, scope, height),
        funding_partial(before, tx, domain, height, bound, counterparty_nonce) == funding_partial(
            after,
            tx,
            domain,
            height,
            bound,
            counterparty_nonce,
        ),
        closing_partial(before, tx) == closing_partial(after, tx),
{
}

/// Nothing is signed or advertised by a signer that was not told of its channel, and no close by one that does
/// not know the other's closing nonce.
pub proof fn nothing_is_signed_without_a_context(
    s: SignerView,
    tx: TransactionView,
    domain: Seq<u8>,
    height: u64,
    bound: bool,
    nonce: Seq<u8>,
    index: nat,
    prevouts: Seq<TxOutView>,
    prev_funding_txid: Seq<u8>,
)
    ensures
        s.taproot is None ==> {
            &&& current_scope(s) == Err::<TaprootScope, SignerError>(SignerError::Refused)
            &&& funding_partial(s, tx, domain, height, bound, nonce) is Err
            &&& splice_partial(s, tx, index, prevouts, nonce, prev_funding_txid) is Err
            &&& closing_partial(s, tx) is Err
        },
        s.taproot matches Some(c) ==> (c.counterparty_closing_nonce is None ==> closing_partial(
            s,
            tx,
        ) is Err),
        tx.input.len() != 1 ==> funding_partial(s, tx, domain, height, bound, nonce) is Err
            && closing_partial(s, tx) is Err,
        prevouts.len() != tx.input.len() ==> splice_partial(
            s,
            tx,
            index,
            prevouts,
            nonce,
            prev_funding_txid,
        ) is Err,
{
}

/// The secret key of the funding output that a signer's context names: rotated where a splice made it.
pub open spec fn funding_secret(s: SignerView) -> Option<Seq<u8>> {
    match s.taproot {
        Some(ctx) => rotated_key(s.funding_key, txid_view(ctx.splice_parent_funding_txid)),
        None => None,
    }
}

/// That two signers were told of each other: each one's context names the other's funding key and the same
/// funding value, and the two keys aggregate.
pub open spec fn channel_of(us: SignerView, them: SignerView) -> bool {
    match (us.taproot, them.taproot, funding_secret(us), funding_secret(them)) {
        (Some(our_context), Some(their_context), Some(ours), Some(theirs)) => {
            &&& valid_secret(ours)
            &&& valid_secret(theirs)
            &&& our_context.counterparty_funding_pubkey@ == public_of(theirs)
            &&& their_context.counterparty_funding_pubkey@ == public_of(ours)
            &&& our_context.funding_value_sat == their_context.funding_value_sat
            &&& public_of(ours) != public_of(theirs)
            &&& key_agg(public_of(ours), public_of(theirs), public_of(ours)) is Ok
        },
        _ => false,
    }
}

/// The aggregate of the two funding keys of a channel.
pub open spec fn channel_context(us: SignerView, them: SignerView) -> KeyAggContextView {
    (key_agg(
        public_of(funding_secret(us)->0),
        public_of(funding_secret(them)->0),
        public_of(funding_secret(us)->0),
    )->Ok_0).0
}

/// The digest of a transaction whose only input spends the funding output of a channel by its key path.
pub open spec fn channel_message(us: SignerView, them: SignerView, tx: TransactionView) -> Seq<u8> {
    tap_key_sighash(
        tx,
        0,
        seq![
            TxOutView {
                value: (us.taproot->0).funding_value_sat,
                script_pubkey: p2tr(x_only(channel_context(us, them).aggregate)),
            },
        ],
    )
}

/// The slot of our funding key in the channel's aggregate.
pub open spec fn channel_slot(us: SignerView, them: SignerView) -> nat {
    key_slot(
        public_of(funding_secret(us)->0),
        public_of(funding_secret(them)->0),
        public_of(funding_secret(us)->0),
    )->0
}

/// That two partial signatures of a transaction, each made by one party's funding key under the given
/// nonces, are what aggregates to a signature that spends the channel's funding output.
pub open spec fn spends_funding(
    us: SignerView,
    them: SignerView,
    tx: TransactionView,
    our_partial: (Seq<u8>, Seq<u8>),
    their_partial: (Seq<u8>, Seq<u8>),
) -> bool {
    let ctx = channel_context(us, them);
    let message = channel_message(us, them, tx);
    &&& channel_slot(us, them) + channel_slot(them, us) == 1
    &&& honest_partial(
        ctx,
        channel_slot(us, them),
        our_partial.0,
        our_partial.1,
        their_partial.1,
        message,
    )
    &&& honest_partial(
        ctx,
        channel_slot(them, us),
        their_partial.0,
        their_partial.1,
        our_partial.1,
        message,
    )
}

/// The two signers of a channel aggregate their keys to one context and one funding output, stand at
/// complementary slots of it, and sign one message for a transaction. The keys are those that the last
/// splice rotated them to, where there was one.
pub proof fn parties_share_a_scope(us: SignerView, them: SignerView, tx: TransactionView)
    requires
        channel_of(us, them),
    ensures
        current_scope(us) is Ok,
        current_scope(them) is Ok,
        ({
            let ours = current_scope(us)->Ok_0;
            let theirs = current_scope(them)->Ok_0;
            &&& ours.ctx == theirs.ctx
            &&& ours.value == theirs.value
            &&& ours.script == theirs.script
            &&& ours.ours + theirs.ours == 1
            &&& ours.theirs == theirs.ours
            &&& theirs.theirs == ours.ours
            &&& slot_key(ours.ctx, ours.ours) == public_of(ours.secret)
            &&& slot_key(ours.ctx, theirs.ours) == public_of(theirs.secret)
            &&& funding_message(ours, tx) == funding_message(theirs, tx)
            &&& Some(ours.secret) == funding_secret(us)
            &&& Some(theirs.secret) == funding_secret(them)
            &&& ours.ctx == channel_context(us, them)
            &&& ours.ctx == channel_context(them, us)
            &&& ours.ours == channel_slot(us, them)
            &&& theirs.ours == channel_slot(them, us)
            &&& ours.value == (us.taproot->0).funding_value_sat
            &&& ours.script == p2tr(x_only(channel_context(us, them).aggregate))
            &&& tx.input.len() == 1 ==> funding_message(ours, tx) == Some(
                channel_message(us, them, tx),
            )
        }),
        channel_message(us, them, tx) == channel_message(them, us, tx),
{
    let our_key = public_of(funding_secret(us)->0);
    let their_key = public_of(funding_secret(them)->0);
    lemma_point_len((us.taproot->0).counterparty_funding_pubkey);
    lemma_point_len((them.taproot->0).counterparty_funding_pubkey);
    context_is_shared(our_key, their_key, our_key);
    context_is_shared(our_key, their_key, their_key);
    slots_are_complementary(our_key, their_key);
}

/// Where the two signers of a channel each sign a transaction under the other's nonce, be it a commitment
/// or a close, their partial signatures are what (nonce seeds being of the 32 bytes that they are)
/// [`aggregate_key_path_partials`](crate::taproot_signer::aggregate_key_path_partials) turns into a signature
/// that spends the funding output.
pub proof fn channel_partials_aggregate(
    us: SignerView,
    them: SignerView,
    tx: TransactionView,
    our_session: (Seq<u8>, u64, bool),
    their_session: (Seq<u8>, u64, bool),
    our_partial: (Seq<u8>, Seq<u8>),
    their_partial: (Seq<u8>, Seq<u8>),
)
    requires
        channel_of(us, them),
        secnonce_seed(us.commitment_seed, our_session.0, our_session.1).len() == 32,
        secnonce_seed(them.commitment_seed, their_session.0, their_session.1).len() == 32,
        funding_partial(
            us,
            tx,
            our_session.0,
            our_session.1,
            our_session.2,
            their_partial.1,
        ) == Ok::<(Seq<u8>, Seq<u8>), SignerError>(our_partial),
        funding_partial(
            them,
            tx,
            their_session.0,
            their_session.1,
            their_session.2,
            our_partial.1,
        ) == Ok::<(Seq<u8>, Seq<u8>), SignerError>(their_partial),
    ensures
        ({
            let ours = current_scope(us)->Ok_0;
            let theirs = current_scope(them)->Ok_0;
            let message = funding_message(ours, tx);
            &&& message is Some
            &&& honest_partial(
                ours.ctx,
                ours.ours,
                our_partial.0,
                our_partial.1,
                their_partial.1,
                message->0,
            )
            &&& honest_partial(
                ours.ctx,
                theirs.ours,
                their_partial.0,
                their_partial.1,
                our_partial.1,
                message->0,
            )
        }),
{
    parties_share_a_scope(us, them, tx);
}

/// The two parties of a channel can close it together, whether or not a splice rotated its funding keys:
/// told of each other's nonce for a closing round, which each gives out as its nonce at the round's height,
/// both sign, and their partial signatures of the close aggregate to one that spends the funding output.
pub proof fn closes_spend_the_funding(us: SignerView, them: SignerView, tx: TransactionView)
    requires
        channel_of(us, them),
        tx.input.len() == 1,
        (us.taproot->0).closing_round == (them.taproot->0).closing_round,
        (us.taproot->0).counterparty_closing_nonce matches Some(n) && n@ == scope_nonce(
            them,
            current_scope(them)->Ok_0,
            closing_height((us.taproot->0).closing_round),
        ),
        (them.taproot->0).counterparty_closing_nonce matches Some(n) && n@ == scope_nonce(
            us,
            current_scope(us)->Ok_0,
            closing_height((us.taproot->0).closing_round),
        ),
        secnonce_seed(
            us.commitment_seed,
            Seq::empty(),
            closing_height((us.taproot->0).closing_round),
        ).len() == 32,
        secnonce_seed(
            them.commitment_seed,
            Seq::empty(),
            closing_height((us.taproot->0).closing_round),
        ).len() == 32,
    ensures
        closing_partial(us, tx) is Ok,
        closing_partial(them, tx) is Ok,
        spends_funding(
            us,
            them,
            tx,
            closing_partial(us, tx)->Ok_0,
            closing_partial(them, tx)->Ok_0,
        ),
        (closing_partial(us, tx)->Ok_0).1 == ((them.taproot->0).counterparty_closing_nonce->0)@,
        (closing_partial(them, tx)->Ok_0).1 == ((us.taproot->0).counterparty_closing_nonce->0)@,
{
    parties_share_a_scope(us, them, tx);
}

/// A commitment can be broadcast: the counterparty signs it under the nonce that the holder gives out for
/// its number and a nonce of its own, which is bound to the transaction; the holder signs it under that
/// nonce; and the two partial signatures aggregate to one that spends the funding output.
pub proof fn commitments_spend_the_funding(
    holder: SignerView,
    counterparty: SignerView,
    tx: TransactionView,
    commitment_number: u64,
)
    requires
        channel_of(holder, counterparty),
        tx.input.len() == 1,
        secnonce_seed(holder.commitment_seed, Seq::empty(), commitment_number).len() == 32,
        secnonce_seed(
            counterparty.commitment_seed,
            text(COUNTERPARTY_COMMITMENT_NONCE_TAG),
            commitment_number,
        ).len() == 32,
    ensures
        ({
            let nonce = scope_nonce(holder, current_scope(holder)->Ok_0, commitment_number);
            let theirs = funding_partial(
                counterparty,
                tx,
                text(COUNTERPARTY_COMMITMENT_NONCE_TAG),
                commitment_number,
                true,
                nonce,
            );
            let ours = funding_partial(
                holder,
                tx,
                Seq::empty(),
                commitment_number,
                false,
                (theirs->Ok_0).1,
            );
            &&& theirs is Ok
            &&& ours is Ok
            &&& (ours->Ok_0).1 == nonce
            &&& (theirs->Ok_0).1 == musig_nonce(
                channel_context(holder, counterparty).lo,
                channel_context(holder, counterparty).hi,
                secnonce_seed(
                    counterparty.commitment_seed,
                    text(COUNTERPARTY_COMMITMENT_NONCE_TAG),
                    commitment_number,
                ),
                channel_slot(counterparty, holder),
                Some((channel_message(holder, counterparty, tx), nonce)),
            )
            &&& spends_funding(holder, counterparty, tx, ours->Ok_0, theirs->Ok_0)
        }),
{
    parties_share_a_scope(holder, counterparty, tx);
}

/// A splice can be broadcast: told of each other's nonce for the funding transaction that it spends, the two
/// parties sign its shared input with the keys that they opened the channel with, and their partial
/// signatures aggregate to one of all that the transaction spends.
pub proof fn splices_spend_the_shared_input(
    us: SignerView,
    them: SignerView,
    tx: TransactionView,
    index: nat,
    prevouts: Seq<TxOutView>,
    prev_funding_txid: Seq<u8>,
)
    requires
        us.taproot matches Some(c) && c.counterparty_funding_pubkey@ == public_of(them.funding_key),
        them.taproot matches Some(c) && c.counterparty_funding_pubkey@ == public_of(us.funding_key),
        valid_secret(us.funding_key),
        valid_secret(them.funding_key),
        public_of(us.funding_key) != public_of(them.funding_key),
        key_agg(
            public_of(us.funding_key),
            public_of(them.funding_key),
            public_of(us.funding_key),
        ) is Ok,
        prevouts.len() == tx.input.len(),
        secnonce_seed(
            us.commitment_seed,
            Seq::empty(),
            splice_height(prev_funding_txid) as u64,
        ).len() == 32,
        secnonce_seed(
            them.commitment_seed,
            Seq::empty(),
            splice_height(prev_funding_txid) as u64,
        ).len() == 32,
    ensures
        taproot_scope(us, None) is Ok,
        taproot_scope(them, None) is Ok,
        ({
            let (ctx, our_slot) = key_agg(
                public_of(us.funding_key),
                public_of(them.funding_key),
                public_of(us.funding_key),
            )->Ok_0;
            let height = splice_height(prev_funding_txid) as u64;
            let our_nonce = scope_nonce(us, taproot_scope(us, None)->Ok_0, height);
            let their_nonce = scope_nonce(them, taproot_scope(them, None)->Ok_0, height);
            let ours = splice_partial(us, tx, index, prevouts, their_nonce, prev_funding_txid);
            let theirs = splice_partial(them, tx, index, prevouts, our_nonce, prev_funding_txid);
            &&& our_slot < 2
            &&& ours is Ok
            &&& theirs is Ok
            &&& (ours->Ok_0).1 == our_nonce
            &&& (theirs->Ok_0).1 == their_nonce
            &&& honest_partial(
                ctx,
                our_slot,
                (ours->Ok_0).0,
                our_nonce,
                their_nonce,
                tap_key_sighash(tx, index, prevouts),
            )
            &&& honest_partial(
                ctx,
                (1 - our_slot) as nat,
                (theirs->Ok_0).0,
                their_nonce,
                our_nonce,
                tap_key_sighash(tx, index, prevouts),
            )
        }),
{
    let our_key = public_of(us.funding_key);
    let their_key = public_of(them.funding_key);
    lemma_point_len((us.taproot->0).counterparty_funding_pubkey);
    lemma_point_len((them.taproot->0).counterparty_funding_pubkey);
    context_is_shared(our_key, their_key, our_key);
    context_is_shared(our_key, their_key, their_key);
    slots_are_complementary(our_key, their_key);
}

} // verus!
