//! Signing the transactions that spend our outputs.
use vstd::prelude::*;

use crate::bytes::{bytes_equal, copy_bytes};
use crate::change::fee;
use crate::channel::SignerError;
use crate::curve::{
    der, ecdsa_with_noncedata, public_of, sign_ecdsa_with_noncedata, PublicKey, SecretKey,
};
use crate::entropy::{EntropySource, RandomBytesView};
use crate::keys_manager::{
    channel_signer, derive_seed_child, seed_child, KeysManager, KeysManagerView,
};
use crate::node::OutputSpender;
use crate::script::{new_p2pkh, new_p2wpkh, p2pkh, p2wpkh};
use crate::sighash::{p2wsh_signature_hash, segwit_sighash, SIGHASH_ALL};
use crate::signer::{
    delayed_input, delayed_witness_limit, payment_input, payment_witness_limit, ChannelSigner,
    InMemorySigner, SignerView,
};
use crate::spend::{
    all_distinct, plans, psbt_inputs_view, spend_plan, total_value, unsigned_inputs, Psbt, PsbtInput,
    PsbtInputView, PsbtView, SpendableOutputDescriptor, P2WPKH_WITNESS_WEIGHT,
};
use crate::tx::{
    inputs_size, inputs_view, items_size, outputs_value, outputs_view, rows, same_outpoint, weight,
    witness_size, witnesses_size, OutPoint, OutPointView, Transaction, TransactionView, TxIn,
    TxInView, TxOut, TxOutView,
};

verus! {

/// The first input that spends an output.
pub open spec fn find_input(inputs: Seq<TxInView>, outpoint: OutPointView) -> Option<nat>
    decreases inputs.len(),
{
    if inputs.len() == 0 {
        None
    } else {
        match find_input(inputs.drop_last(), outpoint) {
            Some(i) => Some(i),
            None => if inputs.last().previous_output == outpoint {
                Some((inputs.len() - 1) as nat)
            } else {
                None
            },
        }
    }
}

pub(crate) proof fn lemma_find_input(inputs: Seq<TxInView>, outpoint: OutPointView)
    ensures
        find_input(inputs, outpoint) matches Some(i) ==> i < inputs.len()
            && inputs[i as int].previous_output == outpoint,
        find_input(inputs, outpoint) is None ==> forall|i: int|
            0 <= i < inputs.len() ==> (#[trigger] inputs[i]).previous_output != outpoint,
    decreases inputs.len(),
{
    if inputs.len() > 0 {
        lemma_find_input(inputs.drop_last(), outpoint);
        if find_input(inputs, outpoint) is None {
            assert forall|i: int| 0 <= i < inputs.len() implies (
            #[trigger] inputs[i]).previous_output != outpoint by {
                if i < inputs.len() - 1 {
                    assert(inputs[i] == inputs.drop_last()[i]);
                }
            }
        }
    }
}

/// A find in a prefix is the find in the whole.
proof fn lemma_find_prefix(inputs: Seq<TxInView>, outpoint: OutPointView, n: int)
    requires
        0 <= n <= inputs.len(),
        find_input(inputs.take(n), outpoint) is Some,
    ensures
        find_input(inputs, outpoint) == find_input(inputs.take(n), outpoint),
    decreases inputs.len(),
{
    if n < inputs.len() {
        assert(inputs.drop_last().take(n) =~= inputs.take(n));
        lemma_find_prefix(inputs.drop_last(), outpoint, n);
    } else {
        assert(inputs.take(n) =~= inputs);
    }
}

/// The outputs that the inputs of a PSBT spend, as far as it says.
pub open spec fn spent_outputs(inputs: Seq<PsbtInputView>) -> Seq<TxOutView> {
    inputs.map_values(
        |i: PsbtInputView|
            match i.witness_utxo {
                Some(o) => o,
                None => TxOutView { value: 0, script_pubkey: Seq::empty() },
            },
    )
}

/// What changes while a PSBT is signed: the manager's randomness, and the signer of the last channel.
pub struct SweepState {
    pub entropy: RandomBytesView,
    pub cache: Option<SignerView>,
}

/// The signer of a channel: the last one where it is of that channel, one derived anew otherwise.
pub open spec fn cached_signer(m: KeysManagerView, st: SweepState, id: Seq<u8>) -> (
    Option<SignerView>,
    RandomBytesView,
) {
    if st.cache is Some && (st.cache->0).channel_keys_id == id {
        (st.cache, st.entropy)
    } else {
        match channel_signer(KeysManagerView { entropy: st.entropy, ..m }, id) {
            Some(s) => (Some(s), st.entropy.next()),
            None => (None, st.entropy),
        }
    }
}

/// The witness of an input that spends an output to the node's own wallet: with the destination key where
/// it pays the destination script, with the shutdown key otherwise.
pub open spec fn wallet_input(
    m: KeysManagerView,
    entropy: RandomBytesView,
    tx: TransactionView,
    index: nat,
    output: TxOutView,
) -> Result<Seq<Seq<u8>>, SignerError> {
    let child: u32 = if output.script_pubkey == m.destination_script {
        1
    } else {
        2
    };
    match seed_child(m.seed, child) {
        None => Err(SignerError::DegenerateKey),
        Some(x) => {
            let key = public_of(x.key);
            if p2wpkh(key) != output.script_pubkey {
                Err(SignerError::Refused)
            } else {
                let digest = segwit_sighash(tx, index, p2pkh(key), output.value, SIGHASH_ALL);
                Ok(
                    seq![
                        der(ecdsa_with_noncedata(digest, x.key, entropy.value())).push(SIGHASH_ALL),
                        key,
                    ],
                )
            }
        },
    }
}

/// Signing with the signer of a channel: the witness and what is left of the randomness.
pub open spec fn after_signer(
    signer: SignerView,
    entropy: RandomBytesView,
    index: nat,
    signed: (Result<Seq<Seq<u8>>, SignerError>, bool),
) -> (Result<(nat, Seq<Seq<u8>>), SignerError>, SweepState) {
    let st = SweepState {
        entropy,
        cache: Some(
            if signed.1 {
                signer.drawn()
            } else {
                signer
            },
        ),
    };
    match signed.0 {
        Ok(w) => (Ok((index, w)), st),
        Err(e) => (Err(e), st),
    }
}

/// Signing for one descriptor: which input, and its witness.
#[verifier::opaque]
pub open spec fn sweep_step(
    m: KeysManagerView,
    st: SweepState,
    tx: TransactionView,
    prevouts: Seq<TxOutView>,
    d: SpendableOutputDescriptor,
) -> (Result<(nat, Seq<Seq<u8>>), SignerError>, SweepState) {
    match find_input(tx.input, d.outpoint()) {
        None => (Err(SignerError::Refused), st),
        Some(index) => match d {
            SpendableOutputDescriptor::StaticPaymentOutput(x) => {
                let (signer, entropy) = cached_signer(m, st, x.channel_keys_id@);
                match signer {
                    None => (Err(SignerError::DegenerateKey), st),
                    Some(s) => after_signer(
                        s,
                        entropy,
                        index,
                        payment_input(s, tx, index, x, prevouts),
                    ),
                }
            },
            SpendableOutputDescriptor::DelayedPaymentOutput(x) => {
                let (signer, entropy) = cached_signer(m, st, x.channel_keys_id@);
                match signer {
                    None => (Err(SignerError::DegenerateKey), st),
                    Some(s) => after_signer(
                        s,
                        entropy,
                        index,
                        delayed_input(s, tx, index, x, prevouts),
                    ),
                }
            },
            SpendableOutputDescriptor::StaticOutput { output, .. } => {
                match wallet_input(m, st.entropy, tx, index, output@) {
                    Err(e) => (Err(e), st),
                    Ok(w) => (
                        Ok((index, w)),
                        SweepState { entropy: st.entropy.next(), cache: st.cache },
                    ),
                }
            },
        },
    }
}

/// Signing for all descriptors in order, each witness placed in its input.
pub open spec fn sweep(
    m: KeysManagerView,
    psbt: PsbtView,
    descriptors: Seq<&SpendableOutputDescriptor>,
) -> (Result<Seq<PsbtInputView>, SignerError>, SweepState)
    decreases descriptors.len(),
{
    if descriptors.len() == 0 {
        (Ok(psbt.inputs), SweepState { entropy: m.entropy, cache: None })
    } else {
        let (before, st) = sweep(m, psbt, descriptors.drop_last());
        match before {
            Err(e) => (Err(e), st),
            Ok(inputs) => {
                let (signed, after) = sweep_step(
                    m,
                    st,
                    psbt.unsigned_tx,
                    spent_outputs(psbt.inputs),
                    *descriptors.last(),
                );
                match signed {
                    Err(e) => (Err(e), after),
                    Ok((i, w)) => (
                        Ok(
                            inputs.update(
                                i as int,
                                PsbtInputView {
                                    final_script_witness: Some(w),
                                    ..inputs[i as int]
                                },
                            ),
                        ),
                        after,
                    ),
                }
            },
        }
    }
}

/// A failure to sign for a prefix is a failure to sign for the whole.
proof fn lemma_sweep_prefix(
    m: KeysManagerView,
    psbt: PsbtView,
    descriptors: Seq<&SpendableOutputDescriptor>,
    i: int,
)
    requires
        0 <= i <= descriptors.len(),
        sweep(m, psbt, descriptors.take(i)).0 is Err,
    ensures
        sweep(m, psbt, descriptors) == sweep(m, psbt, descriptors.take(i)),
    decreases descriptors.len(),
{
    if i < descriptors.len() {
        assert(descriptors.drop_last().take(i) =~= descriptors.take(i));
        lemma_sweep_prefix(m, psbt, descriptors.drop_last(), i);
    } else {
        assert(descriptors.take(i) =~= descriptors);
    }
}

/// That a PSBT describes each input that spends what a descriptor describes.
pub open spec fn inputs_described(
    psbt: PsbtView,
    descriptors: Seq<&SpendableOutputDescriptor>,
) -> bool {
    forall|i: int|
        0 <= i < descriptors.len() ==> (find_input(
            psbt.unsigned_tx.input,
            (#[trigger] descriptors[i]).outpoint(),
        ) matches Some(k) ==> k < psbt.inputs.len())
}

/// The most bytes that the witness of a descriptor's input takes.
pub open spec fn witness_limit(d: SpendableOutputDescriptor) -> nat {
    match d {
        SpendableOutputDescriptor::StaticOutput { .. } => P2WPKH_WITNESS_WEIGHT as nat,
        SpendableOutputDescriptor::DelayedPaymentOutput(x) => delayed_witness_limit(x),
        SpendableOutputDescriptor::StaticPaymentOutput(x) => payment_witness_limit(x),
    }
}

/// Whether a witness is one of a descriptor's input: not empty, and within the limit.
pub open spec fn witness_fits(w: Seq<Seq<u8>>, d: SpendableOutputDescriptor) -> bool {
    w.len() > 0 && witness_size(w) <= witness_limit(d)
}

/// That each descriptor's input has a witness within its limit.
#[verifier::opaque]
pub open spec fn witnesses_within(
    tx: TransactionView,
    inputs: Seq<PsbtInputView>,
    descriptors: Seq<&SpendableOutputDescriptor>,
) -> bool {
    forall|i: int|
        0 <= i < descriptors.len() ==> {
            let at = find_input(tx.input, (#[trigger] descriptors[i]).outpoint());
            &&& at is Some
            &&& inputs[at->0 as int].final_script_witness is Some
            &&& witness_fits(inputs[at->0 as int].final_script_witness->0, *descriptors[i])
        }
}

/// The transaction of a PSBT, with the final scripts and witnesses of its inputs.
pub open spec fn extracted(tx: TransactionView, inputs: Seq<PsbtInputView>) -> TransactionView {
    TransactionView {
        input: Seq::new(
            tx.input.len(),
            |i: int|
                if i < inputs.len() {
                    TxInView {
                        script_sig: match inputs[i].final_script_sig {
                            Some(s) => s,
                            None => Seq::empty(),
                        },
                        witness: match inputs[i].final_script_witness {
                            Some(w) => w,
                            None => Seq::empty(),
                        },
                        ..tx.input[i]
                    }
                } else {
                    tx.input[i]
                },
        ),
        ..tx
    }
}

fn find_input_index(inputs: &[TxIn], outpoint: &OutPoint) -> (r: Option<usize>)
    ensures
        match r {
            Some(i) => Some(i as nat),
            None => None,
        } == find_input(inputs_view(inputs@), outpoint@),
        r matches Some(i) ==> i < inputs@.len(),
{
    let ghost all = inputs_view(inputs@);
    let mut i: usize = 0;
    while i < inputs.len()
        invariant
            i <= inputs@.len(),
            all == inputs_view(inputs@),
            find_input(all.take(i as int), outpoint@) is None,
        decreases inputs@.len() - i,
    {
        proof {
            assert(all.take(i + 1).drop_last() =~= all.take(i as int));
            assert(all.take(i + 1).last() == inputs@[i as int]@);
        }
        if same_outpoint(&inputs[i].previous_output, outpoint) {
            proof {
                lemma_find_prefix(all, outpoint@, i + 1);
            }
            return Some(i);
        }
        i += 1;
    }
    assert(all.take(i as int) =~= all);
    None
}

/// The outputs that the inputs of a PSBT spend.
fn gather_prevouts(inputs: &[PsbtInput]) -> (r: Vec<TxOut>)
    ensures
        outputs_view(r@) == spent_outputs(psbt_inputs_view(inputs@)),
{
    let mut r: Vec<TxOut> = Vec::new();
    let mut i: usize = 0;
    while i < inputs.len()
        invariant
            i <= inputs@.len(),
            r@.len() == i,
            forall|j: int|
                0 <= j < i ==> (#[trigger] r@[j])@ == spent_outputs(psbt_inputs_view(inputs@))[j],
        decreases inputs@.len() - i,
    {
        let out: TxOut = match &inputs[i].witness_utxo {
            Some(o) => o.copy(),
            None => TxOut { value: 0, script_pubkey: Vec::new() },
        };
        assert(out@ =~= spent_outputs(psbt_inputs_view(inputs@))[i as int]);
        r.push(out);
        i += 1;
    }
    assert(outputs_view(r@) =~= spent_outputs(psbt_inputs_view(inputs@)));
    r
}

/// What the signer of the last channel is.
pub open spec fn cache_view(c: Option<InMemorySigner>) -> Option<SignerView> {
    match c {
        Some(s) => Some(s@),
        None => None,
    }
}

impl KeysManager {
    /// The signer of a channel, from the cache or derived anew.
    fn take_signer(&mut self, cache: Option<InMemorySigner>, id: &[u8; 32]) -> (r: Option<
        InMemorySigner,
    >)
        ensures
            ({
                let (signer, entropy) = cached_signer(
                    old(self)@,
                    SweepState { entropy: old(self)@.entropy, cache: cache_view(cache) },
                    id@,
                );
                &&& cache_view(r) == signer
                &&& final(self)@ == (KeysManagerView { entropy, ..old(self)@ })
            }),
    {
        proof {
            assert((KeysManagerView { entropy: self@.entropy, ..self@ }) == self@);
        }
        if let Some(signer) = cache {
            if bytes_equal(&signer.channel_keys_id(), id) {
                return Some(signer);
            }
        }
        self.try_derive_channel_keys(id)
    }

    /// Signs an input that spends an output to the node's own wallet.
    fn sign_wallet_input(&mut self, tx: &Transaction, index: usize, output: &TxOut) -> (r: Result<
        Vec<Vec<u8>>,
        SignerError,
    >)
        requires
            index < tx@.input.len(),
        ensures
            match (r, wallet_input(old(self)@, old(self)@.entropy, tx@, index as nat, output@)) {
                (Ok(w), Ok(x)) => rows(w@) == x && final(self)@ == old(self)@.drawn(),
                (Err(e), Err(f)) => e == f && final(self)@ == old(self)@,
                _ => false,
            },
            r matches Ok(w) ==> w@.len() > 0 && witness_size(rows(w@)) <= P2WPKH_WITNESS_WEIGHT,
    {
        let child: u32 = if bytes_equal(
            output.script_pubkey.as_slice(),
            self.destination().as_slice(),
        ) {
            1
        } else {
            2
        };
        let secret: SecretKey = match derive_seed_child(&self.seed_bytes(), child) {
            Some(x) => x.private_key,
            None => {
                return Err(SignerError::DegenerateKey);
            },
        };
        let key: PublicKey = secret.public_key();
        if !bytes_equal(new_p2wpkh(&key).as_slice(), output.script_pubkey.as_slice()) {
            return Err(SignerError::Refused);
        }
        let digest: [u8; 32] = p2wsh_signature_hash(
            tx,
            index,
            new_p2pkh(&key).as_slice(),
            output.value,
            SIGHASH_ALL,
        ).unwrap();
        let aux: [u8; 32] = self.get_secure_random_bytes();
        let mut signature: Vec<u8> = sign_ecdsa_with_noncedata(
            &digest,
            &secret,
            &aux,
        ).serialize_der();
        signature.push(SIGHASH_ALL);
        let ghost sig = signature@;
        let mut witness: Vec<Vec<u8>> = Vec::new();
        witness.push(signature);
        witness.push(copy_bytes(&key.serialize()));
        proof {
            assert(rows(witness@) =~= seq![sig, key@]);
            reveal_with_fuel(items_size, 3);
            assert(rows(witness@).drop_last().last() == sig);
        }
        Ok(witness)
    }

    /// Signs for one descriptor: which input, and its witness. The signer used is left in the cache.
    fn sign_for_descriptor(
        &mut self,
        cache: Option<InMemorySigner>,
        tx: &Transaction,
        prevouts: &[TxOut],
        descriptor: &SpendableOutputDescriptor,
    ) -> (r: (Result<(usize, Vec<Vec<u8>>), SignerError>, Option<InMemorySigner>))
        ensures
            ({
                let (signed, st) = sweep_step(
                    old(self)@,
                    SweepState { entropy: old(self)@.entropy, cache: cache_view(cache) },
                    tx@,
                    outputs_view(prevouts@),
                    *descriptor,
                );
                &&& match (r.0, signed) {
                    (Ok((i, w)), Ok((j, x))) => i == j && rows(w@) == x && cache_view(r.1)
                        == st.cache,
                    (Err(e), Err(f)) => e == f,
                    _ => false,
                }
                &&& final(self)@ == (KeysManagerView { entropy: st.entropy, ..old(self)@ })
            }),
            r.0 matches Ok((i, w)) ==> i < tx@.input.len() && find_input(
                tx@.input,
                descriptor.outpoint(),
            ) == Some(i as nat) && witness_fits(rows(w@), *descriptor),
    {
        proof {
            reveal(sweep_step);
            assert((KeysManagerView { entropy: self@.entropy, ..self@ }) == self@);
        }
        let index: usize = match find_input_index(
            tx.input.as_slice(),
            &descriptor.spendable_outpoint(),
        ) {
            Some(i) => i,
            None => {
                return (Err(SignerError::Refused), cache);
            },
        };
        match descriptor {
            SpendableOutputDescriptor::StaticPaymentOutput(d) => {
                let mut signer: InMemorySigner = match self.take_signer(cache, &d.channel_keys_id) {
                    Some(s) => s,
                    None => {
                        return (Err(SignerError::DegenerateKey), None);
                    },
                };
                match signer.sign_counterparty_payment_input(tx, index, d, prevouts) {
                    Ok(w) => (Ok((index, w)), Some(signer)),
                    Err(e) => (Err(e), Some(signer)),
                }
            },
            SpendableOutputDescriptor::DelayedPaymentOutput(d) => {
                let mut signer: InMemorySigner = match self.take_signer(cache, &d.channel_keys_id) {
                    Some(s) => s,
                    None => {
                        return (Err(SignerError::DegenerateKey), None);
                    },
                };
                match signer.sign_dynamic_p2wsh_input(tx, index, d, prevouts) {
                    Ok(w) => (Ok((index, w)), Some(signer)),
                    Err(e) => (Err(e), Some(signer)),
                }
            },
            SpendableOutputDescriptor::StaticOutput { output, .. } => {
                match self.sign_wallet_input(tx, index, output) {
                    Ok(w) => (Ok((index, w)), cache),
                    Err(e) => (Err(e), cache),
                }
            },
        }
    }

    /// Signs the given [`Psbt`] which spends the given [`SpendableOutputDescriptor`]s.
    /// The resulting inputs will be finalized and the PSBT will be ready for broadcast if there
    /// are no other inputs that need signing.
    ///
    /// Returns an error if the PSBT is missing a descriptor or if we fail to sign.
    ///
    /// Where no output is described twice, each descriptor's input has a witness within the limit of its
    /// kind.
    pub fn sign_spendable_outputs_psbt(
        &mut self,
        descriptors: &[&SpendableOutputDescriptor],
        psbt: Psbt,
    ) -> (r: Result<Psbt, SignerError>)
        requires
            inputs_described(psbt@, descriptors@),
        ensures
            ({
                let (signed, st) = sweep(old(self)@, psbt@, descriptors@);
                &&& match (r, signed) {
                    (Ok(p), Ok(inputs)) => p@ == (PsbtView { inputs, ..psbt@ }),
                    (Err(e), Err(f)) => e == f,
                    _ => false,
                }
                &&& final(self)@ == (KeysManagerView { entropy: st.entropy, ..old(self)@ })
            }),
            r matches Ok(p) ==> (all_distinct(descriptors@) ==> witnesses_within(
                psbt@.unsigned_tx,
                p@.inputs,
                descriptors@,
            )),
    {
        let ghost start = psbt@;
        let ghost me = self@;
        let mut work: Psbt = psbt;
        let mut cache: Option<InMemorySigner> = None;
        let all_prevouts: Vec<TxOut> = gather_prevouts(work.inputs.as_slice());
        let mut i: usize = 0;
        assert((KeysManagerView { entropy: me.entropy, ..me }) == me);
        assert(witnesses_within(start.unsigned_tx, work@.inputs, descriptors@.take(0))) by {
            reveal(witnesses_within);
        }
        while i < descriptors.len()
            invariant
                i <= descriptors@.len(),
                me == old(self)@,
                start == psbt@,
                work@.unsigned_tx == start.unsigned_tx,
                work@.outputs == start.outputs,
                work@.inputs.len() == start.inputs.len(),
                inputs_described(start, descriptors@),
                outputs_view(all_prevouts@) == spent_outputs(start.inputs),
                ({
                    let (signed, st) = sweep(me, start, descriptors@.take(i as int));
                    &&& signed == Ok::<Seq<PsbtInputView>, SignerError>(work@.inputs)
                    &&& st.cache == cache_view(cache)
                    &&& self@ == (KeysManagerView { entropy: st.entropy, ..me })
                }),
                all_distinct(descriptors@) ==> witnesses_within(
                    start.unsigned_tx,
                    work@.inputs,
                    descriptors@.take(i as int),
                ),
            decreases descriptors@.len() - i,
        {
            let ghost before = work@;
            let ghost now = descriptors@.take(i + 1);
            let ghost st = sweep(me, start, descriptors@.take(i as int)).1;
            proof {
                assert(now.drop_last() =~= descriptors@.take(i as int));
                assert(now.last() == descriptors@[i as int]);
                lemma_sweep_step_frame(
                    me,
                    self@,
                    st,
                    start.unsigned_tx,
                    spent_outputs(start.inputs),
                    *descriptors@[i as int],
                );
            }
            let (signed, after): (
                Result<(usize, Vec<Vec<u8>>), SignerError>,
                Option<InMemorySigner>,
            ) = self.sign_for_descriptor(
                cache,
                &work.unsigned_tx,
                all_prevouts.as_slice(),
                descriptors[i],
            );
            cache = after;
            match signed {
                Ok((index, w)) => {
                    place_witness(&mut work, index, w);
                    proof {
                        if all_distinct(descriptors@) {
                            lemma_witness_placed(
                                before,
                                work@.inputs,
                                descriptors@,
                                i as int,
                                index as int,
                            );
                        }
                    }
                },
                Err(e) => {
                    proof {
                        assert(sweep(me, start, now).0 == Err::<Seq<PsbtInputView>, SignerError>(e));
                        assert(self@ == (KeysManagerView {
                            entropy: sweep(me, start, now).1.entropy,
                            ..me
                        }));
                        lemma_sweep_prefix(me, start, descriptors@, i + 1);
                    }
                    return Err(e);
                },
            }
            i += 1;
        }
        assert(descriptors@.take(i as int) =~= descriptors@);
        Ok(work)
    }
}

/// Puts a witness into an input of a PSBT.
fn place_witness(psbt: &mut Psbt, index: usize, w: Vec<Vec<u8>>)
    requires
        index < old(psbt)@.inputs.len(),
    ensures
        final(psbt)@ == (PsbtView {
            inputs: old(psbt)@.inputs.update(
                index as int,
                PsbtInputView {
                    final_script_witness: Some(rows(w@)),
                    ..old(psbt)@.inputs[index as int]
                },
            ),
            ..old(psbt)@
        }),
{
    let ghost before = psbt@;
    psbt.inputs[index].final_script_witness = Some(w);
    assert(psbt@.inputs =~= before.inputs.update(
        index as int,
        PsbtInputView { final_script_witness: Some(rows(w@)), ..before.inputs[index as int] },
    ));
}

/// Only the randomness of a manager at hand enters a step, not that of the manager it started as.
proof fn lemma_sweep_step_frame(
    start: KeysManagerView,
    now: KeysManagerView,
    st: SweepState,
    tx: TransactionView,
    prevouts: Seq<TxOutView>,
    d: SpendableOutputDescriptor,
)
    requires
        now == (KeysManagerView { entropy: st.entropy, ..start }),
    ensures
        sweep_step(now, st, tx, prevouts, d) == sweep_step(start, st, tx, prevouts, d),
{
    reveal(sweep_step);
    assert(forall|e: RandomBytesView|
        (KeysManagerView { entropy: e, ..now }) == (KeysManagerView { entropy: e, ..start }));
}

/// Placing the witness of another descriptor leaves the earlier ones within their limits.
proof fn lemma_witness_placed(
    psbt: PsbtView,
    after: Seq<PsbtInputView>,
    descriptors: Seq<&SpendableOutputDescriptor>,
    i: int,
    index: int,
)
    requires
        0 <= i < descriptors.len(),
        all_distinct(descriptors),
        inputs_described(psbt, descriptors),
        0 <= index,
        find_input(psbt.unsigned_tx.input, descriptors[i].outpoint()) == Some(index as nat),
        after == psbt.inputs.update(index, after[index]),
        after[index].final_script_witness is Some,
        witness_fits(after[index].final_script_witness->0, *descriptors[i]),
        witnesses_within(psbt.unsigned_tx, psbt.inputs, descriptors.take(i)),
    ensures
        witnesses_within(psbt.unsigned_tx, after, descriptors.take(i + 1)),
{
    reveal(witnesses_within);
    let tx = psbt.unsigned_tx;
    let now = descriptors.take(i + 1);
    lemma_find_input(tx.input, descriptors[i].outpoint());
    assert forall|j: int| 0 <= j < now.len() implies {
        let at = find_input(tx.input, (#[trigger] now[j]).outpoint());
        &&& at is Some
        &&& after[at->0 as int].final_script_witness is Some
        &&& witness_fits(after[at->0 as int].final_script_witness->0, *now[j])
    } by {
        assert(now[j] == descriptors[j]);
        if j < i {
            assert(descriptors.take(i)[j] == descriptors[j]);
            lemma_find_input(tx.input, descriptors[j].outpoint());
            assert(descriptors[j].outpoint() != descriptors[i].outpoint());
        }
    }
}

/// A PSBT that describes all inputs of its transaction describes those that descriptors need.
pub(crate) proof fn lemma_all_described(psbt: PsbtView, descriptors: Seq<&SpendableOutputDescriptor>)
    requires
        psbt.inputs.len() >= psbt.unsigned_tx.input.len(),
    ensures
        inputs_described(psbt, descriptors),
{
    assert forall|i: int| 0 <= i < descriptors.len() implies (find_input(
        psbt.unsigned_tx.input,
        (#[trigger] descriptors[i]).outpoint(),
    ) matches Some(k) ==> k < psbt.inputs.len()) by {
        lemma_find_input(psbt.unsigned_tx.input, descriptors[i].outpoint());
    }
}

/// Signing leaves everything of a PSBT's inputs but their witnesses.
pub(crate) proof fn lemma_sweep_keeps(
    m: KeysManagerView,
    psbt: PsbtView,
    descriptors: Seq<&SpendableOutputDescriptor>,
)
    requires
        sweep(m, psbt, descriptors).0 is Ok,
        inputs_described(psbt, descriptors),
    ensures
        (sweep(m, psbt, descriptors).0->Ok_0).len() == psbt.inputs.len(),
        forall|i: int|
            0 <= i < psbt.inputs.len() ==> (#[trigger] (sweep(
                m,
                psbt,
                descriptors,
            ).0->Ok_0)[i]).final_script_sig == psbt.inputs[i].final_script_sig,
    decreases descriptors.len(),
{
    if descriptors.len() > 0 {
        reveal(sweep_step);
        assert(inputs_described(psbt, descriptors.drop_last())) by {
            assert(forall|i: int|
                0 <= i < descriptors.len() - 1 ==> #[trigger] descriptors.drop_last()[i]
                    == descriptors[i]);
        }
        lemma_sweep_keeps(m, psbt, descriptors.drop_last());
        assert(descriptors.last() == descriptors[descriptors.len() - 1]);
    }
}

/// The inputs that a plan begins with have no final scripts.
pub(crate) proof fn lemma_plans_unsigned(descriptors: Seq<&SpendableOutputDescriptor>, grind: bool)
    requires
        plans(descriptors, grind) is Ok,
    ensures
        (plans(descriptors, grind)->Ok_0).1.len() == descriptors.len(),
        forall|i: int|
            0 <= i < descriptors.len() ==> (#[trigger] (plans(
                descriptors,
                grind,
            )->Ok_0).1[i]).final_script_sig is None,
    decreases descriptors.len(),
{
    if descriptors.len() > 0 {
        lemma_plans_unsigned(descriptors.drop_last(), grind);
    }
}

/// In the inputs that spend distinct outputs, each is found where it stands.
pub(crate) proof fn lemma_find_unsigned(descriptors: Seq<&SpendableOutputDescriptor>, n: nat, i: int)
    requires
        all_distinct(descriptors),
        0 <= i < n <= descriptors.len(),
    ensures
        find_input(unsigned_inputs(descriptors).take(n as int), descriptors[i].outpoint()) == Some(
            i as nat,
        ),
    decreases n,
{
    let inputs = unsigned_inputs(descriptors).take(n as int);
    let before = unsigned_inputs(descriptors).take(n - 1);
    assert(inputs.drop_last() =~= before);
    assert(inputs.last().previous_output == descriptors[n - 1].outpoint());
    if i < n - 1 {
        lemma_find_unsigned(descriptors, (n - 1) as nat, i);
    } else {
        lemma_find_input(before, descriptors[i].outpoint());
        if let Some(j) = find_input(before, descriptors[i].outpoint()) {
            assert(before[j as int].previous_output == descriptors[j as int].outpoint());
            assert(descriptors[j as int].outpoint() != descriptors[i].outpoint());
        }
    }
}

/// Inputs whose script signatures have the same lengths have the same size without witnesses.
proof fn lemma_inputs_size_same(a: Seq<TxInView>, b: Seq<TxInView>)
    requires
        a.len() == b.len(),
        forall|i: int|
            0 <= i < a.len() ==> (#[trigger] a[i]).script_sig.len() == b[i].script_sig.len(),
    ensures
        inputs_size(a) == inputs_size(b),
    decreases a.len(),
{
    if a.len() > 0 {
        lemma_inputs_size_same(a.drop_last(), b.drop_last());
        assert(a.last() == a[a.len() - 1]);
    }
}

/// The limit of a descriptor's witness is within the weight that was planned for it.
proof fn lemma_limit_planned(d: SpendableOutputDescriptor)
    requires
        d.plan(false) is Ok,
    ensures
        witness_limit(d) <= (d.plan(false)->Ok_0).0,
{
}

/// By how much less the witnesses of inputs weigh than was planned: over the inputs, what was planned for
/// the witness minus its size.
pub open spec fn witness_slack(
    descriptors: Seq<&SpendableOutputDescriptor>,
    inputs: Seq<TxInView>,
) -> int
    decreases descriptors.len(),
{
    if descriptors.len() == 0 {
        0
    } else {
        witness_slack(descriptors.drop_last(), inputs.drop_last()) + (
        descriptors.last().plan(false)->Ok_0).0 - witness_size(inputs.last().witness)
    }
}

/// The witnesses of a fully signed plan weigh no more than was planned, and less by their slack.
proof fn lemma_witnesses_planned(
    descriptors: Seq<&SpendableOutputDescriptor>,
    inputs: Seq<TxInView>,
)
    requires
        plans(descriptors, false) is Ok,
        inputs.len() == descriptors.len(),
        forall|i: int|
            0 <= i < inputs.len() ==> witness_size((#[trigger] inputs[i]).witness)
                <= witness_limit(*descriptors[i]),
    ensures
        witness_slack(descriptors, inputs) >= 0,
        witnesses_size(inputs) + witness_slack(descriptors, inputs) == (plans(
            descriptors,
            false,
        )->Ok_0).0,
    decreases descriptors.len(),
{
    if descriptors.len() > 0 {
        let last = *descriptors.last();
        assert forall|i: int| 0 <= i < inputs.drop_last().len() implies witness_size(
            (#[trigger] inputs.drop_last()[i]).witness,
        ) <= witness_limit(*descriptors.drop_last()[i]) by {
            assert(inputs.drop_last()[i] == inputs[i]);
        }
        lemma_witnesses_planned(descriptors.drop_last(), inputs.drop_last());
        lemma_limit_planned(last);
        assert(inputs.last() == inputs[inputs.len() - 1]);
    }
}

/// A transaction without the witnesses of its inputs.
pub open spec fn without_witnesses(tx: TransactionView) -> TransactionView {
    TransactionView {
        input: tx.input.map_values(|i: TxInView| TxInView { witness: Seq::empty(), ..i }),
        ..tx
    }
}

/// That every input of a transaction has a witness.
pub open spec fn all_witnessed(tx: TransactionView) -> bool {
    forall|i: int| 0 <= i < tx.input.len() ==> (#[trigger] tx.input[i]).witness.len() > 0
}

/// By how much less a signed transaction weighs than was expected of it: what its witnesses spare. The
/// transaction without inputs is counted two weight units too many, as it is written with the flag of
/// witnesses before any is there.
pub open spec fn weight_slack(
    descriptors: Seq<&SpendableOutputDescriptor>,
    tx: TransactionView,
) -> int {
    witness_slack(descriptors, tx.input) + if descriptors.len() == 0 {
        2int
    } else {
        0int
    }
}

/// A signed transaction weighs no more than was expected of it when it was planned, and less by what its
/// witnesses spare. It is the planned one but for the witnesses, of which every input has one.
proof fn lemma_signed_weight(
    descriptors: Seq<&SpendableOutputDescriptor>,
    outputs: Seq<TxOutView>,
    change_script: Seq<u8>,
    feerate: u32,
    locktime: Option<u32>,
    psbt: PsbtView,
    max: nat,
    inputs: Seq<PsbtInputView>,
)
    requires
        spend_plan(descriptors, outputs, change_script, feerate, locktime, false) == Ok::<
            (PsbtView, nat),
            SignerError,
        >((psbt, max)),
        inputs.len() == descriptors.len(),
        forall|i: int|
            0 <= i < inputs.len() ==> (#[trigger] inputs[i]).final_script_sig is None,
        witnesses_within(psbt.unsigned_tx, inputs, descriptors),
    ensures
        weight(extracted(psbt.unsigned_tx, inputs)) <= max,
        max - weight(extracted(psbt.unsigned_tx, inputs)) == weight_slack(
            descriptors,
            extracted(psbt.unsigned_tx, inputs),
        ),
        without_witnesses(extracted(psbt.unsigned_tx, inputs)) == psbt.unsigned_tx,
        all_witnessed(extracted(psbt.unsigned_tx, inputs)),
{
    reveal(witnesses_within);
    let unsigned = unsigned_inputs(descriptors);
    let tx = TransactionView { output: outputs, ..psbt.unsigned_tx };
    let signed = extracted(psbt.unsigned_tx, inputs);
    let planned = (plans(descriptors, false)->Ok_0).0;
    assert(psbt.unsigned_tx.input == unsigned);
    assert(unsigned.take(unsigned.len() as int) =~= unsigned);
    assert forall|i: int| 0 <= i < signed.input.len() implies witness_fits(
        (#[trigger] signed.input[i]).witness,
        *descriptors[i],
    ) by {
        lemma_find_unsigned(descriptors, descriptors.len(), i);
        assert(find_input(unsigned, descriptors[i].outpoint()) == Some(i as nat));
    }
    lemma_witnesses_planned(descriptors, signed.input);
    lemma_inputs_size_same(signed.input, unsigned);
    assert(without_witnesses(signed).input =~= unsigned) by {
        assert forall|i: int| 0 <= i < unsigned.len() implies without_witnesses(signed).input[i]
            == #[trigger] unsigned[i] by {
            assert(inputs[i].final_script_sig is None);
            assert(unsigned[i] == descriptors[i].unsigned_input());
        }
    }
    let last = psbt.unsigned_tx.output;
    if last.len() > outputs.len() {
        assert(last.drop_last() =~= outputs);
    }
}

/// What weighs more costs no less.
proof fn lemma_fee_monotone(a: nat, b: nat, feerate: u32)
    requires
        a <= b,
    ensures
        fee(a, feerate) <= fee(b, feerate),
{
    assert(a * feerate as nat <= b * feerate as nat) by (nonlinear_arith)
        requires
            a <= b,
    ;
}

/// A copy of a list of byte vectors.
fn copy_rows(v: &[Vec<u8>]) -> (r: Vec<Vec<u8>>)
    ensures
        rows(r@) == rows(v@),
{
    let mut r: Vec<Vec<u8>> = Vec::new();
    let mut i: usize = 0;
    while i < v.len()
        invariant
            i <= v@.len(),
            r@.len() == i,
            forall|j: int| 0 <= j < i ==> (#[trigger] r@[j])@ == v@[j]@,
        decreases v@.len() - i,
    {
        r.push(copy_bytes(v[i].as_slice()));
        i += 1;
    }
    assert(rows(r@) =~= rows(v@));
    r
}

impl Psbt {
    /// The transaction, with the final scripts and witnesses of its inputs. What it pays in fees is not
    /// checked.
    pub fn extract_tx_unchecked_fee_rate(self) -> (r: Transaction)
        ensures
            r@ == extracted(self@.unsigned_tx, self@.inputs),
    {
        let mut tx: Transaction = self.unsigned_tx;
        let ghost start = tx@;
        let ghost goal = extracted(start, psbt_inputs_view(self.inputs@));
        let mut i: usize = 0;
        while i < tx.input.len() && i < self.inputs.len()
            invariant
                i <= tx.input@.len(),
                i <= self.inputs@.len(),
                goal == extracted(start, psbt_inputs_view(self.inputs@)),
                tx@.input.len() == start.input.len(),
                tx@ == (TransactionView { input: tx@.input, ..start }),
                forall|j: int| 0 <= j < i ==> #[trigger] tx@.input[j] == goal.input[j],
                forall|j: int| i <= j < start.input.len() ==> #[trigger] tx@.input[j]
                    == start.input[j],
            decreases tx.input@.len() - i,
        {
            let ghost before = tx@.input;
            let script_sig: Vec<u8> = match &self.inputs[i].final_script_sig {
                Some(s) => copy_bytes(s.as_slice()),
                None => Vec::new(),
            };
            let witness: Vec<Vec<u8>> = match &self.inputs[i].final_script_witness {
                Some(w) => copy_rows(w.as_slice()),
                None => Vec::new(),
            };
            let input = TxIn {
                previous_output: tx.input[i].previous_output,
                script_sig,
                sequence: tx.input[i].sequence,
                witness,
            };
            proof {
                assert(tx@.input[i as int] == tx.input@[i as int]@);
                assert(input@ =~= goal.input[i as int]);
            }
            tx.input[i] = input;
            assert(tx@.input =~= before.update(i as int, input@));
            i += 1;
        }
        assert(tx@.input =~= goal.input);
        tx
    }
}

impl OutputSpender for KeysManager {
    /// Creates a [`Transaction`] which spends the given descriptors to the given outputs, plus an
    /// output to the given change destination (if sufficient change value remains).
    ///
    /// We do not enforce that outputs meet the dust limit or that any output scripts are standard.
    ///
    /// The transaction weighs no more than was expected of it, and less by what each witness takes less than
    /// was planned for it. That rests on the lengths of the DER encoded signatures, of which the longest
    /// is planned for.
    fn spend_spendable_outputs(
        &mut self,
        descriptors: &[&SpendableOutputDescriptor],
        outputs: Vec<TxOut>,
        change_destination_script: Vec<u8>,
        feerate_sat_per_1000_weight: u32,
        locktime: Option<u32>,
    ) -> (r: Result<Transaction, SignerError>)
        ensures
            spent(
                old(self)@,
                final(self)@,
                descriptors@,
                spend_plan(
                    descriptors@,
                    outputs_view(outputs@),
                    change_destination_script@,
                    feerate_sat_per_1000_weight,
                    locktime,
                    false,
                ),
                match r {
                    Ok(tx) => Ok(tx@),
                    Err(e) => Err(e),
                },
            ),
            r matches Ok(tx) ==> outputs_value(tx@.output) + fee(
                weight(tx@),
                feerate_sat_per_1000_weight,
            ) <= total_value(descriptors@),
    {
        let ghost me = self@;
        let ghost outs = outputs_view(outputs@);
        let ghost script = change_destination_script@;
        assert((KeysManagerView { entropy: me.entropy, ..me }) == me);
        let (psbt, expected_max_weight): (Psbt, u64) =
            match SpendableOutputDescriptor::create_spendable_outputs_psbt(
            descriptors,
            outputs,
            change_destination_script,
            feerate_sat_per_1000_weight,
            locktime,
            false,
        ) {
            Ok(p) => p,
            Err(e) => {
                return Err(e);
            },
        };
        let ghost view = psbt@;
        proof {
            lemma_plans_unsigned(descriptors@, false);
            lemma_all_described(view, descriptors@);
        }
        match self.sign_spendable_outputs_psbt(descriptors, psbt) {
            Ok(signed) => {
                proof {
                    lemma_sweep_keeps(me, view, descriptors@);
                    lemma_signed_weight(
                        descriptors@,
                        outs,
                        script,
                        feerate_sat_per_1000_weight,
                        locktime,
                        view,
                        expected_max_weight as nat,
                        signed@.inputs,
                    );
                    lemma_fee_monotone(
                        weight(extracted(view.unsigned_tx, signed@.inputs)),
                        expected_max_weight as nat,
                        feerate_sat_per_1000_weight,
                    );
                }
                Ok(signed.extract_tx_unchecked_fee_rate())
            },
            Err(e) => Err(e),
        }
    }
}

/// What spending a plan comes to: the plan signed and extracted, which has a witness for every input, is
/// otherwise as planned, and weighs no more than expected, less by what its witnesses spare; or why there is
/// none. Only the manager's randomness changes.
pub open spec fn spent(
    before: KeysManagerView,
    after: KeysManagerView,
    descriptors: Seq<&SpendableOutputDescriptor>,
    plan: Result<(PsbtView, nat), SignerError>,
    r: Result<TransactionView, SignerError>,
) -> bool {
    match plan {
        Err(e) => r == Err::<TransactionView, SignerError>(e) && after == before,
        Ok((psbt, max)) => {
            let (signed, st) = sweep(before, psbt, descriptors);
            &&& after == (KeysManagerView { entropy: st.entropy, ..before })
            &&& match signed {
                Err(e) => r == Err::<TransactionView, SignerError>(e),
                Ok(inputs) => {
                    &&& r is Ok
                    &&& r->Ok_0 == extracted(psbt.unsigned_tx, inputs)
                    &&& without_witnesses(r->Ok_0) == psbt.unsigned_tx
                    &&& all_witnessed(r->Ok_0)
                    &&& weight(r->Ok_0) <= max
                    &&& max - weight(r->Ok_0) == weight_slack(descriptors, r->Ok_0)
                },
            }
        },
    }
}

} // verus!
