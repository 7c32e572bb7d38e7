//! That every output of ours can be recovered: each is signed for with the keys of the channel it came from,
//! and the witness opens the output.
use vstd::prelude::*;

use crate::channel::{derived_secret, SignerError};
use crate::curve::{der, ecdsa_with_noncedata, public_of, schnorr, x_only};
use crate::entropy::RandomBytesView;
use crate::keys_manager::{
    channel_secrets, channel_signer, channel_signers_follow_the_manager, of_seed, seed_child,
    KeysManagerView,
};
use crate::script::{
    countersigner_payment_script, p2pkh, p2tr, p2wpkh, p2wsh, push, push_int,
    revokeable_redeemscript, taproot_to_local_delay_script, taproot_to_local_revoke_script,
    taproot_to_remote_script, to_countersigner_anchor_redeemscript,
};
use crate::sighash::{segwit_sighash, tap_leaf_sighash};
use crate::signer::{delayed_input, payment_input, SignerView};
use crate::spend::{
    all_distinct, anchor_channel, plans_spend_what_is_described, spend_plan, taproot_channel,
    to_local_spend, to_remote_spend, unsigned_inputs, DelayedPaymentOutputDescriptor,
    PsbtInputView, PsbtView, SpendableOutputDescriptor, StaticPaymentOutputDescriptor,
    TAPROOT_NUMS_KEY,
};
use crate::sweep::{
    cached_signer, extracted, find_input, inputs_described, lemma_all_described, lemma_find_input,
    lemma_find_unsigned, lemma_plans_unsigned, lemma_sweep_keeps, spent_outputs, sweep, sweep_step,
    wallet_input, SweepState,
};
use crate::taproot::{control_block_proves_its_leaf, proves_leaf, tap_leaf_hash};
use crate::tx::{items_size, witness_size, TransactionView, TxOutView};

verus! {

/// That a witness item is an ECDSA signature by a key, with the hash type that follows it: of an input of a
/// transaction, under a script and for a value.
pub open spec fn signs_input(
    item: Seq<u8>,
    tx: TransactionView,
    index: nat,
    script: Seq<u8>,
    value: u64,
    secret: Seq<u8>,
    aux: Seq<u8>,
) -> bool {
    item == der(
        ecdsa_with_noncedata(segwit_sighash(tx, index, script, value, item.last()), secret, aux),
    ).push(1u8)
}

/// That a witness opens an output to the hash of a public key: a signature by the key, and the key.
pub open spec fn opens_key_hash(
    w: Seq<Seq<u8>>,
    tx: TransactionView,
    index: nat,
    output: TxOutView,
    secret: Seq<u8>,
    aux: Seq<u8>,
) -> bool {
    &&& w.len() == 2
    &&& w[1] == public_of(secret)
    &&& output.script_pubkey == p2wpkh(w[1])
    &&& signs_input(w[0], tx, index, p2pkh(w[1]), output.value, secret, aux)
}

/// That a witness opens the output of an anchor channel to a payment key: a signature by the key under the
/// script, and the script, which is the one that the output pays.
pub open spec fn opens_anchor_payment(
    w: Seq<Seq<u8>>,
    tx: TransactionView,
    index: nat,
    output: TxOutView,
    secret: Seq<u8>,
    aux: Seq<u8>,
) -> bool {
    &&& w.len() == 2
    &&& w[1] == to_countersigner_anchor_redeemscript(public_of(secret))
    &&& output.script_pubkey == p2wsh(w[1])
    &&& signs_input(w[0], tx, index, w[1], output.value, secret, aux)
}

/// That a witness opens a delayed output by its second branch: a signature by the delayed key under the
/// script, an empty item to take the branch, and the script, which is the one that the output pays. The
/// input waits the delay that the script asks for.
pub open spec fn opens_delayed(
    w: Seq<Seq<u8>>,
    tx: TransactionView,
    index: nat,
    output: TxOutView,
    revocation: Seq<u8>,
    delay: u16,
    secret: Seq<u8>,
    aux: Seq<u8>,
) -> bool {
    &&& w.len() == 3
    &&& w[1] == Seq::<u8>::empty()
    &&& w[2] == revokeable_redeemscript(revocation, delay, public_of(secret))
    &&& output.script_pubkey == p2wsh(w[2])
    &&& signs_input(w[0], tx, index, w[2], output.value, secret, aux)
    &&& tx.input[index as int].sequence == delay as u32
}

/// That a witness opens a taproot output by a leaf: a signature of all that the transaction spends by a key
/// under the leaf, the leaf, and a control block that proves it to be one of the output's.
pub open spec fn opens_leaf(
    w: Seq<Seq<u8>>,
    tx: TransactionView,
    index: nat,
    prevouts: Seq<TxOutView>,
    output: TxOutView,
    leaf: Seq<u8>,
    secret: Seq<u8>,
) -> bool {
    &&& w.len() == 3
    &&& w[0] == schnorr(tap_leaf_sighash(tx, index, prevouts, tap_leaf_hash(w[1])), secret)
    &&& w[1] == leaf
    &&& exists|key: Seq<u8>| output.script_pubkey == p2tr(key) && #[trigger] proves_leaf(w[2], leaf, key)
}

/// What is signed for an output to our payment key opens it, with the one of the signer's two payment keys
/// that it pays. An output that pays either key is signed for, whichever of them the channel uses.
pub proof fn payment_witness_opens_the_output(
    s: SignerView,
    tx: TransactionView,
    index: nat,
    d: StaticPaymentOutputDescriptor,
    prevouts: Seq<TxOutView>,
)
    requires
        payment_input(s, tx, index, d, prevouts).0 is Ok,
    ensures
        index < tx.input.len(),
        tx.input[index as int].previous_output == d.outpoint@,
        ({
            let w = payment_input(s, tx, index, d, prevouts).0->Ok_0;
            let aux = s.entropy.value();
            let leaf = |secret: Seq<u8>| push(x_only(public_of(secret))) + seq![0xadu8, 0x51, 0xb2];
            if taproot_channel(d.channel_transaction_parameters) {
                ||| opens_leaf(w, tx, index, prevouts, d.output@, leaf(s.payment_key_v1), s.payment_key_v1)
                ||| opens_leaf(w, tx, index, prevouts, d.output@, leaf(s.payment_key_v2), s.payment_key_v2)
            } else if anchor_channel(d.channel_transaction_parameters) {
                ||| opens_anchor_payment(w, tx, index, d.output@, s.payment_key_v1, aux)
                ||| opens_anchor_payment(w, tx, index, d.output@, s.payment_key_v2, aux)
            } else {
                ||| opens_key_hash(w, tx, index, d.output@, s.payment_key_v1, aux)
                ||| opens_key_hash(w, tx, index, d.output@, s.payment_key_v2, aux)
            }
        }),
{
    let w = payment_input(s, tx, index, d, prevouts).0->Ok_0;
    if taproot_channel(d.channel_transaction_parameters) {
        let (v1, block_v1) = to_remote_spend(public_of(s.payment_key_v1))->0;
        let (v2, block_v2) = to_remote_spend(public_of(s.payment_key_v2))->0;
        control_block_proves_its_leaf(
            TAPROOT_NUMS_KEY@,
            taproot_to_remote_script(public_of(s.payment_key_v1)),
            None,
        );
        control_block_proves_its_leaf(
            TAPROOT_NUMS_KEY@,
            taproot_to_remote_script(public_of(s.payment_key_v2)),
            None,
        );
        if p2tr(v1) == d.output.script_pubkey@ {
            assert(proves_leaf(w[2], w[1], v1));
        } else {
            assert(proves_leaf(w[2], w[1], v2));
        }
    }
}

/// What is signed for an output to our delayed key opens it, with the key that the signer has at the output's
/// commitment. The hash of the leaf beside the delay leaf is of the 32 bytes that it is.
pub proof fn delayed_witness_opens_the_output(
    s: SignerView,
    tx: TransactionView,
    index: nat,
    d: DelayedPaymentOutputDescriptor,
    prevouts: Seq<TxOutView>,
)
    requires
        delayed_input(s, tx, index, d, prevouts).0 is Ok,
        tap_leaf_hash(
            taproot_to_local_revoke_script(
                d.revocation_pubkey@,
                public_of(
                    derived_secret(s.delayed_payment_base_key, d.per_commitment_point@)->0,
                ),
            ),
        ).len() == 32,
    ensures
        index < tx.input.len(),
        tx.input[index as int].previous_output == d.outpoint@,
        tx.input[index as int].sequence == d.to_self_delay as u32,
        derived_secret(s.delayed_payment_base_key, d.per_commitment_point@) is Some,
        ({
            let w = delayed_input(s, tx, index, d, prevouts).0->Ok_0;
            let secret = derived_secret(s.delayed_payment_base_key, d.per_commitment_point@)->0;
            if taproot_channel(d.channel_transaction_parameters) {
                opens_leaf(
                    w,
                    tx,
                    index,
                    prevouts,
                    d.output@,
                    push(x_only(public_of(secret))) + seq![0xadu8] + push_int(d.to_self_delay as nat)
                        + seq![0xb2u8],
                    secret,
                )
            } else {
                opens_delayed(
                    w,
                    tx,
                    index,
                    d.output@,
                    d.revocation_pubkey@,
                    d.to_self_delay,
                    secret,
                    s.entropy.value(),
                )
            }
        }),
{
    let w = delayed_input(s, tx, index, d, prevouts).0->Ok_0;
    let secret = derived_secret(s.delayed_payment_base_key, d.per_commitment_point@)->0;
    if taproot_channel(d.channel_transaction_parameters) {
        let revoke = taproot_to_local_revoke_script(
            d.revocation_pubkey@,
            public_of(secret),
        );
        assert(tap_leaf_hash(revoke).len() == 32);
        control_block_proves_its_leaf(
            TAPROOT_NUMS_KEY@,
            taproot_to_local_delay_script(d.to_self_delay, public_of(secret)),
            Some(revoke),
        );
        let (key, _) = to_local_spend(d.revocation_pubkey@, d.to_self_delay, public_of(secret))->0;
        assert(proves_leaf(w[2], w[1], key));
    }
}

/// What is signed for an output to the node's own wallet opens it, with the key that its script is of: one of
/// two children of the node's seed.
pub proof fn wallet_witness_opens_the_output(
    m: KeysManagerView,
    entropy: RandomBytesView,
    tx: TransactionView,
    index: nat,
    output: TxOutView,
)
    requires
        wallet_input(m, entropy, tx, index, output) is Ok,
    ensures
        ({
            let w = wallet_input(m, entropy, tx, index, output)->Ok_0;
            ||| opens_key_hash(
                w,
                tx,
                index,
                output,
                (seed_child(m.seed, 1)->0).key,
                entropy.value(),
            )
            ||| opens_key_hash(
                w,
                tx,
                index,
                output,
                (seed_child(m.seed, 2)->0).key,
                entropy.value(),
            )
        }),
{
}

/// What is planned for the witness of an output that is not a taproot output is what the longest such witness
/// takes, no more: one with a signature of 72 bytes, its hash type with it, and for a delayed output with a
/// script of 78. Points are of the 33 bytes that they are.
pub proof fn estimates_are_of_the_longest_witness(
    s: SignerView,
    tx: TransactionView,
    index: nat,
    payment: StaticPaymentOutputDescriptor,
    delayed: DelayedPaymentOutputDescriptor,
    prevouts: Seq<TxOutView>,
)
    requires
        public_of(s.payment_key_v1).len() == 33,
        public_of(s.payment_key_v2).len() == 33,
    ensures
        payment_input(s, tx, index, payment, prevouts).0 matches Ok(w) ==> (!taproot_channel(
            payment.channel_transaction_parameters,
        ) && w[0].len() < 0xfd ==> payment.witness_weight() == Some(
            (witness_size(w) + 72 - w[0].len()) as nat,
        )),
        delayed_input(s, tx, index, delayed, prevouts).0 matches Ok(w) ==> (!taproot_channel(
            delayed.channel_transaction_parameters,
        ) && w[0].len() < 0xfd && w[2].len() < 0xfd ==> delayed.witness_weight() == Some(
            (witness_size(w) + 72 - w[0].len() + 78 - w[2].len()) as nat,
        )),
{
    reveal_with_fuel(items_size, 4);
    if let Ok(w) = payment_input(s, tx, index, payment, prevouts).0 {
        if !taproot_channel(payment.channel_transaction_parameters) {
            assert(w.drop_last().last() == w[0]);
            assert(w.last() == w[1]);
        }
    }
    if let Ok(w) = delayed_input(s, tx, index, delayed, prevouts).0 {
        if !taproot_channel(delayed.channel_transaction_parameters) {
            assert(w.drop_last().drop_last().last() == w[0]);
            assert(w.drop_last().last() == w[1]);
            assert(w.last() == w[2]);
        }
    }
}

/// A signature that is ground to be short spares one byte of what is planned, on every output that is not a
/// taproot output; on those it spares nothing.
pub proof fn ground_signatures_spare_a_byte(d: SpendableOutputDescriptor)
    requires
        d.witness_weight(false) is Some,
    ensures
        ({
            let taproot = match d {
                SpendableOutputDescriptor::StaticOutput { .. } => false,
                SpendableOutputDescriptor::DelayedPaymentOutput(x) => taproot_channel(
                    x.channel_transaction_parameters,
                ),
                SpendableOutputDescriptor::StaticPaymentOutput(x) => taproot_channel(
                    x.channel_transaction_parameters,
                ),
            };
            d.witness_weight(true) == Some(
                (d.witness_weight(false)->0 - if taproot {
                    0int
                } else {
                    1int
                }) as nat,
            )
        }),
{
}

/// When an output to our payment key is signed for: where the input exists, has no script signature and spends
/// it, and its script is that of one of the signer's two payment keys, in the form of the channel's type; on a
/// taproot channel what the transaction spends must be known of every input. On other channels that is not
/// asked for.
pub proof fn payments_are_signed_for_where_they_are_ours(
    s: SignerView,
    tx: TransactionView,
    index: nat,
    d: StaticPaymentOutputDescriptor,
    prevouts: Seq<TxOutView>,
)
    ensures
        payment_input(s, tx, index, d, prevouts).0 is Ok <==> {
            let script = d.output.script_pubkey@;
            let v1 = public_of(s.payment_key_v1);
            let v2 = public_of(s.payment_key_v2);
            &&& index < tx.input.len()
            &&& tx.input[index as int].script_sig.len() == 0
            &&& tx.input[index as int].previous_output == d.outpoint@
            &&& if taproot_channel(d.channel_transaction_parameters) {
                &&& prevouts.len() == tx.input.len()
                &&& to_remote_spend(v1) is Some
                &&& to_remote_spend(v2) is Some
                &&& script == p2tr((to_remote_spend(v1)->0).0) || script == p2tr(
                    (to_remote_spend(v2)->0).0,
                )
            } else if anchor_channel(d.channel_transaction_parameters) {
                ||| script == p2wsh(to_countersigner_anchor_redeemscript(v1))
                ||| script == p2wsh(to_countersigner_anchor_redeemscript(v2))
            } else {
                ||| script == p2wpkh(v1)
                ||| script == p2wpkh(v2)
            }
        },
{
}

/// When an output to our delayed key is signed for: where the input exists, has no script signature, spends it
/// and waits its delay, and its script is the one that names the revocation key, the delay and the key that
/// the signer has at its commitment; on a taproot channel what the transaction spends must be known of every
/// input.
pub proof fn delayed_payments_are_signed_for_where_they_are_ours(
    s: SignerView,
    tx: TransactionView,
    index: nat,
    d: DelayedPaymentOutputDescriptor,
    prevouts: Seq<TxOutView>,
)
    ensures
        delayed_input(s, tx, index, d, prevouts).0 is Ok <==> {
            let secret = derived_secret(s.delayed_payment_base_key, d.per_commitment_point@);
            &&& index < tx.input.len()
            &&& tx.input[index as int].script_sig.len() == 0
            &&& tx.input[index as int].previous_output == d.outpoint@
            &&& tx.input[index as int].sequence == d.to_self_delay
            &&& secret is Some
            &&& if taproot_channel(d.channel_transaction_parameters) {
                let spend = to_local_spend(
                    d.revocation_pubkey@,
                    d.to_self_delay,
                    public_of(secret->0),
                );
                &&& prevouts.len() == tx.input.len()
                &&& spend is Some
                &&& d.output.script_pubkey@ == p2tr((spend->0).0)
            } else {
                d.output.script_pubkey@ == p2wsh(
                    revokeable_redeemscript(
                        d.revocation_pubkey@,
                        d.to_self_delay,
                        public_of(secret->0),
                    ),
                )
            }
        },
{
}

/// When an output to the wallet is signed for: where its script is that of the destination key or of the
/// shutdown key, both children of the seed.
pub proof fn wallet_outputs_are_signed_for_where_they_are_ours(
    m: KeysManagerView,
    entropy: RandomBytesView,
    tx: TransactionView,
    index: nat,
    output: TxOutView,
)
    requires
        of_seed(m),
    ensures
        wallet_input(m, entropy, tx, index, output) is Ok <==> output.script_pubkey == p2wpkh(
            public_of((seed_child(m.seed, 1)->0).key),
        ) || output.script_pubkey == p2wpkh(public_of((seed_child(m.seed, 2)->0).key)),
{
}

/// The payment point that a signer gives out for a channel is one that it can spend from: an output to it, in
/// the form of the channel's type, is signed for by the input that spends it.
pub proof fn own_payment_point_can_be_spent(
    s: SignerView,
    tx: TransactionView,
    index: nat,
    d: StaticPaymentOutputDescriptor,
    prevouts: Seq<TxOutView>,
)
    requires
        index < tx.input.len(),
        tx.input[index as int].script_sig.len() == 0,
        tx.input[index as int].previous_output == d.outpoint@,
        prevouts.len() == tx.input.len(),
        to_remote_spend(public_of(s.payment_key_v1)) is Some,
        to_remote_spend(public_of(s.payment_key_v2)) is Some,
        d.output.script_pubkey@ == ({
            let point = public_of(
                if s.v2_remote_key_derivation {
                    s.payment_key_v2
                } else {
                    s.payment_key_v1
                },
            );
            if taproot_channel(d.channel_transaction_parameters) {
                p2tr((to_remote_spend(point)->0).0)
            } else {
                countersigner_payment_script(
                    anchor_channel(d.channel_transaction_parameters),
                    point,
                )
            }
        }),
    ensures
        payment_input(s, tx, index, d, prevouts).0 is Ok,
{
}

/// That a signer has the keys of a channel of a manager.
pub open spec fn of_channel(m: KeysManagerView, s: SignerView, id: Seq<u8>) -> bool {
    channel_signer(m, id) is Some && s.same_keys(channel_signer(m, id)->0)
}

/// That a witness is one by the keys of the channel that an output came from, or of the wallet that it pays,
/// with whatever randomness.
#[verifier::opaque]
pub open spec fn own_witness(
    m: KeysManagerView,
    tx: TransactionView,
    index: nat,
    prevouts: Seq<TxOutView>,
    d: SpendableOutputDescriptor,
    w: Seq<Seq<u8>>,
) -> bool {
    match d {
        SpendableOutputDescriptor::StaticPaymentOutput(x) => exists|s: SignerView| #[trigger]
            of_channel(m, s, x.channel_keys_id@) && payment_input(s, tx, index, x, prevouts).0
                == Ok::<Seq<Seq<u8>>, SignerError>(w),
        SpendableOutputDescriptor::DelayedPaymentOutput(x) => exists|s: SignerView| #[trigger]
            of_channel(m, s, x.channel_keys_id@) && delayed_input(s, tx, index, x, prevouts).0
                == Ok::<Seq<Seq<u8>>, SignerError>(w),
        SpendableOutputDescriptor::StaticOutput { output, .. } => exists|e: RandomBytesView|
            #[trigger] wallet_input(m, e, tx, index, output@) == Ok::<Seq<Seq<u8>>, SignerError>(w),
    }
}

/// That what a descriptor describes is spent by an input of a transaction, and can be signed for by the keys
/// of its own channel, or of the wallet.
#[verifier::opaque]
pub open spec fn own_to_sign(
    m: KeysManagerView,
    tx: TransactionView,
    prevouts: Seq<TxOutView>,
    d: SpendableOutputDescriptor,
) -> bool {
    match find_input(tx.input, d.outpoint()) {
        None => false,
        Some(k) => match d {
            SpendableOutputDescriptor::StaticPaymentOutput(x) => match channel_signer(
                m,
                x.channel_keys_id@,
            ) {
                Some(s) => payment_input(s, tx, k, x, prevouts).0 is Ok,
                None => false,
            },
            SpendableOutputDescriptor::DelayedPaymentOutput(x) => match channel_signer(
                m,
                x.channel_keys_id@,
            ) {
                Some(s) => delayed_input(s, tx, k, x, prevouts).0 is Ok,
                None => false,
            },
            SpendableOutputDescriptor::StaticOutput { output, .. } => wallet_input(
                m,
                m.entropy,
                tx,
                k,
                output@,
            ) is Ok,
        },
    }
}

/// That the signer kept from the last channel has the keys of the channel that it says it is of.
spec fn keeps_own(m: KeysManagerView, st: SweepState) -> bool {
    st.cache matches Some(c) ==> of_channel(m, c, c.channel_keys_id)
}

/// The signer that a sweep uses for a channel, kept from the last output or derived anew, has the keys of that
/// channel; there is one exactly where the channel's keys exist.
pub proof fn sweeps_use_the_channels_own_signer(m: KeysManagerView, st: SweepState, id: Seq<u8>)
    requires
        st.cache matches Some(c) ==> of_channel(m, c, c.channel_keys_id),
    ensures
        cached_signer(m, st, id).0 is Some <==> channel_signer(m, id) is Some,
        cached_signer(m, st, id).0 matches Some(s) ==> of_channel(m, s, id) && s.channel_keys_id
            == id,
{
    let now = KeysManagerView { entropy: st.entropy, ..m };
    assert(channel_secrets(now, id) == channel_secrets(m, id));
}

/// One step of a sweep signs with the keys of the descriptor's own channel, whatever signer was kept, and
/// succeeds where those keys can sign.
#[verifier::spinoff_prover]
#[verifier::rlimit(60)]
proof fn lemma_step_is_own(
    m: KeysManagerView,
    st: SweepState,
    tx: TransactionView,
    prevouts: Seq<TxOutView>,
    d: SpendableOutputDescriptor,
)
    requires
        keeps_own(m, st),
    ensures
        ({
            let (signed, after) = sweep_step(m, st, tx, prevouts, d);
            &&& signed is Ok <==> own_to_sign(m, tx, prevouts, d)
            &&& signed matches Ok((k, w)) ==> find_input(tx.input, d.outpoint()) == Some(k)
                && own_witness(m, tx, k, prevouts, d, w) && keeps_own(m, after)
        }),
{
    reveal(sweep_step);
    reveal(own_witness);
    reveal(own_to_sign);
    let id = match d {
        SpendableOutputDescriptor::StaticPaymentOutput(x) => x.channel_keys_id@,
        SpendableOutputDescriptor::DelayedPaymentOutput(x) => x.channel_keys_id@,
        SpendableOutputDescriptor::StaticOutput { .. } => Seq::empty(),
    };
    sweeps_use_the_channels_own_signer(m, st, id);
    let s = cached_signer(m, st, id).0;
    if let Some(k) = find_input(tx.input, d.outpoint()) {
        match d {
            SpendableOutputDescriptor::StaticPaymentOutput(x) => {
                if let Some(own) = s {
                    let signed = payment_input(own, tx, k, x, prevouts);
                    assert(signed.0 is Ok <==> payment_input(
                        channel_signer(m, id)->0,
                        tx,
                        k,
                        x,
                        prevouts,
                    ).0 is Ok);
                    assert(of_channel(m, own.drawn(), id));
                }
            },
            SpendableOutputDescriptor::DelayedPaymentOutput(x) => {
                if let Some(own) = s {
                    let signed = delayed_input(own, tx, k, x, prevouts);
                    assert(signed.0 is Ok <==> delayed_input(
                        channel_signer(m, id)->0,
                        tx,
                        k,
                        x,
                        prevouts,
                    ).0 is Ok);
                    assert(of_channel(m, own.drawn(), id));
                }
            },
            SpendableOutputDescriptor::StaticOutput { output, .. } => {
                assert(wallet_input(m, st.entropy, tx, k, output@) is Ok <==> wallet_input(
                    m,
                    m.entropy,
                    tx,
                    k,
                    output@,
                ) is Ok);
            },
        }
    }
}

/// A sweep succeeds where each step does, and keeps a signer of its own channel.
proof fn lemma_sweep_succeeds(
    m: KeysManagerView,
    psbt: PsbtView,
    descriptors: Seq<&SpendableOutputDescriptor>,
)
    ensures
        ({
            let (signed, st) = sweep(m, psbt, descriptors);
            &&& signed is Ok ==> keeps_own(m, st)
            &&& signed is Ok <==> forall|i: int|
                0 <= i < descriptors.len() ==> own_to_sign(
                    m,
                    psbt.unsigned_tx,
                    spent_outputs(psbt.inputs),
                    *(#[trigger] descriptors[i]),
                )
        }),
    decreases descriptors.len(),
{
    if descriptors.len() > 0 {
        let before = descriptors.drop_last();
        let d = *descriptors.last();
        let prevouts = spent_outputs(psbt.inputs);
        assert(d == *descriptors[descriptors.len() - 1]);
        lemma_sweep_succeeds(m, psbt, before);
        let (signed, st) = sweep(m, psbt, before);
        if signed is Ok {
            lemma_step_is_own(m, st, psbt.unsigned_tx, prevouts, d);
            if sweep(m, psbt, descriptors).0 is Ok {
                assert forall|i: int| 0 <= i < descriptors.len() implies own_to_sign(
                    m,
                    psbt.unsigned_tx,
                    prevouts,
                    *(#[trigger] descriptors[i]),
                ) by {
                    if i < before.len() {
                        assert(before[i] == descriptors[i]);
                    }
                }
            }
        } else {
            let i = choose|i: int|
                0 <= i < before.len() && !own_to_sign(
                    m,
                    psbt.unsigned_tx,
                    prevouts,
                    *(#[trigger] before[i]),
                );
            assert(before[i] == descriptors[i]);
        }
    }
}

/// A sweep places in each input a witness of its own channel.
#[verifier::spinoff_prover]
#[verifier::rlimit(60)]
proof fn lemma_sweep_is_own(
    m: KeysManagerView,
    psbt: PsbtView,
    descriptors: Seq<&SpendableOutputDescriptor>,
)
    requires
        inputs_described(psbt, descriptors),
        all_distinct(descriptors),
        sweep(m, psbt, descriptors).0 is Ok,
    ensures
        forall|i: int|
            0 <= i < descriptors.len() ==> own_signed(
                m,
                psbt,
                sweep(m, psbt, descriptors).0->Ok_0,
                *(#[trigger] descriptors[i]),
            ),
    decreases descriptors.len(),
{
    if descriptors.len() > 0 {
        let before = descriptors.drop_last();
        let d = *descriptors.last();
        let tx = psbt.unsigned_tx;
        assert(forall|i: int| 0 <= i < before.len() ==> #[trigger] before[i] == descriptors[i]);
        assert(d == *descriptors[descriptors.len() - 1]);
        lemma_sweep_is_own(m, psbt, before);
        lemma_sweep_succeeds(m, psbt, before);
        lemma_sweep_keeps(m, psbt, before);
        let (signed, st) = sweep(m, psbt, before);
        lemma_step_is_own(m, st, tx, spent_outputs(psbt.inputs), d);
        let inputs = sweep(m, psbt, descriptors).0->Ok_0;
        let k = find_input(tx.input, d.outpoint())->0;
        lemma_find_input(tx.input, d.outpoint());
        assert forall|i: int| 0 <= i < descriptors.len() implies own_signed(
            m,
            psbt,
            inputs,
            *(#[trigger] descriptors[i]),
        ) by {
            if i < before.len() {
                assert(own_signed(m, psbt, signed->Ok_0, *before[i]));
                lemma_find_input(tx.input, descriptors[i].outpoint());
                assert(descriptors[i].outpoint() != descriptors[descriptors.len() - 1].outpoint());
                let j = find_input(tx.input, descriptors[i].outpoint())->0;
                assert(j != k);
                assert(inputs[j as int] == (signed->Ok_0)[j as int]);
            }
        }
    }
}

/// Signing changes of a PSBT nothing but the witnesses of the inputs that spend what is described: an input that
/// no descriptor is of stays as it was, whatever it holds, and of the others all but the witness does.
#[verifier::spinoff_prover]
#[verifier::rlimit(60)]
pub proof fn sweeps_leave_the_rest_alone(
    m: KeysManagerView,
    psbt: PsbtView,
    descriptors: Seq<&SpendableOutputDescriptor>,
)
    requires
        inputs_described(psbt, descriptors),
        sweep(m, psbt, descriptors).0 is Ok,
    ensures
        ({
            let inputs = sweep(m, psbt, descriptors).0->Ok_0;
            &&& inputs.len() == psbt.inputs.len()
            &&& forall|k: int|
                0 <= k < inputs.len() ==> {
                    &&& (#[trigger] inputs[k]).witness_utxo == psbt.inputs[k].witness_utxo
                    &&& inputs[k].witness_script == psbt.inputs[k].witness_script
                    &&& inputs[k].proprietary == psbt.inputs[k].proprietary
                    &&& inputs[k].final_script_sig == psbt.inputs[k].final_script_sig
                    &&& (forall|i: int|
                        0 <= i < descriptors.len() ==> find_input(
                            psbt.unsigned_tx.input,
                            (#[trigger] descriptors[i]).outpoint(),
                        ) != Some(k as nat)) ==> inputs[k] == psbt.inputs[k]
                }
        }),
    decreases descriptors.len(),
{
    if descriptors.len() > 0 {
        reveal(sweep_step);
        let before = descriptors.drop_last();
        assert(forall|i: int| 0 <= i < before.len() ==> #[trigger] before[i] == descriptors[i]);
        assert(descriptors.last() == descriptors[descriptors.len() - 1]);
        assert(inputs_described(psbt, before));
        sweeps_leave_the_rest_alone(m, psbt, before);
        let inputs = sweep(m, psbt, descriptors).0->Ok_0;
        let was = sweep(m, psbt, before).0->Ok_0;
        assert forall|k: int| 0 <= k < inputs.len() implies {
            &&& (#[trigger] inputs[k]).witness_utxo == psbt.inputs[k].witness_utxo
            &&& inputs[k].witness_script == psbt.inputs[k].witness_script
            &&& inputs[k].proprietary == psbt.inputs[k].proprietary
            &&& inputs[k].final_script_sig == psbt.inputs[k].final_script_sig
            &&& (forall|i: int|
                0 <= i < descriptors.len() ==> find_input(
                    psbt.unsigned_tx.input,
                    (#[trigger] descriptors[i]).outpoint(),
                ) != Some(k as nat)) ==> inputs[k] == psbt.inputs[k]
        } by {
            assert(was[k].witness_utxo == psbt.inputs[k].witness_utxo);
            if forall|i: int|
                0 <= i < descriptors.len() ==> find_input(
                    psbt.unsigned_tx.input,
                    (#[trigger] descriptors[i]).outpoint(),
                ) != Some(k as nat) {
                assert(forall|i: int|
                    0 <= i < before.len() ==> find_input(
                        psbt.unsigned_tx.input,
                        (#[trigger] before[i]).outpoint(),
                    ) != Some(k as nat));
                assert(find_input(psbt.unsigned_tx.input, descriptors.last().outpoint()) != Some(
                    k as nat,
                ));
            }
        }
    }
}

/// A transaction that is taken out of a PSBT is the one that the PSBT was of, with the final script and witness
/// of each input that the PSBT has them for, and none where it has none.
pub proof fn extraction_adds_the_final_parts(tx: TransactionView, inputs: Seq<PsbtInputView>)
    requires
        inputs.len() == tx.input.len(),
    ensures
        ({
            let out = extracted(tx, inputs);
            &&& out.version == tx.version
            &&& out.lock_time == tx.lock_time
            &&& out.output == tx.output
            &&& out.input.len() == tx.input.len()
            &&& forall|i: int|
                0 <= i < tx.input.len() ==> {
                    &&& (#[trigger] out.input[i]).previous_output == tx.input[i].previous_output
                    &&& out.input[i].sequence == tx.input[i].sequence
                    &&& inputs[i].final_script_sig matches Some(s) ==> out.input[i].script_sig == s
                    &&& inputs[i].final_script_sig is None ==> out.input[i].script_sig.len() == 0
                    &&& inputs[i].final_script_witness matches Some(w) ==> out.input[i].witness == w
                    &&& inputs[i].final_script_witness is None ==> out.input[i].witness.len() == 0
                }
        }),
{
}

/// A sweep's signer of a channel is the one kept from the last output, or one derived anew, whose randomness
/// starts at the next block of the manager's; that block is then used up.
pub proof fn signers_are_kept_or_seeded_afresh(m: KeysManagerView, st: SweepState, id: Seq<u8>)
    requires
        cached_signer(m, st, id).0 is Some,
    ensures
        ({
            let (signer, entropy) = cached_signer(m, st, id);
            ||| signer == st.cache && entropy == st.entropy
            ||| entropy == st.entropy.next() && (signer->0).entropy == (RandomBytesView {
                seed: st.entropy.value(),
                index: 0,
            })
        }),
{
    if !(st.cache is Some && (st.cache->0).channel_keys_id == id) {
        channel_signers_follow_the_manager(KeysManagerView { entropy: st.entropy, ..m }, id);
    }
}

/// No randomness goes into two signatures of a sweep: a wallet input uses up a draw of the manager's, and each
/// ECDSA signature of a channel's uses up one of its signer's, which is kept so for the next output of the
/// channel.
#[verifier::spinoff_prover]
#[verifier::rlimit(60)]
pub proof fn sweeps_use_randomness_once(
    m: KeysManagerView,
    st: SweepState,
    tx: TransactionView,
    prevouts: Seq<TxOutView>,
    d: SpendableOutputDescriptor,
)
    requires
        sweep_step(m, st, tx, prevouts, d).0 is Ok,
    ensures
        ({
            let after = sweep_step(m, st, tx, prevouts, d).1;
            let used = |id: Seq<u8>| cached_signer(m, st, id);
            match d {
                SpendableOutputDescriptor::StaticOutput { .. } => {
                    &&& after.entropy == st.entropy.next()
                    &&& after.cache == st.cache
                },
                SpendableOutputDescriptor::StaticPaymentOutput(x) => {
                    &&& after.entropy == used(x.channel_keys_id@).1
                    &&& after.cache == Some(
                        if taproot_channel(x.channel_transaction_parameters) {
                            used(x.channel_keys_id@).0->0
                        } else {
                            (used(x.channel_keys_id@).0->0).drawn()
                        },
                    )
                },
                SpendableOutputDescriptor::DelayedPaymentOutput(x) => {
                    &&& after.entropy == used(x.channel_keys_id@).1
                    &&& after.cache == Some(
                        if taproot_channel(x.channel_transaction_parameters) {
                            used(x.channel_keys_id@).0->0
                        } else {
                            (used(x.channel_keys_id@).0->0).drawn()
                        },
                    )
                },
            }
        }),
{
    reveal(sweep_step);
    match d {
        SpendableOutputDescriptor::StaticOutput { .. } => {},
        SpendableOutputDescriptor::StaticPaymentOutput(x) => {
            let s = cached_signer(m, st, x.channel_keys_id@).0;
            assert(s is Some);
        },
        SpendableOutputDescriptor::DelayedPaymentOutput(x) => {
            let s = cached_signer(m, st, x.channel_keys_id@).0;
            assert(s is Some);
        },
    }
}

/// That the input which spends what a descriptor describes has a witness by its own channel's keys, or the
/// wallet's.
pub open spec fn own_signed(
    m: KeysManagerView,
    psbt: PsbtView,
    inputs: Seq<PsbtInputView>,
    d: SpendableOutputDescriptor,
) -> bool {
    match find_input(psbt.unsigned_tx.input, d.outpoint()) {
        None => false,
        Some(k) => match inputs[k as int].final_script_witness {
            None => false,
            Some(w) => own_witness(m, psbt.unsigned_tx, k, spent_outputs(psbt.inputs), d, w),
        },
    }
}

/// Every output that is swept is signed for by the keys of the channel it came from, whatever outputs are
/// swept with it and in whatever order.
pub proof fn each_output_is_signed_by_its_own_channel(
    m: KeysManagerView,
    psbt: PsbtView,
    descriptors: Seq<&SpendableOutputDescriptor>,
    i: int,
)
    requires
        inputs_described(psbt, descriptors),
        all_distinct(descriptors),
        sweep(m, psbt, descriptors).0 is Ok,
        0 <= i < descriptors.len(),
    ensures
        own_signed(m, psbt, sweep(m, psbt, descriptors).0->Ok_0, *descriptors[i]),
{
    lemma_sweep_is_own(m, psbt, descriptors);
}

/// A sweep succeeds exactly where each of its outputs alone can be signed for by its own channel: no output
/// stands in another's way.
pub proof fn sweeps_succeed_where_each_output_does(
    m: KeysManagerView,
    psbt: PsbtView,
    descriptors: Seq<&SpendableOutputDescriptor>,
)
    requires
        inputs_described(psbt, descriptors),
    ensures
        sweep(m, psbt, descriptors).0 is Ok <==> forall|i: int|
            0 <= i < descriptors.len() ==> own_to_sign(
                m,
                psbt.unsigned_tx,
                spent_outputs(psbt.inputs),
                *(#[trigger] descriptors[i]),
            ),
{
    lemma_sweep_succeeds(m, psbt, descriptors);
}

/// That an output pays a script of ours: of its own channel's keys, or of the wallet's.
pub open spec fn pays_own(m: KeysManagerView, d: SpendableOutputDescriptor) -> bool {
    let script = d.output().script_pubkey;
    match d {
        SpendableOutputDescriptor::StaticOutput { .. } => {
            ||| script == p2wpkh(public_of((seed_child(m.seed, 1)->0).key))
            ||| script == p2wpkh(public_of((seed_child(m.seed, 2)->0).key))
        },
        SpendableOutputDescriptor::StaticPaymentOutput(x) => match channel_signer(
            m,
            x.channel_keys_id@,
        ) {
            None => false,
            Some(s) => {
                let v1 = public_of(s.payment_key_v1);
                let v2 = public_of(s.payment_key_v2);
                if taproot_channel(x.channel_transaction_parameters) {
                    &&& to_remote_spend(v1) is Some
                    &&& to_remote_spend(v2) is Some
                    &&& script == p2tr((to_remote_spend(v1)->0).0) || script == p2tr(
                        (to_remote_spend(v2)->0).0,
                    )
                } else {
                    let anchors = anchor_channel(x.channel_transaction_parameters);
                    ||| script == countersigner_payment_script(anchors, v1)
                    ||| script == countersigner_payment_script(anchors, v2)
                }
            },
        },
        SpendableOutputDescriptor::DelayedPaymentOutput(x) => match channel_signer(
            m,
            x.channel_keys_id@,
        ) {
            None => false,
            Some(s) => match derived_secret(
                s.delayed_payment_base_key,
                x.per_commitment_point@,
            ) {
                None => false,
                Some(k) => if taproot_channel(x.channel_transaction_parameters) {
                    match to_local_spend(x.revocation_pubkey@, x.to_self_delay, public_of(k)) {
                        None => false,
                        Some((key, _)) => script == p2tr(key),
                    }
                } else {
                    script == p2wsh(
                        revokeable_redeemscript(
                            x.revocation_pubkey@,
                            x.to_self_delay,
                            public_of(k),
                        ),
                    )
                },
            },
        },
    }
}

/// The unsigned input of an output that pays a script of ours can be signed for.
#[verifier::spinoff_prover]
#[verifier::rlimit(60)]
proof fn lemma_own_can_be_signed(
    m: KeysManagerView,
    tx: TransactionView,
    prevouts: Seq<TxOutView>,
    d: SpendableOutputDescriptor,
    k: nat,
)
    requires
        of_seed(m),
        pays_own(m, d),
        find_input(tx.input, d.outpoint()) == Some(k),
        k < tx.input.len(),
        tx.input[k as int] == d.unsigned_input(),
        prevouts.len() == tx.input.len(),
    ensures
        own_to_sign(m, tx, prevouts, d),
{
    reveal(own_to_sign);
    match d {
        SpendableOutputDescriptor::StaticOutput { output, .. } => {
            wallet_outputs_are_signed_for_where_they_are_ours(m, m.entropy, tx, k, output@);
        },
        SpendableOutputDescriptor::StaticPaymentOutput(x) => {
            let s = channel_signer(m, x.channel_keys_id@)->0;
            payments_are_signed_for_where_they_are_ours(s, tx, k, x, prevouts);
        },
        SpendableOutputDescriptor::DelayedPaymentOutput(x) => {
            let s = channel_signer(m, x.channel_keys_id@)->0;
            delayed_payments_are_signed_for_where_they_are_ours(s, tx, k, x, prevouts);
        },
    }
}

/// Outputs that pay scripts of ours are swept wherever a transaction that spends them can be planned, however
/// many channels they came from: the plan is signed, each input by the keys of its own output's channel, and
/// what taproot signatures commit to having been spent is what is described.
#[verifier::spinoff_prover]
#[verifier::rlimit(60)]
pub proof fn own_outputs_are_swept(
    m: KeysManagerView,
    descriptors: Seq<&SpendableOutputDescriptor>,
    outputs: Seq<TxOutView>,
    change_script: Seq<u8>,
    feerate: u32,
    locktime: Option<u32>,
    grind: bool,
)
    requires
        of_seed(m),
        spend_plan(descriptors, outputs, change_script, feerate, locktime, grind) is Ok,
        forall|i: int| 0 <= i < descriptors.len() ==> pays_own(m, *(#[trigger] descriptors[i])),
    ensures
        ({
            let (psbt, _) = spend_plan(
                descriptors,
                outputs,
                change_script,
                feerate,
                locktime,
                grind,
            )->Ok_0;
            &&& sweep(m, psbt, descriptors).0 is Ok
            &&& spent_outputs(psbt.inputs).len() == descriptors.len()
            &&& forall|i: int|
                0 <= i < descriptors.len() ==> spent_outputs(psbt.inputs)[i] == (
                #[trigger] descriptors[i]).output()
            &&& forall|i: int|
                0 <= i < descriptors.len() ==> own_signed(
                    m,
                    psbt,
                    sweep(m, psbt, descriptors).0->Ok_0,
                    *(#[trigger] descriptors[i]),
                )
        }),
{
    let (psbt, _) = spend_plan(
        descriptors,
        outputs,
        change_script,
        feerate,
        locktime,
        grind,
    )->Ok_0;
    let tx = psbt.unsigned_tx;
    let prevouts = spent_outputs(psbt.inputs);
    let unsigned = unsigned_inputs(descriptors);
    lemma_plans_unsigned(descriptors, grind);
    lemma_all_described(psbt, descriptors);
    plans_spend_what_is_described(
        descriptors,
        outputs,
        change_script,
        feerate,
        locktime,
        grind,
    );
    assert(unsigned.take(unsigned.len() as int) =~= unsigned);
    assert forall|i: int| 0 <= i < descriptors.len() implies own_to_sign(
        m,
        tx,
        prevouts,
        *(#[trigger] descriptors[i]),
    ) by {
        lemma_find_unsigned(descriptors, descriptors.len(), i);
        lemma_own_can_be_signed(m, tx, prevouts, *descriptors[i], i as nat);
    }
    lemma_sweep_succeeds(m, psbt, descriptors);
    lemma_sweep_is_own(m, psbt, descriptors);
}

} // verus!
