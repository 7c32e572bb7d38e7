//! Adding a change output to a transaction that is otherwise complete.
use vstd::prelude::*;

use crate::tx::{
    base_size, compact_size_len, compact_size_len_of, lemma_outputs_value_prefix, outputs_value,
    outputs_view, prefixed_len, weight, witnesses_size, Transaction, TransactionView, TxOut,
    TxOutView, MAX_MONEY, SEGWIT_MARKER_FLAG_WEIGHT,
};

verus! {

/// Whether a script starts with `OP_RETURN`.
pub open spec fn is_op_return(script: Seq<u8>) -> bool {
    script.len() > 0 && script[0] == 0x6a
}

/// Whether a script is a witness program: a version, then one push of 2 to 40 bytes.
pub open spec fn is_witness_program(script: Seq<u8>) -> bool {
    4 <= script.len() <= 42 && (script[0] == 0 || 0x51 <= script[0] <= 0x60) && script[1]
        == script.len() - 2
}

/// The least value at which relaying an output to a script is worth it: three satoshis per byte of
/// the output and of the input that would spend it.
pub open spec fn minimal_non_dust(script: Seq<u8>) -> nat {
    if is_op_return(script) {
        0
    } else if is_witness_program(script) {
        3 * (32 + 4 + 1 + 26 + 4 + 8 + prefixed_len(script.len()))
    } else {
        3 * (32 + 4 + 1 + 107 + 4 + 8 + prefixed_len(script.len()))
    }
}

/// The fee of a weight at a rate in satoshis per 1000 weight units, rounded down.
pub open spec fn fee(weight: nat, feerate: u32) -> nat {
    (weight * feerate as nat) / 1000
}

/// The most a transaction weighs once its inputs are signed with witnesses of a known total weight.
pub open spec fn signed_weight(tx: TransactionView, witness_weight: nat) -> nat {
    weight(tx) + SEGWIT_MARKER_FLAG_WEIGHT as nat + witness_weight
}

/// What another output adds to the weight of a transaction.
pub open spec fn change_weight(tx: TransactionView, script: Seq<u8>) -> nat {
    4 * (8 + prefixed_len(script.len())) + 4 * (compact_size_len(tx.output.len() + 1)
        - compact_size_len(tx.output.len())) as nat
}

/// What [`maybe_add_change_output`] decides.
pub enum ChangeDecision {
    /// The outputs and the fee take more than the inputs hold.
    Unfunded,
    /// Change is not worth an output: the weight without one.
    Without(nat),
    /// There is change: its value, and the weight with its output.
    With(nat, nat),
}

pub open spec fn change_decision(
    tx: TransactionView,
    input_value: u64,
    witness_weight: nat,
    feerate: u32,
    script: Seq<u8>,
) -> ChangeDecision {
    let left = input_value - outputs_value(tx.output);
    let without = signed_weight(tx, witness_weight);
    let with = without + change_weight(tx, script);
    if input_value > MAX_MONEY || (tx.output.len() > 0 && left <= 0) {
        ChangeDecision::Unfunded
    } else if left - fee(with, feerate) >= minimal_non_dust(script) {
        ChangeDecision::With((left - fee(with, feerate)) as nat, with)
    } else if left - fee(without, feerate) < 0 {
        ChangeDecision::Unfunded
    } else {
        ChangeDecision::Without(without)
    }
}

/// That the weights at hand fit 64 bits.
pub open spec fn weight_fits(tx: TransactionView, witness_weight: nat, script: Seq<u8>) -> bool {
    4 * base_size(tx) + witnesses_size(tx.input) + witness_weight + 4 * script.len() + 200
        <= u64::MAX
}

fn minimal_non_dust_of(script: &[u8]) -> (r: u128)
    ensures
        r as nat == minimal_non_dust(script@),
{
    let len: u128 = script.len() as u128 + compact_size_len_of(script.len() as u64) as u128;
    if script.len() > 0 && script[0] == 0x6a {
        0
    } else if 4 <= script.len() && script.len() <= 42 && (script[0] == 0 || (0x51 <= script[0]
        && script[0] <= 0x60)) && script[1] as usize == script.len() - 2 {
        3 * (32 + 4 + 1 + 26 + 4 + 8 + len)
    } else {
        3 * (32 + 4 + 1 + 107 + 4 + 8 + len)
    }
}

fn fee_of(weight: u64, feerate: u32) -> (r: u128)
    ensures
        r as nat == fee(weight as nat, feerate),
{
    assert(weight * feerate <= 0xffff_ffff_ffff_ffff * 0xffff_ffff) by (nonlinear_arith)
        requires
            weight <= 0xffff_ffff_ffff_ffff,
            feerate <= 0xffff_ffff,
    ;
    (weight as u128 * feerate as u128) / 1000
}

/// The value of a list of outputs, where it is below a limit.
fn outputs_value_below(v: &[TxOut], limit: u64) -> (r: Option<u64>)
    ensures
        r is Some <==> (v@.len() == 0 || outputs_value(outputs_view(v@)) < limit),
        r matches Some(x) ==> x as nat == outputs_value(outputs_view(v@)),
{
    let ghost all = outputs_view(v@);
    let mut sum: u64 = 0;
    let mut i: usize = 0;
    while i < v.len()
        invariant
            i <= v.len(),
            all == outputs_view(v@),
            sum as nat == outputs_value(all.take(i as int)),
            i > 0 ==> sum < limit,
        decreases v.len() - i,
    {
        proof {
            lemma_outputs_value_prefix(all, i + 1);
            assert(all.take(i + 1).drop_last() =~= all.take(i as int));
            assert(all.take(i + 1).last() == v@[i as int]@);
        }
        match sum.checked_add(v[i].value) {
            Some(s) => {
                if s >= limit {
                    return None;
                }
                sum = s;
            },
            None => {
                return None;
            },
        }
        i += 1;
    }
    assert(all.take(i as int) =~= all);
    Some(sum)
}

/// Adds to a transaction an output that pays what is left of its inputs, after outputs and fee, to a
/// script, if that is worth an output; returns the most the transaction weighs once signed.
///
/// `witness_max_weight` is the most the witnesses of all inputs weigh. Fails where the outputs and the
/// fee take more than the inputs hold, or the inputs hold more than can exist. On success the fee is
/// at least what the returned weight costs at the given rate.
pub fn maybe_add_change_output(
    tx: &mut Transaction,
    input_value: u64,
    witness_max_weight: u64,
    feerate_sat_per_1000_weight: u32,
    change_destination_script: Vec<u8>,
) -> (r: Result<u64, ()>)
    requires
        weight_fits(old(tx)@, witness_max_weight as nat, change_destination_script@),
    ensures
        match change_decision(
            old(tx)@,
            input_value,
            witness_max_weight as nat,
            feerate_sat_per_1000_weight,
            change_destination_script@,
        ) {
            ChangeDecision::Unfunded => r is Err && final(tx)@ == old(tx)@,
            ChangeDecision::Without(w) => r == Ok::<u64, ()>(w as u64) && w <= u64::MAX
                && final(tx)@ == old(tx)@,
            ChangeDecision::With(value, w) => r == Ok::<u64, ()>(w as u64) && w <= u64::MAX
                && final(tx)@ == (TransactionView {
                output: old(tx)@.output.push(
                    TxOutView {
                        value: value as u64,
                        script_pubkey: change_destination_script@,
                    },
                ),
                ..old(tx)@
            }),
        },
        r matches Ok(w) ==> outputs_value(final(tx)@.output) + fee(
            w as nat,
            feerate_sat_per_1000_weight,
        ) <= input_value,
{
    if input_value > MAX_MONEY {
        return Err(());
    }
    let output_value: u64 = match outputs_value_below(tx.output.as_slice(), input_value) {
        Some(v) => v,
        None => {
            return Err(());
        },
    };
    let left: u128 = (input_value - output_value) as u128;
    let script_len: usize = change_destination_script.len();
    let dust: u128 = minimal_non_dust_of(change_destination_script.as_slice());
    let without: u64 = tx.weight() + SEGWIT_MARKER_FLAG_WEIGHT + witness_max_weight;
    let outputs: u64 = tx.output.len() as u64;
    proof {
        lemma_outputs_count(tx@.output);
    }
    let grown: u64 = compact_size_len_of(outputs + 1) - compact_size_len_of(outputs);
    let with: u64 = without + (4 * (8 + (compact_size_len_of(script_len as u64) + script_len as u64)) + 4
        * grown);
    let with_fee: u128 = fee_of(with, feerate_sat_per_1000_weight);
    let without_fee: u128 = fee_of(without, feerate_sat_per_1000_weight);
    if left >= with_fee && left - with_fee >= dust {
        let value: u64 = (left - with_fee) as u64;
        let ghost before = tx@;
        tx.output.push(TxOut { value, script_pubkey: change_destination_script });
        proof {
            assert(tx@.output =~= before.output.push(
                TxOutView { value, script_pubkey: change_destination_script@ },
            ));
            assert(tx@.output.drop_last() =~= before.output);
        }
        Ok(with)
    } else if left < without_fee {
        Err(())
    } else {
        Ok(without)
    }
}

/// What becomes of what the inputs hold, to the satoshi. Where there is change, the outputs with it and the
/// fee of the weight with it take all, and the change is worth an output. Where there is none, the outputs and
/// the fee of the weight without it take no more than there is, and what is left would not have been worth an
/// output. The weight is that of the transaction as it then stands, with the marker, the flag and the
/// witnesses. It fails where the inputs hold more than can exist, where the outputs alone take all, or where
/// the fee without change is not covered.
pub proof fn change_is_what_is_left(
    tx: TransactionView,
    input_value: u64,
    witness_weight: nat,
    feerate: u32,
    script: Seq<u8>,
)
    ensures
        ({
            let change = |value: u64|
                TransactionView {
                    output: tx.output.push(TxOutView { value, script_pubkey: script }),
                    ..tx
                };
            let spent = outputs_value(tx.output);
            match change_decision(tx, input_value, witness_weight, feerate, script) {
                ChangeDecision::With(value, w) => {
                    &&& value <= input_value
                    &&& w == weight(change(value as u64)) + 2 + witness_weight
                    &&& outputs_value(change(value as u64).output) + (w * feerate as nat) / 1000
                        == input_value
                    &&& value >= minimal_non_dust(script)
                    &&& tx.output.len() > 0 ==> spent < input_value
                    &&& input_value <= MAX_MONEY
                },
                ChangeDecision::Without(w) => {
                    &&& w == weight(tx) + 2 + witness_weight
                    &&& spent + (w * feerate as nat) / 1000 <= input_value
                    &&& forall|value: u64|
                        (#[trigger] change(value)).output.len() > 0 ==> input_value < spent + (((
                        weight(change(value)) + 2 + witness_weight) * feerate as nat) / 1000)
                            + minimal_non_dust(script)
                    &&& tx.output.len() > 0 ==> spent < input_value
                    &&& input_value <= MAX_MONEY
                },
                ChangeDecision::Unfunded => {
                    ||| input_value > MAX_MONEY
                    ||| tx.output.len() > 0 && spent >= input_value
                    ||| spent + ((weight(tx) + 2 + witness_weight) * feerate as nat) / 1000
                        > input_value
                },
            }
        }),
{
    assert forall|value: u64| outputs_value(
        #[trigger] tx.output.push(TxOutView { value, script_pubkey: script }),
    ) == outputs_value(tx.output) + value && weight(
        TransactionView {
            output: tx.output.push(TxOutView { value, script_pubkey: script }),
            ..tx
        },
    ) == weight(tx) + change_weight(tx, script) by {
        let outputs = tx.output.push(TxOutView { value, script_pubkey: script });
        assert(outputs.drop_last() =~= tx.output);
    }
}

/// A list of outputs has no more entries than its serialization has bytes.
proof fn lemma_outputs_count(s: Seq<TxOutView>)
    ensures
        s.len() <= crate::tx::outputs_size(s),
    decreases s.len(),
{
    if s.len() > 0 {
        lemma_outputs_count(s.drop_last());
    }
}

} // verus!
