//! The digests that a signature of a transaction input commits to, as the `bitcoin` crate computes
//! them.
use bitcoin::absolute::LockTime;
use bitcoin::consensus::deserialize;
use bitcoin::hashes::Hash as _;
use bitcoin::sighash::{EcdsaSighashType, Prevouts, SighashCache, TapSighashType};
use bitcoin::taproot::TapLeafHash;
use bitcoin::transaction::Version;
use bitcoin::{Amount, Script};
use vstd::prelude::*;

use crate::tx::{
    encode_inputs, encode_outputs, outputs_view, serialize_inputs, serialize_outputs, Transaction,
    TransactionView, TxOut, TxOutView,
};

verus! {

/// The hash type of a signature over all inputs and all outputs.
pub const SIGHASH_ALL: u8 = 0x01;

/// The hash type of a signature over its own input and the output at the same index.
pub const SIGHASH_SINGLE_ANYONECANPAY: u8 = 0x83;

/// The BIP 143 digest of an input that exists.
pub uninterp spec fn segwit_sighash(
    tx: TransactionView,
    index: nat,
    script: Seq<u8>,
    value: u64,
    hash_type: u8,
) -> Seq<u8>;

/// The BIP 341 key-path digest of an input, over all outputs that the transaction spends.
pub uninterp spec fn tap_key_sighash(
    tx: TransactionView,
    index: nat,
    prevouts: Seq<TxOutView>,
) -> Seq<u8>;

/// The BIP 341 script-path digest of an input, over all outputs that the transaction spends.
pub uninterp spec fn tap_leaf_sighash(
    tx: TransactionView,
    index: nat,
    prevouts: Seq<TxOutView>,
    leaf_hash: Seq<u8>,
) -> Seq<u8>;

/// The BIP 341 script-path digest of an input alone with the output at its index.
pub uninterp spec fn tap_single_leaf_sighash(
    tx: TransactionView,
    index: nat,
    prevout: TxOutView,
    leaf_hash: Seq<u8>,
) -> Seq<u8>;

/// `bitcoin::sighash::SighashCache::p2wsh_signature_hash`, on a transaction whose inputs and outputs are
/// handed over serialized: fails exactly where there is no such input; otherwise the digest depends on
/// the transaction and the other arguments alone.
#[verifier::external_body]
fn outside_p2wsh_signature_hash(
    tx: &Transaction,
    inputs: &[u8],
    outputs: &[u8],
    index: usize,
    script: &[u8],
    value: u64,
    hash_type: u8,
) -> (r: Option<[u8; 32]>)
    requires
        inputs@ == encode_inputs(tx@.input),
        outputs@ == encode_outputs(tx@.output),
        hash_type == SIGHASH_ALL || hash_type == SIGHASH_SINGLE_ANYONECANPAY,
    ensures
        r is Some <==> index < tx@.input.len(),
        r matches Some(h) ==> h@ == segwit_sighash(
            tx@,
            index as nat,
            script@,
            value,
            hash_type,
        ),
{
    let t = bitcoin::Transaction {
        version: Version(tx.version),
        lock_time: LockTime::from_consensus(tx.lock_time),
        input: deserialize(inputs).unwrap(),
        output: deserialize(outputs).unwrap(),
    };
    let kind = EcdsaSighashType::from_consensus(hash_type.into());
    let (script, value) = (Script::from_bytes(script), Amount::from_sat(value));
    let h = SighashCache::new(&t).p2wsh_signature_hash(index, script, value, kind);
    h.ok().map(|h| h.to_byte_array())
}

/// `bitcoin::sighash::SighashCache::taproot_key_spend_signature_hash` with the default hash type and all
/// spent outputs, which are handed over serialized: fails exactly where their number is not that of the
/// inputs; otherwise the digest depends on the transaction and the other arguments alone.
#[verifier::external_body]
fn outside_key_spend_signature_hash(
    tx: &Transaction,
    inputs: &[u8],
    outputs: &[u8],
    index: usize,
    prevouts: &[TxOut],
    spent: &[u8],
) -> (r: Option<[u8; 32]>)
    requires
        inputs@ == encode_inputs(tx@.input),
        outputs@ == encode_outputs(tx@.output),
        spent@ == encode_outputs(outputs_view(prevouts@)),
    ensures
        r is Some <==> prevouts@.len() == tx@.input.len(),
        r matches Some(h) ==> h@ == tap_key_sighash(tx@, index as nat, outputs_view(prevouts@)),
{
    let t = bitcoin::Transaction {
        version: Version(tx.version),
        lock_time: LockTime::from_consensus(tx.lock_time),
        input: deserialize(inputs).unwrap(),
        output: deserialize(outputs).unwrap(),
    };
    let spent: Vec<bitcoin::TxOut> = deserialize(spent).unwrap();
    let (all, kind) = (Prevouts::All(&spent), TapSighashType::Default);
    let h = SighashCache::new(&t).taproot_key_spend_signature_hash(index, &all, kind);
    h.ok().map(|h| h.to_byte_array())
}

/// `bitcoin::sighash::SighashCache::taproot_script_spend_signature_hash` with the default hash type and
/// all spent outputs, which are handed over serialized: fails exactly where their number is not that of
/// the inputs; otherwise the digest depends on the transaction and the other arguments alone, on the
/// script by its leaf digest.
#[verifier::external_body]
fn outside_script_spend_signature_hash(
    tx: &Transaction,
    inputs: &[u8],
    outputs: &[u8],
    index: usize,
    prevouts: &[TxOut],
    spent: &[u8],
    leaf_hash: &[u8; 32],
) -> (r: Option<[u8; 32]>)
    requires
        inputs@ == encode_inputs(tx@.input),
        outputs@ == encode_outputs(tx@.output),
        spent@ == encode_outputs(outputs_view(prevouts@)),
    ensures
        r is Some <==> prevouts@.len() == tx@.input.len(),
        r matches Some(h) ==> h@ == tap_leaf_sighash(
            tx@,
            index as nat,
            outputs_view(prevouts@),
            leaf_hash@,
        ),
{
    let t = bitcoin::Transaction {
        version: Version(tx.version),
        lock_time: LockTime::from_consensus(tx.lock_time),
        input: deserialize(inputs).unwrap(),
        output: deserialize(outputs).unwrap(),
    };
    let spent: Vec<bitcoin::TxOut> = deserialize(spent).unwrap();
    let (all, kind) = (Prevouts::All(&spent), TapSighashType::Default);
    let leaf = TapLeafHash::from_byte_array(*leaf_hash);
    let h = SighashCache::new(&t).taproot_script_spend_signature_hash(index, &all, leaf, kind);
    h.ok().map(|h| h.to_byte_array())
}

/// `bitcoin::sighash::SighashCache::taproot_script_spend_signature_hash` with
/// `SIGHASH_SINGLE|ANYONECANPAY` and the one spent output: fails exactly where there is no input or no
/// output at the index; otherwise the digest depends on the transaction and the other arguments alone.
#[verifier::external_body]
fn outside_single_spend_signature_hash(
    tx: &Transaction,
    inputs: &[u8],
    outputs: &[u8],
    index: usize,
    prevout: &TxOut,
    leaf_hash: &[u8; 32],
) -> (r: Option<[u8; 32]>)
    requires
        inputs@ == encode_inputs(tx@.input),
        outputs@ == encode_outputs(tx@.output),
    ensures
        r is Some <==> (index < tx@.input.len() && index < tx@.output.len()),
        r matches Some(h) ==> h@ == tap_single_leaf_sighash(
            tx@,
            index as nat,
            prevout@,
            leaf_hash@,
        ),
{
    let t = bitcoin::Transaction {
        version: Version(tx.version),
        lock_time: LockTime::from_consensus(tx.lock_time),
        input: deserialize(inputs).unwrap(),
        output: deserialize(outputs).unwrap(),
    };
    let script_pubkey = prevout.script_pubkey.clone().into();
    let spent = bitcoin::TxOut { value: Amount::from_sat(prevout.value), script_pubkey };
    let (one, kind) = (Prevouts::One(index, spent), TapSighashType::SinglePlusAnyoneCanPay);
    let leaf = TapLeafHash::from_byte_array(*leaf_hash);
    let h = SighashCache::new(&t).taproot_script_spend_signature_hash(index, &one, leaf, kind);
    h.ok().map(|h| h.to_byte_array())
}

/// The BIP 143 digest of an input, where it exists.
pub(crate) fn p2wsh_signature_hash(
    tx: &Transaction,
    index: usize,
    script: &[u8],
    value: u64,
    hash_type: u8,
) -> (r: Option<[u8; 32]>)
    requires
        hash_type == SIGHASH_ALL || hash_type == SIGHASH_SINGLE_ANYONECANPAY,
    ensures
        r is Some <==> index < tx@.input.len(),
        r matches Some(h) ==> h@ == segwit_sighash(
            tx@,
            index as nat,
            script@,
            value,
            hash_type,
        ),
{
    let inputs: Vec<u8> = serialize_inputs(tx.input.as_slice());
    let outputs: Vec<u8> = serialize_outputs(tx.output.as_slice());
    outside_p2wsh_signature_hash(
        tx,
        inputs.as_slice(),
        outputs.as_slice(),
        index,
        script,
        value,
        hash_type,
    )
}

/// The BIP 341 key-path digest of an input, where one output is known for each input.
pub(crate) fn taproot_key_spend_signature_hash(
    tx: &Transaction,
    index: usize,
    prevouts: &[TxOut],
) -> (r: Option<[u8; 32]>)
    ensures
        r is Some <==> prevouts@.len() == tx@.input.len(),
        r matches Some(h) ==> h@ == tap_key_sighash(tx@, index as nat, outputs_view(prevouts@)),
{
    let inputs: Vec<u8> = serialize_inputs(tx.input.as_slice());
    let outputs: Vec<u8> = serialize_outputs(tx.output.as_slice());
    let spent: Vec<u8> = serialize_outputs(prevouts);
    outside_key_spend_signature_hash(
        tx,
        inputs.as_slice(),
        outputs.as_slice(),
        index,
        prevouts,
        spent.as_slice(),
    )
}

/// The BIP 341 script-path digest of an input, where one output is known for each input.
pub(crate) fn taproot_script_spend_signature_hash(
    tx: &Transaction,
    index: usize,
    prevouts: &[TxOut],
    leaf_hash: &[u8; 32],
) -> (r: Option<[u8; 32]>)
    ensures
        r is Some <==> prevouts@.len() == tx@.input.len(),
        r matches Some(h) ==> h@ == tap_leaf_sighash(
            tx@,
            index as nat,
            outputs_view(prevouts@),
            leaf_hash@,
        ),
{
    let inputs: Vec<u8> = serialize_inputs(tx.input.as_slice());
    let outputs: Vec<u8> = serialize_outputs(tx.output.as_slice());
    let spent: Vec<u8> = serialize_outputs(prevouts);
    outside_script_spend_signature_hash(
        tx,
        inputs.as_slice(),
        outputs.as_slice(),
        index,
        prevouts,
        spent.as_slice(),
        leaf_hash,
    )
}

/// The BIP 341 script-path digest of an input alone with the output at its index, where both exist.
pub(crate) fn taproot_single_script_spend_signature_hash(
    tx: &Transaction,
    index: usize,
    prevout: &TxOut,
    leaf_hash: &[u8; 32],
) -> (r: Option<[u8; 32]>)
    ensures
        r is Some <==> (index < tx@.input.len() && index < tx@.output.len()),
        r matches Some(h) ==> h@ == tap_single_leaf_sighash(
            tx@,
            index as nat,
            prevout@,
            leaf_hash@,
        ),
{
    let inputs: Vec<u8> = serialize_inputs(tx.input.as_slice());
    let outputs: Vec<u8> = serialize_outputs(tx.output.as_slice());
    outside_single_spend_signature_hash(
        tx,
        inputs.as_slice(),
        outputs.as_slice(),
        index,
        prevout,
        leaf_hash,
    )
}

} // verus!
