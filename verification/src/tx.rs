//! Transactions as plain values: what they hold, how large they serialize, what they weigh.
use vstd::prelude::*;

use crate::bytes::{
    append, byte_range, copy_bytes, le_bytes, le_nat, lemma_le_bytes_len, lemma_le_round_trip,
};

verus! {

/// The largest amount, in satoshis, that can exist.
pub const MAX_MONEY: u64 = 2_100_000_000_000_000;

/// What the serialization of a transaction with witnesses holds beside them: a marker and a flag.
pub const SEGWIT_MARKER_FLAG_WEIGHT: u64 = 2;

/// A reference to an output whose index fits the 16 bits a channel's funding output is named by.
#[derive(Clone, Copy, Debug, Hash, PartialEq, Eq)]
pub struct OutPoint {
    pub txid: [u8; 32],
    pub index: u16,
}

/// A reference to an output as a transaction input holds it.
#[derive(Clone, Copy, Debug, PartialEq, Eq)]
pub struct BitcoinOutPoint {
    pub txid: [u8; 32],
    pub vout: u32,
}

/// A transaction output.
#[derive(Clone, Debug, Hash, PartialEq, Eq)]
pub struct TxOut {
    pub value: u64,
    pub script_pubkey: Vec<u8>,
}

/// A transaction input.
#[derive(Clone, Debug, PartialEq, Eq)]
pub struct TxIn {
    pub previous_output: BitcoinOutPoint,
    pub script_sig: Vec<u8>,
    pub sequence: u32,
    pub witness: Vec<Vec<u8>>,
}

/// A transaction.
#[derive(Clone, Debug, PartialEq, Eq)]
pub struct Transaction {
    pub version: i32,
    pub lock_time: u32,
    pub input: Vec<TxIn>,
    pub output: Vec<TxOut>,
}

/// What a [`BitcoinOutPoint`] or [`OutPoint`] names.
#[verifier::ext_equal]
pub struct OutPointView {
    pub txid: Seq<u8>,
    pub vout: u32,
}

/// What a [`TxOut`] holds.
#[verifier::ext_equal]
pub struct TxOutView {
    pub value: u64,
    pub script_pubkey: Seq<u8>,
}

/// What a [`TxIn`] holds.
#[verifier::ext_equal]
pub struct TxInView {
    pub previous_output: OutPointView,
    pub script_sig: Seq<u8>,
    pub sequence: u32,
    pub witness: Seq<Seq<u8>>,
}

/// What a [`Transaction`] holds.
#[verifier::ext_equal]
pub struct TransactionView {
    pub version: i32,
    pub lock_time: u32,
    pub input: Seq<TxInView>,
    pub output: Seq<TxOutView>,
}

/// The byte strings of a list of byte vectors.
pub open spec fn rows(v: Seq<Vec<u8>>) -> Seq<Seq<u8>> {
    v.map_values(|x: Vec<u8>| x@)
}

/// What a list of outputs holds.
pub open spec fn outputs_view(v: Seq<TxOut>) -> Seq<TxOutView> {
    v.map_values(|o: TxOut| o@)
}

/// What a list of inputs holds.
pub open spec fn inputs_view(v: Seq<TxIn>) -> Seq<TxInView> {
    v.map_values(|i: TxIn| i@)
}

impl View for OutPoint {
    type V = OutPointView;

    open spec fn view(&self) -> OutPointView {
        OutPointView { txid: self.txid@, vout: self.index as u32 }
    }
}

impl View for BitcoinOutPoint {
    type V = OutPointView;

    open spec fn view(&self) -> OutPointView {
        OutPointView { txid: self.txid@, vout: self.vout }
    }
}

impl View for TxOut {
    type V = TxOutView;

    open spec fn view(&self) -> TxOutView {
        TxOutView { value: self.value, script_pubkey: self.script_pubkey@ }
    }
}

impl View for TxIn {
    type V = TxInView;

    open spec fn view(&self) -> TxInView {
        TxInView {
            previous_output: self.previous_output@,
            script_sig: self.script_sig@,
            sequence: self.sequence,
            witness: rows(self.witness@),
        }
    }
}

impl View for Transaction {
    type V = TransactionView;

    open spec fn view(&self) -> TransactionView {
        TransactionView {
            version: self.version,
            lock_time: self.lock_time,
            input: inputs_view(self.input@),
            output: outputs_view(self.output@),
        }
    }
}

/// How many bytes the length prefix `n` takes.
pub open spec fn compact_size_len(n: nat) -> nat {
    if n < 0xfd {
        1
    } else if n <= 0xffff {
        3
    } else if n <= 0xffff_ffff {
        5
    } else {
        9
    }
}

/// The length prefix `n`.
pub open spec fn compact_size(n: nat) -> Seq<u8> {
    if n < 0xfd {
        seq![n as u8]
    } else if n <= 0xffff {
        seq![0xfdu8] + le_bytes(n, 2)
    } else if n <= 0xffff_ffff {
        seq![0xfeu8] + le_bytes(n, 4)
    } else {
        seq![0xffu8] + le_bytes(n, 8)
    }
}

/// A length prefix can be read back, takes as many bytes as it is said to, and no more than it needs: one below
/// 253, otherwise a byte that tells how many follow, and the length in little-endian order.
pub proof fn length_prefixes_can_be_read_back(n: nat)
    requires
        n <= u64::MAX,
    ensures
        compact_size(n).len() == compact_size_len(n),
        n < 253 ==> compact_size(n) == seq![n as u8],
        n >= 253 ==> le_nat(compact_size(n).skip(1)) == n,
        253 <= n < 0x1_0000 ==> compact_size(n).len() == 3 && compact_size(n)[0] == 253,
        0x1_0000 <= n < 0x1_0000_0000 ==> compact_size(n).len() == 5 && compact_size(n)[0] == 254,
        0x1_0000_0000 <= n ==> compact_size(n).len() == 9 && compact_size(n)[0] == 255,
{
    reveal_with_fuel(byte_range, 9);
    let len: nat = if n <= 0xffff {
        2
    } else if n <= 0xffff_ffff {
        4
    } else {
        8
    };
    lemma_le_bytes_len(n, len);
    lemma_le_round_trip(n, len);
    if n >= 0xfd {
        assert(compact_size(n).skip(1) =~= le_bytes(n, len));
    }
}

/// The serialized size of a byte string behind its length prefix.
pub open spec fn prefixed_len(n: nat) -> nat {
    compact_size_len(n) + n
}

/// The serialized size of an output: the amount and the script.
pub open spec fn output_size(o: TxOutView) -> nat {
    8 + prefixed_len(o.script_pubkey.len())
}

pub open spec fn outputs_size(s: Seq<TxOutView>) -> nat
    decreases s.len(),
{
    if s.len() == 0 {
        0
    } else {
        outputs_size(s.drop_last()) + output_size(s.last())
    }
}

/// The serialized size of an input without its witness: outpoint, script and sequence.
pub open spec fn input_size(i: TxInView) -> nat {
    36 + prefixed_len(i.script_sig.len()) + 4
}

pub open spec fn inputs_size(s: Seq<TxInView>) -> nat
    decreases s.len(),
{
    if s.len() == 0 {
        0
    } else {
        inputs_size(s.drop_last()) + input_size(s.last())
    }
}

pub open spec fn items_size(w: Seq<Seq<u8>>) -> nat
    decreases w.len(),
{
    if w.len() == 0 {
        0
    } else {
        items_size(w.drop_last()) + prefixed_len(w.last().len())
    }
}

/// The serialized size of a witness: how many items, then each item.
pub open spec fn witness_size(w: Seq<Seq<u8>>) -> nat {
    compact_size_len(w.len()) + items_size(w)
}

pub open spec fn witnesses_size(s: Seq<TxInView>) -> nat
    decreases s.len(),
{
    if s.len() == 0 {
        0
    } else {
        witnesses_size(s.drop_last()) + witness_size(s.last().witness)
    }
}

/// The serialized size of a transaction without its witnesses.
pub open spec fn base_size(tx: TransactionView) -> nat {
    4 + compact_size_len(tx.input.len()) + inputs_size(tx.input) + compact_size_len(tx.output.len())
        + outputs_size(tx.output) + 4
}

/// Whether a transaction serializes with witnesses: one is not empty, or there is no input.
pub open spec fn serializes_witnesses(tx: TransactionView) -> bool {
    tx.input.len() == 0 || exists|i: int|
        0 <= i < tx.input.len() && (#[trigger] tx.input[i]).witness.len() > 0
}

/// The weight of a transaction: four units per byte outside the witnesses, one inside.
pub open spec fn weight(tx: TransactionView) -> nat {
    4 * base_size(tx) + if serializes_witnesses(tx) {
        SEGWIT_MARKER_FLAG_WEIGHT as nat + witnesses_size(tx.input)
    } else {
        0
    }
}

/// The satoshis that a list of outputs pays.
pub open spec fn outputs_value(s: Seq<TxOutView>) -> nat
    decreases s.len(),
{
    if s.len() == 0 {
        0
    } else {
        outputs_value(s.drop_last()) + s.last().value as nat
    }
}

pub proof fn lemma_outputs_size_prefix(s: Seq<TxOutView>, i: int)
    requires
        0 <= i <= s.len(),
    ensures
        outputs_size(s.take(i)) <= outputs_size(s),
    decreases s.len(),
{
    if i < s.len() {
        assert(s.drop_last().take(i) =~= s.take(i));
        lemma_outputs_size_prefix(s.drop_last(), i);
    } else {
        assert(s.take(i) =~= s);
    }
}

pub proof fn lemma_inputs_size_prefix(s: Seq<TxInView>, i: int)
    requires
        0 <= i <= s.len(),
    ensures
        inputs_size(s.take(i)) <= inputs_size(s),
    decreases s.len(),
{
    if i < s.len() {
        assert(s.drop_last().take(i) =~= s.take(i));
        lemma_inputs_size_prefix(s.drop_last(), i);
    } else {
        assert(s.take(i) =~= s);
    }
}

pub proof fn lemma_outputs_value_prefix(s: Seq<TxOutView>, i: int)
    requires
        0 <= i <= s.len(),
    ensures
        outputs_value(s.take(i)) <= outputs_value(s),
    decreases s.len(),
{
    if i < s.len() {
        assert(s.drop_last().take(i) =~= s.take(i));
        lemma_outputs_value_prefix(s.drop_last(), i);
    } else {
        assert(s.take(i) =~= s);
    }
}

impl OutPoint {
    /// The same reference as a transaction input holds it.
    pub fn into_bitcoin_outpoint(self) -> (r: BitcoinOutPoint)
        ensures
            r@ == self@,
    {
        BitcoinOutPoint { txid: self.txid, vout: self.index as u32 }
    }
}

impl TxOut {
    /// An output that holds the same.
    pub fn copy(&self) -> (r: TxOut)
        ensures
            r@ == self@,
    {
        TxOut { value: self.value, script_pubkey: copy_bytes(self.script_pubkey.as_slice()) }
    }
}

/// Whether a transaction's input refers to the output that an outpoint names.
pub fn same_outpoint(a: &BitcoinOutPoint, b: &OutPoint) -> (r: bool)
    ensures
        r == (a@ == b@),
{
    a.vout == b.index as u32 && crate::bytes::bytes_equal(&a.txid, &b.txid)
}

/// How many bytes the length prefix `n` takes.
pub fn compact_size_len_of(n: u64) -> (r: u64)
    ensures
        r as nat == compact_size_len(n as nat),
{
    if n < 0xfd {
        1
    } else if n <= 0xffff {
        3
    } else if n <= 0xffff_ffff {
        5
    } else {
        9
    }
}

/// The length prefix `n`.
pub fn compact_size_of(n: usize) -> (r: Vec<u8>)
    ensures
        r@ == compact_size(n as nat),
{
    let n: u64 = n as u64;
    let mut r: Vec<u8> = Vec::new();
    if n < 0xfd {
        r.push(n as u8);
        assert(r@ =~= compact_size(n as nat));
    } else if n <= 0xffff {
        r.push(0xfd);
        push_le(&mut r, n, 2);
        assert(r@ =~= compact_size(n as nat));
    } else if n <= 0xffff_ffff {
        r.push(0xfe);
        push_le(&mut r, n, 4);
        assert(r@ =~= compact_size(n as nat));
    } else {
        r.push(0xff);
        push_le(&mut r, n, 8);
        assert(r@ =~= compact_size(n as nat));
    }
    r
}

fn push_le(v: &mut Vec<u8>, n: u64, len: usize)
    ensures
        final(v)@ == old(v)@ + le_bytes(n as nat, len as nat),
    decreases len,
{
    if len > 0 {
        v.push((n % 256) as u8);
        push_le(v, n / 256, len - 1);
    }
    assert(v@ =~= old(v)@ + le_bytes(n as nat, len as nat));
}

fn outputs_size_of(v: &[TxOut]) -> (r: u64)
    requires
        outputs_size(outputs_view(v@)) <= u64::MAX,
    ensures
        r as nat == outputs_size(outputs_view(v@)),
{
    let ghost all = outputs_view(v@);
    let mut r: u64 = 0;
    let mut i: usize = 0;
    while i < v.len()
        invariant
            i <= v.len(),
            all == outputs_view(v@),
            outputs_size(all) <= u64::MAX,
            r as nat == outputs_size(all.take(i as int)),
        decreases v.len() - i,
    {
        proof {
            lemma_outputs_size_prefix(all, i + 1);
            assert(all.take(i + 1).drop_last() =~= all.take(i as int));
            assert(all.take(i + 1).last() == v@[i as int]@);
        }
        let len: usize = v[i].script_pubkey.len();
        r = r + (8 + (compact_size_len_of(len as u64) + len as u64));
        i += 1;
    }
    assert(all.take(i as int) =~= all);
    r
}

fn inputs_size_of(v: &[TxIn]) -> (r: u64)
    requires
        inputs_size(inputs_view(v@)) <= u64::MAX,
    ensures
        r as nat == inputs_size(inputs_view(v@)),
{
    let ghost all = inputs_view(v@);
    let mut r: u64 = 0;
    let mut i: usize = 0;
    while i < v.len()
        invariant
            i <= v.len(),
            all == inputs_view(v@),
            inputs_size(all) <= u64::MAX,
            r as nat == inputs_size(all.take(i as int)),
        decreases v.len() - i,
    {
        proof {
            lemma_inputs_size_prefix(all, i + 1);
            assert(all.take(i + 1).drop_last() =~= all.take(i as int));
            assert(all.take(i + 1).last() == v@[i as int]@);
        }
        let len: usize = v[i].script_sig.len();
        r = r + (36 + (compact_size_len_of(len as u64) + len as u64) + 4);
        i += 1;
    }
    assert(all.take(i as int) =~= all);
    r
}

/// The serialized size of a witness.
pub fn witness_size_of(w: &[Vec<u8>]) -> (r: u64)
    requires
        witness_size(rows(w@)) <= u64::MAX,
    ensures
        r as nat == witness_size(rows(w@)),
{
    let ghost all = rows(w@);
    let mut r: u64 = compact_size_len_of(w.len() as u64);
    let mut i: usize = 0;
    assert(all.take(0) =~= Seq::<Seq<u8>>::empty());
    while i < w.len()
        invariant
            i <= w.len(),
            all == rows(w@),
            witness_size(all) <= u64::MAX,
            r as nat == compact_size_len(all.len()) + items_size(all.take(i as int)),
        decreases w.len() - i,
    {
        proof {
            lemma_items_size_prefix(all, i + 1);
            assert(all.take(i + 1).drop_last() =~= all.take(i as int));
            assert(all.take(i + 1).last() == w@[i as int]@);
        }
        let len: usize = w[i].len();
        r = r + (compact_size_len_of(len as u64) + len as u64);
        i += 1;
    }
    assert(all.take(i as int) =~= all);
    r
}

pub proof fn lemma_items_size_prefix(s: Seq<Seq<u8>>, i: int)
    requires
        0 <= i <= s.len(),
    ensures
        items_size(s.take(i)) <= items_size(s),
    decreases s.len(),
{
    if i < s.len() {
        assert(s.drop_last().take(i) =~= s.take(i));
        lemma_items_size_prefix(s.drop_last(), i);
    } else {
        assert(s.take(i) =~= s);
    }
}

pub proof fn lemma_witnesses_size_prefix(s: Seq<TxInView>, i: int)
    requires
        0 <= i <= s.len(),
    ensures
        witnesses_size(s.take(i)) <= witnesses_size(s),
    decreases s.len(),
{
    if i < s.len() {
        assert(s.drop_last().take(i) =~= s.take(i));
        lemma_witnesses_size_prefix(s.drop_last(), i);
    } else {
        assert(s.take(i) =~= s);
    }
}

impl Transaction {
    /// The weight of the transaction.
    pub fn weight(&self) -> (r: u64)
        requires
            4 * base_size(self@) + 2 + witnesses_size(self@.input) <= u64::MAX,
        ensures
            r as nat == weight(self@),
    {
        let base: u64 = 4 + compact_size_len_of(self.input.len() as u64) + inputs_size_of(
            self.input.as_slice(),
        ) + compact_size_len_of(self.output.len() as u64) + outputs_size_of(self.output.as_slice()) + 4;
        let ghost all = self@.input;
        let mut any: bool = self.input.len() == 0;
        let mut witnesses: u64 = 0;
        let mut i: usize = 0;
        while i < self.input.len()
            invariant
                i <= self.input.len(),
                all == inputs_view(self.input@),
                witnesses_size(all) <= u64::MAX,
                witnesses as nat == witnesses_size(all.take(i as int)),
                any <==> (all.len() == 0 || exists|j: int|
                    0 <= j < i && (#[trigger] all[j]).witness.len() > 0),
            decreases self.input.len() - i,
        {
            proof {
                lemma_witnesses_size_prefix(all, i + 1);
                assert(all.take(i + 1).drop_last() =~= all.take(i as int));
                assert(all.take(i + 1).last() == self.input@[i as int]@);
                assert(all[i as int] == self.input@[i as int]@);
            }
            witnesses = witnesses + witness_size_of(self.input[i].witness.as_slice());
            any = any || self.input[i].witness.len() > 0;
            i += 1;
        }
        assert(all.take(i as int) =~= all);
        if any {
            4 * base + SEGWIT_MARKER_FLAG_WEIGHT + witnesses
        } else {
            4 * base
        }
    }
}

/// The serialization of a byte string behind its length prefix.
pub open spec fn prefixed(s: Seq<u8>) -> Seq<u8> {
    compact_size(s.len()) + s
}

/// The serialization of an output: the amount and the script.
pub open spec fn encode_output(o: TxOutView) -> Seq<u8> {
    le_bytes(o.value as nat, 8) + prefixed(o.script_pubkey)
}

/// The serialization of an input without its witness: outpoint, script and sequence.
pub open spec fn encode_input(i: TxInView) -> Seq<u8> {
    i.previous_output.txid + le_bytes(i.previous_output.vout as nat, 4) + prefixed(i.script_sig)
        + le_bytes(i.sequence as nat, 4)
}

pub open spec fn encode_each_output(s: Seq<TxOutView>) -> Seq<u8>
    decreases s.len(),
{
    if s.len() == 0 {
        Seq::empty()
    } else {
        encode_each_output(s.drop_last()) + encode_output(s.last())
    }
}

pub open spec fn encode_each_input(s: Seq<TxInView>) -> Seq<u8>
    decreases s.len(),
{
    if s.len() == 0 {
        Seq::empty()
    } else {
        encode_each_input(s.drop_last()) + encode_input(s.last())
    }
}

/// The serialization of a list of outputs behind their number.
pub open spec fn encode_outputs(s: Seq<TxOutView>) -> Seq<u8> {
    compact_size(s.len()) + encode_each_output(s)
}

/// The serialization of a list of inputs, without their witnesses, behind their number.
pub open spec fn encode_inputs(s: Seq<TxInView>) -> Seq<u8> {
    compact_size(s.len()) + encode_each_input(s)
}

fn push_prefixed(v: &mut Vec<u8>, s: &[u8])
    ensures
        final(v)@ == old(v)@ + prefixed(s@),
{
    append(v, compact_size_of(s.len()).as_slice());
    append(v, s);
    assert(v@ =~= old(v)@ + prefixed(s@));
}

/// The serialization of a list of outputs.
pub fn serialize_outputs(v: &[TxOut]) -> (r: Vec<u8>)
    ensures
        r@ == encode_outputs(outputs_view(v@)),
{
    let ghost all = outputs_view(v@);
    let mut r: Vec<u8> = compact_size_of(v.len());
    let mut i: usize = 0;
    assert(encode_each_output(all.take(0)) =~= Seq::<u8>::empty());
    assert(r@ =~= compact_size(all.len()) + encode_each_output(all.take(0)));
    while i < v.len()
        invariant
            i <= v.len(),
            all == outputs_view(v@),
            r@ == compact_size(all.len()) + encode_each_output(all.take(i as int)),
        decreases v.len() - i,
    {
        let ghost before = r@;
        push_le(&mut r, v[i].value, 8);
        push_prefixed(&mut r, v[i].script_pubkey.as_slice());
        proof {
            let now = all.take(i + 1);
            assert(now.drop_last() =~= all.take(i as int));
            assert(now.last() == v@[i as int]@);
            assert(r@ =~= before + encode_output(v@[i as int]@));
            assert(r@ =~= compact_size(all.len()) + encode_each_output(now));
        }
        i += 1;
    }
    assert(all.take(i as int) =~= all);
    r
}

/// The serialization of a list of inputs, without their witnesses.
pub fn serialize_inputs(v: &[TxIn]) -> (r: Vec<u8>)
    ensures
        r@ == encode_inputs(inputs_view(v@)),
{
    let ghost all = inputs_view(v@);
    let mut r: Vec<u8> = compact_size_of(v.len());
    let mut i: usize = 0;
    assert(encode_each_input(all.take(0)) =~= Seq::<u8>::empty());
    assert(r@ =~= compact_size(all.len()) + encode_each_input(all.take(0)));
    while i < v.len()
        invariant
            i <= v.len(),
            all == inputs_view(v@),
            r@ == compact_size(all.len()) + encode_each_input(all.take(i as int)),
        decreases v.len() - i,
    {
        let ghost before = r@;
        append(&mut r, &v[i].previous_output.txid);
        push_le(&mut r, v[i].previous_output.vout as u64, 4);
        push_prefixed(&mut r, v[i].script_sig.as_slice());
        push_le(&mut r, v[i].sequence as u64, 4);
        proof {
            let now = all.take(i + 1);
            assert(now.drop_last() =~= all.take(i as int));
            assert(now.last() == v@[i as int]@);
            assert(r@ =~= before + encode_input(v@[i as int]@));
            assert(r@ =~= compact_size(all.len()) + encode_each_input(now));
        }
        i += 1;
    }
    assert(all.take(i as int) =~= all);
    r
}

/// The size of a witness of two items.
pub(crate) proof fn lemma_two_items(w: Seq<Seq<u8>>)
    requires
        w.len() == 2,
    ensures
        witness_size(w) == 1 + prefixed_len(w[0].len()) + prefixed_len(w[1].len()),
{
    reveal_with_fuel(items_size, 3);
    assert(w.drop_last().last() == w[0]);
}

/// The size of a witness of three items.
pub(crate) proof fn lemma_three_items(w: Seq<Seq<u8>>)
    requires
        w.len() == 3,
    ensures
        witness_size(w) == 1 + prefixed_len(w[0].len()) + prefixed_len(w[1].len()) + prefixed_len(
            w[2].len(),
        ),
{
    reveal_with_fuel(items_size, 4);
    assert(w.drop_last().drop_last().last() == w[0]);
    assert(w.drop_last().last() == w[1]);
}

} // verus!
