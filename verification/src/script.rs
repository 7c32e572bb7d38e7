//! The scripts of a channel's outputs, as bytes.
use vstd::prelude::*;

use crate::bytes::{append, bytes_less, le_nat, lemma_le_nat_first, lex_less};
use crate::curve::{x_only, PublicKey};
use crate::hashes::{hash160, hash160_of, ripemd160, ripemd160_of, sha256, sha256_of};

verus! {

/// The most bytes a script of [`get_revokeable_redeemscript`] can take.
pub const REVOKEABLE_REDEEMSCRIPT_MAX_LENGTH: usize = 78;

/// An instruction that pushes fewer than 76 bytes.
pub open spec fn push(data: Seq<u8>) -> Seq<u8> {
    seq![data.len() as u8] + data
}

/// A positive number as a script spells it: little-endian, with room for a sign bit.
pub open spec fn script_number(n: nat) -> Seq<u8>
    decreases n,
{
    if n > 0xff {
        seq![(n % 256) as u8] + script_number(n / 256)
    } else if n >= 0x80 {
        seq![n as u8, 0u8]
    } else {
        seq![n as u8]
    }
}

/// An instruction that pushes a number: an opcode for 0 to 16, its bytes otherwise.
pub open spec fn push_int(n: nat) -> Seq<u8> {
    if n == 0 {
        seq![0u8]
    } else if n <= 16 {
        seq![(0x50 + n) as u8]
    } else {
        push(script_number(n))
    }
}

/// Pays to the hash of a public key, by witness.
pub open spec fn p2wpkh(key: Seq<u8>) -> Seq<u8> {
    seq![0x00u8, 0x14] + hash160(key)
}

/// Pays to the hash of a public key.
pub open spec fn p2pkh(key: Seq<u8>) -> Seq<u8> {
    seq![0x76u8, 0xa9, 0x14] + hash160(key) + seq![0x88u8, 0xac]
}

/// Pays to the hash of a script, by witness.
pub open spec fn p2wsh(script: Seq<u8>) -> Seq<u8> {
    seq![0x00u8, 0x20] + sha256(script)
}

/// Pays to a taproot output key.
pub open spec fn p2tr(output_key: Seq<u8>) -> Seq<u8> {
    seq![0x51u8, 0x20] + output_key
}

/// `IF <revocation> ELSE <delay> CSV DROP <delayed> ENDIF CHECKSIG`.
pub open spec fn revokeable_redeemscript(revocation: Seq<u8>, delay: u16, delayed: Seq<u8>) -> Seq<
    u8,
> {
    seq![0x63u8] + push(revocation) + seq![0x67u8] + push_int(delay as nat) + seq![0xb2u8, 0x75]
        + push(delayed) + seq![0x68u8, 0xac]
}

/// `2 <a> <b> 2 CHECKMULTISIG`.
pub open spec fn two_of_two(a: Seq<u8>, b: Seq<u8>) -> Seq<u8> {
    seq![0x52u8] + push(a) + push(b) + seq![0x52u8, 0xae]
}

/// The two-of-two script of a channel's funding output, the lesser key first.
pub open spec fn funding_redeemscript(a: Seq<u8>, b: Seq<u8>) -> Seq<u8> {
    if lex_less(a, b) {
        two_of_two(a, b)
    } else {
        two_of_two(b, a)
    }
}

/// `<key> CHECKSIGVERIFY 1 CSV`.
pub open spec fn to_countersigner_anchor_redeemscript(key: Seq<u8>) -> Seq<u8> {
    push(key) + seq![0xadu8, 0x51, 0xb2]
}

/// `<key> CHECKSIG IFDUP NOTIF 16 CSV ENDIF`.
pub open spec fn anchor_redeemscript(key: Seq<u8>) -> Seq<u8> {
    push(key) + seq![0xacu8, 0x73, 0x64, 0x60, 0xb2, 0x68]
}

/// What pays the party that did not broadcast a commitment: with anchors a script that waits one
/// block, otherwise the key alone.
pub open spec fn countersigner_payment_script(anchors: bool, key: Seq<u8>) -> Seq<u8> {
    if anchors {
        p2wsh(to_countersigner_anchor_redeemscript(key))
    } else {
        p2wpkh(key)
    }
}

/// What an anchor channel's HTLC script ends in: a wait of one block.
pub open spec fn one_block_wait(anchors: bool) -> Seq<u8> {
    if anchors {
        seq![0x51u8, 0xb2, 0x75]
    } else {
        Seq::empty()
    }
}

/// `DUP HASH160 <hash160(revocation)> EQUAL IF CHECKSIG ELSE <countersignatory> SWAP SIZE 32 EQUAL`.
pub open spec fn htlc_script_head(revocation: Seq<u8>, countersignatory: Seq<u8>) -> Seq<u8> {
    seq![0x76u8, 0xa9] + push(hash160(revocation)) + seq![0x87u8, 0x63, 0xac, 0x67] + push(
        countersignatory,
    ) + seq![0x7cu8, 0x82, 0x01, 0x20, 0x87]
}

/// The script of an HTLC that the broadcaster offered.
pub open spec fn offered_htlc_script(
    payment_hash: Seq<u8>,
    anchors: bool,
    broadcaster: Seq<u8>,
    countersignatory: Seq<u8>,
    revocation: Seq<u8>,
) -> Seq<u8> {
    htlc_script_head(revocation, countersignatory) + seq![0x64u8, 0x75, 0x52, 0x7c] + push(
        broadcaster,
    ) + seq![0x52u8, 0xae, 0x67, 0xa9] + push(ripemd160(payment_hash)) + seq![0x88u8, 0xac, 0x68]
        + one_block_wait(anchors) + seq![0x68u8]
}

/// The script of an HTLC that the broadcaster received.
pub open spec fn received_htlc_script(
    payment_hash: Seq<u8>,
    cltv_expiry: u32,
    anchors: bool,
    broadcaster: Seq<u8>,
    countersignatory: Seq<u8>,
    revocation: Seq<u8>,
) -> Seq<u8> {
    htlc_script_head(revocation, countersignatory) + seq![0x63u8, 0xa9] + push(
        ripemd160(payment_hash),
    ) + seq![0x88u8, 0x52, 0x7c] + push(broadcaster) + seq![0x52u8, 0xae, 0x67, 0x75] + push_int(
        cltv_expiry as nat,
    ) + seq![0xb1u8, 0x75, 0xac, 0x68] + one_block_wait(anchors) + seq![0x68u8]
}

/// `<delayed> CHECKSIGVERIFY <delay> CSV`.
pub open spec fn taproot_to_local_delay_script(delay: u16, delayed: Seq<u8>) -> Seq<u8> {
    push(x_only(delayed)) + seq![0xadu8] + push_int(delay as nat) + seq![0xb2u8]
}

/// `<delayed> DROP <revocation> CHECKSIG`.
pub open spec fn taproot_to_local_revoke_script(revocation: Seq<u8>, delayed: Seq<u8>) -> Seq<u8> {
    push(x_only(delayed)) + seq![0x75u8] + push(x_only(revocation)) + seq![0xacu8]
}

/// `<key> CHECKSIGVERIFY 1 CSV`.
pub open spec fn taproot_to_remote_script(key: Seq<u8>) -> Seq<u8> {
    push(x_only(key)) + seq![0xadu8, 0x51, 0xb2]
}

/// A number that a script spells out reads back as the number, is not negative, and takes no byte more than it
/// needs: its top byte is zero only where the byte below would make it negative.
pub proof fn script_numbers_are_minimal(n: nat)
    requires
        n > 0,
    ensures
        ({
            let s = script_number(n);
            &&& s.len() > 0
            &&& le_nat(s) == n
            &&& s.last() < 0x80
            &&& s.last() == 0 ==> s.len() > 1 && s[s.len() - 2] >= 0x80
        }),
    decreases n,
{
    let s = script_number(n);
    if n > 0xff {
        script_numbers_are_minimal(n / 256);
        let rest = script_number(n / 256);
        lemma_le_nat_first((n % 256) as u8, rest);
        assert(s.last() == rest.last());
        if rest.len() > 1 {
            assert(s[s.len() - 2] == rest[rest.len() - 2]);
        }
    } else {
        let none = Seq::<u8>::empty();
        assert(none.reverse() =~= none);
        lemma_le_nat_first(0u8, none);
        lemma_le_nat_first(n as u8, none);
        lemma_le_nat_first(n as u8, seq![0u8]);
        assert(seq![0u8] + none =~= seq![0u8]);
        assert(seq![n as u8] + none =~= seq![n as u8]);
        assert(seq![n as u8] + seq![0u8] =~= seq![n as u8, 0u8]);
    }
}

/// A number is pushed by the opcode that stands for it where there is one, and by its bytes otherwise.
pub proof fn pushed_numbers_are_minimal(n: nat)
    ensures
        n == 0 ==> push_int(n) == seq![0u8],
        1 <= n <= 16 ==> push_int(n) == seq![(0x50 + n) as u8],
        n > 16 ==> push_int(n).skip(1) == script_number(n),
        n > 16 && script_number(n).len() < 76 ==> push_int(n)[0] == script_number(n).len(),
{
    if n > 16 {
        assert(push_int(n).skip(1) =~= script_number(n));
    }
}

/// A delay takes at most four bytes to push.
pub proof fn lemma_push_int_len(n: nat)
    requires
        n <= 0xffff,
    ensures
        1 <= push_int(n).len() <= 4,
{
    reveal_with_fuel(script_number, 3);
}

/// A revokeable script fits its documented length.
pub proof fn lemma_revokeable_redeemscript_len(revocation: Seq<u8>, delay: u16, delayed: Seq<u8>)
    requires
        revocation.len() == 33,
        delayed.len() == 33,
    ensures
        revokeable_redeemscript(revocation, delay, delayed).len()
            <= REVOKEABLE_REDEEMSCRIPT_MAX_LENGTH,
{
    lemma_push_int_len(delay as nat);
}

/// The funding script does not depend on which party is named first.
pub proof fn funding_script_is_shared(a: Seq<u8>, b: Seq<u8>)
    requires
        a.len() == b.len(),
    ensures
        funding_redeemscript(a, b) == funding_redeemscript(b, a),
{
    crate::bytes::lemma_lex_total(a, b);
}

fn push_data(script: &mut Vec<u8>, data: &[u8])
    requires
        data@.len() < 76,
    ensures
        final(script)@ == old(script)@ + push(data@),
{
    script.push(data.len() as u8);
    append(script, data);
    assert(script@ =~= old(script)@ + push(data@));
}

fn push_number_bytes(script: &mut Vec<u8>, n: u32)
    ensures
        final(script)@ == old(script)@ + script_number(n as nat),
    decreases n,
{
    if n > 0xff {
        script.push((n % 256) as u8);
        push_number_bytes(script, n / 256);
    } else if n >= 0x80 {
        script.push(n as u8);
        script.push(0);
    } else {
        script.push(n as u8);
    }
    assert(script@ =~= old(script)@ + script_number(n as nat));
}

fn push_number(script: &mut Vec<u8>, n: u32)
    ensures
        final(script)@ == old(script)@ + push_int(n as nat),
{
    if n == 0 {
        script.push(0);
    } else if n <= 16 {
        script.push((0x50 + n) as u8);
    } else {
        let mut digits: Vec<u8> = Vec::new();
        push_number_bytes(&mut digits, n);
        assert(digits@ =~= script_number(n as nat));
        proof {
            reveal_with_fuel(script_number, 5);
        }
        push_data(script, digits.as_slice());
    }
    assert(script@ =~= old(script)@ + push_int(n as nat));
}

pub fn new_p2wpkh(key: &PublicKey) -> (r: Vec<u8>)
    ensures
        r@ == p2wpkh(key@),
{
    let digest: [u8; 20] = hash160_of(&key.serialize());
    let mut r: Vec<u8> = vec![0x00u8, 0x14];
    append(&mut r, &digest);
    assert(r@ =~= p2wpkh(key@));
    r
}

pub fn new_p2pkh(key: &PublicKey) -> (r: Vec<u8>)
    ensures
        r@ == p2pkh(key@),
{
    let digest: [u8; 20] = hash160_of(&key.serialize());
    let mut r: Vec<u8> = vec![0x76u8, 0xa9, 0x14];
    append(&mut r, &digest);
    r.push(0x88);
    r.push(0xac);
    assert(r@ =~= p2pkh(key@));
    r
}

pub fn to_p2wsh(script: &[u8]) -> (r: Vec<u8>)
    ensures
        r@ == p2wsh(script@),
{
    let digest: [u8; 32] = sha256_of(script);
    let mut r: Vec<u8> = vec![0x00u8, 0x20];
    append(&mut r, &digest);
    assert(r@ =~= p2wsh(script@));
    r
}

pub fn new_p2tr(output_key: &[u8; 32]) -> (r: Vec<u8>)
    ensures
        r@ == p2tr(output_key@),
{
    let mut r: Vec<u8> = vec![0x51u8, 0x20];
    append(&mut r, output_key);
    assert(r@ =~= p2tr(output_key@));
    r
}

/// The script of an output that its owner can spend after a delay, and the holder of the revocation
/// key at once.
pub fn get_revokeable_redeemscript(revocation: &PublicKey, delay: u16, delayed: &PublicKey) -> (r:
    Vec<u8>)
    ensures
        r@ == revokeable_redeemscript(revocation@, delay, delayed@),
        r@.len() <= REVOKEABLE_REDEEMSCRIPT_MAX_LENGTH,
{
    let mut r: Vec<u8> = vec![0x63u8];
    push_data(&mut r, &revocation.serialize());
    r.push(0x67);
    push_number(&mut r, delay as u32);
    r.push(0xb2);
    r.push(0x75);
    push_data(&mut r, &delayed.serialize());
    r.push(0x68);
    r.push(0xac);
    assert(r@ =~= revokeable_redeemscript(revocation@, delay, delayed@));
    proof {
        lemma_revokeable_redeemscript_len(revocation@, delay, delayed@);
    }
    r
}

/// The two-of-two script of a channel's funding output.
pub fn make_funding_redeemscript(a: &PublicKey, b: &PublicKey) -> (r: Vec<u8>)
    ensures
        r@ == funding_redeemscript(a@, b@),
{
    let first: [u8; 33] = a.serialize();
    let second: [u8; 33] = b.serialize();
    let mut r: Vec<u8> = vec![0x52u8];
    if bytes_less(&first, &second) {
        push_data(&mut r, &first);
        push_data(&mut r, &second);
    } else {
        push_data(&mut r, &second);
        push_data(&mut r, &first);
    }
    r.push(0x52);
    r.push(0xae);
    assert(r@ =~= funding_redeemscript(a@, b@));
    r
}

pub fn get_to_countersigner_keyed_anchor_redeemscript(key: &PublicKey) -> (r: Vec<u8>)
    ensures
        r@ == to_countersigner_anchor_redeemscript(key@),
        r@.len() == 37,
{
    let mut r: Vec<u8> = Vec::new();
    push_data(&mut r, &key.serialize());
    r.push(0xad);
    r.push(0x51);
    r.push(0xb2);
    assert(r@ =~= to_countersigner_anchor_redeemscript(key@));
    r
}

pub fn get_keyed_anchor_redeemscript(key: &PublicKey) -> (r: Vec<u8>)
    ensures
        r@ == anchor_redeemscript(key@),
{
    let mut r: Vec<u8> = Vec::new();
    push_data(&mut r, &key.serialize());
    append(&mut r, &[0xacu8, 0x73, 0x64, 0x60, 0xb2, 0x68]);
    assert(r@ =~= anchor_redeemscript(key@));
    r
}

pub fn get_countersigner_payment_script(anchors: bool, key: &PublicKey) -> (r: Vec<u8>)
    ensures
        r@ == countersigner_payment_script(anchors, key@),
{
    if anchors {
        to_p2wsh(get_to_countersigner_keyed_anchor_redeemscript(key).as_slice())
    } else {
        new_p2wpkh(key)
    }
}

fn push_htlc_script_head(
    r: &mut Vec<u8>,
    revocation: &PublicKey,
    countersignatory: &PublicKey,
)
    ensures
        final(r)@ == old(r)@ + htlc_script_head(revocation@, countersignatory@),
{
    r.push(0x76);
    r.push(0xa9);
    push_data(r, &hash160_of(&revocation.serialize()));
    append(r, &[0x87u8, 0x63, 0xac, 0x67]);
    push_data(r, &countersignatory.serialize());
    append(r, &[0x7cu8, 0x82, 0x01, 0x20, 0x87]);
    assert(r@ =~= old(r)@ + htlc_script_head(revocation@, countersignatory@));
}

fn push_one_block_wait(r: &mut Vec<u8>, anchors: bool)
    ensures
        final(r)@ == old(r)@ + one_block_wait(anchors),
{
    if anchors {
        append(r, &[0x51u8, 0xb2, 0x75]);
    }
    assert(r@ =~= old(r)@ + one_block_wait(anchors));
}

pub fn get_offered_htlc_script(
    payment_hash: &[u8; 32],
    anchors: bool,
    broadcaster: &PublicKey,
    countersignatory: &PublicKey,
    revocation: &PublicKey,
) -> (r: Vec<u8>)
    ensures
        r@ == offered_htlc_script(
            payment_hash@,
            anchors,
            broadcaster@,
            countersignatory@,
            revocation@,
        ),
{
    let mut r: Vec<u8> = Vec::new();
    push_htlc_script_head(&mut r, revocation, countersignatory);
    append(&mut r, &[0x64u8, 0x75, 0x52, 0x7c]);
    push_data(&mut r, &broadcaster.serialize());
    append(&mut r, &[0x52u8, 0xae, 0x67, 0xa9]);
    push_data(&mut r, &ripemd160_of(payment_hash));
    append(&mut r, &[0x88u8, 0xac, 0x68]);
    push_one_block_wait(&mut r, anchors);
    r.push(0x68);
    assert(r@ =~= offered_htlc_script(
        payment_hash@,
        anchors,
        broadcaster@,
        countersignatory@,
        revocation@,
    ));
    r
}

pub fn get_received_htlc_script(
    payment_hash: &[u8; 32],
    cltv_expiry: u32,
    anchors: bool,
    broadcaster: &PublicKey,
    countersignatory: &PublicKey,
    revocation: &PublicKey,
) -> (r: Vec<u8>)
    ensures
        r@ == received_htlc_script(
            payment_hash@,
            cltv_expiry,
            anchors,
            broadcaster@,
            countersignatory@,
            revocation@,
        ),
{
    let mut r: Vec<u8> = Vec::new();
    push_htlc_script_head(&mut r, revocation, countersignatory);
    append(&mut r, &[0x63u8, 0xa9]);
    push_data(&mut r, &ripemd160_of(payment_hash));
    append(&mut r, &[0x88u8, 0x52, 0x7c]);
    push_data(&mut r, &broadcaster.serialize());
    append(&mut r, &[0x52u8, 0xae, 0x67, 0x75]);
    push_number(&mut r, cltv_expiry);
    append(&mut r, &[0xb1u8, 0x75, 0xac, 0x68]);
    push_one_block_wait(&mut r, anchors);
    r.push(0x68);
    assert(r@ =~= received_htlc_script(
        payment_hash@,
        cltv_expiry,
        anchors,
        broadcaster@,
        countersignatory@,
        revocation@,
    ));
    r
}

/// The leaf by which the owner of a taproot `to_local` output spends it after the delay.
pub fn get_taproot_to_local_delay_script(delay: u16, delayed: &PublicKey) -> (r: Vec<u8>)
    ensures
        r@ == taproot_to_local_delay_script(delay, delayed@),
        r@.len() == 35 + push_int(delay as nat).len(),
        r@.len() <= 39,
{
    let mut r: Vec<u8> = Vec::new();
    push_data(&mut r, &delayed.x_only());
    r.push(0xad);
    push_number(&mut r, delay as u32);
    r.push(0xb2);
    assert(r@ =~= taproot_to_local_delay_script(delay, delayed@));
    proof {
        lemma_push_int_len(delay as nat);
    }
    r
}

/// The leaf by which the holder of the revocation key spends a taproot `to_local` output.
pub fn get_taproot_to_local_revoke_script(revocation: &PublicKey, delayed: &PublicKey) -> (r:
    Vec<u8>)
    ensures
        r@ == taproot_to_local_revoke_script(revocation@, delayed@),
{
    let mut r: Vec<u8> = Vec::new();
    push_data(&mut r, &delayed.x_only());
    r.push(0x75);
    push_data(&mut r, &revocation.x_only());
    r.push(0xac);
    assert(r@ =~= taproot_to_local_revoke_script(revocation@, delayed@));
    r
}

/// The leaf by which a taproot `to_remote` output is spent after one block.
pub fn get_taproot_to_remote_script(key: &PublicKey) -> (r: Vec<u8>)
    ensures
        r@ == taproot_to_remote_script(key@),
        r@.len() == 36,
{
    let mut r: Vec<u8> = Vec::new();
    push_data(&mut r, &key.x_only());
    r.push(0xad);
    r.push(0x51);
    r.push(0xb2);
    assert(r@ =~= taproot_to_remote_script(key@));
    r
}

} // verus!
