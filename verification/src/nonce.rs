//! The heights at which MuSig2 nonces are derived, and the seeds at those heights. Commitments, closes
//! and splices draw on one seed chain, so their heights must never meet.
use vstd::prelude::*;

use crate::bytes::{
    be_bytes, be_nat, concat, from_be, lemma_be_bytes_injective, lemma_be_bytes_len,
    lemma_byte_ranges, text, to_be,
};
use crate::hashes::{hmac_sha256, hmac_sha256_of, sha256, sha256_of};

verus! {

/// The base "height" domain fed to the deterministic shachain nonce derivation
/// for cooperative-close partial signatures. A close has no commitment height, so
/// we pin a sentinel range that cannot collide with any real commitment number
/// (which count *down* from `(1<<48)-1`); `u64::MAX` and the few values below it
/// are strictly above that range. Each closing **round** subtracts its index, so
/// every distinct close transaction gets a distinct nonce.
pub const CLOSING_NONCE_BASE: u64 = u64::MAX;

/// One above the highest commitment number.
pub const COMMITMENT_TOP: u64 = 0x1_0000_0000_0000;

/// One above the highest splice height.
pub const SPLICE_TOP: u64 = 0x100_0000_0000_0000 + 0x1_0000_0000_0000;

/// Domain separator mixed into the secret-nonce seed for the **counterparty's** commitment. Holder and
/// counterparty commitments are signed at the same heights, so without the mark both would use one
/// nonce for two messages.
pub const COUNTERPARTY_COMMITMENT_NONCE_TAG: &'static str = "quid/musig2/counterparty-commitment";

/// The height of a closing round: as far below the base as rounds came before it, but never below the top
/// of the splice window.
pub open spec fn closing_height(round: u64) -> u64 {
    if round <= u64::MAX - SPLICE_TOP {
        (CLOSING_NONCE_BASE - round) as u64
    } else {
        SPLICE_TOP
    }
}

/// The height of the splice that spends a funding transaction: 56 bits of a hash, above the commitment
/// numbers.
pub open spec fn splice_height(prev_funding_txid: Seq<u8>) -> nat {
    COMMITMENT_TOP as nat + be_nat(
        sha256(text("quid-taproot-splice-nonce") + prev_funding_txid).take(8),
    ) % 0x100_0000_0000_0000nat
}

/// The nonce seed at a height, in a domain: the HMAC of the domain and the height under the hash of the
/// chain's root.
pub open spec fn secnonce_seed(root: Seq<u8>, domain: Seq<u8>, height: u64) -> Seq<u8> {
    hmac_sha256(sha256(root), secnonce_message(domain, height))
}

/// What is hashed into the nonce seed at a height, in a domain.
pub open spec fn secnonce_message(domain: Seq<u8>, height: u64) -> Seq<u8> {
    domain + be_bytes(height as nat, 8)
}

/// The per-round deterministic nonce height for cooperative-close round `round`
/// (`0` = `shutdown`/first `closing_signed`). MuSig2 exchanges the nonce before the close fee is
/// known, so the nonce cannot be bound to the message; instead each round has a nonce of its own.
/// Saturates so a pathological round count cannot wrap into the commitment range, nor into the window of
/// splice heights above it.
pub fn closing_nonce_height(round: u64) -> (r: u64)
    ensures
        r == closing_height(round),
{
    let height: u64 = CLOSING_NONCE_BASE.saturating_sub(round);
    if height < SPLICE_TOP {
        SPLICE_TOP
    } else {
        height
    }
}

/// The deterministic shachain nonce height for the MuSig2 partial that signs a
/// splice transaction's shared (old-funding) input, derived from the
/// `prev_funding_txid` it spends. Distinct splices spend distinct funding outputs. A replacement of a
/// splice spends the same one and would reuse its height.
///
/// The height lies above every commitment number and below the heights of closing rounds.
pub fn splice_nonce_height(prev_funding_txid: &[u8; 32]) -> (r: u64)
    ensures
        r as nat == splice_height(prev_funding_txid@),
        COMMITMENT_TOP <= r < SPLICE_TOP,
{
    let preimage: Vec<u8> = concat("quid-taproot-splice-nonce".as_bytes(), prev_funding_txid);
    let h: [u8; 32] = sha256_of(preimage.as_slice());
    let raw: u64 = from_be(vstd::slice::slice_subrange(h.as_slice(), 0, 8));
    assert(h@.subrange(0, 8) =~= h@.take(8));
    assert((1u64 << 56) == 0x100_0000_0000_0000u64) by (bit_vector);
    let mask: u64 = (1u64 << 56) - 1;
    assert((1u64 << 48) == 0x1_0000_0000_0000u64) by (bit_vector);
    assert(raw & 0xff_ffff_ffff_ffffu64 == raw % 0x100_0000_0000_0000u64) by (bit_vector);
    (1u64 << 48).wrapping_add(raw & mask)
}

fn seed_at(root: &[u8; 32], domain: &[u8], height: u64) -> (r: [u8; 32])
    ensures
        r@ == secnonce_seed(root@, domain@, height),
{
    let key: [u8; 32] = sha256_of(root);
    let message: Vec<u8> = concat(domain, to_be(height as u128, 8).as_slice());
    hmac_sha256_of(&key, message.as_slice())
}

/// Deterministic 32-byte MuSig2 secret-nonce seed for `height`:
/// `HMAC-SHA256(key = sha256(shachain_root), msg = height_be)`.
pub fn derive_secnonce_seed(shachain_root: &[u8; 32], height: u64) -> (r: [u8; 32])
    ensures
        r@ == secnonce_seed(shachain_root@, Seq::empty(), height),
{
    let none: [u8; 0] = [];
    assert(none@ =~= Seq::<u8>::empty());
    seed_at(shachain_root, &none, height)
}

/// Domain-separated [`derive_secnonce_seed`]: HMACs `domain || height` so a
/// tagged derivation can never collide with the untagged holder-commitment seed
/// at the same height (height-uniqueness is preserved within a domain).
pub fn derive_secnonce_seed_domain(shachain_root: &[u8; 32], height: u64, domain: &[u8]) -> (r: [u8;
    32])
    ensures
        r@ == secnonce_seed(shachain_root@, domain@, height),
{
    seed_at(shachain_root, domain, height)
}

/// Each closing round has a height of its own, lower than that of every earlier round, up to the round at
/// which the heights saturate.
pub proof fn closing_heights_are_distinct(a: u64, b: u64)
    requires
        a < b <= u64::MAX - SPLICE_TOP,
    ensures
        closing_height(b) < closing_height(a),
        closing_height(0) == CLOSING_NONCE_BASE,
{
}

/// No closing height is a splice height or a commitment number, whatever the round.
pub proof fn closing_heights_are_apart(round: u64, prev_funding_txid: Seq<u8>, commitment: u64)
    requires
        commitment < COMMITMENT_TOP,
    ensures
        closing_height(round) >= SPLICE_TOP,
        closing_height(round) as nat != splice_height(prev_funding_txid),
        closing_height(round) != commitment,
{
}

/// Every splice height lies above the commitment numbers and below the window's top.
pub proof fn splice_heights_are_apart(prev_funding_txid: Seq<u8>, commitment: u64)
    requires
        commitment < COMMITMENT_TOP,
    ensures
        COMMITMENT_TOP <= splice_height(prev_funding_txid) < SPLICE_TOP,
        splice_height(prev_funding_txid) != commitment as nat,
{
}

/// Within one domain, distinct heights hash distinct messages into their seeds.
pub proof fn heights_have_distinct_messages(domain: Seq<u8>, a: u64, b: u64)
    requires
        a != b,
    ensures
        secnonce_message(domain, a) != secnonce_message(domain, b),
{
    if secnonce_message(domain, a) == secnonce_message(domain, b) {
        lemma_be_bytes_len(a as nat, 8);
        lemma_be_bytes_len(b as nat, 8);
        lemma_byte_ranges();
        assert(secnonce_message(domain, a).skip(domain.len() as int) =~= be_bytes(a as nat, 8));
        assert(secnonce_message(domain, b).skip(domain.len() as int) =~= be_bytes(b as nat, 8));
        lemma_be_bytes_injective(a as nat, b as nat, 8);
    }
}

/// The message of a tagged seed is never that of an untagged one, at whatever heights: holder and
/// counterparty commitments never share a seed's input.
pub proof fn tagged_messages_are_apart(a: u64, b: u64)
    ensures
        secnonce_message(text(COUNTERPARTY_COMMITMENT_NONCE_TAG), a) != secnonce_message(
            Seq::empty(),
            b,
        ),
{
    reveal_strlit("quid/musig2/counterparty-commitment");
    lemma_be_bytes_len(a as nat, 8);
    lemma_be_bytes_len(b as nat, 8);
    broadcast use vstd::string::is_ascii_spec_bytes;

    assert(vstd::string::is_ascii("quid/musig2/counterparty-commitment"));
    assert(text(COUNTERPARTY_COMMITMENT_NONCE_TAG).len() == 35);
    assert(secnonce_message(text(COUNTERPARTY_COMMITMENT_NONCE_TAG), a).len() == 43);
    assert(secnonce_message(Seq::empty(), b).len() == 8);
}

} // verus!
