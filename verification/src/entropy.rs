//! A source of random bytes: ChaCha20 run on a counter.
use vstd::prelude::*;

use crate::bytes::{append, array32, be_bytes, from_le, le_bytes, le_nat, to_be, to_le32};

verus! {

/// A trait that describes a source of entropy.
pub trait EntropySource {
    /// Gets a unique, cryptographically-secure, random 32-byte value. This method must return a
    /// different value each time it is called.
    fn get_secure_random_bytes(&mut self) -> [u8; 32];
}

/// A word rotated left.
pub open spec fn rotate_left(x: u32, n: u32) -> u32 {
    (x << n) | (x >> ((32 - n) as u32))
}

/// One step of a quarter round: `x[a] += x[b]; x[d] = (x[d] ^ x[a]) <<< n`.
pub open spec fn chacha_step(x: Seq<u32>, a: int, b: int, d: int, n: u32) -> Seq<u32> {
    let y = x.update(a, x[a].wrapping_add(x[b]));
    y.update(d, rotate_left(y[d] ^ y[a], n))
}

pub open spec fn chacha_quarter_round(x: Seq<u32>, a: int, b: int, c: int, d: int) -> Seq<u32> {
    chacha_step(
        chacha_step(chacha_step(chacha_step(x, a, b, d, 16), c, d, b, 12), a, b, d, 8),
        c,
        d,
        b,
        7,
    )
}

/// Four quarter rounds on the columns, then four on the diagonals.
pub open spec fn chacha_double_round(x: Seq<u32>) -> Seq<u32> {
    let x = chacha_quarter_round(x, 0, 4, 8, 12);
    let x = chacha_quarter_round(x, 1, 5, 9, 13);
    let x = chacha_quarter_round(x, 2, 6, 10, 14);
    let x = chacha_quarter_round(x, 3, 7, 11, 15);
    let x = chacha_quarter_round(x, 0, 5, 10, 15);
    let x = chacha_quarter_round(x, 1, 6, 11, 12);
    let x = chacha_quarter_round(x, 2, 7, 8, 13);
    chacha_quarter_round(x, 3, 4, 9, 14)
}

pub open spec fn chacha_rounds(x: Seq<u32>, n: nat) -> Seq<u32>
    decreases n,
{
    if n == 0 {
        x
    } else {
        chacha_double_round(chacha_rounds(x, (n - 1) as nat))
    }
}

/// The word that four bytes spell.
pub open spec fn chacha_word(bytes: Seq<u8>, i: int) -> u32 {
    le_nat(bytes.subrange(4 * i, 4 * i + 4)) as u32
}

/// The state that a block starts from: four constants, eight words of key, four of counter and
/// nonce.
pub open spec fn chacha_state(key: Seq<u8>, nonce: Seq<u8>) -> Seq<u32> {
    Seq::new(
        16,
        |i: int|
            if i == 0 {
                0x61707865u32
            } else if i == 1 {
                0x3320646eu32
            } else if i == 2 {
                0x79622d32u32
            } else if i == 3 {
                0x6b206574u32
            } else if i < 12 {
                chacha_word(key, i - 4)
            } else {
                chacha_word(nonce, i - 12)
            },
    )
}

/// The first `n` words of the sum of two states, as bytes.
pub open spec fn chacha_output(x: Seq<u32>, y: Seq<u32>, n: nat) -> Seq<u8>
    decreases n,
{
    if n == 0 {
        Seq::empty()
    } else {
        chacha_output(x, y, (n - 1) as nat) + le_bytes(x[n - 1].wrapping_add(y[n - 1]) as nat, 4)
    }
}

/// The first 32 bytes of the ChaCha20 block of a key and a 16-byte counter and nonce.
pub open spec fn chacha_block(key: Seq<u8>, nonce: Seq<u8>) -> Seq<u8> {
    chacha_output(chacha_rounds(chacha_state(key, nonce), 10), chacha_state(key, nonce), 8)
}

/// The counter and nonce of a source's draw: the draw's index, then zeros.
pub open spec fn draw_nonce(index: u64) -> Seq<u8> {
    be_bytes(index as nat, 8) + Seq::new(8, |i: int| 0u8)
}

/// What a source is: its seed, and how many values it has produced, modulo 2^64.
#[verifier::ext_equal]
pub struct RandomBytesView {
    pub seed: Seq<u8>,
    pub index: u64,
}

impl RandomBytesView {
    /// The value that comes next.
    pub open spec fn value(self) -> Seq<u8> {
        chacha_block(self.seed, draw_nonce(self.index))
    }

    /// The source after one draw.
    pub open spec fn next(self) -> RandomBytesView {
        RandomBytesView { seed: self.seed, index: self.index.wrapping_add(1) }
    }

    /// The source after `n` draws.
    pub open spec fn after(self, n: nat) -> RandomBytesView
        decreases n,
    {
        if n == 0 {
            self
        } else {
            self.after((n - 1) as nat).next()
        }
    }
}

/// An implementation of [`EntropySource`] using ChaCha20.
pub struct RandomBytes {
    /// Seed from which all randomness produced is derived from.
    seed: [u8; 32],
    /// Tracks the number of times we've produced randomness to ensure we don't return the same
    /// bytes twice.
    index: u64,
}

impl View for RandomBytes {
    type V = RandomBytesView;

    closed spec fn view(&self) -> RandomBytesView {
        RandomBytesView { seed: self.seed@, index: self.index }
    }
}

fn step(x: &mut [u32; 16], a: usize, b: usize, d: usize, n: u32)
    requires
        a < 16,
        b < 16,
        d < 16,
        0 < n < 32,
    ensures
        final(x)@ == chacha_step(old(x)@, a as int, b as int, d as int, n),
{
    x[a] = x[a].wrapping_add(x[b]);
    let w: u32 = x[d] ^ x[a];
    x[d] = (w << n) | (w >> (32 - n));
}

fn quarter_round(x: &mut [u32; 16], a: usize, b: usize, c: usize, d: usize)
    requires
        a < 16,
        b < 16,
        c < 16,
        d < 16,
    ensures
        final(x)@ == chacha_quarter_round(old(x)@, a as int, b as int, c as int, d as int),
{
    step(x, a, b, d, 16);
    step(x, c, d, b, 12);
    step(x, a, b, d, 8);
    step(x, c, d, b, 7);
}

fn double_round(x: &mut [u32; 16])
    ensures
        final(x)@ == chacha_double_round(old(x)@),
{
    quarter_round(x, 0, 4, 8, 12);
    quarter_round(x, 1, 5, 9, 13);
    quarter_round(x, 2, 6, 10, 14);
    quarter_round(x, 3, 7, 11, 15);
    quarter_round(x, 0, 5, 10, 15);
    quarter_round(x, 1, 6, 11, 12);
    quarter_round(x, 2, 7, 8, 13);
    quarter_round(x, 3, 4, 9, 14);
}

fn word(bytes: &[u8], i: usize) -> (r: u32)
    requires
        i < 8,
        4 * i + 4 <= bytes@.len(),
    ensures
        r == chacha_word(bytes@, i as int),
{
    from_le(vstd::slice::slice_subrange(bytes, 4 * i, 4 * i + 4)) as u32
}

/// The first 32 bytes of the ChaCha20 block of a key and a 16-byte counter and nonce.
pub fn get_single_block(key: &[u8; 32], nonce: &[u8; 16]) -> (r: [u8; 32])
    ensures
        r@ == chacha_block(key@, nonce@),
{
    let mut start: [u32; 16] = [0u32; 16];
    start[0] = 0x61707865;
    start[1] = 0x3320646e;
    start[2] = 0x79622d32;
    start[3] = 0x6b206574;
    let mut i: usize = 4;
    let ghost goal = chacha_state(key@, nonce@);
    while i < 16
        invariant
            4 <= i <= 16,
            goal == chacha_state(key@, nonce@),
            forall|j: int| 0 <= j < i ==> start@[j] == goal[j],
        decreases 16 - i,
    {
        start[i] = if i < 12 {
            word(key, i - 4)
        } else {
            word(nonce, i - 12)
        };
        i += 1;
    }
    assert(start@ =~= goal);
    let mut x: [u32; 16] = start;
    i = 0;
    while i < 10
        invariant
            i <= 10,
            x@ == chacha_rounds(start@, i as nat),
        decreases 10 - i,
    {
        double_round(&mut x);
        i += 1;
    }
    let mut out: Vec<u8> = Vec::new();
    i = 0;
    while i < 8
        invariant
            i <= 8,
            out@ == chacha_output(x@, start@, i as nat),
            out@.len() == 4 * i,
        decreases 8 - i,
    {
        append(&mut out, &to_le32(x[i].wrapping_add(start[i])));
        i += 1;
    }
    array32(out.as_slice())
}

impl RandomBytes {
    /// Creates a new instance using the given seed.
    pub fn new(seed: [u8; 32]) -> (r: Self)
        ensures
            r@ == (RandomBytesView { seed: seed@, index: 0 }),
    {
        RandomBytes { seed, index: 0 }
    }
}

impl RandomBytes {
    /// What the next draw gives.
    fn block(&self) -> (r: [u8; 32])
        ensures
            r@ == self@.value(),
    {
        let counter: Vec<u8> = to_be(self.index as u128, 8);
        proof {
            crate::bytes::lemma_be_bytes_len(self.index as nat, 8);
        }
        let mut nonce: [u8; 16] = [0u8; 16];
        let mut i: usize = 0;
        while i < 8
            invariant
                i <= 8,
                counter@.len() == 8,
                forall|j: int| 0 <= j < i ==> nonce@[j] == counter@[j],
                forall|j: int| i <= j < 16 ==> nonce@[j] == 0,
            decreases 8 - i,
        {
            nonce[i] = counter[i];
            i += 1;
        }
        assert(nonce@ =~= draw_nonce(self.index));
        get_single_block(&self.seed, &nonce)
    }

    /// What the next draw gives, and the source after it.
    pub(crate) fn drawn(&self) -> (r: ([u8; 32], RandomBytes))
        ensures
            r.0@ == self@.value(),
            r.1@ == self@.next(),
    {
        (self.block(), RandomBytes { seed: self.seed, index: self.index.wrapping_add(1) })
    }
}

impl EntropySource for RandomBytes {
    /// The ChaCha20 block at the number of draws so far. No two draws share that number (see
    /// [`draws_never_share_an_input`]); that two blocks then differ rests on the cipher, and no clause says
    /// so.
    fn get_secure_random_bytes(&mut self) -> (r: [u8; 32])
        ensures
            r@ == old(self)@.value(),
            final(self)@ == old(self)@.next(),
    {
        let (bytes, after): ([u8; 32], RandomBytes) = self.drawn();
        *self = after;
        bytes
    }
}

/// Two draws of a source that are fewer than 2^64 apart never run ChaCha20 on the same block input:
/// the source does not repeat itself.
pub proof fn draws_never_share_an_input(source: RandomBytesView, m: nat, n: nat)
    requires
        m < n,
        n - m < 0x1_0000_0000_0000_0000,
    ensures
        draw_nonce(source.after(m).index) != draw_nonce(source.after(n).index),
        source.after(m).seed == source.seed,
{
    lemma_after_index(source, m);
    lemma_after_index(source, n);
    let a = source.after(m).index;
    let b = source.after(n).index;
    assert(a != b) by {
        let w: int = 0x1_0000_0000_0000_0000;
        if a == b {
            let x = source.index + m;
            let y = source.index + n;
            vstd::arithmetic::div_mod::lemma_fundamental_div_mod(x, w);
            vstd::arithmetic::div_mod::lemma_fundamental_div_mod(y, w);
            assert(y - x == w * (y / w) - w * (x / w));
            assert(w * (y / w) - w * (x / w) == w * (y / w - x / w)) by (nonlinear_arith);
        }
    }
    if draw_nonce(a) == draw_nonce(b) {
        crate::bytes::lemma_be_bytes_len(a as nat, 8);
        crate::bytes::lemma_be_bytes_len(b as nat, 8);
        assert(draw_nonce(a).take(8) =~= be_bytes(a as nat, 8));
        assert(draw_nonce(b).take(8) =~= be_bytes(b as nat, 8));
        crate::bytes::lemma_byte_ranges();
        crate::bytes::lemma_be_bytes_injective(a as nat, b as nat, 8);
    }
}

proof fn lemma_after_index(source: RandomBytesView, n: nat)
    ensures
        source.after(n).index == (source.index + n) % 0x1_0000_0000_0000_0000,
        source.after(n).seed == source.seed,
    decreases n,
{
    if n > 0 {
        lemma_after_index(source, (n - 1) as nat);
    }
}

} // verus!
