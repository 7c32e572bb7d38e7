//! Byte strings as numbers, and the few byte-string operations the rest of the crate is built on.
use vstd::prelude::*;
use vstd::string::StringSliceAdditionalSpecFns;

verus! {

/// The number a byte string spells in big-endian order.
pub open spec fn be_nat(s: Seq<u8>) -> nat
    decreases s.len(),
{
    if s.len() == 0 {
        0
    } else {
        be_nat(s.drop_last()) * 256 + s.last() as nat
    }
}

/// The `len` low-order bytes of `n`, most significant first.
pub open spec fn be_bytes(n: nat, len: nat) -> Seq<u8>
    decreases len,
{
    if len == 0 {
        Seq::empty()
    } else {
        be_bytes(n / 256, (len - 1) as nat).push((n % 256) as u8)
    }
}

/// The number a byte string spells in little-endian order.
pub open spec fn le_nat(s: Seq<u8>) -> nat {
    be_nat(s.reverse())
}

/// The `len` low-order bytes of `n`, least significant first.
pub open spec fn le_bytes(n: nat, len: nat) -> Seq<u8>
    decreases len,
{
    if len == 0 {
        Seq::empty()
    } else {
        seq![(n % 256) as u8] + le_bytes(n / 256, (len - 1) as nat)
    }
}

/// 256 to the power of `len`: how many byte strings of that length there are.
pub open spec fn byte_range(len: nat) -> nat
    decreases len,
{
    if len == 0 {
        1
    } else {
        256 * byte_range((len - 1) as nat)
    }
}

/// The bytes of a text.
pub open spec fn text(s: &str) -> Seq<u8> {
    s.spec_bytes()
}

/// Lexicographic order on byte strings, a proper prefix coming first.
pub open spec fn lex_less(a: Seq<u8>, b: Seq<u8>) -> bool
    decreases a.len(),
{
    if b.len() == 0 {
        false
    } else if a.len() == 0 {
        true
    } else if a[0] != b[0] {
        a[0] < b[0]
    } else {
        lex_less(a.drop_first(), b.drop_first())
    }
}

pub proof fn lemma_be_bytes_len(n: nat, len: nat)
    ensures
        be_bytes(n, len).len() == len,
    decreases len,
{
    if len > 0 {
        lemma_be_bytes_len(n / 256, (len - 1) as nat);
    }
}

pub proof fn lemma_le_bytes_len(n: nat, len: nat)
    ensures
        le_bytes(n, len).len() == len,
    decreases len,
{
    if len > 0 {
        lemma_le_bytes_len(n / 256, (len - 1) as nat);
    }
}

pub proof fn lemma_be_nat_bound(s: Seq<u8>)
    ensures
        be_nat(s) < byte_range(s.len()),
    decreases s.len(),
{
    if s.len() > 0 {
        lemma_be_nat_bound(s.drop_last());
    }
}

/// Spelling out a number that fits, and reading it back, gives the number.
pub proof fn lemma_be_round_trip(n: nat, len: nat)
    requires
        n < byte_range(len),
    ensures
        be_nat(be_bytes(n, len)) == n,
    decreases len,
{
    if len > 0 {
        lemma_be_round_trip(n / 256, (len - 1) as nat);
        let s = be_bytes(n, len);
        assert(s.drop_last() =~= be_bytes(n / 256, (len - 1) as nat));
        assert(s.last() as nat == n % 256);
    }
}

/// Distinct numbers that fit in `len` bytes have distinct spellings.
pub proof fn lemma_be_bytes_injective(a: nat, b: nat, len: nat)
    requires
        a < byte_range(len),
        b < byte_range(len),
        be_bytes(a, len) == be_bytes(b, len),
    ensures
        a == b,
{
    lemma_be_round_trip(a, len);
    lemma_be_round_trip(b, len);
}

pub proof fn lemma_byte_ranges()
    ensures
        byte_range(4) == 0x1_0000_0000,
        byte_range(8) == 0x1_0000_0000_0000_0000,
        byte_range(16) == 0x1_0000_0000_0000_0000_0000_0000_0000_0000,
{
    reveal_with_fuel(byte_range, 17);
}

/// The first byte of a little-endian number is its lowest.
pub proof fn lemma_le_nat_first(first: u8, rest: Seq<u8>)
    ensures
        le_nat(seq![first] + rest) == first as nat + 256 * le_nat(rest),
{
    let s = seq![first] + rest;
    assert(s.reverse() =~= rest.reverse().push(first));
    assert(s.reverse().drop_last() =~= rest.reverse());
}

/// Spelling out a number that fits in little-endian order, and reading it back, gives the number.
pub proof fn lemma_le_round_trip(n: nat, len: nat)
    requires
        n < byte_range(len),
    ensures
        le_nat(le_bytes(n, len)) == n,
    decreases len,
{
    if len > 0 {
        lemma_le_round_trip(n / 256, (len - 1) as nat);
        lemma_le_nat_first((n % 256) as u8, le_bytes(n / 256, (len - 1) as nat));
    } else {
        assert(le_bytes(n, len).reverse() =~= Seq::<u8>::empty());
    }
}

/// Reading a byte string as a number and spelling that out again gives the string.
pub proof fn lemma_be_nat_round_trip(s: Seq<u8>)
    ensures
        be_bytes(be_nat(s), s.len()) == s,
    decreases s.len(),
{
    if s.len() > 0 {
        lemma_be_nat_round_trip(s.drop_last());
        assert(be_nat(s) / 256 == be_nat(s.drop_last()));
        assert(be_nat(s) % 256 == s.last() as nat);
        assert(s =~= s.drop_last().push(s.last()));
    } else {
        assert(s =~= Seq::empty());
    }
}

/// The order is total: of two different strings of one length exactly one is less.
pub proof fn lemma_lex_total(a: Seq<u8>, b: Seq<u8>)
    requires
        a.len() == b.len(),
    ensures
        lex_less(a, b) ==> !lex_less(b, a),
        a != b ==> lex_less(a, b) || lex_less(b, a),
        a == b ==> !lex_less(a, b),
    decreases a.len(),
{
    if a.len() == 0 {
        assert(a =~= b);
    } else {
        lemma_lex_total(a.drop_first(), b.drop_first());
        if a[0] == b[0] && a.drop_first() == b.drop_first() {
            assert(a =~= seq![a[0]] + a.drop_first());
            assert(b =~= seq![b[0]] + b.drop_first());
        }
    }
}

/// `a` is less than `b` where they share a prefix of length `i` and then differ.
pub proof fn lemma_lex_at(a: Seq<u8>, b: Seq<u8>, i: int)
    requires
        0 <= i < a.len(),
        i < b.len(),
        a.take(i) == b.take(i),
        a[i] != b[i],
    ensures
        lex_less(a, b) == (a[i] < b[i]),
    decreases i,
{
    if i > 0 {
        assert(a[0] == a.take(i)[0]);
        assert(b[0] == b.take(i)[0]);
        assert(a[0] == b[0]);
        assert(a.drop_first().take(i - 1) =~= a.take(i).drop_first());
        assert(b.drop_first().take(i - 1) =~= b.take(i).drop_first());
        lemma_lex_at(a.drop_first(), b.drop_first(), i - 1);
    }
}

/// Appends the bytes of `s` to `v`.
pub fn append(v: &mut Vec<u8>, s: &[u8])
    ensures
        final(v)@ == old(v)@ + s@,
{
    let mut i: usize = 0;
    while i < s.len()
        invariant
            i <= s.len(),
            v@ == old(v)@ + s@.take(i as int),
        decreases s.len() - i,
    {
        v.push(s[i]);
        i += 1;
        assert(s@.take(i as int) =~= s@.take(i - 1).push(s@[i - 1]));
    }
    assert(s@.take(i as int) =~= s@);
}

/// A fresh copy of `s`.
pub fn copy_bytes(s: &[u8]) -> (r: Vec<u8>)
    ensures
        r@ == s@,
{
    let mut r: Vec<u8> = Vec::new();
    append(&mut r, s);
    assert(r@ =~= s@);
    r
}

/// `a` followed by `b`.
pub fn concat(a: &[u8], b: &[u8]) -> (r: Vec<u8>)
    ensures
        r@ == a@ + b@,
{
    let mut r: Vec<u8> = copy_bytes(a);
    append(&mut r, b);
    r
}

/// Whether two byte strings are the same.
pub fn bytes_equal(a: &[u8], b: &[u8]) -> (r: bool)
    ensures
        r == (a@ == b@),
{
    if a.len() != b.len() {
        return false;
    }
    let mut i: usize = 0;
    while i < a.len()
        invariant
            i <= a.len(),
            a.len() == b.len(),
            forall|j: int| 0 <= j < i ==> a@[j] == b@[j],
        decreases a.len() - i,
    {
        if a[i] != b[i] {
            return false;
        }
        i += 1;
    }
    assert(a@ =~= b@);
    true
}

/// Whether `a` comes before `b`, for two strings of one length.
pub fn bytes_less(a: &[u8], b: &[u8]) -> (r: bool)
    requires
        a@.len() == b@.len(),
    ensures
        r == lex_less(a@, b@),
{
    let mut i: usize = 0;
    while i < a.len()
        invariant
            i <= a.len(),
            a@.len() == b@.len(),
            a@.take(i as int) == b@.take(i as int),
        decreases a.len() - i,
    {
        if a[i] != b[i] {
            proof {
                lemma_lex_at(a@, b@, i as int);
            }
            return a[i] < b[i];
        }
        i += 1;
        assert(a@.take(i as int) =~= a@.take(i - 1).push(a@[i - 1]));
        assert(b@.take(i as int) =~= b@.take(i - 1).push(b@[i - 1]));
    }
    assert(a@.take(i as int) =~= a@);
    assert(b@.take(i as int) =~= b@);
    proof {
        lemma_lex_total(a@, b@);
    }
    false
}

/// The `len` low-order bytes of `x`, most significant first.
pub fn to_be(x: u128, len: usize) -> (r: Vec<u8>)
    ensures
        r@ == be_bytes(x as nat, len as nat),
    decreases len,
{
    if len == 0 {
        Vec::new()
    } else {
        let mut r: Vec<u8> = to_be(x / 256, len - 1);
        r.push((x % 256) as u8);
        r
    }
}

/// The number that at most eight bytes spell in big-endian order.
pub fn from_be(s: &[u8]) -> (r: u64)
    requires
        s@.len() <= 8,
    ensures
        r as nat == be_nat(s@),
{
    let mut r: u64 = 0;
    let mut i: usize = 0;
    proof {
        reveal_with_fuel(byte_range, 9);
    }
    assert(s@.take(0) =~= Seq::empty());
    while i < s.len()
        invariant
            i <= s.len(),
            s@.len() <= 8,
            r as nat == be_nat(s@.take(i as int)),
        decreases s.len() - i,
    {
        proof {
            let t = s@.take(i as int);
            lemma_be_nat_bound(t);
            lemma_byte_range_mono(i as nat, 7);
            lemma_byte_ranges();
            reveal_with_fuel(byte_range, 2);
            assert(s@.take(i + 1).drop_last() =~= t);
        }
        r = r * 256 + s[i] as u64;
        i += 1;
    }
    assert(s@.take(i as int) =~= s@);
    r
}

proof fn lemma_byte_range_mono(a: nat, b: nat)
    requires
        a <= b,
    ensures
        byte_range(a) <= byte_range(b),
    decreases b,
{
    if a < b {
        lemma_byte_range_mono(a, (b - 1) as nat);
    }
}

/// The number that at most eight bytes spell in little-endian order.
pub fn from_le(s: &[u8]) -> (r: u64)
    requires
        s@.len() <= 8,
    ensures
        r as nat == le_nat(s@),
{
    let mut rev: Vec<u8> = Vec::new();
    let mut i: usize = 0;
    while i < s.len()
        invariant
            i <= s.len(),
            rev@.len() == i,
            forall|j: int| 0 <= j < i ==> rev@[j] == s@[s@.len() - 1 - j],
        decreases s.len() - i,
    {
        rev.push(s[s.len() - 1 - i]);
        i += 1;
    }
    assert(rev@ =~= s@.reverse());
    from_be(rev.as_slice())
}

/// The four bytes of `x`, least significant first.
pub fn to_le32(x: u32) -> (r: [u8; 4])
    ensures
        r@ == le_bytes(x as nat, 4),
{
    let r: [u8; 4] = [
        (x % 256) as u8,
        (x / 256 % 256) as u8,
        (x / 65536 % 256) as u8,
        (x / 16777216 % 256) as u8,
    ];
    proof {
        reveal_with_fuel(le_bytes, 5);
        let n = x as nat;
        assert(n / 256 / 256 == n / 65536);
        assert(n / 65536 / 256 == n / 16777216);
        assert(r@ =~= le_bytes(n, 4));
    }
    r
}

/// `s` as an array.
pub fn array32(s: &[u8]) -> (r: [u8; 32])
    requires
        s@.len() == 32,
    ensures
        r@ == s@,
{
    let mut r: [u8; 32] = [0u8; 32];
    let mut i: usize = 0;
    while i < 32
        invariant
            i <= 32,
            s@.len() == 32,
            forall|j: int| 0 <= j < i ==> r@[j] == s@[j],
        decreases 32 - i,
    {
        r[i] = s[i];
        i += 1;
    }
    assert(r@ =~= s@);
    r
}

} // verus!
