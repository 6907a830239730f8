//! Little-endian integers on a byte sequence.
//!
//! The specification side is written with division and remainder so that
//! concrete byte strings can be checked by plain arithmetic.

use vstd::prelude::*;

verus! {

/// Why a byte buffer is not a message, or a message has no wire image.
#[derive(Clone, Copy, Debug, PartialEq, Eq, Structural)]
pub enum FormatError {
    /// The buffer ends before the message does.
    Truncated,
    /// The leading word names no message variant.
    UnknownMagic { magic: u32 },
    /// The leading word of a health block names no health variant.
    UnknownHealthMagic { magic: u32 },
    /// A count field differs from the number of elements it stands before.
    LengthMismatch,
}

/// The four bytes of `x`, least significant first.
pub open spec fn u32_le(x: u32) -> Seq<u8> {
    seq![
        (x % 256) as u8,
        (x / 256 % 256) as u8,
        (x / 65536 % 256) as u8,
        (x / 16777216) as u8,
    ]
}

/// The eight bytes of `x`, least significant first.
pub open spec fn u64_le(x: u64) -> Seq<u8> {
    u32_le(lo32(x)) + u32_le(hi32(x))
}

/// The unsigned 32-bit pattern of a signed value in two's complement.
pub open spec fn i32_bits(x: i32) -> u32 {
    if x >= 0 {
        x as u32
    } else {
        (x + 0x1_0000_0000) as u32
    }
}

/// The signed value of a 32-bit two's complement pattern.
pub open spec fn i32_of_bits(u: u32) -> i32 {
    if u < 0x8000_0000 {
        u as i32
    } else {
        (u - 0x1_0000_0000) as i32
    }
}

/// The 16-bit value whose little-endian bytes start at index `i` of `s`.
pub open spec fn u16_at(s: Seq<u8>, i: int) -> u16 {
    (s[i] + 256 * s[i + 1]) as u16
}

/// The 32-bit value whose little-endian bytes start at index `i` of `s`.
pub open spec fn u32_at(s: Seq<u8>, i: int) -> u32 {
    (s[i] + 256 * s[i + 1] + 65536 * s[i + 2] + 16777216 * s[i + 3]) as u32
}

/// The 64-bit value whose little-endian bytes start at index `i` of `s`.
pub open spec fn u64_at(s: Seq<u8>, i: int) -> u64 {
    (u32_at(s, i) + 0x1_0000_0000 * u32_at(s, i + 4)) as u64
}

/// A run of `n` zero bytes.
pub open spec fn zeros(n: nat) -> Seq<u8> {
    Seq::new(n, |i: int| 0u8)
}

/// The low 32 bits of `x`.
pub open spec fn lo32(x: u64) -> u32 {
    (x % 0x1_0000_0000) as u32
}

/// The high 32 bits of `x`.
pub open spec fn hi32(x: u64) -> u32 {
    (x / 0x1_0000_0000) as u32
}

/// The 64-bit value with the given low and high halves.
pub open spec fn join64(lo: u32, hi: u32) -> u64 {
    (lo + 0x1_0000_0000 * hi) as u64
}

/// The wire image of a run of 32-bit words, each little-endian.
pub open spec fn words_le(ws: Seq<u32>) -> Seq<u8> {
    Seq::new(4 * ws.len(), |k: int| u32_le(ws[k / 4])[k % 4])
}

/// The 32-bit word in slot `i` of `s`, counting slots of four bytes from the start.
pub open spec fn word_at(s: Seq<u8>, i: int) -> u32 {
    u32_at(s, 4 * i)
}

/// The `n` words read from consecutive slots starting at slot `from`.
pub open spec fn words_at(s: Seq<u8>, from: int, n: nat) -> Seq<u32> {
    Seq::new(n, |i: int| word_at(s, from + i))
}

/// Whether `s` holds the bytes of `p` from index `at` on.
pub open spec fn holds_at(s: Seq<u8>, at: int, p: Seq<u8>) -> bool {
    &&& 0 <= at
    &&& at + p.len() <= s.len()
    &&& forall|j: int| 0 <= j < p.len() ==> #[trigger] s[at + j] == p[j]
}

/// A stretch that holds the bytes of `x` reads back as `x`.
pub proof fn lemma_u32_read_back(s: Seq<u8>, at: int, x: u32)
    requires
        holds_at(s, at, u32_le(x)),
    ensures
        u32_at(s, at) == x,
{
    assert(s[at + 0] == u32_le(x)[0]);
    assert(s[at + 1] == u32_le(x)[1]);
    assert(s[at + 2] == u32_le(x)[2]);
    assert(s[at + 3] == u32_le(x)[3]);
}

/// A stretch that holds the bytes of `x` reads back as `x`.
pub proof fn lemma_u64_read_back(s: Seq<u8>, at: int, x: u64)
    requires
        holds_at(s, at, u64_le(x)),
    ensures
        u64_at(s, at) == x,
{
    let lo = lo32(x);
    let hi = hi32(x);
    assert forall|j: int| 0 <= j < 4 implies #[trigger] s[at + j] == u32_le(lo)[j] by {
        assert(s[at + j] == u64_le(x)[j]);
    }
    assert forall|j: int| 0 <= j < 4 implies #[trigger] s[at + 4 + j] == u32_le(hi)[j] by {
        assert(s[at + (4 + j)] == u64_le(x)[4 + j]);
    }
    lemma_u32_read_back(s, at, lo);
    lemma_u32_read_back(s, at + 4, hi);
}

/// The two's complement pattern of a signed value names that value.
pub proof fn lemma_i32_round_trip(x: i32)
    ensures
        i32_of_bits(i32_bits(x)) == x,
{
}

/// Splitting a 64-bit value in halves and joining them gives it again.
pub proof fn lemma_join64(x: u64)
    ensures
        join64(lo32(x), hi32(x)) == x,
{
}

/// Where three pieces are written one after the other, each can be found at
/// the sum of the lengths before it, whatever follows.
pub proof fn lemma_pieces(a: Seq<u8>, b: Seq<u8>, c: Seq<u8>, rest: Seq<u8>)
    ensures
        holds_at(a + b + c + rest, 0, a),
        holds_at(a + b + c + rest, a.len() as int, b),
        holds_at(a + b + c + rest, (a.len() + b.len()) as int, c),
        (a + b + c + rest).len() == a.len() + b.len() + c.len() + rest.len(),
{
}

/// A stretch that holds `p` is `p` when cut out.
pub proof fn lemma_holds_subrange(s: Seq<u8>, at: int, p: Seq<u8>)
    requires
        holds_at(s, at, p),
    ensures
        s.subrange(at, at + p.len()) == p,
{
    assert forall|j: int| 0 <= j < p.len() implies s.subrange(at, at + p.len())[j] == p[j] by {
        assert(s[at + j] == p[j]);
    }
    assert(s.subrange(at, at + p.len()) =~= p);
}

/// Slot `i` of a written run of words reads back as the `i`-th word.
pub proof fn lemma_word_at(s: Seq<u8>, ws: Seq<u32>, i: int)
    requires
        holds_at(s, 0, words_le(ws)),
        0 <= i < ws.len(),
    ensures
        word_at(s, i) == ws[i],
{
    let w = words_le(ws);
    assert forall|j: int| 0 <= j < 4 implies s[4 * i + j] == u32_le(ws[i])[j] by {
        let k = 4 * i + j;
        assert(k / 4 == i && k % 4 == j);
        assert(s[0 + k] == w[k]);
    }
    assert(s[4 * i] == u32_le(ws[i])[0]);
    assert(s[4 * i + 1] == u32_le(ws[i])[1]);
    assert(s[4 * i + 2] == u32_le(ws[i])[2]);
    assert(s[4 * i + 3] == u32_le(ws[i])[3]);
}

/// The slots of a written run of words read back as the run.
pub proof fn lemma_words_at(s: Seq<u8>, ws: Seq<u32>)
    requires
        holds_at(s, 0, words_le(ws)),
    ensures
        words_at(s, 0, ws.len()) == ws,
        forall|i: int| 0 <= i < ws.len() ==> #[trigger] word_at(s, i) == ws[i],
{
    assert forall|i: int| 0 <= i < ws.len() implies #[trigger] word_at(s, i) == ws[i] by {
        lemma_word_at(s, ws, i);
    }
    assert(words_at(s, 0, ws.len()) =~= ws);
}

/// Writing one more word appends its four bytes to the run.
pub proof fn lemma_words_push(ws: Seq<u32>, x: u32)
    ensures
        words_le(ws.push(x)) == words_le(ws) + u32_le(x),
{
    let l = words_le(ws.push(x));
    let r = words_le(ws) + u32_le(x);
    assert(l.len() == r.len());
    assert forall|k: int| 0 <= k < l.len() implies l[k] == r[k] by {
        if k < 4 * ws.len() {
            assert(k / 4 < ws.len());
        } else {
            let j = k - 4 * ws.len();
            assert(k / 4 == ws.len() && k % 4 == j);
        }
    }
    assert(l =~= r);
}

/// Writing two runs of words one after the other writes their concatenation.
pub proof fn lemma_words_concat(a: Seq<u32>, b: Seq<u32>)
    ensures
        words_le(a + b) == words_le(a) + words_le(b),
{
    let l = words_le(a + b);
    let r = words_le(a) + words_le(b);
    assert(l.len() == r.len());
    assert forall|k: int| 0 <= k < l.len() implies l[k] == r[k] by {
        if k < 4 * a.len() {
            assert(k / 4 < a.len());
        } else {
            let j = k - 4 * a.len();
            assert(k / 4 == a.len() + j / 4 && k % 4 == j % 4);
        }
    }
    assert(l =~= r);
}

/// Appends the little-endian bytes of `x`.
pub fn put_u32(out: &mut Vec<u8>, x: u32)
    ensures
        final(out)@ == old(out)@ + u32_le(x),
{
    out.push((x % 256) as u8);
    out.push((x / 256 % 256) as u8);
    out.push((x / 65536 % 256) as u8);
    out.push((x / 16777216) as u8);
    assert(out@ =~= old(out)@ + u32_le(x));
}

/// Appends the little-endian bytes of `x`.
pub fn put_u64(out: &mut Vec<u8>, x: u64)
    ensures
        final(out)@ == old(out)@ + u64_le(x),
{
    let (lo, hi) = split64(x);
    put_u32(out, lo);
    put_u32(out, hi);
    assert(out@ =~= old(out)@ + u64_le(x));
}

/// Appends the little-endian bytes of each word of `ws` in turn.
pub fn put_words(out: &mut Vec<u8>, ws: &[u32])
    ensures
        final(out)@ == old(out)@ + words_le(ws@),
{
    let n: usize = ws.len();
    let mut i: usize = 0;
    assert(words_le(ws@.subrange(0, 0)) =~= Seq::<u8>::empty());
    assert(out@ =~= old(out)@ + words_le(ws@.subrange(0, 0)));
    while i < n
        invariant
            i <= n,
            n == ws@.len(),
            out@ == old(out)@ + words_le(ws@.subrange(0, i as int)),
        decreases n - i,
    {
        put_u32(out, ws[i]);
        proof {
            lemma_words_push(ws@.subrange(0, i as int), ws@[i as int]);
            assert(ws@.subrange(0, i as int).push(ws@[i as int]) =~= ws@.subrange(0, i + 1));
            assert(out@ =~= old(out)@ + words_le(ws@.subrange(0, i + 1)));
        }
        i = i + 1;
    }
    assert(ws@.subrange(0, n as int) =~= ws@);
}

/// Appends the bytes of `bytes` unchanged.
pub fn put_bytes(out: &mut Vec<u8>, bytes: &[u8])
    ensures
        final(out)@ == old(out)@ + bytes@,
{
    let n: usize = bytes.len();
    let mut i: usize = 0;
    assert(out@ =~= old(out)@ + bytes@.subrange(0, 0));
    while i < n
        invariant
            i <= n,
            n == bytes@.len(),
            out@ == old(out)@ + bytes@.subrange(0, i as int),
        decreases n - i,
    {
        out.push(bytes[i]);
        i = i + 1;
        assert(out@ =~= old(out)@ + bytes@.subrange(0, i as int));
    }
    assert(bytes@.subrange(0, n as int) =~= bytes@);
}

/// Reads the 32-bit word in slot `i`.
pub fn get_word(b: &[u8], i: usize) -> (r: u32)
    requires
        4 * i + 4 <= b@.len(),
    ensures
        r == word_at(b@, i as int),
{
    let n: usize = b.len();
    assert(4 * i + 4 <= n);
    get_u32(b, 4 * i)
}

/// Reads `n` words from consecutive slots starting at `from`.
pub fn get_words(b: &[u8], from: usize, n: usize) -> (r: Vec<u32>)
    requires
        4 * (from + n) <= b@.len(),
    ensures
        r@ == words_at(b@, from as int, n as nat),
{
    let len: usize = b.len();
    let mut r: Vec<u32> = Vec::new();
    let mut i: usize = 0;
    while i < n
        invariant
            i <= n,
            len == b@.len(),
            4 * (from + n) <= len,
            r@ == words_at(b@, from as int, i as nat),
        decreases n - i,
    {
        let w: u32 = get_word(b, from + i);
        r.push(w);
        i = i + 1;
        assert(r@ =~= words_at(b@, from as int, i as nat));
    }
    r
}

/// Copies the bytes from index `from` up to index `to` into a new vector.
pub fn get_bytes(b: &[u8], from: usize, to: usize) -> (r: Vec<u8>)
    requires
        from <= to <= b@.len(),
    ensures
        r@ == b@.subrange(from as int, to as int),
{
    let mut r: Vec<u8> = Vec::new();
    let mut i: usize = from;
    while i < to
        invariant
            from <= i <= to,
            to <= b@.len(),
            r@ == b@.subrange(from as int, i as int),
        decreases to - i,
    {
        r.push(b[i]);
        i = i + 1;
        assert(r@ =~= b@.subrange(from as int, i as int));
    }
    r
}

/// The unsigned 32-bit pattern of a signed value in two's complement.
pub fn bits_of_i32(x: i32) -> (u: u32)
    ensures
        u == i32_bits(x),
{
    if x >= 0 {
        x as u32
    } else {
        (x as i64 + 0x1_0000_0000) as u32
    }
}

/// The signed value of a 32-bit two's complement pattern.
pub fn i32_from_bits(u: u32) -> (x: i32)
    ensures
        x == i32_of_bits(u),
{
    if u < 0x8000_0000 {
        u as i32
    } else {
        (u as i64 - 0x1_0000_0000) as i32
    }
}

/// The low and the high 32 bits of `x`.
pub fn split64(x: u64) -> (r: (u32, u32))
    ensures
        r.0 == lo32(x),
        r.1 == hi32(x),
{
    ((x % 0x1_0000_0000) as u32, (x / 0x1_0000_0000) as u32)
}

/// Reads the little-endian 16-bit value at `i`.
pub fn get_u16(b: &[u8], i: usize) -> (r: u16)
    requires
        i + 2 <= b@.len(),
    ensures
        r == u16_at(b@, i as int),
{
    let b0: u16 = b[i] as u16;
    let b1: u16 = b[i + 1] as u16;
    b0 + 256 * b1
}

/// Reads the little-endian 32-bit value at `i`.
pub fn get_u32(b: &[u8], i: usize) -> (r: u32)
    requires
        i + 4 <= b@.len(),
    ensures
        r == u32_at(b@, i as int),
{
    let b0: u32 = b[i] as u32;
    let b1: u32 = b[i + 1] as u32;
    let b2: u32 = b[i + 2] as u32;
    let b3: u32 = b[i + 3] as u32;
    b0 + 256 * b1 + 65536 * b2 + 16777216 * b3
}

/// Reads the little-endian 64-bit value at `i`.
pub fn get_u64(b: &[u8], i: usize) -> (r: u64)
    requires
        i + 8 <= b@.len(),
    ensures
        r == u64_at(b@, i as int),
{
    let n: usize = b.len();
    assert(i + 8 <= n);
    let lo: u64 = get_u32(b, i) as u64;
    let hi: u64 = get_u32(b, i + 4) as u64;
    lo + 0x1_0000_0000 * hi
}

} // verus!
