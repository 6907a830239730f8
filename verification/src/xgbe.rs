//! Endpoint configuration of one 10GbE port and its wire image.
//!
//! On the wire a configuration takes 32 bytes: each MAC address is followed
//! by two padding bytes, and so is each port number. Padding is written as
//! zero and ignored when read.

use vstd::prelude::*;
use crate::wire::{get_u16, holds_at, u16_at};

verus! {

/// Number of bytes one port configuration takes on the wire.
pub const XGBE_CFG_BYTES: usize = 32;

/// Source and destination endpoint of one streaming port.
#[derive(Clone, Copy, Debug, PartialEq, Eq)]
pub struct XGbeCfg {
    pub dst_mac: [u8; 6],
    pub src_mac: [u8; 6],
    pub dst_ip: [u8; 4],
    pub src_ip: [u8; 4],
    pub dst_port: u16,
    pub src_port: u16,
}

/// Byte `k` of the wire image of `c`, for `k` below 32.
///
/// | bytes  | content                         |
/// |--------|---------------------------------|
/// | 0..6   | destination MAC                 |
/// | 6..8   | padding                         |
/// | 8..14  | source MAC                      |
/// | 14..16 | padding                         |
/// | 16..20 | destination IPv4 address        |
/// | 20..24 | source IPv4 address             |
/// | 24..26 | destination port, little-endian |
/// | 26..28 | padding                         |
/// | 28..30 | source port, little-endian      |
/// | 30..32 | padding                         |
pub open spec fn xgbe_byte(c: XGbeCfg, k: int) -> u8 {
    if k < 6 {
        c.dst_mac[k]
    } else if k < 8 {
        0u8
    } else if k < 14 {
        c.src_mac[k - 8]
    } else if k < 16 {
        0u8
    } else if k < 20 {
        c.dst_ip[k - 16]
    } else if k < 24 {
        c.src_ip[k - 20]
    } else if k == 24 {
        (c.dst_port % 256) as u8
    } else if k == 25 {
        (c.dst_port / 256) as u8
    } else if k == 28 {
        (c.src_port % 256) as u8
    } else if k == 29 {
        (c.src_port / 256) as u8
    } else {
        0u8
    }
}

/// The 32 bytes that stand for `c` on the wire.
pub open spec fn xgbe_le(c: XGbeCfg) -> Seq<u8> {
    Seq::new(32, |k: int| xgbe_byte(c, k))
}

/// The configuration whose wire image starts at index `at` of `s`.
#[verifier::opaque]
pub open spec fn xgbe_at(s: Seq<u8>, at: int) -> XGbeCfg {
    XGbeCfg {
        dst_mac: [s[at], s[at + 1], s[at + 2], s[at + 3], s[at + 4], s[at + 5]],
        src_mac: [s[at + 8], s[at + 9], s[at + 10], s[at + 11], s[at + 12], s[at + 13]],
        dst_ip: [s[at + 16], s[at + 17], s[at + 18], s[at + 19]],
        src_ip: [s[at + 20], s[at + 21], s[at + 22], s[at + 23]],
        dst_port: u16_at(s, at + 24),
        src_port: u16_at(s, at + 28),
    }
}

/// The wire image of a run of configurations, one after the other.
pub open spec fn cfgs_le(cs: Seq<XGbeCfg>) -> Seq<u8> {
    Seq::new(32 * cs.len(), |k: int| xgbe_byte(cs[k / 32], k % 32))
}

/// The `n` configurations read from consecutive 32-byte slots starting at `at`.
pub open spec fn cfgs_at(s: Seq<u8>, at: int, n: nat) -> Seq<XGbeCfg> {
    Seq::new(n, |i: int| xgbe_at(s, at + 32 * i))
}

/// Two configurations with the same field contents are the same value.
pub proof fn lemma_xgbe_ext(a: XGbeCfg, b: XGbeCfg)
    requires
        a.dst_mac@ == b.dst_mac@,
        a.src_mac@ == b.src_mac@,
        a.dst_ip@ == b.dst_ip@,
        a.src_ip@ == b.src_ip@,
        a.dst_port == b.dst_port,
        a.src_port == b.src_port,
    ensures
        a == b,
{
    assert(a.dst_mac =~= b.dst_mac);
    assert(a.src_mac =~= b.src_mac);
    assert(a.dst_ip =~= b.dst_ip);
    assert(a.src_ip =~= b.src_ip);
}

/// A slot that holds the 32 image bytes of `c` reads back as `c`.
pub proof fn lemma_xgbe_at_image(s: Seq<u8>, at: int, c: XGbeCfg)
    requires
        forall|j: int| 0 <= j < 32 ==> #[trigger] s[at + j] == xgbe_byte(c, j),
    ensures
        xgbe_at(s, at) == c,
{
    reveal(xgbe_at);
    let r = xgbe_at(s, at);
    assert forall|j: int| 0 <= j < 6 implies r.dst_mac@[j] == c.dst_mac@[j] by {
        assert(s[at + j] == xgbe_byte(c, j));
    }
    assert(r.dst_mac@ =~= c.dst_mac@);
    assert forall|j: int| 0 <= j < 6 implies r.src_mac@[j] == c.src_mac@[j] by {
        assert(s[at + (j + 8)] == xgbe_byte(c, j + 8));
    }
    assert(r.src_mac@ =~= c.src_mac@);
    assert forall|j: int| 0 <= j < 4 implies r.dst_ip@[j] == c.dst_ip@[j] by {
        assert(s[at + (j + 16)] == xgbe_byte(c, j + 16));
    }
    assert(r.dst_ip@ =~= c.dst_ip@);
    assert forall|j: int| 0 <= j < 4 implies r.src_ip@[j] == c.src_ip@[j] by {
        assert(s[at + (j + 20)] == xgbe_byte(c, j + 20));
    }
    assert(r.src_ip@ =~= c.src_ip@);
    assert(s[at + 24] == xgbe_byte(c, 24));
    assert(s[at + 25] == xgbe_byte(c, 25));
    assert(s[at + 28] == xgbe_byte(c, 28));
    assert(s[at + 29] == xgbe_byte(c, 29));
    lemma_xgbe_ext(r, c);
}

/// Reading a written configuration gives it again, whatever follows it.
pub proof fn lemma_xgbe_round_trip(c: XGbeCfg, rest: Seq<u8>)
    ensures
        xgbe_le(c).len() == XGBE_CFG_BYTES,
        xgbe_at(xgbe_le(c) + rest, 0) == c,
{
    let s = xgbe_le(c) + rest;
    assert forall|j: int| 0 <= j < 32 implies #[trigger] s[0 + j] == xgbe_byte(c, j) by {
        assert(s[j] == xgbe_le(c)[j]);
    }
    lemma_xgbe_at_image(s, 0, c);
}

/// A stretch that holds the image of a run reads back, slot by slot, as the run.
pub proof fn lemma_cfgs_at(s: Seq<u8>, at: int, cs: Seq<XGbeCfg>)
    requires
        holds_at(s, at, cfgs_le(cs)),
    ensures
        cfgs_at(s, at, cs.len()) == cs,
        forall|i: int| 0 <= i < cs.len() ==> #[trigger] xgbe_at(s, at + 32 * i) == cs[i],
{
    assert forall|i: int| 0 <= i < cs.len() implies #[trigger] xgbe_at(s, at + 32 * i)
        == cs[i] by {
        let c = cs[i];
        let from = at + 32 * i;
        assert forall|j: int| 0 <= j < 32 implies #[trigger] s[from + j] == xgbe_byte(c, j) by {
            let k = 32 * i + j;
            assert(k / 32 == i && k % 32 == j);
            assert(s[at + k] == cfgs_le(cs)[k]);
        }
        lemma_xgbe_at_image(s, from, c);
    }
    assert(cfgs_at(s, at, cs.len()) =~= cs);
}

/// A run of one configuration has the image of that configuration.
pub proof fn lemma_cfgs_single(c: XGbeCfg)
    ensures
        cfgs_le(seq![c]) == xgbe_le(c),
{
    assert(cfgs_le(seq![c]) =~= xgbe_le(c));
}

/// Writing one more configuration appends its image to the run.
pub proof fn lemma_cfgs_push(cs: Seq<XGbeCfg>, c: XGbeCfg)
    ensures
        cfgs_le(cs.push(c)) == cfgs_le(cs) + xgbe_le(c),
{
    let l = cfgs_le(cs.push(c));
    let r = cfgs_le(cs) + xgbe_le(c);
    assert(l.len() == r.len());
    assert forall|k: int| 0 <= k < l.len() implies l[k] == r[k] by {
        if k < 32 * cs.len() {
            assert(k / 32 < cs.len());
        } else {
            let j = k - 32 * cs.len();
            assert(k / 32 == cs.len() && k % 32 == j);
        }
    }
    assert(l =~= r);
}

/// Byte `k` of the wire image of `c`.
fn image_byte(c: &XGbeCfg, k: usize) -> (b: u8)
    requires
        k < 32,
    ensures
        b == xgbe_byte(*c, k as int),
{
    if k < 6 {
        c.dst_mac[k]
    } else if k < 8 {
        0u8
    } else if k < 14 {
        c.src_mac[k - 8]
    } else if k < 16 {
        0u8
    } else if k < 20 {
        c.dst_ip[k - 16]
    } else if k < 24 {
        c.src_ip[k - 20]
    } else if k == 24 {
        (c.dst_port % 256) as u8
    } else if k == 25 {
        (c.dst_port / 256) as u8
    } else if k == 28 {
        (c.src_port % 256) as u8
    } else if k == 29 {
        (c.src_port / 256) as u8
    } else {
        0u8
    }
}

/// Appends the 32-byte wire image of `c`.
pub fn put_xgbe(out: &mut Vec<u8>, c: &XGbeCfg)
    ensures
        final(out)@ == old(out)@ + xgbe_le(*c),
{
    let mut k: usize = 0;
    while k < 32
        invariant
            k <= 32,
            out@ == old(out)@ + xgbe_le(*c).subrange(0, k as int),
        decreases 32 - k,
    {
        let b: u8 = image_byte(c, k);
        out.push(b);
        k = k + 1;
        assert(out@ =~= old(out)@ + xgbe_le(*c).subrange(0, k as int));
    }
    assert(xgbe_le(*c).subrange(0, 32) =~= xgbe_le(*c));
}

/// Appends the wire images of the configurations of `cs` in turn.
pub fn put_xgbe_run(out: &mut Vec<u8>, cs: &[XGbeCfg])
    ensures
        final(out)@ == old(out)@ + cfgs_le(cs@),
{
    let n: usize = cs.len();
    let mut i: usize = 0;
    assert(out@ =~= old(out)@ + cfgs_le(cs@.subrange(0, 0)));
    while i < n
        invariant
            i <= n,
            n == cs@.len(),
            out@ == old(out)@ + cfgs_le(cs@.subrange(0, i as int)),
        decreases n - i,
    {
        put_xgbe(out, &cs[i]);
        proof {
            lemma_cfgs_push(cs@.subrange(0, i as int), cs@[i as int]);
            assert(cs@.subrange(0, i as int).push(cs@[i as int]) =~= cs@.subrange(0, i + 1));
            assert(out@ =~= old(out)@ + cfgs_le(cs@.subrange(0, i + 1)));
        }
        i = i + 1;
    }
    assert(cs@.subrange(0, n as int) =~= cs@);
}

/// Reads the configuration whose wire image starts at `at`.
pub fn get_xgbe(b: &[u8], at: usize) -> (c: XGbeCfg)
    requires
        at + 32 <= b@.len(),
    ensures
        c == xgbe_at(b@, at as int),
{
    let n: usize = b.len();
    assert(at + 32 <= n);
    let c = XGbeCfg {
        dst_mac: [b[at], b[at + 1], b[at + 2], b[at + 3], b[at + 4], b[at + 5]],
        src_mac: [b[at + 8], b[at + 9], b[at + 10], b[at + 11], b[at + 12], b[at + 13]],
        dst_ip: [b[at + 16], b[at + 17], b[at + 18], b[at + 19]],
        src_ip: [b[at + 20], b[at + 21], b[at + 22], b[at + 23]],
        dst_port: get_u16(b, at + 24),
        src_port: get_u16(b, at + 28),
    };
    proof {
        reveal(xgbe_at);
        let r = xgbe_at(b@, at as int);
        assert(c.dst_mac@ =~= r.dst_mac@);
        assert(c.src_mac@ =~= r.src_mac@);
        assert(c.dst_ip@ =~= r.dst_ip@);
        assert(c.src_ip@ =~= r.src_ip@);
        lemma_xgbe_ext(c, r);
    }
    c
}


/// Reads `n` configurations from consecutive 32-byte slots starting at `at`.
pub fn get_xgbe_run(b: &[u8], at: usize, n: usize) -> (r: Vec<XGbeCfg>)
    requires
        at + 32 * n <= b@.len(),
    ensures
        r@ == cfgs_at(b@, at as int, n as nat),
{
    let len: usize = b.len();
    let mut r: Vec<XGbeCfg> = Vec::new();
    let mut i: usize = 0;
    while i < n
        invariant
            i <= n,
            len == b@.len(),
            at + 32 * n <= len,
            r@ == cfgs_at(b@, at as int, i as nat),
        decreases n - i,
    {
        let c = get_xgbe(b, at + 32 * i);
        r.push(c);
        i = i + 1;
        assert(r@ =~= cfgs_at(b@, at as int, i as nat));
    }
    r
}

} // verus!
