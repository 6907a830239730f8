//! The telemetry frame: a 32-byte header and a block of 8192 sample bytes.
//!
//! | bytes      | field                        |
//! |------------|------------------------------|
//! | 0..4       | `head_magic`                 |
//! | 4..8       | `version`                    |
//! | 8..12      | `port_id`                    |
//! | 12..16     | `data_type`                  |
//! | 16..24     | `pkt_cnt`                    |
//! | 24..32     | `tail_magic`                 |
//! | 32..8224   | `data`                       |
//!
//! All integers are little-endian. The sample block holds 2048 pairs of
//! signed 16-bit values, in-phase first.

use vstd::prelude::*;
use vstd::layout::size_of;
use crate::wire::{
    get_u16, get_u32, get_u64, holds_at, lemma_holds_subrange, lemma_u32_read_back,
    lemma_u64_read_back, put_bytes, put_u32, put_u64, u16_at, u32_at, u32_le, u64_at, u64_le,
    zeros,
};

verus! {

/// Number of sample bytes in a frame.
pub const N_BYTE_PER_FRAME: usize = 8192;

/// Number of header bytes in front of the sample block.
pub const FRAME_HEADER_BYTES: usize = 32;

/// Number of bytes of a frame on the wire; a datagram of any other size is no frame.
pub const FRAME_BYTES: usize = 8224;

/// Number of in-phase/quadrature pairs of 16-bit samples in a frame.
pub const N_PT_PER_FRAME: usize = 2048;

/// Number of pairs of values of type `T` that fit in the sample block.
pub fn n_pt_per_frame<T>() -> (n: usize)
    requires
        size_of::<T>() > 0,
    ensures
        n == 8192int / (size_of::<T>() as int) / 2,
{
    N_BYTE_PER_FRAME / core::mem::size_of::<T>() / 2
}

/// One in-phase/quadrature sample.
#[derive(Clone, Copy, Debug, PartialEq, Eq, Structural)]
pub struct CComplex {
    pub re: i16,
    pub im: i16,
}

/// One telemetry frame.
#[derive(Clone, Debug, PartialEq, Eq)]
pub struct Payload {
    pub head_magic: u32,
    pub version: u32,
    pub port_id: u32,
    pub data_type: u32,
    pub pkt_cnt: u64,
    pub tail_magic: u64,
    pub data: [u8; 8192],
}

/// The signed value of a 16-bit two's complement pattern.
pub open spec fn i16_of_bits(u: u16) -> i16 {
    if u < 0x8000 {
        u as i16
    } else {
        (u - 0x1_0000) as i16
    }
}

impl Payload {
    /// Whether the sample block holds zeros only.
    pub open spec fn is_blank(&self) -> bool {
        self.data@ == zeros(8192)
    }

    /// Whether `self` and `other` agree in every header field but the counter.
    pub open spec fn same_origin(&self, other: &Payload) -> bool {
        &&& self.head_magic == other.head_magic
        &&& self.version == other.version
        &&& self.port_id == other.port_id
        &&& self.data_type == other.data_type
        &&& self.tail_magic == other.tail_magic
    }

    /// Whether `self` stands in for a lost frame with counter `pkt_cnt` in
    /// front of `received`: the header of `received` under the lost counter,
    /// and no samples.
    pub open spec fn is_filler_for(&self, received: &Payload, pkt_cnt: u64) -> bool {
        &&& self.same_origin(received)
        &&& self.pkt_cnt == pkt_cnt
        &&& self.is_blank()
    }

    /// The wire image of the frame.
    pub open spec fn bytes(&self) -> Seq<u8> {
        u32_le(self.head_magic) + u32_le(self.version) + u32_le(self.port_id) + u32_le(
            self.data_type,
        ) + u64_le(self.pkt_cnt) + u64_le(self.tail_magic) + self.data@
    }

    /// Whether `self` is the frame that the 8224 bytes of `s` stand for.
    pub open spec fn is_frame_of(&self, s: Seq<u8>) -> bool {
        &&& s.len() == FRAME_BYTES
        &&& self.head_magic == u32_at(s, 0)
        &&& self.version == u32_at(s, 4)
        &&& self.port_id == u32_at(s, 8)
        &&& self.data_type == u32_at(s, 12)
        &&& self.pkt_cnt == u64_at(s, 16)
        &&& self.tail_magic == u64_at(s, 24)
        &&& self.data@ == s.subrange(32, 8224)
    }

    /// Sample `i` of the frame, for `i` below 2048.
    pub open spec fn sample(&self, i: int) -> CComplex {
        CComplex {
            re: i16_of_bits(u16_at(self.data@, 4 * i)),
            im: i16_of_bits(u16_at(self.data@, 4 * i + 2)),
        }
    }

    /// The samples from index `from` up to index `to`.
    pub open spec fn samples(&self, from: int, to: int) -> Seq<CComplex> {
        Seq::new((to - from) as nat, |i: int| self.sample(from + i))
    }

    /// Copies every header field of `rhs`, the counter included, and leaves
    /// the sample block as it is.
    pub fn copy_header(&mut self, rhs: &Self)
        ensures
            final(self).same_origin(rhs),
            final(self).pkt_cnt == rhs.pkt_cnt,
            final(self).data == old(self).data,
    {
        self.head_magic = rhs.head_magic;
        self.version = rhs.version;
        self.port_id = rhs.port_id;
        self.data_type = rhs.data_type;
        self.pkt_cnt = rhs.pkt_cnt;
        self.tail_magic = rhs.tail_magic;
    }

    /// Makes the frame fit to be handed out again: the counter is zeroed and
    /// the sample block cleared. The other header fields stay.
    pub fn reset(&mut self)
        ensures
            final(self).same_origin(old(self)),
            final(self).pkt_cnt == 0,
            final(self).is_blank(),
    {
        self.pkt_cnt = 0;
        self.data = [0u8; 8192];
        assert(self.data@ =~= zeros(8192));
    }

    /// Turns a blank frame into the stand-in for the lost frame `pkt_cnt` in
    /// front of `received`.
    pub fn make_filler(&mut self, received: &Payload, pkt_cnt: u64)
        requires
            old(self).is_blank(),
        ensures
            final(self).is_filler_for(received, pkt_cnt),
    {
        self.copy_header(received);
        self.pkt_cnt = pkt_cnt;
    }

    /// Fills the frame from a datagram.
    ///
    /// Returns `false`, and leaves the frame as it is, exactly when the
    /// datagram does not have the size of a frame.
    pub fn load(&mut self, b: &[u8]) -> (ok: bool)
        ensures
            ok == (b@.len() == FRAME_BYTES),
            ok ==> final(self).is_frame_of(b@),
            !ok ==> *final(self) == *old(self),
    {
        if b.len() != FRAME_BYTES {
            return false;
        }
        self.head_magic = get_u32(b, 0);
        self.version = get_u32(b, 4);
        self.port_id = get_u32(b, 8);
        self.data_type = get_u32(b, 12);
        self.pkt_cnt = get_u64(b, 16);
        self.tail_magic = get_u64(b, 24);
        let mut i: usize = 0;
        while i < 8192
            invariant
                i <= 8192,
                b@.len() == 8224,
                forall|j: int| 0 <= j < i ==> self.data@[j] == b@[32 + j],
                self.head_magic == u32_at(b@, 0),
                self.version == u32_at(b@, 4),
                self.port_id == u32_at(b@, 8),
                self.data_type == u32_at(b@, 12),
                self.pkt_cnt == u64_at(b@, 16),
                self.tail_magic == u64_at(b@, 24),
            decreases 8192 - i,
        {
            self.data[i] = b[32 + i];
            i = i + 1;
        }
        assert(self.data@ =~= b@.subrange(32, 8224));
        true
    }

    /// The counter of the frame in a datagram, without reading the rest;
    /// `None` exactly when the datagram does not have the size of a frame.
    pub fn peek_counter(b: &[u8]) -> (r: Option<u64>)
        ensures
            r is Some == (b@.len() == FRAME_BYTES),
            r is Some ==> r->Some_0 == u64_at(b@, 16),
    {
        if b.len() != FRAME_BYTES {
            None
        } else {
            Some(get_u64(b, 16))
        }
    }

    /// Reads a frame from a datagram; `None` exactly when the datagram does
    /// not have the size of a frame.
    pub fn from_bytes(b: &[u8]) -> (r: Option<Payload>)
        ensures
            r is Some == (b@.len() == FRAME_BYTES),
            r is Some ==> r->Some_0.is_frame_of(b@),
    {
        let mut p = Payload::default();
        if p.load(b) {
            Some(p)
        } else {
            None
        }
    }

    /// Writes the frame as the 8224 bytes of a datagram.
    pub fn to_bytes(&self) -> (out: Vec<u8>)
        ensures
            out@ == self.bytes(),
            out@.len() == FRAME_BYTES,
    {
        let mut out: Vec<u8> = Vec::new();
        put_u32(&mut out, self.head_magic);
        put_u32(&mut out, self.version);
        put_u32(&mut out, self.port_id);
        put_u32(&mut out, self.data_type);
        put_u64(&mut out, self.pkt_cnt);
        put_u64(&mut out, self.tail_magic);
        put_bytes(&mut out, self.data.as_slice());
        out
    }

    /// Sample `i` of the frame.
    pub fn sample_at(&self, i: usize) -> (c: CComplex)
        requires
            i < N_PT_PER_FRAME,
        ensures
            c == self.sample(i as int),
    {
        let re: u16 = get_u16(self.data.as_slice(), 4 * i);
        let im: u16 = get_u16(self.data.as_slice(), 4 * i + 2);
        CComplex { re: signed16(re), im: signed16(im) }
    }

    /// Appends up to `want` samples to `out`, starting with sample `cursor`
    /// and stopping at the end of the frame. Returns how many were appended.
    pub fn append_samples(&self, cursor: usize, want: usize, out: &mut Vec<CComplex>) -> (n: usize)
        requires
            cursor <= N_PT_PER_FRAME,
        ensures
            n == if want <= N_PT_PER_FRAME - cursor {
                want
            } else {
                (N_PT_PER_FRAME - cursor) as usize
            },
            final(out)@ == old(out)@ + self.samples(cursor as int, cursor + n),
    {
        let available: usize = N_PT_PER_FRAME - cursor;
        let n: usize = if want <= available {
            want
        } else {
            available
        };
        let mut i: usize = 0;
        assert(out@ =~= old(out)@ + self.samples(cursor as int, cursor + 0));
        while i < n
            invariant
                i <= n,
                cursor + n <= N_PT_PER_FRAME,
                out@ == old(out)@ + self.samples(cursor as int, cursor + i),
            decreases n - i,
        {
            let c = self.sample_at(cursor + i);
            out.push(c);
            i = i + 1;
            assert(out@ =~= old(out)@ + self.samples(cursor as int, cursor + i));
        }
        n
    }
}

impl Default for Payload {
    /// A frame of zeros.
    fn default() -> (p: Payload)
        ensures
            p.head_magic == 0,
            p.version == 0,
            p.port_id == 0,
            p.data_type == 0,
            p.pkt_cnt == 0,
            p.tail_magic == 0,
            p.is_blank(),
    {
        let p = Payload {
            head_magic: 0,
            version: 0,
            port_id: 0,
            data_type: 0,
            pkt_cnt: 0,
            tail_magic: 0,
            data: [0u8; 8192],
        };
        assert(p.data@ =~= zeros(8192));
        p
    }
}

/// The signed value of a 16-bit two's complement pattern.
fn signed16(u: u16) -> (r: i16)
    ensures
        r == i16_of_bits(u),
{
    if u < 0x8000 {
        u as i16
    } else {
        (u as i32 - 0x1_0000) as i16
    }
}

/// The pair count of 16-bit samples is the named constant.
pub proof fn lemma_n_pt_per_frame()
    ensures
        8192int / (size_of::<i16>() as int) / 2 == N_PT_PER_FRAME,
{
    broadcast use vstd::layout::layout_of_primitives;
}

/// Reading a written frame gives the frame again.
pub proof fn lemma_frame_round_trip(p: Payload)
    ensures
        p.bytes().len() == FRAME_BYTES,
        p.is_frame_of(p.bytes()),
{
    let s = p.bytes();
    let h0 = u32_le(p.head_magic);
    let h1 = h0 + u32_le(p.version);
    let h2 = h1 + u32_le(p.port_id);
    let h3 = h2 + u32_le(p.data_type);
    let h4 = h3 + u64_le(p.pkt_cnt);
    let h5 = h4 + u64_le(p.tail_magic);
    assert(h5.len() == 32);
    assert(s == h5 + p.data@);
    assert(holds_at(h0, 0, u32_le(p.head_magic)));
    assert(holds_at(h1, 4, u32_le(p.version)));
    assert(holds_at(h2, 8, u32_le(p.port_id)));
    assert(holds_at(h3, 12, u32_le(p.data_type)));
    assert(holds_at(h4, 16, u64_le(p.pkt_cnt)));
    assert(holds_at(h5, 24, u64_le(p.tail_magic)));
    assert(holds_at(s, 0, u32_le(p.head_magic)));
    assert(holds_at(s, 4, u32_le(p.version)));
    assert(holds_at(s, 8, u32_le(p.port_id)));
    assert(holds_at(s, 12, u32_le(p.data_type)));
    assert(holds_at(s, 16, u64_le(p.pkt_cnt)));
    assert(holds_at(s, 24, u64_le(p.tail_magic)));
    assert(holds_at(s, 32, p.data@));
    lemma_u32_read_back(s, 0, p.head_magic);
    lemma_u32_read_back(s, 4, p.version);
    lemma_u32_read_back(s, 8, p.port_id);
    lemma_u32_read_back(s, 12, p.data_type);
    lemma_u64_read_back(s, 16, p.pkt_cnt);
    lemma_u64_read_back(s, 24, p.tail_magic);
    lemma_holds_subrange(s, 32, p.data@);
}

} // verus!
