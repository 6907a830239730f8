//! Health telemetry block carried by a query reply.
//!
//! The block is a tagged union of its own: its first word tells which of
//! three device families wrote it.

use vstd::prelude::*;
use crate::wire::{
    FormatError, bits_of_i32, get_word, get_words, hi32, holds_at, i32_bits, i32_from_bits,
    i32_of_bits, join64, lemma_word_at, lemma_words_concat, lo32, put_words, split64, word_at,
    words_at, words_le,
};

verus! {

/// Leading word of a high-level health block.
pub const MAGIC_HL_HEALTH: u32 = 0x3176_6c68;

/// Leading word of a variable-length telemetry block.
pub const MAGIC_TE_HEALTH: u32 = 0x7856_3412;

/// Leading word of a restart-count and temperature block.
pub const MAGIC_T510_HEALTH: u32 = 0x0000_01fe;

/// Number of words a high-level health block takes, its magic included.
pub const HL_HEALTH_WORDS: usize = 22;

/// Health telemetry of a device.
#[derive(Clone, Debug, PartialEq, Eq)]
pub enum Health {
    HLHealth {
        nhealth: u32,
        xgbe_state: [u32; 4],
        pkt_sent: [u64; 4],
        volt12_inner: u32,
        volt12_input: u32,
        vcc1v0: u32,
        vcc1v8: u32,
        mgtavtt1v2: u32,
        mgtavtt1v0: u32,
        temperatures: [u32; 2],
    },
    TEHealth { nhealth: u32, payload: Vec<u32> },
    T510Health { rfdc_restart_cnt: u32, temperature: i32 },
}

/// Mathematical content of a [`Health`] value.
pub enum HealthView {
    HLHealth {
        nhealth: u32,
        xgbe_state: [u32; 4],
        pkt_sent: [u64; 4],
        volt12_inner: u32,
        volt12_input: u32,
        vcc1v0: u32,
        vcc1v8: u32,
        mgtavtt1v2: u32,
        mgtavtt1v0: u32,
        temperatures: [u32; 2],
    },
    TEHealth { nhealth: u32, payload: Seq<u32> },
    T510Health { rfdc_restart_cnt: u32, temperature: i32 },
}

impl View for Health {
    type V = HealthView;

    open spec fn view(&self) -> HealthView {
        match *self {
            Health::HLHealth {
                nhealth,
                xgbe_state,
                pkt_sent,
                volt12_inner,
                volt12_input,
                vcc1v0,
                vcc1v8,
                mgtavtt1v2,
                mgtavtt1v0,
                temperatures,
            } => HealthView::HLHealth {
                nhealth,
                xgbe_state,
                pkt_sent,
                volt12_inner,
                volt12_input,
                vcc1v0,
                vcc1v8,
                mgtavtt1v2,
                mgtavtt1v0,
                temperatures,
            },
            Health::TEHealth { nhealth, payload } => HealthView::TEHealth {
                nhealth,
                payload: payload@,
            },
            Health::T510Health { rfdc_restart_cnt, temperature } => HealthView::T510Health {
                rfdc_restart_cnt,
                temperature,
            },
        }
    }
}

impl HealthView {
    /// Whether every count field equals the number of elements it stands before.
    pub open spec fn wf(self) -> bool {
        match self {
            HealthView::TEHealth { nhealth, payload } => nhealth == payload.len(),
            _ => true,
        }
    }

    /// The leading word of the block.
    pub open spec fn magic(self) -> u32 {
        match self {
            HealthView::HLHealth { .. } => MAGIC_HL_HEALTH,
            HealthView::TEHealth { .. } => MAGIC_TE_HEALTH,
            HealthView::T510Health { .. } => MAGIC_T510_HEALTH,
        }
    }

    /// The words of the block in wire order, its magic first.
    pub open spec fn words(self) -> Seq<u32> {
        match self {
            HealthView::HLHealth {
                nhealth,
                xgbe_state,
                pkt_sent,
                volt12_inner,
                volt12_input,
                vcc1v0,
                vcc1v8,
                mgtavtt1v2,
                mgtavtt1v0,
                temperatures,
            } => seq![
                MAGIC_HL_HEALTH,
                nhealth,
                xgbe_state[0],
                xgbe_state[1],
                xgbe_state[2],
                xgbe_state[3],
                lo32(pkt_sent[0]),
                hi32(pkt_sent[0]),
                lo32(pkt_sent[1]),
                hi32(pkt_sent[1]),
                lo32(pkt_sent[2]),
                hi32(pkt_sent[2]),
                lo32(pkt_sent[3]),
                hi32(pkt_sent[3]),
                volt12_inner,
                volt12_input,
                vcc1v0,
                vcc1v8,
                mgtavtt1v2,
                mgtavtt1v0,
                temperatures[0],
                temperatures[1],
            ],
            HealthView::TEHealth { nhealth, payload } => seq![MAGIC_TE_HEALTH, nhealth] + payload,
            HealthView::T510Health { rfdc_restart_cnt, temperature } => seq![
                MAGIC_T510_HEALTH,
                rfdc_restart_cnt,
                i32_bits(temperature),
            ],
        }
    }

    /// The wire image of the block.
    pub open spec fn bytes(self) -> Seq<u8> {
        words_le(self.words())
    }
}

/// The health block whose magic sits in word slot `slot` of `s`.
///
/// The block is truncated when `s` ends before the last word that its magic,
/// and for the variable-length kind its count, call for.
#[verifier::opaque]
pub open spec fn parse_health(s: Seq<u8>, slot: int) -> Result<HealthView, FormatError> {
    let nw = s.len() / 4;
    if nw < slot + 1 {
        Err(FormatError::Truncated)
    } else {
        let magic = word_at(s, slot);
        if magic == MAGIC_HL_HEALTH {
            if nw < slot + 22 {
                Err(FormatError::Truncated)
            } else {
                Ok(
                    HealthView::HLHealth {
                        nhealth: word_at(s, slot + 1),
                        xgbe_state: [
                            word_at(s, slot + 2),
                            word_at(s, slot + 3),
                            word_at(s, slot + 4),
                            word_at(s, slot + 5),
                        ],
                        pkt_sent: [
                            join64(word_at(s, slot + 6), word_at(s, slot + 7)),
                            join64(word_at(s, slot + 8), word_at(s, slot + 9)),
                            join64(word_at(s, slot + 10), word_at(s, slot + 11)),
                            join64(word_at(s, slot + 12), word_at(s, slot + 13)),
                        ],
                        volt12_inner: word_at(s, slot + 14),
                        volt12_input: word_at(s, slot + 15),
                        vcc1v0: word_at(s, slot + 16),
                        vcc1v8: word_at(s, slot + 17),
                        mgtavtt1v2: word_at(s, slot + 18),
                        mgtavtt1v0: word_at(s, slot + 19),
                        temperatures: [word_at(s, slot + 20), word_at(s, slot + 21)],
                    },
                )
            }
        } else if magic == MAGIC_TE_HEALTH {
            if nw < slot + 2 {
                Err(FormatError::Truncated)
            } else {
                let n = word_at(s, slot + 1);
                if nw < slot + 2 + n {
                    Err(FormatError::Truncated)
                } else {
                    Ok(
                        HealthView::TEHealth {
                            nhealth: n,
                            payload: words_at(s, slot + 2, n as nat),
                        },
                    )
                }
            }
        } else if magic == MAGIC_T510_HEALTH {
            if nw < slot + 3 {
                Err(FormatError::Truncated)
            } else {
                Ok(
                    HealthView::T510Health {
                        rfdc_restart_cnt: word_at(s, slot + 1),
                        temperature: i32_of_bits(word_at(s, slot + 2)),
                    },
                )
            }
        } else {
            Err(FormatError::UnknownHealthMagic { magic })
        }
    }
}

/// What an executable decoder has to return for the specified outcome `want`.
pub open spec fn health_result_is(
    got: Result<Health, FormatError>,
    want: Result<HealthView, FormatError>,
) -> bool {
    match got {
        Ok(h) => want == Ok::<HealthView, FormatError>(h@),
        Err(e) => want == Err::<HealthView, FormatError>(e),
    }
}

/// A well-formed block that is written as the words from slot `slot` on is
/// read back unchanged, whatever words come before and whatever bytes follow.
pub proof fn lemma_health_round_trip(s: Seq<u8>, slot: int, h: HealthView)
    requires
        h.wf(),
        0 <= slot,
        s.len() >= 4 * (slot + h.words().len()),
        forall|i: int| 0 <= i < h.words().len() ==> #[trigger] word_at(s, slot + i) == h.words()[i],
    ensures
        parse_health(s, slot) == Ok::<HealthView, FormatError>(h),
{
    reveal(parse_health);
    let w = h.words();
    let nw = s.len() / 4;
    assert(nw >= slot + w.len());
    assert(word_at(s, slot + 0) == w[0]);
    match h {
        HealthView::HLHealth {
            nhealth,
            xgbe_state,
            pkt_sent,
            volt12_inner,
            volt12_input,
            vcc1v0,
            vcc1v8,
            mgtavtt1v2,
            mgtavtt1v0,
            temperatures,
        } => {
            assert(w.len() == 22);
            assert(forall|i: int| 0 <= i < 22 ==> word_at(s, slot + i) == w[i]);
            let r = parse_health(s, slot)->Ok_0;
            assert(r->HLHealth_xgbe_state =~= xgbe_state);
            assert(r->HLHealth_pkt_sent =~= pkt_sent);
            assert(r->HLHealth_temperatures =~= temperatures);
        },
        HealthView::TEHealth { nhealth, payload } => {
            assert(word_at(s, slot + 1) == w[1]);
            assert forall|i: int| 0 <= i < payload.len() implies word_at(s, slot + 2 + i)
                == payload[i] by {
                assert(word_at(s, slot + (2 + i)) == w[2 + i]);
            }
            assert(words_at(s, slot + 2, nhealth as nat) =~= payload);
        },
        HealthView::T510Health { rfdc_restart_cnt, temperature } => {
            assert(word_at(s, slot + 1) == w[1]);
            assert(word_at(s, slot + 2) == w[2]);
        },
    }
}

/// Reading a written block gives the block again, whatever follows it.
pub proof fn lemma_health_decode_encode(h: HealthView, rest: Seq<u8>)
    requires
        h.wf(),
    ensures
        parse_health(h.bytes() + rest, 0) == Ok::<HealthView, FormatError>(h),
{
    let s = h.bytes() + rest;
    let ws = h.words();
    assert(holds_at(s, 0, words_le(ws)));
    assert forall|i: int| 0 <= i < ws.len() implies #[trigger] word_at(s, 0 + i) == ws[i] by {
        lemma_word_at(s, ws, i);
    }
    lemma_health_round_trip(s, 0, h);
}

/// A block whose first word is the magic of no health variant is never read
/// as a block: the result is the error that names the word.
pub proof fn lemma_unknown_health_magic(s: Seq<u8>, slot: int)
    requires
        0 <= slot,
        s.len() >= 4 * (slot + 1),
        word_at(s, slot) != MAGIC_HL_HEALTH,
        word_at(s, slot) != MAGIC_TE_HEALTH,
        word_at(s, slot) != MAGIC_T510_HEALTH,
    ensures
        parse_health(s, slot) == Err::<HealthView, FormatError>(
            FormatError::UnknownHealthMagic { magic: word_at(s, slot) },
        ),
{
    reveal(parse_health);
}

/// A block that was read has count fields that are right.
pub proof fn lemma_parse_health_wf(s: Seq<u8>, slot: int)
    requires
        parse_health(s, slot) is Ok,
    ensures
        parse_health(s, slot)->Ok_0.wf(),
{
    reveal(parse_health);
}

impl Health {
    /// Whether every count field equals the number of elements it stands before.
    pub fn is_wf(&self) -> (b: bool)
        ensures
            b == self@.wf(),
    {
        match self {
            Health::TEHealth { nhealth, payload } => *nhealth as usize == payload.len(),
            _ => true,
        }
    }

    /// Appends the wire image of the block, count fields written as they stand.
    pub fn put(&self, out: &mut Vec<u8>)
        ensures
            final(out)@ == old(out)@ + self@.bytes(),
    {
        match self {
            Health::HLHealth {
                nhealth,
                xgbe_state,
                pkt_sent,
                volt12_inner,
                volt12_input,
                vcc1v0,
                vcc1v8,
                mgtavtt1v2,
                mgtavtt1v0,
                temperatures,
            } => {
                let (lo0, hi0) = split64(pkt_sent[0]);
                let (lo1, hi1) = split64(pkt_sent[1]);
                let (lo2, hi2) = split64(pkt_sent[2]);
                let (lo3, hi3) = split64(pkt_sent[3]);
                let ws: [u32; 22] = [
                    MAGIC_HL_HEALTH,
                    *nhealth,
                    xgbe_state[0],
                    xgbe_state[1],
                    xgbe_state[2],
                    xgbe_state[3],
                    lo0,
                    hi0,
                    lo1,
                    hi1,
                    lo2,
                    hi2,
                    lo3,
                    hi3,
                    *volt12_inner,
                    *volt12_input,
                    *vcc1v0,
                    *vcc1v8,
                    *mgtavtt1v2,
                    *mgtavtt1v0,
                    temperatures[0],
                    temperatures[1],
                ];
                assert(ws@ =~= self@.words());
                put_words(out, &ws);
            },
            Health::TEHealth { nhealth, payload } => {
                let head: [u32; 2] = [MAGIC_TE_HEALTH, *nhealth];
                assert(head@ =~= seq![MAGIC_TE_HEALTH, *nhealth]);
                put_words(out, &head);
                put_words(out, payload.as_slice());
                proof {
                    lemma_words_concat(head@, payload@);
                    assert(out@ =~= old(out)@ + self@.bytes());
                }
            },
            Health::T510Health { rfdc_restart_cnt, temperature } => {
                let ws: [u32; 3] = [
                    MAGIC_T510_HEALTH,
                    *rfdc_restart_cnt,
                    bits_of_i32(*temperature),
                ];
                assert(ws@ =~= self@.words());
                put_words(out, &ws);
            },
        }
    }

    /// Reads the block whose magic sits in word slot `slot` of `b`.
    pub fn get(b: &[u8], slot: usize) -> (r: Result<Health, FormatError>)
        ensures
            health_result_is(r, parse_health(b@, slot as int)),
    {
        proof {
            reveal(parse_health);
        }
        let nw: usize = b.len() / 4;
        if nw <= slot {
            return Err(FormatError::Truncated);
        }
        let avail: usize = nw - slot;
        let magic: u32 = get_word(b, slot);
        if magic == MAGIC_HL_HEALTH {
            if avail < 22 {
                return Err(FormatError::Truncated);
            }
            let h = Health::HLHealth {
                nhealth: get_word(b, slot + 1),
                xgbe_state: [
                    get_word(b, slot + 2),
                    get_word(b, slot + 3),
                    get_word(b, slot + 4),
                    get_word(b, slot + 5),
                ],
                pkt_sent: [
                    read_u64_words(b, slot + 6),
                    read_u64_words(b, slot + 8),
                    read_u64_words(b, slot + 10),
                    read_u64_words(b, slot + 12),
                ],
                volt12_inner: get_word(b, slot + 14),
                volt12_input: get_word(b, slot + 15),
                vcc1v0: get_word(b, slot + 16),
                vcc1v8: get_word(b, slot + 17),
                mgtavtt1v2: get_word(b, slot + 18),
                mgtavtt1v0: get_word(b, slot + 19),
                temperatures: [get_word(b, slot + 20), get_word(b, slot + 21)],
            };
            proof {
                let want = parse_health(b@, slot as int)->Ok_0;
                assert(h@->HLHealth_xgbe_state =~= want->HLHealth_xgbe_state);
                assert(h@->HLHealth_pkt_sent =~= want->HLHealth_pkt_sent);
                assert(h@->HLHealth_temperatures =~= want->HLHealth_temperatures);
            }
            Ok(h)
        } else if magic == MAGIC_TE_HEALTH {
            if avail < 2 {
                return Err(FormatError::Truncated);
            }
            let n: u32 = get_word(b, slot + 1);
            if avail - 2 < n as usize {
                return Err(FormatError::Truncated);
            }
            let payload = get_words(b, slot + 2, n as usize);
            Ok(Health::TEHealth { nhealth: n, payload })
        } else if magic == MAGIC_T510_HEALTH {
            if avail < 3 {
                return Err(FormatError::Truncated);
            }
            Ok(
                Health::T510Health {
                    rfdc_restart_cnt: get_word(b, slot + 1),
                    temperature: i32_from_bits(get_word(b, slot + 2)),
                },
            )
        } else {
            Err(FormatError::UnknownHealthMagic { magic })
        }
    }

    /// Writes the block as a message of its own.
    ///
    /// Fails with `LengthMismatch` exactly when a count field is not the
    /// number of elements it stands before.
    pub fn encode(&self) -> (r: Result<Vec<u8>, FormatError>)
        ensures
            self@.wf() ==> r is Ok && r->Ok_0@ == self@.bytes(),
            !self@.wf() ==> r == Err::<Vec<u8>, FormatError>(FormatError::LengthMismatch),
    {
        if !self.is_wf() {
            return Err(FormatError::LengthMismatch);
        }
        let mut out: Vec<u8> = Vec::new();
        self.put(&mut out);
        assert(out@ =~= self@.bytes());
        Ok(out)
    }

    /// Reads a block from the start of `b`; bytes after the block are ignored.
    pub fn decode(b: &[u8]) -> (r: Result<Health, FormatError>)
        ensures
            health_result_is(r, parse_health(b@, 0)),
    {
        Health::get(b, 0)
    }
}

/// Reads a 64-bit value from the two word slots starting at `slot`.
fn read_u64_words(b: &[u8], slot: usize) -> (r: u64)
    requires
        4 * (slot + 2) <= b@.len(),
    ensures
        r == join64(word_at(b@, slot as int), word_at(b@, slot + 1)),
{
    let len: usize = b.len();
    assert(4 * (slot + 2) <= len);
    let lo: u64 = get_word(b, slot) as u64;
    let hi: u64 = get_word(b, slot + 1) as u64;
    lo + 0x1_0000_0000 * hi
}

} // verus!
