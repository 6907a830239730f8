//! Wire codec of the control messages.
//!
//! A message is written as a run of little-endian 32-bit words (its magic,
//! its identifier and its scalar fields in declaration order, a 64-bit field
//! low half first), then the port configurations it carries, then its byte
//! payload. A count field is an ordinary word in front of what it counts.
//! Reading takes a message from the start of a buffer and ignores what
//! follows it.

use vstd::prelude::*;
use crate::ctrl_msg::{
    CtrlMsg, CtrlMsgView, MsgKind,
    MAGIC_INVALID_MSG, MAGIC_QUERY, MAGIC_QUERY_REPLY, MAGIC_SYNC, MAGIC_SYNC_REPLY,
    MAGIC_XGBE_CFG, MAGIC_XGBE_CFG_REPLY, MAGIC_I2C_SCAN, MAGIC_I2C_SCAN_REPLY, MAGIC_I2C_WRITE,
    MAGIC_I2C_WRITE_REPLY, MAGIC_I2C_WRITE_REG, MAGIC_I2C_WRITE_REG_REPLY, MAGIC_I2C_READ,
    MAGIC_I2C_READ_REPLY, MAGIC_I2C_READ_REG, MAGIC_I2C_READ_REG_REPLY, MAGIC_STREAM_START,
    MAGIC_STREAM_START_REPLY, MAGIC_STREAM_STOP, MAGIC_STREAM_STOP_REPLY, MAGIC_BIT_SHIFT,
    MAGIC_BIT_SHIFT_REPLY, MAGIC_PWR_CTRL, MAGIC_PWR_CTRL_REPLY, MAGIC_INIT, MAGIC_INIT_REPLY,
    MAGIC_XGBE_CFG_SINGLE, MAGIC_XGBE_CFG_SINGLE_REPLY, MAGIC_XGBE_CFG_QUERY,
    MAGIC_XGBE_CFG_QUERY_REPLY, MAGIC_SET_CLK, MAGIC_SET_CLK_REPLY, MAGIC_MIXER_SET,
    MAGIC_MIXER_SET_REPLY,
};
use crate::health::{
    Health, HealthView, lemma_health_round_trip, lemma_parse_health_wf, parse_health,
};
use crate::wire::{
    FormatError, get_bytes, get_u64, get_word, hi32, join64, lemma_holds_subrange, lemma_join64,
    lemma_pieces, lemma_word_at, lemma_words_at, lemma_words_concat, lo32, put_bytes, put_words,
    split64, word_at, words_le,
};
use crate::xgbe::{
    XGbeCfg, cfgs_at, cfgs_le, get_xgbe, get_xgbe_run, lemma_cfgs_at, lemma_cfgs_single, put_xgbe,
    put_xgbe_run, xgbe_at,
};

verus! {

impl CtrlMsgView {
    /// The words the message starts with: magic, identifier, then the scalar
    /// fields in declaration order. The health block of a query reply is
    /// made of words and belongs to them.
    pub open spec fn words(self) -> Seq<u32> {
        match self {
            CtrlMsgView::InvalidMsg { msg_id, err_code, len, .. } => seq![
                MAGIC_INVALID_MSG,
                msg_id,
                err_code,
                len,
            ],
            CtrlMsgView::Query { msg_id } => seq![MAGIC_QUERY, msg_id],
            CtrlMsgView::QueryReply {
                msg_id,
                fm_ver,
                tick_cnt1,
                tick_cnt2,
                trans_state,
                locked,
                health,
            } => seq![
                MAGIC_QUERY_REPLY,
                msg_id,
                fm_ver,
                tick_cnt1,
                tick_cnt2,
                trans_state,
                locked,
            ] + health.words(),
            CtrlMsgView::Sync { msg_id } => seq![MAGIC_SYNC, msg_id],
            CtrlMsgView::SyncReply { msg_id } => seq![MAGIC_SYNC_REPLY, msg_id],
            CtrlMsgView::XGbeCfg { msg_id, .. } => seq![MAGIC_XGBE_CFG, msg_id],
            CtrlMsgView::XgbeCfgReply { msg_id } => seq![MAGIC_XGBE_CFG_REPLY, msg_id],
            CtrlMsgView::I2CScan { msg_id } => seq![MAGIC_I2C_SCAN, msg_id],
            CtrlMsgView::I2CScanReply { msg_id, ndev, .. } => seq![
                MAGIC_I2C_SCAN_REPLY,
                msg_id,
                ndev,
            ],
            CtrlMsgView::I2CWrite { msg_id, dev_addr, len, .. } => seq![
                MAGIC_I2C_WRITE,
                msg_id,
                dev_addr,
                len,
            ],
            CtrlMsgView::I2CWriteReply { msg_id, err_code } => seq![
                MAGIC_I2C_WRITE_REPLY,
                msg_id,
                err_code,
            ],
            CtrlMsgView::I2CWriteReg { msg_id, dev_addr, reg_addr, len, .. } => seq![
                MAGIC_I2C_WRITE_REG,
                msg_id,
                dev_addr,
                reg_addr,
                len,
            ],
            CtrlMsgView::I2CWriteRegReply { msg_id, err_code } => seq![
                MAGIC_I2C_WRITE_REG_REPLY,
                msg_id,
                err_code,
            ],
            CtrlMsgView::I2CRead { msg_id, dev_addr, nbytes } => seq![
                MAGIC_I2C_READ,
                msg_id,
                dev_addr,
                nbytes,
            ],
            CtrlMsgView::I2CReadReply { msg_id, err_code, len, .. } => seq![
                MAGIC_I2C_READ_REPLY,
                msg_id,
                err_code,
                len,
            ],
            CtrlMsgView::I2CReadReg { msg_id, dev_addr, reg_addr, nbytes } => seq![
                MAGIC_I2C_READ_REG,
                msg_id,
                dev_addr,
                reg_addr,
                nbytes,
            ],
            CtrlMsgView::I2CReadRegReply { msg_id, err_code, len, .. } => seq![
                MAGIC_I2C_READ_REG_REPLY,
                msg_id,
                err_code,
                len,
            ],
            CtrlMsgView::StreamStart { msg_id } => seq![MAGIC_STREAM_START, msg_id],
            CtrlMsgView::StreamStartReply { msg_id } => seq![MAGIC_STREAM_START_REPLY, msg_id],
            CtrlMsgView::StreamStop { msg_id } => seq![MAGIC_STREAM_STOP, msg_id],
            CtrlMsgView::StreamStopReply { msg_id } => seq![MAGIC_STREAM_STOP_REPLY, msg_id],
            CtrlMsgView::BitShift { msg_id, shift_bits } => seq![
                MAGIC_BIT_SHIFT,
                msg_id,
                shift_bits,
            ],
            CtrlMsgView::BitShiftReply { msg_id } => seq![MAGIC_BIT_SHIFT_REPLY, msg_id],
            CtrlMsgView::PwrCtrl { msg_id, op_code } => seq![MAGIC_PWR_CTRL, msg_id, op_code],
            CtrlMsgView::PwrCtrlReply { msg_id } => seq![MAGIC_PWR_CTRL_REPLY, msg_id],
            CtrlMsgView::Init { msg_id, reserved_zeros } => seq![
                MAGIC_INIT,
                msg_id,
                reserved_zeros,
            ],
            CtrlMsgView::InitReply { msg_id } => seq![MAGIC_INIT_REPLY, msg_id],
            CtrlMsgView::XGbeCfgSingle { msg_id, port_id, .. } => seq![
                MAGIC_XGBE_CFG_SINGLE,
                msg_id,
                port_id,
            ],
            CtrlMsgView::XGbeCfgSingleReply { msg_id } => seq![MAGIC_XGBE_CFG_SINGLE_REPLY, msg_id],
            CtrlMsgView::XGbeCfgQuery { msg_id } => seq![MAGIC_XGBE_CFG_QUERY, msg_id],
            CtrlMsgView::XGbeCfgQueryReply { msg_id, nports, .. } => seq![
                MAGIC_XGBE_CFG_QUERY_REPLY,
                msg_id,
                nports,
            ],
            CtrlMsgView::SetClk { msg_id, clk_src, pps_src } => seq![
                MAGIC_SET_CLK,
                msg_id,
                clk_src,
                pps_src,
            ],
            CtrlMsgView::SetClkReply { msg_id, clk_state } => seq![
                MAGIC_SET_CLK_REPLY,
                msg_id,
                clk_state,
            ],
            CtrlMsgView::MixerSet { msg_id, freq_bits, phase_bits, sync } => seq![
                MAGIC_MIXER_SET,
                msg_id,
                lo32(freq_bits),
                hi32(freq_bits),
                lo32(phase_bits),
                hi32(phase_bits),
                sync,
            ],
            CtrlMsgView::MixerSetReply { msg_id } => seq![MAGIC_MIXER_SET_REPLY, msg_id],
        }
    }

    /// The port configurations that follow the words.
    pub open spec fn cfgs(self) -> Seq<XGbeCfg> {
        match self {
            CtrlMsgView::XGbeCfg { cfg, .. } => cfg@,
            CtrlMsgView::XGbeCfgSingle { cfg, .. } => seq![cfg],
            CtrlMsgView::XGbeCfgQueryReply { cfg, .. } => cfg,
            _ => Seq::empty(),
        }
    }

    /// The byte payload that ends the message.
    pub open spec fn tail(self) -> Seq<u8> {
        match self {
            CtrlMsgView::InvalidMsg { description, .. } => description,
            CtrlMsgView::I2CScanReply { payload, .. } => payload,
            CtrlMsgView::I2CWrite { payload, .. } => payload,
            CtrlMsgView::I2CWriteReg { payload, .. } => payload,
            CtrlMsgView::I2CReadReply { payload, .. } => payload,
            CtrlMsgView::I2CReadRegReply { payload, .. } => payload,
            _ => Seq::empty(),
        }
    }

    /// The wire image of the message.
    pub open spec fn bytes(self) -> Seq<u8> {
        words_le(self.words()) + cfgs_le(self.cfgs()) + self.tail()
    }
}

/// The message of variant `kind` at the start of `s`, whose first two words
/// are known to be there.
pub open spec fn parse_body(kind: MsgKind, s: Seq<u8>) -> Result<CtrlMsgView, FormatError> {
    let nw = s.len() / 4;
    let msg_id = word_at(s, 1);
    match kind {
        MsgKind::InvalidMsg => if nw < 4 {
            Err(FormatError::Truncated)
        } else {
            let len = word_at(s, 3);
            if s.len() < 16 + len {
                Err(FormatError::Truncated)
            } else {
                Ok(CtrlMsgView::InvalidMsg {
                    msg_id,
                    err_code: word_at(s, 2),
                    len,
                    description: s.subrange(16, 16 + len),
                })
            }
        },
        MsgKind::Query => Ok(CtrlMsgView::Query { msg_id }),
        MsgKind::QueryReply => if nw < 7 {
            Err(FormatError::Truncated)
        } else {
            match parse_health(s, 7) {
                Err(e) => Err(e),
                Ok(health) => Ok(CtrlMsgView::QueryReply {
                    msg_id,
                    fm_ver: word_at(s, 2),
                    tick_cnt1: word_at(s, 3),
                    tick_cnt2: word_at(s, 4),
                    trans_state: word_at(s, 5),
                    locked: word_at(s, 6),
                    health,
                }),
            }
        },
        MsgKind::Sync => Ok(CtrlMsgView::Sync { msg_id }),
        MsgKind::SyncReply => Ok(CtrlMsgView::SyncReply { msg_id }),
        MsgKind::XGbeCfg => if s.len() < 136 {
            Err(FormatError::Truncated)
        } else {
            Ok(
                CtrlMsgView::XGbeCfg {
                    msg_id,
                    cfg: [
                        xgbe_at(s, 8),
                        xgbe_at(s, 40),
                        xgbe_at(s, 72),
                        xgbe_at(s, 104),
                    ],
                },
            )
        },
        MsgKind::XgbeCfgReply => Ok(CtrlMsgView::XgbeCfgReply { msg_id }),
        MsgKind::I2CScan => Ok(CtrlMsgView::I2CScan { msg_id }),
        MsgKind::I2CScanReply => if nw < 3 {
            Err(FormatError::Truncated)
        } else {
            let ndev = word_at(s, 2);
            if s.len() < 12 + ndev {
                Err(FormatError::Truncated)
            } else {
                Ok(CtrlMsgView::I2CScanReply { msg_id, ndev, payload: s.subrange(12, 12 + ndev) })
            }
        },
        MsgKind::I2CWrite => if nw < 4 {
            Err(FormatError::Truncated)
        } else {
            let len = word_at(s, 3);
            if s.len() < 16 + len {
                Err(FormatError::Truncated)
            } else {
                Ok(CtrlMsgView::I2CWrite {
                    msg_id,
                    dev_addr: word_at(s, 2),
                    len,
                    payload: s.subrange(16, 16 + len),
                })
            }
        },
        MsgKind::I2CWriteReply => if nw < 3 {
            Err(FormatError::Truncated)
        } else {
            Ok(CtrlMsgView::I2CWriteReply { msg_id, err_code: word_at(s, 2) })
        },
        MsgKind::I2CWriteReg => if nw < 5 {
            Err(FormatError::Truncated)
        } else {
            let len = word_at(s, 4);
            if s.len() < 20 + len {
                Err(FormatError::Truncated)
            } else {
                Ok(CtrlMsgView::I2CWriteReg {
                    msg_id,
                    dev_addr: word_at(s, 2),
                    reg_addr: word_at(s, 3),
                    len,
                    payload: s.subrange(20, 20 + len),
                })
            }
        },
        MsgKind::I2CWriteRegReply => if nw < 3 {
            Err(FormatError::Truncated)
        } else {
            Ok(CtrlMsgView::I2CWriteRegReply { msg_id, err_code: word_at(s, 2) })
        },
        MsgKind::I2CRead => if nw < 4 {
            Err(FormatError::Truncated)
        } else {
            Ok(CtrlMsgView::I2CRead { msg_id, dev_addr: word_at(s, 2), nbytes: word_at(s, 3) })
        },
        MsgKind::I2CReadReply => if nw < 4 {
            Err(FormatError::Truncated)
        } else {
            let len = word_at(s, 3);
            if s.len() < 16 + len {
                Err(FormatError::Truncated)
            } else {
                Ok(CtrlMsgView::I2CReadReply {
                    msg_id,
                    err_code: word_at(s, 2),
                    len,
                    payload: s.subrange(16, 16 + len),
                })
            }
        },
        MsgKind::I2CReadReg => if nw < 5 {
            Err(FormatError::Truncated)
        } else {
            Ok(CtrlMsgView::I2CReadReg {
                msg_id,
                dev_addr: word_at(s, 2),
                reg_addr: word_at(s, 3),
                nbytes: word_at(s, 4),
            })
        },
        MsgKind::I2CReadRegReply => if nw < 4 {
            Err(FormatError::Truncated)
        } else {
            let len = word_at(s, 3);
            if s.len() < 16 + len {
                Err(FormatError::Truncated)
            } else {
                Ok(CtrlMsgView::I2CReadRegReply {
                    msg_id,
                    err_code: word_at(s, 2),
                    len,
                    payload: s.subrange(16, 16 + len),
                })
            }
        },
        MsgKind::StreamStart => Ok(CtrlMsgView::StreamStart { msg_id }),
        MsgKind::StreamStartReply => Ok(CtrlMsgView::StreamStartReply { msg_id }),
        MsgKind::StreamStop => Ok(CtrlMsgView::StreamStop { msg_id }),
        MsgKind::StreamStopReply => Ok(CtrlMsgView::StreamStopReply { msg_id }),
        MsgKind::BitShift => if nw < 3 {
            Err(FormatError::Truncated)
        } else {
            Ok(CtrlMsgView::BitShift { msg_id, shift_bits: word_at(s, 2) })
        },
        MsgKind::BitShiftReply => Ok(CtrlMsgView::BitShiftReply { msg_id }),
        MsgKind::PwrCtrl => if nw < 3 {
            Err(FormatError::Truncated)
        } else {
            Ok(CtrlMsgView::PwrCtrl { msg_id, op_code: word_at(s, 2) })
        },
        MsgKind::PwrCtrlReply => Ok(CtrlMsgView::PwrCtrlReply { msg_id }),
        MsgKind::Init => if nw < 3 {
            Err(FormatError::Truncated)
        } else {
            Ok(CtrlMsgView::Init { msg_id, reserved_zeros: word_at(s, 2) })
        },
        MsgKind::InitReply => Ok(CtrlMsgView::InitReply { msg_id }),
        MsgKind::XGbeCfgSingle => if s.len() < 44 {
            Err(FormatError::Truncated)
        } else {
            Ok(CtrlMsgView::XGbeCfgSingle { msg_id, port_id: word_at(s, 2), cfg: xgbe_at(s, 12) })
        },
        MsgKind::XGbeCfgSingleReply => Ok(CtrlMsgView::XGbeCfgSingleReply { msg_id }),
        MsgKind::XGbeCfgQuery => Ok(CtrlMsgView::XGbeCfgQuery { msg_id }),
        MsgKind::XGbeCfgQueryReply => if nw < 3 {
            Err(FormatError::Truncated)
        } else {
            let nports = word_at(s, 2);
            if s.len() < 12 + 32 * nports {
                Err(FormatError::Truncated)
            } else {
                Ok(CtrlMsgView::XGbeCfgQueryReply {
                    msg_id,
                    nports,
                    cfg: cfgs_at(s, 12, nports as nat),
                })
            }
        },
        MsgKind::SetClk => if nw < 4 {
            Err(FormatError::Truncated)
        } else {
            Ok(CtrlMsgView::SetClk { msg_id, clk_src: word_at(s, 2), pps_src: word_at(s, 3) })
        },
        MsgKind::SetClkReply => if nw < 3 {
            Err(FormatError::Truncated)
        } else {
            Ok(CtrlMsgView::SetClkReply { msg_id, clk_state: word_at(s, 2) })
        },
        MsgKind::MixerSet => if nw < 7 {
            Err(FormatError::Truncated)
        } else {
            Ok(CtrlMsgView::MixerSet {
                msg_id,
                freq_bits: join64(word_at(s, 2), word_at(s, 3)),
                phase_bits: join64(word_at(s, 4), word_at(s, 5)),
                sync: word_at(s, 6),
            })
        },
        MsgKind::MixerSetReply => Ok(CtrlMsgView::MixerSetReply { msg_id }),
    }
}

/// The message at the start of `s`.
///
/// The result is `Truncated` when `s` ends before the message does,
/// `UnknownMagic` when the first word is the magic of no variant, and
/// `UnknownHealthMagic` when the health block of a query reply starts with
/// the magic of no health variant. Bytes after the message are ignored, and
/// so is what the padding of a port configuration holds.
pub open spec fn parse_msg(s: Seq<u8>) -> Result<CtrlMsgView, FormatError> {
    if s.len() / 4 < 1 {
        Err(FormatError::Truncated)
    } else {
        match MsgKind::of_magic(word_at(s, 0)) {
            None => Err(FormatError::UnknownMagic { magic: word_at(s, 0) }),
            Some(kind) => if s.len() / 4 < 2 {
                Err(FormatError::Truncated)
            } else {
                parse_body(kind, s)
            },
        }
    }
}

/// What an executable decoder has to return for the specified outcome `want`.
pub open spec fn msg_result_is(
    got: Result<CtrlMsg, FormatError>,
    want: Result<CtrlMsgView, FormatError>,
) -> bool {
    match got {
        Ok(m) => want == Ok::<CtrlMsgView, FormatError>(m@),
        Err(e) => want == Err::<CtrlMsgView, FormatError>(e),
    }
}

impl CtrlMsg {
    /// Appends the words of the message.
    fn put_head(&self, out: &mut Vec<u8>)
        ensures
            final(out)@ == old(out)@ + words_le(self@.words()),
    {
        match self {
            CtrlMsg::InvalidMsg { msg_id, err_code, len, .. } => {
                let ws: [u32; 4] = [MAGIC_INVALID_MSG, *msg_id, *err_code, *len];
                assert(ws@ =~= self@.words());
                put_words(out, &ws);
            },
            CtrlMsg::Query { msg_id } => {
                let ws: [u32; 2] = [MAGIC_QUERY, *msg_id];
                assert(ws@ =~= self@.words());
                put_words(out, &ws);
            },
            CtrlMsg::QueryReply {
                msg_id,
                fm_ver,
                tick_cnt1,
                tick_cnt2,
                trans_state,
                locked,
                health,
            } => {
                let ws: [u32; 7] = [
                    MAGIC_QUERY_REPLY,
                    *msg_id,
                    *fm_ver,
                    *tick_cnt1,
                    *tick_cnt2,
                    *trans_state,
                    *locked,
                ];
                let ghost head = seq![
                    MAGIC_QUERY_REPLY,
                    *msg_id,
                    *fm_ver,
                    *tick_cnt1,
                    *tick_cnt2,
                    *trans_state,
                    *locked,
                ];
                assert(ws@ =~= head);
                put_words(out, &ws);
                health.put(out);
                proof {
                    lemma_words_concat(head, health@.words());
                    assert(out@ =~= old(out)@ + words_le(self@.words()));
                }
            },
            CtrlMsg::Sync { msg_id } => {
                let ws: [u32; 2] = [MAGIC_SYNC, *msg_id];
                assert(ws@ =~= self@.words());
                put_words(out, &ws);
            },
            CtrlMsg::SyncReply { msg_id } => {
                let ws: [u32; 2] = [MAGIC_SYNC_REPLY, *msg_id];
                assert(ws@ =~= self@.words());
                put_words(out, &ws);
            },
            CtrlMsg::XGbeCfg { msg_id, .. } => {
                let ws: [u32; 2] = [MAGIC_XGBE_CFG, *msg_id];
                assert(ws@ =~= self@.words());
                put_words(out, &ws);
            },
            CtrlMsg::XgbeCfgReply { msg_id } => {
                let ws: [u32; 2] = [MAGIC_XGBE_CFG_REPLY, *msg_id];
                assert(ws@ =~= self@.words());
                put_words(out, &ws);
            },
            CtrlMsg::I2CScan { msg_id } => {
                let ws: [u32; 2] = [MAGIC_I2C_SCAN, *msg_id];
                assert(ws@ =~= self@.words());
                put_words(out, &ws);
            },
            CtrlMsg::I2CScanReply { msg_id, ndev, .. } => {
                let ws: [u32; 3] = [MAGIC_I2C_SCAN_REPLY, *msg_id, *ndev];
                assert(ws@ =~= self@.words());
                put_words(out, &ws);
            },
            CtrlMsg::I2CWrite { msg_id, dev_addr, len, .. } => {
                let ws: [u32; 4] = [MAGIC_I2C_WRITE, *msg_id, *dev_addr, *len];
                assert(ws@ =~= self@.words());
                put_words(out, &ws);
            },
            CtrlMsg::I2CWriteReply { msg_id, err_code } => {
                let ws: [u32; 3] = [MAGIC_I2C_WRITE_REPLY, *msg_id, *err_code];
                assert(ws@ =~= self@.words());
                put_words(out, &ws);
            },
            CtrlMsg::I2CWriteReg { msg_id, dev_addr, reg_addr, len, .. } => {
                let ws: [u32; 5] = [MAGIC_I2C_WRITE_REG, *msg_id, *dev_addr, *reg_addr, *len];
                assert(ws@ =~= self@.words());
                put_words(out, &ws);
            },
            CtrlMsg::I2CWriteRegReply { msg_id, err_code } => {
                let ws: [u32; 3] = [MAGIC_I2C_WRITE_REG_REPLY, *msg_id, *err_code];
                assert(ws@ =~= self@.words());
                put_words(out, &ws);
            },
            CtrlMsg::I2CRead { msg_id, dev_addr, nbytes } => {
                let ws: [u32; 4] = [MAGIC_I2C_READ, *msg_id, *dev_addr, *nbytes];
                assert(ws@ =~= self@.words());
                put_words(out, &ws);
            },
            CtrlMsg::I2CReadReply { msg_id, err_code, len, .. } => {
                let ws: [u32; 4] = [MAGIC_I2C_READ_REPLY, *msg_id, *err_code, *len];
                assert(ws@ =~= self@.words());
                put_words(out, &ws);
            },
            CtrlMsg::I2CReadReg { msg_id, dev_addr, reg_addr, nbytes } => {
                let ws: [u32; 5] = [MAGIC_I2C_READ_REG, *msg_id, *dev_addr, *reg_addr, *nbytes];
                assert(ws@ =~= self@.words());
                put_words(out, &ws);
            },
            CtrlMsg::I2CReadRegReply { msg_id, err_code, len, .. } => {
                let ws: [u32; 4] = [MAGIC_I2C_READ_REG_REPLY, *msg_id, *err_code, *len];
                assert(ws@ =~= self@.words());
                put_words(out, &ws);
            },
            CtrlMsg::StreamStart { msg_id } => {
                let ws: [u32; 2] = [MAGIC_STREAM_START, *msg_id];
                assert(ws@ =~= self@.words());
                put_words(out, &ws);
            },
            CtrlMsg::StreamStartReply { msg_id } => {
                let ws: [u32; 2] = [MAGIC_STREAM_START_REPLY, *msg_id];
                assert(ws@ =~= self@.words());
                put_words(out, &ws);
            },
            CtrlMsg::StreamStop { msg_id } => {
                let ws: [u32; 2] = [MAGIC_STREAM_STOP, *msg_id];
                assert(ws@ =~= self@.words());
                put_words(out, &ws);
            },
            CtrlMsg::StreamStopReply { msg_id } => {
                let ws: [u32; 2] = [MAGIC_STREAM_STOP_REPLY, *msg_id];
                assert(ws@ =~= self@.words());
                put_words(out, &ws);
            },
            CtrlMsg::BitShift { msg_id, shift_bits } => {
                let ws: [u32; 3] = [MAGIC_BIT_SHIFT, *msg_id, *shift_bits];
                assert(ws@ =~= self@.words());
                put_words(out, &ws);
            },
            CtrlMsg::BitShiftReply { msg_id } => {
                let ws: [u32; 2] = [MAGIC_BIT_SHIFT_REPLY, *msg_id];
                assert(ws@ =~= self@.words());
                put_words(out, &ws);
            },
            CtrlMsg::PwrCtrl { msg_id, op_code } => {
                let ws: [u32; 3] = [MAGIC_PWR_CTRL, *msg_id, *op_code];
                assert(ws@ =~= self@.words());
                put_words(out, &ws);
            },
            CtrlMsg::PwrCtrlReply { msg_id } => {
                let ws: [u32; 2] = [MAGIC_PWR_CTRL_REPLY, *msg_id];
                assert(ws@ =~= self@.words());
                put_words(out, &ws);
            },
            CtrlMsg::Init { msg_id, reserved_zeros } => {
                let ws: [u32; 3] = [MAGIC_INIT, *msg_id, *reserved_zeros];
                assert(ws@ =~= self@.words());
                put_words(out, &ws);
            },
            CtrlMsg::InitReply { msg_id } => {
                let ws: [u32; 2] = [MAGIC_INIT_REPLY, *msg_id];
                assert(ws@ =~= self@.words());
                put_words(out, &ws);
            },
            CtrlMsg::XGbeCfgSingle { msg_id, port_id, .. } => {
                let ws: [u32; 3] = [MAGIC_XGBE_CFG_SINGLE, *msg_id, *port_id];
                assert(ws@ =~= self@.words());
                put_words(out, &ws);
            },
            CtrlMsg::XGbeCfgSingleReply { msg_id } => {
                let ws: [u32; 2] = [MAGIC_XGBE_CFG_SINGLE_REPLY, *msg_id];
                assert(ws@ =~= self@.words());
                put_words(out, &ws);
            },
            CtrlMsg::XGbeCfgQuery { msg_id } => {
                let ws: [u32; 2] = [MAGIC_XGBE_CFG_QUERY, *msg_id];
                assert(ws@ =~= self@.words());
                put_words(out, &ws);
            },
            CtrlMsg::XGbeCfgQueryReply { msg_id, nports, .. } => {
                let ws: [u32; 3] = [MAGIC_XGBE_CFG_QUERY_REPLY, *msg_id, *nports];
                assert(ws@ =~= self@.words());
                put_words(out, &ws);
            },
            CtrlMsg::SetClk { msg_id, clk_src, pps_src } => {
                let ws: [u32; 4] = [MAGIC_SET_CLK, *msg_id, *clk_src, *pps_src];
                assert(ws@ =~= self@.words());
                put_words(out, &ws);
            },
            CtrlMsg::SetClkReply { msg_id, clk_state } => {
                let ws: [u32; 3] = [MAGIC_SET_CLK_REPLY, *msg_id, *clk_state];
                assert(ws@ =~= self@.words());
                put_words(out, &ws);
            },
            CtrlMsg::MixerSet { msg_id, freq_bits, phase_bits, sync } => {
                let ws: [u32; 7] = [
                    MAGIC_MIXER_SET,
                    *msg_id,
                    split64(*freq_bits).0,
                    split64(*freq_bits).1,
                    split64(*phase_bits).0,
                    split64(*phase_bits).1,
                    *sync,
                ];
                assert(ws@ =~= self@.words());
                put_words(out, &ws);
            },
            CtrlMsg::MixerSetReply { msg_id } => {
                let ws: [u32; 2] = [MAGIC_MIXER_SET_REPLY, *msg_id];
                assert(ws@ =~= self@.words());
                put_words(out, &ws);
            },
        }
    }

    /// Appends the port configurations of the message.
    fn put_cfgs(&self, out: &mut Vec<u8>)
        ensures
            final(out)@ == old(out)@ + cfgs_le(self@.cfgs()),
    {
        match self {
            CtrlMsg::XGbeCfg { cfg, .. } => {
                put_xgbe_run(out, cfg.as_slice());
            },
            CtrlMsg::XGbeCfgSingle { cfg, .. } => {
                put_xgbe(out, cfg);
                proof {
                    lemma_cfgs_single(*cfg);
                }
            },
            CtrlMsg::XGbeCfgQueryReply { cfg, .. } => {
                put_xgbe_run(out, cfg.as_slice());
            },
            _ => {
                assert(out@ =~= old(out)@ + cfgs_le(Seq::<XGbeCfg>::empty()));
            },
        }
    }

    /// Appends the byte payload of the message.
    fn put_tail(&self, out: &mut Vec<u8>)
        ensures
            final(out)@ == old(out)@ + self@.tail(),
    {
        match self {
            CtrlMsg::InvalidMsg { description, .. } => {
                put_bytes(out, description.as_slice());
            },
            CtrlMsg::I2CScanReply { payload, .. } => {
                put_bytes(out, payload.as_slice());
            },
            CtrlMsg::I2CWrite { payload, .. } => {
                put_bytes(out, payload.as_slice());
            },
            CtrlMsg::I2CWriteReg { payload, .. } => {
                put_bytes(out, payload.as_slice());
            },
            CtrlMsg::I2CReadReply { payload, .. } => {
                put_bytes(out, payload.as_slice());
            },
            CtrlMsg::I2CReadRegReply { payload, .. } => {
                put_bytes(out, payload.as_slice());
            },
            _ => {
                assert(out@ =~= old(out)@ + Seq::<u8>::empty());
            },
        }
    }

    /// Writes the message.
    ///
    /// Fails with `LengthMismatch` exactly when a count field is not the
    /// number of elements it stands before; nothing is written then.
    pub fn encode(&self) -> (r: Result<Vec<u8>, FormatError>)
        ensures
            self@.wf() ==> r is Ok && r->Ok_0@ == self@.bytes(),
            !self@.wf() ==> r == Err::<Vec<u8>, FormatError>(FormatError::LengthMismatch),
    {
        if !self.is_wf() {
            return Err(FormatError::LengthMismatch);
        }
        let mut out: Vec<u8> = Vec::new();
        self.put_head(&mut out);
        self.put_cfgs(&mut out);
        self.put_tail(&mut out);
        assert(out@ =~= self@.bytes());
        Ok(out)
    }

    /// Reads the message at the start of `b`.
    pub fn decode(b: &[u8]) -> (r: Result<CtrlMsg, FormatError>)
        ensures
            msg_result_is(r, parse_msg(b@)),
    {
        let total: usize = b.len();
        let nw: usize = total / 4;
        if nw < 1 {
            return Err(FormatError::Truncated);
        }
        let magic: u32 = get_word(b, 0);
        let kind = match MsgKind::from_magic(magic) {
            None => {
                return Err(FormatError::UnknownMagic { magic });
            },
            Some(k) => k,
        };
        if nw < 2 {
            return Err(FormatError::Truncated);
        }
        let msg_id: u32 = get_word(b, 1);
        match kind {
            MsgKind::InvalidMsg => {
                if nw < 4 {
                    return Err(FormatError::Truncated);
                }
                let len: u32 = get_word(b, 3);
                if total - 16 < len as usize {
                    return Err(FormatError::Truncated);
                }
                let description = get_bytes(b, 16, 16 + len as usize);
                Ok(CtrlMsg::InvalidMsg { msg_id, err_code: get_word(b, 2), len, description })
            },
            MsgKind::Query => Ok(CtrlMsg::Query { msg_id }),
            MsgKind::QueryReply => {
                if nw < 7 {
                    return Err(FormatError::Truncated);
                }
                match Health::get(b, 7) {
                    Err(e) => Err(e),
                    Ok(health) => Ok(CtrlMsg::QueryReply {
                        msg_id,
                        fm_ver: get_word(b, 2),
                        tick_cnt1: get_word(b, 3),
                        tick_cnt2: get_word(b, 4),
                        trans_state: get_word(b, 5),
                        locked: get_word(b, 6),
                        health,
                    }),
                }
            },
            MsgKind::Sync => Ok(CtrlMsg::Sync { msg_id }),
            MsgKind::SyncReply => Ok(CtrlMsg::SyncReply { msg_id }),
            MsgKind::XGbeCfg => {
                if total < 136 {
                    return Err(FormatError::Truncated);
                }
                let cfg: [XGbeCfg; 4] = [
                    get_xgbe(b, 8),
                    get_xgbe(b, 40),
                    get_xgbe(b, 72),
                    get_xgbe(b, 104),
                ];
                proof {
                    let want = parse_body(kind, b@)->Ok_0;
                    assert(cfg =~= want->XGbeCfg_cfg);
                }
                Ok(CtrlMsg::XGbeCfg { msg_id, cfg })
            },
            MsgKind::XgbeCfgReply => Ok(CtrlMsg::XgbeCfgReply { msg_id }),
            MsgKind::I2CScan => Ok(CtrlMsg::I2CScan { msg_id }),
            MsgKind::I2CScanReply => {
                if nw < 3 {
                    return Err(FormatError::Truncated);
                }
                let ndev: u32 = get_word(b, 2);
                if total - 12 < ndev as usize {
                    return Err(FormatError::Truncated);
                }
                let payload = get_bytes(b, 12, 12 + ndev as usize);
                Ok(CtrlMsg::I2CScanReply { msg_id, ndev, payload })
            },
            MsgKind::I2CWrite => {
                if nw < 4 {
                    return Err(FormatError::Truncated);
                }
                let len: u32 = get_word(b, 3);
                if total - 16 < len as usize {
                    return Err(FormatError::Truncated);
                }
                let payload = get_bytes(b, 16, 16 + len as usize);
                Ok(CtrlMsg::I2CWrite { msg_id, dev_addr: get_word(b, 2), len, payload })
            },
            MsgKind::I2CWriteReply => {
                if nw < 3 {
                    return Err(FormatError::Truncated);
                }
                Ok(CtrlMsg::I2CWriteReply { msg_id, err_code: get_word(b, 2) })
            },
            MsgKind::I2CWriteReg => {
                if nw < 5 {
                    return Err(FormatError::Truncated);
                }
                let len: u32 = get_word(b, 4);
                if total - 20 < len as usize {
                    return Err(FormatError::Truncated);
                }
                let payload = get_bytes(b, 20, 20 + len as usize);
                Ok(CtrlMsg::I2CWriteReg {
                    msg_id,
                    dev_addr: get_word(b, 2),
                    reg_addr: get_word(b, 3),
                    len,
                    payload,
                })
            },
            MsgKind::I2CWriteRegReply => {
                if nw < 3 {
                    return Err(FormatError::Truncated);
                }
                Ok(CtrlMsg::I2CWriteRegReply { msg_id, err_code: get_word(b, 2) })
            },
            MsgKind::I2CRead => {
                if nw < 4 {
                    return Err(FormatError::Truncated);
                }
                Ok(CtrlMsg::I2CRead { msg_id, dev_addr: get_word(b, 2), nbytes: get_word(b, 3) })
            },
            MsgKind::I2CReadReply => {
                if nw < 4 {
                    return Err(FormatError::Truncated);
                }
                let len: u32 = get_word(b, 3);
                if total - 16 < len as usize {
                    return Err(FormatError::Truncated);
                }
                let payload = get_bytes(b, 16, 16 + len as usize);
                Ok(CtrlMsg::I2CReadReply { msg_id, err_code: get_word(b, 2), len, payload })
            },
            MsgKind::I2CReadReg => {
                if nw < 5 {
                    return Err(FormatError::Truncated);
                }
                Ok(CtrlMsg::I2CReadReg {
                    msg_id,
                    dev_addr: get_word(b, 2),
                    reg_addr: get_word(b, 3),
                    nbytes: get_word(b, 4),
                })
            },
            MsgKind::I2CReadRegReply => {
                if nw < 4 {
                    return Err(FormatError::Truncated);
                }
                let len: u32 = get_word(b, 3);
                if total - 16 < len as usize {
                    return Err(FormatError::Truncated);
                }
                let payload = get_bytes(b, 16, 16 + len as usize);
                Ok(CtrlMsg::I2CReadRegReply { msg_id, err_code: get_word(b, 2), len, payload })
            },
            MsgKind::StreamStart => Ok(CtrlMsg::StreamStart { msg_id }),
            MsgKind::StreamStartReply => Ok(CtrlMsg::StreamStartReply { msg_id }),
            MsgKind::StreamStop => Ok(CtrlMsg::StreamStop { msg_id }),
            MsgKind::StreamStopReply => Ok(CtrlMsg::StreamStopReply { msg_id }),
            MsgKind::BitShift => {
                if nw < 3 {
                    return Err(FormatError::Truncated);
                }
                Ok(CtrlMsg::BitShift { msg_id, shift_bits: get_word(b, 2) })
            },
            MsgKind::BitShiftReply => Ok(CtrlMsg::BitShiftReply { msg_id }),
            MsgKind::PwrCtrl => {
                if nw < 3 {
                    return Err(FormatError::Truncated);
                }
                Ok(CtrlMsg::PwrCtrl { msg_id, op_code: get_word(b, 2) })
            },
            MsgKind::PwrCtrlReply => Ok(CtrlMsg::PwrCtrlReply { msg_id }),
            MsgKind::Init => {
                if nw < 3 {
                    return Err(FormatError::Truncated);
                }
                Ok(CtrlMsg::Init { msg_id, reserved_zeros: get_word(b, 2) })
            },
            MsgKind::InitReply => Ok(CtrlMsg::InitReply { msg_id }),
            MsgKind::XGbeCfgSingle => {
                if total < 44 {
                    return Err(FormatError::Truncated);
                }
                Ok(CtrlMsg::XGbeCfgSingle { msg_id, port_id: get_word(b, 2), cfg: get_xgbe(b, 12) })
            },
            MsgKind::XGbeCfgSingleReply => Ok(CtrlMsg::XGbeCfgSingleReply { msg_id }),
            MsgKind::XGbeCfgQuery => Ok(CtrlMsg::XGbeCfgQuery { msg_id }),
            MsgKind::XGbeCfgQueryReply => {
                if nw < 3 {
                    return Err(FormatError::Truncated);
                }
                let nports: u32 = get_word(b, 2);
                if (total - 12) / 32 < nports as usize {
                    return Err(FormatError::Truncated);
                }
                let cfg = get_xgbe_run(b, 12, nports as usize);
                Ok(CtrlMsg::XGbeCfgQueryReply { msg_id, nports, cfg })
            },
            MsgKind::SetClk => {
                if nw < 4 {
                    return Err(FormatError::Truncated);
                }
                Ok(CtrlMsg::SetClk { msg_id, clk_src: get_word(b, 2), pps_src: get_word(b, 3) })
            },
            MsgKind::SetClkReply => {
                if nw < 3 {
                    return Err(FormatError::Truncated);
                }
                Ok(CtrlMsg::SetClkReply { msg_id, clk_state: get_word(b, 2) })
            },
            MsgKind::MixerSet => {
                if nw < 7 {
                    return Err(FormatError::Truncated);
                }
                Ok(CtrlMsg::MixerSet {
                    msg_id,
                    freq_bits: get_u64(b, 8),
                    phase_bits: get_u64(b, 16),
                    sync: get_word(b, 6),
                })
            },
            MsgKind::MixerSetReply => Ok(CtrlMsg::MixerSetReply { msg_id }),
        }
    }
}

/// Where the parts of a written message sit, whatever follows it: the words
/// in the leading slots, the port configurations behind them, the byte
/// payload last.
pub proof fn lemma_layout(m: CtrlMsgView, rest: Seq<u8>)
    ensures
        ({
            let s = m.bytes() + rest;
            let nw = m.words().len() as int;
            let nc = m.cfgs().len() as int;
            &&& s.len() == 4 * nw + 32 * nc + m.tail().len() + rest.len()
            &&& forall|i: int| 0 <= i < nw ==> #[trigger] word_at(s, i) == m.words()[i]
            &&& cfgs_at(s, 4 * nw, nc as nat) == m.cfgs()
            &&& s.subrange(4 * nw + 32 * nc, 4 * nw + 32 * nc + m.tail().len()) == m.tail()
        }),
{
    let s = m.bytes() + rest;
    let w = words_le(m.words());
    let c = cfgs_le(m.cfgs());
    lemma_pieces(w, c, m.tail(), rest);
    lemma_words_at(s, m.words());
    lemma_cfgs_at(s, w.len() as int, m.cfgs());
    lemma_holds_subrange(s, (w.len() + c.len()) as int, m.tail());
}

/// Every message starts with its magic and its identifier.
pub proof fn lemma_words_head(m: CtrlMsgView)
    ensures
        m.words().len() >= 2,
        m.words()[0] == m.magic(),
        m.words()[1] == m.msg_id(),
{
}

/// Where the fields of a written query reply sit.
proof fn lemma_query_reply_layout(
    msg_id: u32,
    fm_ver: u32,
    tick_cnt1: u32,
    tick_cnt2: u32,
    trans_state: u32,
    locked: u32,
    health: HealthView,
    rest: Seq<u8>,
)
    ensures
        ({
            let m = CtrlMsgView::QueryReply {
                msg_id,
                fm_ver,
                tick_cnt1,
                tick_cnt2,
                trans_state,
                locked,
                health,
            };
            let s = m.bytes() + rest;
            &&& s.len() >= 4 * (7 + health.words().len())
            &&& word_at(s, 0) == MAGIC_QUERY_REPLY
            &&& word_at(s, 1) == msg_id
            &&& word_at(s, 2) == fm_ver
            &&& word_at(s, 3) == tick_cnt1
            &&& word_at(s, 4) == tick_cnt2
            &&& word_at(s, 5) == trans_state
            &&& word_at(s, 6) == locked
            &&& forall|i: int|
                0 <= i < health.words().len() ==> #[trigger] word_at(s, 7 + i) == health.words()[i]
        }),
{
    let m = CtrlMsgView::QueryReply {
        msg_id,
        fm_ver,
        tick_cnt1,
        tick_cnt2,
        trans_state,
        locked,
        health,
    };
    let s = m.bytes() + rest;
    let head = seq![MAGIC_QUERY_REPLY, msg_id, fm_ver, tick_cnt1, tick_cnt2, trans_state, locked];
    let ws = head + health.words();
    assert(m.words() == ws);
    assert(m.cfgs().len() == 0);
    lemma_pieces(words_le(ws), cfgs_le(m.cfgs()), m.tail(), rest);
    assert forall|i: int| 0 <= i < ws.len() implies #[trigger] word_at(s, i) == ws[i] by {
        lemma_word_at(s, ws, i);
    }
    assert(word_at(s, 0) == ws[0]);
    assert(word_at(s, 1) == ws[1]);
    assert(word_at(s, 2) == ws[2]);
    assert(word_at(s, 3) == ws[3]);
    assert(word_at(s, 4) == ws[4]);
    assert(word_at(s, 5) == ws[5]);
    assert(word_at(s, 6) == ws[6]);
    assert forall|i: int| 0 <= i < health.words().len() implies #[trigger] word_at(s, 7 + i)
        == health.words()[i] by {
        lemma_word_at(s, ws, 7 + i);
        assert(ws[7 + i] == health.words()[i]);
    }
}

/// Reading a written query reply gives the reply again.
proof fn lemma_round_trip_query_reply(m: CtrlMsgView, rest: Seq<u8>)
    requires
        m.wf(),
        m is QueryReply,
    ensures
        parse_msg(m.bytes() + rest) == Ok::<CtrlMsgView, FormatError>(m),
{
    match m {
        CtrlMsgView::QueryReply {
            msg_id,
            fm_ver,
            tick_cnt1,
            tick_cnt2,
            trans_state,
            locked,
            health,
        } => {
            let s = m.bytes() + rest;
            lemma_query_reply_layout(
                msg_id,
                fm_ver,
                tick_cnt1,
                tick_cnt2,
                trans_state,
                locked,
                health,
                rest,
            );
            lemma_health_round_trip(s, 7, health);
            assert(MsgKind::of_magic(MAGIC_QUERY_REPLY) == Some(MsgKind::QueryReply));
            assert(parse_body(MsgKind::QueryReply, s) == Ok::<CtrlMsgView, FormatError>(m));
        },
        _ => {},
    }
}

/// Where the parts of a written message with port configurations sit.
proof fn lemma_cfgs_layout(ws: Seq<u32>, cs: Seq<XGbeCfg>, rest: Seq<u8>)
    ensures
        ({
            let s = words_le(ws) + cfgs_le(cs) + Seq::<u8>::empty() + rest;
            &&& s.len() == 4 * ws.len() + 32 * cs.len() + rest.len()
            &&& forall|i: int| 0 <= i < ws.len() ==> #[trigger] word_at(s, i) == ws[i]
            &&& cfgs_at(s, 4 * (ws.len() as int), cs.len()) == cs
        }),
{
    let s = words_le(ws) + cfgs_le(cs) + Seq::<u8>::empty() + rest;
    lemma_pieces(words_le(ws), cfgs_le(cs), Seq::<u8>::empty(), rest);
    lemma_words_at(s, ws);
    lemma_cfgs_at(s, 4 * (ws.len() as int), cs);
}

/// Reading a written four-port configuration gives it again.
proof fn lemma_round_trip_cfg4(msg_id: u32, cfg: [XGbeCfg; 4], rest: Seq<u8>)
    ensures
        parse_msg(CtrlMsgView::XGbeCfg { msg_id, cfg }.bytes() + rest) == Ok::<
            CtrlMsgView,
            FormatError,
        >(CtrlMsgView::XGbeCfg { msg_id, cfg }),
{
    let m = CtrlMsgView::XGbeCfg { msg_id, cfg };
    let s = m.bytes() + rest;
    let ws = seq![MAGIC_XGBE_CFG, msg_id];
    lemma_cfgs_layout(ws, cfg@, rest);
    assert(word_at(s, 0) == ws[0]);
    assert(word_at(s, 1) == ws[1]);
    let run = cfgs_at(s, 8, 4);
    let got = [xgbe_at(s, 8), xgbe_at(s, 40), xgbe_at(s, 72), xgbe_at(s, 104)];
    assert(got[0] == run[0]);
    assert(got[1] == run[1]);
    assert(got[2] == run[2]);
    assert(got[3] == run[3]);
    assert(got =~= cfg);
    assert(MsgKind::of_magic(MAGIC_XGBE_CFG) == Some(MsgKind::XGbeCfg));
    assert(parse_body(MsgKind::XGbeCfg, s) == Ok::<CtrlMsgView, FormatError>(
        CtrlMsgView::XGbeCfg { msg_id, cfg: got },
    ));
}

/// Reading a written single-port configuration gives it again.
proof fn lemma_round_trip_cfg1(msg_id: u32, port_id: u32, cfg: XGbeCfg, rest: Seq<u8>)
    ensures
        parse_msg(CtrlMsgView::XGbeCfgSingle { msg_id, port_id, cfg }.bytes() + rest) == Ok::<
            CtrlMsgView,
            FormatError,
        >(CtrlMsgView::XGbeCfgSingle { msg_id, port_id, cfg }),
{
    let m = CtrlMsgView::XGbeCfgSingle { msg_id, port_id, cfg };
    let s = m.bytes() + rest;
    let ws = seq![MAGIC_XGBE_CFG_SINGLE, msg_id, port_id];
    lemma_cfgs_layout(ws, seq![cfg], rest);
    assert(word_at(s, 0) == ws[0]);
    assert(word_at(s, 1) == ws[1]);
    assert(word_at(s, 2) == ws[2]);
    let run = cfgs_at(s, 12, 1);
    assert(run[0] == seq![cfg][0] && run[0] == xgbe_at(s, 12));
    assert(MsgKind::of_magic(MAGIC_XGBE_CFG_SINGLE) == Some(MsgKind::XGbeCfgSingle));
    assert(parse_body(MsgKind::XGbeCfgSingle, s) == Ok::<CtrlMsgView, FormatError>(m));
}

/// Reading a written list of port configurations gives it again.
proof fn lemma_round_trip_cfgv(msg_id: u32, nports: u32, cfg: Seq<XGbeCfg>, rest: Seq<u8>)
    requires
        nports == cfg.len(),
    ensures
        parse_msg(CtrlMsgView::XGbeCfgQueryReply { msg_id, nports, cfg }.bytes() + rest) == Ok::<
            CtrlMsgView,
            FormatError,
        >(CtrlMsgView::XGbeCfgQueryReply { msg_id, nports, cfg }),
{
    let m = CtrlMsgView::XGbeCfgQueryReply { msg_id, nports, cfg };
    let s = m.bytes() + rest;
    let ws = seq![MAGIC_XGBE_CFG_QUERY_REPLY, msg_id, nports];
    lemma_cfgs_layout(ws, cfg, rest);
    assert(word_at(s, 0) == ws[0]);
    assert(word_at(s, 1) == ws[1]);
    assert(word_at(s, 2) == ws[2]);
    assert(MsgKind::of_magic(MAGIC_XGBE_CFG_QUERY_REPLY) == Some(MsgKind::XGbeCfgQueryReply));
    assert(parse_body(MsgKind::XGbeCfgQueryReply, s) == Ok::<CtrlMsgView, FormatError>(m));
}

/// Reading a written message that carries port configurations gives the
/// message again.
proof fn lemma_round_trip_cfgs(m: CtrlMsgView, rest: Seq<u8>)
    requires
        m.wf(),
        m is XGbeCfg || m is XGbeCfgSingle || m is XGbeCfgQueryReply,
    ensures
        parse_msg(m.bytes() + rest) == Ok::<CtrlMsgView, FormatError>(m),
{
    match m {
        CtrlMsgView::XGbeCfg { msg_id, cfg } => {
            lemma_round_trip_cfg4(msg_id, cfg, rest);
        },
        CtrlMsgView::XGbeCfgSingle { msg_id, port_id, cfg } => {
            lemma_round_trip_cfg1(msg_id, port_id, cfg, rest);
        },
        CtrlMsgView::XGbeCfgQueryReply { msg_id, nports, cfg } => {
            lemma_round_trip_cfgv(msg_id, nports, cfg, rest);
        },
        _ => {},
    }
}

/// Reading a written message that ends in a byte payload gives the message
/// again.
proof fn lemma_round_trip_payload(m: CtrlMsgView, rest: Seq<u8>)
    requires
        m.wf(),
        m is InvalidMsg || m is I2CScanReply || m is I2CWrite || m is I2CWriteReg
            || m is I2CReadReply || m is I2CReadRegReply,
    ensures
        parse_msg(m.bytes() + rest) == Ok::<CtrlMsgView, FormatError>(m),
{
    let s = m.bytes() + rest;
    lemma_layout(m, rest);
    assert(word_at(s, 0) == m.words()[0]);
    assert(word_at(s, 1) == m.words()[1]);
    assert(word_at(s, 2) == m.words()[2]);
    if m is I2CWriteReg {
        assert(word_at(s, 3) == m.words()[3]);
        assert(word_at(s, 4) == m.words()[4]);
    } else if !(m is I2CScanReply) {
        assert(word_at(s, 3) == m.words()[3]);
    }
}

/// Reading a written message made of words alone gives the message again.
proof fn lemma_round_trip_words(m: CtrlMsgView, rest: Seq<u8>)
    requires
        !(m is QueryReply),
        m.cfgs().len() == 0,
        m.tail().len() == 0,
        !(m is InvalidMsg || m is I2CScanReply || m is I2CWrite || m is I2CWriteReg
            || m is I2CReadReply || m is I2CReadRegReply),
        !(m is XGbeCfg || m is XGbeCfgSingle || m is XGbeCfgQueryReply),
    ensures
        parse_msg(m.bytes() + rest) == Ok::<CtrlMsgView, FormatError>(m),
{
    let s = m.bytes() + rest;
    lemma_layout(m, rest);
    assert(word_at(s, 0) == m.words()[0]);
    assert(word_at(s, 1) == m.words()[1]);
    if m.words().len() > 2 {
        assert(word_at(s, 2) == m.words()[2]);
    }
    if m.words().len() > 3 {
        assert(word_at(s, 3) == m.words()[3]);
    }
    if m.words().len() > 4 {
        assert(word_at(s, 4) == m.words()[4]);
    }
    if m is MixerSet {
        assert(word_at(s, 5) == m.words()[5]);
        assert(word_at(s, 6) == m.words()[6]);
        lemma_join64(m->freq_bits);
        lemma_join64(m->phase_bits);
    }
}

/// Reading what was written gives the message again, whatever follows it in
/// the buffer. This holds of every message whose count fields are right,
/// empty payloads included.
pub proof fn lemma_round_trip(m: CtrlMsgView, rest: Seq<u8>)
    requires
        m.wf(),
    ensures
        parse_msg(m.bytes() + rest) == Ok::<CtrlMsgView, FormatError>(m),
{
    if m is QueryReply {
        lemma_round_trip_query_reply(m, rest);
    } else if m is XGbeCfg || m is XGbeCfgSingle || m is XGbeCfgQueryReply {
        lemma_round_trip_cfgs(m, rest);
    } else if m is InvalidMsg || m is I2CScanReply || m is I2CWrite || m is I2CWriteReg
        || m is I2CReadReply || m is I2CReadRegReply {
        lemma_round_trip_payload(m, rest);
    } else {
        lemma_round_trip_words(m, rest);
    }
}

/// Reading exactly what was written gives the message again.
pub proof fn lemma_decode_encode(m: CtrlMsgView)
    requires
        m.wf(),
    ensures
        parse_msg(m.bytes()) == Ok::<CtrlMsgView, FormatError>(m),
{
    lemma_round_trip(m, Seq::empty());
    assert(m.bytes() + Seq::<u8>::empty() =~= m.bytes());
}

/// A buffer whose first word is the magic of no variant is never read as a
/// message: the result is the error that names the word.
pub proof fn lemma_unknown_magic(s: Seq<u8>)
    requires
        s.len() >= 4,
        forall|k: MsgKind| k.spec_magic() != word_at(s, 0),
    ensures
        parse_msg(s) == Err::<CtrlMsgView, FormatError>(
            FormatError::UnknownMagic { magic: word_at(s, 0) },
        ),
{
    let magic = word_at(s, 0);
    if MsgKind::of_magic(magic) is Some {
        let k = MsgKind::of_magic(magic)->Some_0;
        assert(k.spec_magic() == magic);
    }
}

/// What is read is a message of the variant that the first word stands for,
/// under the identifier in the second word.
pub proof fn lemma_parse_kind(s: Seq<u8>)
    requires
        parse_msg(s) is Ok,
    ensures
        MsgKind::of_magic(word_at(s, 0)) == Some(parse_msg(s)->Ok_0.kind()),
        parse_msg(s)->Ok_0.msg_id() == word_at(s, 1),
        parse_msg(s)->Ok_0.wf(),
{
    let m = parse_msg(s)->Ok_0;
    if m is QueryReply {
        lemma_parse_health_wf(s, 7);
    }
}

/// A written message starts with its magic and its identifier.
pub proof fn lemma_bytes_head(m: CtrlMsgView)
    ensures
        m.bytes().len() >= 8,
        word_at(m.bytes(), 0) == m.magic(),
        word_at(m.bytes(), 1) == m.msg_id(),
{
    let ws = m.words();
    let s = m.bytes();
    lemma_words_head(m);
    lemma_pieces(words_le(ws), cfgs_le(m.cfgs()), m.tail(), Seq::empty());
    assert(words_le(ws) + cfgs_le(m.cfgs()) + m.tail() + Seq::<u8>::empty() =~= s);
    lemma_word_at(s, ws, 0);
    lemma_word_at(s, ws, 1);
}

} // verus!
