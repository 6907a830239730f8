//! The control messages and their discriminants.
//!
//! Every message starts with a 32-bit magic that tells its variant, followed
//! by the identifier that pairs a reply with its request. Requests use small
//! magics; a reply repeats the low bits of its request under a `0xff` top
//! byte.

use vstd::prelude::*;
use crate::health::{HealthView, MAGIC_HL_HEALTH, MAGIC_T510_HEALTH, MAGIC_TE_HEALTH};

pub use crate::dispatch::CmdReplySummary;
pub use crate::health::Health;
pub use crate::xgbe::XGbeCfg;

verus! {

/// Magic of `InvalidMsg`.
pub const MAGIC_INVALID_MSG: u32 = 0xffff_ffff;

/// Magic of `Query`.
pub const MAGIC_QUERY: u32 = 0x0000_0001;

/// Magic of `QueryReply`.
pub const MAGIC_QUERY_REPLY: u32 = 0xff00_0001;

/// Magic of `Sync`.
pub const MAGIC_SYNC: u32 = 0x0000_0002;

/// Magic of `SyncReply`.
pub const MAGIC_SYNC_REPLY: u32 = 0xff00_0002;

/// Magic of `XGbeCfg`.
pub const MAGIC_XGBE_CFG: u32 = 0x0000_0003;

/// Magic of `XgbeCfgReply`.
pub const MAGIC_XGBE_CFG_REPLY: u32 = 0xff00_0003;

/// Magic of `I2CScan`.
pub const MAGIC_I2C_SCAN: u32 = 0x0000_0004;

/// Magic of `I2CScanReply`.
pub const MAGIC_I2C_SCAN_REPLY: u32 = 0xff00_0004;

/// Magic of `I2CWrite`.
pub const MAGIC_I2C_WRITE: u32 = 0x0000_0104;

/// Magic of `I2CWriteReply`.
pub const MAGIC_I2C_WRITE_REPLY: u32 = 0xff00_0104;

/// Magic of `I2CWriteReg`.
pub const MAGIC_I2C_WRITE_REG: u32 = 0x0000_0204;

/// Magic of `I2CWriteRegReply`.
pub const MAGIC_I2C_WRITE_REG_REPLY: u32 = 0xff00_0204;

/// Magic of `I2CRead`.
pub const MAGIC_I2C_READ: u32 = 0x0000_0304;

/// Magic of `I2CReadReply`.
pub const MAGIC_I2C_READ_REPLY: u32 = 0xff00_0304;

/// Magic of `I2CReadReg`.
pub const MAGIC_I2C_READ_REG: u32 = 0x0000_0404;

/// Magic of `I2CReadRegReply`.
pub const MAGIC_I2C_READ_REG_REPLY: u32 = 0xff00_0404;

/// Magic of `StreamStart`.
pub const MAGIC_STREAM_START: u32 = 0x0000_0105;

/// Magic of `StreamStartReply`.
pub const MAGIC_STREAM_START_REPLY: u32 = 0xff00_0105;

/// Magic of `StreamStop`.
pub const MAGIC_STREAM_STOP: u32 = 0x0000_0205;

/// Magic of `StreamStopReply`.
pub const MAGIC_STREAM_STOP_REPLY: u32 = 0xff00_0205;

/// Magic of `BitShift`.
pub const MAGIC_BIT_SHIFT: u32 = 0x0000_0006;

/// Magic of `BitShiftReply`.
pub const MAGIC_BIT_SHIFT_REPLY: u32 = 0xff00_0006;

/// Magic of `PwrCtrl`.
pub const MAGIC_PWR_CTRL: u32 = 0x0000_0007;

/// Magic of `PwrCtrlReply`.
pub const MAGIC_PWR_CTRL_REPLY: u32 = 0xff00_0007;

/// Magic of `Init`.
pub const MAGIC_INIT: u32 = 0x0000_0008;

/// Magic of `InitReply`.
pub const MAGIC_INIT_REPLY: u32 = 0xff00_0008;

/// Magic of `XGbeCfgSingle`.
pub const MAGIC_XGBE_CFG_SINGLE: u32 = 0x0000_000a;

/// Magic of `XGbeCfgSingleReply`.
pub const MAGIC_XGBE_CFG_SINGLE_REPLY: u32 = 0xff00_000a;

/// Magic of `XGbeCfgQuery`.
pub const MAGIC_XGBE_CFG_QUERY: u32 = 0x0000_000b;

/// Magic of `XGbeCfgQueryReply`.
pub const MAGIC_XGBE_CFG_QUERY_REPLY: u32 = 0xff00_000b;

/// Magic of `SetClk`.
pub const MAGIC_SET_CLK: u32 = 0x0000_000c;

/// Magic of `SetClkReply`.
pub const MAGIC_SET_CLK_REPLY: u32 = 0xff00_000c;

/// Magic of `MixerSet`.
pub const MAGIC_MIXER_SET: u32 = 0x0000_000d;

/// Magic of `MixerSetReply`.
pub const MAGIC_MIXER_SET_REPLY: u32 = 0xff00_000d;

/// The variant of a control message, without its fields.
#[derive(Clone, Copy, Debug, PartialEq, Eq, Structural)]
pub enum MsgKind {
    InvalidMsg,
    Query,
    QueryReply,
    Sync,
    SyncReply,
    XGbeCfg,
    XgbeCfgReply,
    I2CScan,
    I2CScanReply,
    I2CWrite,
    I2CWriteReply,
    I2CWriteReg,
    I2CWriteRegReply,
    I2CRead,
    I2CReadReply,
    I2CReadReg,
    I2CReadRegReply,
    StreamStart,
    StreamStartReply,
    StreamStop,
    StreamStopReply,
    BitShift,
    BitShiftReply,
    PwrCtrl,
    PwrCtrlReply,
    Init,
    InitReply,
    XGbeCfgSingle,
    XGbeCfgSingleReply,
    XGbeCfgQuery,
    XGbeCfgQueryReply,
    SetClk,
    SetClkReply,
    MixerSet,
    MixerSetReply,
}

impl MsgKind {
    /// The magic that stands for this variant on the wire.
    pub open spec fn spec_magic(self) -> u32 {
        match self {
            MsgKind::InvalidMsg => MAGIC_INVALID_MSG,
            MsgKind::Query => MAGIC_QUERY,
            MsgKind::QueryReply => MAGIC_QUERY_REPLY,
            MsgKind::Sync => MAGIC_SYNC,
            MsgKind::SyncReply => MAGIC_SYNC_REPLY,
            MsgKind::XGbeCfg => MAGIC_XGBE_CFG,
            MsgKind::XgbeCfgReply => MAGIC_XGBE_CFG_REPLY,
            MsgKind::I2CScan => MAGIC_I2C_SCAN,
            MsgKind::I2CScanReply => MAGIC_I2C_SCAN_REPLY,
            MsgKind::I2CWrite => MAGIC_I2C_WRITE,
            MsgKind::I2CWriteReply => MAGIC_I2C_WRITE_REPLY,
            MsgKind::I2CWriteReg => MAGIC_I2C_WRITE_REG,
            MsgKind::I2CWriteRegReply => MAGIC_I2C_WRITE_REG_REPLY,
            MsgKind::I2CRead => MAGIC_I2C_READ,
            MsgKind::I2CReadReply => MAGIC_I2C_READ_REPLY,
            MsgKind::I2CReadReg => MAGIC_I2C_READ_REG,
            MsgKind::I2CReadRegReply => MAGIC_I2C_READ_REG_REPLY,
            MsgKind::StreamStart => MAGIC_STREAM_START,
            MsgKind::StreamStartReply => MAGIC_STREAM_START_REPLY,
            MsgKind::StreamStop => MAGIC_STREAM_STOP,
            MsgKind::StreamStopReply => MAGIC_STREAM_STOP_REPLY,
            MsgKind::BitShift => MAGIC_BIT_SHIFT,
            MsgKind::BitShiftReply => MAGIC_BIT_SHIFT_REPLY,
            MsgKind::PwrCtrl => MAGIC_PWR_CTRL,
            MsgKind::PwrCtrlReply => MAGIC_PWR_CTRL_REPLY,
            MsgKind::Init => MAGIC_INIT,
            MsgKind::InitReply => MAGIC_INIT_REPLY,
            MsgKind::XGbeCfgSingle => MAGIC_XGBE_CFG_SINGLE,
            MsgKind::XGbeCfgSingleReply => MAGIC_XGBE_CFG_SINGLE_REPLY,
            MsgKind::XGbeCfgQuery => MAGIC_XGBE_CFG_QUERY,
            MsgKind::XGbeCfgQueryReply => MAGIC_XGBE_CFG_QUERY_REPLY,
            MsgKind::SetClk => MAGIC_SET_CLK,
            MsgKind::SetClkReply => MAGIC_SET_CLK_REPLY,
            MsgKind::MixerSet => MAGIC_MIXER_SET,
            MsgKind::MixerSetReply => MAGIC_MIXER_SET_REPLY,
        }
    }

    /// The variant that `magic` stands for, if any.
    pub open spec fn of_magic(magic: u32) -> Option<MsgKind> {
        if magic == MAGIC_INVALID_MSG {
            Some(MsgKind::InvalidMsg)
        } else if magic == MAGIC_QUERY {
            Some(MsgKind::Query)
        } else if magic == MAGIC_QUERY_REPLY {
            Some(MsgKind::QueryReply)
        } else if magic == MAGIC_SYNC {
            Some(MsgKind::Sync)
        } else if magic == MAGIC_SYNC_REPLY {
            Some(MsgKind::SyncReply)
        } else if magic == MAGIC_XGBE_CFG {
            Some(MsgKind::XGbeCfg)
        } else if magic == MAGIC_XGBE_CFG_REPLY {
            Some(MsgKind::XgbeCfgReply)
        } else if magic == MAGIC_I2C_SCAN {
            Some(MsgKind::I2CScan)
        } else if magic == MAGIC_I2C_SCAN_REPLY {
            Some(MsgKind::I2CScanReply)
        } else if magic == MAGIC_I2C_WRITE {
            Some(MsgKind::I2CWrite)
        } else if magic == MAGIC_I2C_WRITE_REPLY {
            Some(MsgKind::I2CWriteReply)
        } else if magic == MAGIC_I2C_WRITE_REG {
            Some(MsgKind::I2CWriteReg)
        } else if magic == MAGIC_I2C_WRITE_REG_REPLY {
            Some(MsgKind::I2CWriteRegReply)
        } else if magic == MAGIC_I2C_READ {
            Some(MsgKind::I2CRead)
        } else if magic == MAGIC_I2C_READ_REPLY {
            Some(MsgKind::I2CReadReply)
        } else if magic == MAGIC_I2C_READ_REG {
            Some(MsgKind::I2CReadReg)
        } else if magic == MAGIC_I2C_READ_REG_REPLY {
            Some(MsgKind::I2CReadRegReply)
        } else if magic == MAGIC_STREAM_START {
            Some(MsgKind::StreamStart)
        } else if magic == MAGIC_STREAM_START_REPLY {
            Some(MsgKind::StreamStartReply)
        } else if magic == MAGIC_STREAM_STOP {
            Some(MsgKind::StreamStop)
        } else if magic == MAGIC_STREAM_STOP_REPLY {
            Some(MsgKind::StreamStopReply)
        } else if magic == MAGIC_BIT_SHIFT {
            Some(MsgKind::BitShift)
        } else if magic == MAGIC_BIT_SHIFT_REPLY {
            Some(MsgKind::BitShiftReply)
        } else if magic == MAGIC_PWR_CTRL {
            Some(MsgKind::PwrCtrl)
        } else if magic == MAGIC_PWR_CTRL_REPLY {
            Some(MsgKind::PwrCtrlReply)
        } else if magic == MAGIC_INIT {
            Some(MsgKind::Init)
        } else if magic == MAGIC_INIT_REPLY {
            Some(MsgKind::InitReply)
        } else if magic == MAGIC_XGBE_CFG_SINGLE {
            Some(MsgKind::XGbeCfgSingle)
        } else if magic == MAGIC_XGBE_CFG_SINGLE_REPLY {
            Some(MsgKind::XGbeCfgSingleReply)
        } else if magic == MAGIC_XGBE_CFG_QUERY {
            Some(MsgKind::XGbeCfgQuery)
        } else if magic == MAGIC_XGBE_CFG_QUERY_REPLY {
            Some(MsgKind::XGbeCfgQueryReply)
        } else if magic == MAGIC_SET_CLK {
            Some(MsgKind::SetClk)
        } else if magic == MAGIC_SET_CLK_REPLY {
            Some(MsgKind::SetClkReply)
        } else if magic == MAGIC_MIXER_SET {
            Some(MsgKind::MixerSet)
        } else if magic == MAGIC_MIXER_SET_REPLY {
            Some(MsgKind::MixerSetReply)
        } else {
            None
        }
    }

    /// Whether a device sends this variant in answer to a request.
    pub open spec fn spec_is_reply(self) -> bool {
        self.spec_magic() >= 0xff00_0000
    }

    /// The magic that stands for this variant on the wire.
    #[verifier::when_used_as_spec(spec_magic)]
    pub fn magic(self) -> (m: u32)
        ensures
            m == self.spec_magic(),
    {
        match self {
            MsgKind::InvalidMsg => MAGIC_INVALID_MSG,
            MsgKind::Query => MAGIC_QUERY,
            MsgKind::QueryReply => MAGIC_QUERY_REPLY,
            MsgKind::Sync => MAGIC_SYNC,
            MsgKind::SyncReply => MAGIC_SYNC_REPLY,
            MsgKind::XGbeCfg => MAGIC_XGBE_CFG,
            MsgKind::XgbeCfgReply => MAGIC_XGBE_CFG_REPLY,
            MsgKind::I2CScan => MAGIC_I2C_SCAN,
            MsgKind::I2CScanReply => MAGIC_I2C_SCAN_REPLY,
            MsgKind::I2CWrite => MAGIC_I2C_WRITE,
            MsgKind::I2CWriteReply => MAGIC_I2C_WRITE_REPLY,
            MsgKind::I2CWriteReg => MAGIC_I2C_WRITE_REG,
            MsgKind::I2CWriteRegReply => MAGIC_I2C_WRITE_REG_REPLY,
            MsgKind::I2CRead => MAGIC_I2C_READ,
            MsgKind::I2CReadReply => MAGIC_I2C_READ_REPLY,
            MsgKind::I2CReadReg => MAGIC_I2C_READ_REG,
            MsgKind::I2CReadRegReply => MAGIC_I2C_READ_REG_REPLY,
            MsgKind::StreamStart => MAGIC_STREAM_START,
            MsgKind::StreamStartReply => MAGIC_STREAM_START_REPLY,
            MsgKind::StreamStop => MAGIC_STREAM_STOP,
            MsgKind::StreamStopReply => MAGIC_STREAM_STOP_REPLY,
            MsgKind::BitShift => MAGIC_BIT_SHIFT,
            MsgKind::BitShiftReply => MAGIC_BIT_SHIFT_REPLY,
            MsgKind::PwrCtrl => MAGIC_PWR_CTRL,
            MsgKind::PwrCtrlReply => MAGIC_PWR_CTRL_REPLY,
            MsgKind::Init => MAGIC_INIT,
            MsgKind::InitReply => MAGIC_INIT_REPLY,
            MsgKind::XGbeCfgSingle => MAGIC_XGBE_CFG_SINGLE,
            MsgKind::XGbeCfgSingleReply => MAGIC_XGBE_CFG_SINGLE_REPLY,
            MsgKind::XGbeCfgQuery => MAGIC_XGBE_CFG_QUERY,
            MsgKind::XGbeCfgQueryReply => MAGIC_XGBE_CFG_QUERY_REPLY,
            MsgKind::SetClk => MAGIC_SET_CLK,
            MsgKind::SetClkReply => MAGIC_SET_CLK_REPLY,
            MsgKind::MixerSet => MAGIC_MIXER_SET,
            MsgKind::MixerSetReply => MAGIC_MIXER_SET_REPLY,
        }
    }

    /// The variant that `magic` stands for; `None` when it stands for none.
    pub fn from_magic(magic: u32) -> (r: Option<MsgKind>)
        ensures
            r == MsgKind::of_magic(magic),
    {
        if magic == MAGIC_INVALID_MSG {
            Some(MsgKind::InvalidMsg)
        } else if magic == MAGIC_QUERY {
            Some(MsgKind::Query)
        } else if magic == MAGIC_QUERY_REPLY {
            Some(MsgKind::QueryReply)
        } else if magic == MAGIC_SYNC {
            Some(MsgKind::Sync)
        } else if magic == MAGIC_SYNC_REPLY {
            Some(MsgKind::SyncReply)
        } else if magic == MAGIC_XGBE_CFG {
            Some(MsgKind::XGbeCfg)
        } else if magic == MAGIC_XGBE_CFG_REPLY {
            Some(MsgKind::XgbeCfgReply)
        } else if magic == MAGIC_I2C_SCAN {
            Some(MsgKind::I2CScan)
        } else if magic == MAGIC_I2C_SCAN_REPLY {
            Some(MsgKind::I2CScanReply)
        } else if magic == MAGIC_I2C_WRITE {
            Some(MsgKind::I2CWrite)
        } else if magic == MAGIC_I2C_WRITE_REPLY {
            Some(MsgKind::I2CWriteReply)
        } else if magic == MAGIC_I2C_WRITE_REG {
            Some(MsgKind::I2CWriteReg)
        } else if magic == MAGIC_I2C_WRITE_REG_REPLY {
            Some(MsgKind::I2CWriteRegReply)
        } else if magic == MAGIC_I2C_READ {
            Some(MsgKind::I2CRead)
        } else if magic == MAGIC_I2C_READ_REPLY {
            Some(MsgKind::I2CReadReply)
        } else if magic == MAGIC_I2C_READ_REG {
            Some(MsgKind::I2CReadReg)
        } else if magic == MAGIC_I2C_READ_REG_REPLY {
            Some(MsgKind::I2CReadRegReply)
        } else if magic == MAGIC_STREAM_START {
            Some(MsgKind::StreamStart)
        } else if magic == MAGIC_STREAM_START_REPLY {
            Some(MsgKind::StreamStartReply)
        } else if magic == MAGIC_STREAM_STOP {
            Some(MsgKind::StreamStop)
        } else if magic == MAGIC_STREAM_STOP_REPLY {
            Some(MsgKind::StreamStopReply)
        } else if magic == MAGIC_BIT_SHIFT {
            Some(MsgKind::BitShift)
        } else if magic == MAGIC_BIT_SHIFT_REPLY {
            Some(MsgKind::BitShiftReply)
        } else if magic == MAGIC_PWR_CTRL {
            Some(MsgKind::PwrCtrl)
        } else if magic == MAGIC_PWR_CTRL_REPLY {
            Some(MsgKind::PwrCtrlReply)
        } else if magic == MAGIC_INIT {
            Some(MsgKind::Init)
        } else if magic == MAGIC_INIT_REPLY {
            Some(MsgKind::InitReply)
        } else if magic == MAGIC_XGBE_CFG_SINGLE {
            Some(MsgKind::XGbeCfgSingle)
        } else if magic == MAGIC_XGBE_CFG_SINGLE_REPLY {
            Some(MsgKind::XGbeCfgSingleReply)
        } else if magic == MAGIC_XGBE_CFG_QUERY {
            Some(MsgKind::XGbeCfgQuery)
        } else if magic == MAGIC_XGBE_CFG_QUERY_REPLY {
            Some(MsgKind::XGbeCfgQueryReply)
        } else if magic == MAGIC_SET_CLK {
            Some(MsgKind::SetClk)
        } else if magic == MAGIC_SET_CLK_REPLY {
            Some(MsgKind::SetClkReply)
        } else if magic == MAGIC_MIXER_SET {
            Some(MsgKind::MixerSet)
        } else if magic == MAGIC_MIXER_SET_REPLY {
            Some(MsgKind::MixerSetReply)
        } else {
            None
        }
    }

    /// Whether a device sends this variant in answer to a request.
    #[verifier::when_used_as_spec(spec_is_reply)]
    pub fn is_reply(self) -> (b: bool)
        ensures
            b == self.spec_is_reply(),
    {
        self.magic() >= 0xff00_0000
    }
}

/// A control message: a request to a device or its reply.
#[derive(Clone, Debug, PartialEq, Eq)]
#[allow(inconsistent_fields)]
pub enum CtrlMsg {
    /// Error reply: the device could not make sense of a request.
    InvalidMsg { msg_id: u32, err_code: u32, len: u32, description: Vec<u8> },
    /// Asks a device for its identity and status.
    Query { msg_id: u32 },
    /// Identity, tick counters, lock state and health of a device.
    QueryReply {
        msg_id: u32,
        fm_ver: u32,
        tick_cnt1: u32,
        tick_cnt2: u32,
        trans_state: u32,
        locked: u32,
        health: Health,
    },
    /// Asks a device to synchronise.
    Sync { msg_id: u32 },
    /// Acknowledges `Sync`.
    SyncReply { msg_id: u32 },
    /// Sets the endpoints of all four streaming ports.
    XGbeCfg { msg_id: u32, cfg: [XGbeCfg; 4] },
    /// Acknowledges `XGbeCfg`.
    XgbeCfgReply { msg_id: u32 },
    /// Asks for the addresses that answer on the I2C bus.
    I2CScan { msg_id: u32 },
    /// The addresses that answered on the I2C bus.
    I2CScanReply { msg_id: u32, ndev: u32, payload: Vec<u8> },
    /// Writes bytes to an I2C device.
    I2CWrite { msg_id: u32, dev_addr: u32, len: u32, payload: Vec<u8> },
    /// Outcome of `I2CWrite`.
    I2CWriteReply { msg_id: u32, err_code: u32 },
    /// Writes bytes to a register of an I2C device.
    I2CWriteReg { msg_id: u32, dev_addr: u32, reg_addr: u32, len: u32, payload: Vec<u8> },
    /// Outcome of `I2CWriteReg`.
    I2CWriteRegReply { msg_id: u32, err_code: u32 },
    /// Reads bytes from an I2C device.
    I2CRead { msg_id: u32, dev_addr: u32, nbytes: u32 },
    /// The bytes that `I2CRead` asked for.
    I2CReadReply { msg_id: u32, err_code: u32, len: u32, payload: Vec<u8> },
    /// Reads bytes from a register of an I2C device.
    I2CReadReg { msg_id: u32, dev_addr: u32, reg_addr: u32, nbytes: u32 },
    /// The bytes that `I2CReadReg` asked for.
    I2CReadRegReply { msg_id: u32, err_code: u32, len: u32, payload: Vec<u8> },
    /// Starts the telemetry stream.
    StreamStart { msg_id: u32 },
    /// Acknowledges `StreamStart`.
    StreamStartReply { msg_id: u32 },
    /// Stops the telemetry stream.
    StreamStop { msg_id: u32 },
    /// Acknowledges `StreamStop`.
    StreamStopReply { msg_id: u32 },
    /// Sets the sample bit shift.
    BitShift { msg_id: u32, shift_bits: u32 },
    /// Acknowledges `BitShift`.
    BitShiftReply { msg_id: u32 },
    /// Switches device power.
    PwrCtrl { msg_id: u32, op_code: u32 },
    /// Acknowledges `PwrCtrl`.
    PwrCtrlReply { msg_id: u32 },
    /// Initialises the device.
    Init { msg_id: u32, reserved_zeros: u32 },
    /// Acknowledges `Init`.
    InitReply { msg_id: u32 },
    /// Sets the endpoints of one streaming port.
    XGbeCfgSingle { msg_id: u32, port_id: u32, cfg: XGbeCfg },
    /// Acknowledges `XGbeCfgSingle`.
    XGbeCfgSingleReply { msg_id: u32 },
    /// Asks for the endpoints of the streaming ports.
    XGbeCfgQuery { msg_id: u32 },
    /// The endpoints of the streaming ports.
    XGbeCfgQueryReply { msg_id: u32, nports: u32, cfg: Vec<XGbeCfg> },
    /// Selects the clock and PPS sources.
    SetClk { msg_id: u32, clk_src: u32, pps_src: u32 },
    /// Clock state after `SetClk`.
    SetClkReply { msg_id: u32, clk_state: u32 },
    /// Tunes the mixer; frequency and phase are IEEE 754 double precision bit patterns.
    MixerSet { msg_id: u32, freq_bits: u64, phase_bits: u64, sync: u32 },
    /// Acknowledges `MixerSet`.
    MixerSetReply { msg_id: u32 },
}

/// Mathematical content of a [`CtrlMsg`].
#[allow(inconsistent_fields)]
pub enum CtrlMsgView {
    InvalidMsg { msg_id: u32, err_code: u32, len: u32, description: Seq<u8> },
    Query { msg_id: u32 },
    QueryReply {
        msg_id: u32,
        fm_ver: u32,
        tick_cnt1: u32,
        tick_cnt2: u32,
        trans_state: u32,
        locked: u32,
        health: HealthView,
    },
    Sync { msg_id: u32 },
    SyncReply { msg_id: u32 },
    XGbeCfg { msg_id: u32, cfg: [XGbeCfg; 4] },
    XgbeCfgReply { msg_id: u32 },
    I2CScan { msg_id: u32 },
    I2CScanReply { msg_id: u32, ndev: u32, payload: Seq<u8> },
    I2CWrite { msg_id: u32, dev_addr: u32, len: u32, payload: Seq<u8> },
    I2CWriteReply { msg_id: u32, err_code: u32 },
    I2CWriteReg { msg_id: u32, dev_addr: u32, reg_addr: u32, len: u32, payload: Seq<u8> },
    I2CWriteRegReply { msg_id: u32, err_code: u32 },
    I2CRead { msg_id: u32, dev_addr: u32, nbytes: u32 },
    I2CReadReply { msg_id: u32, err_code: u32, len: u32, payload: Seq<u8> },
    I2CReadReg { msg_id: u32, dev_addr: u32, reg_addr: u32, nbytes: u32 },
    I2CReadRegReply { msg_id: u32, err_code: u32, len: u32, payload: Seq<u8> },
    StreamStart { msg_id: u32 },
    StreamStartReply { msg_id: u32 },
    StreamStop { msg_id: u32 },
    StreamStopReply { msg_id: u32 },
    BitShift { msg_id: u32, shift_bits: u32 },
    BitShiftReply { msg_id: u32 },
    PwrCtrl { msg_id: u32, op_code: u32 },
    PwrCtrlReply { msg_id: u32 },
    Init { msg_id: u32, reserved_zeros: u32 },
    InitReply { msg_id: u32 },
    XGbeCfgSingle { msg_id: u32, port_id: u32, cfg: XGbeCfg },
    XGbeCfgSingleReply { msg_id: u32 },
    XGbeCfgQuery { msg_id: u32 },
    XGbeCfgQueryReply { msg_id: u32, nports: u32, cfg: Seq<XGbeCfg> },
    SetClk { msg_id: u32, clk_src: u32, pps_src: u32 },
    SetClkReply { msg_id: u32, clk_state: u32 },
    MixerSet { msg_id: u32, freq_bits: u64, phase_bits: u64, sync: u32 },
    MixerSetReply { msg_id: u32 },
}

impl View for CtrlMsg {
    type V = CtrlMsgView;

    open spec fn view(&self) -> CtrlMsgView {
        match *self {
            CtrlMsg::InvalidMsg {
                msg_id,
                err_code,
                len,
                description,
            } => CtrlMsgView::InvalidMsg {
                msg_id,
                err_code,
                len,
                description: description@,
            },
            CtrlMsg::Query { msg_id } => CtrlMsgView::Query { msg_id },
            CtrlMsg::QueryReply {
                msg_id,
                fm_ver,
                tick_cnt1,
                tick_cnt2,
                trans_state,
                locked,
                health,
            } => CtrlMsgView::QueryReply {
                msg_id,
                fm_ver,
                tick_cnt1,
                tick_cnt2,
                trans_state,
                locked,
                health: health@,
            },
            CtrlMsg::Sync { msg_id } => CtrlMsgView::Sync { msg_id },
            CtrlMsg::SyncReply { msg_id } => CtrlMsgView::SyncReply { msg_id },
            CtrlMsg::XGbeCfg { msg_id, cfg } => CtrlMsgView::XGbeCfg { msg_id, cfg },
            CtrlMsg::XgbeCfgReply { msg_id } => CtrlMsgView::XgbeCfgReply { msg_id },
            CtrlMsg::I2CScan { msg_id } => CtrlMsgView::I2CScan { msg_id },
            CtrlMsg::I2CScanReply { msg_id, ndev, payload } => CtrlMsgView::I2CScanReply {
                msg_id,
                ndev,
                payload: payload@,
            },
            CtrlMsg::I2CWrite { msg_id, dev_addr, len, payload } => CtrlMsgView::I2CWrite {
                msg_id,
                dev_addr,
                len,
                payload: payload@,
            },
            CtrlMsg::I2CWriteReply { msg_id, err_code } => CtrlMsgView::I2CWriteReply {
                msg_id,
                err_code,
            },
            CtrlMsg::I2CWriteReg {
                msg_id,
                dev_addr,
                reg_addr,
                len,
                payload,
            } => CtrlMsgView::I2CWriteReg {
                msg_id,
                dev_addr,
                reg_addr,
                len,
                payload: payload@,
            },
            CtrlMsg::I2CWriteRegReply { msg_id, err_code } => CtrlMsgView::I2CWriteRegReply {
                msg_id,
                err_code,
            },
            CtrlMsg::I2CRead { msg_id, dev_addr, nbytes } => CtrlMsgView::I2CRead {
                msg_id,
                dev_addr,
                nbytes,
            },
            CtrlMsg::I2CReadReply {
                msg_id,
                err_code,
                len,
                payload,
            } => CtrlMsgView::I2CReadReply {
                msg_id,
                err_code,
                len,
                payload: payload@,
            },
            CtrlMsg::I2CReadReg {
                msg_id,
                dev_addr,
                reg_addr,
                nbytes,
            } => CtrlMsgView::I2CReadReg {
                msg_id,
                dev_addr,
                reg_addr,
                nbytes,
            },
            CtrlMsg::I2CReadRegReply {
                msg_id,
                err_code,
                len,
                payload,
            } => CtrlMsgView::I2CReadRegReply {
                msg_id,
                err_code,
                len,
                payload: payload@,
            },
            CtrlMsg::StreamStart { msg_id } => CtrlMsgView::StreamStart { msg_id },
            CtrlMsg::StreamStartReply { msg_id } => CtrlMsgView::StreamStartReply { msg_id },
            CtrlMsg::StreamStop { msg_id } => CtrlMsgView::StreamStop { msg_id },
            CtrlMsg::StreamStopReply { msg_id } => CtrlMsgView::StreamStopReply { msg_id },
            CtrlMsg::BitShift { msg_id, shift_bits } => CtrlMsgView::BitShift {
                msg_id,
                shift_bits,
            },
            CtrlMsg::BitShiftReply { msg_id } => CtrlMsgView::BitShiftReply { msg_id },
            CtrlMsg::PwrCtrl { msg_id, op_code } => CtrlMsgView::PwrCtrl { msg_id, op_code },
            CtrlMsg::PwrCtrlReply { msg_id } => CtrlMsgView::PwrCtrlReply { msg_id },
            CtrlMsg::Init { msg_id, reserved_zeros } => CtrlMsgView::Init {
                msg_id,
                reserved_zeros,
            },
            CtrlMsg::InitReply { msg_id } => CtrlMsgView::InitReply { msg_id },
            CtrlMsg::XGbeCfgSingle { msg_id, port_id, cfg } => CtrlMsgView::XGbeCfgSingle {
                msg_id,
                port_id,
                cfg,
            },
            CtrlMsg::XGbeCfgSingleReply { msg_id } => CtrlMsgView::XGbeCfgSingleReply { msg_id },
            CtrlMsg::XGbeCfgQuery { msg_id } => CtrlMsgView::XGbeCfgQuery { msg_id },
            CtrlMsg::XGbeCfgQueryReply { msg_id, nports, cfg } => CtrlMsgView::XGbeCfgQueryReply {
                msg_id,
                nports,
                cfg: cfg@,
            },
            CtrlMsg::SetClk { msg_id, clk_src, pps_src } => CtrlMsgView::SetClk {
                msg_id,
                clk_src,
                pps_src,
            },
            CtrlMsg::SetClkReply { msg_id, clk_state } => CtrlMsgView::SetClkReply {
                msg_id,
                clk_state,
            },
            CtrlMsg::MixerSet {
                msg_id,
                freq_bits,
                phase_bits,
                sync,
            } => CtrlMsgView::MixerSet {
                msg_id,
                freq_bits,
                phase_bits,
                sync,
            },
            CtrlMsg::MixerSetReply { msg_id } => CtrlMsgView::MixerSetReply { msg_id },
        }
    }
}

impl CtrlMsgView {
    /// The variant of the message.
    pub open spec fn kind(self) -> MsgKind {
        match self {
            CtrlMsgView::InvalidMsg { .. } => MsgKind::InvalidMsg,
            CtrlMsgView::Query { .. } => MsgKind::Query,
            CtrlMsgView::QueryReply { .. } => MsgKind::QueryReply,
            CtrlMsgView::Sync { .. } => MsgKind::Sync,
            CtrlMsgView::SyncReply { .. } => MsgKind::SyncReply,
            CtrlMsgView::XGbeCfg { .. } => MsgKind::XGbeCfg,
            CtrlMsgView::XgbeCfgReply { .. } => MsgKind::XgbeCfgReply,
            CtrlMsgView::I2CScan { .. } => MsgKind::I2CScan,
            CtrlMsgView::I2CScanReply { .. } => MsgKind::I2CScanReply,
            CtrlMsgView::I2CWrite { .. } => MsgKind::I2CWrite,
            CtrlMsgView::I2CWriteReply { .. } => MsgKind::I2CWriteReply,
            CtrlMsgView::I2CWriteReg { .. } => MsgKind::I2CWriteReg,
            CtrlMsgView::I2CWriteRegReply { .. } => MsgKind::I2CWriteRegReply,
            CtrlMsgView::I2CRead { .. } => MsgKind::I2CRead,
            CtrlMsgView::I2CReadReply { .. } => MsgKind::I2CReadReply,
            CtrlMsgView::I2CReadReg { .. } => MsgKind::I2CReadReg,
            CtrlMsgView::I2CReadRegReply { .. } => MsgKind::I2CReadRegReply,
            CtrlMsgView::StreamStart { .. } => MsgKind::StreamStart,
            CtrlMsgView::StreamStartReply { .. } => MsgKind::StreamStartReply,
            CtrlMsgView::StreamStop { .. } => MsgKind::StreamStop,
            CtrlMsgView::StreamStopReply { .. } => MsgKind::StreamStopReply,
            CtrlMsgView::BitShift { .. } => MsgKind::BitShift,
            CtrlMsgView::BitShiftReply { .. } => MsgKind::BitShiftReply,
            CtrlMsgView::PwrCtrl { .. } => MsgKind::PwrCtrl,
            CtrlMsgView::PwrCtrlReply { .. } => MsgKind::PwrCtrlReply,
            CtrlMsgView::Init { .. } => MsgKind::Init,
            CtrlMsgView::InitReply { .. } => MsgKind::InitReply,
            CtrlMsgView::XGbeCfgSingle { .. } => MsgKind::XGbeCfgSingle,
            CtrlMsgView::XGbeCfgSingleReply { .. } => MsgKind::XGbeCfgSingleReply,
            CtrlMsgView::XGbeCfgQuery { .. } => MsgKind::XGbeCfgQuery,
            CtrlMsgView::XGbeCfgQueryReply { .. } => MsgKind::XGbeCfgQueryReply,
            CtrlMsgView::SetClk { .. } => MsgKind::SetClk,
            CtrlMsgView::SetClkReply { .. } => MsgKind::SetClkReply,
            CtrlMsgView::MixerSet { .. } => MsgKind::MixerSet,
            CtrlMsgView::MixerSetReply { .. } => MsgKind::MixerSetReply,
        }
    }

    /// The magic that the message starts with.
    pub open spec fn magic(self) -> u32 {
        self.kind().spec_magic()
    }

    /// The identifier that pairs the message with its request or reply.
    pub open spec fn msg_id(self) -> u32 {
        match self {
            CtrlMsgView::InvalidMsg { msg_id, .. } => msg_id,
            CtrlMsgView::Query { msg_id } => msg_id,
            CtrlMsgView::QueryReply { msg_id, .. } => msg_id,
            CtrlMsgView::Sync { msg_id } => msg_id,
            CtrlMsgView::SyncReply { msg_id } => msg_id,
            CtrlMsgView::XGbeCfg { msg_id, .. } => msg_id,
            CtrlMsgView::XgbeCfgReply { msg_id } => msg_id,
            CtrlMsgView::I2CScan { msg_id } => msg_id,
            CtrlMsgView::I2CScanReply { msg_id, .. } => msg_id,
            CtrlMsgView::I2CWrite { msg_id, .. } => msg_id,
            CtrlMsgView::I2CWriteReply { msg_id, .. } => msg_id,
            CtrlMsgView::I2CWriteReg { msg_id, .. } => msg_id,
            CtrlMsgView::I2CWriteRegReply { msg_id, .. } => msg_id,
            CtrlMsgView::I2CRead { msg_id, .. } => msg_id,
            CtrlMsgView::I2CReadReply { msg_id, .. } => msg_id,
            CtrlMsgView::I2CReadReg { msg_id, .. } => msg_id,
            CtrlMsgView::I2CReadRegReply { msg_id, .. } => msg_id,
            CtrlMsgView::StreamStart { msg_id } => msg_id,
            CtrlMsgView::StreamStartReply { msg_id } => msg_id,
            CtrlMsgView::StreamStop { msg_id } => msg_id,
            CtrlMsgView::StreamStopReply { msg_id } => msg_id,
            CtrlMsgView::BitShift { msg_id, .. } => msg_id,
            CtrlMsgView::BitShiftReply { msg_id } => msg_id,
            CtrlMsgView::PwrCtrl { msg_id, .. } => msg_id,
            CtrlMsgView::PwrCtrlReply { msg_id } => msg_id,
            CtrlMsgView::Init { msg_id, .. } => msg_id,
            CtrlMsgView::InitReply { msg_id } => msg_id,
            CtrlMsgView::XGbeCfgSingle { msg_id, .. } => msg_id,
            CtrlMsgView::XGbeCfgSingleReply { msg_id } => msg_id,
            CtrlMsgView::XGbeCfgQuery { msg_id } => msg_id,
            CtrlMsgView::XGbeCfgQueryReply { msg_id, .. } => msg_id,
            CtrlMsgView::SetClk { msg_id, .. } => msg_id,
            CtrlMsgView::SetClkReply { msg_id, .. } => msg_id,
            CtrlMsgView::MixerSet { msg_id, .. } => msg_id,
            CtrlMsgView::MixerSetReply { msg_id } => msg_id,
        }
    }

    /// The same message under the identifier `mid`.
    pub open spec fn with_msg_id(self, mid: u32) -> CtrlMsgView {
        match self {
            CtrlMsgView::InvalidMsg {
                msg_id: _,
                err_code,
                len,
                description,
            } => CtrlMsgView::InvalidMsg {
                msg_id: mid,
                err_code,
                len,
                description,
            },
            CtrlMsgView::Query { msg_id: _ } => CtrlMsgView::Query { msg_id: mid },
            CtrlMsgView::QueryReply {
                msg_id: _,
                fm_ver,
                tick_cnt1,
                tick_cnt2,
                trans_state,
                locked,
                health,
            } => CtrlMsgView::QueryReply {
                msg_id: mid,
                fm_ver,
                tick_cnt1,
                tick_cnt2,
                trans_state,
                locked,
                health,
            },
            CtrlMsgView::Sync { msg_id: _ } => CtrlMsgView::Sync { msg_id: mid },
            CtrlMsgView::SyncReply { msg_id: _ } => CtrlMsgView::SyncReply { msg_id: mid },
            CtrlMsgView::XGbeCfg { msg_id: _, cfg } => CtrlMsgView::XGbeCfg { msg_id: mid, cfg },
            CtrlMsgView::XgbeCfgReply { msg_id: _ } => CtrlMsgView::XgbeCfgReply { msg_id: mid },
            CtrlMsgView::I2CScan { msg_id: _ } => CtrlMsgView::I2CScan { msg_id: mid },
            CtrlMsgView::I2CScanReply {
                msg_id: _,
                ndev,
                payload,
            } => CtrlMsgView::I2CScanReply {
                msg_id: mid,
                ndev,
                payload,
            },
            CtrlMsgView::I2CWrite {
                msg_id: _,
                dev_addr,
                len,
                payload,
            } => CtrlMsgView::I2CWrite {
                msg_id: mid,
                dev_addr,
                len,
                payload,
            },
            CtrlMsgView::I2CWriteReply { msg_id: _, err_code } => CtrlMsgView::I2CWriteReply {
                msg_id: mid,
                err_code,
            },
            CtrlMsgView::I2CWriteReg {
                msg_id: _,
                dev_addr,
                reg_addr,
                len,
                payload,
            } => CtrlMsgView::I2CWriteReg {
                msg_id: mid,
                dev_addr,
                reg_addr,
                len,
                payload,
            },
            CtrlMsgView::I2CWriteRegReply { msg_id: _, err_code } => CtrlMsgView::I2CWriteRegReply {
                msg_id: mid,
                err_code,
            },
            CtrlMsgView::I2CRead { msg_id: _, dev_addr, nbytes } => CtrlMsgView::I2CRead {
                msg_id: mid,
                dev_addr,
                nbytes,
            },
            CtrlMsgView::I2CReadReply {
                msg_id: _,
                err_code,
                len,
                payload,
            } => CtrlMsgView::I2CReadReply {
                msg_id: mid,
                err_code,
                len,
                payload,
            },
            CtrlMsgView::I2CReadReg {
                msg_id: _,
                dev_addr,
                reg_addr,
                nbytes,
            } => CtrlMsgView::I2CReadReg {
                msg_id: mid,
                dev_addr,
                reg_addr,
                nbytes,
            },
            CtrlMsgView::I2CReadRegReply {
                msg_id: _,
                err_code,
                len,
                payload,
            } => CtrlMsgView::I2CReadRegReply {
                msg_id: mid,
                err_code,
                len,
                payload,
            },
            CtrlMsgView::StreamStart { msg_id: _ } => CtrlMsgView::StreamStart { msg_id: mid },
            CtrlMsgView::StreamStartReply { msg_id: _ } => CtrlMsgView::StreamStartReply {
                msg_id: mid,
            },
            CtrlMsgView::StreamStop { msg_id: _ } => CtrlMsgView::StreamStop { msg_id: mid },
            CtrlMsgView::StreamStopReply { msg_id: _ } => CtrlMsgView::StreamStopReply {
                msg_id: mid,
            },
            CtrlMsgView::BitShift { msg_id: _, shift_bits } => CtrlMsgView::BitShift {
                msg_id: mid,
                shift_bits,
            },
            CtrlMsgView::BitShiftReply { msg_id: _ } => CtrlMsgView::BitShiftReply { msg_id: mid },
            CtrlMsgView::PwrCtrl { msg_id: _, op_code } => CtrlMsgView::PwrCtrl {
                msg_id: mid,
                op_code,
            },
            CtrlMsgView::PwrCtrlReply { msg_id: _ } => CtrlMsgView::PwrCtrlReply { msg_id: mid },
            CtrlMsgView::Init { msg_id: _, reserved_zeros } => CtrlMsgView::Init {
                msg_id: mid,
                reserved_zeros,
            },
            CtrlMsgView::InitReply { msg_id: _ } => CtrlMsgView::InitReply { msg_id: mid },
            CtrlMsgView::XGbeCfgSingle {
                msg_id: _,
                port_id,
                cfg,
            } => CtrlMsgView::XGbeCfgSingle {
                msg_id: mid,
                port_id,
                cfg,
            },
            CtrlMsgView::XGbeCfgSingleReply { msg_id: _ } => CtrlMsgView::XGbeCfgSingleReply {
                msg_id: mid,
            },
            CtrlMsgView::XGbeCfgQuery { msg_id: _ } => CtrlMsgView::XGbeCfgQuery { msg_id: mid },
            CtrlMsgView::XGbeCfgQueryReply {
                msg_id: _,
                nports,
                cfg,
            } => CtrlMsgView::XGbeCfgQueryReply {
                msg_id: mid,
                nports,
                cfg,
            },
            CtrlMsgView::SetClk { msg_id: _, clk_src, pps_src } => CtrlMsgView::SetClk {
                msg_id: mid,
                clk_src,
                pps_src,
            },
            CtrlMsgView::SetClkReply { msg_id: _, clk_state } => CtrlMsgView::SetClkReply {
                msg_id: mid,
                clk_state,
            },
            CtrlMsgView::MixerSet {
                msg_id: _,
                freq_bits,
                phase_bits,
                sync,
            } => CtrlMsgView::MixerSet {
                msg_id: mid,
                freq_bits,
                phase_bits,
                sync,
            },
            CtrlMsgView::MixerSetReply { msg_id: _ } => CtrlMsgView::MixerSetReply { msg_id: mid },
        }
    }

    /// Whether every count field equals the number of elements it stands before.
    pub open spec fn wf(self) -> bool {
        match self {
            CtrlMsgView::InvalidMsg { len, description, .. } => len == description.len(),
            CtrlMsgView::QueryReply { health, .. } => health.wf(),
            CtrlMsgView::I2CScanReply { ndev, payload, .. } => ndev == payload.len(),
            CtrlMsgView::I2CWrite { len, payload, .. } => len == payload.len(),
            CtrlMsgView::I2CWriteReg { len, payload, .. } => len == payload.len(),
            CtrlMsgView::I2CReadReply { len, payload, .. } => len == payload.len(),
            CtrlMsgView::I2CReadRegReply { len, payload, .. } => len == payload.len(),
            CtrlMsgView::XGbeCfgQueryReply { nports, cfg, .. } => nports == cfg.len(),
            _ => true,
        }
    }
}

impl CtrlMsg {
    /// The variant of the message.
    pub fn kind(&self) -> (k: MsgKind)
        ensures
            k == self@.kind(),
    {
        match self {
            CtrlMsg::InvalidMsg { .. } => MsgKind::InvalidMsg,
            CtrlMsg::Query { .. } => MsgKind::Query,
            CtrlMsg::QueryReply { .. } => MsgKind::QueryReply,
            CtrlMsg::Sync { .. } => MsgKind::Sync,
            CtrlMsg::SyncReply { .. } => MsgKind::SyncReply,
            CtrlMsg::XGbeCfg { .. } => MsgKind::XGbeCfg,
            CtrlMsg::XgbeCfgReply { .. } => MsgKind::XgbeCfgReply,
            CtrlMsg::I2CScan { .. } => MsgKind::I2CScan,
            CtrlMsg::I2CScanReply { .. } => MsgKind::I2CScanReply,
            CtrlMsg::I2CWrite { .. } => MsgKind::I2CWrite,
            CtrlMsg::I2CWriteReply { .. } => MsgKind::I2CWriteReply,
            CtrlMsg::I2CWriteReg { .. } => MsgKind::I2CWriteReg,
            CtrlMsg::I2CWriteRegReply { .. } => MsgKind::I2CWriteRegReply,
            CtrlMsg::I2CRead { .. } => MsgKind::I2CRead,
            CtrlMsg::I2CReadReply { .. } => MsgKind::I2CReadReply,
            CtrlMsg::I2CReadReg { .. } => MsgKind::I2CReadReg,
            CtrlMsg::I2CReadRegReply { .. } => MsgKind::I2CReadRegReply,
            CtrlMsg::StreamStart { .. } => MsgKind::StreamStart,
            CtrlMsg::StreamStartReply { .. } => MsgKind::StreamStartReply,
            CtrlMsg::StreamStop { .. } => MsgKind::StreamStop,
            CtrlMsg::StreamStopReply { .. } => MsgKind::StreamStopReply,
            CtrlMsg::BitShift { .. } => MsgKind::BitShift,
            CtrlMsg::BitShiftReply { .. } => MsgKind::BitShiftReply,
            CtrlMsg::PwrCtrl { .. } => MsgKind::PwrCtrl,
            CtrlMsg::PwrCtrlReply { .. } => MsgKind::PwrCtrlReply,
            CtrlMsg::Init { .. } => MsgKind::Init,
            CtrlMsg::InitReply { .. } => MsgKind::InitReply,
            CtrlMsg::XGbeCfgSingle { .. } => MsgKind::XGbeCfgSingle,
            CtrlMsg::XGbeCfgSingleReply { .. } => MsgKind::XGbeCfgSingleReply,
            CtrlMsg::XGbeCfgQuery { .. } => MsgKind::XGbeCfgQuery,
            CtrlMsg::XGbeCfgQueryReply { .. } => MsgKind::XGbeCfgQueryReply,
            CtrlMsg::SetClk { .. } => MsgKind::SetClk,
            CtrlMsg::SetClkReply { .. } => MsgKind::SetClkReply,
            CtrlMsg::MixerSet { .. } => MsgKind::MixerSet,
            CtrlMsg::MixerSetReply { .. } => MsgKind::MixerSetReply,
        }
    }

    /// The identifier that pairs the message with its request or reply.
    pub fn get_msg_id(&self) -> (id: u32)
        ensures
            id == self@.msg_id(),
    {
        match self {
            CtrlMsg::InvalidMsg { msg_id, .. } => *msg_id,
            CtrlMsg::Query { msg_id } => *msg_id,
            CtrlMsg::QueryReply { msg_id, .. } => *msg_id,
            CtrlMsg::Sync { msg_id } => *msg_id,
            CtrlMsg::SyncReply { msg_id } => *msg_id,
            CtrlMsg::XGbeCfg { msg_id, .. } => *msg_id,
            CtrlMsg::XgbeCfgReply { msg_id } => *msg_id,
            CtrlMsg::I2CScan { msg_id } => *msg_id,
            CtrlMsg::I2CScanReply { msg_id, .. } => *msg_id,
            CtrlMsg::I2CWrite { msg_id, .. } => *msg_id,
            CtrlMsg::I2CWriteReply { msg_id, .. } => *msg_id,
            CtrlMsg::I2CWriteReg { msg_id, .. } => *msg_id,
            CtrlMsg::I2CWriteRegReply { msg_id, .. } => *msg_id,
            CtrlMsg::I2CRead { msg_id, .. } => *msg_id,
            CtrlMsg::I2CReadReply { msg_id, .. } => *msg_id,
            CtrlMsg::I2CReadReg { msg_id, .. } => *msg_id,
            CtrlMsg::I2CReadRegReply { msg_id, .. } => *msg_id,
            CtrlMsg::StreamStart { msg_id } => *msg_id,
            CtrlMsg::StreamStartReply { msg_id } => *msg_id,
            CtrlMsg::StreamStop { msg_id } => *msg_id,
            CtrlMsg::StreamStopReply { msg_id } => *msg_id,
            CtrlMsg::BitShift { msg_id, .. } => *msg_id,
            CtrlMsg::BitShiftReply { msg_id } => *msg_id,
            CtrlMsg::PwrCtrl { msg_id, .. } => *msg_id,
            CtrlMsg::PwrCtrlReply { msg_id } => *msg_id,
            CtrlMsg::Init { msg_id, .. } => *msg_id,
            CtrlMsg::InitReply { msg_id } => *msg_id,
            CtrlMsg::XGbeCfgSingle { msg_id, .. } => *msg_id,
            CtrlMsg::XGbeCfgSingleReply { msg_id } => *msg_id,
            CtrlMsg::XGbeCfgQuery { msg_id } => *msg_id,
            CtrlMsg::XGbeCfgQueryReply { msg_id, .. } => *msg_id,
            CtrlMsg::SetClk { msg_id, .. } => *msg_id,
            CtrlMsg::SetClkReply { msg_id, .. } => *msg_id,
            CtrlMsg::MixerSet { msg_id, .. } => *msg_id,
            CtrlMsg::MixerSetReply { msg_id } => *msg_id,
        }
    }

    /// Replaces the identifier and leaves every other field as it is.
    pub fn set_msg_id(&mut self, mid: u32)
        ensures
            final(self)@ == old(self)@.with_msg_id(mid),
    {
        match self {
            CtrlMsg::InvalidMsg { msg_id, .. } => {
                *msg_id = mid;
            },
            CtrlMsg::Query { msg_id } => {
                *msg_id = mid;
            },
            CtrlMsg::QueryReply { msg_id, .. } => {
                *msg_id = mid;
            },
            CtrlMsg::Sync { msg_id } => {
                *msg_id = mid;
            },
            CtrlMsg::SyncReply { msg_id } => {
                *msg_id = mid;
            },
            CtrlMsg::XGbeCfg { msg_id, .. } => {
                *msg_id = mid;
            },
            CtrlMsg::XgbeCfgReply { msg_id } => {
                *msg_id = mid;
            },
            CtrlMsg::I2CScan { msg_id } => {
                *msg_id = mid;
            },
            CtrlMsg::I2CScanReply { msg_id, .. } => {
                *msg_id = mid;
            },
            CtrlMsg::I2CWrite { msg_id, .. } => {
                *msg_id = mid;
            },
            CtrlMsg::I2CWriteReply { msg_id, .. } => {
                *msg_id = mid;
            },
            CtrlMsg::I2CWriteReg { msg_id, .. } => {
                *msg_id = mid;
            },
            CtrlMsg::I2CWriteRegReply { msg_id, .. } => {
                *msg_id = mid;
            },
            CtrlMsg::I2CRead { msg_id, .. } => {
                *msg_id = mid;
            },
            CtrlMsg::I2CReadReply { msg_id, .. } => {
                *msg_id = mid;
            },
            CtrlMsg::I2CReadReg { msg_id, .. } => {
                *msg_id = mid;
            },
            CtrlMsg::I2CReadRegReply { msg_id, .. } => {
                *msg_id = mid;
            },
            CtrlMsg::StreamStart { msg_id } => {
                *msg_id = mid;
            },
            CtrlMsg::StreamStartReply { msg_id } => {
                *msg_id = mid;
            },
            CtrlMsg::StreamStop { msg_id } => {
                *msg_id = mid;
            },
            CtrlMsg::StreamStopReply { msg_id } => {
                *msg_id = mid;
            },
            CtrlMsg::BitShift { msg_id, .. } => {
                *msg_id = mid;
            },
            CtrlMsg::BitShiftReply { msg_id } => {
                *msg_id = mid;
            },
            CtrlMsg::PwrCtrl { msg_id, .. } => {
                *msg_id = mid;
            },
            CtrlMsg::PwrCtrlReply { msg_id } => {
                *msg_id = mid;
            },
            CtrlMsg::Init { msg_id, .. } => {
                *msg_id = mid;
            },
            CtrlMsg::InitReply { msg_id } => {
                *msg_id = mid;
            },
            CtrlMsg::XGbeCfgSingle { msg_id, .. } => {
                *msg_id = mid;
            },
            CtrlMsg::XGbeCfgSingleReply { msg_id } => {
                *msg_id = mid;
            },
            CtrlMsg::XGbeCfgQuery { msg_id } => {
                *msg_id = mid;
            },
            CtrlMsg::XGbeCfgQueryReply { msg_id, .. } => {
                *msg_id = mid;
            },
            CtrlMsg::SetClk { msg_id, .. } => {
                *msg_id = mid;
            },
            CtrlMsg::SetClkReply { msg_id, .. } => {
                *msg_id = mid;
            },
            CtrlMsg::MixerSet { msg_id, .. } => {
                *msg_id = mid;
            },
            CtrlMsg::MixerSetReply { msg_id } => {
                *msg_id = mid;
            },
        }
    }

    /// Whether every count field equals the number of elements it stands before.
    pub fn is_wf(&self) -> (b: bool)
        ensures
            b == self@.wf(),
    {
        match self {
            CtrlMsg::InvalidMsg { len, description, .. } => *len as usize == description.len(),
            CtrlMsg::QueryReply { health, .. } => health.is_wf(),
            CtrlMsg::I2CScanReply { ndev, payload, .. } => *ndev as usize == payload.len(),
            CtrlMsg::I2CWrite { len, payload, .. } => *len as usize == payload.len(),
            CtrlMsg::I2CWriteReg { len, payload, .. } => *len as usize == payload.len(),
            CtrlMsg::I2CReadReply { len, payload, .. } => *len as usize == payload.len(),
            CtrlMsg::I2CReadRegReply { len, payload, .. } => *len as usize == payload.len(),
            CtrlMsg::XGbeCfgQueryReply { nports, cfg, .. } => *nports as usize == cfg.len(),
            _ => true,
        }
    }
}

/// No two message variants share a magic.
pub proof fn lemma_magic_unique(a: MsgKind, b: MsgKind)
    ensures
        a.spec_magic() == b.spec_magic() <==> a == b,
{
}

/// A magic stands for a variant exactly when it is that variant's magic.
pub proof fn lemma_of_magic(magic: u32, k: MsgKind)
    ensures
        MsgKind::of_magic(magic) == Some(k) <==> k.spec_magic() == magic,
{
}

/// The three health magics differ from each other and from every message magic.
pub proof fn lemma_health_magic_unique(k: MsgKind)
    ensures
        MAGIC_HL_HEALTH != MAGIC_TE_HEALTH,
        MAGIC_HL_HEALTH != MAGIC_T510_HEALTH,
        MAGIC_TE_HEALTH != MAGIC_T510_HEALTH,
        k.spec_magic() != MAGIC_HL_HEALTH,
        k.spec_magic() != MAGIC_TE_HEALTH,
        k.spec_magic() != MAGIC_T510_HEALTH,
{
}

/// Changing the identifier changes neither the variant nor any count.
pub proof fn lemma_with_msg_id(m: CtrlMsgView, mid: u32)
    ensures
        m.with_msg_id(mid).msg_id() == mid,
        m.with_msg_id(mid).kind() == m.kind(),
        m.with_msg_id(mid).wf() == m.wf(),
        m.with_msg_id(m.msg_id()) == m,
{
}

} // verus!
