//! Canned replies of a simulated device, for trying a client without hardware.

use vstd::prelude::*;
use crate::ctrl_msg::{CtrlMsg, CtrlMsgView};
use crate::health::{Health, HealthView};
use crate::xgbe::XGbeCfg;

verus! {

/// Firmware version that the simulated device reports.
pub const SIM_FM_VER: u32 = 0x2412_2420;

/// The text of the error reply, `invalid` in ASCII.
pub open spec fn invalid_text() -> Seq<u8> {
    seq![0x69u8, 0x6eu8, 0x76u8, 0x61u8, 0x6cu8, 0x69u8, 0x64u8]
}

/// The port configuration that the simulated device reports for every port.
pub open spec fn sim_cfg() -> XGbeCfg {
    XGbeCfg {
        dst_mac: [0xaau8, 0xbbu8, 0xccu8, 0xddu8, 0xeeu8, 0xffu8],
        src_mac: [0xaau8, 0xbbu8, 0xccu8, 0xddu8, 0xeeu8, 0xfeu8],
        dst_ip: [192u8, 168u8, 4u8, 10u8],
        src_ip: [192u8, 168u8, 10u8, 11u8],
        dst_port: 3000,
        src_port: 3000,
    }
}

/// The health block that the simulated device reports.
pub open spec fn sim_health() -> HealthView {
    HealthView::HLHealth {
        nhealth: 10,
        xgbe_state: [10u32, 10u32, 10u32, 10u32],
        pkt_sent: [0x1234u64, 0x1234u64, 0x1234u64, 0x1234u64],
        volt12_inner: 12000,
        volt12_input: 12000,
        vcc1v0: 120000,
        vcc1v8: 12000,
        mgtavtt1v2: 12000,
        mgtavtt1v0: 12000,
        temperatures: [40000u32, 30000u32],
    }
}

/// What the simulated device answers to `request`: the reply that belongs to
/// the request, under the request's identifier and with fixed contents, and
/// an error reply to everything it does not serve.
pub open spec fn sim_reply(request: CtrlMsgView) -> CtrlMsgView {
    let msg_id = request.msg_id();
    match request {
        CtrlMsgView::Query { .. } => CtrlMsgView::QueryReply {
            msg_id,
            fm_ver: SIM_FM_VER,
            tick_cnt1: 10,
            tick_cnt2: 10,
            trans_state: 0,
            locked: 0,
            health: sim_health(),
        },
        CtrlMsgView::Sync { .. } => CtrlMsgView::SyncReply { msg_id },
        CtrlMsgView::XGbeCfg { .. } => CtrlMsgView::XgbeCfgReply { msg_id },
        CtrlMsgView::I2CScan { .. } => CtrlMsgView::I2CScanReply {
            msg_id,
            ndev: 4,
            payload: seq![0x11u8, 0x22u8, 0x33u8, 0x44u8],
        },
        CtrlMsgView::I2CWrite { .. } => CtrlMsgView::I2CWriteReply { msg_id, err_code: 0 },
        CtrlMsgView::I2CWriteReg { .. } => CtrlMsgView::I2CWriteRegReply { msg_id, err_code: 0 },
        CtrlMsgView::I2CRead { .. } => CtrlMsgView::I2CReadReply {
            msg_id,
            err_code: 0,
            len: 10,
            payload: Seq::new(10, |i: int| 0u8),
        },
        CtrlMsgView::I2CReadReg { .. } => CtrlMsgView::I2CReadRegReply {
            msg_id,
            err_code: 0,
            len: 10,
            payload: Seq::new(10, |i: int| 0u8),
        },
        CtrlMsgView::StreamStart { .. } => CtrlMsgView::StreamStartReply { msg_id },
        CtrlMsgView::StreamStop { .. } => CtrlMsgView::StreamStopReply { msg_id },
        CtrlMsgView::Init { .. } => CtrlMsgView::InitReply { msg_id },
        CtrlMsgView::PwrCtrl { .. } => CtrlMsgView::PwrCtrlReply { msg_id },
        CtrlMsgView::XGbeCfgSingle { .. } => CtrlMsgView::XGbeCfgSingleReply { msg_id },
        CtrlMsgView::XGbeCfgQuery { .. } => CtrlMsgView::XGbeCfgQueryReply {
            msg_id,
            nports: 4,
            cfg: Seq::new(4, |i: int| sim_cfg()),
        },
        _ => CtrlMsgView::InvalidMsg { msg_id, err_code: 0, len: 7, description: invalid_text() },
    }
}

/// A vector of `n` zero bytes.
fn zero_bytes(n: usize) -> (v: Vec<u8>)
    ensures
        v@ == Seq::new(n as nat, |i: int| 0u8),
{
    let mut v: Vec<u8> = Vec::new();
    let mut i: usize = 0;
    while i < n
        invariant
            i <= n,
            v@ == Seq::new(i as nat, |j: int| 0u8),
        decreases n - i,
    {
        v.push(0u8);
        i = i + 1;
        assert(v@ =~= Seq::new(i as nat, |j: int| 0u8));
    }
    v
}

/// What the simulated device answers to `request`.
pub fn reply_to(request: &CtrlMsg) -> (reply: CtrlMsg)
    ensures
        reply@ == sim_reply(request@),
        reply@.wf(),
        reply@.msg_id() == request@.msg_id(),
{
    let msg_id: u32 = request.get_msg_id();
    match request {
        CtrlMsg::Query { .. } => {
            let health = Health::HLHealth {
                nhealth: 10,
                xgbe_state: [10, 10, 10, 10],
                pkt_sent: [0x1234, 0x1234, 0x1234, 0x1234],
                volt12_inner: 12000,
                volt12_input: 12000,
                vcc1v0: 120000,
                vcc1v8: 12000,
                mgtavtt1v2: 12000,
                mgtavtt1v0: 12000,
                temperatures: [40000, 30000],
            };
            proof {
                let want = sim_health();
                assert(health@->HLHealth_xgbe_state =~= want->HLHealth_xgbe_state);
                assert(health@->HLHealth_pkt_sent =~= want->HLHealth_pkt_sent);
                assert(health@->HLHealth_temperatures =~= want->HLHealth_temperatures);
            }
            CtrlMsg::QueryReply {
                msg_id,
                fm_ver: SIM_FM_VER,
                tick_cnt1: 10,
                tick_cnt2: 10,
                trans_state: 0,
                locked: 0,
                health,
            }
        },
        CtrlMsg::Sync { .. } => CtrlMsg::SyncReply { msg_id },
        CtrlMsg::XGbeCfg { .. } => CtrlMsg::XgbeCfgReply { msg_id },
        CtrlMsg::I2CScan { .. } => {
            let mut payload: Vec<u8> = Vec::new();
            payload.push(0x11);
            payload.push(0x22);
            payload.push(0x33);
            payload.push(0x44);
            assert(payload@ =~= seq![0x11u8, 0x22u8, 0x33u8, 0x44u8]);
            CtrlMsg::I2CScanReply { msg_id, ndev: 4, payload }
        },
        CtrlMsg::I2CWrite { .. } => CtrlMsg::I2CWriteReply { msg_id, err_code: 0 },
        CtrlMsg::I2CWriteReg { .. } => CtrlMsg::I2CWriteRegReply { msg_id, err_code: 0 },
        CtrlMsg::I2CRead { .. } => CtrlMsg::I2CReadReply {
            msg_id,
            err_code: 0,
            len: 10,
            payload: zero_bytes(10),
        },
        CtrlMsg::I2CReadReg { .. } => CtrlMsg::I2CReadRegReply {
            msg_id,
            err_code: 0,
            len: 10,
            payload: zero_bytes(10),
        },
        CtrlMsg::StreamStart { .. } => CtrlMsg::StreamStartReply { msg_id },
        CtrlMsg::StreamStop { .. } => CtrlMsg::StreamStopReply { msg_id },
        CtrlMsg::Init { .. } => CtrlMsg::InitReply { msg_id },
        CtrlMsg::PwrCtrl { .. } => CtrlMsg::PwrCtrlReply { msg_id },
        CtrlMsg::XGbeCfgSingle { .. } => CtrlMsg::XGbeCfgSingleReply { msg_id },
        CtrlMsg::XGbeCfgQuery { .. } => {
            let one = XGbeCfg {
                dst_mac: [0xaa, 0xbb, 0xcc, 0xdd, 0xee, 0xff],
                src_mac: [0xaa, 0xbb, 0xcc, 0xdd, 0xee, 0xfe],
                dst_ip: [192, 168, 4, 10],
                src_ip: [192, 168, 10, 11],
                dst_port: 3000,
                src_port: 3000,
            };
            proof {
                let want = sim_cfg();
                assert(one.dst_mac =~= want.dst_mac);
                assert(one.src_mac =~= want.src_mac);
                assert(one.dst_ip =~= want.dst_ip);
                assert(one.src_ip =~= want.src_ip);
            }
            let mut cfg: Vec<XGbeCfg> = Vec::new();
            cfg.push(one);
            cfg.push(one);
            cfg.push(one);
            cfg.push(one);
            assert(cfg@ =~= Seq::new(4, |i: int| sim_cfg()));
            CtrlMsg::XGbeCfgQueryReply { msg_id, nports: 4, cfg }
        },
        _ => {
            let mut description: Vec<u8> = Vec::new();
            description.push(0x69);
            description.push(0x6e);
            description.push(0x76);
            description.push(0x61);
            description.push(0x6c);
            description.push(0x69);
            description.push(0x64);
            assert(description@ =~= invalid_text());
            CtrlMsg::InvalidMsg { msg_id, err_code: 0, len: 7, description }
        },
    }
}

} // verus!
