use syncdaq::addr::SockAddr;
use syncdaq::ctrl_msg::{CtrlMsg, MsgKind};
use syncdaq::dispatch::Dispatcher;
use syncdaq::health::Health;
use syncdaq::payload::Payload;
use syncdaq::session::{query_cmd, stream_start_cmd};
use syncdaq::simulator::{reply_to, SIM_FM_VER};
use syncdaq::xgbe::XGbeCfg;

fn some_cfg() -> XGbeCfg {
    XGbeCfg {
        dst_mac: [1; 6],
        src_mac: [2; 6],
        dst_ip: [3; 4],
        src_ip: [4; 4],
        dst_port: 5,
        src_port: 6,
    }
}

#[test]
fn query_is_answered_with_status() {
    assert_eq!(
        reply_to(&CtrlMsg::Query { msg_id: 77 }),
        CtrlMsg::QueryReply {
            msg_id: 77,
            fm_ver: 0x2412_2420,
            tick_cnt1: 10,
            tick_cnt2: 10,
            trans_state: 0,
            locked: 0,
            health: Health::HLHealth {
                nhealth: 10,
                xgbe_state: [10, 10, 10, 10],
                pkt_sent: [0x1234, 0x1234, 0x1234, 0x1234],
                volt12_inner: 12000,
                volt12_input: 12000,
                vcc1v0: 120000,
                vcc1v8: 12000,
                mgtavtt1v2: 12000,
                mgtavtt1v0: 12000,
                temperatures: [40000, 30000],
            },
        }
    );
    assert_eq!(SIM_FM_VER, 0x2412_2420);
}

#[test]
fn requests_are_answered_in_kind() {
    let cases = vec![
        (CtrlMsg::Sync { msg_id: 1 }, CtrlMsg::SyncReply { msg_id: 1 }),
        (CtrlMsg::XGbeCfg { msg_id: 2, cfg: [some_cfg(); 4] }, CtrlMsg::XgbeCfgReply { msg_id: 2 }),
        (
            CtrlMsg::I2CScan { msg_id: 3 },
            CtrlMsg::I2CScanReply { msg_id: 3, ndev: 4, payload: vec![0x11, 0x22, 0x33, 0x44] },
        ),
        (
            CtrlMsg::I2CWrite { msg_id: 4, dev_addr: 1, len: 1, payload: vec![9] },
            CtrlMsg::I2CWriteReply { msg_id: 4, err_code: 0 },
        ),
        (
            CtrlMsg::I2CWriteReg { msg_id: 5, dev_addr: 1, reg_addr: 2, len: 0, payload: vec![] },
            CtrlMsg::I2CWriteRegReply { msg_id: 5, err_code: 0 },
        ),
        (
            CtrlMsg::I2CRead { msg_id: 6, dev_addr: 1, nbytes: 3 },
            CtrlMsg::I2CReadReply { msg_id: 6, err_code: 0, len: 10, payload: vec![0; 10] },
        ),
        (
            CtrlMsg::I2CReadReg { msg_id: 7, dev_addr: 1, reg_addr: 2, nbytes: 3 },
            CtrlMsg::I2CReadRegReply { msg_id: 7, err_code: 0, len: 10, payload: vec![0; 10] },
        ),
        (CtrlMsg::StreamStart { msg_id: 8 }, CtrlMsg::StreamStartReply { msg_id: 8 }),
        (CtrlMsg::StreamStop { msg_id: 9 }, CtrlMsg::StreamStopReply { msg_id: 9 }),
        (CtrlMsg::Init { msg_id: 10, reserved_zeros: 0 }, CtrlMsg::InitReply { msg_id: 10 }),
        (CtrlMsg::PwrCtrl { msg_id: 11, op_code: 1 }, CtrlMsg::PwrCtrlReply { msg_id: 11 }),
        (
            CtrlMsg::XGbeCfgSingle { msg_id: 12, port_id: 0, cfg: some_cfg() },
            CtrlMsg::XGbeCfgSingleReply { msg_id: 12 },
        ),
    ];
    for (request, reply) in cases {
        assert_eq!(reply_to(&request), reply);
    }
}

#[test]
fn port_query_is_answered_with_four_ports() {
    let port = XGbeCfg {
        dst_ip: [192, 168, 4, 10],
        dst_mac: [0xaa, 0xbb, 0xcc, 0xdd, 0xee, 0xff],
        dst_port: 3000,
        src_ip: [192, 168, 10, 11],
        src_mac: [0xaa, 0xbb, 0xcc, 0xdd, 0xee, 0xfe],
        src_port: 3000,
    };
    assert_eq!(
        reply_to(&CtrlMsg::XGbeCfgQuery { msg_id: 13 }),
        CtrlMsg::XGbeCfgQueryReply { msg_id: 13, nports: 4, cfg: vec![port; 4] }
    );
}

#[test]
fn everything_else_is_invalid() {
    let others = vec![
        CtrlMsg::BitShift { msg_id: 21, shift_bits: 1 },
        CtrlMsg::SetClk { msg_id: 21, clk_src: 0, pps_src: 0 },
        CtrlMsg::MixerSet { msg_id: 21, freq_bits: 0, phase_bits: 0, sync: 0 },
        CtrlMsg::SyncReply { msg_id: 21 },
        CtrlMsg::InvalidMsg { msg_id: 21, err_code: 0, len: 0, description: vec![] },
        reply_to(&CtrlMsg::Query { msg_id: 21 }),
    ];
    for request in others {
        let description = b"invalid".to_vec();
        assert_eq!(
            reply_to(&request),
            CtrlMsg::InvalidMsg { msg_id: 21, err_code: 0, len: 7, description }
        );
    }
}

#[test]
fn replies_can_be_written() {
    let unserved = CtrlMsg::BitShift { msg_id: 1, shift_bits: 0 };
    for request in [query_cmd(), stream_start_cmd(), unserved] {
        let reply = reply_to(&request);
        assert!(reply.is_wf());
        assert!(reply.kind().is_reply());
        assert_eq!(CtrlMsg::decode(&reply.encode().unwrap()), Ok(reply));
    }
}

#[test]
fn dispatch_against_simulated_devices() {
    let addr = |n: u8| SockAddr::V4 { ip: [10, 0, 0, n], port: 3000 };
    let mut d = Dispatcher::new();
    let mut cmd = CtrlMsg::BitShift { msg_id: 0, shift_bits: 2 };
    let mut wire = Vec::new();
    for n in 1..=3u8 {
        wire.push((addr(n), d.stamp(&mut cmd, 100 + n as u32, vec![addr(n)]).unwrap()));
    }
    cmd = query_cmd();
    wire.push((addr(4), d.stamp(&mut cmd, 104, vec![addr(4)]).unwrap()));
    wire.push((addr(5), d.stamp(&mut cmd, 105, vec![addr(5)]).unwrap()));
    let mut done = false;
    for (from, datagram) in wire.iter().take(4) {
        let request = CtrlMsg::decode(datagram).unwrap();
        let reply = reply_to(&request).encode().unwrap();
        let read = d.read_reply(&reply).unwrap();
        done = d.take_reply(*from, read);
    }
    assert!(!done);
    let s = d.finish();
    assert_eq!(s.no_reply, vec![(vec![addr(5)], 105)]);
    assert_eq!(s.invalid_reply.len(), 3);
    assert_eq!(s.normal_reply.len(), 1);
    assert_eq!(s.normal_reply[0].0, addr(4));
    assert_eq!(s.normal_reply[0].1.kind(), MsgKind::QueryReply);
    assert_eq!(s.normal_reply[0].1.get_msg_id(), 104);
    let ids: Vec<u32> = s.invalid_reply.iter().map(|(_, m)| m.get_msg_id()).collect();
    assert_eq!(ids, vec![101, 102, 103]);
}

#[test]
fn counter_can_be_peeked() {
    let mut p = Payload::default();
    p.pkt_cnt = 0x0807_0605_0403_0201;
    let bytes = p.to_bytes();
    assert_eq!(Payload::peek_counter(&bytes), Some(0x0807_0605_0403_0201));
    assert_eq!(Payload::peek_counter(&bytes[..8212]), None);
    assert_eq!(Payload::peek_counter(&[]), None);
}
