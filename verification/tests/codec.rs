use syncdaq::ctrl_msg::{CtrlMsg, MsgKind};
use syncdaq::health::Health;
use syncdaq::wire::FormatError;
use syncdaq::xgbe::XGbeCfg;

fn cfg(seed: u8) -> XGbeCfg {
    XGbeCfg {
        dst_mac: [seed, 0xbb, 0xcc, 0xdd, 0xee, 0xff],
        src_mac: [0xaa, seed, 0xcc, 0xdd, 0xee, 0xfe],
        dst_ip: [192, 168, 4, seed],
        src_ip: [192, 168, seed, 11],
        dst_port: 3000 + seed as u16,
        src_port: 0xfffe - seed as u16,
    }
}

fn hl_health() -> Health {
    Health::HLHealth {
        nhealth: 10,
        xgbe_state: [1, 2, 3, 0xffff_ffff],
        pkt_sent: [0x1234, 0x1_0000_0000, u64::MAX, 0x0102_0304_0506_0708],
        volt12_inner: 12000,
        volt12_input: 12001,
        vcc1v0: 120000,
        vcc1v8: 1800,
        mgtavtt1v2: 1200,
        mgtavtt1v0: 1000,
        temperatures: [40000, 30000],
    }
}

fn samples() -> Vec<CtrlMsg> {
    vec![
        CtrlMsg::InvalidMsg { msg_id: 1, err_code: 2, len: 7, description: b"invalid".to_vec() },
        CtrlMsg::InvalidMsg { msg_id: 1, err_code: 2, len: 0, description: vec![] },
        CtrlMsg::Query { msg_id: 0xdead_beef },
        CtrlMsg::QueryReply {
            msg_id: 3,
            fm_ver: 0x2412_2420,
            tick_cnt1: 10,
            tick_cnt2: 10_000_010,
            trans_state: 5,
            locked: 0xf,
            health: hl_health(),
        },
        CtrlMsg::QueryReply {
            msg_id: 3,
            fm_ver: 1,
            tick_cnt1: 2,
            tick_cnt2: 3,
            trans_state: 4,
            locked: 5,
            health: Health::TEHealth { nhealth: 3, payload: vec![7, 0xffff_ffff, 9] },
        },
        CtrlMsg::QueryReply {
            msg_id: 3,
            fm_ver: 1,
            tick_cnt1: 2,
            tick_cnt2: 3,
            trans_state: 4,
            locked: 5,
            health: Health::TEHealth { nhealth: 0, payload: vec![] },
        },
        CtrlMsg::QueryReply {
            msg_id: 3,
            fm_ver: 1,
            tick_cnt1: 2,
            tick_cnt2: 3,
            trans_state: 4,
            locked: 5,
            health: Health::T510Health { rfdc_restart_cnt: 8, temperature: -40 },
        },
        CtrlMsg::Sync { msg_id: 4 },
        CtrlMsg::SyncReply { msg_id: 5 },
        CtrlMsg::XGbeCfg { msg_id: 6, cfg: [cfg(1), cfg(2), cfg(3), cfg(4)] },
        CtrlMsg::XgbeCfgReply { msg_id: 7 },
        CtrlMsg::I2CScan { msg_id: 8 },
        CtrlMsg::I2CScanReply { msg_id: 9, ndev: 4, payload: vec![0x11, 0x22, 0x33, 0x44] },
        CtrlMsg::I2CScanReply { msg_id: 9, ndev: 0, payload: vec![] },
        CtrlMsg::I2CWrite { msg_id: 10, dev_addr: 0x50, len: 3, payload: vec![1, 2, 3] },
        CtrlMsg::I2CWrite { msg_id: 10, dev_addr: 0x50, len: 0, payload: vec![] },
        CtrlMsg::I2CWriteReply { msg_id: 11, err_code: 0 },
        CtrlMsg::I2CWriteReg {
            msg_id: 12,
            dev_addr: 0x50,
            reg_addr: 0x10,
            len: 5,
            payload: vec![9, 8, 7, 6, 5],
        },
        CtrlMsg::I2CWriteRegReply { msg_id: 13, err_code: 0xffff_ffff },
        CtrlMsg::I2CRead { msg_id: 14, dev_addr: 0x51, nbytes: 16 },
        CtrlMsg::I2CReadReply { msg_id: 15, err_code: 0, len: 10, payload: vec![0; 10] },
        CtrlMsg::I2CReadReg { msg_id: 16, dev_addr: 0x51, reg_addr: 2, nbytes: 4 },
        CtrlMsg::I2CReadRegReply { msg_id: 17, err_code: 1, len: 1, payload: vec![0xff] },
        CtrlMsg::StreamStart { msg_id: 18 },
        CtrlMsg::StreamStartReply { msg_id: 19 },
        CtrlMsg::StreamStop { msg_id: 20 },
        CtrlMsg::StreamStopReply { msg_id: 21 },
        CtrlMsg::BitShift { msg_id: 22, shift_bits: 3 },
        CtrlMsg::BitShiftReply { msg_id: 23 },
        CtrlMsg::PwrCtrl { msg_id: 24, op_code: 1 },
        CtrlMsg::PwrCtrlReply { msg_id: 25 },
        CtrlMsg::Init { msg_id: 26, reserved_zeros: 0 },
        CtrlMsg::InitReply { msg_id: 27 },
        CtrlMsg::XGbeCfgSingle { msg_id: 28, port_id: 2, cfg: cfg(9) },
        CtrlMsg::XGbeCfgSingleReply { msg_id: 29 },
        CtrlMsg::XGbeCfgQuery { msg_id: 30 },
        CtrlMsg::XGbeCfgQueryReply { msg_id: 31, nports: 4, cfg: vec![cfg(5); 4] },
        CtrlMsg::XGbeCfgQueryReply { msg_id: 31, nports: 0, cfg: vec![] },
        CtrlMsg::SetClk { msg_id: 32, clk_src: 1, pps_src: 2 },
        CtrlMsg::SetClkReply { msg_id: 33, clk_state: 3 },
        CtrlMsg::MixerSet {
            msg_id: 34,
            freq_bits: (-70.5f64).to_bits(),
            phase_bits: 0.25f64.to_bits(),
            sync: 1,
        },
        CtrlMsg::MixerSetReply { msg_id: 35 },
    ]
}

fn all_kinds() -> Vec<MsgKind> {
    vec![
        MsgKind::InvalidMsg,
        MsgKind::Query,
        MsgKind::QueryReply,
        MsgKind::Sync,
        MsgKind::SyncReply,
        MsgKind::XGbeCfg,
        MsgKind::XgbeCfgReply,
        MsgKind::I2CScan,
        MsgKind::I2CScanReply,
        MsgKind::I2CWrite,
        MsgKind::I2CWriteReply,
        MsgKind::I2CWriteReg,
        MsgKind::I2CWriteRegReply,
        MsgKind::I2CRead,
        MsgKind::I2CReadReply,
        MsgKind::I2CReadReg,
        MsgKind::I2CReadRegReply,
        MsgKind::StreamStart,
        MsgKind::StreamStartReply,
        MsgKind::StreamStop,
        MsgKind::StreamStopReply,
        MsgKind::BitShift,
        MsgKind::BitShiftReply,
        MsgKind::PwrCtrl,
        MsgKind::PwrCtrlReply,
        MsgKind::Init,
        MsgKind::InitReply,
        MsgKind::XGbeCfgSingle,
        MsgKind::XGbeCfgSingleReply,
        MsgKind::XGbeCfgQuery,
        MsgKind::XGbeCfgQueryReply,
        MsgKind::SetClk,
        MsgKind::SetClkReply,
        MsgKind::MixerSet,
        MsgKind::MixerSetReply,
    ]
}

#[test]
fn round_trip_every_variant() {
    let msgs = samples();
    let mut seen: Vec<MsgKind> = Vec::new();
    for m in &msgs {
        let bytes = m.encode().unwrap();
        assert_eq!(CtrlMsg::decode(&bytes), Ok(m.clone()));
        if !seen.contains(&m.kind()) {
            seen.push(m.kind());
        }
    }
    assert_eq!(seen.len(), 35);
}

#[test]
fn round_trip_ignores_what_follows() {
    for m in &samples() {
        let mut buf = m.encode().unwrap();
        buf.resize(9000, 0);
        assert_eq!(CtrlMsg::decode(&buf), Ok(m.clone()));
        let mut noisy = m.encode().unwrap();
        noisy.extend_from_slice(&[0xa5; 13]);
        assert_eq!(CtrlMsg::decode(&noisy), Ok(m.clone()));
    }
}

#[test]
fn every_proper_prefix_is_truncated() {
    for m in &samples() {
        let bytes = m.encode().unwrap();
        for n in 0..bytes.len() {
            let cut = CtrlMsg::decode(&bytes[..n]);
            assert_eq!(cut, Err(FormatError::Truncated), "{:?} cut at {}", m, n);
        }
    }
}

#[test]
fn query_bytes() {
    let m = CtrlMsg::Query { msg_id: 0x0102_0304 };
    assert_eq!(m.encode().unwrap(), vec![1, 0, 0, 0, 4, 3, 2, 1]);
}

#[test]
fn query_reply_magic_bytes() {
    let m = CtrlMsg::SyncReply { msg_id: 1 };
    assert_eq!(m.encode().unwrap(), vec![2, 0, 0, 0xff, 1, 0, 0, 0]);
}

#[test]
fn invalid_msg_bytes() {
    let description = vec![b'n', b'o'];
    let m = CtrlMsg::InvalidMsg { msg_id: 5, err_code: 0x0a0b, len: 2, description };
    assert_eq!(
        m.encode().unwrap(),
        vec![0xff, 0xff, 0xff, 0xff, 5, 0, 0, 0, 0x0b, 0x0a, 0, 0, 2, 0, 0, 0, b'n', b'o']
    );
}

#[test]
fn i2c_write_reg_bytes() {
    let payload = vec![0xee];
    let m = CtrlMsg::I2CWriteReg { msg_id: 1, dev_addr: 2, reg_addr: 3, len: 1, payload };
    assert_eq!(
        m.encode().unwrap(),
        vec![4, 2, 0, 0, 1, 0, 0, 0, 2, 0, 0, 0, 3, 0, 0, 0, 1, 0, 0, 0, 0xee]
    );
}

#[test]
fn xgbe_cfg_single_bytes() {
    let c = XGbeCfg {
        dst_mac: [1, 2, 3, 4, 5, 6],
        src_mac: [7, 8, 9, 10, 11, 12],
        dst_ip: [192, 168, 4, 10],
        src_ip: [192, 168, 10, 11],
        dst_port: 3000,
        src_port: 0x1234,
    };
    let m = CtrlMsg::XGbeCfgSingle { msg_id: 9, port_id: 2, cfg: c };
    let bytes = m.encode().unwrap();
    assert_eq!(bytes.len(), 12 + 32);
    assert_eq!(&bytes[..12], &[0x0a, 0, 0, 0, 9, 0, 0, 0, 2, 0, 0, 0]);
    assert_eq!(
        &bytes[12..],
        &[
            1, 2, 3, 4, 5, 6, 0, 0, 7, 8, 9, 10, 11, 12, 0, 0, 192, 168, 4, 10, 192, 168, 10, 11,
            0xb8, 0x0b, 0, 0, 0x34, 0x12, 0, 0
        ]
    );
}

#[test]
fn xgbe_cfg_is_136_bytes() {
    let m = CtrlMsg::XGbeCfg { msg_id: 6, cfg: [cfg(1), cfg(2), cfg(3), cfg(4)] };
    assert_eq!(m.encode().unwrap().len(), 8 + 4 * 32);
}

#[test]
fn padding_is_ignored_on_read() {
    let m = CtrlMsg::XGbeCfgSingle { msg_id: 9, port_id: 2, cfg: cfg(3) };
    let mut bytes = m.encode().unwrap();
    for at in [6usize, 7, 14, 15, 26, 27, 30, 31] {
        bytes[12 + at] = 0x5a;
    }
    assert_eq!(CtrlMsg::decode(&bytes), Ok(m));
}

#[test]
fn mixer_set_bytes_are_the_doubles() {
    let m = CtrlMsg::MixerSet {
        msg_id: 1,
        freq_bits: 70.5f64.to_bits(),
        phase_bits: (-0.125f64).to_bits(),
        sync: 3,
    };
    let bytes = m.encode().unwrap();
    assert_eq!(&bytes[..8], &[0x0d, 0, 0, 0, 1, 0, 0, 0]);
    assert_eq!(&bytes[8..16], &70.5f64.to_le_bytes());
    assert_eq!(&bytes[16..24], &(-0.125f64).to_le_bytes());
    assert_eq!(&bytes[24..], &[3, 0, 0, 0]);
}

#[test]
fn t510_health_bytes() {
    let h = Health::T510Health { rfdc_restart_cnt: 1, temperature: -2 };
    assert_eq!(
        h.encode().unwrap(),
        vec![0xfe, 0x01, 0, 0, 1, 0, 0, 0, 0xfe, 0xff, 0xff, 0xff]
    );
    assert_eq!(Health::decode(&h.encode().unwrap()), Ok(h));
}

#[test]
fn te_health_bytes() {
    let h = Health::TEHealth { nhealth: 2, payload: vec![0x0a, 0x0102_0304] };
    assert_eq!(
        h.encode().unwrap(),
        vec![0x12, 0x34, 0x56, 0x78, 2, 0, 0, 0, 0x0a, 0, 0, 0, 4, 3, 2, 1]
    );
    assert_eq!(Health::decode(&h.encode().unwrap()), Ok(h));
}

#[test]
fn hl_health_is_22_words() {
    let h = hl_health();
    let bytes = h.encode().unwrap();
    assert_eq!(bytes.len(), 88);
    assert_eq!(&bytes[..4], &[0x68, 0x6c, 0x76, 0x31]);
    assert_eq!(&bytes[24..32], &0x1234u64.to_le_bytes());
    assert_eq!(&bytes[40..48], &u64::MAX.to_le_bytes());
    assert_eq!(Health::decode(&bytes), Ok(h));
}

#[test]
fn temperature_extremes_round_trip() {
    for t in [i32::MIN, -1, 0, 1, i32::MAX] {
        let h = Health::T510Health { rfdc_restart_cnt: 0, temperature: t };
        assert_eq!(Health::decode(&h.encode().unwrap()), Ok(h));
    }
}

#[test]
fn unknown_magic_is_an_error() {
    let buf = [0x09u8, 0, 0, 0, 1, 0, 0, 0, 0, 0, 0, 0];
    assert_eq!(CtrlMsg::decode(&buf), Err(FormatError::UnknownMagic { magic: 9 }));
    let buf = [0u8; 64];
    assert_eq!(CtrlMsg::decode(&buf), Err(FormatError::UnknownMagic { magic: 0 }));
    let buf = [0x01u8, 0, 0, 0xfe];
    assert_eq!(CtrlMsg::decode(&buf), Err(FormatError::UnknownMagic { magic: 0xfe00_0001 }));
}

#[test]
fn unknown_health_magic_is_an_error() {
    let m = CtrlMsg::QueryReply {
        msg_id: 3,
        fm_ver: 1,
        tick_cnt1: 2,
        tick_cnt2: 3,
        trans_state: 4,
        locked: 5,
        health: Health::T510Health { rfdc_restart_cnt: 8, temperature: 1 },
    };
    let mut bytes = m.encode().unwrap();
    bytes[28] = 0xff;
    assert_eq!(
        CtrlMsg::decode(&bytes),
        Err(FormatError::UnknownHealthMagic { magic: 0x0000_01ff })
    );
    assert_eq!(
        Health::decode(&[0, 0, 0, 0]),
        Err(FormatError::UnknownHealthMagic { magic: 0 })
    );
}

#[test]
fn short_buffers_are_truncated() {
    assert_eq!(CtrlMsg::decode(&[]), Err(FormatError::Truncated));
    assert_eq!(CtrlMsg::decode(&[1, 0, 0]), Err(FormatError::Truncated));
    assert_eq!(CtrlMsg::decode(&[1, 0, 0, 0, 7, 0, 0]), Err(FormatError::Truncated));
    assert_eq!(Health::decode(&[]), Err(FormatError::Truncated));
}

#[test]
fn count_beyond_buffer_is_truncated() {
    let bytes = vec![0x04, 0x01, 0, 0, 1, 0, 0, 0, 2, 0, 0, 0, 0xff, 0xff, 0xff, 0xff, 1, 2, 3];
    assert_eq!(CtrlMsg::decode(&bytes), Err(FormatError::Truncated));
    let bytes = vec![0x0b, 0, 0, 0xff, 1, 0, 0, 0, 0xff, 0xff, 0xff, 0xff];
    assert_eq!(CtrlMsg::decode(&bytes), Err(FormatError::Truncated));
    let bytes = vec![0x12, 0x34, 0x56, 0x78, 0xff, 0xff, 0xff, 0xff, 0, 0, 0, 0];
    assert_eq!(Health::decode(&bytes), Err(FormatError::Truncated));
}

#[test]
fn wrong_count_is_not_written() {
    let m = CtrlMsg::I2CWrite { msg_id: 1, dev_addr: 2, len: 5, payload: vec![] };
    assert_eq!(m.encode(), Err(FormatError::LengthMismatch));
    let m = CtrlMsg::InvalidMsg { msg_id: 1, err_code: 2, len: 0, description: vec![1] };
    assert_eq!(m.encode(), Err(FormatError::LengthMismatch));
    let m = CtrlMsg::XGbeCfgQueryReply { msg_id: 1, nports: 2, cfg: vec![cfg(1)] };
    assert_eq!(m.encode(), Err(FormatError::LengthMismatch));
    let h = Health::TEHealth { nhealth: 1, payload: vec![] };
    assert_eq!(h.encode(), Err(FormatError::LengthMismatch));
    let m = CtrlMsg::QueryReply {
        msg_id: 3,
        fm_ver: 1,
        tick_cnt1: 2,
        tick_cnt2: 3,
        trans_state: 4,
        locked: 5,
        health: h,
    };
    assert_eq!(m.encode(), Err(FormatError::LengthMismatch));
    assert!(!m.is_wf());
}

#[test]
fn magics_are_unique() {
    let kinds = all_kinds();
    assert_eq!(kinds.len(), 35);
    for (i, a) in kinds.iter().enumerate() {
        assert_eq!(MsgKind::from_magic(a.magic()), Some(*a));
        for b in &kinds[i + 1..] {
            assert_ne!(a.magic(), b.magic());
        }
        for h in [0x3176_6c68u32, 0x7856_3412, 0x0000_01fe] {
            assert_ne!(a.magic(), h);
        }
    }
}

#[test]
fn magics_are_the_documented_ones() {
    let expected: [(MsgKind, u32); 18] = [
        (MsgKind::Query, 0x01),
        (MsgKind::Sync, 0x02),
        (MsgKind::XGbeCfg, 0x03),
        (MsgKind::I2CScan, 0x04),
        (MsgKind::I2CWrite, 0x0104),
        (MsgKind::I2CWriteReg, 0x0204),
        (MsgKind::I2CRead, 0x0304),
        (MsgKind::I2CReadReg, 0x0404),
        (MsgKind::StreamStart, 0x0105),
        (MsgKind::StreamStop, 0x0205),
        (MsgKind::BitShift, 0x06),
        (MsgKind::PwrCtrl, 0x07),
        (MsgKind::Init, 0x08),
        (MsgKind::XGbeCfgSingle, 0x0a),
        (MsgKind::XGbeCfgQuery, 0x0b),
        (MsgKind::SetClk, 0x0c),
        (MsgKind::MixerSet, 0x0d),
        (MsgKind::InvalidMsg, 0xffff_ffff),
    ];
    for (k, m) in expected {
        assert_eq!(k.magic(), m);
    }
    assert_eq!(MsgKind::QueryReply.magic(), 0xff00_0001);
    assert_eq!(MsgKind::I2CReadRegReply.magic(), 0xff00_0404);
    assert_eq!(MsgKind::MixerSetReply.magic(), 0xff00_000d);
}

#[test]
fn replies_are_told_from_requests() {
    assert!(MsgKind::QueryReply.is_reply());
    assert!(MsgKind::InvalidMsg.is_reply());
    assert!(!MsgKind::Query.is_reply());
    assert!(!MsgKind::MixerSet.is_reply());
    assert_eq!(MsgKind::from_magic(0x09), None);
    assert_eq!(MsgKind::from_magic(0xff00_0009), None);
}

#[test]
fn msg_id_accessors() {
    for m in &samples() {
        let mut changed = m.clone();
        changed.set_msg_id(0x5555_aaaa);
        assert_eq!(changed.get_msg_id(), 0x5555_aaaa);
        assert_eq!(changed.kind(), m.kind());
        let bytes = changed.encode().unwrap();
        assert_eq!(&bytes[4..8], &[0xaa, 0xaa, 0x55, 0x55]);
        changed.set_msg_id(m.get_msg_id());
        assert_eq!(&changed, m);
    }
}
