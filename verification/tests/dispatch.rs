use syncdaq::addr::SockAddr;
use syncdaq::ctrl_msg::CtrlMsg;
use syncdaq::dispatch::{CmdReplySummary, DispatchError, Dispatcher};
use syncdaq::health::Health;
use syncdaq::wire::FormatError;

fn v4(last: u8) -> SockAddr {
    SockAddr::V4 { ip: [192, 168, 1, last], port: 3000 }
}

fn v6(last: u8) -> SockAddr {
    let mut ip = [0u8; 16];
    ip[15] = last;
    SockAddr::V6 { ip, port: 3000, flowinfo: 0, scope_id: 0 }
}

fn query_reply(msg_id: u32) -> CtrlMsg {
    CtrlMsg::QueryReply {
        msg_id,
        fm_ver: 0x2412_2420,
        tick_cnt1: 10,
        tick_cnt2: 10_000_010,
        trans_state: 0,
        locked: 0xf,
        health: Health::T510Health { rfdc_restart_cnt: 0, temperature: 35 },
    }
}

/// Reads a datagram and takes the reply in it.
fn deliver(d: &mut Dispatcher, from: SockAddr, datagram: &[u8]) -> Result<bool, DispatchError> {
    let reply = d.read_reply(datagram)?;
    Ok(d.take_reply(from, reply))
}

/// Reads a datagram and sorts the reply in it in, as for a broadcast.
fn deliver_broadcast(
    d: &mut Dispatcher,
    from: SockAddr,
    datagram: &[u8],
) -> Result<(), FormatError> {
    let reply = CtrlMsg::decode(datagram)?;
    d.record(from, reply);
    Ok(())
}

fn invalid(msg_id: u32) -> CtrlMsg {
    CtrlMsg::InvalidMsg { msg_id, err_code: 1, len: 7, description: b"invalid".to_vec() }
}

#[test]
fn new_dispatcher_is_empty() {
    let d = Dispatcher::new();
    assert!(d.all_replied());
    assert_eq!(d.n_pending(), 0);
    assert_eq!(
        d.finish(),
        CmdReplySummary { no_reply: vec![], invalid_reply: vec![], normal_reply: vec![] }
    );
}

#[test]
fn stamp_sets_the_identifier_and_writes() {
    let mut d = Dispatcher::new();
    let mut cmd = CtrlMsg::I2CRead { msg_id: 0, dev_addr: 2, nbytes: 3 };
    let bytes = d.stamp(&mut cmd, 0x0a0b_0c0d, vec![v4(1)]).unwrap();
    assert_eq!(cmd, CtrlMsg::I2CRead { msg_id: 0x0a0b_0c0d, dev_addr: 2, nbytes: 3 });
    assert_eq!(bytes, vec![4, 3, 0, 0, 0x0d, 0x0c, 0x0b, 0x0a, 2, 0, 0, 0, 3, 0, 0, 0]);
    assert!(d.is_pending(0x0a0b_0c0d));
    assert!(!d.is_pending(0));
    assert!(!d.all_replied());
    assert_eq!(d.n_pending(), 1);
}

#[test]
fn stamp_refuses_a_wrong_count() {
    let mut d = Dispatcher::new();
    let mut cmd = CtrlMsg::I2CWrite { msg_id: 0, dev_addr: 2, len: 9, payload: vec![1] };
    assert_eq!(d.stamp(&mut cmd, 5, vec![v4(1)]), Err(FormatError::LengthMismatch));
    assert_eq!(cmd.get_msg_id(), 5);
    assert!(!d.is_pending(5));
    assert!(d.all_replied());
    assert_eq!(Dispatcher::stamp_broadcast(&mut cmd, 6), Err(FormatError::LengthMismatch));
    assert_eq!(cmd.get_msg_id(), 6);
    assert!(d.all_replied());
}

#[test]
fn reply_classification() {
    let mut d = Dispatcher::new();
    let mut cmd = CtrlMsg::Query { msg_id: 0 };
    d.stamp(&mut cmd, 30, vec![v4(3)]).unwrap();
    d.stamp(&mut cmd, 10, vec![v4(1), v6(1)]).unwrap();
    d.stamp(&mut cmd, 20, vec![v4(2)]).unwrap();
    d.stamp(&mut cmd, 40, vec![]).unwrap();
    assert_eq!(deliver(&mut d, v4(2), &invalid(20).encode().unwrap()), Ok(false));
    assert_eq!(deliver(&mut d, v4(3), &query_reply(30).encode().unwrap()), Ok(false));
    assert!(d.is_pending(10));
    assert!(!d.is_pending(20));
    assert!(!d.is_pending(30));
    let s = d.finish();
    assert_eq!(s.invalid_reply, vec![(v4(2), invalid(20))]);
    assert_eq!(s.normal_reply, vec![(v4(3), query_reply(30))]);
    assert_eq!(s.no_reply, vec![(vec![v4(1), v6(1)], 10), (vec![], 40)]);
}

#[test]
fn all_replied_is_reported() {
    let mut d = Dispatcher::new();
    let mut cmd = CtrlMsg::StreamStop { msg_id: 0 };
    d.stamp(&mut cmd, 1, vec![v4(1)]).unwrap();
    d.stamp(&mut cmd, 2, vec![v4(2)]).unwrap();
    assert!(!d.take_reply(v4(2), CtrlMsg::StreamStopReply { msg_id: 2 }));
    assert!(d.take_reply(v4(1), CtrlMsg::StreamStopReply { msg_id: 1 }));
    assert!(d.all_replied());
    let s = d.finish();
    assert!(s.no_reply.is_empty());
    assert!(s.invalid_reply.is_empty());
    assert_eq!(
        s.normal_reply,
        vec![
            (v4(2), CtrlMsg::StreamStopReply { msg_id: 2 }),
            (v4(1), CtrlMsg::StreamStopReply { msg_id: 1 }),
        ]
    );
}

#[test]
fn stray_reply_is_refused() {
    let mut d = Dispatcher::new();
    let mut cmd = CtrlMsg::Query { msg_id: 0 };
    d.stamp(&mut cmd, 7, vec![v4(1)]).unwrap();
    assert_eq!(
        deliver(&mut d, v4(1), &query_reply(8).encode().unwrap()),
        Err(DispatchError::NotPending { msg_id: 8 })
    );
    assert_eq!(
        d.read_reply(&query_reply(9).encode().unwrap()),
        Err(DispatchError::NotPending { msg_id: 9 })
    );
    assert_eq!(d.read_reply(&query_reply(7).encode().unwrap()), Ok(query_reply(7)));
    assert_eq!(deliver(&mut d, v4(1), &query_reply(7).encode().unwrap()), Ok(true));
    assert_eq!(
        deliver(&mut d, v4(1), &query_reply(7).encode().unwrap()),
        Err(DispatchError::NotPending { msg_id: 7 })
    );
    let s = d.finish();
    assert_eq!(s.normal_reply, vec![(v4(1), query_reply(7))]);
    assert!(s.invalid_reply.is_empty());
    assert!(s.no_reply.is_empty());
}

#[test]
fn garbled_reply_is_refused() {
    let mut d = Dispatcher::new();
    let mut cmd = CtrlMsg::Query { msg_id: 0 };
    d.stamp(&mut cmd, 7, vec![v4(1)]).unwrap();
    assert_eq!(
        deliver(&mut d, v4(1), &[9, 0, 0, 0, 7, 0, 0, 0]),
        Err(DispatchError::Format { error: FormatError::UnknownMagic { magic: 9 } })
    );
    assert_eq!(
        deliver(&mut d, v4(1), &[1, 0, 0]),
        Err(DispatchError::Format { error: FormatError::Truncated })
    );
    assert_eq!(deliver_broadcast(&mut d, v4(1), &[1, 0, 0]), Err(FormatError::Truncated));
    let s = d.finish();
    assert_eq!(s.no_reply, vec![(vec![v4(1)], 7)]);
    assert!(s.normal_reply.is_empty());
    assert!(s.invalid_reply.is_empty());
}

#[test]
fn reply_in_a_receive_buffer() {
    let mut d = Dispatcher::new();
    let mut cmd = CtrlMsg::Query { msg_id: 0 };
    d.stamp(&mut cmd, 7, vec![v4(1)]).unwrap();
    let mut buf = query_reply(7).encode().unwrap();
    buf.resize(9000, 0);
    assert_eq!(deliver(&mut d, v4(1), &buf), Ok(true));
    assert_eq!(d.finish().normal_reply, vec![(v4(1), query_reply(7))]);
}

#[test]
fn same_identifier_twice_keeps_the_later_target() {
    let mut d = Dispatcher::new();
    d.register(5, vec![v4(1)]);
    d.register(5, vec![v4(2), v4(3)]);
    d.register(4, vec![v4(4)]);
    assert_eq!(d.n_pending(), 2);
    assert_eq!(d.finish().no_reply, vec![(vec![v4(4)], 4), (vec![v4(2), v4(3)], 5)]);
}

#[test]
fn silent_targets_by_ascending_identifier() {
    let mut d = Dispatcher::new();
    for id in [9u32, 3, 0xffff_ffff, 0, 7, 5] {
        d.register(id, vec![v4(id as u8)]);
    }
    assert!(!d.take_reply(v4(7), CtrlMsg::SyncReply { msg_id: 7 }));
    let ids: Vec<u32> = d.finish().no_reply.iter().map(|e| e.1).collect();
    assert_eq!(ids, vec![0, 3, 5, 9, 0xffff_ffff]);
}

#[test]
fn broadcast_scenario() {
    let mut cmd = CtrlMsg::Query { msg_id: 0 };
    let bytes = Dispatcher::stamp_broadcast(&mut cmd, 0x1234_5678).unwrap();
    assert_eq!(bytes, vec![1, 0, 0, 0, 0x78, 0x56, 0x34, 0x12]);
    let mut d = Dispatcher::new();
    for dev in 1..=3u8 {
        let reply = query_reply(cmd.get_msg_id()).encode().unwrap();
        assert_eq!(deliver_broadcast(&mut d, v4(dev), &reply), Ok(()));
    }
    let s = d.finish();
    assert_eq!(s.normal_reply.len(), 3);
    assert!(s.no_reply.is_empty());
    assert!(s.invalid_reply.is_empty());
    for (i, (from, reply)) in s.normal_reply.iter().enumerate() {
        assert_eq!(*from, v4(i as u8 + 1));
        assert_eq!(reply.get_msg_id(), 0x1234_5678);
    }
}

#[test]
fn broadcast_sorts_error_replies_too() {
    let mut d = Dispatcher::new();
    assert_eq!(deliver_broadcast(&mut d, v4(1), &invalid(1).encode().unwrap()), Ok(()));
    assert_eq!(deliver_broadcast(&mut d, v4(2), &query_reply(2).encode().unwrap()), Ok(()));
    d.record(v6(3), invalid(3));
    let s = d.finish();
    assert_eq!(s.invalid_reply, vec![(v4(1), invalid(1)), (v6(3), invalid(3))]);
    assert_eq!(s.normal_reply, vec![(v4(2), query_reply(2))]);
    assert!(s.no_reply.is_empty());
}
