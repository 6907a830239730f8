use syncdaq::addr::SockAddr;
use syncdaq::ctrl_msg::CtrlMsg;
use syncdaq::dispatch::DispatchError;
use syncdaq::exchange::{Exchange, Phase, Step};
use syncdaq::session::query_cmd;
use syncdaq::simulator::reply_to;
use syncdaq::wire::FormatError;

fn addr(n: u8) -> SockAddr {
    SockAddr::V4 { ip: [192, 168, 1, n], port: 3000 }
}

/// Reads a datagram and takes the reply in it.
fn deliver(x: &mut Exchange, from: SockAddr, datagram: &[u8]) -> Result<(), DispatchError> {
    let reply = x.read(datagram)?;
    x.take(from, reply);
    Ok(())
}

fn answer(datagram: &[u8]) -> Vec<u8> {
    reply_to(&CtrlMsg::decode(datagram).unwrap()).encode().unwrap()
}

#[test]
fn unicast_steps() {
    let mut x = Exchange::unicast(query_cmd(), 2);
    assert_eq!(x.current_phase(), Phase::Sending { target: 0 });
    assert_eq!(x.step(), Step::Send { target: 0 });
    let first = x.send_next_as(11, vec![addr(1)]).unwrap();
    assert_eq!(first, vec![1, 0, 0, 0, 11, 0, 0, 0]);
    assert_eq!(x.last_msg_id(), 11);
    assert_eq!(x.command(), &CtrlMsg::Query { msg_id: 11 });
    assert_eq!(x.step(), Step::Receive { blocking: false });
    x.on_silence();
    assert_eq!(x.step(), Step::Send { target: 1 });
    let second = x.send_next_as(22, vec![addr(2)]).unwrap();
    assert_eq!(x.step(), Step::Receive { blocking: false });
    deliver(&mut x, addr(1), &answer(&first)).unwrap();
    assert_eq!(x.step(), Step::Receive { blocking: false });
    x.on_silence();
    assert_eq!(x.step(), Step::Receive { blocking: true });
    deliver(&mut x, addr(2), &answer(&second)).unwrap();
    assert_eq!(x.step(), Step::Finish);
    assert_eq!(x.current_phase(), Phase::Done);
    let s = x.finish();
    assert!(s.no_reply.is_empty());
    assert!(s.invalid_reply.is_empty());
    assert_eq!(s.normal_reply.len(), 2);
    assert_eq!(s.normal_reply[0].0, addr(1));
    assert_eq!(s.normal_reply[0].1.get_msg_id(), 11);
    assert_eq!(s.normal_reply[1].0, addr(2));
    assert_eq!(s.normal_reply[1].1.get_msg_id(), 22);
}

#[test]
fn all_answered_while_sending_skips_the_wait() {
    let mut x = Exchange::unicast(query_cmd(), 1);
    let sent = x.send_next_as(5, vec![addr(1)]).unwrap();
    deliver(&mut x, addr(1), &answer(&sent)).unwrap();
    assert_eq!(x.step(), Step::Receive { blocking: false });
    x.on_silence();
    assert_eq!(x.step(), Step::Finish);
}

#[test]
fn timeout_reports_the_silent_targets() {
    let mut x = Exchange::unicast(query_cmd(), 3);
    let mut sent = Vec::new();
    for n in 1..=3u8 {
        assert_eq!(x.step(), Step::Send { target: n as usize - 1 });
        sent.push(x.send_next_as(100 * n as u32, vec![addr(n), addr(n + 100)]).unwrap());
        x.on_silence();
    }
    assert_eq!(x.step(), Step::Receive { blocking: true });
    deliver(&mut x, addr(2), &answer(&sent[1])).unwrap();
    assert_eq!(x.step(), Step::Receive { blocking: true });
    x.on_silence();
    assert_eq!(x.step(), Step::Finish);
    let s = x.finish();
    assert_eq!(
        s.no_reply,
        vec![(vec![addr(1), addr(101)], 100), (vec![addr(3), addr(103)], 300)]
    );
    assert_eq!(s.normal_reply.len(), 1);
    assert_eq!(s.normal_reply[0].1.get_msg_id(), 200);
}

#[test]
fn no_targets_is_done_at_once() {
    let x = Exchange::unicast(query_cmd(), 0);
    assert_eq!(x.step(), Step::Finish);
    let s = x.finish();
    assert!(s.no_reply.is_empty() && s.invalid_reply.is_empty() && s.normal_reply.is_empty());
}

#[test]
fn out_of_turn_is_refused() {
    let mut x = Exchange::unicast(query_cmd(), 1);
    assert_eq!(deliver(&mut x, addr(1), &[1, 0, 0, 0, 0, 0, 0, 0]), Err(DispatchError::OutOfTurn));
    x.on_silence();
    assert_eq!(x.step(), Step::Send { target: 0 });
    x.send_next_as(1, vec![addr(1)]).unwrap();
    assert_eq!(x.send_next_as(2, vec![addr(1)]), Err(DispatchError::OutOfTurn));
    assert_eq!(x.send_next(vec![addr(1)]), Err(DispatchError::OutOfTurn));
    assert_eq!(x.last_msg_id(), 1);
    x.on_silence();
    x.on_silence();
    assert_eq!(x.step(), Step::Finish);
    x.on_silence();
    assert_eq!(x.step(), Step::Finish);
    assert_eq!(deliver(&mut x, addr(1), &[1, 0, 0, 0, 0, 0, 0, 0]), Err(DispatchError::OutOfTurn));
    assert_eq!(x.finish().no_reply, vec![(vec![addr(1)], 1)]);
}

#[test]
fn bad_replies_are_refused() {
    let mut x = Exchange::unicast(query_cmd(), 1);
    x.send_next_as(1, vec![addr(1)]).unwrap();
    assert_eq!(
        deliver(&mut x, addr(1), &[0xee, 0, 0, 0, 1, 0, 0, 0]),
        Err(DispatchError::Format { error: FormatError::UnknownMagic { magic: 0xee } })
    );
    assert_eq!(
        deliver(&mut x, addr(1), &[2, 0, 0, 0xff, 9, 0, 0, 0]),
        Err(DispatchError::NotPending { msg_id: 9 })
    );
    assert_eq!(x.step(), Step::Receive { blocking: false });
    assert_eq!(x.finish().no_reply, vec![(vec![addr(1)], 1)]);
}

#[test]
fn wrong_count_is_not_sent() {
    let cmd = CtrlMsg::I2CWrite { msg_id: 0, dev_addr: 1, len: 3, payload: vec![] };
    let mut x = Exchange::unicast(cmd.clone(), 1);
    let refused = Err(DispatchError::Format { error: FormatError::LengthMismatch });
    assert_eq!(x.send_next_as(4, vec![addr(1)]), refused);
    assert_eq!(x.send_next(vec![addr(1)]), refused);
    assert_eq!(x.step(), Step::Send { target: 0 });
    let mut b = Exchange::broadcast(cmd);
    assert_eq!(b.send_next(vec![]), refused);
    assert_eq!(b.step(), Step::Send { target: 0 });
    assert!(x.finish().no_reply.is_empty());
}

#[test]
fn fresh_identifiers() {
    let mut x = Exchange::unicast(query_cmd(), 40);
    let mut ids = Vec::new();
    for n in 0..40u8 {
        let sent = x.send_next(vec![addr(n)]).unwrap();
        assert_eq!(CtrlMsg::decode(&sent), Ok(CtrlMsg::Query { msg_id: x.last_msg_id() }));
        ids.push(x.last_msg_id());
        x.on_silence();
    }
    assert_eq!(x.step(), Step::Receive { blocking: true });
    ids.sort();
    ids.dedup();
    assert!(ids.len() > 1);
    let silent: Vec<u32> = x.finish().no_reply.iter().map(|e| e.1).collect();
    assert_eq!(silent, ids);
}

#[test]
fn broadcast_with_three_devices() {
    let mut x = Exchange::broadcast(query_cmd());
    assert_eq!(x.step(), Step::Send { target: 0 });
    let sent = x.send_next(vec![]).unwrap();
    let id = x.last_msg_id();
    assert_eq!(CtrlMsg::decode(&sent), Ok(CtrlMsg::Query { msg_id: id }));
    assert_eq!(x.step(), Step::Receive { blocking: false });
    deliver(&mut x, addr(1), &answer(&sent)).unwrap();
    assert_eq!(x.step(), Step::Receive { blocking: false });
    x.on_silence();
    assert_eq!(x.step(), Step::Receive { blocking: true });
    deliver(&mut x, addr(2), &answer(&sent)).unwrap();
    assert_eq!(x.step(), Step::Receive { blocking: true });
    deliver(&mut x, addr(3), &answer(&sent)).unwrap();
    assert_eq!(x.step(), Step::Receive { blocking: true });
    x.on_silence();
    assert_eq!(x.step(), Step::Finish);
    let s = x.finish();
    assert_eq!(s.normal_reply.len(), 3);
    assert!(s.no_reply.is_empty());
    assert!(s.invalid_reply.is_empty());
    for (n, (from, reply)) in s.normal_reply.iter().enumerate() {
        assert_eq!(*from, addr(n as u8 + 1));
        assert_eq!(reply.get_msg_id(), id);
    }
}

#[test]
fn broadcast_takes_any_identifier() {
    let mut x = Exchange::broadcast(query_cmd());
    x.send_next_as(1, vec![]).unwrap();
    deliver(&mut x, addr(1), &[2, 0, 0, 0xff, 77, 0, 0, 0]).unwrap();
    let error_reply = [0xff, 0xff, 0xff, 0xff, 1, 0, 0, 0, 0, 0, 0, 0, 0, 0, 0, 0];
    deliver(&mut x, addr(2), &error_reply).unwrap();
    x.on_silence();
    x.on_silence();
    let s = x.finish();
    assert_eq!(s.normal_reply, vec![(addr(1), CtrlMsg::SyncReply { msg_id: 77 })]);
    assert_eq!(s.invalid_reply.len(), 1);
    assert!(s.no_reply.is_empty());
}
