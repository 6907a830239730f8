use crossbeam::channel::{bounded, unbounded};
use syncdaq::capture::{CaptureState, RecvCmd};
use syncdaq::payload::Payload;
use syncdaq::payload::CComplex;
use syncdaq::pipeline::{
    fetch, forward, ingest, is_shutdown, shutdown_requested, Forwarded, CMD_QUEUE_CAPACITY,
    FRAME_QUEUE_CAPACITY,
};
use syncdaq::pool::FramePool;

fn datagram(pkt_cnt: u64, fill: u8) -> Vec<u8> {
    let mut p = Payload::default();
    p.head_magic = 0xa1a2_a3a4;
    p.version = 7;
    p.port_id = 2;
    p.data_type = 100 + pkt_cnt as u32;
    p.pkt_cnt = pkt_cnt;
    p.tail_magic = 0x0102_0304_0506_0708;
    p.data = [fill; 8192];
    p.to_bytes()
}

#[test]
fn queue_capacities() {
    assert_eq!(FRAME_QUEUE_CAPACITY, 8192);
    assert_eq!(CMD_QUEUE_CAPACITY, 32);
}

#[test]
fn acquired_buffer_is_blank() {
    let pool = FramePool::new();
    let b = pool.acquire();
    assert_eq!(b.pkt_cnt, 0);
    assert!(b.data.iter().all(|&x| x == 0));
}

#[test]
fn buffer_is_reset_on_reuse() {
    let pool = FramePool::new();
    for round in 0..100u64 {
        let mut held = Vec::new();
        for i in 0..40u64 {
            let mut b = pool.acquire();
            assert_eq!(b.pkt_cnt, 0, "round {round}");
            assert!(b.data.iter().all(|&x| x == 0), "round {round}");
            b.pkt_cnt = 1000 + i;
            b.data[17] = 0xee;
            b.data[8191] = 0x01;
            held.push(b);
        }
    }
}

#[test]
fn loaded_buffer_holds_the_frame() {
    let pool = FramePool::new();
    let bytes = datagram(41, 0x5a);
    let b = pool.load(&bytes).unwrap();
    assert_eq!(*b, Payload::from_bytes(&bytes).unwrap());
    assert_eq!(b.pkt_cnt, 41);
    assert!(pool.load(&bytes[..8212]).is_none());
    assert!(pool.load(&[]).is_none());
}

#[test]
fn filler_buffer() {
    let pool = FramePool::new();
    let received = Payload::from_bytes(&datagram(9, 0x77)).unwrap();
    {
        let mut dirty = pool.acquire();
        dirty.head_magic = 0xdead_beef;
        dirty.data[0] = 1;
    }
    let f = pool.filler(&received, 5);
    assert_eq!(f.pkt_cnt, 5);
    assert_eq!(f.head_magic, 0xa1a2_a3a4);
    assert_eq!(f.version, 7);
    assert_eq!(f.port_id, 2);
    assert_eq!(f.data_type, 109);
    assert_eq!(f.tail_magic, 0x0102_0304_0506_0708);
    assert!(f.data.iter().all(|&x| x == 0));
}

#[test]
fn blank_buffer_carries_the_counter() {
    let pool = FramePool::new();
    let b = pool.blank(123);
    assert_eq!(b.pkt_cnt, 123);
    assert!(b.data.iter().all(|&x| x == 0));
}

#[test]
fn gap_filling_through_the_queue() {
    let pool = FramePool::new();
    let (tx, rx) = unbounded();
    let mut state = CaptureState::new();
    for p in [0u64, 1, 4, 5] {
        let r = ingest(&mut state, &pool, &tx, &datagram(p, p as u8 + 1));
        assert!(matches!(r, Some(Forwarded::Done)));
    }
    let frames: Vec<_> = rx.try_iter().collect();
    let counters: Vec<u64> = frames.iter().map(|f| f.pkt_cnt).collect();
    assert_eq!(counters, vec![0, 1, 2, 3, 4, 5]);
    for f in &frames {
        assert_eq!(f.head_magic, 0xa1a2_a3a4);
        assert_eq!(f.version, 7);
        assert_eq!(f.port_id, 2);
        assert_eq!(f.tail_magic, 0x0102_0304_0506_0708);
        let filler = f.pkt_cnt == 2 || f.pkt_cnt == 3;
        let origin = if filler { 4 } else { f.pkt_cnt };
        assert_eq!(f.data_type, 100 + origin as u32);
        let want = if filler { 0 } else { f.pkt_cnt as u8 + 1 };
        assert!(f.data.iter().all(|&x| x == want));
    }
    assert_eq!(state.ndropped, 2);
    assert_eq!(state.nreceived, 6);
    assert_eq!(state.next_cnt, Some(6));
}

#[test]
fn wrong_size_datagram_is_skipped() {
    let pool = FramePool::new();
    let (tx, rx) = unbounded();
    let mut state = CaptureState::new();
    let bytes = datagram(3, 1);
    assert!(ingest(&mut state, &pool, &tx, &bytes[..8212]).is_none());
    assert!(ingest(&mut state, &pool, &tx, &[]).is_none());
    assert_eq!(state, CaptureState::new());
    assert!(rx.is_empty());
}

#[test]
fn late_frame_is_not_enqueued() {
    let pool = FramePool::new();
    let (tx, rx) = unbounded();
    let mut state = CaptureState::new();
    assert!(matches!(ingest(&mut state, &pool, &tx, &datagram(10, 1)), Some(Forwarded::Done)));
    assert!(matches!(ingest(&mut state, &pool, &tx, &datagram(7, 1)), Some(Forwarded::Skipped)));
    assert_eq!(rx.len(), 1);
    assert_eq!(state.next_cnt, Some(11));
}

#[test]
fn backpressure() {
    let pool = FramePool::new();
    let (tx, rx) = bounded(4);
    let mut state = CaptureState::new();
    for p in 0..4u64 {
        let r = ingest(&mut state, &pool, &tx, &datagram(p, 0x10 + p as u8));
        assert!(matches!(r, Some(Forwarded::Done)));
    }
    let mut held = match ingest(&mut state, &pool, &tx, &datagram(4, 0x14)) {
        Some(Forwarded::Stalled(back)) => back,
        _ => panic!("the fifth frame has to stall"),
    };
    assert_eq!(held.pkt_cnt, 4);
    assert!(held.data.iter().all(|&x| x == 0x14));
    assert_eq!(state.next_cnt, Some(4));
    for _ in 0..10 {
        held = match forward(&mut state, &pool, &tx, held) {
            Forwarded::Stalled(back) => back,
            _ => panic!("the queue is still full"),
        };
        assert_eq!(held.pkt_cnt, 4);
    }
    assert_eq!(rx.len(), 4);
    let first = rx.recv().unwrap();
    assert_eq!(first.pkt_cnt, 0);
    assert!(first.data.iter().all(|&x| x == 0x10));
    assert!(matches!(forward(&mut state, &pool, &tx, held), Forwarded::Done));
    let rest: Vec<_> = rx.try_iter().collect();
    assert_eq!(rest.iter().map(|f| f.pkt_cnt).collect::<Vec<_>>(), vec![1, 2, 3, 4]);
    for f in &rest {
        assert!(f.data.iter().all(|&x| x == 0x10 + f.pkt_cnt as u8));
    }
    assert_eq!(state.ndropped, 0);
    assert_eq!(state.nreceived, 5);
}

#[test]
fn stall_in_the_middle_of_a_gap() {
    let pool = FramePool::new();
    let (tx, rx) = bounded(3);
    let mut state = CaptureState::new();
    assert!(matches!(ingest(&mut state, &pool, &tx, &datagram(0, 1)), Some(Forwarded::Done)));
    let held = match ingest(&mut state, &pool, &tx, &datagram(5, 6)) {
        Some(Forwarded::Stalled(back)) => back,
        _ => panic!("the gap does not fit in the queue"),
    };
    assert_eq!(state, CaptureState { next_cnt: Some(3), ndropped: 2, nreceived: 3 });
    assert_eq!(rx.try_iter().map(|f| f.pkt_cnt).collect::<Vec<_>>(), vec![0, 1, 2]);
    assert!(matches!(forward(&mut state, &pool, &tx, held), Forwarded::Done));
    let rest: Vec<_> = rx.try_iter().collect();
    assert_eq!(rest.iter().map(|f| f.pkt_cnt).collect::<Vec<_>>(), vec![3, 4, 5]);
    assert!(rest[2].data.iter().all(|&x| x == 6));
    assert!(rest[0].data.iter().all(|&x| x == 0));
    assert_eq!(state, CaptureState { next_cnt: Some(6), ndropped: 4, nreceived: 6 });
}

#[test]
fn consumer_gone() {
    let pool = FramePool::new();
    let (tx, rx) = bounded(4);
    drop(rx);
    let mut state = CaptureState::new();
    assert!(matches!(ingest(&mut state, &pool, &tx, &datagram(0, 1)), Some(Forwarded::Closed)));
}

#[test]
fn shutdown_command() {
    let (tx, rx) = bounded::<RecvCmd>(CMD_QUEUE_CAPACITY);
    assert!(!shutdown_requested(&rx));
    tx.send(RecvCmd::Destroy).unwrap();
    assert!(shutdown_requested(&rx));
    assert!(!shutdown_requested(&rx));
    drop(tx);
    assert!(!shutdown_requested(&rx));
}

#[test]
fn every_command_is_a_shutdown() {
    assert!(is_shutdown(Some(RecvCmd::Destroy)));
    assert!(!is_shutdown(None));
}

/// A datagram whose sample `i` is `(base + i, -(base + i))`, with wrapping.
fn ramp(pkt_cnt: u64, base: i16) -> Vec<u8> {
    let mut p = Payload::default();
    p.pkt_cnt = pkt_cnt;
    for i in 0..2048usize {
        let v = base.wrapping_add(i as i16);
        p.data[4 * i..4 * i + 2].copy_from_slice(&v.to_le_bytes());
        p.data[4 * i + 2..4 * i + 4].copy_from_slice(&v.wrapping_neg().to_le_bytes());
    }
    p.to_bytes()
}

fn sample(v: i16) -> CComplex {
    CComplex { re: v, im: v.wrapping_neg() }
}

#[test]
fn fetch_runs_through_the_frames() {
    let pool = FramePool::new();
    let (tx, rx) = unbounded();
    let mut state = CaptureState::new();
    for p in 0..3u64 {
        let r = ingest(&mut state, &pool, &tx, &ramp(p, 5000 * p as i16));
        assert!(matches!(r, Some(Forwarded::Done)));
    }
    let mut held = None;
    let mut cursor = 0usize;
    let mut out = vec![sample(-1)];
    assert!(fetch(&mut held, &mut cursor, &rx, 3000, &mut out));
    assert_eq!(out.len(), 3001);
    assert_eq!(out[0], sample(-1));
    assert_eq!(out[1], sample(0));
    assert_eq!(out[2048], sample(2047));
    assert_eq!(out[2049], sample(5000));
    assert_eq!(out[3000], sample(5951));
    assert_eq!(cursor, 952);
    assert_eq!(held.as_ref().unwrap().pkt_cnt, 1);
    assert_eq!(rx.len(), 1);

    let mut more = Vec::new();
    assert!(fetch(&mut held, &mut cursor, &rx, 1096, &mut more));
    assert_eq!(more[0], sample(5952));
    assert_eq!(more[1095], sample(7047));
    assert_eq!(cursor, 2048);
    assert_eq!(rx.len(), 1);

    assert!(fetch(&mut held, &mut cursor, &rx, 0, &mut more));
    assert_eq!(more.len(), 1096);
    assert_eq!(rx.len(), 1);

    assert!(fetch(&mut held, &mut cursor, &rx, 1, &mut more));
    assert_eq!(more[1096], sample(10000));
    assert_eq!(cursor, 1);
    assert_eq!(held.as_ref().unwrap().pkt_cnt, 2);
}

#[test]
fn fetch_from_a_closed_queue() {
    let pool = FramePool::new();
    let (tx, rx) = unbounded();
    let mut state = CaptureState::new();
    assert!(matches!(ingest(&mut state, &pool, &tx, &ramp(0, 0)), Some(Forwarded::Done)));
    drop(tx);
    let mut held = None;
    let mut cursor = 0usize;
    let mut out = Vec::new();
    assert!(!fetch(&mut held, &mut cursor, &rx, 2050, &mut out));
    assert_eq!(out.len(), 2048);
    assert_eq!(out[2047], sample(2047));
    assert_eq!(cursor, 2048);
    assert!(!fetch(&mut held, &mut cursor, &rx, 1, &mut out));
    assert_eq!(out.len(), 2048);
    let mut none = None;
    let mut at = 0usize;
    assert!(!fetch(&mut none, &mut at, &rx, 1, &mut out));
    assert!(fetch(&mut none, &mut at, &rx, 0, &mut out));
    assert!(none.is_none());
}
