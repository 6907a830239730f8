use syncdaq::payload::{
    n_pt_per_frame, CComplex, Payload, FRAME_BYTES, FRAME_HEADER_BYTES, N_BYTE_PER_FRAME,
    N_PT_PER_FRAME,
};

fn sample_frame() -> Payload {
    let mut p = Payload::default();
    p.head_magic = 0x1122_3344;
    p.version = 2;
    p.port_id = 3;
    p.data_type = 4;
    p.pkt_cnt = 0x0102_0304_0506_0708;
    p.tail_magic = 0xffee_ddcc_bbaa_9988;
    for (i, b) in p.data.iter_mut().enumerate() {
        *b = (i % 251) as u8;
    }
    p
}

#[test]
fn frame_sizes() {
    assert_eq!(N_BYTE_PER_FRAME, 8192);
    assert_eq!(FRAME_HEADER_BYTES, 32);
    assert_eq!(FRAME_BYTES, 8224);
    assert_eq!(N_PT_PER_FRAME, 2048);
}

#[test]
fn points_per_frame() {
    assert_eq!(n_pt_per_frame::<i16>(), 2048);
    assert_eq!(n_pt_per_frame::<u8>(), 4096);
    assert_eq!(n_pt_per_frame::<i32>(), 1024);
    assert_eq!(n_pt_per_frame::<u64>(), 512);
    assert_eq!(n_pt_per_frame::<i16>(), N_PT_PER_FRAME);
}

#[test]
fn default_frame_is_zero() {
    let p = Payload::default();
    assert_eq!(p.head_magic, 0);
    assert_eq!(p.version, 0);
    assert_eq!(p.port_id, 0);
    assert_eq!(p.data_type, 0);
    assert_eq!(p.pkt_cnt, 0);
    assert_eq!(p.tail_magic, 0);
    assert!(p.data.iter().all(|&b| b == 0));
}

#[test]
fn frame_bytes_layout() {
    let p = sample_frame();
    let bytes = p.to_bytes();
    assert_eq!(bytes.len(), 8224);
    assert_eq!(&bytes[0..4], &[0x44, 0x33, 0x22, 0x11]);
    assert_eq!(&bytes[4..8], &[2, 0, 0, 0]);
    assert_eq!(&bytes[8..12], &[3, 0, 0, 0]);
    assert_eq!(&bytes[12..16], &[4, 0, 0, 0]);
    assert_eq!(&bytes[16..24], &[8, 7, 6, 5, 4, 3, 2, 1]);
    assert_eq!(&bytes[24..32], &[0x88, 0x99, 0xaa, 0xbb, 0xcc, 0xdd, 0xee, 0xff]);
    assert_eq!(&bytes[32..], &p.data[..]);
}

#[test]
fn frame_round_trip() {
    let p = sample_frame();
    assert_eq!(Payload::from_bytes(&p.to_bytes()), Some(p));
}

#[test]
fn datagram_of_other_size_is_no_frame() {
    let p = sample_frame();
    let bytes = p.to_bytes();
    assert_eq!(Payload::from_bytes(&bytes[..8223]), None);
    assert_eq!(Payload::from_bytes(&bytes[..8212]), None);
    assert_eq!(Payload::from_bytes(&[]), None);
    let mut longer = bytes.clone();
    longer.push(0);
    assert_eq!(Payload::from_bytes(&longer), None);
}

#[test]
fn load_leaves_frame_on_wrong_size() {
    let mut p = sample_frame();
    assert!(!p.load(&[1, 2, 3]));
    assert_eq!(p, sample_frame());
    let mut q = Payload::default();
    assert!(q.load(&p.to_bytes()));
    assert_eq!(q, p);
}

#[test]
fn copy_header_keeps_samples() {
    let src = sample_frame();
    let mut dst = Payload::default();
    dst.data[5] = 77;
    dst.copy_header(&src);
    assert_eq!(dst.head_magic, src.head_magic);
    assert_eq!(dst.version, src.version);
    assert_eq!(dst.port_id, src.port_id);
    assert_eq!(dst.data_type, src.data_type);
    assert_eq!(dst.pkt_cnt, src.pkt_cnt);
    assert_eq!(dst.tail_magic, src.tail_magic);
    assert_eq!(dst.data[5], 77);
    assert!(dst.data.iter().enumerate().all(|(i, &b)| i == 5 || b == 0));
}

#[test]
fn reset_clears_counter_and_samples() {
    let mut p = sample_frame();
    p.reset();
    assert_eq!(p.pkt_cnt, 0);
    assert!(p.data.iter().all(|&b| b == 0));
    assert_eq!(p.head_magic, 0x1122_3344);
    assert_eq!(p.version, 2);
    assert_eq!(p.port_id, 3);
    assert_eq!(p.data_type, 4);
    assert_eq!(p.tail_magic, 0xffee_ddcc_bbaa_9988);
}

#[test]
fn filler_has_header_and_no_samples() {
    let received = sample_frame();
    let mut f = Payload::default();
    f.make_filler(&received, 41);
    assert_eq!(f.pkt_cnt, 41);
    assert_eq!(f.head_magic, received.head_magic);
    assert_eq!(f.version, received.version);
    assert_eq!(f.port_id, received.port_id);
    assert_eq!(f.data_type, received.data_type);
    assert_eq!(f.tail_magic, received.tail_magic);
    assert!(f.data.iter().all(|&b| b == 0));
}

#[test]
fn samples_are_signed_pairs() {
    let mut p = Payload::default();
    p.data[0..4].copy_from_slice(&[0x01, 0x00, 0xff, 0xff]);
    p.data[4..8].copy_from_slice(&[0x00, 0x80, 0xff, 0x7f]);
    p.data[8188..8192].copy_from_slice(&[0x34, 0x12, 0xcc, 0xed]);
    assert_eq!(p.sample_at(0), CComplex { re: 1, im: -1 });
    assert_eq!(p.sample_at(1), CComplex { re: i16::MIN, im: i16::MAX });
    assert_eq!(p.sample_at(2047), CComplex { re: 0x1234, im: -0x1234 });
    assert_eq!(p.sample_at(2), CComplex { re: 0, im: 0 });
}

#[test]
fn append_samples_stops_at_frame_end() {
    let mut p = Payload::default();
    for i in 0..2048usize {
        p.data[4 * i..4 * i + 2].copy_from_slice(&(i as i16).to_le_bytes());
        p.data[4 * i + 2..4 * i + 4].copy_from_slice(&(-(i as i16)).to_le_bytes());
    }
    let mut out = vec![CComplex { re: 9, im: 9 }];
    assert_eq!(p.append_samples(2040, 100, &mut out), 8);
    assert_eq!(out.len(), 9);
    assert_eq!(out[0], CComplex { re: 9, im: 9 });
    assert_eq!(out[1], CComplex { re: 2040, im: -2040 });
    assert_eq!(out[8], CComplex { re: 2047, im: -2047 });
    assert_eq!(p.append_samples(10, 3, &mut out), 3);
    assert_eq!(&out[9..], &[
        CComplex { re: 10, im: -10 },
        CComplex { re: 11, im: -11 },
        CComplex { re: 12, im: -12 },
    ]);
    assert_eq!(p.append_samples(2048, 5, &mut out), 0);
    assert_eq!(p.append_samples(0, 0, &mut out), 0);
    assert_eq!(out.len(), 12);
}
