use syncdaq::wire::{
    bits_of_i32, get_bytes, get_u16, get_u32, get_u64, get_word, get_words, i32_from_bits,
    put_bytes, put_u32, put_u64, put_words, split64,
};
use syncdaq::xgbe::{get_xgbe, get_xgbe_run, put_xgbe, put_xgbe_run, XGbeCfg, XGBE_CFG_BYTES};

fn cfg(seed: u8) -> XGbeCfg {
    XGbeCfg {
        dst_mac: [seed, 1, 2, 3, 4, 5],
        src_mac: [6, 7, 8, 9, 10, seed],
        dst_ip: [10, 0, seed, 1],
        src_ip: [10, seed, 0, 2],
        dst_port: 0x0102 + seed as u16,
        src_port: 0xfffe,
    }
}

#[test]
fn put_integers() {
    let mut out = vec![0xaa];
    put_u32(&mut out, 0x0102_0304);
    put_u64(&mut out, 0x1122_3344_5566_7788);
    put_u32(&mut out, u32::MAX);
    put_u64(&mut out, 0);
    assert_eq!(
        out,
        vec![
            0xaa, 4, 3, 2, 1, 0x88, 0x77, 0x66, 0x55, 0x44, 0x33, 0x22, 0x11, 0xff, 0xff, 0xff,
            0xff, 0, 0, 0, 0, 0, 0, 0, 0
        ]
    );
}

#[test]
fn put_runs() {
    let mut out = vec![9];
    put_words(&mut out, &[1, 0x0a0b_0c0d]);
    put_words(&mut out, &[]);
    put_bytes(&mut out, &[7, 8]);
    put_bytes(&mut out, &[]);
    assert_eq!(out, vec![9, 1, 0, 0, 0, 0x0d, 0x0c, 0x0b, 0x0a, 7, 8]);
}

#[test]
fn get_integers() {
    let b = [0u8, 0x34, 0x12, 0x78, 0x56, 0xef, 0xcd, 0xab, 0x89, 0xff];
    assert_eq!(get_u16(&b, 1), 0x1234);
    assert_eq!(get_u16(&b, 8), 0xff89);
    assert_eq!(get_u32(&b, 1), 0x5678_1234);
    assert_eq!(get_u32(&b, 6), 0xff89_abcd);
    assert_eq!(get_u64(&b, 1), 0x89ab_cdef_5678_1234);
    assert_eq!(get_word(&b, 1), 0xabcd_ef56);
    assert_eq!(get_word(&b, 0), 0x7812_3400);
    assert_eq!(get_bytes(&b, 2, 5), vec![0x12, 0x78, 0x56]);
    assert_eq!(get_bytes(&b, 10, 10), Vec::<u8>::new());
    assert_eq!(get_words(&b, 0, 2), vec![0x7812_3400, 0xabcd_ef56]);
    assert_eq!(get_words(&b, 1, 1), vec![0xabcd_ef56]);
    assert_eq!(get_words(&b, 2, 0), Vec::<u32>::new());
}

#[test]
fn integers_round_trip() {
    for x in [0u64, 1, 0xff, 0x100, 0xffff_ffff, 0x1_0000_0000, u64::MAX, 0x0123_4567_89ab_cdef] {
        let mut out = Vec::new();
        put_u64(&mut out, x);
        assert_eq!(out, x.to_le_bytes());
        assert_eq!(get_u64(&out, 0), x);
        let (lo, hi) = split64(x);
        assert_eq!(lo as u64 | (hi as u64) << 32, x);
        let mut out = Vec::new();
        put_u32(&mut out, lo);
        assert_eq!(out, lo.to_le_bytes());
        assert_eq!(get_u32(&out, 0), lo);
    }
}

#[test]
fn twos_complement() {
    assert_eq!(bits_of_i32(0), 0);
    assert_eq!(bits_of_i32(1), 1);
    assert_eq!(bits_of_i32(-1), 0xffff_ffff);
    assert_eq!(bits_of_i32(i32::MIN), 0x8000_0000);
    assert_eq!(bits_of_i32(i32::MAX), 0x7fff_ffff);
    assert_eq!(i32_from_bits(0xffff_fffe), -2);
    assert_eq!(i32_from_bits(0x8000_0000), i32::MIN);
    assert_eq!(i32_from_bits(0x7fff_ffff), i32::MAX);
    for x in [i32::MIN, -40, -1, 0, 1, 40, i32::MAX] {
        assert_eq!(bits_of_i32(x), x as u32);
        assert_eq!(i32_from_bits(bits_of_i32(x)), x);
    }
}

#[test]
fn port_configuration_image() {
    assert_eq!(XGBE_CFG_BYTES, 32);
    let c = cfg(0x40);
    let mut out = vec![0xee, 0xee];
    put_xgbe(&mut out, &c);
    assert_eq!(
        out,
        vec![
            0xee, 0xee, 0x40, 1, 2, 3, 4, 5, 0, 0, 6, 7, 8, 9, 10, 0x40, 0, 0, 10, 0, 0x40, 1, 10,
            0x40, 0, 2, 0x42, 0x01, 0, 0, 0xfe, 0xff, 0, 0
        ]
    );
    assert_eq!(get_xgbe(&out, 2), c);
}

#[test]
fn port_configuration_runs() {
    let cs = [cfg(1), cfg(2), cfg(3)];
    let mut out = vec![1, 2, 3];
    put_xgbe_run(&mut out, &cs);
    assert_eq!(out.len(), 3 + 96);
    assert_eq!(get_xgbe_run(&out, 3, 3), cs.to_vec());
    assert_eq!(get_xgbe_run(&out, 35, 2), cs[1..].to_vec());
    assert_eq!(get_xgbe_run(&out, 3, 0), Vec::<XGbeCfg>::new());
    assert_eq!(get_xgbe(&out, 67), cfg(3));
    let mut same = vec![1, 2, 3];
    put_xgbe_run(&mut same, &[]);
    assert_eq!(same, vec![1, 2, 3]);
}
