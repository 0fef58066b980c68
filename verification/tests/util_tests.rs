use evmobserver::util::{
    ascii_string, bytes_eq, hex_to_u64, parse_u64, push_bytes, render_u64, str_eq, to_hex,
};

#[test]
fn hex_examples() {
    assert_eq!(hex_to_u64("0xff"), Some(255));
    assert_eq!(hex_to_u64("0xFF"), Some(255));
    assert_eq!(hex_to_u64("0x0"), Some(0));
    assert_eq!(hex_to_u64("0x1b4"), Some(436));
    assert_eq!(hex_to_u64("0xffffffffffffffff"), Some(u64::MAX));
    assert_eq!(hex_to_u64("0x0000000000000000000000ff"), Some(255));
    assert_eq!(hex_to_u64("0x+ff"), Some(255));
}

#[test]
fn hex_refusals() {
    assert_eq!(hex_to_u64(""), None);
    assert_eq!(hex_to_u64("0x"), None);
    assert_eq!(hex_to_u64("ff"), None);
    assert_eq!(hex_to_u64("0xfg"), None);
    assert_eq!(hex_to_u64("0x-1"), None);
    assert_eq!(hex_to_u64("0x+"), None);
    assert_eq!(hex_to_u64("0x 1"), None);
    assert_eq!(hex_to_u64("0x10000000000000000"), None);
    assert_eq!(hex_to_u64("a\u{e9}"), None);
    assert_eq!(hex_to_u64("0x\u{e9}"), None);
}

#[test]
fn hex_prefix_is_skipped_not_read() {
    assert_eq!(hex_to_u64("zz10"), Some(16));
}

#[test]
fn numbers_in_other_bases() {
    assert_eq!(parse_u64(b"0", 10), Some(0));
    assert_eq!(parse_u64(b"18446744073709551615", 10), Some(u64::MAX));
    assert_eq!(parse_u64(b"18446744073709551616", 10), None);
    assert_eq!(parse_u64(b"+42", 10), Some(42));
    assert_eq!(parse_u64(b"007", 10), Some(7));
    assert_eq!(parse_u64(b"4a", 10), None);
    assert_eq!(parse_u64(b"", 10), None);
    assert_eq!(parse_u64(b"zz", 36), Some(35 * 36 + 35));
    assert_eq!(parse_u64(b"102", 2), None);
}

#[test]
fn rendering() {
    assert_eq!(render_u64(0, 10), b"0".to_vec());
    assert_eq!(render_u64(9, 10), b"9".to_vec());
    assert_eq!(render_u64(10, 10), b"10".to_vec());
    assert_eq!(render_u64(u64::MAX, 10), b"18446744073709551615".to_vec());
    assert_eq!(render_u64(255, 16), b"ff".to_vec());
    assert_eq!(render_u64(5, 2), b"101".to_vec());
    assert_eq!(to_hex(0), b"0x0".to_vec());
    assert_eq!(to_hex(255), b"0xff".to_vec());
    assert_eq!(to_hex(436), b"0x1b4".to_vec());
}

#[test]
fn what_is_written_reads_back() {
    let samples = [0u64, 1, 9, 10, 15, 16, 255, 256, 4095, 1_000_000, u64::MAX - 1, u64::MAX];
    for n in samples.iter() {
        assert_eq!(parse_u64(&render_u64(*n, 10), 10), Some(*n));
        assert_eq!(parse_u64(&render_u64(*n, 16), 16), Some(*n));
        let hex = String::from_utf8(to_hex(*n)).unwrap();
        assert_eq!(hex_to_u64(&hex), Some(*n));
        assert_eq!(hex, format!("{:#x}", n));
        assert_eq!(String::from_utf8(render_u64(*n, 10)).unwrap(), format!("{}", n));
    }
}

#[test]
fn comparing_and_appending() {
    assert!(bytes_eq(b"abc", b"abc"));
    assert!(!bytes_eq(b"abc", b"abd"));
    assert!(!bytes_eq(b"abc", b"ab"));
    assert!(bytes_eq(b"", b""));
    assert!(str_eq("ADD", "ADD"));
    assert!(!str_eq("ADD", "ADDMOD"));
    let mut out = b"ab".to_vec();
    push_bytes(&mut out, b"cd");
    assert_eq!(out, b"abcd".to_vec());
    assert_eq!(ascii_string(b"counts.7.csv"), "counts.7.csv");
}
