use async_tftp::digits::{decimal_bytes, parse_decimal};
use async_tftp::packet::{Mode, Opts, PacketType};
use async_tftp::parse::{
    eq_ignore_ascii_case, parse_mode, parse_nul_str, parse_opts, parse_packet_type, parse_u16_be,
};

#[test]
fn nul_str() {
    let (s, rest) = parse_nul_str(b"123\0").unwrap();
    assert_eq!(s, "123");
    assert!(rest.is_empty());

    let (s, rest) = parse_nul_str(b"123\0\0").unwrap();
    assert_eq!(s, "123");
    assert_eq!(rest, b"\0");

    let (s1, rest) = parse_nul_str(b"123\0abc\0\xff\xff").unwrap();
    let (s2, rest) = parse_nul_str(rest).unwrap();
    assert_eq!(s1, "123");
    assert_eq!(s2, "abc");
    assert_eq!(rest, b"\xff\xff");

    let (s1, rest) = parse_nul_str(b"\0\0").unwrap();
    let (s2, rest) = parse_nul_str(rest).unwrap();
    assert_eq!(s1, "");
    assert_eq!(s2, "");
    assert!(rest.is_empty());

    assert!(parse_nul_str(b"").is_none());
    assert!(parse_nul_str(b"123").is_none());
    assert!(parse_nul_str(b"123\xff\xff\0").is_none());
}

#[test]
fn u16_be() {
    let (n, rest) = parse_u16_be(b"\x11\x22").unwrap();
    assert_eq!(n, 0x1122);
    assert!(rest.is_empty());

    let (n, rest) = parse_u16_be(b"\x11\x22\x33").unwrap();
    assert_eq!(n, 0x1122);
    assert_eq!(rest, b"\x33");

    let (n1, rest) = parse_u16_be(b"\x11\x22\x33\x44\x55").unwrap();
    let (n2, rest) = parse_u16_be(rest).unwrap();
    assert_eq!(n1, 0x1122);
    assert_eq!(n2, 0x3344);
    assert_eq!(rest, b"\x55");

    assert!(parse_u16_be(b"").is_none());
    assert!(parse_u16_be(b"\x11").is_none());
}

#[test]
fn nul_str_keeps_multibyte_text() {
    let (s, rest) = parse_nul_str("gr\u{fc}\u{df}e\0x".as_bytes()).unwrap();
    assert_eq!(s, "gr\u{fc}\u{df}e");
    assert_eq!(rest, b"x");
    // a lone continuation byte is no UTF-8
    assert!(parse_nul_str(b"\x80\0").is_none());
    // a truncated two-byte sequence is no UTF-8
    assert!(parse_nul_str(b"\xc3\0").is_none());
}

#[test]
fn u16_be_extremes() {
    assert_eq!(parse_u16_be(b"\x00\x00").unwrap().0, 0);
    assert_eq!(parse_u16_be(b"\xff\xff").unwrap().0, 65535);
    assert_eq!(parse_u16_be(b"\x01\x00").unwrap().0, 256);
    assert_eq!(parse_u16_be(b"\x00\xff").unwrap().0, 255);
}

#[test]
fn packet_type_opcodes() {
    assert_eq!(PacketType::from_u16(0), None);
    assert_eq!(PacketType::from_u16(1), Some(PacketType::Rrq));
    assert_eq!(PacketType::from_u16(2), Some(PacketType::Wrq));
    assert_eq!(PacketType::from_u16(3), Some(PacketType::Data));
    assert_eq!(PacketType::from_u16(4), Some(PacketType::Ack));
    assert_eq!(PacketType::from_u16(5), Some(PacketType::Error));
    assert_eq!(PacketType::from_u16(6), Some(PacketType::OAck));
    assert_eq!(PacketType::from_u16(7), None);
    for code in 1..=6u16 {
        assert_eq!(PacketType::from_u16(code).unwrap().to_u16(), code);
    }
    let (t, rest) = parse_packet_type(b"\x00\x04\x00\x01").unwrap();
    assert_eq!(t, PacketType::Ack);
    assert_eq!(rest, b"\x00\x01");
    assert!(parse_packet_type(b"\x01\x04").is_none());
    assert!(parse_packet_type(b"\x00").is_none());
}

#[test]
fn mode_names() {
    assert_eq!(Mode::Netascii.to_str(), "netascii");
    assert_eq!(Mode::Octet.to_str(), "octet");
    assert_eq!(Mode::Mail.to_str(), "mail");
    assert_eq!(parse_mode(b"netascii\0").unwrap().0, Mode::Netascii);
    assert_eq!(parse_mode(b"OCTET\0rest").unwrap().0, Mode::Octet);
    assert_eq!(parse_mode(b"OCTET\0rest").unwrap().1, b"rest");
    assert_eq!(parse_mode(b"Mail\0").unwrap().0, Mode::Mail);
    assert!(parse_mode(b"mai\0").is_none());
    assert!(parse_mode(b"mails\0").is_none());
    assert!(parse_mode(b"\0").is_none());
    assert!(parse_mode(b"octet").is_none());
}

#[test]
fn ascii_case_is_ignored_for_letters_only() {
    assert!(eq_ignore_ascii_case(b"BlkSize", b"blksize"));
    assert!(eq_ignore_ascii_case(b"", b""));
    assert!(!eq_ignore_ascii_case(b"blksize", b"blksiz"));
    assert!(!eq_ignore_ascii_case(b"blksize", b"blksizf"));
    // '@' and '`' differ by the same bit as 'A' and 'a' but are no letters
    assert!(!eq_ignore_ascii_case(b"@", b"`"));
    assert!(!eq_ignore_ascii_case(b"[", b"{"));
    assert!(eq_ignore_ascii_case(b"Z", b"z"));
}

#[test]
fn decimal_text_of_numbers() {
    assert_eq!(decimal_bytes(0), b"0".to_vec());
    assert_eq!(decimal_bytes(9), b"9".to_vec());
    assert_eq!(decimal_bytes(10), b"10".to_vec());
    assert_eq!(decimal_bytes(65464), b"65464".to_vec());
    assert_eq!(decimal_bytes(u64::MAX), b"18446744073709551615".to_vec());
}

#[test]
fn decimal_values_of_texts() {
    assert_eq!(parse_decimal(b"0"), Some(0));
    assert_eq!(parse_decimal(b"007"), Some(7));
    assert_eq!(parse_decimal(b"+42"), Some(42));
    assert_eq!(parse_decimal(b"18446744073709551615"), Some(u64::MAX));
    assert_eq!(parse_decimal(b"18446744073709551616"), None);
    assert_eq!(parse_decimal(b"99999999999999999999999"), None);
    assert_eq!(parse_decimal(b"000000000000000000000000001"), Some(1));
    assert_eq!(parse_decimal(b""), None);
    assert_eq!(parse_decimal(b"+"), None);
    assert_eq!(parse_decimal(b"-1"), None);
    assert_eq!(parse_decimal(b"++1"), None);
    assert_eq!(parse_decimal(b"1 "), None);
    assert_eq!(parse_decimal(b" 1"), None);
    assert_eq!(parse_decimal(b"12a"), None);
    for n in [0u64, 1, 9, 10, 99, 100, 512, 65535, 1 << 40, u64::MAX] {
        assert_eq!(parse_decimal(&decimal_bytes(n)), Some(n));
    }
}

#[test]
fn options_first_valid_occurrence_counts() {
    let opts = parse_opts(b"blksize\x00100\x00blksize\x00200\x00").unwrap();
    assert_eq!(opts.block_size, Some(100));
    // an occurrence out of range counts as absent, so the next one is the first
    let opts = parse_opts(b"blksize\x007\x00blksize\x00200\x00").unwrap();
    assert_eq!(opts.block_size, Some(200));
    let opts = parse_opts(b"timeout\x005\x00TIMEOUT\x009\x00").unwrap();
    assert_eq!(opts.timeout, Some(5));
    let opts = parse_opts(b"tsize\x000\x00tsize\x0077\x00").unwrap();
    assert_eq!(opts.transfer_size, Some(0));
}

#[test]
fn options_unknown_names_are_dropped() {
    let opts = parse_opts(b"multicast\x00\x00blksize\x001024\x00x\x00y\x00").unwrap();
    assert_eq!(
        opts,
        Opts { block_size: Some(1024), ..Opts::default() }
    );
    let opts = parse_opts(b"blksizes\x001024\x00").unwrap();
    assert_eq!(opts, Opts::default());
    assert_eq!(parse_opts(b"").unwrap(), Opts::default());
}

#[test]
fn options_malformed_input_fails() {
    // a value without its terminator
    assert!(parse_opts(b"blksize\x00100").is_none());
    // a name without a value
    assert!(parse_opts(b"blksize\x00").is_none());
    // a name that is no UTF-8
    assert!(parse_opts(b"\xff\x001\x00").is_none());
    // a value that is no UTF-8, even for an unknown name
    assert!(parse_opts(b"unknown\x00\xff\x00").is_none());
}

#[test]
fn options_values_and_case() {
    let opts = parse_opts(b"BLKSIZE\x00512\x00TimeOut\x00255\x00TSIZE\x0018446744073709551615\x00WindowSize\x0016\x00").unwrap();
    assert_eq!(
        opts,
        Opts {
            block_size: Some(512),
            timeout: Some(255),
            transfer_size: Some(u64::MAX),
            window_size: Some(16),
        }
    );
    let opts = parse_opts(b"tsize\x0018446744073709551616\x00windowsize\x0065536\x00blksize\x00abc\x00").unwrap();
    assert_eq!(opts, Opts::default());
    let opts = parse_opts(b"windowsize\x0065535\x00").unwrap();
    assert_eq!(opts.window_size, Some(65535));
}
