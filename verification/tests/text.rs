use consul::text::{parse_u64, to_decimal};

#[test]
fn to_decimal_writes_as_std_does() {
    assert_eq!(to_decimal(0), "0");
    assert_eq!(to_decimal(5), "5");
    assert_eq!(to_decimal(9), "9");
    assert_eq!(to_decimal(10), "10");
    assert_eq!(to_decimal(123), "123");
    assert_eq!(to_decimal(1_000_000), "1000000");
    assert_eq!(to_decimal(u64::MAX), "18446744073709551615");
    for n in [1u64, 19, 99, 100, 101, 4_294_967_295, 4_294_967_296, u64::MAX - 1] {
        assert_eq!(to_decimal(n), n.to_string());
    }
}

#[test]
fn parse_u64_reads_digits() {
    assert_eq!(parse_u64(b"0"), Some(0));
    assert_eq!(parse_u64(b"7"), Some(7));
    assert_eq!(parse_u64(b"123"), Some(123));
    assert_eq!(parse_u64(b"007"), Some(7));
    assert_eq!(parse_u64(b"+42"), Some(42));
    assert_eq!(parse_u64(b"18446744073709551615"), Some(u64::MAX));
    assert_eq!(parse_u64(b"00018446744073709551615"), Some(u64::MAX));
}

#[test]
fn parse_u64_refuses_the_rest() {
    assert_eq!(parse_u64(b""), None);
    assert_eq!(parse_u64(b"+"), None);
    assert_eq!(parse_u64(b"-"), None);
    assert_eq!(parse_u64(b"-1"), None);
    assert_eq!(parse_u64(b"++1"), None);
    assert_eq!(parse_u64(b"1+"), None);
    assert_eq!(parse_u64(b" 1"), None);
    assert_eq!(parse_u64(b"1 "), None);
    assert_eq!(parse_u64(b"1_000"), None);
    assert_eq!(parse_u64(b"12a"), None);
    assert_eq!(parse_u64(b"0x10"), None);
    assert_eq!(parse_u64(b"1.0"), None);
    assert_eq!(parse_u64(b"18446744073709551616"), None);
    assert_eq!(parse_u64(b"18446744073709551620"), None);
    assert_eq!(parse_u64(b"99999999999999999999"), None);
    assert_eq!(parse_u64(b"184467440737095516150"), None);
    assert_eq!(parse_u64(b"18446744073709551616x"), None);
    assert_eq!(parse_u64(&[0x31, 0xff]), None);
}

#[test]
fn parse_u64_agrees_with_std() {
    let texts = [
        "", "+", "-", "0", "+0", "-0", "1", "+1", "01", "9", "10", "\u{ff1a}", "\u{ff11}", "1e3", "\u{663}",
        "18446744073709551615", "+18446744073709551615", "18446744073709551616",
        "28446744073709551615", "/", ":", "1/", "1:",
    ];
    for text in texts {
        assert_eq!(parse_u64(text.as_bytes()), text.parse::<u64>().ok(), "{:?}", text);
    }
}

#[test]
fn parse_u64_reads_what_to_decimal_writes() {
    for n in [0u64, 1, 9, 10, 11, 12345, u64::MAX / 10, u64::MAX / 10 + 1, u64::MAX] {
        assert_eq!(parse_u64(to_decimal(n).as_bytes()), Some(n));
    }
}
