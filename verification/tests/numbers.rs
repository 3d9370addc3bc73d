use robohome::decimal::{parse_u32, to_decimal};

#[test]
fn numbers_are_read_in_decimal() {
    assert_eq!(parse_u32("0"), Some(0));
    assert_eq!(parse_u32("7"), Some(7));
    assert_eq!(parse_u32("42"), Some(42));
    assert_eq!(parse_u32("007"), Some(7));
    assert_eq!(parse_u32("+15"), Some(15));
    assert_eq!(parse_u32("4294967295"), Some(u32::MAX));
    assert_eq!(parse_u32("0000000004294967295"), Some(u32::MAX));
}

#[test]
fn what_is_no_number_is_not_read() {
    assert_eq!(parse_u32(""), None);
    assert_eq!(parse_u32("+"), None);
    assert_eq!(parse_u32("-1"), None);
    assert_eq!(parse_u32("-0"), None);
    assert_eq!(parse_u32("++1"), None);
    assert_eq!(parse_u32("1+"), None);
    assert_eq!(parse_u32(" 6"), None);
    assert_eq!(parse_u32("6 "), None);
    assert_eq!(parse_u32("12a"), None);
    assert_eq!(parse_u32("1_000"), None);
    assert_eq!(parse_u32("0x10"), None);
    assert_eq!(parse_u32("1.5"), None);
    assert_eq!(parse_u32("\u{661}\u{662}"), None);
}

#[test]
fn numbers_too_large_are_not_read() {
    assert_eq!(parse_u32("4294967296"), None);
    assert_eq!(parse_u32("42949672950"), None);
    assert_eq!(parse_u32("99999999999999999999999999999999"), None);
    assert_eq!(parse_u32("4294967296x"), None);
}

#[test]
fn numbers_are_read_as_the_standard_library_reads_them() {
    let texts = [
        "", "+", "-", "0", "+0", "-0", "9", "10", "0010", "+0010", "59", "60", "255", "65536",
        "4294967295", "4294967296", "+4294967295", "18446744073709551616", " 1", "1 ", "1\n",
        "a", "1a", "a1", "1e3", "٣", "１２", "+-1", "--1", "1,000",
    ];
    for text in texts {
        assert_eq!(parse_u32(text), text.parse::<u32>().ok(), "{:?}", text);
    }
}

#[test]
fn numbers_are_written_in_decimal() {
    assert_eq!(to_decimal(0), "0");
    assert_eq!(to_decimal(7), "7");
    assert_eq!(to_decimal(10), "10");
    assert_eq!(to_decimal(1203), "1203");
    assert_eq!(to_decimal(-1), "-1");
    assert_eq!(to_decimal(-120), "-120");
    assert_eq!(to_decimal(i32::MAX), "2147483647");
    assert_eq!(to_decimal(i32::MIN), "-2147483648");
}

#[test]
fn numbers_are_written_as_the_standard_library_writes_them() {
    let mut n: i64 = i32::MIN as i64;
    while n <= i32::MAX as i64 {
        assert_eq!(to_decimal(n as i32), (n as i32).to_string());
        n += 7_919_003;
    }
    for n in -1100..1100 {
        assert_eq!(to_decimal(n), n.to_string());
    }
}

#[test]
fn what_is_written_is_read_back() {
    for n in [0u32, 1, 9, 10, 99, 100, 65_535, 2_147_483_647] {
        assert_eq!(parse_u32(&to_decimal(n as i32)), Some(n));
    }
    assert_eq!(parse_u32(&to_decimal(-5)), None);
}
