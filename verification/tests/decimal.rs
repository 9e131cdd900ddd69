use id_generator::decimal::{parse_decimal, to_decimal};

#[test]
fn to_decimal_writes_what_std_writes() {
    assert_eq!(to_decimal(0), "0");
    assert_eq!(to_decimal(7), "7");
    assert_eq!(to_decimal(10), "10");
    assert_eq!(to_decimal(4_194_332_673), "4194332673");
    assert_eq!(to_decimal(u64::MAX), "18446744073709551615");
    for &n in &[1u64, 9, 99, 100, 101, 1 << 22, 1 << 41, u64::MAX - 1, 7_507_829_345_255_051_265] {
        assert_eq!(to_decimal(n), n.to_string());
    }
}

#[test]
fn parse_decimal_reads_what_std_reads() {
    assert_eq!(parse_decimal("0"), Some(0));
    assert_eq!(parse_decimal("42"), Some(42));
    assert_eq!(parse_decimal("+42"), Some(42));
    assert_eq!(parse_decimal("007"), Some(7));
    assert_eq!(parse_decimal("18446744073709551615"), Some(u64::MAX));
    assert_eq!(parse_decimal("00018446744073709551615"), Some(u64::MAX));
    assert_eq!(parse_decimal("18446744073709551616"), None);
    assert_eq!(parse_decimal("99999999999999999999"), None);
    assert_eq!(parse_decimal("184467440737095516150"), None);
    assert_eq!(parse_decimal(""), None);
    assert_eq!(parse_decimal("+"), None);
    assert_eq!(parse_decimal("-1"), None);
    assert_eq!(parse_decimal("++1"), None);
    assert_eq!(parse_decimal("1+"), None);
    assert_eq!(parse_decimal("12a"), None);
    assert_eq!(parse_decimal(" 12"), None);
    assert_eq!(parse_decimal("12 "), None);
    assert_eq!(parse_decimal("1_000"), None);
    assert_eq!(parse_decimal("１２"), None);
    assert_eq!(parse_decimal("99999999999999999999x"), None);
    for text in [
        "0", "1", "+0", "+", "", "-0", "abc", "4194332673", "18446744073709551615",
        "18446744073709551616", "٣", "1e3", "0x10",
    ] {
        assert_eq!(parse_decimal(text), text.parse::<u64>().ok(), "{:?}", text);
    }
}

#[test]
fn parse_decimal_undoes_to_decimal() {
    for &n in &[0u64, 1, 10, 4095, 4096, 1 << 22, 7_507_829_345_255_051_265, u64::MAX] {
        assert_eq!(parse_decimal(&to_decimal(n)), Some(n));
    }
}
