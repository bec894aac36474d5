use wallet::airdrop::airdrop_amount;
use wallet::decimal::{format_amount, parse_amount};

#[test]
fn reads_plain_amounts() {
    assert_eq!(parse_amount("50"), Some(50));
    assert_eq!(parse_amount("10"), Some(10));
    assert_eq!(parse_amount("0"), Some(0));
    assert_eq!(parse_amount("007"), Some(7));
}

#[test]
fn reads_signed_amounts() {
    assert_eq!(parse_amount("-5"), Some(-5));
    assert_eq!(parse_amount("+7"), Some(7));
    assert_eq!(parse_amount("-0"), Some(0));
    assert_eq!(parse_amount("+0"), Some(0));
}

#[test]
fn reads_the_ends_of_the_range() {
    assert_eq!(parse_amount("9223372036854775807"), Some(i64::MAX));
    assert_eq!(parse_amount("-9223372036854775808"), Some(i64::MIN));
    assert_eq!(parse_amount("+9223372036854775807"), Some(i64::MAX));
    assert_eq!(parse_amount("0000000000000000000000009223372036854775807"), Some(i64::MAX));
}

#[test]
fn turns_down_amounts_out_of_range() {
    assert_eq!(parse_amount("9223372036854775808"), None);
    assert_eq!(parse_amount("-9223372036854775809"), None);
    assert_eq!(parse_amount("18446744073709551616"), None);
    assert_eq!(parse_amount("99999999999999999999999999999999"), None);
    assert_eq!(parse_amount("-99999999999999999999999999999999"), None);
}

#[test]
fn turns_down_what_is_no_integer() {
    assert_eq!(parse_amount(""), None);
    assert_eq!(parse_amount("-"), None);
    assert_eq!(parse_amount("+"), None);
    assert_eq!(parse_amount("--5"), None);
    assert_eq!(parse_amount("+-5"), None);
    assert_eq!(parse_amount("5-"), None);
    assert_eq!(parse_amount("12a"), None);
    assert_eq!(parse_amount("a12"), None);
    assert_eq!(parse_amount(" 5"), None);
    assert_eq!(parse_amount("5 "), None);
    assert_eq!(parse_amount("1_000"), None);
    assert_eq!(parse_amount("1.5"), None);
    assert_eq!(parse_amount("0x10"), None);
    assert_eq!(parse_amount("\u{0663}"), None);
    assert_eq!(parse_amount("99999999999999999999x"), None);
}

#[test]
fn reads_amounts_as_the_standard_library_does() {
    let samples = [
        "", "0", "1", "-1", "+1", "50", "-", "+", "++1", "007", "-007", "12a", "a", " 1", "1 ",
        "9223372036854775807", "9223372036854775808", "-9223372036854775808",
        "-9223372036854775809", "123456789012345678901234567890", "1e3", "\u{ff11}",
    ];
    for text in samples.iter() {
        assert_eq!(parse_amount(text), text.parse::<i64>().ok());
    }
}

#[test]
fn writes_amounts_in_decimal() {
    assert_eq!(format_amount(0), "0");
    assert_eq!(format_amount(7), "7");
    assert_eq!(format_amount(50), "50");
    assert_eq!(format_amount(-1), "-1");
    assert_eq!(format_amount(1000), "1000");
    assert_eq!(format_amount(-120), "-120");
    assert_eq!(format_amount(i64::MAX), "9223372036854775807");
    assert_eq!(format_amount(i64::MIN), "-9223372036854775808");
}

#[test]
fn writes_amounts_as_the_standard_library_does() {
    let samples = [0i64, 1, -1, 9, 10, 11, 99, 100, 101, -10, 12345, -98765, i64::MAX, i64::MIN];
    for amount in samples.iter() {
        assert_eq!(format_amount(*amount), format!("{:?}", amount));
    }
}

#[test]
fn written_amounts_read_back() {
    let samples = [0i64, 1, -1, 50, 10, -10, 1234567890123, i64::MAX, i64::MIN, i64::MIN + 1];
    for amount in samples.iter() {
        assert_eq!(parse_amount(&format_amount(*amount)), Some(*amount));
    }
}

#[test]
fn grant_amounts_keep_their_bits() {
    assert_eq!(airdrop_amount(50), 50);
    assert_eq!(airdrop_amount(0), 0);
    assert_eq!(airdrop_amount(i64::MAX), 9223372036854775807);
    assert_eq!(airdrop_amount(-1), u64::MAX);
    assert_eq!(airdrop_amount(-50), 18446744073709551566);
    assert_eq!(airdrop_amount(i64::MIN), 9223372036854775808);
}
