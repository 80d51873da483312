use fee_spec::amount::{amount_from_parts, parse_amount};
use fee_spec::decimal::{parse_bounded, parse_u32, parse_u64, push_decimal};
use fee_spec::text::{strip_prefix, with_prefix};
use fee_spec::{AmountError, Unit};

#[test]
fn unsigned_numerals_are_read() {
    assert_eq!(parse_u64("0"), Some(0));
    assert_eq!(parse_u64("300"), Some(300));
    assert_eq!(parse_u64("+300"), Some(300));
    assert_eq!(parse_u64("000300"), Some(300));
    assert_eq!(parse_u64("18446744073709551615"), Some(u64::MAX));
    assert_eq!(parse_u32("4294967295"), Some(u32::MAX));
    assert_eq!(parse_u32("65536"), Some(65_536));
}

#[test]
fn what_is_no_unsigned_numeral_is_refused() {
    for text in ["", "+", "-", "-1", "++1", "1+", "1 ", " 1", "1.0", "1e3", "0x10", "1_000", "\u{661}"] {
        assert_eq!(parse_u64(text), None, "{:?}", text);
        assert_eq!(parse_u32(text), None, "{:?}", text);
    }
}

#[test]
fn numerals_above_the_bound_are_refused() {
    assert_eq!(parse_u64("18446744073709551616"), None);
    assert_eq!(parse_u64("99999999999999999999999999999999"), None);
    assert_eq!(parse_u32("4294967296"), None);
    assert_eq!(parse_u32("18446744073709551615"), None);
    assert_eq!(parse_bounded("10", 10), Some(10));
    assert_eq!(parse_bounded("11", 10), None);
    assert_eq!(parse_bounded("0", 0), Some(0));
    assert_eq!(parse_bounded("1", 0), None);
    assert_eq!(parse_bounded("0000", 0), Some(0));
}

#[test]
fn numbers_are_written_without_leading_zeros() {
    for (n, text) in [
        (0u64, "0"),
        (7, "7"),
        (10, "10"),
        (101, "101"),
        (4_294_967_295, "4294967295"),
        (u64::MAX, "18446744073709551615"),
    ] {
        let mut out = String::new();
        push_decimal(&mut out, n);
        assert_eq!(out, text);
        assert_eq!(parse_u64(&out), Some(n));
    }
    let mut out = String::from("n=");
    push_decimal(&mut out, 42);
    assert_eq!(out, "n=42");
}

#[test]
fn a_prefix_is_taken_off() {
    assert_eq!(strip_prefix("rate:3.5", "rate:"), Some("3.5"));
    assert_eq!(strip_prefix("rate:", "rate:"), Some(""));
    assert_eq!(strip_prefix("rate:\u{bd}x", "rate:"), Some("\u{bd}x"));
    assert_eq!(strip_prefix("\u{bd}:x", "\u{bd}:"), Some("x"));
    assert_eq!(strip_prefix("anything", ""), Some("anything"));
    assert_eq!(strip_prefix("rate", "rate:"), None);
    assert_eq!(strip_prefix("rat:e", "rate:"), None);
    assert_eq!(strip_prefix("", "abs:"), None);
    assert_eq!(strip_prefix("Abs:1", "abs:"), None);
}

#[test]
fn a_prefix_is_put_in_front() {
    assert_eq!(with_prefix("abs:", "300"), "abs:300");
    assert_eq!(with_prefix("", ""), "");
    assert_eq!(strip_prefix(&with_prefix("in-blocks:", "5"), "in-blocks:"), Some("5"));
}

#[test]
fn amounts_are_read_in_every_unit() {
    assert_eq!(parse_amount("300sat"), Ok(300));
    assert_eq!(parse_amount("300satoshi"), Ok(300));
    assert_eq!(parse_amount("1BTC"), Ok(100_000_000));
    assert_eq!(parse_amount("0.00000001BTC"), Ok(1));
    assert_eq!(parse_amount("1.5mBTC"), Ok(150_000));
    assert_eq!(parse_amount("2uBTC"), Ok(200));
    assert_eq!(parse_amount("2bits"), Ok(200));
    assert_eq!(parse_amount("0.01bits"), Ok(1));
    assert_eq!(parse_amount("3000msat"), Ok(3));
}

#[test]
fn spaces_may_part_the_number_from_the_unit() {
    assert_eq!(parse_amount("0.00000300 BTC"), Ok(300));
    assert_eq!(parse_amount("5 sat"), Ok(5));
    assert_eq!(parse_amount("5   sat"), Ok(5));
    assert_eq!(parse_amount("5sat "), Err(AmountError::UnknownUnit));
    assert_eq!(parse_amount("5\tsat"), Err(AmountError::UnknownUnit));
    assert_eq!(parse_amount(" 5sat"), Err(AmountError::BadValue));
}

#[test]
fn amounts_without_a_digit_have_no_value() {
    assert_eq!(parse_amount(""), Err(AmountError::NoValue));
    assert_eq!(parse_amount("sat"), Err(AmountError::NoValue));
    assert_eq!(parse_amount(" BTC"), Err(AmountError::NoValue));
    assert_eq!(parse_amount("\u{663}sat"), Err(AmountError::NoValue));
}

#[test]
fn amounts_in_an_unknown_unit_are_refused() {
    assert_eq!(parse_amount("300"), Err(AmountError::UnknownUnit));
    assert_eq!(parse_amount("300btc"), Err(AmountError::UnknownUnit));
    assert_eq!(parse_amount("300SAT"), Err(AmountError::UnknownUnit));
    assert_eq!(parse_amount("300sats"), Err(AmountError::UnknownUnit));
    assert_eq!(parse_amount("300sat\u{663}"), Err(AmountError::UnknownUnit));
    assert_eq!(parse_amount("x1 y2 sat z"), Err(AmountError::UnknownUnit));
}

#[test]
fn amounts_that_the_unit_cannot_express_are_refused() {
    assert_eq!(parse_amount("1.5sat"), Err(AmountError::BadValue));
    assert_eq!(parse_amount("-5sat"), Err(AmountError::BadValue));
    assert_eq!(parse_amount("1msat"), Err(AmountError::BadValue));
    assert_eq!(parse_amount("1.2.3BTC"), Err(AmountError::BadValue));
    assert_eq!(parse_amount("1 000sat"), Err(AmountError::BadValue));
    assert_eq!(parse_amount("0.000000001BTC"), Err(AmountError::BadValue));
    assert_eq!(parse_amount("9223372036854775808sat"), Err(AmountError::BadValue));
    assert_eq!(parse_amount("9223372036854775807sat"), Ok(i64::MAX as u64));
}

#[test]
fn the_unit_is_judged_before_the_number() {
    assert_eq!(parse_amount("1.2.3coins"), Err(AmountError::UnknownUnit));
    assert_eq!(amount_from_parts(None, None), Err(AmountError::UnknownUnit));
    assert_eq!(amount_from_parts(None, Some(1)), Err(AmountError::UnknownUnit));
    assert_eq!(amount_from_parts(Some(Unit::Bitcoin), None), Err(AmountError::BadValue));
    assert_eq!(amount_from_parts(Some(Unit::Satoshi), Some(300)), Ok(300));
    assert_eq!(amount_from_parts(Some(Unit::MilliSatoshi), Some(0)), Ok(0));
}
