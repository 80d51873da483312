//! Amounts of bitcoin written with a unit: `300sat`, `0.5 BTC`.
//!
//! Where the number ends and the unit begins is decided here. What a unit is
//! called and what a number is worth in it is the `bitcoin` crate's business.

use crate::decimal::is_digit;
use bdk::bitcoin::{Amount, Denomination};
use std::str::FromStr;
use vstd::prelude::*;
use vstd::string::*;

verus! {

/// The units in which an amount can be written.
#[derive(Debug, Clone, Copy, PartialEq, Eq)]
pub enum Unit {
    /// One bitcoin: a hundred million satoshis.
    Bitcoin,
    /// A thousandth of a bitcoin.
    MilliBitcoin,
    /// A millionth of a bitcoin.
    MicroBitcoin,
    /// Another name for a millionth of a bitcoin.
    Bit,
    /// The smallest amount that a transaction can move.
    Satoshi,
    /// A thousandth of a satoshi.
    MilliSatoshi,
}

/// Why a text is not an amount.
#[derive(Debug, Clone, Copy, PartialEq, Eq)]
pub enum AmountError {
    /// The text holds no digit.
    NoValue,
    /// What follows the last digit names no unit.
    UnknownUnit,
    /// What ends at the last digit is not a number of the unit: it is
    /// malformed, negative, finer than a satoshi, or too large.
    BadValue,
}

/// The unit that `text` names. Names are case-sensitive.
pub open spec fn unit_of_text(text: Seq<char>) -> Option<Unit> {
    if text == seq!['B', 'T', 'C'] {
        Some(Unit::Bitcoin)
    } else if text == seq!['m', 'B', 'T', 'C'] {
        Some(Unit::MilliBitcoin)
    } else if text == seq!['u', 'B', 'T', 'C'] {
        Some(Unit::MicroBitcoin)
    } else if text == seq!['b', 'i', 't', 's'] {
        Some(Unit::Bit)
    } else if text == seq!['s', 'a', 't', 'o', 's', 'h', 'i'] || text == seq!['s', 'a', 't'] {
        Some(Unit::Satoshi)
    } else if text == seq!['m', 's', 'a', 't'] {
        Some(Unit::MilliSatoshi)
    } else {
        None
    }
}

/// The number of satoshis that the decimal number `value` is worth in `unit`,
/// if it is worth a whole number of them.
pub uninterp spec fn sats_of_value(value: Seq<char>, unit: Unit) -> Option<u64>;

/// How an amount of `sat` satoshis is displayed.
pub uninterp spec fn text_of_amount(sat: u64) -> Seq<char>;

/// Where the number of an amount ends: just after the last decimal digit of
/// `s`, or at 0 when `s` holds no digit.
pub open spec fn value_end(s: Seq<char>) -> nat
    decreases s.len(),
{
    if s.len() == 0 {
        0
    } else if is_digit(s.last()) {
        s.len()
    } else {
        value_end(s.drop_last())
    }
}

/// `s` without the spaces it begins with.
pub open spec fn skip_spaces(s: Seq<char>) -> Seq<char>
    decreases s.len(),
{
    if s.len() > 0 && s[0] == ' ' {
        skip_spaces(s.drop_first())
    } else {
        s
    }
}

/// What is left of an amount after its number: the name of its unit.
pub open spec fn unit_part(s: Seq<char>) -> Seq<char> {
    skip_spaces(s.subrange(value_end(s) as int, s.len() as int))
}

/// The number of an amount: everything up to its last digit.
pub open spec fn value_part(s: Seq<char>) -> Seq<char> {
    s.subrange(0, value_end(s) as int)
}

/// What the library makes of the two outcomes of reading an amount's parts.
pub open spec fn amount_of_parts(unit: Option<Unit>, sat: Option<u64>) -> Result<u64, AmountError> {
    match unit {
        None => Err(AmountError::UnknownUnit),
        Some(_) => match sat {
            Some(sat) => Ok(sat),
            None => Err(AmountError::BadValue),
        },
    }
}

/// The amount, in satoshis, that `s` denotes.
///
/// The text is cut after its last digit. What comes before the cut is the
/// number, what comes after it, spaces aside, is the unit. A text without a
/// digit fails first, an unknown unit next, and a number that the unit cannot
/// express last.
pub open spec fn amount_of_text(s: Seq<char>) -> Result<u64, AmountError> {
    if value_end(s) == 0 {
        Err(AmountError::NoValue)
    } else {
        match unit_of_text(unit_part(s)) {
            None => Err(AmountError::UnknownUnit),
            Some(unit) => amount_of_parts(Some(unit), sats_of_value(value_part(s), unit)),
        }
    }
}

/// Reads the name of a unit.
///
/// Calls `Denomination::from_str` of the `bitcoin` crate, which knows exactly
/// the seven names that `unit_of_text` lists and fails on every other text.
#[verifier::external_body]
fn read_unit(text: &str) -> (unit: Option<Unit>)
    ensures
        unit == unit_of_text(text@),
{
    match Denomination::from_str(text) {
        Ok(Denomination::Bitcoin) => Some(Unit::Bitcoin),
        Ok(Denomination::MilliBitcoin) => Some(Unit::MilliBitcoin),
        Ok(Denomination::MicroBitcoin) => Some(Unit::MicroBitcoin),
        Ok(Denomination::Bit) => Some(Unit::Bit),
        Ok(Denomination::Satoshi) => Some(Unit::Satoshi),
        Ok(Denomination::MilliSatoshi) => Some(Unit::MilliSatoshi),
        Err(_) => None,
    }
}

/// Reads a decimal number of `unit` as satoshis.
///
/// Calls `Amount::from_str_in` of the `bitcoin` crate and takes the satoshis
/// out of the amount with `Amount::as_sat`. The contract only names the
/// outcome, which depends on the number and the unit alone; every failure of
/// the call becomes `None`.
#[verifier::external_body]
fn read_value(value: &str, unit: Unit) -> (sat: Option<u64>)
    ensures
        sat == sats_of_value(value@, unit),
{
    let denomination = match unit {
        Unit::Bitcoin => Denomination::Bitcoin,
        Unit::MilliBitcoin => Denomination::MilliBitcoin,
        Unit::MicroBitcoin => Denomination::MicroBitcoin,
        Unit::Bit => Denomination::Bit,
        Unit::Satoshi => Denomination::Satoshi,
        Unit::MilliSatoshi => Denomination::MilliSatoshi,
    };
    Amount::from_str_in(value, denomination).ok().map(Amount::as_sat)
}

/// Displays an amount of `sat` satoshis.
///
/// Calls `Amount::from_sat` and the `Display` of `Amount` in the `bitcoin`
/// crate. The contract only names the text, which depends on `sat` alone.
#[verifier::external_body]
pub(crate) fn write_amount(sat: u64) -> (text: String)
    ensures
        text@ == text_of_amount(sat),
{
    Amount::from_sat(sat).to_string()
}

/// Cutting a text short of characters that are no digits does not move the
/// end of its number.
proof fn lemma_value_end_ignores_tail(s: Seq<char>, cut: int)
    requires
        0 <= cut <= s.len(),
        forall|i: int| cut <= i < s.len() ==> !is_digit(#[trigger] s[i]),
    ensures
        value_end(s) == value_end(s.subrange(0, cut)),
    decreases s.len() - cut,
{
    if cut == s.len() {
        assert(s.subrange(0, cut) =~= s);
    } else {
        assert(!is_digit(s[s.len() - 1]));
        lemma_value_end_ignores_tail(s.drop_last(), cut);
        assert(s.drop_last().subrange(0, cut) =~= s.subrange(0, cut));
    }
}

/// Spaces at the front of a text can be skipped one run at a time.
proof fn lemma_skip_spaces_from(s: Seq<char>, from: int, to: int)
    requires
        0 <= from <= to <= s.len(),
        forall|i: int| from <= i < to ==> #[trigger] s[i] == ' ',
    ensures
        skip_spaces(s.subrange(from, s.len() as int)) == skip_spaces(
            s.subrange(to, s.len() as int),
        ),
    decreases to - from,
{
    if from < to {
        let tail = s.subrange(from, s.len() as int);
        assert(tail[0] == s[from]);
        assert(tail.drop_first() =~= s.subrange(from + 1, s.len() as int));
        lemma_skip_spaces_from(s, from + 1, to);
    }
}

/// Decides an amount from what its unit and its number were read as.
pub fn amount_from_parts(unit: Option<Unit>, sat: Option<u64>) -> (amount: Result<u64, AmountError>)
    ensures
        amount == amount_of_parts(unit, sat),
{
    match unit {
        None => Err(AmountError::UnknownUnit),
        Some(_) => match sat {
            Some(sat) => Ok(sat),
            None => Err(AmountError::BadValue),
        },
    }
}

/// Reads an amount written with its unit, such as `300sat`, `1.5mBTC` or
/// `0.00000300 BTC`, and returns it in satoshis.
pub fn parse_amount(text: &str) -> (amount: Result<u64, AmountError>)
    ensures
        amount == amount_of_text(text@),
{
    let len: usize = text.unicode_len();
    let mut end: usize = len;
    while end > 0
        invariant
            end <= len,
            len == text@.len(),
            forall|i: int| end <= i < len ==> !is_digit(#[trigger] text@[i]),
        ensures
            end > 0 ==> is_digit(text@[end - 1]),
        decreases end,
    {
        let c: char = text.get_char(end - 1);
        if '0' <= c && c <= '9' {
            break ;
        }
        end = end - 1;
    }
    proof {
        lemma_value_end_ignores_tail(text@, end as int);
    }
    if end == 0 {
        return Err(AmountError::NoValue);
    }
    assert(value_end(text@) == end) by {
        assert(text@.subrange(0, end as int).last() == text@[end - 1]);
    }
    let mut unit_start: usize = end;
    while unit_start < len && text.get_char(unit_start) == ' '
        invariant
            end <= unit_start <= len,
            len == text@.len(),
            forall|i: int| end <= i < unit_start ==> #[trigger] text@[i] == ' ',
        decreases len - unit_start,
    {
        unit_start = unit_start + 1;
    }
    proof {
        lemma_skip_spaces_from(text@, end as int, unit_start as int);
        let rest = text@.subrange(unit_start as int, len as int);
        assert(rest.len() > 0 ==> rest[0] == text@[unit_start as int]);
        assert(skip_spaces(rest) == rest);
    }
    let unit_text: &str = text.substring_char(unit_start, len);
    let value_text: &str = text.substring_char(0, end);
    match read_unit(unit_text) {
        None => Err(AmountError::UnknownUnit),
        Some(unit) => amount_from_parts(Some(unit), read_value(value_text, unit)),
    }
}

} // verus!
