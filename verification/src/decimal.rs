//! Unsigned decimal numerals: their value, how they are read and how they are
//! written.

use vstd::prelude::*;
use vstd::string::*;

verus! {

/// Whether `c` is one of the ten decimal digits.
pub open spec fn is_digit(c: char) -> bool {
    '0' <= c <= '9'
}

/// The number that the digit `c` stands for.
pub open spec fn digit_value(c: char) -> nat
    recommends
        is_digit(c),
{
    (c as int - '0' as int) as nat
}

/// The digit that stands for `d`.
pub open spec fn digit_char(d: nat) -> char
    recommends
        d < 10,
{
    if d == 0 {
        '0'
    } else if d == 1 {
        '1'
    } else if d == 2 {
        '2'
    } else if d == 3 {
        '3'
    } else if d == 4 {
        '4'
    } else if d == 5 {
        '5'
    } else if d == 6 {
        '6'
    } else if d == 7 {
        '7'
    } else if d == 8 {
        '8'
    } else {
        '9'
    }
}

/// Whether every character of `s` is a decimal digit.
pub open spec fn all_digits(s: Seq<char>) -> bool {
    forall|i: int| 0 <= i < s.len() ==> is_digit(#[trigger] s[i])
}

/// The number that a run of digits denotes, most significant digit first.
/// The empty run denotes zero.
pub open spec fn decimal_value(s: Seq<char>) -> nat
    decreases s.len(),
{
    if s.len() == 0 {
        0
    } else {
        decimal_value(s.drop_last()) * 10 + digit_value(s.last())
    }
}

/// The digits of `n`, most significant first, without leading zeros.
pub open spec fn decimal_digits(n: nat) -> Seq<char>
    decreases n,
{
    if n < 10 {
        seq![digit_char(n)]
    } else {
        decimal_digits(n / 10).push(digit_char(n % 10))
    }
}

/// What is left of a numeral once a single leading plus sign is taken away.
pub open spec fn unsigned_body(s: Seq<char>) -> Seq<char> {
    if s.len() > 0 && s[0] == '+' {
        s.subrange(1, s.len() as int)
    } else {
        s
    }
}

/// The number that `s` denotes as an unsigned numeral no greater than `max`:
/// an optional plus sign followed by one or more digits. Anything else, and
/// any numeral above `max`, denotes nothing.
pub open spec fn parse_unsigned(s: Seq<char>, max: nat) -> Option<nat> {
    let body = unsigned_body(s);
    if body.len() > 0 && all_digits(body) && decimal_value(body) <= max {
        Some(decimal_value(body))
    } else {
        None
    }
}

/// A run of digits denotes at least as much as any of its prefixes.
pub proof fn lemma_prefix_value_le(s: Seq<char>, k: int)
    requires
        0 <= k <= s.len(),
    ensures
        decimal_value(s.subrange(0, k)) <= decimal_value(s),
    decreases s.len() - k,
{
    if k == s.len() {
        assert(s.subrange(0, k) =~= s);
    } else {
        lemma_prefix_value_le(s.drop_last(), k);
        assert(s.drop_last().subrange(0, k) =~= s.subrange(0, k));
    }
}

/// Appending one digit multiplies the value by ten and adds the digit.
pub proof fn lemma_value_push(s: Seq<char>, c: char)
    ensures
        decimal_value(s.push(c)) == decimal_value(s) * 10 + digit_value(c),
{
    assert(s.push(c).drop_last() =~= s);
}

/// The digits written for `n` are digits, at least one of them, and denote `n`.
pub proof fn lemma_digits_denote(n: nat)
    ensures
        decimal_digits(n).len() > 0,
        all_digits(decimal_digits(n)),
        decimal_value(decimal_digits(n)) == n,
    decreases n,
{
    if n < 10 {
        lemma_value_push(Seq::empty(), digit_char(n));
        assert(decimal_digits(n) =~= Seq::<char>::empty().push(digit_char(n)));
    } else {
        lemma_digits_denote(n / 10);
        lemma_value_push(decimal_digits(n / 10), digit_char(n % 10));
    }
}

/// Reading what was written gives the number back: the digits of `n` denote
/// `n` under every bound that `n` meets.
pub proof fn lemma_write_then_read(n: nat, max: nat)
    requires
        n <= max,
    ensures
        parse_unsigned(decimal_digits(n), max) == Some(n),
{
    lemma_digits_denote(n);
    let digits = decimal_digits(n);
    assert(is_digit(digits[0]));
    assert(unsigned_body(digits) == digits);
}

/// A numeral is unsigned: a text that begins with a minus sign denotes
/// nothing, whatever follows the sign.
pub proof fn lemma_minus_sign_refused(s: Seq<char>, max: nat)
    requires
        s.len() > 0,
        s[0] == '-',
    ensures
        parse_unsigned(s, max) is None,
{
    assert(!is_digit(unsigned_body(s)[0]));
}

/// A text made of digits, with or without a sign before them, holds ASCII
/// characters only.
proof fn lemma_digits_are_ascii(s: Seq<char>)
    requires
        unsigned_body(s).len() > 0,
        all_digits(unsigned_body(s)),
    ensures
        vstd::utf8::is_ascii_chars(s),
{
    let body = unsigned_body(s);
    assert forall|i: int| 0 <= i < s.len() implies '\0' <= #[trigger] s[i] <= '\u{7f}' by {
        if s[0] == '+' {
            if i > 0 {
                assert(is_digit(body[i - 1]));
            }
        } else {
            assert(is_digit(body[i]));
        }
    }
}

/// Reads `text` as an unsigned numeral no greater than `max`.
///
/// The numeral is an optional plus sign followed by one or more decimal
/// digits; leading zeros are allowed. `None` is returned for every other
/// text and for a numeral that denotes more than `max`.
pub fn parse_bounded(text: &str, max: u64) -> (parsed: Option<u64>)
    ensures
        parsed matches Some(n) ==> parse_unsigned(text@, max as nat) == Some(n as nat),
        parsed is None ==> parse_unsigned(text@, max as nat) is None,
{
    broadcast use vstd::string::is_ascii_spec_bytes;

    if !text.is_ascii() {
        proof {
            if unsigned_body(text@).len() > 0 && all_digits(unsigned_body(text@)) {
                lemma_digits_are_ascii(text@);
            }
        }
        return None;
    }
    let len: usize = text.as_bytes().len();
    let start: usize = if len > 0 && text.get_ascii(0) == 43u8 {
        1
    } else {
        0
    };
    let ghost body = unsigned_body(text@);
    proof {
        if len > 0 {
            assert('\0' <= text@[0] <= '\u{7f}');
        }
        assert(body =~= text@.subrange(start as int, len as int));
    }
    if start == len {
        return None;
    }
    let mut value: u64 = 0;
    let mut at: usize = start;
    while at < len
        invariant
            text.is_ascii(),
            len == text@.len(),
            start <= at <= len,
            body == unsigned_body(text@),
            body == text@.subrange(start as int, len as int),
            all_digits(body.subrange(0, at - start)),
            value == decimal_value(body.subrange(0, at - start)),
            value <= max,
        decreases len - at,
    {
        let byte: u8 = text.get_ascii(at);
        assert('\0' <= text@[at as int] <= '\u{7f}');
        if byte < 48u8 || byte > 57u8 {
            assert(!is_digit(body[at - start]));
            return None;
        }
        let digit: u64 = (byte - 48u8) as u64;
        proof {
            let seen = body.subrange(0, at - start);
            let next = body.subrange(0, at - start + 1);
            assert(next =~= seen.push(body[at - start]));
            lemma_value_push(seen, body[at - start]);
            assert(digit == digit_value(body[at - start]));
            lemma_prefix_value_le(body, at - start + 1);
        }
        if digit > max || value > (max - digit) / 10 {
            return None;
        }
        value = value * 10 + digit;
        at = at + 1;
    }
    assert(body.subrange(0, at - start) =~= body);
    Some(value)
}

/// Reads `text` as an unsigned numeral of 64 bits.
pub fn parse_u64(text: &str) -> (parsed: Option<u64>)
    ensures
        parsed matches Some(n) ==> parse_unsigned(text@, u64::MAX as nat) == Some(n as nat),
        parsed is None ==> parse_unsigned(text@, u64::MAX as nat) is None,
{
    parse_bounded(text, u64::MAX)
}

/// Reads `text` as an unsigned numeral of 32 bits.
pub fn parse_u32(text: &str) -> (parsed: Option<u32>)
    ensures
        parsed matches Some(n) ==> parse_unsigned(text@, u32::MAX as nat) == Some(n as nat),
        parsed is None ==> parse_unsigned(text@, u32::MAX as nat) is None,
{
    match parse_bounded(text, 0xffff_ffffu64) {
        Some(n) => Some(n as u32),
        None => None,
    }
}

/// The one-character text of the digit `d`.
fn digit_text(d: u64) -> (text: &'static str)
    requires
        d < 10,
    ensures
        text@ == seq![digit_char(d as nat)],
{
    proof {
        reveal_strlit("0");
        reveal_strlit("1");
        reveal_strlit("2");
        reveal_strlit("3");
        reveal_strlit("4");
        reveal_strlit("5");
        reveal_strlit("6");
        reveal_strlit("7");
        reveal_strlit("8");
        reveal_strlit("9");
    }
    let text: &'static str = if d == 0 {
        "0"
    } else if d == 1 {
        "1"
    } else if d == 2 {
        "2"
    } else if d == 3 {
        "3"
    } else if d == 4 {
        "4"
    } else if d == 5 {
        "5"
    } else if d == 6 {
        "6"
    } else if d == 7 {
        "7"
    } else if d == 8 {
        "8"
    } else {
        "9"
    };
    assert(text@ =~= seq![digit_char(d as nat)]);
    text
}

/// Appends the decimal digits of `n` to `out`.
pub fn push_decimal(out: &mut String, n: u64)
    ensures
        final(out)@ == old(out)@ + decimal_digits(n as nat),
    decreases n,
{
    if n >= 10 {
        push_decimal(out, n / 10);
    }
    out.append(digit_text(n % 10));
    assert(final(out)@ =~= old(out)@ + decimal_digits(n as nat));
}

} // verus!
