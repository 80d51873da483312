//! Taking a known prefix off a text.

use vstd::prelude::*;
use vstd::string::*;

verus! {

/// What follows the first `n` characters of `s`.
pub open spec fn after(s: Seq<char>, n: nat) -> Seq<char>
    recommends
        n <= s.len(),
{
    s.subrange(n as int, s.len() as int)
}

/// Takes `prefix` off the front of `text`.
///
/// Returns the remainder when `text` begins with `prefix`, character for
/// character, and `None` when it does not.
pub fn strip_prefix<'a>(text: &'a str, prefix: &str) -> (rest: Option<&'a str>)
    ensures
        prefix@.is_prefix_of(text@) ==> (rest matches Some(r) && r@ == after(text@, prefix@.len())),
        !prefix@.is_prefix_of(text@) ==> rest is None,
{
    let text_len: usize = text.unicode_len();
    let prefix_len: usize = prefix.unicode_len();
    if prefix_len > text_len {
        return None;
    }
    let mut at: usize = 0;
    while at < prefix_len
        invariant
            at <= prefix_len <= text_len,
            prefix_len == prefix@.len(),
            text_len == text@.len(),
            text@.subrange(0, at as int) == prefix@.subrange(0, at as int),
        decreases prefix_len - at,
    {
        if text.get_char(at) != prefix.get_char(at) {
            assert(text@.subrange(0, prefix_len as int)[at as int] != prefix@[at as int]);
            return None;
        }
        assert(text@.subrange(0, at + 1) =~= text@.subrange(0, at as int).push(text@[at as int]));
        assert(prefix@.subrange(0, at + 1) =~= prefix@.subrange(0, at as int).push(
            prefix@[at as int],
        ));
        at = at + 1;
    }
    assert(prefix@.subrange(0, prefix_len as int) =~= prefix@);
    Some(text.substring_char(prefix_len, text_len))
}

/// Puts `prefix` in front of `value`.
pub fn with_prefix(prefix: &str, value: &str) -> (text: String)
    ensures
        text@ == prefix@ + value@,
{
    let mut text = String::from_str(prefix);
    text.append(value);
    assert(text@ =~= prefix@ + value@);
    text
}

/// A text made of a prefix and a value begins with the prefix, and the value
/// is what follows it.
pub proof fn lemma_prefix_then_value(prefix: Seq<char>, value: Seq<char>)
    ensures
        prefix.is_prefix_of(prefix + value),
        after(prefix + value, prefix.len()) == value,
{
    assert((prefix + value).subrange(0, prefix.len() as int) =~= prefix);
    assert(after(prefix + value, prefix.len()) =~= value);
}

} // verus!
