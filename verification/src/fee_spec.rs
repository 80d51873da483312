//! What a user asks a transaction's fee to be, and the text form of the
//! request.

use crate::amount::{amount_of_text, parse_amount, text_of_amount, write_amount, AmountError};
use crate::builder::{FeeBuilder, FeePolicy};
use crate::decimal::{
    decimal_digits, lemma_write_then_read, parse_u32, parse_u64, parse_unsigned, push_decimal,
};
use crate::rate::{parse_rate, rate_of_text, text_of_rate, write_rate};
use crate::text::{after, lemma_prefix_then_value, strip_prefix, with_prefix};
use bdk::FeeRate;
use vstd::prelude::*;
use vstd::string::*;

verus! {

/// A request for a transaction fee.
#[derive(Debug, Clone, Copy, PartialEq)]
pub enum FeeSpec {
    /// Pay exactly this many satoshis.
    Absolute(u64),
    /// Pay at this rate, in satoshis per virtual byte.
    Rate(FeeRate),
    /// Pay what it is estimated to take to confirm within this many blocks.
    Height(u32),
}

/// Why a text is not a fee request.
#[derive(Debug, Clone, Copy, PartialEq, Eq)]
pub enum ParseError {
    /// The number after `rate:` or `in-blocks:` is not a number of the
    /// expected kind.
    MalformedNumber,
    /// What follows `abs:` is neither a whole number of satoshis nor an
    /// amount with a unit.
    MalformedAmount(AmountError),
    /// The text begins with none of `rate:`, `abs:` and `in-blocks:`.
    UnrecognizedPrefix,
}

/// The text `rate:`.
pub open spec fn rate_prefix() -> Seq<char> {
    seq!['r', 'a', 't', 'e', ':']
}

/// The text `abs:`.
pub open spec fn absolute_prefix() -> Seq<char> {
    seq!['a', 'b', 's', ':']
}

/// The text `in-blocks:`.
pub open spec fn height_prefix() -> Seq<char> {
    seq!['i', 'n', '-', 'b', 'l', 'o', 'c', 'k', 's', ':']
}

/// The request that a rate read after `rate:` makes: the rate itself, or a
/// malformed number where none could be read.
pub open spec fn rate_request(parsed: Option<FeeRate>) -> Result<FeeSpec, ParseError> {
    match parsed {
        Some(rate) => Ok(FeeSpec::Rate(rate)),
        None => Err(ParseError::MalformedNumber),
    }
}

/// The request that `text` makes after `abs:`. A whole number counts as
/// satoshis; anything else must be an amount with a unit.
pub open spec fn absolute_request(text: Seq<char>) -> Result<FeeSpec, ParseError> {
    match parse_unsigned(text, u64::MAX as nat) {
        Some(sat) => Ok(FeeSpec::Absolute(sat as u64)),
        None => match amount_of_text(text) {
            Ok(sat) => Ok(FeeSpec::Absolute(sat)),
            Err(error) => Err(ParseError::MalformedAmount(error)),
        },
    }
}

/// The request that `text` makes after `in-blocks:`.
pub open spec fn height_request(text: Seq<char>) -> Result<FeeSpec, ParseError> {
    match parse_unsigned(text, u32::MAX as nat) {
        Some(blocks) => Ok(FeeSpec::Height(blocks as u32)),
        None => Err(ParseError::MalformedNumber),
    }
}

/// The request that the text `s` makes.
///
/// The text must begin with one of three prefixes, spelled exactly, and what
/// follows the prefix decides the request.
pub open spec fn fee_spec_of_text(s: Seq<char>) -> Result<FeeSpec, ParseError> {
    if rate_prefix().is_prefix_of(s) {
        rate_request(rate_of_text(after(s, rate_prefix().len())))
    } else if absolute_prefix().is_prefix_of(s) {
        absolute_request(after(s, absolute_prefix().len()))
    } else if height_prefix().is_prefix_of(s) {
        height_request(after(s, height_prefix().len()))
    } else {
        Err(ParseError::UnrecognizedPrefix)
    }
}

/// The text form of a request: its prefix, then its value.
pub open spec fn text_of_fee_spec(spec: FeeSpec) -> Seq<char> {
    match spec {
        FeeSpec::Rate(rate) => rate_prefix() + text_of_rate(rate),
        FeeSpec::Absolute(sat) => absolute_prefix() + text_of_amount(sat),
        FeeSpec::Height(blocks) => height_prefix() + decimal_digits(blocks as nat),
    }
}

/// Whether `applied` and `after` are what becomes of a builder `before` once
/// the fee for a target has been estimated: an estimate is set as the fee
/// rate, a failure is handed on as it came and changes nothing.
pub open spec fn settles<E>(
    estimate: Result<FeeRate, E>,
    before: FeeBuilder,
    applied: Result<(), E>,
    after: FeeBuilder,
) -> bool {
    match estimate {
        Ok(rate) => applied == Ok::<(), E>(()) && after.policy == Some(FeePolicy::Rate(rate)),
        Err(error) => applied == Err::<(), E>(error) && after == before,
    }
}

/// Whether `s` begins with one of the three prefixes of a request.
pub open spec fn has_known_prefix(s: Seq<char>) -> bool {
    rate_prefix().is_prefix_of(s) || absolute_prefix().is_prefix_of(s)
        || height_prefix().is_prefix_of(s)
}

impl Default for FeeSpec {
    /// Confirmation in the next block.
    fn default() -> (spec: Self)
        ensures
            spec == FeeSpec::Height(1),
    {
        FeeSpec::Height(1)
    }
}

impl FeeSpec {
    /// Makes a request of what was read after `rate:`.
    pub fn from_parsed_rate(parsed: Option<FeeRate>) -> (request: Result<FeeSpec, ParseError>)
        ensures
            request == rate_request(parsed),
    {
        match parsed {
            Some(rate) => Ok(FeeSpec::Rate(rate)),
            None => Err(ParseError::MalformedNumber),
        }
    }

    /// Reads a request from its text form: `rate:` and a number of satoshis
    /// per virtual byte, `abs:` and an amount, or `in-blocks:` and a number
    /// of blocks.
    pub fn from_str(string: &str) -> (parsed: Result<FeeSpec, ParseError>)
        ensures
            parsed == fee_spec_of_text(string@),
            !has_known_prefix(string@) ==> parsed == Err::<FeeSpec, ParseError>(
                ParseError::UnrecognizedPrefix,
            ),
            has_known_prefix(string@) ==> parsed != Err::<FeeSpec, ParseError>(
                ParseError::UnrecognizedPrefix,
            ),
    {
        proof {
            reveal_strlit("rate:");
            reveal_strlit("abs:");
            reveal_strlit("in-blocks:");
            assert("rate:"@ =~= rate_prefix());
            assert("abs:"@ =~= absolute_prefix());
            assert("in-blocks:"@ =~= height_prefix());
        }
        if let Some(rate) = strip_prefix(string, "rate:") {
            return FeeSpec::from_parsed_rate(parse_rate(rate));
        }
        if let Some(amount) = strip_prefix(string, "abs:") {
            return match parse_u64(amount) {
                Some(sat) => Ok(FeeSpec::Absolute(sat)),
                None => match parse_amount(amount) {
                    Ok(sat) => Ok(FeeSpec::Absolute(sat)),
                    Err(error) => Err(ParseError::MalformedAmount(error)),
                },
            };
        }
        if let Some(blocks) = strip_prefix(string, "in-blocks:") {
            return match parse_u32(blocks) {
                Some(blocks) => Ok(FeeSpec::Height(blocks)),
                None => Err(ParseError::MalformedNumber),
            };
        }
        Err(ParseError::UnrecognizedPrefix)
    }

    /// Writes the request in the form that `from_str` reads.
    pub fn to_string(&self) -> (text: String)
        ensures
            text@ == text_of_fee_spec(*self),
    {
        proof {
            reveal_strlit("rate:");
            reveal_strlit("abs:");
            reveal_strlit("in-blocks:");
            assert("rate:"@ =~= rate_prefix());
            assert("abs:"@ =~= absolute_prefix());
            assert("in-blocks:"@ =~= height_prefix());
        }
        match self {
            FeeSpec::Rate(rate) => with_prefix("rate:", write_rate(rate).as_str()),
            FeeSpec::Absolute(sat) => with_prefix("abs:", write_amount(*sat).as_str()),
            FeeSpec::Height(blocks) => {
                let mut text = String::from_str("in-blocks:");
                push_decimal(&mut text, *blocks as u64);
                text
            },
        }
    }

    /// Settles a request for confirmation within some blocks, once the fee
    /// for that target has been estimated.
    ///
    /// An estimate becomes the builder's fee rate. A failure to estimate is
    /// handed back as it came and leaves the builder as it was.
    pub fn apply_estimate<E>(estimate: Result<FeeRate, E>, builder: &mut FeeBuilder) -> (applied:
        Result<(), E>)
        ensures
            settles(estimate, *old(builder), applied, *final(builder)),
    {
        match estimate {
            Ok(rate) => {
                builder.fee_rate(rate);
                Ok(())
            },
            Err(error) => Err(error),
        }
    }

    /// Gives `builder` the fee that the request asks for.
    ///
    /// An absolute fee and a fee rate are set as they are. A request for
    /// confirmation within `h` blocks calls `estimate_fee` with `h`, once,
    /// and goes on as `apply_estimate` says. `estimate_fee` is called for no
    /// other request: nothing is asked of it unless the request is a height.
    pub fn apply_to_builder<E, F: FnOnce(usize) -> Result<FeeRate, E>>(
        &self,
        estimate_fee: F,
        builder: &mut FeeBuilder,
    ) -> (applied: Result<(), E>)
        requires
            self matches FeeSpec::Height(blocks) ==> estimate_fee.requires((blocks as usize,)),
        ensures
            match *self {
                FeeSpec::Absolute(sat) => applied == Ok::<(), E>(()) && final(builder).policy
                    == Some(FeePolicy::Absolute(sat)),
                FeeSpec::Rate(rate) => applied == Ok::<(), E>(()) && final(builder).policy == Some(
                    FeePolicy::Rate(rate),
                ),
                FeeSpec::Height(blocks) => exists|estimate: Result<FeeRate, E>|
                    {
                        &&& estimate_fee.ensures((blocks as usize,), estimate)
                        &&& #[trigger] settles(estimate, *old(builder), applied, *final(builder))
                    },
            },
    {
        match self {
            FeeSpec::Absolute(sat) => {
                builder.fee_absolute(*sat);
                Ok(())
            },
            FeeSpec::Rate(rate) => {
                builder.fee_rate(*rate);
                Ok(())
            },
            FeeSpec::Height(blocks) => {
                let estimate = estimate_fee(*blocks as usize);
                FeeSpec::apply_estimate(estimate, builder)
            },
        }
    }
}

impl std::str::FromStr for FeeSpec {
    type Err = ParseError;

    fn from_str(string: &str) -> (parsed: Result<Self, ParseError>)
        ensures
            parsed == fee_spec_of_text(string@),
    {
        FeeSpec::from_str(string)
    }
}

/// A text begins with at most one of the three prefixes, so the order in
/// which they are tried decides nothing.
pub proof fn lemma_prefixes_exclude(s: Seq<char>)
    ensures
        !(rate_prefix().is_prefix_of(s) && absolute_prefix().is_prefix_of(s)),
        !(rate_prefix().is_prefix_of(s) && height_prefix().is_prefix_of(s)),
        !(absolute_prefix().is_prefix_of(s) && height_prefix().is_prefix_of(s)),
{
    if rate_prefix().is_prefix_of(s) {
        assert(s.subrange(0, 5)[0] == 'r');
    }
    if absolute_prefix().is_prefix_of(s) {
        assert(s.subrange(0, 4)[0] == 'a');
    }
    if height_prefix().is_prefix_of(s) {
        assert(s.subrange(0, 10)[0] == 'i');
    }
}

/// Writing a request for confirmation within some blocks and reading the
/// text back gives the same request, for every number of blocks.
pub proof fn lemma_height_round_trip(blocks: u32)
    ensures
        fee_spec_of_text(text_of_fee_spec(FeeSpec::Height(blocks))) == Ok::<FeeSpec, ParseError>(
            FeeSpec::Height(blocks),
        ),
{
    let digits = decimal_digits(blocks as nat);
    let text = height_prefix() + digits;
    lemma_prefix_then_value(height_prefix(), digits);
    lemma_prefixes_exclude(text);
    lemma_write_then_read(blocks as nat, u32::MAX as nat);
}

/// Writing a request for a fee rate and reading the text back gives the same
/// request, for every rate whose written number is read back as that rate.
pub proof fn lemma_rate_round_trip(rate: FeeRate)
    requires
        rate_of_text(text_of_rate(rate)) == Some(rate),
    ensures
        fee_spec_of_text(text_of_fee_spec(FeeSpec::Rate(rate))) == Ok::<FeeSpec, ParseError>(
            FeeSpec::Rate(rate),
        ),
{
    lemma_prefix_then_value(rate_prefix(), text_of_rate(rate));
}

/// Writing a request for an absolute fee and reading the text back gives the
/// same request, for every amount whose displayed form is read back as that
/// amount.
pub proof fn lemma_absolute_round_trip(sat: u64)
    requires
        absolute_request(text_of_amount(sat)) == Ok::<FeeSpec, ParseError>(FeeSpec::Absolute(sat)),
    ensures
        fee_spec_of_text(text_of_fee_spec(FeeSpec::Absolute(sat))) == Ok::<FeeSpec, ParseError>(
            FeeSpec::Absolute(sat),
        ),
{
    let text = absolute_prefix() + text_of_amount(sat);
    lemma_prefix_then_value(absolute_prefix(), text_of_amount(sat));
    lemma_prefixes_exclude(text);
}

} // verus!
