//! Fee rates, in satoshis per virtual byte, as the wallet library holds them.

use bdk::FeeRate;
use vstd::prelude::*;

verus! {

/// The wallet library's fee rate. Nothing here looks inside one: a rate is
/// read from text, carried, and written back as text.
#[verifier::external_type_specification]
#[verifier::external_body]
pub struct ExFeeRate(bdk::FeeRate);

/// The rate that a decimal number written in `text` gives, if `text` is such
/// a number.
pub uninterp spec fn rate_of_text(text: Seq<char>) -> Option<FeeRate>;

/// The number of satoshis per virtual byte of `rate`, written out.
pub uninterp spec fn text_of_rate(rate: FeeRate) -> Seq<char>;

/// Reads `text` as a number of satoshis per virtual byte.
///
/// The text goes through the standard library's parser of single-precision
/// numbers and the number through `FeeRate::from_sat_per_vb`, which stores it
/// as it is. The contract only names the outcome: the same text always gives
/// the same rate, and which texts are numbers is the parser's business.
#[verifier::external_body]
pub(crate) fn parse_rate(text: &str) -> (rate: Option<FeeRate>)
    ensures
        rate == rate_of_text(text@),
{
    text.parse().ok().map(FeeRate::from_sat_per_vb)
}

/// Writes `rate` as a number of satoshis per virtual byte.
///
/// The number comes from `FeeRate::as_sat_vb` and is written the way the
/// standard library displays it. The contract only names the text.
#[verifier::external_body]
pub(crate) fn write_rate(rate: &FeeRate) -> (text: String)
    ensures
        text@ == text_of_rate(*rate),
{
    rate.as_sat_vb().to_string()
}

} // verus!
