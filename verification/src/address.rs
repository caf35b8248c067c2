//! Validation of the address a pane is to show.

use crate::error::{ErrorKind, ViewError, ViewErrorView};
use vstd::prelude::*;

verus! {

/// What parsing `input` as an absolute URL gives: the serialization of the
/// URL it denotes, or the parser's name for what is wrong with it.
pub uninterp spec fn url_parse(input: Seq<char>) -> Result<Seq<char>, Seq<char>>;

/// Calls `url::Url::parse`. The contract claims that the outcome is a
/// function of the input alone and gives it the name [`url_parse`]: on
/// success the result is the URL's serialization, on failure the `Debug` text
/// of the `url::ParseError`. Nothing is claimed about which inputs parse.
#[verifier::external_body]
fn parse_url(input: &str) -> (result: Result<String, String>)
    ensures
        spec_parsed_view(result) == url_parse(input@),
{
    match ::url::Url::parse(input) {
        Ok(parsed) => Ok(String::from(parsed)),
        Err(error) => Err(format!("{:?}", error)),
    }
}

/// What validation makes of a parser's outcome: the serialization stands, a
/// verdict becomes an invalid-URL error that carries it.
pub open spec fn spec_judge(parsed: Result<Seq<char>, Seq<char>>) -> Result<
    Seq<char>,
    ViewErrorView,
> {
    match parsed {
        Ok(serialization) => Ok(serialization),
        Err(verdict) => Err(ViewErrorView { kind: ErrorKind::InvalidUrl, message: verdict }),
    }
}

/// A parser's outcome in specifications.
pub open spec fn spec_parsed_view(parsed: Result<String, String>) -> Result<Seq<char>, Seq<char>> {
    match parsed {
        Ok(serialization) => Ok(serialization@),
        Err(verdict) => Err(verdict@),
    }
}

/// The outcome of validation in specifications.
pub open spec fn spec_address_view(address: Result<String, ViewError>) -> Result<
    Seq<char>,
    ViewErrorView,
> {
    match address {
        Ok(serialization) => Ok(serialization@),
        Err(error) => Err(error@),
    }
}

/// Turns a parser's outcome into the outcome of validation.
pub fn judge(parsed: Result<String, String>) -> (address: Result<String, ViewError>)
    ensures
        spec_address_view(address) == spec_judge(spec_parsed_view(parsed)),
{
    match parsed {
        Ok(serialization) => Ok(serialization),
        Err(verdict) => Err(ViewError::invalid_url(verdict)),
    }
}

/// Validates the address of a pane. It is accepted if and only if it parses
/// as an absolute URL; the result is then its serialization. Otherwise the
/// result is an invalid-URL error that carries the parser's verdict.
pub fn validate_url(input: &str) -> (address: Result<String, ViewError>)
    ensures
        spec_address_view(address) == spec_judge(url_parse(input@)),
{
    judge(parse_url(input))
}

} // verus!
