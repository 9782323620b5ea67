//! Validation of the target address, before any request is made.
use vstd::prelude::*;

use crate::metrics::{invalid_url_metrics, rejected, Metrics, MetricsView};

verus! {

/// What the URL parser says of `input`: nothing when it is an absolute URL,
/// its diagnostic text when it is not.
pub uninterp spec fn url_syntax_error(input: Seq<char>) -> Option<Seq<char>>;

/// Relies on url::Url::parse, which decides whether `input` is an absolute URL
/// and otherwise returns a ParseError, turned into its Display text.
#[verifier::external_body]
fn parse_url(input: &str) -> (r: Result<(), String>)
    ensures
        match r {
            Ok(()) => url_syntax_error(input@) is None,
            Err(diag) => url_syntax_error(input@) == Some(diag@),
        },
{
    match url::Url::parse(input) {
        Ok(_) => Ok(()),
        Err(e) => Err(e.to_string()),
    }
}

/// The record owed for `url` before any request: a rejection when the
/// address does not parse, nothing when it does.
pub open spec fn screened(url: Seq<char>) -> Option<MetricsView> {
    match url_syntax_error(url) {
        Some(diag) => Some(rejected(url, diag)),
        None => None,
    }
}

/// Checks the syntax of `url_str`; returns the record of its rejection when it
/// is not an absolute URL, and `None` when a request can be made.
pub fn screen_url(url_str: &str) -> (r: Option<Metrics>)
    ensures
        match r {
            Some(m) => screened(url_str@) == Some(m@),
            None => screened(url_str@) is None,
        },
{
    match parse_url(url_str) {
        Ok(()) => None,
        Err(diag) => Some(invalid_url_metrics(url_str, diag.as_str())),
    }
}

} // verus!
