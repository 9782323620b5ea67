//! The result record of one check, what a request can come to, and how the
//! one is classified into the other.
use vstd::prelude::*;

use crate::status::{http_error_message, http_error_text, is_success_code, status_is_success};

verus! {

/// The result of checking one endpoint.
///
/// `total_time_ns` is the wall-clock time of the request in nanoseconds; it is
/// zero when the address was rejected before any request was made. `error`
/// holds a diagnostic exactly when `success` is false.
#[derive(Clone, Debug)]
pub struct Metrics {
    pub url: String,
    pub total_time_ns: u128,
    pub success: bool,
    pub error: Option<String>,
}

/// The mathematical value of a [`Metrics`].
pub struct MetricsView {
    pub url: Seq<char>,
    pub total_time_ns: nat,
    pub success: bool,
    pub error: Option<Seq<char>>,
}

impl MetricsView {
    /// A diagnostic is present exactly when the check failed.
    pub open spec fn well_formed(self) -> bool {
        self.error is Some <==> !self.success
    }
}

/// The view of an optional string.
pub open spec fn option_string_view(o: Option<String>) -> Option<Seq<char>> {
    match o {
        Some(s) => Some(s@),
        None => None,
    }
}

impl View for Metrics {
    type V = MetricsView;

    open spec fn view(&self) -> MetricsView {
        MetricsView {
            url: self.url@,
            total_time_ns: self.total_time_ns as nat,
            success: self.success,
            error: option_string_view(self.error),
        }
    }
}

/// What a single request came to.
#[derive(Clone, Debug)]
pub enum Outcome {
    /// A response was received, with this status code.
    Responded(u16),
    /// No response was received; the transport's own diagnostic.
    TransportFailed(String),
}

/// The mathematical value of an [`Outcome`].
pub enum OutcomeView {
    Responded(u16),
    TransportFailed(Seq<char>),
}

impl View for Outcome {
    type V = OutcomeView;

    open spec fn view(&self) -> OutcomeView {
        match self {
            Outcome::Responded(code) => OutcomeView::Responded(*code),
            Outcome::TransportFailed(msg) => OutcomeView::TransportFailed(msg@),
        }
    }
}

/// The diagnostic of an address that failed to parse.
pub open spec fn invalid_url_text(diag: Seq<char>) -> Seq<char> {
    "Invalid URL format: "@ + diag
}

/// The record of an address rejected before any request, with the parser's
/// diagnostic `diag`.
pub open spec fn rejected(url: Seq<char>, diag: Seq<char>) -> MetricsView {
    MetricsView { url, total_time_ns: 0, success: false, error: Some(invalid_url_text(diag)) }
}

/// Whether an outcome counts as success: a response in the success range.
pub open spec fn outcome_success(o: OutcomeView) -> bool {
    match o {
        OutcomeView::Responded(code) => is_success_code(code as int),
        OutcomeView::TransportFailed(_) => false,
    }
}

/// The diagnostic of an outcome: none on success, `"HTTP <code>"` for a
/// response outside the success range, the transport's text otherwise.
pub open spec fn outcome_error(o: OutcomeView) -> Option<Seq<char>> {
    match o {
        OutcomeView::Responded(code) => if is_success_code(code as int) {
            None
        } else {
            Some(http_error_text(code as int))
        },
        OutcomeView::TransportFailed(msg) => Some(msg),
    }
}

/// The record of a request to `url` that came to `o` after `elapsed_ns`.
pub open spec fn classified(url: Seq<char>, o: OutcomeView, elapsed_ns: nat) -> MetricsView {
    MetricsView {
        url,
        total_time_ns: elapsed_ns,
        success: outcome_success(o),
        error: outcome_error(o),
    }
}

/// The record of `url` rejected by the address parser with diagnostic `diag`.
pub fn invalid_url_metrics(url_str: &str, diag: &str) -> (r: Metrics)
    ensures
        r@ == rejected(url_str@, diag@),
{
    let mut error = String::from_str("Invalid URL format: ");
    proof {
        reveal_strlit("Invalid URL format: ");
    }
    error.append(diag);
    let r = Metrics { url: url_str.to_owned(), total_time_ns: 0, success: false, error: Some(error) };
    assert(r@ =~= rejected(url_str@, diag@));
    r
}

/// Classifies what a request to `url_str` came to after `elapsed_ns`.
pub fn outcome_metrics(url_str: &str, outcome: Outcome, elapsed_ns: u128) -> (r: Metrics)
    ensures
        r@ == classified(url_str@, outcome@, elapsed_ns as nat),
        r@.well_formed(),
{
    let (success, error) = match outcome {
        Outcome::Responded(code) => {
            if status_is_success(code) {
                (true, None)
            } else {
                (false, Some(http_error_message(code)))
            }
        },
        Outcome::TransportFailed(msg) => (false, Some(msg)),
    };
    let r = Metrics { url: url_str.to_owned(), total_time_ns: elapsed_ns, success, error };
    assert(r@ =~= classified(url_str@, outcome@, elapsed_ns as nat));
    r
}

} // verus!
