//! One check of an endpoint, from its address to its record.
//!
//! [`begin_check`] validates the address and, when a request is owed, starts
//! the clock. The caller then makes the request and hands what it came to to
//! [`PendingCheck::complete`], which stops the clock and classifies it.
use vstd::prelude::*;

use crate::address::{screen_url, screened, url_syntax_error};
use crate::clock::{clock_now, nanos_since};
use crate::metrics::{classified, outcome_metrics, Metrics, Outcome};

verus! {

/// A check whose address was accepted and whose request is in flight.
pub struct PendingCheck {
    url: String,
    started: web_time::Instant,
}

impl PendingCheck {
    /// The address under check.
    pub closed spec fn target(&self) -> Seq<char> {
        self.url@
    }

    /// The address under check, verbatim as it was given.
    pub fn url(&self) -> (r: &str)
        ensures
            r@ == self.target(),
    {
        self.url.as_str()
    }

    /// Stops the clock and classifies what the request came to.
    pub fn complete(self, outcome: Outcome) -> (r: Metrics)
        ensures
            r@ == classified(self.target(), outcome@, r@.total_time_ns),
            r@.well_formed(),
    {
        let elapsed_ns = nanos_since(&self.started);
        outcome_metrics(self.url.as_str(), outcome, elapsed_ns)
    }
}

/// Starts the check of `url_str`. An address that does not parse is rejected
/// at once, with no time taken; otherwise the clock starts and the request is
/// owed.
pub fn begin_check(url_str: &str) -> (r: Result<PendingCheck, Metrics>)
    ensures
        match r {
            Ok(p) => url_syntax_error(url_str@) is None && p.target() == url_str@,
            Err(m) => screened(url_str@) == Some(m@),
        },
        r matches Err(m) ==> m@.well_formed() && m@.total_time_ns == 0,
{
    match screen_url(url_str) {
        Some(m) => Err(m),
        None => {
            let started = clock_now();
            Ok(PendingCheck { url: url_str.to_owned(), started })
        },
    }
}

} // verus!
