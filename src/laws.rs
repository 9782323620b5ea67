//! Laws of the classification, stated over the records' mathematical values.
use vstd::prelude::*;

use crate::address::{screened, url_syntax_error};
use crate::metrics::{classified, invalid_url_text, OutcomeView};

verus! {

/// Success and the diagnostic are functions of the outcome alone: neither the
/// address nor the time taken changes them.
pub proof fn classification_depends_on_outcome_alone(
    url1: Seq<char>,
    url2: Seq<char>,
    o: OutcomeView,
    elapsed1: nat,
    elapsed2: nat,
)
    ensures
        classified(url1, o, elapsed1).success == classified(url2, o, elapsed2).success,
        classified(url1, o, elapsed1).error == classified(url2, o, elapsed2).error,
{
}

/// An address that does not parse is rejected with no time taken, and its
/// diagnostic starts with "Invalid URL format: ".
pub proof fn unparsable_address_takes_no_time(url: Seq<char>)
    requires
        url_syntax_error(url) is Some,
    ensures
        ({
            &&& screened(url) matches Some(m)
            &&& m.total_time_ns == 0
            &&& m.error matches Some(e)
            &&& "Invalid URL format: "@.is_prefix_of(e)
        }),
{
    let diag = url_syntax_error(url)->0;
    assert(invalid_url_text(diag).subrange(0, "Invalid URL format: "@.len() as int)
        =~= "Invalid URL format: "@);
}

/// A response counts as success exactly when its status code lies in 200 to 299.
pub proof fn success_is_the_success_range(url: Seq<char>, code: u16, elapsed: nat)
    ensures
        classified(url, OutcomeView::Responded(code), elapsed).success == (200 <= code < 300),
{
}

/// Every record carries a diagnostic exactly when it reports failure: those
/// of classified outcomes and those of rejected addresses alike.
pub proof fn error_present_exactly_on_failure(url: Seq<char>, o: OutcomeView, elapsed: nat)
    ensures
        classified(url, o, elapsed).well_formed(),
        screened(url) matches Some(m) ==> m.well_formed(),
{
}

} // verus!
