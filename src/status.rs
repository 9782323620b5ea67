//! HTTP status codes: the success range and the text of an HTTP failure.
use vstd::prelude::*;

verus! {

/// A status code in the conventional success class, 200 to 299 inclusive.
pub open spec fn is_success_code(code: int) -> bool {
    200 <= code < 300
}

/// The decimal digit `d` as a character.
pub open spec fn digit_char(d: int) -> char {
    seq!['0', '1', '2', '3', '4', '5', '6', '7', '8', '9'][d]
}

/// The decimal notation of `n`, without leading zeros.
pub open spec fn decimal(n: nat) -> Seq<char>
    decreases n,
{
    if n < 10 {
        seq![digit_char(n as int)]
    } else {
        decimal(n / 10).push(digit_char((n % 10) as int))
    }
}

/// The diagnostic of a response whose status lies outside the success range.
pub open spec fn http_error_text(code: int) -> Seq<char> {
    "HTTP "@ + decimal(code as nat)
}

/// Whether `code` lies in the success range.
pub fn status_is_success(code: u16) -> (r: bool)
    ensures
        r == is_success_code(code as int),
{
    200 <= code && code < 300
}

/// Appends the digit `d` to `s`.
fn append_digit(s: &mut String, d: u16)
    requires
        d < 10,
    ensures
        final(s)@ == old(s)@.push(digit_char(d as int)),
{
    let digits: &str = "0123456789";
    proof {
        reveal_strlit("0123456789");
    }
    let one: &str = digits.substring_char(d as usize, d as usize + 1);
    assert(one@ =~= seq![digit_char(d as int)]);
    s.append(one);
}

/// Appends the decimal notation of `n` to `s`.
fn append_decimal(s: &mut String, n: u16)
    ensures
        final(s)@ == old(s)@ + decimal(n as nat),
    decreases n,
{
    if n >= 10 {
        append_decimal(s, n / 10);
    }
    append_digit(s, n % 10);
    assert(s@ =~= old(s)@ + decimal(n as nat));
}

/// The diagnostic `"HTTP <code>"` of a response outside the success range.
pub fn http_error_message(code: u16) -> (r: String)
    ensures
        r@ == http_error_text(code as int),
{
    let mut r = String::from_str("HTTP ");
    proof {
        reveal_strlit("HTTP ");
    }
    append_decimal(&mut r, code);
    r
}

} // verus!
