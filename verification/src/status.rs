//! HTTP status codes as the transport reports them.

use crate::text::{decimal_digits, decimal_text};
use vstd::prelude::*;
use vstd::string::*;

verus! {

/// The standard reason phrase of the status with number `code`, as
/// `reqwest::StatusCode::canonical_reason` gives it; `None` for a number that
/// has none. It depends on the number alone.
pub uninterp spec fn reason_phrase(code: u16) -> Option<Seq<char>>;

/// Calls `reqwest::StatusCode::canonical_reason` on the status made by
/// `reqwest::StatusCode::from_u16(raw)`. Trusted: the phrase returned, or its
/// absence, is the one named by [`reason_phrase`]. `from_u16` accepts exactly
/// the numbers from 100 to 999, which `requires` demands.
#[verifier::external_body]
fn canonical_reason(raw: u16) -> (r: Option<String>)
    requires
        100 <= raw <= 999,
    ensures
        r.deep_view() == reason_phrase(raw),
{
    match reqwest::StatusCode::from_u16(raw) {
        Ok(status) => status.canonical_reason().map(String::from),
        Err(_) => None,
    }
}

/// Calls `reqwest::StatusCode::is_success` on the status made by
/// `reqwest::StatusCode::from_u16(raw)`. Trusted: it answers whether the
/// number lies in 200..=299.
#[verifier::external_body]
fn in_success_class(raw: u16) -> (r: bool)
    requires
        100 <= raw <= 999,
    ensures
        r == (200 <= raw <= 299),
{
    match reqwest::StatusCode::from_u16(raw) {
        Ok(status) => status.is_success(),
        Err(_) => false,
    }
}

/// Whether `code` can be the number of an HTTP status: three decimal digits.
pub open spec fn is_status_code(code: u16) -> bool {
    100 <= code <= 999
}

/// Whether `code` reports success: the class 2xx.
pub open spec fn is_success_code(code: u16) -> bool {
    200 <= code <= 299
}

/// How a status with this number and this reason phrase reads in a message:
/// the number in decimal, a space, and the phrase, or `<unknown status code>`
/// where it has none.
pub open spec fn line_of(code: u16, reason: Option<Seq<char>>) -> Seq<char> {
    decimal_digits(code as nat) + " "@ + match reason {
        Some(phrase) => phrase,
        None => "<unknown status code>"@,
    }
}

/// How a status reads in a message: its number and its standard reason
/// phrase, as [`line_of`] puts them together.
pub open spec fn status_line(code: u16) -> Seq<char> {
    line_of(code, reason_phrase(code))
}

/// Writes a status number and its reason phrase as they read in a message,
/// such as `404 Not Found`.
pub fn line_with_reason(code: u16, reason: Option<String>) -> (r: String)
    ensures
        r@ == line_of(code, reason.deep_view()),
{
    let mut out: String = decimal_text(code);
    out.append(" ");
    match reason {
        Some(phrase) => {
            out.append(phrase.as_str());
        },
        None => {
            out.append("<unknown status code>");
        },
    }
    out
}

/// An HTTP status: a number from 100 to 999.
#[derive(Clone, Copy, Debug, PartialEq, Eq)]
pub struct HttpStatus {
    code: u16,
}

impl View for HttpStatus {
    type V = u16;

    closed spec fn view(&self) -> u16 {
        self.code
    }
}

impl HttpStatus {
    #[verifier::type_invariant]
    spec fn in_range(self) -> bool {
        is_status_code(self.code)
    }

    /// Accepts the numbers from 100 to 999 and no others.
    pub fn new(code: u16) -> (r: Option<HttpStatus>)
        ensures
            r is Some <==> is_status_code(code),
            r is Some ==> r->0@ == code,
    {
        if 100 <= code && code <= 999 {
            Some(HttpStatus { code })
        } else {
            None
        }
    }

    /// The status number.
    pub fn code(&self) -> (r: u16)
        ensures
            r == self@,
            is_status_code(r),
    {
        proof {
            use_type_invariant(self);
        }
        self.code
    }

    /// Whether the status reports success.
    pub fn reports_success(&self) -> (r: bool)
        ensures
            r == is_success_code(self@),
    {
        proof {
            use_type_invariant(self);
        }
        in_success_class(self.code)
    }

    /// The status as it reads in a message, such as `404 Not Found`.
    pub fn line(&self) -> (r: String)
        ensures
            r@ == status_line(self@),
    {
        proof {
            use_type_invariant(self);
        }
        line_with_reason(self.code, canonical_reason(self.code))
    }
}

} // verus!
