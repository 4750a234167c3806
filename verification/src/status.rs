//! HTTP status codes, as far as the client has to understand them.

use crate::text::decimal;
use vstd::prelude::*;

verus! {

/// The status code of an HTTP response: a number from 100 to 999.
#[derive(Clone, Copy, Debug, PartialEq, Eq)]
pub struct StatusCode {
    code: u16,
}

impl StatusCode {
    #[verifier::type_invariant]
    spec fn in_range(self) -> bool {
        100 <= self.code < 1000
    }

    /// The number of this status code.
    pub closed spec fn value(self) -> u16 {
        self.code
    }

    /// Whether the number lies in the class of successful responses.
    pub open spec fn success(self) -> bool {
        200 <= self.value() < 300
    }

    /// Makes a status code of a number, which has to lie between 100 and 999.
    pub fn from_u16(code: u16) -> (r: Option<StatusCode>)
        ensures
            r is Some <==> 100 <= code < 1000,
            r matches Some(s) ==> s.value() == code,
    {
        if code < 100 || code >= 1000 {
            None
        } else {
            Some(StatusCode { code })
        }
    }

    /// The number of this status code.
    pub fn as_u16(&self) -> (r: u16)
        ensures
            r == self.value(),
            100 <= r < 1000,
    {
        proof {
            use_type_invariant(self);
        }
        self.code
    }

    /// The phrase that commonly goes with this status, such as "Not Found",
    /// where the http crate knows one.
    pub fn canonical_reason(&self) -> (r: Option<&'static str>)
        ensures
            match r {
                Some(phrase) => canonical_reason_of(self.value()) == Some(phrase@),
                None => canonical_reason_of(self.value()) is None,
            },
    {
        proof {
            use_type_invariant(self);
        }
        http_canonical_reason(self.code)
    }

    /// The number of this status code as text: three digits.
    pub fn as_str(&self) -> (r: String)
        ensures
            r@ == decimal(self.value() as nat),
    {
        proof {
            use_type_invariant(self);
        }
        http_status_digits(self.code)
    }

    /// Whether this is a status of the 2xx class.
    pub fn is_success(&self) -> (r: bool)
        ensures
            r == self.success(),
    {
        proof {
            use_type_invariant(self);
        }
        http_is_success(self.code)
    }
}

/// Calls `http::StatusCode::is_success` on the status with the given number.
/// The http crate answers `true` exactly for the numbers from 200 to 299.
#[verifier::external_body]
fn http_is_success(code: u16) -> (r: bool)
    requires
        100 <= code < 1000,
    ensures
        r == (200 <= code < 300),
{
    match http::StatusCode::from_u16(code) {
        Ok(status) => status.is_success(),
        Err(_) => false,
    }
}

/// The phrase that the http crate gives for the status with this number,
/// where it has one.
pub uninterp spec fn canonical_reason_of(code: u16) -> Option<Seq<char>>;

/// Calls `http::StatusCode::canonical_reason` on the status with the given
/// number: the phrase from the table of the http crate, or `None` for a
/// number that the table does not hold.
#[verifier::external_body]
fn http_canonical_reason(code: u16) -> (r: Option<&'static str>)
    requires
        100 <= code < 1000,
    ensures
        match r {
            Some(phrase) => canonical_reason_of(code) == Some(phrase@),
            None => canonical_reason_of(code) is None,
        },
{
    match http::StatusCode::from_u16(code) {
        Ok(status) => status.canonical_reason(),
        Err(_) => None,
    }
}

/// Calls `http::StatusCode::as_str` on the status with the given number.
/// The http crate answers with the three decimal digits of the number.
#[verifier::external_body]
fn http_status_digits(code: u16) -> (r: String)
    requires
        100 <= code < 1000,
    ensures
        r@ == decimal(code as nat),
{
    match http::StatusCode::from_u16(code) {
        Ok(status) => status.as_str().to_string(),
        Err(_) => String::new(),
    }
}

} // verus!
