//! What can go wrong with a request.

use crate::status::{canonical_reason_of, StatusCode};
use crate::text::decimal;
use vstd::prelude::*;

verus! {

/// The connection failed before the whole response had arrived.
#[derive(Debug, PartialEq, Eq)]
pub struct TransportError {
    /// What the transport reported.
    pub message: String,
}

/// A response body that is not the JSON document that was asked for.
#[derive(Debug, PartialEq, Eq)]
pub struct JsonError {
    /// What the decoder reported.
    pub message: String,
    /// The line of the body at which decoding stopped, counted from 1.
    pub line: usize,
    /// The column in that line, counted from 1.
    pub column: usize,
}

/// Why a request yielded no value.
#[derive(Debug, PartialEq, Eq)]
#[allow(inconsistent_fields)]
pub enum Error {
    /// Failed receiving the response from speedrun.com.
    Response { source: TransportError },
    /// The service answered with an unsuccessful status and no message.
    Status { status: StatusCode },
    /// The service answered with an unsuccessful status and said why.
    Api { status: StatusCode, message: String },
    /// Failed parsing the response from speedrun.com.
    Json { source: JsonError },
}

/// An unsuccessful status in words: its phrase where it has one, else its
/// number.
pub open spec fn status_text(reason: Option<Seq<char>>, number: Seq<char>) -> Seq<char> {
    "HTTP Status Code: "@ + match reason {
        Some(phrase) => phrase,
        None => number,
    }
}

/// Puts an unsuccessful status in words, given its phrase, if it has one,
/// and its number.
pub fn describe_status(reason: Option<&str>, number: &str) -> (r: String)
    ensures
        r@ == status_text(
            match reason {
                Some(phrase) => Some(phrase@),
                None => None,
            },
            number@,
        ),
{
    let mut text = String::from_str("HTTP Status Code: ");
    match reason {
        Some(phrase) => {
            text.append(phrase);
        },
        None => {
            text.append(number);
        },
    }
    text
}

impl Error {
    /// The error in words.
    pub open spec fn description_text(self) -> Seq<char> {
        match self {
            Error::Response { .. } => "Failed receiving the response from speedrun.com."@,
            Error::Status { status } => status_text(
                canonical_reason_of(status.value()),
                decimal(status.value() as nat),
            ),
            Error::Api { message, .. } => message@,
            Error::Json { .. } => "Failed parsing the response from speedrun.com."@,
        }
    }

    /// The error in words: the message of the service where it sent one,
    /// the phrase or the number of the status where it sent none, and a
    /// fixed sentence for a response that did not arrive or did not parse.
    pub fn description(&self) -> (r: String)
        ensures
            r@ == self.description_text(),
    {
        match self {
            Error::Response { .. } => String::from_str(
                "Failed receiving the response from speedrun.com.",
            ),
            Error::Status { status } => {
                let number = status.as_str();
                describe_status(status.canonical_reason(), number.as_str())
            },
            Error::Api { message, .. } => message.clone(),
            Error::Json { .. } => String::from_str(
                "Failed parsing the response from speedrun.com.",
            ),
        }
    }
}

} // verus!
