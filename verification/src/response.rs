//! What a response means: the payload it carries, or the error it stands
//! for.
//!
//! The caller sends the request, reads the status, and decodes the body:
//! as the payload where the status is one of success, as a message of the
//! service where it is not. What follows from status and body is decided
//! here.

use crate::error::{Error, JsonError, TransportError};
use crate::status::StatusCode;
use vstd::prelude::*;

verus! {

/// The envelope of a single resource.
#[derive(Debug, PartialEq, Eq)]
pub struct Data<T> {
    /// The resource.
    pub data: T,
}

/// What the service says in the body of an unsuccessful response.
#[derive(Debug, PartialEq, Eq)]
pub struct ApiError {
    /// Why the request was turned down, in words.
    pub message: String,
}

/// What became of the body of a response.
#[derive(Debug, PartialEq, Eq)]
pub enum Body<T> {
    /// The body did not arrive in full.
    Unreadable(TransportError),
    /// The body arrived, and is not of the shape that was asked for.
    Malformed(JsonError),
    /// The body arrived and was decoded.
    Decoded(T),
}

/// As what the body of a response is to be decoded.
#[derive(Clone, Copy, Debug, PartialEq, Eq, Structural)]
pub enum Expect {
    /// As the payload that was asked for.
    Payload,
    /// As a message of the service.
    ApiError,
}

/// As what the body of a response with this status is to be decoded: as
/// the payload where the status is one of success, as a message of the
/// service where it is not.
pub fn expected_body(status: StatusCode) -> (r: Expect)
    ensures
        r == (if status.success() {
            Expect::Payload
        } else {
            Expect::ApiError
        }),
{
    if status.is_success() {
        Expect::Payload
    } else {
        Expect::ApiError
    }
}

/// The error that an unsuccessful response stands for: the message of the
/// service with the status where the body held one, the bare status where
/// the body was lost or held none.
pub open spec fn failure(status: StatusCode, body: Body<ApiError>) -> Error {
    match body {
        Body::Decoded(said) => Error::Api { status, message: said.message },
        _ => Error::Status { status },
    }
}

/// What a successful response yields: the decoded payload, or the reason
/// why there is none.
pub open spec fn success<T>(body: Body<T>) -> Result<T, Error> {
    match body {
        Body::Decoded(payload) => Ok(payload),
        Body::Unreadable(source) => Err(Error::Response { source }),
        Body::Malformed(source) => Err(Error::Json { source }),
    }
}

/// Classifies a response whose status is not one of success.
pub fn decode_failure(status: StatusCode, body: Body<ApiError>) -> (error: Error)
    ensures
        error == failure(status, body),
{
    match body {
        Body::Decoded(said) => Error::Api { status, message: said.message },
        _ => Error::Status { status },
    }
}

/// Takes the payload out of a response whose status is one of success.
pub fn decode_success<T>(body: Body<T>) -> (r: Result<T, Error>)
    ensures
        r == success(body),
{
    match body {
        Body::Decoded(payload) => Ok(payload),
        Body::Unreadable(source) => Err(Error::Response { source }),
        Body::Malformed(source) => Err(Error::Json { source }),
    }
}

/// Takes the resource out of a successful response to a request for a
/// single resource.
pub fn decode_single<T>(body: Body<Data<T>>) -> (r: Result<T, Error>)
    ensures
        r == (match success(body) {
            Ok(envelope) => Ok(envelope.data),
            Err(error) => Err(error),
        }),
{
    match decode_success(body) {
        Ok(envelope) => Ok(envelope.data),
        Err(error) => Err(error),
    }
}

} // verus!
