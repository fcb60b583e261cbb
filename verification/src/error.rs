//! The error taxonomy.
//!
//! Every fallible operation of the crate returns exactly one of these kinds:
//! an error the API reported about a request, a failure to decode a response,
//! a transport failure reported by the caller's HTTP layer, or a webhook
//! signature failure. No operation signals failure through a sentinel baked
//! into a success value.

use crate::strutil::str_eq;
use vstd::prelude::*;

verus! {

/// The machine-readable class of an API-reported error.
///
/// The server may introduce classes this crate does not know; those are kept
/// verbatim in `Unrecognized`.
pub enum ErrorType {
    Api,
    Connection,
    Authentication,
    Card,
    Idempotency,
    InvalidRequest,
    RateLimit,
    Validation,
    Unrecognized(String),
}

impl ErrorType {
    /// The wire form of this error class.
    pub open spec fn code_view(&self) -> Seq<char> {
        match self {
            ErrorType::Api => "api_error"@,
            ErrorType::Connection => "api_connection_error"@,
            ErrorType::Authentication => "authentication_error"@,
            ErrorType::Card => "card_error"@,
            ErrorType::Idempotency => "idempotency_error"@,
            ErrorType::InvalidRequest => "invalid_request_error"@,
            ErrorType::RateLimit => "rate_limit_error"@,
            ErrorType::Validation => "validation_error"@,
            ErrorType::Unrecognized(raw) => raw@,
        }
    }

    /// Reads an error class from its wire form; an unknown class is kept
    /// verbatim.
    pub fn from_code(s: &str) -> (r: ErrorType)
        ensures
            r.code_view() == s@,
    {
        if str_eq(s, "api_error") {
            ErrorType::Api
        } else if str_eq(s, "api_connection_error") {
            ErrorType::Connection
        } else if str_eq(s, "authentication_error") {
            ErrorType::Authentication
        } else if str_eq(s, "card_error") {
            ErrorType::Card
        } else if str_eq(s, "idempotency_error") {
            ErrorType::Idempotency
        } else if str_eq(s, "invalid_request_error") {
            ErrorType::InvalidRequest
        } else if str_eq(s, "rate_limit_error") {
            ErrorType::RateLimit
        } else if str_eq(s, "validation_error") {
            ErrorType::Validation
        } else {
            ErrorType::Unrecognized(s.to_owned())
        }
    }
}

/// A machine-readable error code accompanying some API errors.
///
/// Open for the same reason as `ErrorType`: codes unseen by this crate are
/// carried through in `Unrecognized`.
pub enum ErrorCode {
    ExpiredCard,
    IncorrectNumber,
    InvalidNumber,
    Missing,
    ResourceMissing,
    Unrecognized(String),
}

impl ErrorCode {
    /// The wire form of this error code.
    pub open spec fn code_view(&self) -> Seq<char> {
        match self {
            ErrorCode::ExpiredCard => "expired_card"@,
            ErrorCode::IncorrectNumber => "incorrect_number"@,
            ErrorCode::InvalidNumber => "invalid_number"@,
            ErrorCode::Missing => "missing"@,
            ErrorCode::ResourceMissing => "resource_missing"@,
            ErrorCode::Unrecognized(raw) => raw@,
        }
    }

    /// Reads an error code from its wire form; an unknown code is kept
    /// verbatim.
    pub fn from_code(s: &str) -> (r: ErrorCode)
        ensures
            r.code_view() == s@,
    {
        if str_eq(s, "expired_card") {
            ErrorCode::ExpiredCard
        } else if str_eq(s, "incorrect_number") {
            ErrorCode::IncorrectNumber
        } else if str_eq(s, "invalid_number") {
            ErrorCode::InvalidNumber
        } else if str_eq(s, "missing") {
            ErrorCode::Missing
        } else if str_eq(s, "resource_missing") {
            ErrorCode::ResourceMissing
        } else {
            ErrorCode::Unrecognized(s.to_owned())
        }
    }
}

/// An error the API reported about a request: the HTTP status it came with,
/// its class, an optional machine-readable code, an optional human message,
/// and optionally the offending parameter.
pub struct RequestError {
    pub http_status: u16,
    pub error_type: ErrorType,
    pub code: Option<ErrorCode>,
    pub message: Option<String>,
    pub param: Option<String>,
}

/// Why a webhook payload was rejected.
pub enum WebhookError {
    /// The signature header could not be read.
    BadHeader,
    /// No supplied signature matched the one recomputed from the secret.
    BadSignature,
    /// The signed timestamp lies outside the tolerance window.
    BadTimestamp,
}

/// Any failure a crate operation can report.
pub enum Error {
    /// The API rejected the request.
    Request(RequestError),
    /// A response body could not be decoded.
    Decode(String),
    /// The caller's transport layer failed; carries its description.
    Transport(String),
    /// A webhook payload failed verification.
    Webhook(WebhookError),
}

} // verus!
