//! How a failure is reported to a client: the status of the response and
//! a body in the shape the client's protocol uses for errors.

use crate::error::GatewayError;
use crate::monitor::Protocol;
use crate::text::{decimal_digits, decimal_text};
use vstd::prelude::*;
use vstd::string::StringExecFns;

verus! {

/// The HTTP status a failure is reported with.
pub open spec fn status_of(error: GatewayError) -> u16 {
    match error {
        GatewayError::BadRequest => 400,
        GatewayError::Unauthorized => 401,
        GatewayError::UpstreamExhausted => 429,
        GatewayError::NoEligibleAccount | GatewayError::PoolEmpty => 503,
        GatewayError::Timeout => 504,
        GatewayError::TokenRefreshFailed | GatewayError::QuotaFetchFailed | GatewayError::NetworkError => 502,
    }
}

/// What a failure says in plain words.
pub open spec fn message_of(error: GatewayError) -> Seq<char> {
    match error {
        GatewayError::BadRequest => "malformed request body"@,
        GatewayError::Unauthorized => "invalid API key"@,
        GatewayError::NoEligibleAccount => "no eligible account"@,
        GatewayError::PoolEmpty => "account pool is empty"@,
        GatewayError::TokenRefreshFailed => "token refresh failed"@,
        GatewayError::QuotaFetchFailed => "quota fetch failed"@,
        GatewayError::UpstreamExhausted => "all attempted accounts were rejected"@,
        GatewayError::NetworkError => "backend unreachable"@,
        GatewayError::Timeout => "request timed out"@,
    }
}

/// The kind of a failure, as the OpenAI-style and the Anthropic-style
/// protocols name it.
pub open spec fn kind_of(error: GatewayError) -> Seq<char> {
    match error {
        GatewayError::BadRequest => "invalid_request_error"@,
        GatewayError::Unauthorized => "authentication_error"@,
        GatewayError::UpstreamExhausted => "rate_limit_error"@,
        GatewayError::NoEligibleAccount | GatewayError::PoolEmpty => "overloaded_error"@,
        GatewayError::Timeout => "timeout_error"@,
        GatewayError::TokenRefreshFailed | GatewayError::QuotaFetchFailed | GatewayError::NetworkError => "api_error"@,
    }
}

/// The kind of a failure, as the Gemini-style protocol names it.
pub open spec fn grade_of(error: GatewayError) -> Seq<char> {
    match error {
        GatewayError::BadRequest => "INVALID_ARGUMENT"@,
        GatewayError::Unauthorized => "UNAUTHENTICATED"@,
        GatewayError::UpstreamExhausted => "RESOURCE_EXHAUSTED"@,
        GatewayError::Timeout => "DEADLINE_EXCEEDED"@,
        _ => "UNAVAILABLE"@,
    }
}

/// The body that reports `error` to a client of `protocol`.
pub open spec fn envelope_of(protocol: Protocol, error: GatewayError) -> Seq<char> {
    match protocol {
        Protocol::Anthropic => "{\"type\":\"error\",\"error\":{\"type\":\""@ + kind_of(error)
            + "\",\"message\":\""@ + message_of(error) + "\"}}"@,
        Protocol::Gemini => "{\"error\":{\"code\":"@ + decimal_digits(status_of(error) as nat)
            + ",\"message\":\""@ + message_of(error) + "\",\"status\":\""@ + grade_of(error)
            + "\"}}"@,
        _ => "{\"error\":{\"message\":\""@ + message_of(error) + "\",\"type\":\""@ + kind_of(error)
            + "\"}}"@,
    }
}

/// The HTTP status a failure is reported with.
pub fn status_code(error: GatewayError) -> (status: u16)
    ensures
        status == status_of(error),
        400 <= status < 600,
{
    match error {
        GatewayError::BadRequest => 400,
        GatewayError::Unauthorized => 401,
        GatewayError::UpstreamExhausted => 429,
        GatewayError::NoEligibleAccount => 503,
        GatewayError::PoolEmpty => 503,
        GatewayError::Timeout => 504,
        GatewayError::TokenRefreshFailed => 502,
        GatewayError::QuotaFetchFailed => 502,
        GatewayError::NetworkError => 502,
    }
}

/// What a failure says in plain words.
pub fn message(error: GatewayError) -> (text: &'static str)
    ensures
        text@ == message_of(error),
{
    match error {
        GatewayError::BadRequest => "malformed request body",
        GatewayError::Unauthorized => "invalid API key",
        GatewayError::NoEligibleAccount => "no eligible account",
        GatewayError::PoolEmpty => "account pool is empty",
        GatewayError::TokenRefreshFailed => "token refresh failed",
        GatewayError::QuotaFetchFailed => "quota fetch failed",
        GatewayError::UpstreamExhausted => "all attempted accounts were rejected",
        GatewayError::NetworkError => "backend unreachable",
        GatewayError::Timeout => "request timed out",
    }
}

fn kind(error: GatewayError) -> (text: &'static str)
    ensures
        text@ == kind_of(error),
{
    match error {
        GatewayError::BadRequest => "invalid_request_error",
        GatewayError::Unauthorized => "authentication_error",
        GatewayError::UpstreamExhausted => "rate_limit_error",
        GatewayError::NoEligibleAccount => "overloaded_error",
        GatewayError::PoolEmpty => "overloaded_error",
        GatewayError::Timeout => "timeout_error",
        GatewayError::TokenRefreshFailed => "api_error",
        GatewayError::QuotaFetchFailed => "api_error",
        GatewayError::NetworkError => "api_error",
    }
}

fn grade(error: GatewayError) -> (text: &'static str)
    ensures
        text@ == grade_of(error),
{
    match error {
        GatewayError::BadRequest => "INVALID_ARGUMENT",
        GatewayError::Unauthorized => "UNAUTHENTICATED",
        GatewayError::UpstreamExhausted => "RESOURCE_EXHAUSTED",
        GatewayError::Timeout => "DEADLINE_EXCEEDED",
        _ => "UNAVAILABLE",
    }
}

/// The body that reports `error` to a client of `protocol`, in the shape
/// that protocol uses for errors.
pub fn error_envelope(protocol: Protocol, error: GatewayError) -> (body: String)
    ensures
        body@ == envelope_of(protocol, error),
{
    match protocol {
        Protocol::Anthropic => String::from_str("{\"type\":\"error\",\"error\":{\"type\":\"").concat(
            kind(error),
        ).concat("\",\"message\":\"").concat(message(error)).concat("\"}}"),
        Protocol::Gemini => {
            let code = decimal_text(status_code(error) as usize);
            String::from_str("{\"error\":{\"code\":").concat(code.as_str()).concat(
                ",\"message\":\"",
            ).concat(message(error)).concat("\",\"status\":\"").concat(grade(error)).concat("\"}}")
        },
        _ => String::from_str("{\"error\":{\"message\":\"").concat(message(error)).concat(
            "\",\"type\":\"",
        ).concat(kind(error)).concat("\"}}"),
    }
}

} // verus!
