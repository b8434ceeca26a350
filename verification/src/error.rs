//! The ways a request, or the gateway itself, can fail.

use vstd::prelude::*;

verus! {

/// Every failure the gateway reports.
#[derive(Clone, Copy, Debug, PartialEq, Eq, Structural)]
pub enum GatewayError {
    /// The client's payload could not be parsed.
    BadRequest,
    /// The client's API key is missing or wrong.
    Unauthorized,
    /// No account in the pool may serve the request.
    NoEligibleAccount,
    /// There is no account at all.
    PoolEmpty,
    /// The identity provider refused to renew a token.
    TokenRefreshFailed,
    /// The quota of an account could not be fetched.
    QuotaFetchFailed,
    /// Every account that was tried was rejected by the backend.
    UpstreamExhausted,
    /// The backend, or the proxy in front of it, could not be reached.
    NetworkError,
    /// The request ran longer than it is allowed to.
    Timeout,
}

/// How a failure is retried before it is reported.
#[derive(Clone, Copy, Debug, PartialEq, Eq, Structural)]
pub enum RetryRule {
    /// Reported at once.
    Never,
    /// Tried once more on the spot, then reported.
    OnceInline,
    /// Tried again after growing pauses, up to a fixed number of attempts.
    WithBackoff,
    /// Tried again as long as the request's retry budget lasts.
    WithinBudget,
}

pub open spec fn retry_rule_of(error: GatewayError) -> RetryRule {
    match error {
        GatewayError::TokenRefreshFailed => RetryRule::OnceInline,
        GatewayError::QuotaFetchFailed => RetryRule::WithBackoff,
        GatewayError::NetworkError => RetryRule::WithinBudget,
        _ => RetryRule::Never,
    }
}

impl GatewayError {
    /// How this failure is retried before it is reported.
    pub fn retry_rule(&self) -> (rule: RetryRule)
        ensures
            rule == retry_rule_of(*self),
    {
        match self {
            GatewayError::TokenRefreshFailed => RetryRule::OnceInline,
            GatewayError::QuotaFetchFailed => RetryRule::WithBackoff,
            GatewayError::NetworkError => RetryRule::WithinBudget,
            _ => RetryRule::Never,
        }
    }

    /// Whether the failure keeps the server from starting at all.
    pub fn prevents_start(&self) -> (fatal: bool)
        ensures
            fatal == (*self == GatewayError::PoolEmpty),
    {
        matches!(self, GatewayError::PoolEmpty)
    }
}

} // verus!
