//! The life of one request, as a machine that is told what happened and
//! answers what to do next. Backend calls are counted, and their number
//! is bounded by the retry budget.

use crate::error::GatewayError;
use vstd::prelude::*;

verus! {

/// What a request in the state `Retried` is waiting for.
#[derive(Clone, Copy, Debug, PartialEq, Eq, Structural)]
pub enum RetryStep {
    /// The token of the account in use is being renewed.
    Refreshing,
    /// Another account is being picked.
    Reselecting,
    /// The call is about to be sent again.
    Resending,
}

/// Where a request stands.
#[derive(Clone, Copy, Debug, PartialEq, Eq, Structural)]
pub enum Phase {
    Received,
    Authenticated,
    Parsed,
    AccountSelected,
    Forwarded,
    Retried(RetryStep),
    StreamingResponse,
    BufferedResponse,
    Completed,
    Failed(GatewayError),
}

/// Everything the machine remembers about a request.
#[derive(Clone, Copy, Debug, PartialEq, Eq, Structural)]
pub struct RequestState {
    pub phase: Phase,
    /// Backend calls sent so far.
    pub attempts: u64,
    /// The client asked for a streamed response.
    pub streaming: bool,
    /// The token of the account in use was renewed during this request.
    pub token_refreshed: bool,
    /// A renewal of that token has already failed once.
    pub refresh_failed_once: bool,
}

/// What happened.
#[derive(Clone, Copy, Debug, PartialEq, Eq, Structural)]
pub enum Event {
    KeyAccepted,
    KeyRejected,
    BodyParsed { streaming: bool },
    BodyMalformed,
    AccountChosen,
    NoAccount,
    Sent,
    BackendAccepted,
    BackendAuthFailed,
    BackendQuotaRejected,
    BackendUnreachable,
    TokenRefreshed,
    TokenRefreshFailed,
    ResponseFinished,
    DeadlineExpired,
}

/// What to do next.
#[derive(Clone, Copy, Debug, PartialEq, Eq, Structural)]
pub enum Action {
    /// Nothing: the event does not concern the request as it stands.
    Ignore,
    ParseBody,
    SelectAccount,
    /// Send the call to the backend with the account in use.
    Forward,
    /// Wait for the backend's answer.
    AwaitBackend,
    /// Renew the token of the account in use.
    RefreshToken,
    /// Pick another account.
    SelectAnother,
    /// Mark the account in use as exhausted for the model, then pick
    /// another account.
    ExhaustAndSelectAnother,
    /// Mark the account in use as exhausted for the model, then report the
    /// failure.
    ExhaustAndFail(GatewayError),
    /// Pass the backend's response on, chunk by chunk or as a whole.
    Relay,
    /// Cancel what is under way and report the failure.
    Fail(GatewayError),
    /// The response is out: record the request.
    Finish,
}

/// The bound on backend calls per request.
#[derive(Clone, Copy, Debug, PartialEq, Eq, Structural)]
pub struct RetryBudget {
    /// How many times a request may be sent again after its first call.
    pub retries: u32,
}

impl RetryBudget {
    /// The most backend calls one request makes.
    pub open spec fn max_attempts(self) -> int {
        self.retries + 1
    }
}

impl RequestState {
    /// No event moves the request any further.
    pub open spec fn is_terminal(self) -> bool {
        self.phase is Completed || self.phase is Failed
    }

    /// The request as it arrives.
    pub open spec fn initial() -> RequestState {
        RequestState {
            phase: Phase::Received,
            attempts: 0,
            streaming: false,
            token_refreshed: false,
            refresh_failed_once: false,
        }
    }

    /// The request in another phase.
    pub open spec fn moved_to(self, phase: Phase) -> RequestState {
        RequestState { phase, ..self }
    }

    /// The request after it failed with `error`.
    pub open spec fn failed(self, error: GatewayError) -> RequestState {
        self.moved_to(Phase::Failed(error))
    }

    /// A fresh request.
    pub fn new() -> (state: RequestState)
        ensures
            state == RequestState::initial(),
    {
        RequestState {
            phase: Phase::Received,
            attempts: 0,
            streaming: false,
            token_refreshed: false,
            refresh_failed_once: false,
        }
    }

    pub fn terminal(&self) -> (done: bool)
        ensures
            done == self.is_terminal(),
    {
        match self.phase {
            Phase::Completed => true,
            Phase::Failed(_) => true,
            _ => false,
        }
    }
}

/// The request after a backend call was sent: the call is counted. A call
/// beyond the budget is not sent; the request fails instead.
pub open spec fn after_sending(budget: RetryBudget, state: RequestState) -> (RequestState, Action) {
    if state.attempts <= budget.retries {
        (
            RequestState { phase: Phase::Forwarded, attempts: (state.attempts + 1) as u64, ..state },
            Action::AwaitBackend,
        )
    } else {
        (
            state.failed(GatewayError::UpstreamExhausted),
            Action::Fail(GatewayError::UpstreamExhausted),
        )
    }
}

/// The request after the backend turned a call down or could not be
/// reached. While the budget lasts the call is repeated: after a renewal
/// of the token when authentication failed for the first time on this
/// account, with another account when the account was rejected, as it is
/// when the backend was unreachable. Once the budget is spent the request
/// fails.
pub open spec fn after_rejection(budget: RetryBudget, state: RequestState, event: Event) -> (
    RequestState,
    Action,
) {
    let spent = state.attempts > budget.retries;
    match event {
        Event::BackendQuotaRejected => if spent {
            (
                state.failed(GatewayError::UpstreamExhausted),
                Action::ExhaustAndFail(GatewayError::UpstreamExhausted),
            )
        } else {
            (
                RequestState {
                    phase: Phase::Retried(RetryStep::Reselecting),
                    token_refreshed: false,
                    refresh_failed_once: false,
                    ..state
                },
                Action::ExhaustAndSelectAnother,
            )
        },
        Event::BackendAuthFailed => if spent {
            (
                state.failed(GatewayError::UpstreamExhausted),
                Action::Fail(GatewayError::UpstreamExhausted),
            )
        } else if !state.token_refreshed {
            (
                RequestState {
                    phase: Phase::Retried(RetryStep::Refreshing),
                    token_refreshed: true,
                    refresh_failed_once: false,
                    ..state
                },
                Action::RefreshToken,
            )
        } else {
            (
                RequestState {
                    phase: Phase::Retried(RetryStep::Reselecting),
                    token_refreshed: false,
                    refresh_failed_once: false,
                    ..state
                },
                Action::SelectAnother,
            )
        },
        _ => if spent {
            (state.failed(GatewayError::NetworkError), Action::Fail(GatewayError::NetworkError))
        } else {
            (state.moved_to(Phase::Retried(RetryStep::Resending)), Action::Forward)
        },
    }
}

/// The state that follows `state` on `event`, and what to do then.
pub open spec fn advance(budget: RetryBudget, state: RequestState, event: Event) -> (
    RequestState,
    Action,
) {
    if state.is_terminal() {
        (state, Action::Ignore)
    } else if event is DeadlineExpired {
        (state.failed(GatewayError::Timeout), Action::Fail(GatewayError::Timeout))
    } else {
        match (state.phase, event) {
            (Phase::Received, Event::KeyAccepted) => (
                state.moved_to(Phase::Authenticated),
                Action::ParseBody,
            ),
            (Phase::Received, Event::KeyRejected) => (
                state.failed(GatewayError::Unauthorized),
                Action::Fail(GatewayError::Unauthorized),
            ),
            (Phase::Authenticated, Event::BodyParsed { streaming }) => (
                RequestState { phase: Phase::Parsed, streaming, ..state },
                Action::SelectAccount,
            ),
            (Phase::Authenticated, Event::BodyMalformed) => (
                state.failed(GatewayError::BadRequest),
                Action::Fail(GatewayError::BadRequest),
            ),
            (Phase::Parsed, Event::AccountChosen) => (
                state.moved_to(Phase::AccountSelected),
                Action::Forward,
            ),
            (Phase::Parsed, Event::NoAccount) => (
                state.failed(GatewayError::NoEligibleAccount),
                Action::Fail(GatewayError::NoEligibleAccount),
            ),
            (Phase::AccountSelected, Event::Sent) => after_sending(budget, state),
            (Phase::Forwarded, Event::BackendAccepted) => (
                state.moved_to(
                    if state.streaming {
                        Phase::StreamingResponse
                    } else {
                        Phase::BufferedResponse
                    },
                ),
                Action::Relay,
            ),
            (Phase::Forwarded, Event::BackendQuotaRejected) => after_rejection(budget, state, event),
            (Phase::Forwarded, Event::BackendAuthFailed) => after_rejection(budget, state, event),
            (Phase::Forwarded, Event::BackendUnreachable) => after_rejection(budget, state, event),
            (Phase::Retried(RetryStep::Refreshing), Event::TokenRefreshed) => (
                state.moved_to(Phase::Retried(RetryStep::Resending)),
                Action::Forward,
            ),
            (Phase::Retried(RetryStep::Refreshing), Event::TokenRefreshFailed) => if
                !state.refresh_failed_once {
                (RequestState { refresh_failed_once: true, ..state }, Action::RefreshToken)
            } else {
                (
                    state.failed(GatewayError::TokenRefreshFailed),
                    Action::Fail(GatewayError::TokenRefreshFailed),
                )
            },
            (Phase::Retried(RetryStep::Reselecting), Event::AccountChosen) => (
                state.moved_to(Phase::Retried(RetryStep::Resending)),
                Action::Forward,
            ),
            (Phase::Retried(RetryStep::Reselecting), Event::NoAccount) => (
                state.failed(GatewayError::NoEligibleAccount),
                Action::Fail(GatewayError::NoEligibleAccount),
            ),
            (Phase::Retried(RetryStep::Resending), Event::Sent) => after_sending(budget, state),
            (Phase::StreamingResponse, Event::ResponseFinished) => (
                state.moved_to(Phase::Completed),
                Action::Finish,
            ),
            (Phase::BufferedResponse, Event::ResponseFinished) => (
                state.moved_to(Phase::Completed),
                Action::Finish,
            ),
            (Phase::StreamingResponse, Event::BackendUnreachable) => (
                state.failed(GatewayError::NetworkError),
                Action::Fail(GatewayError::NetworkError),
            ),
            (Phase::BufferedResponse, Event::BackendUnreachable) => (
                state.failed(GatewayError::NetworkError),
                Action::Fail(GatewayError::NetworkError),
            ),
            _ => (state, Action::Ignore),
        }
    }
}

/// The state a request reaches from `state` when `events` happen in order.
pub open spec fn run(budget: RetryBudget, state: RequestState, events: Seq<Event>) -> RequestState
    decreases events.len(),
{
    if events.len() == 0 {
        state
    } else {
        advance(budget, run(budget, state, events.drop_last()), events.last()).0
    }
}

/// What holds of every state a request can be in: the calls sent are
/// within the budget; before the first call none is counted; while a call
/// is repeated the budget is not yet spent; and a request that failed
/// because the backend kept rejecting it has made every call it may.
pub open spec fn within_budget(budget: RetryBudget, state: RequestState) -> bool {
    &&& state.attempts <= budget.max_attempts()
    &&& match state.phase {
        Phase::Received | Phase::Authenticated | Phase::Parsed | Phase::AccountSelected => state.attempts
            == 0,
        Phase::Forwarded | Phase::StreamingResponse | Phase::BufferedResponse | Phase::Completed => state.attempts
            >= 1,
        Phase::Retried(_) => 1 <= state.attempts <= budget.retries,
        Phase::Failed(error) => error == GatewayError::UpstreamExhausted ==> state.attempts
            == budget.max_attempts(),
    }
}

/// How far a request is from its end, at most: every event that changes
/// the state brings this number down.
pub open spec fn distance(budget: RetryBudget, state: RequestState) -> int {
    let rounds = budget.max_attempts() - state.attempts;
    match state.phase {
        Phase::Completed | Phase::Failed(_) => 0,
        Phase::StreamingResponse | Phase::BufferedResponse => 1,
        Phase::Received => 8 * rounds + 7,
        Phase::Authenticated => 8 * rounds + 6,
        Phase::Parsed => 8 * rounds + 5,
        Phase::AccountSelected => 8 * rounds + 4,
        Phase::Forwarded => 8 * rounds + 7,
        Phase::Retried(RetryStep::Refreshing) => if state.refresh_failed_once {
            8 * rounds + 5
        } else {
            8 * rounds + 6
        },
        Phase::Retried(RetryStep::Reselecting) => 8 * rounds + 5,
        Phase::Retried(RetryStep::Resending) => 8 * rounds + 4,
    }
}

/// One event keeps a request within its budget.
pub proof fn lemma_advance_keeps_budget(budget: RetryBudget, state: RequestState, event: Event)
    requires
        within_budget(budget, state),
    ensures
        within_budget(budget, advance(budget, state, event).0),
{
}

/// Whatever happens, in whatever order, a request never makes more backend
/// calls than its budget allows, and one that ends as rejected by the
/// backend has made exactly that many.
pub proof fn lemma_run_keeps_budget(budget: RetryBudget, events: Seq<Event>)
    ensures
        within_budget(budget, run(budget, RequestState::initial(), events)),
        run(budget, RequestState::initial(), events).attempts <= budget.max_attempts(),
        run(budget, RequestState::initial(), events).phase == Phase::Failed(
            GatewayError::UpstreamExhausted,
        ) ==> run(budget, RequestState::initial(), events).attempts == budget.max_attempts(),
    decreases events.len(),
{
    if events.len() > 0 {
        lemma_run_keeps_budget(budget, events.drop_last());
        lemma_advance_keeps_budget(
            budget,
            run(budget, RequestState::initial(), events.drop_last()),
            events.last(),
        );
    }
}

/// A call that the backend rejects for quota or authentication is
/// repeated while the budget lasts, and ends the request as rejected as
/// soon as the budget is spent: the last call is the one that reaches the
/// bound.
pub proof fn lemma_rejection_ends_at_the_bound(
    budget: RetryBudget,
    state: RequestState,
    event: Event,
)
    requires
        within_budget(budget, state),
        state.phase is Forwarded,
        event is BackendQuotaRejected || event is BackendAuthFailed,
    ensures
        state.attempts == budget.max_attempts() ==> advance(budget, state, event).0.phase
            == Phase::Failed(GatewayError::UpstreamExhausted),
        state.attempts < budget.max_attempts() ==> advance(budget, state, event).0.phase is Retried,
        advance(budget, state, event).0.attempts == state.attempts,
{
}

/// A finished request stays as it is.
pub proof fn lemma_terminal_is_final(budget: RetryBudget, state: RequestState, event: Event)
    requires
        state.is_terminal(),
    ensures
        advance(budget, state, event) == (state, Action::Ignore),
{
}

/// No request goes round in circles: every event that changes the state
/// brings the request closer to its end, and the distance it starts from
/// is fixed by the budget.
pub proof fn lemma_advance_makes_progress(budget: RetryBudget, state: RequestState, event: Event)
    requires
        within_budget(budget, state),
    ensures
        0 <= distance(budget, state) <= 8 * budget.max_attempts() + 7,
        advance(budget, state, event).0 != state ==> distance(
            budget,
            advance(budget, state, event).0,
        ) < distance(budget, state),
{
}

/// Tells the machine what happened; it moves the request on and answers
/// what to do next.
pub fn step(budget: &RetryBudget, state: &mut RequestState, event: Event) -> (action: Action)
    ensures
        (*final(state), action) == advance(*budget, *old(state), event),
{
    if state.terminal() {
        return Action::Ignore;
    }
    if let Event::DeadlineExpired = event {
        state.phase = Phase::Failed(GatewayError::Timeout);
        return Action::Fail(GatewayError::Timeout);
    }
    let spent = state.attempts > budget.retries as u64;
    let (phase, action) = match (state.phase, event) {
        (Phase::Received, Event::KeyAccepted) => (Phase::Authenticated, Action::ParseBody),
        (Phase::Received, Event::KeyRejected) => fail_with(GatewayError::Unauthorized),
        (Phase::Authenticated, Event::BodyParsed { streaming }) => {
            state.streaming = streaming;
            (Phase::Parsed, Action::SelectAccount)
        },
        (Phase::Authenticated, Event::BodyMalformed) => fail_with(GatewayError::BadRequest),
        (Phase::Parsed, Event::AccountChosen) => (Phase::AccountSelected, Action::Forward),
        (Phase::Parsed, Event::NoAccount) => fail_with(GatewayError::NoEligibleAccount),
        (Phase::AccountSelected, Event::Sent) | (Phase::Retried(RetryStep::Resending), Event::Sent) => {
            if spent {
                fail_with(GatewayError::UpstreamExhausted)
            } else {
                state.attempts = state.attempts + 1;
                (Phase::Forwarded, Action::AwaitBackend)
            }
        },
        (Phase::Forwarded, Event::BackendAccepted) => (
            if state.streaming {
                Phase::StreamingResponse
            } else {
                Phase::BufferedResponse
            },
            Action::Relay,
        ),
        (Phase::Forwarded, Event::BackendQuotaRejected) => {
            if spent {
                (
                    Phase::Failed(GatewayError::UpstreamExhausted),
                    Action::ExhaustAndFail(GatewayError::UpstreamExhausted),
                )
            } else {
                state.token_refreshed = false;
                state.refresh_failed_once = false;
                (Phase::Retried(RetryStep::Reselecting), Action::ExhaustAndSelectAnother)
            }
        },
        (Phase::Forwarded, Event::BackendAuthFailed) => {
            if spent {
                fail_with(GatewayError::UpstreamExhausted)
            } else if !state.token_refreshed {
                state.token_refreshed = true;
                state.refresh_failed_once = false;
                (Phase::Retried(RetryStep::Refreshing), Action::RefreshToken)
            } else {
                state.token_refreshed = false;
                state.refresh_failed_once = false;
                (Phase::Retried(RetryStep::Reselecting), Action::SelectAnother)
            }
        },
        (Phase::Forwarded, Event::BackendUnreachable) => {
            if spent {
                fail_with(GatewayError::NetworkError)
            } else {
                (Phase::Retried(RetryStep::Resending), Action::Forward)
            }
        },
        (Phase::Retried(RetryStep::Refreshing), Event::TokenRefreshed) => (
            Phase::Retried(RetryStep::Resending),
            Action::Forward,
        ),
        (Phase::Retried(RetryStep::Refreshing), Event::TokenRefreshFailed) => {
            if !state.refresh_failed_once {
                state.refresh_failed_once = true;
                (Phase::Retried(RetryStep::Refreshing), Action::RefreshToken)
            } else {
                fail_with(GatewayError::TokenRefreshFailed)
            }
        },
        (Phase::Retried(RetryStep::Reselecting), Event::AccountChosen) => (
            Phase::Retried(RetryStep::Resending),
            Action::Forward,
        ),
        (Phase::Retried(RetryStep::Reselecting), Event::NoAccount) => fail_with(
            GatewayError::NoEligibleAccount,
        ),
        (Phase::StreamingResponse, Event::ResponseFinished) | (
            Phase::BufferedResponse,
            Event::ResponseFinished,
        ) => (Phase::Completed, Action::Finish),
        (Phase::StreamingResponse, Event::BackendUnreachable) | (
            Phase::BufferedResponse,
            Event::BackendUnreachable,
        ) => fail_with(GatewayError::NetworkError),
        (phase, _) => (phase, Action::Ignore),
    };
    state.phase = phase;
    action
}

/// The failed phase and the action that reports it.
fn fail_with(error: GatewayError) -> (outcome: (Phase, Action))
    ensures
        outcome == (Phase::Failed(error), Action::Fail(error)),
{
    (Phase::Failed(error), Action::Fail(error))
}

} // verus!
