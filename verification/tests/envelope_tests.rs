use antigravity_core::envelope::{error_envelope, message, status_code};
use antigravity_core::error::GatewayError;
use antigravity_core::monitor::Protocol;
use antigravity_core::security::{bearer_header, bearer_key};
use antigravity_core::server::{ServerAction, ServerEvent, ServerPhase, ServerState};

const ALL: [GatewayError; 9] = [
    GatewayError::BadRequest,
    GatewayError::Unauthorized,
    GatewayError::NoEligibleAccount,
    GatewayError::PoolEmpty,
    GatewayError::TokenRefreshFailed,
    GatewayError::QuotaFetchFailed,
    GatewayError::UpstreamExhausted,
    GatewayError::NetworkError,
    GatewayError::Timeout,
];

#[test]
fn every_failure_has_its_status() {
    let codes: Vec<u16> = ALL.iter().map(|e| status_code(*e)).collect();
    assert_eq!(codes, vec![400, 401, 503, 503, 502, 502, 429, 502, 504]);
}

#[test]
fn a_malformed_body_is_reported_in_the_shape_of_each_protocol() {
    assert_eq!(
        error_envelope(Protocol::OpenAi, GatewayError::BadRequest),
        r#"{"error":{"message":"malformed request body","type":"invalid_request_error"}}"#
    );
    assert_eq!(
        error_envelope(Protocol::Anthropic, GatewayError::BadRequest),
        r#"{"type":"error","error":{"type":"invalid_request_error","message":"malformed request body"}}"#
    );
    assert_eq!(
        error_envelope(Protocol::Gemini, GatewayError::BadRequest),
        r#"{"error":{"code":400,"message":"malformed request body","status":"INVALID_ARGUMENT"}}"#
    );
    assert_eq!(
        error_envelope(Protocol::Zai, GatewayError::BadRequest),
        error_envelope(Protocol::OpenAi, GatewayError::BadRequest)
    );
}

#[test]
fn an_unauthorized_request_learns_nothing_about_accounts() {
    for protocol in [Protocol::OpenAi, Protocol::Anthropic, Protocol::Gemini, Protocol::Zai] {
        let body = error_envelope(protocol, GatewayError::Unauthorized);
        assert!(body.contains("invalid API key"));
        assert!(!body.contains("account"));
    }
    assert_eq!(
        error_envelope(Protocol::Gemini, GatewayError::Unauthorized),
        r#"{"error":{"code":401,"message":"invalid API key","status":"UNAUTHENTICATED"}}"#
    );
}

#[test]
fn every_envelope_carries_the_message() {
    for error in ALL {
        for protocol in [Protocol::OpenAi, Protocol::Anthropic, Protocol::Gemini, Protocol::Zai] {
            let body = error_envelope(protocol, error);
            assert!(body.contains(message(error)));
            assert!(body.starts_with('{') && body.ends_with("}}"));
        }
        let gemini = error_envelope(Protocol::Gemini, error);
        assert!(gemini.contains(&format!("\"code\":{},", status_code(error))));
    }
    assert_eq!(
        error_envelope(Protocol::Anthropic, GatewayError::UpstreamExhausted),
        r#"{"type":"error","error":{"type":"rate_limit_error","message":"all attempted accounts were rejected"}}"#
    );
    assert_eq!(
        error_envelope(Protocol::Gemini, GatewayError::Timeout),
        r#"{"error":{"code":504,"message":"request timed out","status":"DEADLINE_EXCEEDED"}}"#
    );
    assert_eq!(
        error_envelope(Protocol::Gemini, GatewayError::NetworkError),
        r#"{"error":{"code":502,"message":"backend unreachable","status":"UNAVAILABLE"}}"#
    );
}

#[test]
fn the_backend_header_carries_the_token() {
    assert_eq!(bearer_header("ya29.token"), "Bearer ya29.token");
    assert_eq!(bearer_header(""), "Bearer ");
    assert_eq!(bearer_key(&bearer_header("ya29.token")), Some("ya29.token"));
}

fn drive(events: &[ServerEvent]) -> (ServerState, Vec<ServerAction>) {
    let mut state = ServerState::new();
    let actions = events.iter().map(|e| state.on(*e)).collect();
    (state, actions)
}

#[test]
fn a_server_without_requests_stops_at_once() {
    let (state, actions) = drive(&[ServerEvent::StopRequested, ServerEvent::ListenerEnded]);
    assert_eq!(state, ServerState { phase: ServerPhase::Stopped, in_flight: 0 });
    assert_eq!(actions, vec![ServerAction::EndListener, ServerAction::Return]);
}

#[test]
fn a_stopping_server_lets_requests_drain() {
    let (state, actions) = drive(&[
        ServerEvent::ConnectionOffered,
        ServerEvent::ConnectionOffered,
        ServerEvent::StopRequested,
        ServerEvent::ConnectionOffered,
        ServerEvent::RequestFinished,
        ServerEvent::RequestFinished,
        ServerEvent::ListenerEnded,
    ]);
    assert_eq!(
        actions,
        vec![
            ServerAction::Accept,
            ServerAction::Accept,
            ServerAction::StopListening,
            ServerAction::Refuse,
            ServerAction::Carry,
            ServerAction::EndListener,
            ServerAction::Return,
        ]
    );
    assert_eq!(state.phase, ServerPhase::Stopped);
}

#[test]
fn the_period_of_grace_ends_the_draining() {
    let (state, actions) = drive(&[ServerEvent::ConnectionOffered, ServerEvent::StopRequested, ServerEvent::GraceExpired]);
    assert_eq!(state, ServerState { phase: ServerPhase::Closing, in_flight: 0 });
    assert_eq!(actions.last(), Some(&ServerAction::CancelAndEndListener));
    let (state, actions) = drive(&[ServerEvent::ConnectionOffered, ServerEvent::StopRequested, ServerEvent::GraceExpired, ServerEvent::ListenerEnded]);
    assert_eq!(state.phase, ServerPhase::Stopped);
    assert_eq!(actions.last(), Some(&ServerAction::Return));
}

#[test]
fn stop_does_not_return_before_the_listener_has_ended() {
    let (state, actions) =
        drive(&[ServerEvent::ConnectionOffered, ServerEvent::StopRequested, ServerEvent::StopRequested, ServerEvent::RequestFinished, ServerEvent::GraceExpired]);
    assert_eq!(state.phase, ServerPhase::Closing);
    assert!(!actions.contains(&ServerAction::Return));
}

#[test]
fn a_stopped_server_stays_stopped() {
    let (stopped, _) = drive(&[ServerEvent::StopRequested, ServerEvent::ListenerEnded]);
    for event in [ServerEvent::ConnectionOffered, ServerEvent::RequestFinished, ServerEvent::StopRequested, ServerEvent::GraceExpired, ServerEvent::ListenerEnded] {
        let mut state = stopped;
        let action = state.on(event);
        assert_eq!(state, stopped);
        assert!(action == ServerAction::Carry || action == ServerAction::Refuse);
    }
}

#[test]
fn a_running_server_counts_its_requests() {
    let (state, _) = drive(&[ServerEvent::ConnectionOffered, ServerEvent::ConnectionOffered, ServerEvent::RequestFinished, ServerEvent::ConnectionOffered]);
    assert_eq!(state, ServerState { phase: ServerPhase::Accepting, in_flight: 2 });
    let (state, _) = drive(&[ServerEvent::RequestFinished, ServerEvent::GraceExpired, ServerEvent::ListenerEnded]);
    assert_eq!(state, ServerState { phase: ServerPhase::Accepting, in_flight: 0 });
}
