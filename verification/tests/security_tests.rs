use antigravity_core::error::GatewayError;
use antigravity_core::monitor::Protocol;
use antigravity_core::security::{
    bearer_key, bind_host, classify_transport_failure, presented_key, ProxySecurityConfig,
    TransportFailure, UpstreamProxyConfig,
};
use antigravity_core::zai::{Handler, ZaiConfig, ZaiDispatchMode};

fn security(key: &str, lan: bool) -> ProxySecurityConfig {
    ProxySecurityConfig { api_key: key.to_string(), allow_lan_access: lan }
}

#[test]
fn the_configured_key_is_accepted() {
    assert_eq!(security("sk-1", false).authorize(Some("sk-1")), Ok(()));
}

#[test]
fn a_wrong_or_missing_key_is_unauthorized() {
    let security = security("sk-1", false);
    assert_eq!(security.authorize(None), Err(GatewayError::Unauthorized));
    assert_eq!(security.authorize(Some("sk-2")), Err(GatewayError::Unauthorized));
    assert_eq!(security.authorize(Some("sk-")), Err(GatewayError::Unauthorized));
    assert_eq!(security.authorize(Some("sk-11")), Err(GatewayError::Unauthorized));
    assert_eq!(security.authorize(Some("")), Err(GatewayError::Unauthorized));
    assert_eq!(security.authorize(Some("SK-1")), Err(GatewayError::Unauthorized));
}

#[test]
fn the_listener_binds_to_loopback_unless_lan_access_is_allowed() {
    assert_eq!(bind_host(false), "127.0.0.1");
    assert_eq!(bind_host(true), "0.0.0.0");
    assert_eq!(security("k", false).bind_host(), "127.0.0.1");
    assert_eq!(security("k", true).bind_host(), "0.0.0.0");
}

#[test]
fn the_bearer_key_is_what_follows_the_scheme() {
    assert_eq!(bearer_key("Bearer sk-1"), Some("sk-1"));
    assert_eq!(bearer_key("Bearer "), Some(""));
    assert_eq!(bearer_key("Bearer  sk-1"), Some(" sk-1"));
    assert_eq!(bearer_key("Bearer 密钥"), Some("密钥"));
    assert_eq!(bearer_key("bearer sk-1"), None);
    assert_eq!(bearer_key("Bearer"), None);
    assert_eq!(bearer_key("Basic abc"), None);
    assert_eq!(bearer_key(""), None);
}

#[test]
fn the_presented_key_comes_from_either_header() {
    assert_eq!(presented_key(Some("Bearer a"), Some("b")), Some("a"));
    assert_eq!(presented_key(Some("Basic a"), Some("b")), Some("b"));
    assert_eq!(presented_key(None, Some("b")), Some("b"));
    assert_eq!(presented_key(Some("Basic a"), None), None);
    assert_eq!(presented_key(None, None), None);
}

#[test]
fn outbound_calls_are_tunnelled_only_when_the_proxy_is_enabled() {
    let on = UpstreamProxyConfig { enabled: true, url: "http://proxy:3128".to_string() };
    let off = UpstreamProxyConfig { enabled: false, url: "http://proxy:3128".to_string() };
    assert_eq!(on.tunnel(), Some(&"http://proxy:3128".to_string()));
    assert_eq!(off.tunnel(), None);
    let copy = on.duplicate();
    assert!(copy.enabled);
    assert_eq!(copy.url, "http://proxy:3128");
}

#[test]
fn an_unreachable_proxy_is_a_network_error() {
    assert_eq!(
        classify_transport_failure(TransportFailure::ProxyUnreachable),
        GatewayError::NetworkError
    );
    assert_eq!(
        classify_transport_failure(TransportFailure::BackendUnreachable),
        GatewayError::NetworkError
    );
    assert_eq!(
        classify_transport_failure(TransportFailure::DeadlineExceeded),
        GatewayError::Timeout
    );
}

#[test]
fn zai_requests_go_to_the_dispatcher_only_while_it_is_enabled() {
    let direct = ZaiConfig { enabled: true, dispatch_mode: ZaiDispatchMode::DirectForward };
    let transform = ZaiConfig { enabled: true, dispatch_mode: ZaiDispatchMode::TransformThenForward };
    let off = ZaiConfig { enabled: false, dispatch_mode: ZaiDispatchMode::DirectForward };
    assert_eq!(direct.handler_for(Protocol::Zai), Handler::ZaiDirect);
    assert_eq!(transform.handler_for(Protocol::Zai), Handler::ZaiTransform);
    assert_eq!(off.handler_for(Protocol::Zai), Handler::Translator);
    for protocol in [Protocol::OpenAi, Protocol::Anthropic, Protocol::Gemini] {
        assert_eq!(direct.handler_for(protocol), Handler::Translator);
        assert_eq!(transform.handler_for(protocol), Handler::Translator);
    }
    assert_eq!(direct.dispatch_mode_display(), "direct");
    assert_eq!(transform.dispatch_mode_display(), "transform");
}
