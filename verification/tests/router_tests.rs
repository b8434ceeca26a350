use antigravity_core::account::{Account, ModelQuota, Quota, TokenData};
use antigravity_core::error::GatewayError;
use antigravity_core::mapping::{MappingTable, MappingTables};
use antigravity_core::monitor::Protocol;
use antigravity_core::router::{
    accept_request, backend_call, begin_request, frame_chunk, model_in_path, relay_all, route,
    ClientRequest, Route, StreamRelay,
};
use antigravity_core::security::ProxySecurityConfig;
use antigravity_core::token_manager::TokenManager;

fn account(id: &str, forbidden: bool, models: &[(&str, u64)]) -> Account {
    Account {
        id: id.to_string(),
        email: format!("{}@example.com", id),
        name: None,
        token: TokenData::new(format!("token-{}", id), "r".to_string(), 3600, 0, None, None, None),
        quota: Some(Quota {
            subscription_tier: None,
            is_forbidden: forbidden,
            models: models
                .iter()
                .map(|(name, left)| ModelQuota { name: name.to_string(), remaining: *left, limit: 10 })
                .collect(),
        }),
    }
}

fn no_tables() -> MappingTables {
    MappingTables { anthropic: MappingTable::new(), openai: MappingTable::new(), custom: MappingTable::new() }
}

fn security() -> ProxySecurityConfig {
    ProxySecurityConfig { api_key: "sk-secret".to_string(), allow_lan_access: false }
}

#[test]
fn the_three_endpoints_are_routed() {
    let found = route("POST", "/v1/chat/completions").unwrap();
    assert_eq!(found.protocol, Protocol::OpenAi);
    assert_eq!(found.model, None);
    let found = route("POST", "/v1/messages").unwrap();
    assert_eq!(found.protocol, Protocol::Anthropic);
    assert_eq!(found.model, None);
    let found = route("POST", "/v1beta/models/gemini-pro:generateContent").unwrap();
    assert_eq!(found.protocol, Protocol::Gemini);
    assert_eq!(found.model, Some("gemini-pro".to_string()));
}

#[test]
fn only_post_is_routed() {
    assert!(route("GET", "/v1/chat/completions").is_none());
    assert!(route("post", "/v1/messages").is_none());
    assert!(route("", "/v1/messages").is_none());
    assert!(route("PUT", "/v1beta/models/m:generateContent").is_none());
}

#[test]
fn paths_are_matched_to_the_letter() {
    assert!(route("POST", "/v1/chat/completions/").is_none());
    assert!(route("POST", "/V1/chat/completions").is_none());
    assert!(route("POST", "/v1/Messages").is_none());
    assert!(route("POST", "/v1/messages?x=1").is_none());
    assert!(route("POST", "v1/messages").is_none());
    assert!(route("POST", "/").is_none());
    assert!(route("POST", "").is_none());
}

#[test]
fn the_model_in_the_path_is_one_segment_and_not_empty() {
    assert_eq!(model_in_path("/v1beta/models/a:generateContent"), Some("a".to_string()));
    assert_eq!(model_in_path("/v1beta/models/模型:generateContent"), Some("模型".to_string()));
    assert_eq!(
        model_in_path("/v1beta/models/a:b:generateContent"),
        Some("a:b".to_string())
    );
    assert_eq!(model_in_path("/v1beta/models/:generateContent"), None);
    assert_eq!(model_in_path("/v1beta/models/a/b:generateContent"), None);
    assert_eq!(model_in_path("/v1beta/models/a:generatecontent"), None);
    assert_eq!(model_in_path("/v1beta/models/a:generateContent/"), None);
    assert_eq!(model_in_path("/v1beta/model/a:generateContent"), None);
    assert_eq!(model_in_path("/v1beta/models/a"), None);
    assert_eq!(model_in_path(":generateContent"), None);
    assert_eq!(model_in_path("/v1beta/models/"), None);
    assert_eq!(model_in_path(""), None);
}

#[test]
fn a_request_for_model_x_selects_b_never_the_forbidden_a() {
    let mut pool = TokenManager::new();
    assert_eq!(
        pool.load(vec![account("A", true, &[("x", 10)]), account("B", false, &[("x", 10)])]),
        Ok(2)
    );
    for _ in 0..5 {
        let dispatch = begin_request(
            &security(),
            &no_tables(),
            &mut pool,
            Protocol::OpenAi,
            Some("sk-secret"),
            "x",
        )
        .unwrap();
        assert_eq!(dispatch.selection.account_id, "B");
        assert_eq!(dispatch.selection.access_token, "token-B");
        assert_eq!(dispatch.backend_model, "x");
    }
    assert_eq!(pool.selections(), 5);
}

#[test]
fn a_request_without_a_key_is_unauthorized_before_any_selection() {
    let mut pool = TokenManager::new();
    let _ = pool.load(vec![account("A", false, &[("x", 10)])]);
    let before = pool.selections();
    let refused =
        begin_request(&security(), &no_tables(), &mut pool, Protocol::OpenAi, None, "x");
    assert_eq!(refused.unwrap_err(), GatewayError::Unauthorized);
    assert_eq!(pool.selections(), before);
    // The account has not been stamped either: it is still the first pick.
    let refused =
        begin_request(&security(), &no_tables(), &mut pool, Protocol::OpenAi, Some("sk-wrong"), "x");
    assert_eq!(refused.unwrap_err(), GatewayError::Unauthorized);
    assert_eq!(pool.selections(), before);
}

#[test]
fn a_request_without_a_key_is_unauthorized_even_on_an_empty_pool() {
    let mut pool = TokenManager::new();
    let refused =
        begin_request(&security(), &no_tables(), &mut pool, Protocol::Anthropic, None, "x");
    assert_eq!(refused.unwrap_err(), GatewayError::Unauthorized);
    let refused =
        begin_request(&security(), &no_tables(), &mut pool, Protocol::Anthropic, Some("sk-secret"), "x");
    assert_eq!(refused.unwrap_err(), GatewayError::NoEligibleAccount);
}

#[test]
fn selection_goes_by_the_translated_model_name() {
    let mut openai = MappingTable::new();
    openai.insert("gpt-4".to_string(), "backend-large".to_string());
    let tables = MappingTables { anthropic: MappingTable::new(), openai, custom: MappingTable::new() };
    let mut pool = TokenManager::new();
    let _ = pool.load(vec![
        account("has-gpt-4", false, &[("gpt-4", 10)]),
        account("has-backend", false, &[("backend-large", 10)]),
    ]);
    for _ in 0..3 {
        let dispatch =
            begin_request(&security(), &tables, &mut pool, Protocol::OpenAi, Some("sk-secret"), "gpt-4")
                .unwrap();
        assert_eq!(dispatch.backend_model, "backend-large");
        assert_eq!(dispatch.selection.account_id, "has-backend");
    }
}

#[test]
fn a_chunk_is_framed_as_one_event() {
    assert_eq!(frame_chunk("{\"a\":1}"), "data: {\"a\":1}\n\n");
    assert_eq!(frame_chunk(""), "data: \n\n");
}

#[test]
fn three_chunks_yield_three_frames_in_order() {
    let mut relay = StreamRelay::new();
    let mut sent: Vec<String> = Vec::new();
    for chunk in ["one", "two", "three"] {
        // Each chunk leaves before the next one is taken.
        let frame = relay.forward(chunk);
        sent.push(frame);
        assert_eq!(relay.forwarded(), sent.len() as u64);
    }
    assert_eq!(sent, vec!["data: one\n\n", "data: two\n\n", "data: three\n\n"]);
}

#[test]
fn relay_all_keeps_count_and_order() {
    let chunks: Vec<String> = ["a", "b", "c"].iter().map(|c| c.to_string()).collect();
    assert_eq!(relay_all(&chunks), vec!["data: a\n\n", "data: b\n\n", "data: c\n\n"]);
    assert!(relay_all(&Vec::new()).is_empty());
}

fn decoded(model: Option<&str>, stream: Option<bool>) -> Option<ClientRequest> {
    Some(ClientRequest { model: model.map(|m| m.to_string()), stream })
}

#[test]
fn a_payload_that_cannot_be_decoded_is_a_bad_request() {
    let route = route("POST", "/v1/messages").unwrap();
    assert_eq!(accept_request(route, None).unwrap_err(), GatewayError::BadRequest);
    let route = route_to_gemini();
    assert_eq!(accept_request(route, None).unwrap_err(), GatewayError::BadRequest);
}

fn route_to_gemini() -> Route {
    route("POST", "/v1beta/models/gemini-pro:generateContent").unwrap()
}

#[test]
fn a_request_without_a_model_is_a_bad_request() {
    let chat = || route("POST", "/v1/chat/completions").unwrap();
    assert_eq!(accept_request(chat(), decoded(None, None)).unwrap_err(), GatewayError::BadRequest);
    assert_eq!(
        accept_request(chat(), decoded(Some(""), Some(true))).unwrap_err(),
        GatewayError::BadRequest
    );
}

#[test]
fn the_model_comes_from_the_payload_or_from_the_path() {
    let chat = route("POST", "/v1/chat/completions").unwrap();
    let request = accept_request(chat, decoded(Some("gpt-4"), Some(true))).unwrap();
    assert_eq!(request.model, "gpt-4");
    assert!(request.streaming);
    let request = accept_request(route_to_gemini(), decoded(Some("other"), None)).unwrap();
    assert_eq!(request.model, "gemini-pro");
    assert!(!request.streaming);
    let request = accept_request(route_to_gemini(), decoded(None, Some(false))).unwrap();
    assert_eq!(request.model, "gemini-pro");
    assert!(!request.streaming);
}

#[test]
fn the_backend_call_carries_the_token_of_the_picked_account() {
    let mut pool = TokenManager::new();
    let _ = pool.load(vec![account("B", false, &[("x", 10)])]);
    let dispatch =
        begin_request(&security(), &no_tables(), &mut pool, Protocol::OpenAi, Some("sk-secret"), "x")
            .unwrap();
    let call = backend_call(&dispatch, true, "{}".to_string());
    assert_eq!(call.account_id, "B");
    assert_eq!(call.model, "x");
    assert_eq!(call.authorization, "Bearer token-B");
    assert!(call.streaming);
    assert_eq!(call.body, "{}");
}
