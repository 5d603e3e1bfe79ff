use oauth_handoff::callback::{
    complete_auth_callback, finish_auth_callback, grant_session, handle_auth_callback,
    refuse_exchange, CallbackStep,
};
use oauth_handoff::exchange::{
    build_exchange_request, read_access_token, read_exchange, Config, ExchangeError,
    ExchangeOutcome,
};
use oauth_handoff::query::Query;
use oauth_handoff::session::SessionStore;

fn config() -> Config {
    Config {
        client_id: String::from("id-1"),
        client_secret: String::from("secret-1"),
        success_url: String::from("http://localhost:3000/login-success.html"),
        exchange_timeout_seconds: 10,
    }
}

fn pair(name: &str, value: &str) -> (String, String) {
    (String::from(name), String::from(value))
}

fn replied(status: u16, body: &[u8]) -> ExchangeOutcome {
    ExchangeOutcome::Replied { status, body: body.to_vec() }
}

fn is_session_id(text: &str) -> bool {
    let bytes = text.as_bytes();
    bytes.len() == 36
        && bytes.iter().enumerate().all(|(i, b)| {
            if i == 8 || i == 13 || i == 18 || i == 23 {
                *b == b'-'
            } else {
                b.is_ascii_digit() || (b'a'..=b'f').contains(b)
            }
        })
}

#[test]
fn exchange_request_carries_credentials_and_code() {
    let request = build_exchange_request(&config(), String::from("abc123"));
    assert_eq!(request.url, "https://github.com/login/oauth/access_token");
    assert_eq!(request.accept, "application/json");
    assert_eq!(
        request.form,
        vec![
            pair("client_id", "id-1"),
            pair("client_secret", "secret-1"),
            pair("code", "abc123"),
        ]
    );
    assert_eq!(request.timeout_seconds, 10);
}

#[test]
fn callback_without_code_is_rejected() {
    match handle_auth_callback(&Query::new(vec![]), &config()) {
        CallbackStep::Reject(r) => {
            assert_eq!(r.status, 400);
            assert_eq!(r.headers, vec![pair("content-type", "text/plain")]);
            assert_eq!(r.body, b"Invalid code".to_vec());
        }
        CallbackStep::Exchange(_) => panic!("nothing should be sent"),
    }
}

#[test]
fn callback_with_empty_code_is_rejected() {
    match handle_auth_callback(&Query::new(vec![pair("code", "")]), &config()) {
        CallbackStep::Reject(r) => assert_eq!(r.status, 400),
        CallbackStep::Exchange(_) => panic!("nothing should be sent"),
    }
}

#[test]
fn callback_with_code_asks_for_one_exchange() {
    match handle_auth_callback(&Query::new(vec![pair("code", "abc123")]), &config()) {
        CallbackStep::Exchange(request) => {
            assert_eq!(request.form[2], pair("code", "abc123"));
        }
        CallbackStep::Reject(_) => panic!("a code was given"),
    }
}

#[test]
fn access_token_is_read_from_json() {
    assert_eq!(
        read_access_token(br#"{"access_token":"ghp_xyz","token_type":"bearer"}"#),
        Some(String::from("ghp_xyz"))
    );
    assert_eq!(
        read_access_token(b" { \"scope\" : \"\", \"access_token\" : \"a\\\"b\\u0041\" } "),
        Some(String::from("a\"bA"))
    );
    assert_eq!(read_access_token(br#"{"access_token":""}"#), Some(String::new()));
}

#[test]
fn access_token_is_absent_where_json_has_none() {
    assert_eq!(read_access_token(br#"{"error":"bad_verification_code"}"#), None);
    assert_eq!(read_access_token(br#"{"access_token":42}"#), None);
    assert_eq!(read_access_token(br#"{"access_token":null}"#), None);
    assert_eq!(read_access_token(br#"{"ACCESS_TOKEN":"x"}"#), None);
    assert_eq!(read_access_token(br#"["access_token"]"#), None);
    assert_eq!(read_access_token(br#""access_token""#), None);
}

#[test]
fn access_token_is_absent_where_body_is_not_json() {
    assert_eq!(read_access_token(b""), None);
    assert_eq!(read_access_token(b"access_token=ghp_xyz"), None);
    assert_eq!(read_access_token(br#"{"access_token":"x""#), None);
    assert_eq!(read_access_token(br#"{"access_token":"x"} trailing"#), None);
    assert_eq!(read_access_token(&[0xff, 0xfe]), None);
}

#[test]
fn read_exchange_gives_each_error() {
    assert_eq!(read_exchange(&ExchangeOutcome::Failed), Err(ExchangeError::Transport));
    assert_eq!(
        read_exchange(&replied(401, br#"{"access_token":"x"}"#)),
        Err(ExchangeError::Transport)
    );
    assert_eq!(
        read_exchange(&replied(500, br#"{"access_token":"x"}"#)),
        Err(ExchangeError::Transport)
    );
    assert_eq!(read_exchange(&replied(200, b"<html>")), Err(ExchangeError::Contract));
    assert_eq!(read_exchange(&replied(200, b"{}")), Err(ExchangeError::Contract));
}

#[test]
fn read_exchange_accepts_exactly_2xx() {
    let body = br#"{"access_token":"t"}"#;
    assert_eq!(read_exchange(&replied(199, body)), Err(ExchangeError::Transport));
    assert_eq!(read_exchange(&replied(200, body)), Ok(String::from("t")));
    assert_eq!(read_exchange(&replied(204, body)), Ok(String::from("t")));
    assert_eq!(read_exchange(&replied(299, body)), Ok(String::from("t")));
    assert_eq!(read_exchange(&replied(300, body)), Err(ExchangeError::Transport));
    assert_eq!(read_exchange(&replied(0, body)), Err(ExchangeError::Transport));
    assert_eq!(read_exchange(&replied(u16::MAX, body)), Err(ExchangeError::Transport));
}

#[test]
fn grant_redirects_with_the_session_id_and_not_the_token() {
    let result = grant_session(
        String::from("ghp_xyz"),
        String::from("S-1"),
        "http://localhost:3000/login-success.html",
    );
    assert_eq!(result.response.status, 302);
    assert_eq!(
        result.response.headers,
        vec![pair("Location", "http://localhost:3000/login-success.html?session_id=S-1")]
    );
    assert!(result.response.body.is_empty());
    let grant = result.grant.expect("a session is granted");
    assert_eq!(grant.session_id, "S-1");
    assert_eq!(grant.token, "ghp_xyz");
    assert_eq!(grant.ttl_seconds, 120);
}

#[test]
fn refusal_is_500_with_a_message_by_kind() {
    let transport = refuse_exchange(ExchangeError::Transport);
    assert_eq!(transport.response.status, 500);
    assert_eq!(transport.response.headers, vec![pair("content-type", "text/plain")]);
    assert_eq!(transport.response.body, b"Failed to exchange token".to_vec());
    assert!(transport.grant.is_none());
    let contract = refuse_exchange(ExchangeError::Contract);
    assert_eq!(contract.response.status, 500);
    assert_eq!(contract.response.headers, vec![pair("content-type", "text/plain")]);
    assert_eq!(contract.response.body, b"Failed to parse token response".to_vec());
    assert!(contract.grant.is_none());
}

#[test]
fn finished_callback_grants_a_fresh_well_formed_id() {
    let outcome = replied(200, br#"{"access_token":"ghp_xyz"}"#);
    let first = finish_auth_callback(&outcome, &config());
    let second = finish_auth_callback(&outcome, &config());
    let a = first.grant.expect("granted");
    let b = second.grant.expect("granted");
    assert!(is_session_id(&a.session_id), "{}", a.session_id);
    assert!(is_session_id(&b.session_id), "{}", b.session_id);
    assert_ne!(a.session_id, b.session_id);
    assert_eq!(a.token, "ghp_xyz");
    assert_eq!(a.ttl_seconds, 120);
    assert_eq!(
        first.response.headers,
        vec![(
            String::from("Location"),
            format!("http://localhost:3000/login-success.html?session_id={}", a.session_id)
        )]
    );
}

#[test]
fn finished_callback_keeps_the_token_out_of_the_redirect() {
    let outcome = replied(200, br#"{"access_token":"ghp_secret_value"}"#);
    let result = finish_auth_callback(&outcome, &config());
    assert_eq!(result.response.status, 302);
    assert!(!result.response.headers[0].1.contains("ghp_secret_value"));
    assert!(result.response.body.is_empty());
}

#[test]
fn failed_exchange_is_500_and_stores_nothing() {
    let outcomes = vec![
        ExchangeOutcome::Failed,
        replied(401, br#"{"error":"bad credentials"}"#),
        replied(500, b"oops"),
        replied(200, b"not json at all"),
        replied(200, br#"{"error":"bad_verification_code"}"#),
    ];
    for outcome in outcomes.iter() {
        let mut store = SessionStore::new();
        store.put("kept", "t", 120, 0);
        let result = complete_auth_callback(&mut store, outcome, &config(), 10);
        assert_eq!(result.response.status, 500);
        assert!(result.grant.is_none());
        assert_eq!(store.get("kept", 10), Some(String::from("t")));
        assert_eq!(store.get("fabricated", 10), None);
        assert_eq!(store.get("", 10), None);
    }
}

#[test]
fn completed_callback_writes_exactly_the_granted_entry() {
    let mut store = SessionStore::new();
    store.put("other", "t0", 120, 0);
    let outcome = replied(200, br#"{"access_token":"ghp_xyz"}"#);
    let result = complete_auth_callback(&mut store, &outcome, &config(), 50);
    let grant = result.grant.expect("granted");
    assert_eq!(store.get(&grant.session_id, 50), Some(String::from("ghp_xyz")));
    assert_eq!(store.get(&grant.session_id, 169), Some(String::from("ghp_xyz")));
    assert_eq!(store.get(&grant.session_id, 170), None);
    assert_eq!(store.get("other", 50), Some(String::from("t0")));
}
