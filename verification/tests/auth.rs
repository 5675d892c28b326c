use fcm_push::auth::AuthResult;
use fcm_push::auth::AuthSession;
use fcm_push::auth::CallbackDecision;
use fcm_push::auth::OAuthToken;
use fcm_push::callback::parse_callback_request;
use fcm_push::callback::CallbackOutcome;
use fcm_push::exchange::interpret_exchange_reply;
use fcm_push::exchange::ExchangeCodeResponse;
use fcm_push::exchange::ExchangeError;

fn token(access: &str, expiry: i64) -> OAuthToken {
    OAuthToken {
        access_token: String::from(access),
        refresh_token: String::new(),
        id_token: String::new(),
        token_type: String::from("Bearer"),
        expiry,
    }
}

#[test]
fn token_one_hour_ahead_is_valid() {
    let now = chrono::Utc::now().timestamp();
    let t = token("tok", now + 3600);
    assert!(t.is_valid_at(now));
    assert!(t.is_valid());
}

#[test]
fn token_one_second_past_is_not_valid() {
    let now = chrono::Utc::now().timestamp();
    let t = token("tok", now - 1);
    assert!(!t.is_valid_at(now));
    assert!(!t.is_valid());
}

#[test]
fn token_without_access_token_is_not_valid() {
    let now = chrono::Utc::now().timestamp();
    let t = token("", now + 3600);
    assert!(!t.is_valid_at(now));
    assert!(!t.is_valid());
}

#[test]
fn from_response_adds_the_lifetime_to_now() {
    let resp = ExchangeCodeResponse {
        access_token: String::from("tok"),
        refresh_token: String::from("r"),
        id_token: String::from("i"),
        expires_in: 3600,
        token_type: String::from("Bearer"),
    };
    let now = 1_000_000;
    let t = OAuthToken::from_response_at(resp, now);
    assert_eq!(t.access_token, "tok");
    assert_eq!(t.refresh_token, "r");
    assert_eq!(t.id_token, "i");
    assert_eq!(t.token_type, "Bearer");
    assert_eq!(t.expiry, now + 3600);
}

#[test]
fn auth_result_success_and_failure_shapes() {
    let ok = AuthResult::success(token("tok", 10));
    assert!(ok.success);
    assert!(ok.token.is_some());
    assert_eq!(ok.message, "authentication succeeded");
    let bad = AuthResult::failure(String::from("nope"));
    assert!(!bad.success);
    assert!(bad.token.is_none());
    assert_eq!(bad.message, "nope");
}

#[test]
fn exchange_reply_classification() {
    let resp = ExchangeCodeResponse {
        access_token: String::from("tok"),
        refresh_token: String::new(),
        id_token: String::new(),
        expires_in: 60,
        token_type: String::from("Bearer"),
    };
    let r = interpret_exchange_reply(401, String::from("denied"), None);
    assert!(matches!(r, Err(ExchangeError::HttpStatus(401, b)) if b == "denied"));

    let r = interpret_exchange_reply(200, String::from("not json"), None);
    assert!(matches!(r, Err(ExchangeError::ParseError(b)) if b == "not json"));

    let empty = ExchangeCodeResponse {
        access_token: String::new(),
        refresh_token: String::new(),
        id_token: String::new(),
        expires_in: 60,
        token_type: String::from("Bearer"),
    };
    let r = interpret_exchange_reply(200, String::from("{}"), Some(empty));
    assert!(matches!(r, Err(ExchangeError::MissingAccessToken)));

    let r = interpret_exchange_reply(200, String::from("{}"), Some(resp));
    assert!(matches!(r, Ok(t) if t.access_token == "tok"));
}

#[test]
fn exchange_error_messages() {
    let e = ExchangeError::HttpStatus(503, String::from("busy"));
    assert_eq!(e.message(), "HTTP 503 | busy");
    let e = ExchangeError::ParseError(String::from("xx"));
    assert_eq!(e.message(), "could not parse the token response | body: xx");
    let e = ExchangeError::MissingAccessToken;
    assert_eq!(e.message(), "the response carried no access token");
}

#[test]
fn browser_failure_ends_the_attempt() {
    let (session, _url) = AuthSession::start(
        String::from("client"),
        String::from("http://localhost:8080/callback"),
        String::from("https://exchange.example/code"),
    );
    let r = session.browser_opened(Err(String::from("no handler")));
    let a = r.expect("failure expected");
    assert!(!a.success);
    assert!(a.token.is_none());
    assert_eq!(a.message, "failed to open browser: no handler");
    assert!(session.browser_opened(Ok(())).is_none());
}

#[test]
fn timeout_ends_the_attempt_with_a_timeout_message() {
    let (session, _url) = AuthSession::start(
        String::from("client"),
        String::from("http://localhost:8080/callback"),
        String::from("https://exchange.example/code"),
    );
    match session.on_callback(CallbackOutcome::Timeout) {
        CallbackDecision::Fail(a) => {
            assert!(!a.success);
            assert!(a.token.is_none());
            assert!(a.message.contains("timed out"));
        }
        CallbackDecision::Exchange(_) => panic!("a timeout must not be exchanged"),
    }
}

#[test]
fn state_mismatch_and_provider_error_end_the_attempt() {
    let (session, _url) = AuthSession::start(
        String::from("client"),
        String::from("http://localhost:8080/callback"),
        String::from("https://exchange.example/code"),
    );
    match session.on_callback(CallbackOutcome::StateMismatch) {
        CallbackDecision::Fail(a) => assert!(a.message.contains("state mismatch")),
        CallbackDecision::Exchange(_) => panic!("a mismatch must not be exchanged"),
    }
    match session.on_callback(CallbackOutcome::ProviderError(String::from("access_denied"))) {
        CallbackDecision::Fail(a) => {
            assert_eq!(a.message, "provider reported an error: access_denied")
        }
        CallbackDecision::Exchange(_) => panic!("a provider error must not be exchanged"),
    }
}

#[test]
fn end_to_end_simulated_flow_succeeds() {
    let (session, url) = AuthSession::start(
        String::from("client-id"),
        String::from("http://localhost:8080/callback"),
        String::from("https://exchange.example/code"),
    );
    // The state is URL-safe, so it appears verbatim in the URL.
    assert!(url.contains(&format!("&state={}", session.pkce.state)));
    assert!(session.browser_opened(Ok(())).is_none());

    let line = format!(
        "GET /callback?code=ABC123&state={} HTTP/1.1",
        session.pkce.state
    );
    let outcome = parse_callback_request(&line, &session.pkce.state);
    let req = match session.on_callback(outcome) {
        CallbackDecision::Exchange(req) => req,
        CallbackDecision::Fail(a) => panic!("unexpected failure: {}", a.message),
    };
    assert_eq!(req.code, "ABC123");
    assert_eq!(req.redirect_uri, "http://localhost:8080/callback");
    assert_eq!(req.code_verifier, session.pkce.verifier);

    let resp = ExchangeCodeResponse {
        access_token: String::from("tok"),
        refresh_token: String::new(),
        id_token: String::new(),
        expires_in: 3600,
        token_type: String::from("Bearer"),
    };
    let now = 1_700_000_000;
    let exchanged = interpret_exchange_reply(200, String::from("{}"), Some(resp));
    let result = session.finish_exchange(exchanged, now);
    assert!(result.success);
    let t = result.token.expect("token expected");
    assert_eq!(t.access_token, "tok");
    assert_eq!(t.expiry, now + 3600);
    assert_eq!(result.message, "authentication succeeded");
}

#[test]
fn failed_exchange_yields_a_failure_result() {
    let (session, _url) = AuthSession::start(
        String::from("client"),
        String::from("http://localhost:8080/callback"),
        String::from("https://exchange.example/code"),
    );
    let r = session.finish_exchange(
        Err(ExchangeError::HttpStatus(500, String::from("oops"))),
        0,
    );
    assert!(!r.success);
    assert!(r.token.is_none());
    assert_eq!(r.message, "token exchange failed: HTTP 500 | oops");
}
