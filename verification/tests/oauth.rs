use kirei::http::{HttpBody, HttpMethod};
use kirei::unified::github_oauth::{
    after_exchange, after_wait, authorization_url, extract_code_from_url, generate_random_state, query_parameter,
    read_callback, state_char, wait_for_callback, Callback, FlowAction, FlowEvent, FlowState,
    GitHubOAuth, OAuthError, OAuthSession, CALLBACK_PAGE, DEFAULT_TIMEOUT_SECS,
    GITHUB_OAUTH_URL, GITHUB_TOKEN_URL,
};
use serde_json::Value;
use std::sync::mpsc;

fn json(text: &str) -> Value {
    serde_json::from_str(text).unwrap()
}

fn session() -> OAuthSession {
    OAuthSession {
        client_id: "client".to_string(),
        client_secret: "secret".to_string(),
        state: "s".repeat(32),
        redirect_port: 8080,
        timeout_secs: 300,
    }
}

fn callback(code: Option<&str>, state: Option<&str>) -> Callback {
    Callback { code: code.map(str::to_string), state: state.map(str::to_string) }
}

fn is_token_char(c: char) -> bool {
    c.is_ascii_digit() || c.is_ascii_lowercase()
}

#[test]
fn addresses_of_github() {
    assert_eq!(GITHUB_OAUTH_URL, "https://github.com/login/oauth/authorize");
    assert_eq!(GITHUB_TOKEN_URL, "https://github.com/login/oauth/access_token");
    assert_eq!(DEFAULT_TIMEOUT_SECS, 300);
    assert!(CALLBACK_PAGE.contains("<h1>Authentication Complete</h1>"));
    assert!(CALLBACK_PAGE.starts_with("<html>") && CALLBACK_PAGE.ends_with("</html>"));
}

#[test]
fn state_characters_are_digits_then_letters() {
    assert_eq!(state_char(0), '0');
    assert_eq!(state_char(9), '9');
    assert_eq!(state_char(10), 'a');
    assert_eq!(state_char(35), 'z');
    let all: String = (0..36).map(state_char).collect();
    assert_eq!(all, "0123456789abcdefghijklmnopqrstuvwxyz");
}

#[test]
fn state_token_has_32_characters_of_the_alphabet() {
    for _ in 0..50 {
        let state = generate_random_state();
        assert_eq!(state.chars().count(), 32);
        assert!(state.chars().all(is_token_char), "unexpected character in {:?}", state);
    }
    assert_ne!(generate_random_state(), generate_random_state());
}

#[test]
fn authorization_url_is_what_the_url_crate_builds() {
    let state = "0123456789abcdefghijklmnopqrstuv";
    let mut expected = url::Url::parse(GITHUB_OAUTH_URL).unwrap();
    expected
        .query_pairs_mut()
        .append_pair("client_id", "Iv1.abc def&x")
        .append_pair("redirect_uri", "http://localhost:54321/callback")
        .append_pair("scope", "repo")
        .append_pair("state", state);
    assert_eq!(authorization_url("Iv1.abc def&x", 54321, state), expected.to_string());
}

#[test]
fn authorization_url_in_full() {
    assert_eq!(
        authorization_url("abc", 8080, "xyz"),
        "https://github.com/login/oauth/authorize?client_id=abc&redirect_uri=http%3A%2F%2Flocalhost%3A8080%2Fcallback&scope=repo&state=xyz"
    );
    assert_eq!(
        authorization_url("a b*c~é", 0, ""),
        "https://github.com/login/oauth/authorize?client_id=a+b*c%7E%C3%A9&redirect_uri=http%3A%2F%2Flocalhost%3A0%2Fcallback&scope=repo&state="
    );
    assert_eq!(
        authorization_url("x", 65535, "s"),
        "https://github.com/login/oauth/authorize?client_id=x&redirect_uri=http%3A%2F%2Flocalhost%3A65535%2Fcallback&scope=repo&state=s"
    );
}

#[test]
fn fresh_authorization_url_carries_a_state_token() {
    let oauth = GitHubOAuth::new("client".to_string(), "secret".to_string());
    let url = oauth.get_authorization_url(9999);
    let prefix = "https://github.com/login/oauth/authorize?client_id=client&redirect_uri=http%3A%2F%2Flocalhost%3A9999%2Fcallback&scope=repo&state=";
    assert!(url.starts_with(prefix));
    let state = &url[prefix.len()..];
    assert_eq!(state.len(), 32);
    assert!(state.chars().all(is_token_char));
    assert_eq!(url.matches("state=").count(), 1);
}

#[test]
fn code_is_taken_from_the_query_string() {
    assert_eq!(extract_code_from_url("/callback?code=abc123&state=xyz"), Some("abc123".to_string()));
    assert_eq!(extract_code_from_url("/callback?state=xyz&code=abc123"), Some("abc123".to_string()));
    assert_eq!(extract_code_from_url("/callback?code=first&code=second"), Some("first".to_string()));
    assert_eq!(extract_code_from_url("/callback?code="), Some("".to_string()));
    assert_eq!(extract_code_from_url("/callback?code"), Some("".to_string()));
    assert_eq!(extract_code_from_url("/callback?state=xyz"), None);
    assert_eq!(extract_code_from_url("/callback"), None);
    assert_eq!(extract_code_from_url("/callback?Code=x"), None);
}

#[test]
fn code_is_url_decoded() {
    assert_eq!(extract_code_from_url("/callback?code=a%20b%2Bc"), Some("a b+c".to_string()));
    assert_eq!(extract_code_from_url("/callback?code=a+b"), Some("a b".to_string()));
    assert_eq!(extract_code_from_url("/callback?code=%C3%A9t%C3%A9"), Some("été".to_string()));
    assert_eq!(extract_code_from_url("/callback?code=x%26y&z=1"), Some("x&y".to_string()));
    assert_eq!(extract_code_from_url("/callback?code=abc#fragment"), Some("abc".to_string()));
}

#[test]
fn code_of_a_path_that_is_no_address() {
    assert_eq!(extract_code_from_url(":99999999/callback?code=abc"), None);
}

#[test]
fn other_parameters_are_found_by_name() {
    assert_eq!(query_parameter("/callback?code=c&state=st", "state"), Some("st".to_string()));
    assert_eq!(query_parameter("/callback?code=c", "state"), None);
}

#[test]
fn listener_reads_only_callback_paths() {
    let hit = read_callback("/callback?code=abc&state=xyz");
    assert_eq!(hit.code.as_deref(), Some("abc"));
    assert_eq!(hit.state.as_deref(), Some("xyz"));
    let codeless = read_callback("/callback?error=access_denied&state=xyz");
    assert!(codeless.code.is_none());
    assert_eq!(codeless.state.as_deref(), Some("xyz"));
    for path in ["/favicon.ico", "/", "/callback", "/other?code=abc&state=xyz", "/callbackx?code=1"] {
        let miss = read_callback(path);
        assert!(miss.code.is_none(), "{}", path);
        assert!(miss.state.is_none(), "{}", path);
    }
}

#[test]
fn idle_flow_listens_on_the_port_and_shows_the_address() {
    let session = session();
    match session.action(&FlowState::Idle) {
        FlowAction::Listen { port, url } => {
            assert_eq!(port, 8080);
            assert_eq!(url, authorization_url("client", 8080, &"s".repeat(32)));
            assert_eq!(url, session.authorization_url());
        }
        other => panic!("unexpected: {:?}", other),
    }
    let next = session.advance(FlowState::Idle, FlowEvent::ListenerStarted);
    assert!(matches!(next, FlowState::AwaitingRedirect));
    match session.action(&next) {
        FlowAction::Wait { timeout_secs } => assert_eq!(timeout_secs, 300),
        other => panic!("unexpected: {:?}", other),
    }
}

#[test]
fn timeout_fails_the_flow_for_good() {
    let session = session();
    let mut state = session.advance(FlowState::AwaitingRedirect, FlowEvent::TimedOut);
    assert!(matches!(state, FlowState::Failed(OAuthError::AuthorizationTimedOut)));
    let later = vec![
        FlowEvent::Signalled(callback(Some("late"), Some(&"s".repeat(32)))),
        FlowEvent::TokenReply(json(r#"{"access_token": "t"}"#)),
        FlowEvent::ListenerStarted,
        FlowEvent::ExchangeFailed("x".to_string()),
        FlowEvent::TimedOut,
    ];
    for event in later {
        state = session.advance(state, event);
        assert!(matches!(state, FlowState::Failed(OAuthError::AuthorizationTimedOut)));
    }
    match session.action(&state) {
        FlowAction::Abort(error) => assert_eq!(error.message(), "Authorization timed out"),
        other => panic!("unexpected: {:?}", other),
    }
}

#[test]
fn callback_with_code_and_state_delivers_the_code() {
    let session = session();
    let read = read_callback(&format!("/callback?code=a%2Fb+c&state={}", "s".repeat(32)));
    let state = session.advance(FlowState::AwaitingRedirect, FlowEvent::Signalled(read));
    match &state {
        FlowState::CodeReceived(code) => assert_eq!(code, "a/b c"),
        other => panic!("unexpected: {:?}", other),
    }
    match session.action(&state) {
        FlowAction::Exchange(request) => {
            assert_eq!(request.method, HttpMethod::Post);
            assert_eq!(request.url, GITHUB_TOKEN_URL);
            assert_eq!(request.headers, vec![("Accept".to_string(), "application/json".to_string())]);
            assert!(request.query.is_empty());
            match request.body {
                HttpBody::Form(form) => assert_eq!(
                    form,
                    vec![
                        ("client_id".to_string(), "client".to_string()),
                        ("client_secret".to_string(), "secret".to_string()),
                        ("code".to_string(), "a/b c".to_string()),
                    ]
                ),
                other => panic!("unexpected body {:?}", other),
            }
        }
        other => panic!("unexpected: {:?}", other),
    }
}

#[test]
fn callback_without_code_fails_distinctly() {
    let session = session();
    let state = session.advance(
        FlowState::AwaitingRedirect,
        FlowEvent::Signalled(read_callback("/favicon.ico")),
    );
    match state {
        FlowState::Failed(OAuthError::CodeNotReceived) => {}
        other => panic!("unexpected: {:?}", other),
    }
    assert_eq!(OAuthError::CodeNotReceived.message(), "Failed to receive code");
}

#[test]
fn callback_with_another_state_is_refused() {
    let session = session();
    for returned in [Some("other"), None] {
        let state = session.advance(
            FlowState::AwaitingRedirect,
            FlowEvent::Signalled(callback(Some("code"), returned)),
        );
        match state {
            FlowState::Failed(OAuthError::AuthorizationExchangeFailed(detail)) => {
                assert_eq!(detail, "State mismatch")
            }
            other => panic!("unexpected: {:?}", other),
        }
    }
}

#[test]
fn exchange_reply_with_token_finishes_the_flow() {
    let session = session();
    let state = session.advance(
        FlowState::CodeReceived("code".to_string()),
        FlowEvent::TokenReply(json(r#"{"access_token": "gho_abc", "token_type": "bearer"}"#)),
    );
    match &state {
        FlowState::TokenExchanged(token) => assert_eq!(token, "gho_abc"),
        other => panic!("unexpected: {:?}", other),
    }
    match session.action(&state) {
        FlowAction::Finish(token) => assert_eq!(token, "gho_abc"),
        other => panic!("unexpected: {:?}", other),
    }
    let still = session.advance(state, FlowEvent::TimedOut);
    assert!(matches!(still, FlowState::TokenExchanged(_)));
}

#[test]
fn exchange_reply_without_token_fails_the_flow() {
    let session = session();
    let state = session.advance(
        FlowState::CodeReceived("code".to_string()),
        FlowEvent::TokenReply(json(r#"{"error": "bad_verification_code"}"#)),
    );
    match state {
        FlowState::Failed(OAuthError::AuthorizationExchangeFailed(detail)) => {
            assert_eq!(detail, "No access token in response")
        }
        other => panic!("unexpected: {:?}", other),
    }
    let transport = session.advance(
        FlowState::CodeReceived("code".to_string()),
        FlowEvent::ExchangeFailed("connection reset".to_string()),
    );
    match transport {
        FlowState::Failed(OAuthError::AuthorizationExchangeFailed(detail)) => {
            assert_eq!(detail, "connection reset")
        }
        other => panic!("unexpected: {:?}", other),
    }
}

#[test]
fn events_out_of_turn_change_nothing() {
    let session = session();
    assert!(matches!(session.advance(FlowState::Idle, FlowEvent::TimedOut), FlowState::Idle));
    assert!(matches!(
        session.advance(FlowState::Idle, FlowEvent::Signalled(callback(Some("c"), None))),
        FlowState::Idle
    ));
    assert!(matches!(
        session.advance(FlowState::AwaitingRedirect, FlowEvent::ListenerStarted),
        FlowState::AwaitingRedirect
    ));
    assert!(matches!(
        session.advance(FlowState::AwaitingRedirect, FlowEvent::TokenReply(json("{}"))),
        FlowState::AwaitingRedirect
    ));
    match session.advance(FlowState::CodeReceived("c".to_string()), FlowEvent::TimedOut) {
        FlowState::CodeReceived(code) => assert_eq!(code, "c"),
        other => panic!("unexpected: {:?}", other),
    }
}

#[test]
fn begin_opens_a_session_with_a_fresh_state() {
    let oauth = GitHubOAuth::new("client".to_string(), "secret".to_string());
    let session = oauth.begin(4000);
    assert_eq!(session.client_id, "client");
    assert_eq!(session.client_secret, "secret");
    assert_eq!(session.redirect_port, 4000);
    assert_eq!(session.timeout_secs, 300);
    assert_eq!(session.state.len(), 32);
    assert!(session.state.chars().all(is_token_char));
    assert_ne!(oauth.begin(4000).state, session.state);
}

#[test]
fn exchange_of_the_application() {
    let oauth = GitHubOAuth::new("client".to_string(), "secret".to_string());
    let request = oauth.exchange_code_for_token("the code");
    assert_eq!(request.url, GITHUB_TOKEN_URL);
    match request.body {
        HttpBody::Form(form) => assert_eq!(form[2], ("code".to_string(), "the code".to_string())),
        other => panic!("unexpected body {:?}", other),
    }
    assert_eq!(GitHubOAuth::exchange_result(&json(r#"{"access_token": "t"}"#)).unwrap(), "t");
    match GitHubOAuth::exchange_result(&json("{}")) {
        Err(OAuthError::AuthorizationExchangeFailed(detail)) => {
            assert_eq!(detail, "No access token in response")
        }
        other => panic!("unexpected: {:?}", other),
    }
}

#[test]
fn wait_returns_true_when_signalled() {
    let (sender, receiver) = mpsc::channel();
    sender.send(()).unwrap();
    assert!(wait_for_callback(receiver, 5));
}

#[test]
fn wait_returns_false_when_time_runs_out() {
    let (sender, receiver) = mpsc::channel::<()>();
    assert!(!wait_for_callback(receiver, 0));
    drop(sender);
}

#[test]
fn wait_returns_false_when_the_listener_is_gone() {
    let (sender, receiver) = mpsc::channel::<()>();
    drop(sender);
    assert!(!wait_for_callback(receiver, 5));
}

#[test]
fn wait_and_exchange_outcomes_become_events() {
    let session = session();
    let timed_out = after_wait(false, Some(callback(Some("c"), None)));
    assert!(matches!(timed_out, FlowEvent::TimedOut));
    let state = session.advance(FlowState::AwaitingRedirect, timed_out);
    assert!(matches!(state, FlowState::Failed(OAuthError::AuthorizationTimedOut)));

    match after_wait(true, None) {
        FlowEvent::Signalled(found) => assert!(found.code.is_none() && found.state.is_none()),
        other => panic!("unexpected: {:?}", other),
    }
    match after_wait(true, Some(callback(Some("c"), Some("s")))) {
        FlowEvent::Signalled(found) => {
            assert_eq!(found.code.as_deref(), Some("c"));
            assert_eq!(found.state.as_deref(), Some("s"));
        }
        other => panic!("unexpected: {:?}", other),
    }
    match after_exchange(Ok(json(r#"{"a": 1}"#))) {
        FlowEvent::TokenReply(reply) => assert_eq!(reply, json(r#"{"a": 1}"#)),
        other => panic!("unexpected: {:?}", other),
    }
    match after_exchange(Err("offline".to_string())) {
        FlowEvent::ExchangeFailed(detail) => assert_eq!(detail, "offline"),
        other => panic!("unexpected: {:?}", other),
    }
}
