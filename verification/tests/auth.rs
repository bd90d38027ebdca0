use music_link::auth::{
    code_from_query, consent_pairs, consent_url, consent_url_from, exchange_request,
    exchange_verdict, extract_code, find_code, redirect_target, AuthAction, AuthEvent, AuthSession,
    ExchangeOutcome, Stage, LISTEN_ADDRESS, TOKEN_TIMEOUT_SECS,
};
use music_link::spotify::{AuthStatus, SpotifyError};

fn session() -> AuthSession {
    AuthSession::new("my-client".to_string(), "my-secret".to_string())
}

/// Drives a session up to the point where the code is exchanged.
fn until_exchange(target_line: &str) -> (AuthSession, AuthAction) {
    let (s, a) = session().begin();
    assert!(matches!(a, AuthAction::OpenBrowser(_)));
    let (s, a) = s.step(AuthEvent::Done(Ok(())));
    assert!(matches!(a, AuthAction::Listen(_)));
    let (s, a) = s.step(AuthEvent::Done(Ok(())));
    assert!(matches!(a, AuthAction::Accept));
    assert!(s.is_listening());
    let (s, a) = s.step(AuthEvent::RequestLine(Ok(target_line.to_string())));
    assert!(matches!(a, AuthAction::Respond(_)));
    assert_eq!(s.accepted(), 1);
    s.step(AuthEvent::Done(Ok(())))
}

#[test]
fn consent_url_names_client_redirect_and_scope() {
    assert_eq!(
        consent_url("my-client").unwrap(),
        "https://accounts.spotify.com/authorize?client_id=my-client&response_type=code&redirect_uri=http%3A%2F%2Flocalhost%3A8888%2Fcallback&scope=user-read-currently-playing&show_dialog=true"
    );
    assert_eq!(
        consent_url("a b&c").unwrap(),
        "https://accounts.spotify.com/authorize?client_id=a+b%26c&response_type=code&redirect_uri=http%3A%2F%2Flocalhost%3A8888%2Fcallback&scope=user-read-currently-playing&show_dialog=true"
    );
    let pairs = consent_pairs("x");
    assert_eq!(pairs.len(), 5);
    assert_eq!(pairs[0], ("client_id".to_string(), "x".to_string()));
    assert_eq!(pairs[4], ("show_dialog".to_string(), "true".to_string()));
    assert!(matches!(
        consent_url_from(Err("relative URL without a base".to_string())),
        Err(SpotifyError::UrlParseError(m)) if m == "relative URL without a base"
    ));
    assert_eq!(consent_url_from(Ok("u".to_string())).unwrap(), "u");
}

#[test]
fn code_is_extracted_from_the_redirect() {
    assert_eq!(extract_code("/callback?code=abc123&state=xyz").unwrap(), "abc123");
    assert_eq!(extract_code("/callback?state=xyz&code=abc123").unwrap(), "abc123");
    assert_eq!(extract_code("/callback?code=a%20b%2Bc+d").unwrap(), "a b+c d");
    assert_eq!(extract_code("/callback?code=first&code=second").unwrap(), "first");
    assert_eq!(extract_code("/callback?code=").unwrap(), "");
}

#[test]
fn redirect_without_code_is_an_authorization_error() {
    for target in ["/callback?error=access_denied&state=xyz", "/callback", "/callback?", "/callback?codes=1", ""] {
        match extract_code(target) {
            Err(SpotifyError::AuthorizationError(m)) => {
                assert_eq!(m, "the callback URL holds no authorization code")
            }
            _ => panic!("an AuthorizationError was expected"),
        }
    }
}

#[test]
fn code_among_pairs() {
    let pairs = vec![
        ("state".to_string(), "s".to_string()),
        ("code".to_string(), "one".to_string()),
        ("code".to_string(), "two".to_string()),
    ];
    assert_eq!(find_code(&pairs), Some("one".to_string()));
    assert_eq!(find_code(&Vec::new()), None);
    assert_eq!(find_code(&vec![("Code".to_string(), "x".to_string())]), None);
    assert_eq!(code_from_query(Ok(pairs)).unwrap(), "one");
    assert!(matches!(code_from_query(Ok(Vec::new())), Err(SpotifyError::AuthorizationError(_))));
    assert!(matches!(
        code_from_query(Err("invalid port number".to_string())),
        Err(SpotifyError::UrlParseError(m)) if m == "invalid port number"
    ));
}

#[test]
fn target_of_a_request_line() {
    assert_eq!(
        redirect_target("GET /callback?code=abc123&state=xyz HTTP/1.1\r\n").unwrap(),
        "/callback?code=abc123&state=xyz"
    );
    match redirect_target("GET\r\n") {
        Err(SpotifyError::AuthorizationError(m)) => assert_eq!(m, "invalid request"),
        _ => panic!("an AuthorizationError was expected"),
    }
    assert!(matches!(redirect_target(""), Err(SpotifyError::AuthorizationError(_))));
}

#[test]
fn exchange_request_is_a_form_under_basic_credentials() {
    let r = exchange_request("id", "secret", "abc123");
    assert_eq!(r.url, "https://accounts.spotify.com/api/token");
    assert_eq!(r.headers, vec![("Authorization".to_string(), "Basic aWQ6c2VjcmV0".to_string())]);
    assert_eq!(r.body, "");
    assert_eq!(
        r.form,
        vec![
            ("grant_type".to_string(), "authorization_code".to_string()),
            ("code".to_string(), "abc123".to_string()),
            ("redirect_uri".to_string(), "http://localhost:8888/callback".to_string()),
        ]
    );
    assert_eq!(TOKEN_TIMEOUT_SECS, 30);
}

#[test]
fn verdicts_of_the_exchange() {
    assert_eq!(
        exchange_verdict(ExchangeOutcome::Answered { status: 200, body: "{}".to_string() }).unwrap(),
        "{}"
    );
    assert!(matches!(
        exchange_verdict(ExchangeOutcome::Answered { status: 400, body: "{}".to_string() }),
        Err(SpotifyError::ApiError(m)) if m == "getting the access token failed: 400"
    ));
    assert!(matches!(
        exchange_verdict(ExchangeOutcome::TimedOut),
        Err(SpotifyError::ApiError(m)) if m == "the token request timed out"
    ));
    assert!(matches!(
        exchange_verdict(ExchangeOutcome::Failed("reset".to_string())),
        Err(SpotifyError::RequestError(m)) if m == "reset"
    ));
}

#[test]
fn a_new_session_has_not_started() {
    let s = session();
    assert_eq!(s.stage(), Stage::NotStarted);
    assert!(matches!(s.status(), AuthStatus::NotStarted));
    assert!(!s.is_listening());
    assert_eq!(s.accepted(), 0);
    assert!(s.failure().is_none());
    // Nothing is awaited before the beginning.
    let (s, a) = s.step(AuthEvent::Done(Ok(())));
    assert!(matches!(a, AuthAction::Idle));
    assert_eq!(s.stage(), Stage::NotStarted);
}

#[test]
fn the_flow_runs_to_completion() {
    let (s, a) = session().begin();
    match a {
        AuthAction::OpenBrowser(url) => assert!(url.starts_with("https://accounts.spotify.com/authorize?client_id=my-client&")),
        _ => panic!("the browser was to be opened"),
    }
    assert!(matches!(s.status(), AuthStatus::WaitingForBrowser));
    assert!(!s.is_listening());

    let (s, a) = s.step(AuthEvent::Done(Ok(())));
    match a {
        AuthAction::Listen(address) => {
            assert_eq!(address, "127.0.0.1:8888");
            assert_eq!(address, LISTEN_ADDRESS);
        }
        _ => panic!("the listener was to be bound"),
    }
    assert!(!s.is_listening());

    let (s, a) = s.step(AuthEvent::Done(Ok(())));
    assert!(matches!(a, AuthAction::Accept));
    assert!(s.is_listening());
    assert_eq!(s.accepted(), 0);
    assert!(matches!(s.status(), AuthStatus::WaitingForBrowser));

    let (s, a) = s.step(AuthEvent::RequestLine(Ok(
        "GET /callback?code=abc123&state=xyz HTTP/1.1\r\n".to_string(),
    )));
    match a {
        AuthAction::Respond(answer) => {
            assert!(answer.starts_with("HTTP/1.1 200 OK\r\n"));
            assert!(answer.contains("<html>"));
        }
        _ => panic!("the browser was to be answered"),
    }
    assert_eq!(s.accepted(), 1);
    assert!(s.is_listening());
    assert!(matches!(s.status(), AuthStatus::WaitingForBrowser));

    let (s, a) = s.step(AuthEvent::Done(Ok(())));
    match a {
        AuthAction::Exchange(request, seconds) => {
            assert_eq!(seconds, 30);
            assert_eq!(request.url, "https://accounts.spotify.com/api/token");
            assert_eq!(request.form[1], ("code".to_string(), "abc123".to_string()));
            assert_eq!(
                request.headers,
                vec![("Authorization".to_string(), "Basic bXktY2xpZW50Om15LXNlY3JldA==".to_string())]
            );
        }
        _ => panic!("the code was to be exchanged"),
    }
    assert!(!s.is_listening());
    assert!(matches!(s.status(), AuthStatus::Processing));

    let (s, a) = s.step(AuthEvent::Exchanged(ExchangeOutcome::Answered {
        status: 200,
        body: "{\"access_token\":\"t\"}".to_string(),
    }));
    assert!(matches!(a, AuthAction::ParseToken(body) if body == "{\"access_token\":\"t\"}"));
    assert!(matches!(s.status(), AuthStatus::Processing));

    let (s, a) = s.step(AuthEvent::Done(Ok(())));
    assert!(matches!(a, AuthAction::BuildClient));
    assert!(matches!(s.status(), AuthStatus::TokenObtained));

    let (s, a) = s.step(AuthEvent::Done(Ok(())));
    assert!(matches!(a, AuthAction::Stop));
    assert!(matches!(s.status(), AuthStatus::Completed));
    assert!(s.status().is_terminal());
    assert!(!s.is_listening());
    assert_eq!(s.accepted(), 1);
    assert!(s.failure().is_none());

    // A finished attempt takes no further step.
    let (s, a) = s.step(AuthEvent::RequestLine(Ok("GET /again HTTP/1.1".to_string())));
    assert!(matches!(a, AuthAction::Idle));
    assert_eq!(s.accepted(), 1);
    assert_eq!(s.stage(), Stage::Completed);
}

#[test]
fn refused_exchange_fails_and_releases_the_listener() {
    let (s, a) = until_exchange("GET /callback?code=abc123&state=xyz HTTP/1.1");
    assert!(matches!(a, AuthAction::Exchange(_, 30)));
    let (s, a) = s.step(AuthEvent::Exchanged(ExchangeOutcome::Answered {
        status: 400,
        body: "{\"error\":\"invalid_grant\"}".to_string(),
    }));
    assert!(matches!(a, AuthAction::Stop));
    assert_eq!(s.stage(), Stage::Failed);
    assert!(matches!(s.failure(), Some(SpotifyError::ApiError(m)) if m == "getting the access token failed: 400"));
    match s.status() {
        AuthStatus::Failed(reason) => {
            assert_eq!(reason, "Spotify API error: getting the access token failed: 400")
        }
        _ => panic!("the attempt was to fail"),
    }
    assert!(!s.is_listening());

    // The port is free again: a new attempt begins from nothing.
    let (s, a) = s.begin();
    assert!(matches!(a, AuthAction::OpenBrowser(_)));
    assert_eq!(s.stage(), Stage::OpeningBrowser);
    assert_eq!(s.accepted(), 0);
    assert!(s.failure().is_none());
    let (s, _) = s.step(AuthEvent::Done(Ok(())));
    let (s, a) = s.step(AuthEvent::Done(Ok(())));
    assert!(matches!(a, AuthAction::Accept));
    assert!(s.is_listening());
}

#[test]
fn redirect_without_code_fails_the_flow() {
    let (s, a) = until_exchange("GET /callback?error=access_denied HTTP/1.1");
    assert!(matches!(a, AuthAction::Stop));
    assert!(matches!(s.failure(), Some(SpotifyError::AuthorizationError(_))));
    match s.status() {
        AuthStatus::Failed(reason) => assert_eq!(
            reason,
            "authorization error: the callback URL holds no authorization code"
        ),
        _ => panic!("the attempt was to fail"),
    }
    assert!(!s.is_listening());
}

#[test]
fn every_step_can_fail() {
    // The browser cannot be opened.
    let (s, _) = session().begin();
    let (s, a) = s.step(AuthEvent::Done(Err("no browser".to_string())));
    assert!(matches!(a, AuthAction::Stop));
    assert!(matches!(s.failure(), Some(SpotifyError::IoError(m)) if m == "no browser"));

    // The port is taken.
    let (s, _) = session().begin();
    let (s, _) = s.step(AuthEvent::Done(Ok(())));
    let (s, a) = s.step(AuthEvent::Done(Err("address in use".to_string())));
    assert!(matches!(a, AuthAction::Stop));
    assert!(matches!(s.failure(), Some(SpotifyError::IoError(m)) if m == "address in use"));
    assert!(!s.is_listening());

    // The connection cannot be read.
    let (s, _) = session().begin();
    let (s, _) = s.step(AuthEvent::Done(Ok(())));
    let (s, _) = s.step(AuthEvent::Done(Ok(())));
    let (s, a) = s.step(AuthEvent::RequestLine(Err("reset".to_string())));
    assert!(matches!(a, AuthAction::Stop));
    assert!(matches!(s.failure(), Some(SpotifyError::IoError(_))));
    assert!(!s.is_listening());
    assert_eq!(s.accepted(), 0);

    // The request line names no target.
    let (s, _) = session().begin();
    let (s, _) = s.step(AuthEvent::Done(Ok(())));
    let (s, _) = s.step(AuthEvent::Done(Ok(())));
    let (s, a) = s.step(AuthEvent::RequestLine(Ok("GET".to_string())));
    assert!(matches!(a, AuthAction::Stop));
    assert!(matches!(s.failure(), Some(SpotifyError::AuthorizationError(m)) if m == "invalid request"));
    assert!(!s.is_listening());
    assert_eq!(s.accepted(), 1);

    // The answer cannot be written.
    let (s, _) = session().begin();
    let (s, _) = s.step(AuthEvent::Done(Ok(())));
    let (s, _) = s.step(AuthEvent::Done(Ok(())));
    let (s, _) = s.step(AuthEvent::RequestLine(Ok("GET /callback?code=1 HTTP/1.1".to_string())));
    let (s, a) = s.step(AuthEvent::Done(Err("broken pipe".to_string())));
    assert!(matches!(a, AuthAction::Stop));
    assert!(matches!(s.failure(), Some(SpotifyError::IoError(_))));
    assert!(!s.is_listening());

    // The exchange times out, or does not get through.
    let (s, _) = until_exchange("GET /callback?code=1 HTTP/1.1");
    let (s, a) = s.step(AuthEvent::Exchanged(ExchangeOutcome::TimedOut));
    assert!(matches!(a, AuthAction::Stop));
    assert!(matches!(s.failure(), Some(SpotifyError::ApiError(m)) if m == "the token request timed out"));
    let (s, _) = until_exchange("GET /callback?code=1 HTTP/1.1");
    let (s, _) = s.step(AuthEvent::Exchanged(ExchangeOutcome::Failed("dns".to_string())));
    assert!(matches!(s.failure(), Some(SpotifyError::RequestError(m)) if m == "dns"));

    // The token cannot be read, or the client cannot be kept.
    let (s, _) = until_exchange("GET /callback?code=1 HTTP/1.1");
    let (s, _) = s.step(AuthEvent::Exchanged(ExchangeOutcome::Answered { status: 200, body: "x".to_string() }));
    let (s, a) = s.step(AuthEvent::Done(Err("expected value".to_string())));
    assert!(matches!(a, AuthAction::Stop));
    assert!(matches!(s.failure(), Some(SpotifyError::JsonError(m)) if m == "expected value"));
    assert!(matches!(s.status(), AuthStatus::Failed(r) if r == "JSON parse error: expected value"));
    let (s, _) = until_exchange("GET /callback?code=1 HTTP/1.1");
    let (s, _) = s.step(AuthEvent::Exchanged(ExchangeOutcome::Answered { status: 200, body: "x".to_string() }));
    let (s, _) = s.step(AuthEvent::Done(Ok(())));
    let (s, a) = s.step(AuthEvent::Done(Err("poisoned".to_string())));
    assert!(matches!(a, AuthAction::Stop));
    assert!(matches!(s.failure(), Some(SpotifyError::IoError(_))));
    assert!(s.status().is_terminal());
}

#[test]
fn events_out_of_turn_change_nothing() {
    let (s, _) = session().begin();
    let (s, a) = s.step(AuthEvent::RequestLine(Ok("GET /x HTTP/1.1".to_string())));
    assert!(matches!(a, AuthAction::Idle));
    assert_eq!(s.stage(), Stage::OpeningBrowser);
    let (s, a) = s.step(AuthEvent::Exchanged(ExchangeOutcome::TimedOut));
    assert!(matches!(a, AuthAction::Idle));
    assert_eq!(s.stage(), Stage::OpeningBrowser);
    // An attempt under way is not begun again.
    let (s, a) = s.begin();
    assert!(matches!(a, AuthAction::Idle));
    assert_eq!(s.stage(), Stage::OpeningBrowser);
}
