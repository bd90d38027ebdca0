use music_link::token::{
    basic_credentials, client_credentials_request, form_credentials_request, status_is_success,
    token_from_member, token_from_outcome, AuthError, HttpOutcome, Provider, Token,
};

#[test]
fn basic_credentials_are_base64_of_id_and_secret() {
    assert_eq!(basic_credentials("id", "secret"), "Basic aWQ6c2VjcmV0");
    assert_eq!(basic_credentials("", ""), "Basic Og==");
    assert_eq!(basic_credentials("Aladdin", "open sesame"), "Basic QWxhZGRpbjpvcGVuIHNlc2FtZQ==");
}

#[test]
fn request_with_basic_credentials() {
    let r = client_credentials_request("https://accounts.spotify.com/api/token", "id", "secret");
    assert_eq!(r.url, "https://accounts.spotify.com/api/token");
    assert_eq!(
        r.headers,
        vec![
            ("Authorization".to_string(), "Basic aWQ6c2VjcmV0".to_string()),
            ("Content-Type".to_string(), "application/x-www-form-urlencoded".to_string()),
        ]
    );
    assert_eq!(r.body, "grant_type=client_credentials");
    assert!(r.form.is_empty());
}

#[test]
fn request_with_form_credentials() {
    let r = form_credentials_request("https://osu.ppy.sh/oauth/token", "7", "s3", "public");
    assert_eq!(r.url, "https://osu.ppy.sh/oauth/token");
    assert!(r.headers.is_empty());
    assert_eq!(r.body, "");
    assert_eq!(
        r.form,
        vec![
            ("client_id".to_string(), "7".to_string()),
            ("client_secret".to_string(), "s3".to_string()),
            ("grant_type".to_string(), "client_credentials".to_string()),
            ("scope".to_string(), "public".to_string()),
        ]
    );
}

#[test]
fn successes_are_200_to_299() {
    assert!(!status_is_success(199));
    assert!(status_is_success(200));
    assert!(status_is_success(204));
    assert!(status_is_success(299));
    assert!(!status_is_success(300));
    assert!(!status_is_success(404));
    assert!(!status_is_success(0));
}

#[test]
fn token_of_a_successful_answer() {
    let outcome = HttpOutcome::Answered {
        status: 200,
        body: "{\"access_token\":\"BQD-123\",\"token_type\":\"Bearer\",\"expires_in\":3600}".to_string(),
    };
    let token = token_from_outcome(Provider::Spotify, outcome).unwrap();
    assert_eq!(token.provider(), Provider::Spotify);
    assert_eq!(token.bearer_for(Provider::Spotify), Some("Bearer BQD-123".to_string()));
}

#[test]
fn token_is_only_sent_to_its_issuer() {
    let token = Token::new(Provider::Osu, "abc".to_string());
    assert_eq!(token.bearer_for(Provider::Spotify), None);
    assert_eq!(token.bearer_for(Provider::Osu), Some("Bearer abc".to_string()));
    let copy = token.duplicate();
    assert_eq!(copy.provider(), Provider::Osu);
    assert_eq!(copy.bearer_for(Provider::Osu), Some("Bearer abc".to_string()));
}

#[test]
fn refused_request_is_token_rejected() {
    let outcome = HttpOutcome::Answered { status: 400, body: "{\"error\":\"invalid_client\"}".to_string() };
    match token_from_outcome(Provider::Spotify, outcome) {
        Err(AuthError::TokenRejected(status, body)) => {
            assert_eq!(status, 400);
            assert_eq!(body, "{\"error\":\"invalid_client\"}");
        }
        _ => panic!("TokenRejected was expected"),
    }
    // A refusal is told by the status alone, whatever the body holds.
    let outcome = HttpOutcome::Answered { status: 500, body: "{\"access_token\":\"x\"}".to_string() };
    assert!(matches!(
        token_from_outcome(Provider::Osu, outcome),
        Err(AuthError::TokenRejected(500, _))
    ));
}

#[test]
fn lost_request_is_a_transport_error() {
    match token_from_outcome(Provider::Osu, HttpOutcome::Failed("connection refused".to_string())) {
        Err(AuthError::Transport(cause)) => assert_eq!(cause, "connection refused"),
        _ => panic!("Transport was expected"),
    }
}

#[test]
fn unreadable_answer_is_a_decode_error() {
    let not_json = HttpOutcome::Answered { status: 200, body: "<html>".to_string() };
    assert!(matches!(token_from_outcome(Provider::Spotify, not_json), Err(AuthError::Decode(_))));
    let no_member = HttpOutcome::Answered { status: 200, body: "{\"token\":\"x\"}".to_string() };
    match token_from_outcome(Provider::Spotify, no_member) {
        Err(AuthError::Decode(m)) => assert_eq!(m, "the answer holds no access_token"),
        _ => panic!("Decode was expected"),
    }
    let not_a_string = HttpOutcome::Answered { status: 200, body: "{\"access_token\":5}".to_string() };
    assert!(matches!(token_from_outcome(Provider::Spotify, not_a_string), Err(AuthError::Decode(_))));
    let not_an_object = HttpOutcome::Answered { status: 200, body: "[1,2]".to_string() };
    assert!(matches!(token_from_outcome(Provider::Spotify, not_an_object), Err(AuthError::Decode(_))));
}

#[test]
fn token_from_what_was_read() {
    let t = token_from_member(Provider::Osu, Ok(Some("abc".to_string()))).unwrap();
    assert_eq!(t.bearer_for(Provider::Osu), Some("Bearer abc".to_string()));
    assert!(matches!(
        token_from_member(Provider::Osu, Ok(None)),
        Err(AuthError::Decode(m)) if m == "the answer holds no access_token"
    ));
    assert!(matches!(
        token_from_member(Provider::Osu, Err("EOF".to_string())),
        Err(AuthError::Decode(m)) if m == "EOF"
    ));
}

#[test]
fn basic_header_around_encoded_credentials() {
    assert_eq!(music_link::token::basic_header("aWQ6c2VjcmV0"), "Basic aWQ6c2VjcmV0");
    assert_eq!(music_link::token::basic_header(""), "Basic ");
}

#[test]
fn token_failures_in_words() {
    assert_eq!(
        AuthError::TokenRejected(400, "bad".to_string()).describe(),
        "the token was refused with status 400: bad"
    );
    assert_eq!(
        AuthError::Transport("dns".to_string()).describe(),
        "the token request did not get through: dns"
    );
    assert_eq!(
        AuthError::Decode("eof".to_string()).describe(),
        "the token answer cannot be read: eof"
    );
    assert_eq!(
        AuthError::Config("no file".to_string()).describe(),
        "the credentials cannot be read: no file"
    );
}
