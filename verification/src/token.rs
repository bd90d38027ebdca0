//! Client-credentials tokens: what is asked of a provider's token endpoint and
//! what is made of its answer.

use vstd::prelude::*;
use vstd::string::*;
use crate::bindings::{base64_encode, base64_text, json_member, json_string_member, pairs_view};
use crate::text::{decimal, decimal_u32};

verus! {

/// The two catalogs that issue tokens.
#[derive(Clone, Copy, Debug, PartialEq, Eq, Structural)]
pub enum Provider {
    /// The track catalog.
    Spotify,
    /// The beatmap catalog.
    Osu,
}

/// A bearer token together with the provider that issued it.
#[derive(Debug)]
pub struct Token {
    provider: Provider,
    secret: String,
}

impl Token {
    /// The provider that issued the token.
    pub closed spec fn issuer(&self) -> Provider {
        self.provider
    }

    /// The bearer string.
    pub closed spec fn text(&self) -> Seq<char> {
        self.secret@
    }

    /// The token `secret`, issued by `provider`.
    pub fn new(provider: Provider, secret: String) -> (t: Token)
        ensures
            t.issuer() == provider,
            t.text() == secret@,
    {
        Token { provider, secret }
    }

    /// The provider that issued the token.
    pub fn provider(&self) -> (p: Provider)
        ensures
            p == self.issuer(),
    {
        self.provider
    }

    /// The `Authorization` header that carries the token to `provider`. There
    /// is none for a provider that did not issue it.
    pub fn bearer_for(&self, provider: Provider) -> (header: Option<String>)
        ensures
            match header {
                Some(h) => provider == self.issuer() && h@ == bearer(self.text()),
                None => provider != self.issuer(),
            },
    {
        if self.provider == provider {
            let mut h = String::from_str("Bearer ");
            h.append(self.secret.as_str());
            Some(h)
        } else {
            None
        }
    }

    /// A copy of the token.
    pub fn duplicate(&self) -> (t: Token)
        ensures
            t.issuer() == self.issuer(),
            t.text() == self.text(),
    {
        Token { provider: self.provider, secret: self.secret.clone() }
    }
}

/// A token as plain values.
pub struct TokenView {
    pub issuer: Provider,
    pub text: Seq<char>,
}

impl View for Token {
    type V = TokenView;

    open spec fn view(&self) -> TokenView {
        TokenView { issuer: self.issuer(), text: self.text() }
    }
}

/// The `Authorization` header that carries a bearer token.
pub open spec fn bearer(text: Seq<char>) -> Seq<char> {
    "Bearer "@ + text
}

/// Why no token was obtained.
#[derive(Debug)]
pub enum AuthError {
    /// The endpoint answered with a status that is no success; with the
    /// status and the body of the answer.
    TokenRejected(u16, String),
    /// The request did not get through; with the cause.
    Transport(String),
    /// The answer was not the document that was expected; with the cause.
    Decode(String),
    /// The client's credentials could not be had; with the cause.
    Config(String),
}

/// Why no token was obtained, as plain values.
pub enum AuthErrorView {
    TokenRejected(u16, Seq<char>),
    Transport(Seq<char>),
    Decode(Seq<char>),
    Config(Seq<char>),
}

impl AuthErrorView {
    /// The failure in words: its kind, then what it carries.
    pub open spec fn words(self) -> Seq<char> {
        match self {
            AuthErrorView::TokenRejected(status, body) => "the token was refused with status "@
                + decimal(status as nat) + ": "@ + body,
            AuthErrorView::Transport(cause) => "the token request did not get through: "@ + cause,
            AuthErrorView::Decode(cause) => "the token answer cannot be read: "@ + cause,
            AuthErrorView::Config(cause) => "the credentials cannot be read: "@ + cause,
        }
    }
}

impl View for AuthError {
    type V = AuthErrorView;

    open spec fn view(&self) -> AuthErrorView {
        match self {
            AuthError::TokenRejected(status, body) => AuthErrorView::TokenRejected(*status, body@),
            AuthError::Transport(cause) => AuthErrorView::Transport(cause@),
            AuthError::Decode(cause) => AuthErrorView::Decode(cause@),
            AuthError::Config(cause) => AuthErrorView::Config(cause@),
        }
    }
}

impl AuthError {
    /// The failure in words: its kind, then what it carries.
    pub fn describe(&self) -> (r: String)
        ensures
            r@ == self@.words(),
    {
        match self {
            AuthError::TokenRejected(status, body) => {
                let mut r = String::from_str("the token was refused with status ");
                r.append(decimal_u32(*status as u32).as_str());
                r.append(": ");
                r.append(body.as_str());
                r
            },
            AuthError::Transport(cause) => {
                let mut r = String::from_str("the token request did not get through: ");
                r.append(cause.as_str());
                r
            },
            AuthError::Decode(cause) => {
                let mut r = String::from_str("the token answer cannot be read: ");
                r.append(cause.as_str());
                r
            },
            AuthError::Config(cause) => {
                let mut r = String::from_str("the credentials cannot be read: ");
                r.append(cause.as_str());
                r
            },
        }
    }
}

/// A `POST` to a token endpoint, ready to be sent.
pub struct TokenRequest {
    pub url: String,
    pub headers: Vec<(String, String)>,
    pub body: String,
    pub form: Vec<(String, String)>,
}

/// A request as plain sequences.
pub struct RequestView {
    pub url: Seq<char>,
    pub headers: Seq<(Seq<char>, Seq<char>)>,
    pub body: Seq<char>,
    pub form: Seq<(Seq<char>, Seq<char>)>,
}

impl View for TokenRequest {
    type V = RequestView;

    open spec fn view(&self) -> RequestView {
        RequestView {
            url: self.url@,
            headers: pairs_view(self.headers),
            body: self.body@,
            form: pairs_view(self.form),
        }
    }
}

/// What came of sending a request.
pub enum HttpOutcome {
    /// No answer came; with the cause.
    Failed(String),
    /// The server answered.
    Answered { status: u16, body: String },
}

/// The body of every client-credentials request.
pub const CLIENT_CREDENTIALS_BODY: &'static str = "grant_type=client_credentials";

/// What is said when an answer holds no token.
pub const NO_ACCESS_TOKEN: &'static str = "the answer holds no access_token";

/// The value of a `Basic` authorization header for the pair of `id` and
/// `secret`.
pub open spec fn basic_value(id: Seq<char>, secret: Seq<char>) -> Seq<char> {
    "Basic "@ + base64_text(id + ":"@ + secret)
}

/// The value of a `Basic` authorization header around credentials that are
/// encoded already.
pub fn basic_header(encoded: &str) -> (header: String)
    ensures
        header@ == "Basic "@ + encoded@,
{
    let mut header = String::from_str("Basic ");
    header.append(encoded);
    header
}

/// The `Basic` authorization header for the pair of `id` and `secret`.
pub fn basic_credentials(id: &str, secret: &str) -> (header: String)
    ensures
        header@ == basic_value(id@, secret@),
{
    let mut pair = String::from_str(id);
    pair.append(":");
    pair.append(secret);
    basic_header(base64_encode(pair.as_str()).as_str())
}

/// The request that `client_credentials_request` makes.
pub open spec fn basic_request(endpoint: Seq<char>, id: Seq<char>, secret: Seq<char>) -> RequestView {
    RequestView {
        url: endpoint,
        headers: seq![
            ("Authorization"@, basic_value(id, secret)),
            ("Content-Type"@, "application/x-www-form-urlencoded"@),
        ],
        body: CLIENT_CREDENTIALS_BODY@,
        form: Seq::empty(),
    }
}

/// The request that `form_credentials_request` makes.
pub open spec fn form_request(
    endpoint: Seq<char>,
    id: Seq<char>,
    secret: Seq<char>,
    scope: Seq<char>,
) -> RequestView {
    RequestView {
        url: endpoint,
        headers: Seq::empty(),
        body: Seq::empty(),
        form: seq![
            ("client_id"@, id),
            ("client_secret"@, secret),
            ("grant_type"@, "client_credentials"@),
            ("scope"@, scope),
        ],
    }
}

/// The request for a token that names the client in a `Basic` authorization
/// header.
pub fn client_credentials_request(endpoint: &str, client_id: &str, client_secret: &str) -> (r:
    TokenRequest)
    ensures
        r@ == basic_request(endpoint@, client_id@, client_secret@),
{
    let mut headers: Vec<(String, String)> = Vec::new();
    headers.push((String::from_str("Authorization"), basic_credentials(client_id, client_secret)));
    headers.push(
        (String::from_str("Content-Type"), String::from_str("application/x-www-form-urlencoded")),
    );
    assert(pairs_view(headers) =~= seq![
        ("Authorization"@, basic_value(client_id@, client_secret@)),
        ("Content-Type"@, "application/x-www-form-urlencoded"@),
    ]);
    let form: Vec<(String, String)> = Vec::new();
    assert(pairs_view(form) =~= Seq::empty());
    TokenRequest {
        url: String::from_str(endpoint),
        headers,
        body: String::from_str(CLIENT_CREDENTIALS_BODY),
        form,
    }
}

/// The request for a token that names the client in the fields of a form,
/// with the scope that is asked for.
pub fn form_credentials_request(
    endpoint: &str,
    client_id: &str,
    client_secret: &str,
    scope: &str,
) -> (r: TokenRequest)
    ensures
        r@ == form_request(endpoint@, client_id@, client_secret@, scope@),
{
    let mut form: Vec<(String, String)> = Vec::new();
    form.push((String::from_str("client_id"), String::from_str(client_id)));
    form.push((String::from_str("client_secret"), String::from_str(client_secret)));
    form.push((String::from_str("grant_type"), String::from_str("client_credentials")));
    form.push((String::from_str("scope"), String::from_str(scope)));
    assert(pairs_view(form) =~= seq![
        ("client_id"@, client_id@),
        ("client_secret"@, client_secret@),
        ("grant_type"@, "client_credentials"@),
        ("scope"@, scope@),
    ]);
    let headers: Vec<(String, String)> = Vec::new();
    assert(pairs_view(headers) =~= Seq::empty());
    TokenRequest { url: String::from_str(endpoint), headers, body: String::new(), form }
}

/// Whether `status` is one of the successes, 200 to 299.
pub open spec fn is_success(status: u16) -> bool {
    200 <= status <= 299
}

/// Whether `status` is a success.
pub fn status_is_success(status: u16) -> (b: bool)
    ensures
        b == is_success(status),
{
    200 <= status && status <= 299
}

/// The token that a successful answer yields, given what was read under
/// `access_token` in its body: the string found there, or a `Decode` error
/// when the body is no document or holds no such string.
pub fn token_from_member(provider: Provider, member: Result<Option<String>, String>) -> (r: Result<
    Token,
    AuthError,
>)
    ensures
        match member {
            Ok(Some(secret)) => r matches Ok(t) && t.issuer() == provider && t.text() == secret@,
            Ok(None) => r matches Err(AuthError::Decode(m)) && m@ == NO_ACCESS_TOKEN@,
            Err(cause) => r matches Err(AuthError::Decode(m)) && m@ == cause@,
        },
{
    match member {
        Ok(Some(secret)) => Ok(Token::new(provider, secret)),
        Ok(None) => Err(AuthError::Decode(String::from_str(NO_ACCESS_TOKEN))),
        Err(cause) => Err(AuthError::Decode(cause)),
    }
}

/// What the outcome of a token request is worth to the caller.
/// - No answer: a `Transport` error with the cause.
/// - An answer whose status is no success: `TokenRejected` with the status
///   and the body.
/// - A successful answer: the string under `access_token` in its body, as a
///   token of `provider`; a `Decode` error when it cannot be read.
pub fn token_from_outcome(provider: Provider, outcome: HttpOutcome) -> (r: Result<Token, AuthError>)
    ensures
        match outcome {
            HttpOutcome::Failed(cause) => r matches Err(AuthError::Transport(m)) && m@ == cause@,
            HttpOutcome::Answered { status, body } => if !is_success(status) {
                r matches Err(AuthError::TokenRejected(s, b)) && s == status && b@ == body@
            } else {
                match json_string_member(body@, "access_token"@) {
                    Ok(Some(secret)) => r matches Ok(t) && t.issuer() == provider && t.text()
                        == secret,
                    Ok(None) => r matches Err(AuthError::Decode(m)) && m@ == NO_ACCESS_TOKEN@,
                    Err(cause) => r matches Err(AuthError::Decode(m)) && m@ == cause,
                }
            },
        },
{
    match outcome {
        HttpOutcome::Failed(cause) => Err(AuthError::Transport(cause)),
        HttpOutcome::Answered { status, body } => {
            if !status_is_success(status) {
                Err(AuthError::TokenRejected(status, body))
            } else {
                token_from_member(provider, json_member(body.as_str(), "access_token"))
            }
        },
    }
}

} // verus!
