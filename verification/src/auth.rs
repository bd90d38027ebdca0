//! The authorization-code exchange over a loopback redirect: what is opened,
//! bound, read and sent at each step, and what each outcome leads to.

use vstd::prelude::*;
use vstd::string::*;
use crate::bindings::{append_query, pairs_view, query_pairs, url_query_pairs, url_with_query};
use crate::spotify::{AuthStatus, AuthStatusView, SpotifyError};
use crate::text::{decimal, decimal_u32, lacks, lemma_lacks, second_word, take_second_word};
use crate::token::{
    basic_credentials, basic_value, is_success, status_is_success, RequestView, TokenRequest,
};

verus! {

/// Where consent is asked for.
pub const AUTHORIZE_URL: &'static str = "https://accounts.spotify.com/authorize";

/// Where an authorization code is exchanged for a token.
pub const TOKEN_URL: &'static str = "https://accounts.spotify.com/api/token";

/// Where the provider sends the browser back to.
pub const REDIRECT_URI: &'static str = "http://localhost:8888/callback";

/// The address on which the redirect is awaited.
pub const LISTEN_ADDRESS: &'static str = "127.0.0.1:8888";

/// What is asked of the listener's account.
pub const SCOPE: &'static str = "user-read-currently-playing";

/// How many seconds the exchange of the code may take.
pub const TOKEN_TIMEOUT_SECS: u64 = 30;

/// What the browser is answered once the redirect has arrived.
pub const SUCCESS_RESPONSE: &'static str =
    "HTTP/1.1 200 OK\r\nContent-Type: text/html; charset=UTF-8\r\n\r\n<html><body>Authorization succeeded. You may close this window.</body></html>";

/// What is said of a request line that names no target.
pub const INVALID_REQUEST: &'static str = "invalid request";

/// What is said of a redirect that brings no code.
pub const NO_CODE: &'static str = "the callback URL holds no authorization code";

/// What is said when the exchange took too long.
pub const TIMED_OUT: &'static str = "the token request timed out";

/// How the report of a refused exchange begins.
pub const EXCHANGE_REFUSED: &'static str = "getting the access token failed: ";

/// The query of the consent URL for the client `client_id`.
pub open spec fn consent_query(client_id: Seq<char>) -> Seq<(Seq<char>, Seq<char>)> {
    seq![
        ("client_id"@, client_id),
        ("response_type"@, "code"@),
        ("redirect_uri"@, REDIRECT_URI@),
        ("scope"@, SCOPE@),
        ("show_dialog"@, "true"@),
    ]
}

/// The pairs of the consent URL's query, in order.
pub fn consent_pairs(client_id: &str) -> (pairs: Vec<(String, String)>)
    ensures
        pairs_view(pairs) == consent_query(client_id@),
{
    let mut pairs: Vec<(String, String)> = Vec::new();
    pairs.push((String::from_str("client_id"), String::from_str(client_id)));
    pairs.push((String::from_str("response_type"), String::from_str("code")));
    pairs.push((String::from_str("redirect_uri"), String::from_str(REDIRECT_URI)));
    pairs.push((String::from_str("scope"), String::from_str(SCOPE)));
    pairs.push((String::from_str("show_dialog"), String::from_str("true")));
    assert(pairs_view(pairs) =~= consent_query(client_id@));
    pairs
}

/// The consent URL, given what came of building it: the URL, or a
/// `UrlParseError` with the builder's message.
pub fn consent_url_from(built: Result<String, String>) -> (r: Result<String, SpotifyError>)
    ensures
        match built {
            Ok(url) => r matches Ok(u) && u@ == url@,
            Err(cause) => r matches Err(SpotifyError::UrlParseError(m)) && m@ == cause@,
        },
{
    match built {
        Ok(url) => Ok(url),
        Err(cause) => Err(SpotifyError::UrlParseError(cause)),
    }
}

/// The URL that the browser is sent to: the provider's consent page, asked
/// for a code on behalf of `client_id`, with the loopback redirect, the scope
/// and the demand to show the dialog again.
pub fn consent_url(client_id: &str) -> (r: Result<String, SpotifyError>)
    ensures
        match url_with_query(AUTHORIZE_URL@, consent_query(client_id@)) {
            Ok(url) => r matches Ok(u) && u@ == url,
            Err(cause) => r matches Err(SpotifyError::UrlParseError(m)) && m@ == cause,
        },
{
    let pairs = consent_pairs(client_id);
    proof {
        reveal_strlit("https://accounts.spotify.com/authorize");
        assert(lacks(AUTHORIZE_URL@, '#', 38)) by {
            reveal_with_fuel(lacks, 40);
        }
        lemma_lacks(AUTHORIZE_URL@, '#', 38);
    }
    consent_url_from(append_query(AUTHORIZE_URL, &pairs))
}

/// The target of the request line `line`: its second word. A line without
/// one is an `AuthorizationError`.
pub fn redirect_target(line: &str) -> (r: Result<String, SpotifyError>)
    ensures
        match second_word(line@) {
            Some(target) => r matches Ok(t) && t@ == target,
            None => r matches Err(SpotifyError::AuthorizationError(m)) && m@ == INVALID_REQUEST@,
        },
{
    match take_second_word(line) {
        Some(target) => Ok(target),
        None => Err(SpotifyError::AuthorizationError(String::from_str(INVALID_REQUEST))),
    }
}

/// The value of the first pair at or after `i` that is named `code`.
pub open spec fn code_from(pairs: Seq<(Seq<char>, Seq<char>)>, i: int) -> Option<Seq<char>>
    decreases pairs.len() - i,
{
    if 0 <= i < pairs.len() {
        if pairs[i].0 == "code"@ {
            Some(pairs[i].1)
        } else {
            code_from(pairs, i + 1)
        }
    } else {
        None
    }
}

/// The value of the first pair named `code`.
pub open spec fn code_in(pairs: Seq<(Seq<char>, Seq<char>)>) -> Option<Seq<char>> {
    code_from(pairs, 0)
}

/// The authorization code among the pairs of a query: the value of the first
/// pair named `code`.
pub fn find_code(pairs: &Vec<(String, String)>) -> (r: Option<String>)
    ensures
        match r {
            Some(code) => code_in(pairs_view(*pairs)) == Some(code@),
            None => code_in(pairs_view(*pairs)) is None,
        },
{
    let name = String::from_str("code");
    let mut i: usize = 0;
    while i < pairs.len()
        invariant
            i <= pairs.len(),
            name@ == "code"@,
            code_in(pairs_view(*pairs)) == code_from(pairs_view(*pairs), i as int),
        decreases pairs.len() - i,
    {
        if pairs[i].0 == name {
            return Some(pairs[i].1.clone());
        }
        i += 1;
    }
    None
}

/// The code that a redirect brings, given what came of reading the query of
/// the callback URL. A URL that cannot be read is a `UrlParseError`; a query
/// without a code is an `AuthorizationError`.
pub fn code_from_query(query: Result<Vec<(String, String)>, String>) -> (r: Result<
    String,
    SpotifyError,
>)
    ensures
        match query {
            Ok(pairs) => match code_in(pairs_view(pairs)) {
                Some(code) => r matches Ok(c) && c@ == code,
                None => r matches Err(SpotifyError::AuthorizationError(m)) && m@ == NO_CODE@,
            },
            Err(cause) => r matches Err(SpotifyError::UrlParseError(m)) && m@ == cause@,
        },
{
    match query {
        Ok(pairs) => match find_code(&pairs) {
            Some(code) => Ok(code),
            None => Err(SpotifyError::AuthorizationError(String::from_str(NO_CODE))),
        },
        Err(cause) => Err(SpotifyError::UrlParseError(cause)),
    }
}

/// What `extract_code` answers for the redirect target `target`.
pub open spec fn code_of(target: Seq<char>) -> Result<Seq<char>, (Seq<char>, Seq<char>)> {
    match url_query_pairs(REDIRECT_URI@ + target) {
        Ok(pairs) => match code_in(pairs) {
            Some(code) => Ok(code),
            None => Err(("authorization error: "@, NO_CODE@)),
        },
        Err(cause) => Err(("URL parse error: "@, cause)),
    }
}

/// The authorization code in the redirect target `target`, which is the path
/// and query that the browser asked for. The target is read as part of the
/// callback URL; the code is the value of its first `code` parameter.
pub fn extract_code(target: &str) -> (r: Result<String, SpotifyError>)
    ensures
        match code_of(target@) {
            Ok(code) => r matches Ok(c) && c@ == code,
            Err((heading, detail)) => r matches Err(e) && e.heading() == heading && e.detail()
                == detail,
        },
{
    let mut url = String::from_str(REDIRECT_URI);
    url.append(target);
    code_from_query(query_pairs(url.as_str()))
}

/// The fields of the form that exchanges `code` for a token.
pub open spec fn exchange_form(code: Seq<char>) -> Seq<(Seq<char>, Seq<char>)> {
    seq![
        ("grant_type"@, "authorization_code"@),
        ("code"@, code),
        ("redirect_uri"@, REDIRECT_URI@),
    ]
}

/// The request that `exchange_request` makes.
pub open spec fn exchange_view(id: Seq<char>, secret: Seq<char>, code: Seq<char>) -> RequestView {
    RequestView {
        url: TOKEN_URL@,
        headers: seq![("Authorization"@, basic_value(id, secret))],
        body: Seq::empty(),
        form: exchange_form(code),
    }
}

/// The request that exchanges `code` for a token: a form sent to the token
/// endpoint under the client's `Basic` credentials.
pub fn exchange_request(client_id: &str, client_secret: &str, code: &str) -> (r: TokenRequest)
    ensures
        r@ == exchange_view(client_id@, client_secret@, code@),
{
    let mut headers: Vec<(String, String)> = Vec::new();
    headers.push((String::from_str("Authorization"), basic_credentials(client_id, client_secret)));
    assert(pairs_view(headers) =~= seq![
        ("Authorization"@, basic_value(client_id@, client_secret@)),
    ]);
    let mut form: Vec<(String, String)> = Vec::new();
    form.push((String::from_str("grant_type"), String::from_str("authorization_code")));
    form.push((String::from_str("code"), String::from_str(code)));
    form.push((String::from_str("redirect_uri"), String::from_str(REDIRECT_URI)));
    assert(pairs_view(form) =~= exchange_form(code@));
    TokenRequest { url: String::from_str(TOKEN_URL), headers, body: String::new(), form }
}

/// What came of the exchange.
pub enum ExchangeOutcome {
    /// No answer came within the time allowed.
    TimedOut,
    /// The request did not get through; with the cause.
    Failed(String),
    /// The endpoint answered.
    Answered { status: u16, body: String },
}

/// The body of a successful exchange, or the failure that the outcome means:
/// an `ApiError` for a timeout and for a status that is no success, a
/// `RequestError` for a request that did not get through.
pub fn exchange_verdict(outcome: ExchangeOutcome) -> (r: Result<String, SpotifyError>)
    ensures
        match outcome {
            ExchangeOutcome::TimedOut => r matches Err(SpotifyError::ApiError(m)) && m@
                == TIMED_OUT@,
            ExchangeOutcome::Failed(cause) => r matches Err(SpotifyError::RequestError(m)) && m@
                == cause@,
            ExchangeOutcome::Answered { status, body } => if is_success(status) {
                r matches Ok(b) && b@ == body@
            } else {
                r matches Err(SpotifyError::ApiError(m)) && m@ == EXCHANGE_REFUSED@ + decimal(
                    status as nat,
                )
            },
        },
{
    match outcome {
        ExchangeOutcome::TimedOut => Err(SpotifyError::ApiError(String::from_str(TIMED_OUT))),
        ExchangeOutcome::Failed(cause) => Err(SpotifyError::RequestError(cause)),
        ExchangeOutcome::Answered { status, body } => {
            if status_is_success(status) {
                Ok(body)
            } else {
                let mut m = String::from_str(EXCHANGE_REFUSED);
                m.append(decimal_u32(status as u32).as_str());
                Err(SpotifyError::ApiError(m))
            }
        },
    }
}

/// The steps of one authorization attempt, each named by what is awaited.
#[derive(Clone, Copy, Debug, PartialEq, Eq, Structural)]
pub enum Stage {
    NotStarted,
    /// The browser is being sent to the consent page.
    OpeningBrowser,
    /// The listener is being bound.
    Binding,
    /// The one connection is awaited.
    Accepting,
    /// The browser is being answered.
    Responding,
    /// The code is being exchanged.
    Exchanging,
    /// The token is being read from the answer.
    ParsingToken,
    /// The signed-in client is being made.
    BuildingClient,
    Completed,
    Failed,
}

/// What the outside world reports back after an action.
pub enum AuthEvent {
    /// The action ended, well or with the cause of its failure.
    Done(Result<(), String>),
    /// A connection was accepted and its first line read, or that failed.
    RequestLine(Result<String, String>),
    /// The exchange ended.
    Exchanged(ExchangeOutcome),
}

/// What is to be done next.
pub enum AuthAction {
    /// Nothing: the event was not awaited.
    Idle,
    /// Open this URL in the system's browser.
    OpenBrowser(String),
    /// Bind the listener to this address.
    Listen(String),
    /// Accept one connection and read its first line.
    Accept,
    /// Write this answer to the connection and close it.
    Respond(String),
    /// Send this request and wait for the answer no longer than the number
    /// of seconds given.
    Exchange(TokenRequest, u64),
    /// Read the token from this body.
    ParseToken(String),
    /// Make the signed-in client from the token.
    BuildClient,
    /// The attempt has ended.
    Stop,
}

/// What came of the exchange, as plain values.
pub enum ExchangeView {
    TimedOut,
    Failed(Seq<char>),
    Answered { status: u16, body: Seq<char> },
}

impl View for ExchangeOutcome {
    type V = ExchangeView;

    open spec fn view(&self) -> ExchangeView {
        match self {
            ExchangeOutcome::TimedOut => ExchangeView::TimedOut,
            ExchangeOutcome::Failed(cause) => ExchangeView::Failed(cause@),
            ExchangeOutcome::Answered { status, body } => ExchangeView::Answered {
                status: *status,
                body: body@,
            },
        }
    }
}

/// A report of the outside world, as plain values.
pub enum EventView {
    Done(Result<(), Seq<char>>),
    RequestLine(Result<Seq<char>, Seq<char>>),
    Exchanged(ExchangeView),
}

impl View for AuthEvent {
    type V = EventView;

    open spec fn view(&self) -> EventView {
        match self {
            AuthEvent::Done(Ok(_)) => EventView::Done(Ok(())),
            AuthEvent::Done(Err(cause)) => EventView::Done(Err(cause@)),
            AuthEvent::RequestLine(Ok(line)) => EventView::RequestLine(Ok(line@)),
            AuthEvent::RequestLine(Err(cause)) => EventView::RequestLine(Err(cause@)),
            AuthEvent::Exchanged(outcome) => EventView::Exchanged(outcome@),
        }
    }
}

/// What is to be done next, as plain values.
pub enum ActionView {
    Idle,
    OpenBrowser(Seq<char>),
    Listen(Seq<char>),
    Accept,
    Respond(Seq<char>),
    Exchange(RequestView, u64),
    ParseToken(Seq<char>),
    BuildClient,
    Stop,
}

impl View for AuthAction {
    type V = ActionView;

    open spec fn view(&self) -> ActionView {
        match self {
            AuthAction::Idle => ActionView::Idle,
            AuthAction::OpenBrowser(url) => ActionView::OpenBrowser(url@),
            AuthAction::Listen(address) => ActionView::Listen(address@),
            AuthAction::Accept => ActionView::Accept,
            AuthAction::Respond(answer) => ActionView::Respond(answer@),
            AuthAction::Exchange(request, seconds) => ActionView::Exchange(request@, *seconds),
            AuthAction::ParseToken(body) => ActionView::ParseToken(body@),
            AuthAction::BuildClient => ActionView::BuildClient,
            AuthAction::Stop => ActionView::Stop,
        }
    }
}

/// One authorization attempt as plain values.
pub struct SessionView {
    pub client_id: Seq<char>,
    pub client_secret: Seq<char>,
    pub stage: Stage,
    /// Whether the listener is bound.
    pub listening: bool,
    /// How many connections have been accepted.
    pub accepted: nat,
    /// The target that the browser asked for.
    pub target: Seq<char>,
    /// The kind and the message of the failure, once there is one.
    pub failure: Option<(Seq<char>, Seq<char>)>,
}

impl SessionView {
    /// What holds of every session: it has failed exactly when it holds a
    /// failure; the listener is bound only while the connection is awaited
    /// or answered; at most one connection is ever accepted, and none before
    /// the listener waits for it.
    pub open spec fn consistent(self) -> bool {
        &&& self.stage is Failed <==> self.failure is Some
        &&& self.listening ==> self.stage is Accepting || self.stage is Responding
        &&& self.accepted <= 1
        &&& (self.stage is NotStarted || self.stage is OpeningBrowser || self.stage is Binding
            || self.stage is Accepting) ==> self.accepted == 0
    }

    /// Whether an attempt is under way.
    pub open spec fn in_flight(self) -> bool {
        !(self.stage is NotStarted || self.stage is Completed || self.stage is Failed)
    }

    /// The status that is shown for the session.
    pub open spec fn status(self) -> AuthStatusView {
        match self.stage {
            Stage::NotStarted => AuthStatusView::NotStarted,
            Stage::OpeningBrowser => AuthStatusView::WaitingForBrowser,
            Stage::Binding => AuthStatusView::WaitingForBrowser,
            Stage::Accepting => AuthStatusView::WaitingForBrowser,
            Stage::Responding => AuthStatusView::WaitingForBrowser,
            Stage::Exchanging => AuthStatusView::Processing,
            Stage::ParsingToken => AuthStatusView::Processing,
            Stage::BuildingClient => AuthStatusView::TokenObtained,
            Stage::Completed => AuthStatusView::Completed,
            Stage::Failed => AuthStatusView::Failed(
                match self.failure {
                    Some((heading, detail)) => heading + detail,
                    None => Seq::empty(),
                },
            ),
        }
    }

    /// The session after it has failed for the reason given: the listener
    /// is released and nothing more is to be done.
    pub open spec fn failed(self, heading: Seq<char>, detail: Seq<char>) -> (SessionView, ActionView) {
        (
            SessionView {
                stage: Stage::Failed,
                listening: false,
                failure: Some((heading, detail)),
                ..self
            },
            ActionView::Stop,
        )
    }

    /// The session at `stage`, otherwise unchanged.
    pub open spec fn at(self, stage: Stage) -> SessionView {
        SessionView { stage, ..self }
    }

    /// The session that `begin` leaves, and what it asks for. An attempt
    /// under way is left alone. Otherwise a new attempt starts from nothing,
    /// and the browser is to be sent to the consent URL.
    pub open spec fn begun(self) -> (SessionView, ActionView) {
        if self.in_flight() {
            (self, ActionView::Idle)
        } else {
            let fresh = SessionView {
                stage: Stage::OpeningBrowser,
                listening: false,
                accepted: 0,
                target: Seq::empty(),
                failure: None,
                ..self
            };
            match url_with_query(AUTHORIZE_URL@, consent_query(self.client_id)) {
                Ok(url) => (fresh, ActionView::OpenBrowser(url)),
                Err(cause) => fresh.failed("URL parse error: "@, cause),
            }
        }
    }

    /// The session after `event`, and what is to be done next. An event that
    /// the stage does not await changes nothing.
    pub open spec fn next(self, event: EventView) -> (SessionView, ActionView) {
        match (self.stage, event) {
            (Stage::OpeningBrowser, EventView::Done(Ok(_))) => (
                self.at(Stage::Binding),
                ActionView::Listen(LISTEN_ADDRESS@),
            ),
            (Stage::OpeningBrowser, EventView::Done(Err(cause))) => self.failed(
                "IO error: "@,
                cause,
            ),
            (Stage::Binding, EventView::Done(Ok(_))) => (
                SessionView { stage: Stage::Accepting, listening: true, ..self },
                ActionView::Accept,
            ),
            (Stage::Binding, EventView::Done(Err(cause))) => self.failed("IO error: "@, cause),
            (Stage::Accepting, EventView::RequestLine(Ok(line))) => {
                let met = SessionView { accepted: self.accepted + 1, ..self };
                match second_word(line) {
                    Some(target) => (
                        SessionView { stage: Stage::Responding, target, ..met },
                        ActionView::Respond(SUCCESS_RESPONSE@),
                    ),
                    None => met.failed("authorization error: "@, INVALID_REQUEST@),
                }
            },
            (Stage::Accepting, EventView::RequestLine(Err(cause))) => self.failed(
                "IO error: "@,
                cause,
            ),
            (Stage::Responding, EventView::Done(Ok(_))) => match code_of(self.target) {
                Ok(code) => (
                    SessionView { stage: Stage::Exchanging, listening: false, ..self },
                    ActionView::Exchange(
                        exchange_view(self.client_id, self.client_secret, code),
                        TOKEN_TIMEOUT_SECS,
                    ),
                ),
                Err((heading, detail)) => self.failed(heading, detail),
            },
            (Stage::Responding, EventView::Done(Err(cause))) => self.failed("IO error: "@, cause),
            (Stage::Exchanging, EventView::Exchanged(outcome)) => match outcome {
                ExchangeView::TimedOut => self.failed("Spotify API error: "@, TIMED_OUT@),
                ExchangeView::Failed(cause) => self.failed("request error: "@, cause),
                ExchangeView::Answered { status, body } => if is_success(status) {
                    (self.at(Stage::ParsingToken), ActionView::ParseToken(body))
                } else {
                    self.failed(
                        "Spotify API error: "@,
                        EXCHANGE_REFUSED@ + decimal(status as nat),
                    )
                },
            },
            (Stage::ParsingToken, EventView::Done(Ok(_))) => (
                self.at(Stage::BuildingClient),
                ActionView::BuildClient,
            ),
            (Stage::ParsingToken, EventView::Done(Err(cause))) => self.failed(
                "JSON parse error: "@,
                cause,
            ),
            (Stage::BuildingClient, EventView::Done(Ok(_))) => (
                self.at(Stage::Completed),
                ActionView::Stop,
            ),
            (Stage::BuildingClient, EventView::Done(Err(cause))) => self.failed(
                "IO error: "@,
                cause,
            ),
            _ => (self, ActionView::Idle),
        }
    }
}

/// Every step keeps a session consistent.
pub proof fn lemma_next_consistent(s: SessionView, event: EventView)
    requires
        s.consistent(),
    ensures
        s.next(event).0.consistent(),
{
}

/// Beginning keeps a session consistent.
pub proof fn lemma_begun_consistent(s: SessionView)
    requires
        s.consistent(),
    ensures
        s.begun().0.consistent(),
{
}

/// Once an attempt has ended, the listener is released.
pub proof fn lemma_ended_releases_listener(s: SessionView)
    requires
        s.consistent(),
        s.stage is Completed || s.stage is Failed,
    ensures
        !s.listening,
{
}

/// An attempt that has ended takes no further step: every event leaves it
/// as it is.
pub proof fn lemma_ended_is_final(s: SessionView, event: EventView)
    requires
        s.stage is Completed || s.stage is Failed,
    ensures
        s.next(event) == (s, ActionView::Idle),
{
}

/// No step but the acceptance of the one connection changes the number of
/// connections, and after it the listener accepts no other.
pub proof fn lemma_one_connection(s: SessionView, event: EventView)
    requires
        s.consistent(),
    ensures
        s.next(event).0.accepted == s.accepted || (s.stage is Accepting && s.accepted == 0
            && s.next(event).0.accepted == 1 && !(s.next(event).0.stage is Accepting)),
{
}

/// A failure at any step under way leaves the session failed with the
/// listener released; a new attempt can then begin.
pub proof fn lemma_failure_allows_restart(s: SessionView, event: EventView)
    requires
        s.consistent(),
        s.next(event).0.stage is Failed,
    ensures
        !s.next(event).0.listening,
        !s.next(event).0.in_flight(),
        !(s.next(event).0.begun().1 is Idle),
{
}

/// The state of one authorization attempt: the client it is made for, how
/// far it has come, whether its listener is bound, and why it failed if it
/// did.
pub struct AuthSession {
    client_id: String,
    client_secret: String,
    stage: Stage,
    listening: bool,
    accepted: u8,
    target: String,
    failure: Option<SpotifyError>,
}

impl View for AuthSession {
    type V = SessionView;

    closed spec fn view(&self) -> SessionView {
        SessionView {
            client_id: self.client_id@,
            client_secret: self.client_secret@,
            stage: self.stage,
            listening: self.listening,
            accepted: self.accepted as nat,
            target: self.target@,
            failure: match self.failure {
                Some(error) => Some((error.heading(), error.detail())),
                None => None,
            },
        }
    }
}

/// A session that has not started, for the client given.
pub open spec fn fresh_session(client_id: Seq<char>, client_secret: Seq<char>) -> SessionView {
    SessionView {
        client_id,
        client_secret,
        stage: Stage::NotStarted,
        listening: false,
        accepted: 0,
        target: Seq::empty(),
        failure: None,
    }
}

impl AuthSession {
    #[verifier::type_invariant]
    spec fn well_formed(&self) -> bool {
        self@.consistent()
    }

    /// A session for the client given, not yet started.
    pub fn new(client_id: String, client_secret: String) -> (s: AuthSession)
        ensures
            s@ == fresh_session(client_id@, client_secret@),
    {
        AuthSession {
            client_id,
            client_secret,
            stage: Stage::NotStarted,
            listening: false,
            accepted: 0,
            target: String::new(),
            failure: None,
        }
    }

    /// How far the session has come.
    pub fn stage(&self) -> (stage: Stage)
        ensures
            stage == self@.stage,
    {
        self.stage
    }

    /// Whether the listener is bound. The caller holds the socket exactly
    /// as long as this says so.
    pub fn is_listening(&self) -> (listening: bool)
        ensures
            listening == self@.listening,
            self@.consistent(),
            listening ==> self@.stage is Accepting || self@.stage is Responding,
    {
        proof {
            use_type_invariant(self);
        }
        self.listening
    }

    /// How many connections the session has accepted: none or one.
    pub fn accepted(&self) -> (n: u8)
        ensures
            n == self@.accepted,
            n <= 1,
    {
        proof {
            use_type_invariant(self);
        }
        self.accepted
    }

    /// Why the session failed, if it did.
    pub fn failure(&self) -> (r: Option<&SpotifyError>)
        ensures
            match r {
                Some(error) => self@.failure == Some((error.heading(), error.detail())),
                None => self@.failure is None,
            },
            r is Some <==> self@.stage is Failed,
    {
        proof {
            use_type_invariant(self);
        }
        self.failure.as_ref()
    }

    /// The status that is shown for the session. A failed session shows its
    /// reason in words.
    pub fn status(&self) -> (status: AuthStatus)
        ensures
            status@ == self@.status(),
    {
        match self.stage {
            Stage::NotStarted => AuthStatus::NotStarted,
            Stage::OpeningBrowser => AuthStatus::WaitingForBrowser,
            Stage::Binding => AuthStatus::WaitingForBrowser,
            Stage::Accepting => AuthStatus::WaitingForBrowser,
            Stage::Responding => AuthStatus::WaitingForBrowser,
            Stage::Exchanging => AuthStatus::Processing,
            Stage::ParsingToken => AuthStatus::Processing,
            Stage::BuildingClient => AuthStatus::TokenObtained,
            Stage::Completed => AuthStatus::Completed,
            Stage::Failed => AuthStatus::Failed(
                match &self.failure {
                    Some(error) => error.describe(),
                    None => String::new(),
                },
            ),
        }
    }

    fn fail(self, error: SpotifyError) -> (r: (AuthSession, AuthAction))
        ensures
            (r.0@, r.1@) == self@.failed(error.heading(), error.detail()),
    {
        proof {
            use_type_invariant(&self);
        }
        (
            AuthSession {
                client_id: self.client_id,
                client_secret: self.client_secret,
                stage: Stage::Failed,
                listening: false,
                accepted: self.accepted,
                target: self.target,
                failure: Some(error),
            },
            AuthAction::Stop,
        )
    }

    fn at(self, stage: Stage, listening: bool) -> (r: AuthSession)
        requires
            !(stage is Failed),
            listening ==> stage is Accepting || stage is Responding,
            (stage is NotStarted || stage is OpeningBrowser || stage is Binding || stage
                is Accepting) ==> self@.accepted == 0,
            self@.failure is None,
        ensures
            r@ == (SessionView { stage, listening, ..self@ }),
    {
        proof {
            use_type_invariant(&self);
        }
        AuthSession {
            client_id: self.client_id,
            client_secret: self.client_secret,
            stage,
            listening,
            accepted: self.accepted,
            target: self.target,
            failure: self.failure,
        }
    }

    /// Begins an attempt. A session that has not started, or whose attempt
    /// has ended, starts a new attempt from nothing and asks for the browser
    /// to be sent to the consent URL. An attempt under way is left alone.
    pub fn begin(self) -> (r: (AuthSession, AuthAction))
        ensures
            (r.0@, r.1@) == self@.begun(),
    {
        proof {
            use_type_invariant(&self);
        }
        match self.stage {
            Stage::NotStarted | Stage::Completed | Stage::Failed => {
                let built = consent_url(self.client_id.as_str());
                let fresh = AuthSession {
                    client_id: self.client_id,
                    client_secret: self.client_secret,
                    stage: Stage::OpeningBrowser,
                    listening: false,
                    accepted: 0,
                    target: String::new(),
                    failure: None,
                };
                match built {
                    Ok(url) => (fresh, AuthAction::OpenBrowser(url)),
                    Err(error) => fresh.fail(error),
                }
            },
            _ => (self, AuthAction::Idle),
        }
    }

    /// Takes the report of what was done and says what is to be done next.
    /// The steps follow one another as `SessionView::next` lays them down;
    /// any failure ends the attempt and releases the listener.
    pub fn step(self, event: AuthEvent) -> (r: (AuthSession, AuthAction))
        ensures
            (r.0@, r.1@) == self@.next(event@),
    {
        proof {
            use_type_invariant(&self);
        }
        match self.stage {
            Stage::OpeningBrowser => match event {
                AuthEvent::Done(Ok(_)) => (
                    self.at(Stage::Binding, false),
                    AuthAction::Listen(String::from_str(LISTEN_ADDRESS)),
                ),
                AuthEvent::Done(Err(cause)) => self.fail(SpotifyError::IoError(cause)),
                _ => (self, AuthAction::Idle),
            },
            Stage::Binding => match event {
                AuthEvent::Done(Ok(_)) => (self.at(Stage::Accepting, true), AuthAction::Accept),
                AuthEvent::Done(Err(cause)) => self.fail(SpotifyError::IoError(cause)),
                _ => (self, AuthAction::Idle),
            },
            Stage::Accepting => match event {
                AuthEvent::RequestLine(Ok(line)) => {
                    let met = AuthSession {
                        client_id: self.client_id,
                        client_secret: self.client_secret,
                        stage: Stage::Responding,
                        listening: self.listening,
                        accepted: 1,
                        target: self.target,
                        failure: None,
                    };
                    match redirect_target(line.as_str()) {
                        Ok(target) => (
                            AuthSession {
                                client_id: met.client_id,
                                client_secret: met.client_secret,
                                stage: Stage::Responding,
                                listening: met.listening,
                                accepted: 1,
                                target,
                                failure: None,
                            },
                            AuthAction::Respond(String::from_str(SUCCESS_RESPONSE)),
                        ),
                        Err(error) => met.fail(error),
                    }
                },
                AuthEvent::RequestLine(Err(cause)) => self.fail(SpotifyError::IoError(cause)),
                _ => (self, AuthAction::Idle),
            },
            Stage::Responding => match event {
                AuthEvent::Done(Ok(_)) => match extract_code(self.target.as_str()) {
                    Ok(code) => {
                        let request = exchange_request(
                            self.client_id.as_str(),
                            self.client_secret.as_str(),
                            code.as_str(),
                        );
                        (
                            self.at(Stage::Exchanging, false),
                            AuthAction::Exchange(request, TOKEN_TIMEOUT_SECS),
                        )
                    },
                    Err(error) => self.fail(error),
                },
                AuthEvent::Done(Err(cause)) => self.fail(SpotifyError::IoError(cause)),
                _ => (self, AuthAction::Idle),
            },
            Stage::Exchanging => match event {
                AuthEvent::Exchanged(outcome) => match exchange_verdict(outcome) {
                    Ok(body) => (self.at(Stage::ParsingToken, false), AuthAction::ParseToken(body)),
                    Err(error) => self.fail(error),
                },
                _ => (self, AuthAction::Idle),
            },
            Stage::ParsingToken => match event {
                AuthEvent::Done(Ok(_)) => (
                    self.at(Stage::BuildingClient, false),
                    AuthAction::BuildClient,
                ),
                AuthEvent::Done(Err(cause)) => self.fail(SpotifyError::JsonError(cause)),
                _ => (self, AuthAction::Idle),
            },
            Stage::BuildingClient => match event {
                AuthEvent::Done(Ok(_)) => (self.at(Stage::Completed, false), AuthAction::Stop),
                AuthEvent::Done(Err(cause)) => self.fail(SpotifyError::IoError(cause)),
                _ => (self, AuthAction::Idle),
            },
            _ => (self, AuthAction::Idle),
        }
    }
}

} // verus!
