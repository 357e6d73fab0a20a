//! The browser-based authorisation of a GitHub account.
//!
//! The flow is a small state machine. The caller owns the listener, the
//! clock and the network; this module says which address to show, what each
//! request to the listener means, which request exchanges the code, and how
//! each event moves the flow on.

use crate::encoding::{
    form_encode, form_encoded, query_pairs, query_pairs_of, random_below,
};
use crate::http::{
    no_pairs, pair, pairs1, push_pair, BodyView, HttpBody, HttpMethod, HttpRequest, RequestView,
};
use crate::json::{json_data, string_field, text_member};
use crate::text::{
    decimal_text, decimal_u64, has_prefix, join2, join3, same, starts_with, to_chars,
};
use serde_json::Value;
use std::sync::mpsc::Receiver;
use std::time::Duration;
use vstd::prelude::*;
use vstd::string::*;

verus! {

#[verifier::external_type_specification]
#[verifier::external_body]
#[verifier::reject_recursive_types(T)]
pub struct ExReceiver<T>(Receiver<T>);

/// Where a person authorises the application.
pub const GITHUB_OAUTH_URL: &'static str = "https://github.com/login/oauth/authorize";

/// Where a code is exchanged for a token.
pub const GITHUB_TOKEN_URL: &'static str = "https://github.com/login/oauth/access_token";

/// The page that the listener answers every request with.
pub const CALLBACK_PAGE: &'static str =
    "<html><body><h1>Authentication Complete</h1><p>You can close this window and return to the terminal.</p></body></html>";

/// The length of a state token.
pub const STATE_LENGTH: usize = 32;

/// How long the flow waits for the redirect, in seconds, unless told
/// otherwise.
pub const DEFAULT_TIMEOUT_SECS: u64 = 300;

/// The character for an index below 36: a digit, then a lower-case letter.
pub open spec fn state_char_of(index: u8) -> char
    recommends
        index < 36,
{
    if index < 10 {
        (index + 48) as char
    } else {
        ((index - 10) + 97) as char
    }
}

/// Whether a character is a digit or a lower-case ASCII letter.
pub open spec fn is_state_char(c: char) -> bool {
    ('0' <= c && c <= '9') || ('a' <= c && c <= 'z')
}

/// Whether a text can be a state token: 32 digits and lower-case letters.
pub open spec fn is_state_token(text: Seq<char>) -> bool {
    text.len() == STATE_LENGTH && forall|i: int| 0 <= i < text.len() ==> is_state_char(#[trigger] text[i])
}

/// The address on this machine that GitHub redirects the browser to.
pub open spec fn redirect_uri(port: u16) -> Seq<char> {
    "http://localhost:"@ + decimal_text(port as int) + "/callback"@
}

/// The pairs of the authorisation address.
pub open spec fn authorization_pairs(client_id: Seq<char>, port: u16, state: Seq<char>) -> Seq<
    (Seq<char>, Seq<char>),
> {
    seq![
        ("client_id"@, client_id),
        ("redirect_uri"@, redirect_uri(port)),
        ("scope"@, "repo"@),
        ("state"@, state),
    ]
}

/// The authorisation address: the pairs, form-encoded, as the query of the
/// base address. The state token stands in it once.
pub open spec fn authorization_url_of(client_id: Seq<char>, port: u16, state: Seq<char>) -> Seq<
    char,
> {
    GITHUB_OAUTH_URL@ + "?"@ + form_encoded(authorization_pairs(client_id, port, state))
}

/// The value of the first pair called `name`.
pub open spec fn first_value(pairs: Seq<(Seq<char>, Seq<char>)>, name: Seq<char>) -> Option<
    Seq<char>,
>
    decreases pairs.len(),
{
    if pairs.len() == 0 {
        None
    } else if pairs[0].0 == name {
        Some(pairs[0].1)
    } else {
        first_value(pairs.drop_first(), name)
    }
}

/// The value of the query parameter `name` of a request path, read as the
/// path of an address on this machine.
pub open spec fn parameter_of(path: Seq<char>, name: Seq<char>) -> Option<Seq<char>> {
    match query_pairs_of("http://localhost"@ + path) {
        Some(pairs) => first_value(pairs, name),
        None => None,
    }
}

/// The authorisation code that a request path carries.
pub open spec fn code_of(path: Seq<char>) -> Option<Seq<char>> {
    parameter_of(path, "code"@)
}

/// What a request to the listener delivers.
pub struct CallbackView {
    pub code: Option<Seq<char>>,
    pub state: Option<Seq<char>>,
}

/// What the listener takes from a request: the code and the state of a path
/// that begins with `/callback?`, nothing of any other path.
pub open spec fn callback_of(path: Seq<char>) -> CallbackView {
    if has_prefix(path, "/callback?"@) {
        CallbackView { code: code_of(path), state: parameter_of(path, "state"@) }
    } else {
        CallbackView { code: None, state: None }
    }
}

/// The pairs that exchange a code for a token.
pub open spec fn exchange_pairs(client_id: Seq<char>, client_secret: Seq<char>, code: Seq<char>) -> Seq<
    (Seq<char>, Seq<char>),
> {
    seq![("client_id"@, client_id), ("client_secret"@, client_secret), ("code"@, code)]
}

/// The request that exchanges a code for a token, asking for a JSON reply.
pub open spec fn exchange_view(client_id: Seq<char>, client_secret: Seq<char>, code: Seq<char>) -> RequestView {
    RequestView {
        method: HttpMethod::Post,
        url: GITHUB_TOKEN_URL@,
        query: Seq::empty(),
        headers: seq![("Accept"@, "application/json"@)],
        body: BodyView::Form(exchange_pairs(client_id, client_secret, code)),
    }
}

/// The character for an index below 36.
pub fn state_char(index: u8) -> (c: char)
    requires
        index < 36,
    ensures
        c == state_char_of(index),
        is_state_char(c),
{
    if index < 10 {
        (index + 48) as char
    } else {
        ((index - 10) + 97) as char
    }
}

/// A fresh state token: 32 characters, each drawn at random from the digits
/// and the lower-case letters.
pub fn generate_random_state() -> (state: String)
    ensures
        is_state_token(state@),
{
    let mut state = String::new();
    let mut i: usize = 0;
    while i < STATE_LENGTH
        invariant
            i <= STATE_LENGTH,
            state@.len() == i,
            forall|j: int| 0 <= j < state@.len() ==> is_state_char(#[trigger] state@[j]),
        decreases STATE_LENGTH - i,
    {
        let index = random_below(36);
        state.push(state_char(index));
        i += 1;
    }
    state
}

/// The value of the first pair called `name`.
pub fn find_value(pairs: &Vec<(String, String)>, name: &str) -> (value: Option<String>)
    ensures
        value.deep_view() == first_value(pairs.deep_view(), name@),
{
    let mut i: usize = 0;
    proof {
        assert(pairs.deep_view().skip(0) =~= pairs.deep_view());
    }
    while i < pairs.len()
        invariant
            i <= pairs.len(),
            first_value(pairs.deep_view(), name@) == first_value(
                pairs.deep_view().skip(i as int),
                name@,
            ),
        decreases pairs.len() - i,
    {
        proof {
            let rest = pairs.deep_view().skip(i as int);
            assert(rest.drop_first() =~= pairs.deep_view().skip(i + 1));
        }
        if same(pairs[i].0.as_str(), name) {
            return Some(pairs[i].1.clone());
        }
        i += 1;
    }
    None
}

/// The value of the query parameter `name` of a request path.
pub fn query_parameter(path: &str, name: &str) -> (value: Option<String>)
    ensures
        value.deep_view() == parameter_of(path@, name@),
{
    let address = join2("http://localhost", path);
    match query_pairs(address.as_str()) {
        Some(pairs) => find_value(&pairs, name),
        None => None,
    }
}

/// The authorisation code that a request path carries, decoded.
pub fn extract_code_from_url(url: &str) -> (code: Option<String>)
    ensures
        code.deep_view() == code_of(url@),
{
    query_parameter(url, "code")
}

/// What a request to the listener delivers.
#[derive(Debug, Clone)]
pub struct Callback {
    pub code: Option<String>,
    pub state: Option<String>,
}

impl View for Callback {
    type V = CallbackView;

    open spec fn view(&self) -> CallbackView {
        CallbackView { code: self.code.deep_view(), state: self.state.deep_view() }
    }
}

/// Reads one request to the listener. Whatever the path, the listener
/// answers with `CALLBACK_PAGE` and the wait is over.
pub fn read_callback(path: &str) -> (callback: Callback)
    ensures
        callback@ == callback_of(path@),
{
    let path_chars = to_chars(path);
    let prefix = to_chars("/callback?");
    if starts_with(&path_chars, &prefix) {
        Callback { code: extract_code_from_url(path), state: query_parameter(path, "state") }
    } else {
        Callback { code: None, state: None }
    }
}

/// The authorisation address for a known state token.
pub fn authorization_url(client_id: &str, redirect_port: u16, state: &str) -> (url: String)
    ensures
        url@ == authorization_url_of(client_id@, redirect_port, state@),
{
    let port = decimal_u64(redirect_port as u64);
    let redirect = join3("http://localhost:", port.as_str(), "/callback");
    let mut pairs = pairs1(pair("client_id", client_id));
    push_pair(&mut pairs, pair("redirect_uri", redirect.as_str()));
    push_pair(&mut pairs, pair("scope", "repo"));
    push_pair(&mut pairs, pair("state", state));
    proof {
        assert(pairs.deep_view() =~= authorization_pairs(client_id@, redirect_port, state@));
    }
    let encoded = form_encode(&pairs);
    let mut url = GITHUB_OAUTH_URL.to_owned();
    url.append("?");
    url.append(encoded.as_str());
    url
}

/// The request that exchanges a code for a token.
pub fn exchange_request(client_id: &str, client_secret: &str, code: &str) -> (request: HttpRequest)
    ensures
        request@ == exchange_view(client_id@, client_secret@, code@),
{
    let mut pairs = pairs1(pair("client_id", client_id));
    push_pair(&mut pairs, pair("client_secret", client_secret));
    push_pair(&mut pairs, pair("code", code));
    proof {
        assert(pairs.deep_view() =~= exchange_pairs(client_id@, client_secret@, code@));
    }
    HttpRequest {
        method: HttpMethod::Post,
        url: GITHUB_TOKEN_URL.to_owned(),
        query: no_pairs(),
        headers: pairs1(pair("Accept", "application/json")),
        body: HttpBody::Form(pairs),
    }
}

/// The token in the reply to an exchange: its text member `access_token`.
pub fn access_token(reply: &Value) -> (token: Option<String>)
    ensures
        token.deep_view() == text_member(json_data(*reply), "access_token"@),
{
    string_field(reply, "access_token")
}

/// `Receiver::recv_timeout` of the standard library: whether a signal came
/// within the time given. Nothing is known of the answer beforehand.
#[verifier::external_body]
fn signalled_within(close_rx: &Receiver<()>, timeout_secs: u64) -> (signalled: bool) {
    close_rx.recv_timeout(Duration::from_secs(timeout_secs)).is_ok()
}

/// Waits until the listener signals that a request has come, `timeout_secs`
/// seconds at most. `false` means that the time ran out, or that the
/// listener is gone.
pub fn wait_for_callback(close_rx: Receiver<()>, timeout_secs: u64) -> (signalled: bool) {
    signalled_within(&close_rx, timeout_secs)
}

/// Why an authorisation did not yield a token.
#[derive(Debug, Clone)]
pub enum OAuthError {
    /// No request came to the listener in time.
    AuthorizationTimedOut,
    /// A request came, but it carried no code.
    CodeNotReceived,
    /// The code could not be turned into a token.
    AuthorizationExchangeFailed(String),
}

/// The mathematical content of an `OAuthError`.
pub enum OAuthErrorView {
    AuthorizationTimedOut,
    CodeNotReceived,
    AuthorizationExchangeFailed(Seq<char>),
}

impl View for OAuthError {
    type V = OAuthErrorView;

    open spec fn view(&self) -> OAuthErrorView {
        match self {
            OAuthError::AuthorizationTimedOut => OAuthErrorView::AuthorizationTimedOut,
            OAuthError::CodeNotReceived => OAuthErrorView::CodeNotReceived,
            OAuthError::AuthorizationExchangeFailed(detail) =>
                OAuthErrorView::AuthorizationExchangeFailed(detail@),
        }
    }
}

/// The message of an error.
pub open spec fn oauth_error_text(e: OAuthErrorView) -> Seq<char> {
    match e {
        OAuthErrorView::AuthorizationTimedOut => "Authorization timed out"@,
        OAuthErrorView::CodeNotReceived => "Failed to receive code"@,
        OAuthErrorView::AuthorizationExchangeFailed(detail) => detail,
    }
}

impl OAuthError {
    /// The message shown to people.
    pub fn message(&self) -> (text: String)
        ensures
            text@ == oauth_error_text(self@),
    {
        match self {
            OAuthError::AuthorizationTimedOut => "Authorization timed out".to_owned(),
            OAuthError::CodeNotReceived => "Failed to receive code".to_owned(),
            OAuthError::AuthorizationExchangeFailed(detail) => detail.clone(),
        }
    }
}

/// Where an authorisation stands.
#[derive(Debug, Clone)]
pub enum FlowState {
    /// Nothing has happened yet.
    Idle,
    /// The listener is up and the person has been shown the address.
    AwaitingRedirect,
    /// The redirect has delivered this code.
    CodeReceived(String),
    /// The code has been exchanged for this token.
    TokenExchanged(String),
    /// The authorisation is over, without a token.
    Failed(OAuthError),
}

/// What happened since the last step.
#[derive(Debug)]
pub enum FlowEvent {
    /// The listener has been started.
    ListenerStarted,
    /// A request came to the listener in time, and delivered this.
    Signalled(Callback),
    /// No request came to the listener in time.
    TimedOut,
    /// GitHub answered the exchange with this document.
    TokenReply(Value),
    /// The exchange itself failed.
    ExchangeFailed(String),
}

/// What the caller does in a state.
#[derive(Debug)]
pub enum FlowAction {
    /// Start a listener on the port and show the address.
    Listen { port: u16, url: String },
    /// Wait for the listener to signal a request, this many seconds at most.
    Wait { timeout_secs: u64 },
    /// Send the request and come back with the reply.
    Exchange(HttpRequest),
    /// Keep the token; the authorisation is done.
    Finish(String),
    /// Give up and report the error.
    Abort(OAuthError),
}

/// The mathematical content of a `FlowState`.
pub enum FlowStateView {
    Idle,
    AwaitingRedirect,
    CodeReceived(Seq<char>),
    TokenExchanged(Seq<char>),
    Failed(OAuthErrorView),
}

/// The mathematical content of a `FlowEvent`.
pub enum FlowEventView {
    ListenerStarted,
    Signalled(CallbackView),
    TimedOut,
    TokenReply(Value),
    ExchangeFailed(Seq<char>),
}

/// The mathematical content of a `FlowAction`.
pub enum FlowActionView {
    Listen { port: u16, url: Seq<char> },
    Wait { timeout_secs: u64 },
    Exchange(RequestView),
    Finish(Seq<char>),
    Abort(OAuthErrorView),
}

impl View for FlowState {
    type V = FlowStateView;

    open spec fn view(&self) -> FlowStateView {
        match self {
            FlowState::Idle => FlowStateView::Idle,
            FlowState::AwaitingRedirect => FlowStateView::AwaitingRedirect,
            FlowState::CodeReceived(code) => FlowStateView::CodeReceived(code@),
            FlowState::TokenExchanged(token) => FlowStateView::TokenExchanged(token@),
            FlowState::Failed(error) => FlowStateView::Failed(error@),
        }
    }
}

impl View for FlowEvent {
    type V = FlowEventView;

    open spec fn view(&self) -> FlowEventView {
        match self {
            FlowEvent::ListenerStarted => FlowEventView::ListenerStarted,
            FlowEvent::Signalled(callback) => FlowEventView::Signalled(callback@),
            FlowEvent::TimedOut => FlowEventView::TimedOut,
            FlowEvent::TokenReply(reply) => FlowEventView::TokenReply(*reply),
            FlowEvent::ExchangeFailed(detail) => FlowEventView::ExchangeFailed(detail@),
        }
    }
}

impl View for FlowAction {
    type V = FlowActionView;

    open spec fn view(&self) -> FlowActionView {
        match self {
            FlowAction::Listen { port, url } => FlowActionView::Listen { port: *port, url: url@ },
            FlowAction::Wait { timeout_secs } => FlowActionView::Wait {
                timeout_secs: *timeout_secs,
            },
            FlowAction::Exchange(request) => FlowActionView::Exchange(request@),
            FlowAction::Finish(token) => FlowActionView::Finish(token@),
            FlowAction::Abort(error) => FlowActionView::Abort(error@),
        }
    }
}

/// One attempt to authorise: the application's credentials, the state token
/// that binds the redirect to this attempt, and the port of the listener.
pub struct OAuthSession {
    pub client_id: String,
    pub client_secret: String,
    pub state: String,
    pub redirect_port: u16,
    pub timeout_secs: u64,
}

/// The mathematical content of an `OAuthSession`.
pub struct SessionView {
    pub client_id: Seq<char>,
    pub client_secret: Seq<char>,
    pub state: Seq<char>,
    pub redirect_port: u16,
    pub timeout_secs: u64,
}

impl View for OAuthSession {
    type V = SessionView;

    open spec fn view(&self) -> SessionView {
        SessionView {
            client_id: self.client_id@,
            client_secret: self.client_secret@,
            state: self.state@,
            redirect_port: self.redirect_port,
            timeout_secs: self.timeout_secs,
        }
    }
}

/// Where a request to the listener leads: to its code, if it carries one
/// and returns the state token of the session.
pub open spec fn after_callback(session: SessionView, callback: CallbackView) -> FlowStateView {
    match callback.code {
        None => FlowStateView::Failed(OAuthErrorView::CodeNotReceived),
        Some(code) => if callback.state == Some(session.state) {
            FlowStateView::CodeReceived(code)
        } else {
            FlowStateView::Failed(OAuthErrorView::AuthorizationExchangeFailed("State mismatch"@))
        },
    }
}

/// Where the reply to an exchange leads: to its token, if it has one.
pub open spec fn after_reply(reply: Value) -> FlowStateView {
    match text_member(json_data(reply), "access_token"@) {
        Some(token) => FlowStateView::TokenExchanged(token),
        None => FlowStateView::Failed(
            OAuthErrorView::AuthorizationExchangeFailed("No access token in response"@),
        ),
    }
}

/// The state after an event. An event that the state does not wait for
/// changes nothing; a flow that is over stays as it is.
pub open spec fn next_state(
    session: SessionView,
    state: FlowStateView,
    event: FlowEventView,
) -> FlowStateView {
    match (state, event) {
        (FlowStateView::Idle, FlowEventView::ListenerStarted) => FlowStateView::AwaitingRedirect,
        (FlowStateView::AwaitingRedirect, FlowEventView::TimedOut) => FlowStateView::Failed(
            OAuthErrorView::AuthorizationTimedOut,
        ),
        (FlowStateView::AwaitingRedirect, FlowEventView::Signalled(callback)) => after_callback(
            session,
            callback,
        ),
        (FlowStateView::CodeReceived(_), FlowEventView::TokenReply(reply)) => after_reply(reply),
        (FlowStateView::CodeReceived(_), FlowEventView::ExchangeFailed(detail)) =>
            FlowStateView::Failed(OAuthErrorView::AuthorizationExchangeFailed(detail)),
        _ => state,
    }
}

/// The state after a run of events.
pub open spec fn state_after(
    session: SessionView,
    state: FlowStateView,
    events: Seq<FlowEventView>,
) -> FlowStateView
    decreases events.len(),
{
    if events.len() == 0 {
        state
    } else {
        next_state(session, state_after(session, state, events.drop_last()), events.last())
    }
}

/// What the caller does in a state.
pub open spec fn action_of(session: SessionView, state: FlowStateView) -> FlowActionView {
    match state {
        FlowStateView::Idle => FlowActionView::Listen {
            port: session.redirect_port,
            url: authorization_url_of(session.client_id, session.redirect_port, session.state),
        },
        FlowStateView::AwaitingRedirect => FlowActionView::Wait {
            timeout_secs: session.timeout_secs,
        },
        FlowStateView::CodeReceived(code) => FlowActionView::Exchange(
            exchange_view(session.client_id, session.client_secret, code),
        ),
        FlowStateView::TokenExchanged(token) => FlowActionView::Finish(token),
        FlowStateView::Failed(error) => FlowActionView::Abort(error),
    }
}

impl OAuthSession {
    /// The address to show to the person.
    pub fn authorization_url(&self) -> (url: String)
        ensures
            url@ == authorization_url_of(self@.client_id, self@.redirect_port, self@.state),
    {
        authorization_url(self.client_id.as_str(), self.redirect_port, self.state.as_str())
    }

    /// What the caller does in `state`.
    pub fn action(&self, state: &FlowState) -> (action: FlowAction)
        ensures
            action@ == action_of(self@, state@),
    {
        match state {
            FlowState::Idle => FlowAction::Listen {
                port: self.redirect_port,
                url: self.authorization_url(),
            },
            FlowState::AwaitingRedirect => FlowAction::Wait { timeout_secs: self.timeout_secs },
            FlowState::CodeReceived(code) => FlowAction::Exchange(
                exchange_request(
                    self.client_id.as_str(),
                    self.client_secret.as_str(),
                    code.as_str(),
                ),
            ),
            FlowState::TokenExchanged(token) => FlowAction::Finish(token.clone()),
            FlowState::Failed(error) => FlowAction::Abort(error.replica()),
        }
    }

    /// Where a request to the listener leads.
    fn on_callback(&self, callback: Callback) -> (next: FlowState)
        ensures
            next@ == after_callback(self@, callback@),
    {
        match callback.code {
            None => FlowState::Failed(OAuthError::CodeNotReceived),
            Some(code) => {
                let returned = match callback.state {
                    Some(state) => same(state.as_str(), self.state.as_str()),
                    None => false,
                };
                if returned {
                    FlowState::CodeReceived(code)
                } else {
                    FlowState::Failed(
                        OAuthError::AuthorizationExchangeFailed("State mismatch".to_owned()),
                    )
                }
            },
        }
    }

    /// The state after `event`.
    pub fn advance(&self, state: FlowState, event: FlowEvent) -> (next: FlowState)
        ensures
            next@ == next_state(self@, state@, event@),
    {
        match state {
            FlowState::Idle => match event {
                FlowEvent::ListenerStarted => FlowState::AwaitingRedirect,
                _ => FlowState::Idle,
            },
            FlowState::AwaitingRedirect => match event {
                FlowEvent::TimedOut => FlowState::Failed(OAuthError::AuthorizationTimedOut),
                FlowEvent::Signalled(callback) => self.on_callback(callback),
                _ => FlowState::AwaitingRedirect,
            },
            FlowState::CodeReceived(code) => match event {
                FlowEvent::TokenReply(reply) => match access_token(&reply) {
                    Some(token) => FlowState::TokenExchanged(token),
                    None => FlowState::Failed(
                        OAuthError::AuthorizationExchangeFailed(
                            "No access token in response".to_owned(),
                        ),
                    ),
                },
                FlowEvent::ExchangeFailed(detail) => FlowState::Failed(
                    OAuthError::AuthorizationExchangeFailed(detail),
                ),
                _ => FlowState::CodeReceived(code),
            },
            FlowState::TokenExchanged(token) => FlowState::TokenExchanged(token),
            FlowState::Failed(error) => FlowState::Failed(error),
        }
    }
}

impl OAuthError {
    /// A copy of the error.
    pub fn replica(&self) -> (copy: OAuthError)
        ensures
            copy@ == self@,
    {
        match self {
            OAuthError::AuthorizationTimedOut => OAuthError::AuthorizationTimedOut,
            OAuthError::CodeNotReceived => OAuthError::CodeNotReceived,
            OAuthError::AuthorizationExchangeFailed(detail) =>
                OAuthError::AuthorizationExchangeFailed(detail.clone()),
        }
    }
}

/// The credentials of the OAuth application.
pub struct GitHubOAuth {
    client_id: String,
    client_secret: String,
}

/// The mathematical content of a `GitHubOAuth`.
pub struct GitHubOAuthView {
    pub client_id: Seq<char>,
    pub client_secret: Seq<char>,
}

impl View for GitHubOAuth {
    type V = GitHubOAuthView;

    closed spec fn view(&self) -> GitHubOAuthView {
        GitHubOAuthView { client_id: self.client_id@, client_secret: self.client_secret@ }
    }
}

impl GitHubOAuth {
    pub fn new(client_id: String, client_secret: String) -> (oauth: GitHubOAuth)
        ensures
            oauth@ == (GitHubOAuthView { client_id: client_id@, client_secret: client_secret@ }),
    {
        GitHubOAuth { client_id, client_secret }
    }

    /// An authorisation address with a fresh state token.
    pub fn get_authorization_url(&self, redirect_port: u16) -> (url: String)
        ensures
            exists|state: Seq<char>|
                is_state_token(state) && url@ == authorization_url_of(
                    self@.client_id,
                    redirect_port,
                    state,
                ),
    {
        let state = generate_random_state();
        let url = authorization_url(self.client_id.as_str(), redirect_port, state.as_str());
        url
    }

    /// Opens an attempt with a fresh state token, a listener on
    /// `redirect_port` and the default timeout.
    pub fn begin(&self, redirect_port: u16) -> (session: OAuthSession)
        ensures
            session@.client_id == self@.client_id,
            session@.client_secret == self@.client_secret,
            session@.redirect_port == redirect_port,
            session@.timeout_secs == DEFAULT_TIMEOUT_SECS,
            is_state_token(session@.state),
    {
        OAuthSession {
            client_id: self.client_id.clone(),
            client_secret: self.client_secret.clone(),
            state: generate_random_state(),
            redirect_port,
            timeout_secs: DEFAULT_TIMEOUT_SECS,
        }
    }

    /// The request that exchanges `code` for a token.
    pub fn exchange_code_for_token(&self, code: &str) -> (request: HttpRequest)
        ensures
            request@ == exchange_view(self@.client_id, self@.client_secret, code@),
    {
        exchange_request(self.client_id.as_str(), self.client_secret.as_str(), code)
    }

    /// Reads the reply to an exchange. A reply without a token is an error.
    pub fn exchange_result(reply: &Value) -> (r: Result<String, OAuthError>)
        ensures
            match text_member(json_data(*reply), "access_token"@) {
                Some(token) => r matches Ok(found) && found@ == token,
                None => r matches Err(e) && e@ == OAuthErrorView::AuthorizationExchangeFailed(
                    "No access token in response"@,
                ),
            },
    {
        match access_token(reply) {
            Some(token) => Ok(token),
            None => Err(
                OAuthError::AuthorizationExchangeFailed("No access token in response".to_owned()),
            ),
        }
    }
}

/// A flow that is over stays as it is, whatever happens next.
pub proof fn lemma_failed_is_final(
    session: SessionView,
    error: OAuthErrorView,
    events: Seq<FlowEventView>,
)
    ensures
        state_after(session, FlowStateView::Failed(error), events) == FlowStateView::Failed(error),
    decreases events.len(),
{
    if events.len() > 0 {
        lemma_failed_is_final(session, error, events.drop_last());
    }
}

/// When the wait for the redirect times out, the flow ends with that error,
/// and nothing that happens later delivers a code or a token.
pub proof fn lemma_timeout_never_delivers(session: SessionView, later: Seq<FlowEventView>)
    ensures
        state_after(
            session,
            next_state(session, FlowStateView::AwaitingRedirect, FlowEventView::TimedOut),
            later,
        ) == FlowStateView::Failed(OAuthErrorView::AuthorizationTimedOut),
{
    lemma_failed_is_final(session, OAuthErrorView::AuthorizationTimedOut, later);
}

/// A request that carries a code and returns the state token of the session
/// delivers exactly that code.
pub proof fn lemma_callback_delivers_code(session: SessionView, path: Seq<char>)
    requires
        has_prefix(path, "/callback?"@),
        code_of(path) is Some,
        parameter_of(path, "state"@) == Some(session.state),
    ensures
        next_state(
            session,
            FlowStateView::AwaitingRedirect,
            FlowEventView::Signalled(callback_of(path)),
        ) == FlowStateView::CodeReceived(code_of(path)->0),
{
}

/// A flow that has its token keeps it, whatever happens next.
pub proof fn lemma_token_is_final(
    session: SessionView,
    token: Seq<char>,
    events: Seq<FlowEventView>,
)
    ensures
        state_after(session, FlowStateView::TokenExchanged(token), events)
            == FlowStateView::TokenExchanged(token),
    decreases events.len(),
{
    if events.len() > 0 {
        lemma_token_is_final(session, token, events.drop_last());
    }
}

/// A flow delivers a code only while it awaits the redirect, and only the
/// code of a request that returns the state token of the session.
pub proof fn lemma_code_needs_matching_state(
    session: SessionView,
    state: FlowStateView,
    event: FlowEventView,
    code: Seq<char>,
)
    requires
        !(state is CodeReceived),
        next_state(session, state, event) == FlowStateView::CodeReceived(code),
    ensures
        state is AwaitingRedirect,
        event matches FlowEventView::Signalled(callback) && callback.code == Some(code)
            && callback.state == Some(session.state),
{
}

/// What a request that delivers nothing comes to.
pub open spec fn empty_callback() -> CallbackView {
    CallbackView { code: None, state: None }
}

/// The event that a wait ends with: a timeout where no signal came, else
/// what the listener delivered, if anything.
pub open spec fn wait_event(signalled: bool, delivered: Option<CallbackView>) -> FlowEventView {
    if signalled {
        FlowEventView::Signalled(
            match delivered {
                Some(callback) => callback,
                None => empty_callback(),
            },
        )
    } else {
        FlowEventView::TimedOut
    }
}

/// The event that a wait ends with. `signalled` is the answer of
/// `wait_for_callback`; `delivered` is what the listener put aside, if it
/// put anything aside.
pub fn after_wait(signalled: bool, delivered: Option<Callback>) -> (event: FlowEvent)
    ensures
        event@ == wait_event(
            signalled,
            match delivered {
                Some(callback) => Some(callback@),
                None => None,
            },
        ),
{
    if signalled {
        match delivered {
            Some(callback) => FlowEvent::Signalled(callback),
            None => FlowEvent::Signalled(Callback { code: None, state: None }),
        }
    } else {
        FlowEvent::TimedOut
    }
}

/// The event that an exchange ends with: the reply, or the message of the
/// failure to get one.
pub fn after_exchange(outcome: Result<Value, String>) -> (event: FlowEvent)
    ensures
        match outcome {
            Ok(reply) => event@ == FlowEventView::TokenReply(reply),
            Err(detail) => event@ == FlowEventView::ExchangeFailed(detail@),
        },
{
    match outcome {
        Ok(reply) => FlowEvent::TokenReply(reply),
        Err(detail) => FlowEvent::ExchangeFailed(detail),
    }
}

/// A wait that times out ends the flow, whatever the listener may have put
/// aside.
pub proof fn lemma_unsignalled_wait_times_out(session: SessionView, delivered: Option<CallbackView>)
    ensures
        next_state(session, FlowStateView::AwaitingRedirect, wait_event(false, delivered))
            == FlowStateView::Failed(OAuthErrorView::AuthorizationTimedOut),
{
}

} // verus!
