//! Requests as plain data.
//!
//! The crate never talks to the network. It says which request to send and
//! what a reply means; the caller sends and receives.

use crate::text::join2;
use crate::json::{json_data, JsonData};
use serde_json::Value;
use vstd::prelude::*;
use vstd::string::*;

verus! {

#[derive(Clone, Copy, Debug, PartialEq, Eq, Structural)]
pub enum HttpMethod {
    Get,
    Post,
    Put,
}

/// What a request carries.
#[derive(Debug)]
pub enum HttpBody {
    Empty,
    /// A JSON document, sent as `application/json`.
    Json(Value),
    /// Name and value pairs, sent as `application/x-www-form-urlencoded`.
    Form(Vec<(String, String)>),
}

/// One request: where it goes and what it carries.
#[derive(Debug)]
pub struct HttpRequest {
    pub method: HttpMethod,
    /// The address, without the pairs of `query`.
    pub url: String,
    /// Pairs that the sender appends to the address as its query string.
    pub query: Vec<(String, String)>,
    pub headers: Vec<(String, String)>,
    pub body: HttpBody,
}

/// The mathematical content of an `HttpBody`.
pub enum BodyView {
    Empty,
    Json(Value),
    Form(Seq<(Seq<char>, Seq<char>)>),
}

/// The mathematical content of an `HttpRequest`.
pub struct RequestView {
    pub method: HttpMethod,
    pub url: Seq<char>,
    pub query: Seq<(Seq<char>, Seq<char>)>,
    pub headers: Seq<(Seq<char>, Seq<char>)>,
    pub body: BodyView,
}

impl View for HttpBody {
    type V = BodyView;

    open spec fn view(&self) -> BodyView {
        match self {
            HttpBody::Empty => BodyView::Empty,
            HttpBody::Json(value) => BodyView::Json(*value),
            HttpBody::Form(pairs) => BodyView::Form(pairs.deep_view()),
        }
    }
}

impl View for HttpRequest {
    type V = RequestView;

    open spec fn view(&self) -> RequestView {
        RequestView {
            method: self.method,
            url: self.url@,
            query: self.query.deep_view(),
            headers: self.headers.deep_view(),
            body: self.body@,
        }
    }
}

/// What a caller does next in an exchange with a tracker.
#[derive(Debug)]
pub enum Step<T> {
    /// Send this request and come back with the JSON document of the reply.
    Send(HttpRequest),
    /// The exchange is over, with this result.
    Done(T),
}

/// The header that carries a bearer token.
pub open spec fn bearer_header(token: Seq<char>) -> (Seq<char>, Seq<char>) {
    ("Authorization"@, "Bearer "@ + token)
}

/// The header that names this client to a server.
pub open spec fn user_agent_header() -> (Seq<char>, Seq<char>) {
    ("User-Agent"@, "kirei-cli"@)
}

/// One name and value pair.
pub fn pair(name: &str, value: &str) -> (p: (String, String))
    ensures
        p.deep_view() == (name@, value@),
{
    (name.to_owned(), value.to_owned())
}

/// The first of two optional values that is present.
pub open spec fn first_of<T>(preferred: Option<T>, fallback: Option<T>) -> Option<T> {
    match preferred {
        Some(_) => preferred,
        None => fallback,
    }
}

/// The scope to work in: the one given with the call, else the default.
pub fn choose_scope(given: Option<&String>, fallback: &Option<String>) -> (scope: Option<String>)
    ensures
        scope.deep_view() == first_of(given.deep_view(), fallback.deep_view()),
{
    match given {
        Some(text) => Some(text.clone()),
        None => match fallback {
            Some(text) => Some(text.clone()),
            None => None,
        },
    }
}

/// The pair for the header `Authorization: Bearer <token>`.
pub fn bearer(token: &str) -> (p: (String, String))
    ensures
        p.deep_view() == bearer_header(token@),
{
    ("Authorization".to_owned(), join2("Bearer ", token))
}

/// The pair for the header `User-Agent: kirei-cli`.
pub fn user_agent() -> (p: (String, String))
    ensures
        p.deep_view() == user_agent_header(),
{
    pair("User-Agent", "kirei-cli")
}

/// A list of one pair.
pub fn pairs1(a: (String, String)) -> (pairs: Vec<(String, String)>)
    ensures
        pairs.deep_view() == seq![a.deep_view()],
{
    let mut pairs: Vec<(String, String)> = Vec::new();
    pairs.push(a);
    pairs
}

/// A list of two pairs.
pub fn pairs2(a: (String, String), b: (String, String)) -> (pairs: Vec<(String, String)>)
    ensures
        pairs.deep_view() == seq![a.deep_view(), b.deep_view()],
{
    let mut pairs: Vec<(String, String)> = Vec::new();
    pairs.push(a);
    pairs.push(b);
    pairs
}

/// The empty list of pairs.
pub fn no_pairs() -> (pairs: Vec<(String, String)>)
    ensures
        pairs.deep_view() == Seq::<(Seq<char>, Seq<char>)>::empty(),
{
    let pairs: Vec<(String, String)> = Vec::new();
    pairs
}

/// `pairs` with one more pair at its end.
pub fn push_pair(pairs: &mut Vec<(String, String)>, p: (String, String))
    ensures
        final(pairs).deep_view() == old(pairs).deep_view().push(p.deep_view()),
{
    pairs.push(p);
}

/// The request without a body to `url`.
pub open spec fn plain_request(
    method: HttpMethod,
    url: Seq<char>,
    query: Seq<(Seq<char>, Seq<char>)>,
    headers: Seq<(Seq<char>, Seq<char>)>,
) -> RequestView {
    RequestView { method, url, query, headers, body: BodyView::Empty }
}

/// Whether `request` goes to `url` with `headers`, without query pairs, and
/// carries a JSON document whose content is `data`.
pub open spec fn sends_json(
    request: RequestView,
    method: HttpMethod,
    url: Seq<char>,
    headers: Seq<(Seq<char>, Seq<char>)>,
    data: JsonData,
) -> bool {
    &&& request.method == method
    &&& request.url == url
    &&& request.query.len() == 0
    &&& request.headers == headers
    &&& request.body matches BodyView::Json(document) && json_data(document) == data
}

} // verus!
