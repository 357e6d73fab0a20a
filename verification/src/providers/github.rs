//! GitHub: repository scopes, issues and the requests that list and create
//! them.

pub use crate::unified::github_oauth::{wait_for_callback, GitHubOAuth};

use crate::http::{
    bearer, bearer_header, choose_scope, first_of, no_pairs, pairs2, plain_request, sends_json,
    user_agent, user_agent_header, HttpBody, HttpMethod, HttpRequest, RequestView,
};
use crate::json::{
    get, i64_field, i64_member, json_data, member, object1, object2, string_field,
    string_field_or, text_member, text_member_or, text_value, JsonData,
};
use crate::text::{
    decimal_i64, decimal_text, find_char, first_index_of, join3, lemma_first_index_of,
    string_of, to_chars,
};
use crate::unified::github_oauth::{
    access_token, authorization_url, authorization_url_of, exchange_request, exchange_view,
    generate_random_state, is_state_token,
};
use serde_json::Value;
use vstd::prelude::*;
use vstd::string::*;

verus! {

/// Why a GitHub operation failed.
#[derive(Debug)]
pub enum GitHubError {
    MissingCredentials,
    RepositoryRequired,
    OwnerMissing,
    RepoNameMissing,
    Configuration(String),
    /// A code could not be turned into a token.
    AuthorizationExchangeFailed(String),
    Http(reqwest::Error),
}

#[derive(Clone, Debug)]
pub struct GitHubConfig {
    pub default_repo: Option<String>,
    pub client_id: Option<String>,
    pub client_secret: Option<String>,
}

impl Default for GitHubConfig {
    fn default() -> (config: GitHubConfig)
        ensures
            config.default_repo is None,
            config.client_id is None,
            config.client_secret is None,
    {
        GitHubConfig { default_repo: None, client_id: None, client_secret: None }
    }
}

/// A repository scope: the owner and the name of one repository.
#[derive(Clone, Debug)]
pub struct GitHubRepository {
    pub owner: String,
    pub name: String,
}

/// What a scope text splits into.
pub enum RepoSplit {
    /// Nothing stands before the first `/`.
    OwnerMissing,
    /// There is no `/`, or nothing stands after the first one.
    NameMissing,
    /// The text before the first `/`, and the text after it.
    Parts(Seq<char>, Seq<char>),
}

/// Splits `owner/name` at the first `/`. Both sides must be non-empty; the
/// name may hold further slashes.
pub open spec fn split_repo(repo: Seq<char>) -> RepoSplit {
    let at = first_index_of(repo, '/');
    if at == 0 {
        RepoSplit::OwnerMissing
    } else if at + 1 >= repo.len() {
        RepoSplit::NameMissing
    } else {
        RepoSplit::Parts(repo.subrange(0, at), repo.subrange(at + 1, repo.len() as int))
    }
}

/// The outcome of splitting a scope text, with owned parts.
pub enum ScopeParts {
    OwnerMissing,
    NameMissing,
    Parts(String, String),
}

impl View for ScopeParts {
    type V = RepoSplit;

    open spec fn view(&self) -> RepoSplit {
        match self {
            ScopeParts::OwnerMissing => RepoSplit::OwnerMissing,
            ScopeParts::NameMissing => RepoSplit::NameMissing,
            ScopeParts::Parts(owner, name) => RepoSplit::Parts(owner@, name@),
        }
    }
}

/// Splits a scope text at its first `/`.
pub fn split_scope(repo: &str) -> (parts: ScopeParts)
    ensures
        parts@ == split_repo(repo@),
{
    let chars = to_chars(repo);
    let at = find_char(&chars, '/');
    if at == 0 {
        ScopeParts::OwnerMissing
    } else if at >= chars.len() || at + 1 >= chars.len() {
        ScopeParts::NameMissing
    } else {
        ScopeParts::Parts(string_of(&chars, 0, at), string_of(&chars, at + 1, chars.len()))
    }
}

impl GitHubRepository {
    pub fn new(owner: String, name: String) -> (repo: GitHubRepository)
        ensures
            repo.owner == owner,
            repo.name == name,
    {
        GitHubRepository { owner, name }
    }

    /// Reads `owner/name`. A text with nothing before the first `/` has no
    /// owner; one without `/`, or with nothing after it, has no name.
    pub fn from_string(repo: &str) -> (r: Result<GitHubRepository, GitHubError>)
        ensures
            match split_repo(repo@) {
                RepoSplit::OwnerMissing => r matches Err(GitHubError::OwnerMissing),
                RepoSplit::NameMissing => r matches Err(GitHubError::RepoNameMissing),
                RepoSplit::Parts(owner, name) => r matches Ok(found) && found.owner@ == owner
                    && found.name@ == name,
            },
    {
        match split_scope(repo) {
            ScopeParts::OwnerMissing => Err(GitHubError::OwnerMissing),
            ScopeParts::NameMissing => Err(GitHubError::RepoNameMissing),
            ScopeParts::Parts(owner, name) => Ok(GitHubRepository { owner, name }),
        }
    }

    /// The scope text `owner/name`.
    pub fn as_str(&self) -> (text: String)
        ensures
            text@ == self.owner@ + seq!['/'] + self.name@,
    {
        proof {
            reveal_strlit("/");
        }
        join3(self.owner.as_str(), "/", self.name.as_str())
    }
}

/// A scope text made of an owner without `/` and a name, both non-empty, is
/// read back as that owner and that name.
pub proof fn lemma_scope_round_trip(owner: Seq<char>, name: Seq<char>)
    requires
        owner.len() > 0,
        name.len() > 0,
        !owner.contains('/'),
    ensures
        split_repo(owner + seq!['/'] + name) == RepoSplit::Parts(owner, name),
{
    let text = owner + seq!['/'] + name;
    lemma_first_index_of(text, '/');
    let at = first_index_of(text, '/');
    assert(text[owner.len() as int] == '/');
    assert(text.subrange(0, at) =~= owner);
    assert(text.subrange(at + 1, text.len() as int) =~= name);
}

/// A scope text that splits into an owner and a name is that owner, a `/`
/// and that name; the owner holds no `/`.
pub proof fn lemma_split_repo_parts(repo: Seq<char>)
    ensures
        split_repo(repo) matches RepoSplit::Parts(owner, name) ==> repo == owner + seq!['/'] + name
            && owner.len() > 0 && name.len() > 0 && !owner.contains('/'),
{
    lemma_first_index_of(repo, '/');
}

/// One issue as GitHub reports it.
#[derive(Clone, Debug)]
pub struct GitHubIssue {
    pub id: String,
    pub number: i64,
    pub title: String,
    pub body: Option<String>,
    pub state: String,
    pub html_url: Option<String>,
}

/// The mathematical content of a `GitHubIssue`.
pub struct GitHubIssueView {
    pub id: Seq<char>,
    pub number: i64,
    pub title: Seq<char>,
    pub body: Option<Seq<char>>,
    pub state: Seq<char>,
    pub html_url: Option<Seq<char>>,
}

impl View for GitHubIssue {
    type V = GitHubIssueView;

    open spec fn view(&self) -> GitHubIssueView {
        GitHubIssueView {
            id: self.id@,
            number: self.number,
            title: self.title@,
            body: self.body.deep_view(),
            state: self.state@,
            html_url: self.html_url.deep_view(),
        }
    }
}

/// The issue number of a record; 0 where the record has none.
pub open spec fn issue_number(d: JsonData) -> i64 {
    match i64_member(d, "number"@) {
        Some(n) => n,
        None => 0,
    }
}

/// The identifier of an issue: its number in decimal; where it has no
/// number, its integer `id` in decimal, else its text `id`, else the empty
/// text.
pub open spec fn issue_id(d: JsonData) -> Seq<char> {
    match i64_member(d, "number"@) {
        Some(n) => decimal_text(n as int),
        None => match i64_member(d, "id"@) {
            Some(id) => decimal_text(id as int),
            None => text_member_or(d, "id"@, Seq::empty()),
        },
    }
}

/// The issue that a JSON record describes. The identifier is the number of
/// the issue, and GitHub's `id` only where there is no number; a missing
/// title reads `untitled`, a missing state `unknown`.
pub open spec fn github_issue_of(d: JsonData) -> GitHubIssueView {
    GitHubIssueView {
        id: issue_id(d),
        number: issue_number(d),
        title: text_member_or(d, "title"@, "untitled"@),
        body: text_member(d, "body"@),
        state: text_member_or(d, "state"@, "unknown"@),
        html_url: text_member(d, "html_url"@),
    }
}

/// Whether a record of the issues listing is a pull request: GitHub marks
/// those with a member `pull_request`.
pub open spec fn is_pull_request(d: JsonData) -> bool {
    member(d, "pull_request"@) is Some
}

/// The issues among the records of a listing: pull requests are left out,
/// every other record is read as an issue, in the order of the listing.
pub open spec fn issues_of(items: Seq<Value>) -> Seq<GitHubIssueView> {
    items.filter_map(
        |item: Value|
            if is_pull_request(json_data(item)) {
                None
            } else {
                Some(github_issue_of(json_data(item)))
            },
    )
}

/// The content of each issue of a list.
pub open spec fn github_issue_views(issues: Seq<GitHubIssue>) -> Seq<GitHubIssueView> {
    issues.map_values(|issue: GitHubIssue| issue@)
}

/// Reads the identifier of an issue.
pub fn read_issue_id(value: &Value) -> (id: String)
    ensures
        id@ == issue_id(json_data(*value)),
{
    proof {
        reveal_strlit("");
        assert(""@ =~= Seq::<char>::empty());
    }
    match i64_field(value, "number") {
        Some(n) => decimal_i64(n),
        None => match i64_field(value, "id") {
            Some(id) => decimal_i64(id),
            None => string_field_or(value, "id", ""),
        },
    }
}

impl GitHubIssue {
    /// Reads an issue from the JSON record that GitHub sends for it.
    pub fn from_json(value: Value) -> (issue: GitHubIssue)
        ensures
            issue@ == github_issue_of(json_data(value)),
    {
        GitHubIssue::read(&value)
    }

    /// Reads an issue from a borrowed JSON record.
    pub fn read(value: &Value) -> (issue: GitHubIssue)
        ensures
            issue@ == github_issue_of(json_data(*value)),
    {
        let number = match i64_field(value, "number") {
            Some(n) => n,
            None => 0,
        };
        GitHubIssue {
            id: read_issue_id(value),
            number,
            title: string_field_or(value, "title", "untitled"),
            body: string_field(value, "body"),
            state: string_field_or(value, "state", "unknown"),
            html_url: string_field(value, "html_url"),
        }
    }

    /// Reads the issues of a listing, leaving the pull requests out.
    pub fn read_listing(items: &Vec<Value>) -> (issues: Vec<GitHubIssue>)
        ensures
            github_issue_views(issues@) == issues_of(items@),
    {
        let mut issues: Vec<GitHubIssue> = Vec::new();
        let mut i: usize = 0;
        while i < items.len()
            invariant
                i <= items.len(),
                github_issue_views(issues@) == issues_of(items@.take(i as int)),
            decreases items.len() - i,
        {
            let item = &items[i];
            proof {
                assert(items@.take(i + 1).drop_last() =~= items@.take(i as int));
            }
            if get(item, "pull_request").is_none() {
                issues.push(GitHubIssue::read(item));
            }
            i += 1;
        }
        proof {
            assert(items@.take(items.len() as int) =~= items@);
        }
        issues
    }
}

/// A client for one GitHub account: its token and the repository it works
/// in when a call names none.
pub struct GitHubClient {
    token: String,
    default_repo: Option<String>,
}

/// The mathematical content of a `GitHubClient`.
pub struct GitHubClientView {
    pub token: Seq<char>,
    pub default_repo: Option<Seq<char>>,
}

impl View for GitHubClient {
    type V = GitHubClientView;

    closed spec fn view(&self) -> GitHubClientView {
        GitHubClientView { token: self.token@, default_repo: self.default_repo.deep_view() }
    }
}

/// The repository a call works in: the scope given with the call, else the
/// default of the client, split at its first `/`.
pub enum RepoChoice {
    /// Neither the call nor the client names a repository.
    Required,
    OwnerMissing,
    NameMissing,
    Found(Seq<char>, Seq<char>),
}

pub open spec fn choose_repo(given: Option<Seq<char>>, fallback: Option<Seq<char>>) -> RepoChoice {
    match first_of(given, fallback) {
        None => RepoChoice::Required,
        Some(text) => match split_repo(text) {
            RepoSplit::OwnerMissing => RepoChoice::OwnerMissing,
            RepoSplit::NameMissing => RepoChoice::NameMissing,
            RepoSplit::Parts(owner, name) => RepoChoice::Found(owner, name),
        },
    }
}

/// Whether `r` is the outcome that `choice` calls for. A repository that was
/// not found is reported by the error of its kind.
pub open spec fn repo_outcome<T>(r: Result<T, GitHubError>, choice: RepoChoice) -> bool {
    match choice {
        RepoChoice::Required => r matches Err(GitHubError::RepositoryRequired),
        RepoChoice::OwnerMissing => r matches Err(GitHubError::OwnerMissing),
        RepoChoice::NameMissing => r matches Err(GitHubError::RepoNameMissing),
        RepoChoice::Found(_, _) => r is Ok,
    }
}

/// The address of the issues of a repository.
pub open spec fn issues_url(owner: Seq<char>, name: Seq<char>) -> Seq<char> {
    "https://api.github.com/repos/"@ + owner + "/"@ + name + "/issues"@
}

/// The headers of every call to GitHub: the bearer token, then the client's
/// name.
pub open spec fn github_headers(token: Seq<char>) -> Seq<(Seq<char>, Seq<char>)> {
    seq![bearer_header(token), user_agent_header()]
}

/// The state to list: the one asked for, else `open`.
pub open spec fn listed_state(state: Option<Seq<char>>) -> Seq<char> {
    match state {
        Some(text) => text,
        None => "open"@,
    }
}

/// The request that lists up to 50 issues of a repository in one state.
pub open spec fn list_issues_view(
    owner: Seq<char>,
    name: Seq<char>,
    state: Seq<char>,
    token: Seq<char>,
) -> RequestView {
    plain_request(
        HttpMethod::Get,
        issues_url(owner, name) + "?state="@ + state + "&per_page=50"@,
        Seq::empty(),
        github_headers(token),
    )
}

/// The members of the document that creates an issue: the title, and the
/// body where one is given.
pub open spec fn new_issue_data(title: Seq<char>, body: Option<Seq<char>>) -> JsonData {
    match body {
        Some(text) => JsonData::Object(
            map!["title"@ => JsonData::Text(title), "body"@ => JsonData::Text(text)],
        ),
        None => JsonData::Object(map!["title"@ => JsonData::Text(title)]),
    }
}

/// A GET request to GitHub on behalf of `token`.
pub open spec fn github_get(url: Seq<char>, token: Seq<char>) -> RequestView {
    plain_request(HttpMethod::Get, url, Seq::empty(), github_headers(token))
}

impl GitHubClient {
    pub fn new(token: String, default_repo: Option<String>) -> (client: GitHubClient)
        ensures
            client@ == (GitHubClientView { token: token@, default_repo: default_repo.deep_view() }),
    {
        GitHubClient { token, default_repo }
    }

    pub fn with_repo(token: String, repo: GitHubRepository) -> (client: GitHubClient)
        ensures
            client@ == (GitHubClientView {
                token: token@,
                default_repo: Some(repo.owner@ + seq!['/'] + repo.name@),
            }),
    {
        GitHubClient { token, default_repo: Some(repo.as_str()) }
    }

    /// The default repository of the client.
    pub fn config(&self) -> (repo: Option<&String>)
        ensures
            repo.deep_view() == self@.default_repo,
    {
        self.default_repo.as_ref()
    }

    /// The repository to work in: `override_repo` where it is given, else the
    /// default of the client.
    pub fn resolve_repo(&self, override_repo: Option<&String>) -> (r: Result<
        GitHubRepository,
        GitHubError,
    >)
        ensures
            repo_outcome(r, choose_repo(override_repo.deep_view(), self@.default_repo)),
            r matches Ok(repo) ==> choose_repo(override_repo.deep_view(), self@.default_repo)
                == RepoChoice::Found(repo.owner@, repo.name@),
    {
        match choose_scope(override_repo, &self.default_repo) {
            None => Err(GitHubError::RepositoryRequired),
            Some(text) => GitHubRepository::from_string(text.as_str()),
        }
    }

    /// The headers of a call: the bearer token and the client's name.
    fn headers(&self) -> (headers: Vec<(String, String)>)
        ensures
            headers.deep_view() == github_headers(self@.token),
    {
        pairs2(bearer(self.token.as_str()), user_agent())
    }

    /// The request that lists the issues of a repository, pull requests
    /// included as GitHub sends them. `state` defaults to `open`.
    pub fn list_issues(&self, repo: Option<String>, state: Option<&str>) -> (r: Result<
        HttpRequest,
        GitHubError,
    >)
        ensures
            repo_outcome(r, choose_repo(repo.deep_view(), self@.default_repo)),
            r matches Ok(request) ==> (choose_repo(repo.deep_view(), self@.default_repo)
                matches RepoChoice::Found(owner, name) && request@ == list_issues_view(
                owner,
                name,
                listed_state(state.deep_view()),
                self@.token,
            )),
    {
        let found = self.resolve_repo(repo.as_ref())?;
        let state = match state {
            Some(text) => text,
            None => "open",
        };
        let mut url = "https://api.github.com/repos/".to_owned();
        url.append(found.owner.as_str());
        url.append("/");
        url.append(found.name.as_str());
        url.append("/issues");
        url.append("?state=");
        url.append(state);
        url.append("&per_page=50");
        Ok(
            HttpRequest {
                method: HttpMethod::Get,
                url,
                query: no_pairs(),
                headers: self.headers(),
                body: HttpBody::Empty,
            },
        )
    }

    /// The request that creates an issue in a repository.
    pub fn create_issue(&self, repo: Option<String>, title: &str, body: Option<&str>) -> (r:
        Result<HttpRequest, GitHubError>)
        ensures
            repo_outcome(r, choose_repo(repo.deep_view(), self@.default_repo)),
            r matches Ok(request) ==> (choose_repo(repo.deep_view(), self@.default_repo)
                matches RepoChoice::Found(owner, name) && sends_json(
                request@,
                HttpMethod::Post,
                issues_url(owner, name),
                github_headers(self@.token),
                new_issue_data(title@, body.deep_view()),
            )),
    {
        let found = self.resolve_repo(repo.as_ref())?;
        let mut url = "https://api.github.com/repos/".to_owned();
        url.append(found.owner.as_str());
        url.append("/");
        url.append(found.name.as_str());
        url.append("/issues");
        let document = match body {
            Some(text) => {
                proof {
                    reveal_strlit("title");
                    reveal_strlit("body");
                    assert("title"@.len() != "body"@.len());
                }
                object2("title", text_value(title), "body", text_value(text))
            },
            None => object1("title", text_value(title)),
        };
        Ok(
            HttpRequest {
                method: HttpMethod::Post,
                url,
                query: no_pairs(),
                headers: self.headers(),
                body: HttpBody::Json(document),
            },
        )
    }

    /// The request that lists the repositories of the account, the most
    /// recently updated first.
    pub fn list_repositories(&self) -> (request: HttpRequest)
        ensures
            request@ == github_get(
                "https://api.github.com/user/repos?per_page=100&sort=updated"@,
                self@.token,
            ),
    {
        HttpRequest {
            method: HttpMethod::Get,
            url: "https://api.github.com/user/repos?per_page=100&sort=updated".to_owned(),
            query: no_pairs(),
            headers: self.headers(),
            body: HttpBody::Empty,
        }
    }

    /// The request that asks GitHub whose token this is.
    pub fn get_token_info(&self) -> (request: HttpRequest)
        ensures
            request@ == github_get("https://api.github.com/user"@, self@.token),
    {
        HttpRequest {
            method: HttpMethod::Get,
            url: "https://api.github.com/user".to_owned(),
            query: no_pairs(),
            headers: self.headers(),
            body: HttpBody::Empty,
        }
    }
}

/// A repository as the listing of an account reports it.
#[derive(Clone, Debug)]
pub struct GitHubRepositoryInfo {
    pub name: String,
    pub full_name: String,
    pub description: Option<String>,
    pub html_url: String,
    pub private: bool,
    pub owner: GitHubOwner,
}

#[derive(Clone, Debug)]
pub struct GitHubOwner {
    pub login: String,
    pub avatar_url: Option<String>,
}

/// The account that a token belongs to.
#[derive(Clone, Debug)]
pub struct GitHubUser {
    pub login: String,
    pub id: i64,
    pub name: Option<String>,
    pub email: Option<String>,
    pub avatar_url: Option<String>,
}

/// The credentials of an OAuth application.
#[derive(Clone, Debug)]
pub struct GitHubOAuthConfig {
    pub client_id: Option<String>,
    pub client_secret: Option<String>,
}

impl Default for GitHubOAuthConfig {
    fn default() -> (config: GitHubOAuthConfig)
        ensures
            config.client_id is None,
            config.client_secret is None,
    {
        GitHubOAuthConfig { client_id: None, client_secret: None }
    }
}

/// An authorisation address for the application `client_id`, with a fresh
/// state token.
pub fn get_authorization_url(client_id: &str, redirect_port: u16) -> (url: String)
    ensures
        exists|state: Seq<char>|
            is_state_token(state) && url@ == authorization_url_of(client_id@, redirect_port, state),
{
    let state = generate_random_state();
    let url = authorization_url(client_id, redirect_port, state.as_str());
    url
}

/// The request that exchanges a code for a token.
pub fn exchange_code_for_token(client_id: &str, client_secret: &str, code: &str) -> (request:
    HttpRequest)
    ensures
        request@ == exchange_view(client_id@, client_secret@, code@),
{
    exchange_request(client_id, client_secret, code)
}

/// Reads the reply to an exchange: its text member `access_token`. A reply
/// without one means that the exchange failed.
pub fn exchange_code_result(reply: &Value) -> (r: Result<String, GitHubError>)
    ensures
        match text_member(json_data(*reply), "access_token"@) {
            Some(token) => r matches Ok(found) && found@ == token,
            None => r matches Err(GitHubError::AuthorizationExchangeFailed(detail)) && detail@
                == "No access token in response"@,
        },
{
    match access_token(reply) {
        Some(token) => Ok(token),
        None => Err(
            GitHubError::AuthorizationExchangeFailed("No access token in response".to_owned()),
        ),
    }
}

/// The message of an error. A transport failure has the message of its
/// cause.
pub open spec fn github_error_text(e: GitHubError) -> Seq<char> {
    match e {
        GitHubError::MissingCredentials => "missing credentials"@,
        GitHubError::RepositoryRequired => "repository is required"@,
        GitHubError::OwnerMissing => "repository owner missing"@,
        GitHubError::RepoNameMissing => "repository name missing"@,
        GitHubError::Configuration(detail) => "configuration error: "@ + detail@,
        GitHubError::AuthorizationExchangeFailed(detail) => detail@,
        GitHubError::Http(cause) => crate::unified::transport_text(cause),
    }
}

impl GitHubError {
    /// The message shown to people.
    pub fn message(&self) -> (text: String)
        ensures
            text@ == github_error_text(*self),
    {
        match self {
            GitHubError::MissingCredentials => "missing credentials".to_owned(),
            GitHubError::RepositoryRequired => "repository is required".to_owned(),
            GitHubError::OwnerMissing => "repository owner missing".to_owned(),
            GitHubError::RepoNameMissing => "repository name missing".to_owned(),
            GitHubError::Configuration(detail) => crate::text::join2(
                "configuration error: ",
                detail.as_str(),
            ),
            GitHubError::AuthorizationExchangeFailed(detail) => detail.clone(),
            GitHubError::Http(cause) => crate::unified::transport_message(cause),
        }
    }
}

} // verus!
