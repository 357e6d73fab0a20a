//! The GitHub adapter of the unified interface.

use crate::http::{
    bearer, choose_scope, no_pairs, pairs2, plain_request, sends_json, user_agent, HttpBody,
    HttpMethod, HttpRequest, RequestView, Step,
};
use crate::json::{
    array_items, get, json_data, json_text, object2, optional_text_data, optional_text_value,
    render, string_field, string_field_or, text_member, text_member_or, text_value, JsonData,
};
use crate::providers::github::{
    choose_repo, github_headers, is_pull_request, issue_id, issues_url, read_issue_id,
    split_scope, RepoChoice, ScopeParts,
};
use crate::text::as_text;
use crate::unified::{
    issue_views, ErrorView, IssueView, ProviderId, UnifiedCreateParams, UnifiedError,
    UnifiedIssue, UnifiedListQuery,
};
use serde_json::Value;
use vstd::prelude::*;
use vstd::string::*;

verus! {

/// The GitHub adapter: a token and the repository to work in when a call
/// names none.
pub struct GitHubClient {
    token: String,
    default_repo: Option<String>,
    skip_pull_requests: bool,
}

/// The mathematical content of the adapter.
pub struct GitHubClientView {
    pub token: Seq<char>,
    pub default_repo: Option<Seq<char>>,
    /// Whether listings leave pull requests out.
    pub skip_pull_requests: bool,
}

impl View for GitHubClient {
    type V = GitHubClientView;

    closed spec fn view(&self) -> GitHubClientView {
        GitHubClientView {
            token: self.token@,
            default_repo: self.default_repo.deep_view(),
            skip_pull_requests: self.skip_pull_requests,
        }
    }
}

/// The configuration error for a repository that cannot be worked in.
pub open spec fn repo_error(choice: RepoChoice) -> Option<ErrorView> {
    match choice {
        RepoChoice::Required => Some(ErrorView::Configuration("repository is required"@)),
        RepoChoice::OwnerMissing => Some(ErrorView::Configuration("repository owner missing"@)),
        RepoChoice::NameMissing => Some(ErrorView::Configuration("repository name missing"@)),
        RepoChoice::Found(_, _) => None,
    }
}

/// The unified record for a JSON record of GitHub. The record itself is kept
/// as the raw payload.
pub open spec fn github_issue(value: Value) -> IssueView {
    let d = json_data(value);
    IssueView {
        id: issue_id(d),
        title: text_member_or(d, "title"@, "untitled"@),
        state: text_member_or(d, "state"@, "unknown"@),
        url: text_member(d, "html_url"@),
        provider: ProviderId::Github,
        raw_payload: value,
    }
}

/// The request that lists up to 20 open issues of a repository.
pub open spec fn list_view(owner: Seq<char>, name: Seq<char>, token: Seq<char>) -> RequestView {
    plain_request(
        HttpMethod::Get,
        issues_url(owner, name) + "?state=open&per_page=20"@,
        Seq::empty(),
        github_headers(token),
    )
}

/// The document that creates an issue: the title, and the body or `null`.
pub open spec fn create_data(title: Seq<char>, body: Option<Seq<char>>) -> JsonData {
    JsonData::Object(
        map!["title"@ => JsonData::Text(title), "body"@ => optional_text_data(body)],
    )
}

/// What `list` answers before any reply has come: the request for the
/// issues of the repository, or why there is no repository to ask for.
pub open spec fn list_opening(
    r: Result<Step<Vec<UnifiedIssue>>, UnifiedError>,
    choice: RepoChoice,
    token: Seq<char>,
) -> bool {
    match choice {
        RepoChoice::Found(owner, name) => r matches Ok(Step::Send(request)) && request@
            == list_view(owner, name, token),
        _ => r matches Err(e) && Some(e@) == repo_error(choice),
    }
}

/// The record for one element of a listing, or none for a pull request that
/// the listing leaves out.
pub open spec fn listed_issue(item: Value, skip_pull_requests: bool) -> Option<IssueView> {
    if skip_pull_requests && is_pull_request(json_data(item)) {
        None
    } else {
        Some(github_issue(item))
    }
}

/// The records of a listing, in its order: one per element, or, where pull
/// requests are left out, one per element that is no pull request.
pub open spec fn listed_issues(items: Seq<Value>, skip_pull_requests: bool) -> Seq<IssueView> {
    items.filter_map(|item: Value| listed_issue(item, skip_pull_requests))
}

/// What `list` answers to the reply: the records of the listing where the
/// reply is an array; else the reply is refused and kept as text.
pub open spec fn list_closing(
    r: Result<Step<Vec<UnifiedIssue>>, UnifiedError>,
    reply: Value,
    skip_pull_requests: bool,
) -> bool {
    match array_items(reply) {
        Some(items) => r matches Ok(Step::Done(issues)) && issue_views(issues@)
            == listed_issues(items, skip_pull_requests),
        None => r matches Err(e) && e@ == ErrorView::UnexpectedResponse(json_text(reply)),
    }
}

/// A listing that leaves nothing out has one record per element.
pub proof fn lemma_unfiltered_listing(items: Seq<Value>)
    ensures
        listed_issues(items, false) == items.map_values(|item: Value| github_issue(item)),
    decreases items.len(),
{
    if items.len() > 0 {
        lemma_unfiltered_listing(items.drop_last());
        assert(items.drop_last().map_values(|item: Value| github_issue(item)).push(
            github_issue(items.last()),
        ) =~= items.map_values(|item: Value| github_issue(item)));
    } else {
        assert(listed_issues(items, false) =~= items.map_values(|item: Value| github_issue(item)));
    }
}

/// What `create` answers before any reply has come.
pub open spec fn create_opening(
    r: Result<Step<UnifiedIssue>, UnifiedError>,
    choice: RepoChoice,
    token: Seq<char>,
    title: Seq<char>,
    body: Option<Seq<char>>,
) -> bool {
    match choice {
        RepoChoice::Found(owner, name) => r matches Ok(Step::Send(request)) && sends_json(
            request@,
            HttpMethod::Post,
            issues_url(owner, name),
            github_headers(token),
            create_data(title, body),
        ),
        _ => r matches Err(e) && Some(e@) == repo_error(choice),
    }
}

/// What `list` answers: the request while no reply has come, then the
/// issues of the reply.
pub open spec fn list_answer(
    client: GitHubClientView,
    repo: Option<Seq<char>>,
    replies: Seq<Value>,
    r: Result<Step<Vec<UnifiedIssue>>, UnifiedError>,
) -> bool {
    if replies.len() == 0 {
        list_opening(r, choose_repo(repo, client.default_repo), client.token)
    } else {
        list_closing(r, replies[0], client.skip_pull_requests)
    }
}

/// What `create` answers: the request while no reply has come, then the
/// record that the reply describes.
pub open spec fn create_answer(
    client: GitHubClientView,
    repo: Option<Seq<char>>,
    title: Seq<char>,
    body: Option<Seq<char>>,
    replies: Seq<Value>,
    r: Result<Step<UnifiedIssue>, UnifiedError>,
) -> bool {
    if replies.len() == 0 {
        create_opening(r, choose_repo(repo, client.default_repo), client.token, title, body)
    } else {
        r matches Ok(Step::Done(issue)) && issue@ == github_issue(replies[0])
    }
}

impl GitHubClient {
    /// An adapter whose listings hold everything that GitHub lists, pull
    /// requests included.
    pub fn new(token: String, default_repo: Option<String>) -> (client: GitHubClient)
        ensures
            client@ == (GitHubClientView {
                token: token@,
                default_repo: default_repo.deep_view(),
                skip_pull_requests: false,
            }),
    {
        GitHubClient { token, default_repo, skip_pull_requests: false }
    }

    /// The same adapter, with listings that leave pull requests out.
    pub fn without_pull_requests(self) -> (client: GitHubClient)
        ensures
            client@ == (GitHubClientView { skip_pull_requests: true, ..self@ }),
    {
        GitHubClient {
            token: self.token,
            default_repo: self.default_repo,
            skip_pull_requests: true,
        }
    }

    pub fn provider(&self) -> (id: ProviderId)
        ensures
            id == ProviderId::Github,
    {
        ProviderId::Github
    }

    /// The owner and the name of the repository to work in: `override_repo`
    /// where it is given, else the default of the adapter.
    pub fn resolve_repo(&self, override_repo: Option<&String>) -> (r: Result<
        (String, String),
        UnifiedError,
    >)
        ensures
            match choose_repo(override_repo.deep_view(), self@.default_repo) {
                RepoChoice::Found(owner, name) => r matches Ok(parts) && parts.deep_view() == (
                    owner,
                    name,
                ),
                choice => r matches Err(e) && Some(e@) == repo_error(choice),
            },
    {
        match choose_scope(override_repo, &self.default_repo) {
            None => Err(UnifiedError::Configuration("repository is required".to_owned())),
            Some(text) => match split_scope(text.as_str()) {
                ScopeParts::OwnerMissing => Err(
                    UnifiedError::Configuration("repository owner missing".to_owned()),
                ),
                ScopeParts::NameMissing => Err(
                    UnifiedError::Configuration("repository name missing".to_owned()),
                ),
                ScopeParts::Parts(owner, name) => Ok((owner, name)),
            },
        }
    }

    /// Projects a JSON record of GitHub into the unified record.
    pub fn map_issue(&self, value: Value) -> (issue: UnifiedIssue)
        ensures
            issue@ == github_issue(value),
    {
        let id = read_issue_id(&value);
        let title = string_field_or(&value, "title", "untitled");
        let state = string_field_or(&value, "state", "unknown");
        let url = string_field(&value, "html_url");
        UnifiedIssue { id, title, state, url, provider: ProviderId::Github, raw_payload: value }
    }

    /// The address of the issues of a repository.
    fn issues_address(owner: &str, name: &str) -> (url: String)
        ensures
            url@ == issues_url(owner@, name@),
    {
        let mut url = "https://api.github.com/repos/".to_owned();
        url.append(owner);
        url.append("/");
        url.append(name);
        url.append("/issues");
        url
    }

    /// Lists the open issues of a repository, 20 at most.
    ///
    /// Called with no reply, it answers with the request to send. Called
    /// again with the reply to that request, it answers with the issues.
    pub fn list(&self, query: &UnifiedListQuery, replies: &Vec<Value>) -> (r: Result<
        Step<Vec<UnifiedIssue>>,
        UnifiedError,
    >)
        ensures
            list_answer(self@, query.repo.deep_view(), replies@, r),
    {
        if replies.len() == 0 {
            let (owner, name) = self.resolve_repo(query.repo.as_ref())?;
            let mut url = GitHubClient::issues_address(owner.as_str(), name.as_str());
            url.append("?state=open&per_page=20");
            Ok(
                Step::Send(
                    HttpRequest {
                        method: HttpMethod::Get,
                        url,
                        query: no_pairs(),
                        headers: pairs2(bearer(self.token.as_str()), user_agent()),
                        body: HttpBody::Empty,
                    },
                ),
            )
        } else {
            match replies[0].as_array() {
                None => Err(UnifiedError::UnexpectedResponse(render(&replies[0]))),
                Some(items) => {
                    let mut issues: Vec<UnifiedIssue> = Vec::new();
                    let mut i: usize = 0;
                    while i < items.len()
                        invariant
                            i <= items.len(),
                            issue_views(issues@) == listed_issues(
                                items@.take(i as int),
                                self.skip_pull_requests,
                            ),
                        decreases items.len() - i,
                    {
                        proof {
                            assert(items@.take(i + 1).drop_last() =~= items@.take(i as int));
                        }
                        let ghost before = issue_views(issues@);
                        let skipped = self.skip_pull_requests && get(
                            &items[i],
                            "pull_request",
                        ).is_some();
                        if !skipped {
                            issues.push(self.map_issue(items[i].clone()));
                            proof {
                                assert(issue_views(issues@) =~= before.push(
                                    github_issue(items@[i as int]),
                                ));
                            }
                        }
                        i += 1;
                    }
                    proof {
                        assert(items@.take(items.len() as int) =~= items@);
                    }
                    Ok(Step::Done(issues))
                },
            }
        }
    }

    /// Creates an issue in a repository.
    ///
    /// Called with no reply, it answers with the request to send. Called
    /// again with the reply, it answers with the record that the reply
    /// describes.
    pub fn create(&self, params: &UnifiedCreateParams, replies: &Vec<Value>) -> (r: Result<
        Step<UnifiedIssue>,
        UnifiedError,
    >)
        ensures
            create_answer(
                self@,
                params.repo.deep_view(),
                params.title@,
                params.body.deep_view(),
                replies@,
                r,
            ),
    {
        if replies.len() == 0 {
            let (owner, name) = self.resolve_repo(params.repo.as_ref())?;
            let url = GitHubClient::issues_address(owner.as_str(), name.as_str());
            proof {
                reveal_strlit("title");
                reveal_strlit("body");
                assert("title"@.len() != "body"@.len());
            }
            let document = object2(
                "title",
                text_value(params.title.as_str()),
                "body",
                optional_text_value(as_text(&params.body)),
            );
            Ok(
                Step::Send(
                    HttpRequest {
                        method: HttpMethod::Post,
                        url,
                        query: no_pairs(),
                        headers: pairs2(bearer(self.token.as_str()), user_agent()),
                        body: HttpBody::Json(document),
                    },
                ),
            )
        } else {
            Ok(Step::Done(self.map_issue(replies[0].clone())))
        }
    }
}

/// Creation and listing project a record alike: the record that `create`
/// answers for a reply is the record that `list` answers for a listing of
/// that one reply, unless the listing leaves the record out.
pub proof fn lemma_created_like_listed(
    client: GitHubClientView,
    record: Value,
    listing: Value,
    params: UnifiedCreateParams,
    query: UnifiedListQuery,
    created: Result<Step<UnifiedIssue>, UnifiedError>,
    listed: Result<Step<Vec<UnifiedIssue>>, UnifiedError>,
)
    requires
        array_items(listing) == Some(seq![record]),
        !(client.skip_pull_requests && is_pull_request(json_data(record))),
        create_answer(
            client,
            params.repo.deep_view(),
            params.title@,
            params.body.deep_view(),
            seq![record],
            created,
        ),
        list_answer(client, query.repo.deep_view(), seq![listing], listed),
    ensures
        created matches Ok(Step::Done(one)) && listed matches Ok(Step::Done(all)) && all@.len() == 1
            && all@[0]@ == one@,
{
    let all = listed->Ok_0->Done_0;
    let items = seq![record];
    assert(listed_issues(items.drop_last(), client.skip_pull_requests).len() == 0);
    assert(listed_issues(items, client.skip_pull_requests) =~= seq![github_issue(record)]);
    assert(issue_views(all@).len() == 1);
    assert(issue_views(all@)[0] == github_issue(record));
}

} // verus!
