//! The Jira adapter of the unified interface.

use crate::http::{first_of, plain_request, sends_json, HttpMethod, Step};
use crate::json::{json_data, json_text, nested_text, render, string_field, text_member, JsonData};
use crate::providers::jira::{
    listed_items, reply_items, browse_url, jira_headers, new_issue_data, search_url, status_name, JiraIssue,
};
use crate::text::as_text;
use crate::unified::{
    issue_views, ErrorView, IssueView, ProviderId, UnifiedCreateParams, UnifiedError,
    UnifiedIssue, UnifiedListQuery,
};
use serde_json::Value;
use vstd::prelude::*;
use vstd::string::*;

verus! {

/// The Jira adapter: the client of one site.
pub struct JiraClient {
    inner: crate::providers::jira::JiraClient,
}

impl View for JiraClient {
    type V = crate::providers::jira::JiraClientView;

    closed spec fn view(&self) -> crate::providers::jira::JiraClientView {
        self.inner@
    }
}

/// The identifier of an issue: its key, else its numeric identifier, else
/// the empty text.
pub open spec fn issue_id(d: JsonData) -> Seq<char> {
    match text_member(d, "key"@) {
        Some(key) => key,
        None => match text_member(d, "id"@) {
            Some(id) => id,
            None => Seq::empty(),
        },
    }
}

/// The unified record for a JSON record of Jira. The record itself is kept
/// as the raw payload.
pub open spec fn jira_issue(value: Value) -> IssueView {
    let d = json_data(value);
    IssueView {
        id: issue_id(d),
        title: match nested_text(d, "fields"@, "summary"@) {
            Some(text) => text,
            None => "untitled"@,
        },
        state: status_name(d),
        url: browse_url(d),
        provider: ProviderId::Jira,
        raw_payload: value,
    }
}

/// The error for a call that names no project, where the adapter has no
/// default either.
pub open spec fn project_required() -> ErrorView {
    ErrorView::Configuration("project is required"@)
}

/// What `list` answers: the search while no reply has come, then one record
/// per issue of the reply. A reply that lists no issues array is refused and
/// kept as text.
pub open spec fn list_answer(
    client: crate::providers::jira::JiraClientView,
    project: Option<Seq<char>>,
    replies: Seq<Value>,
    r: Result<Step<Vec<UnifiedIssue>>, UnifiedError>,
) -> bool {
    if replies.len() == 0 {
        match first_of(project, client.default_project) {
            Some(key) => r matches Ok(Step::Send(request)) && request@ == plain_request(
                HttpMethod::Get,
                search_url(client.server_url, key),
                Seq::empty(),
                jira_headers(client.token),
            ),
            None => r matches Err(e) && e@ == project_required(),
        }
    } else {
        match listed_items(replies[0]) {
            Some(items) => r matches Ok(Step::Done(issues)) && issue_views(issues@)
                == items.map_values(|item: Value| jira_issue(item)),
            None => r matches Err(e) && e@ == ErrorView::UnexpectedResponse(json_text(replies[0])),
        }
    }
}

/// What `create` answers: the request while no reply has come, then the
/// record that the reply describes.
pub open spec fn create_answer(
    client: crate::providers::jira::JiraClientView,
    project: Option<Seq<char>>,
    title: Seq<char>,
    body: Option<Seq<char>>,
    replies: Seq<Value>,
    r: Result<Step<UnifiedIssue>, UnifiedError>,
) -> bool {
    if replies.len() == 0 {
        match first_of(project, client.default_project) {
            Some(key) => r matches Ok(Step::Send(request)) && sends_json(
                request@,
                HttpMethod::Post,
                client.server_url + "/rest/api/3/issue"@,
                jira_headers(client.token),
                new_issue_data(key, title, body),
            ),
            None => r matches Err(e) && e@ == project_required(),
        }
    } else {
        r matches Ok(Step::Done(issue)) && issue@ == jira_issue(replies[0])
    }
}

impl JiraClient {
    pub fn new(token: String, server_url: String, default_project: Option<String>) -> (client:
        JiraClient)
        ensures
            client@ == (crate::providers::jira::JiraClientView {
                server_url: server_url@,
                token: token@,
                default_project: default_project.deep_view(),
            }),
    {
        JiraClient { inner: crate::providers::jira::JiraClient::new(token, server_url, default_project) }
    }

    pub fn provider(&self) -> (id: ProviderId)
        ensures
            id == ProviderId::Jira,
    {
        ProviderId::Jira
    }

    /// Projects a JSON record of Jira into the unified record.
    pub fn map_issue(&self, value: &Value) -> (issue: UnifiedIssue)
        ensures
            issue@ == jira_issue(*value),
    {
        let read = JiraIssue::from_json(value);
        let id = match string_field(value, "key") {
            Some(key) => key,
            None => match string_field(value, "id") {
                Some(id) => id,
                None => String::new(),
            },
        };
        UnifiedIssue {
            id,
            title: read.summary,
            state: read.status,
            url: read.url,
            provider: ProviderId::Jira,
            raw_payload: value.clone(),
        }
    }

    /// Lists the issues of a project that are not done, 50 at most.
    ///
    /// Called with no reply, it answers with the request to send. Called
    /// again with the reply to that request, it answers with the issues.
    pub fn list(&self, query: &UnifiedListQuery, replies: &Vec<Value>) -> (r: Result<
        Step<Vec<UnifiedIssue>>,
        UnifiedError,
    >)
        ensures
            list_answer(self@, query.repo.deep_view(), replies@, r),
    {
        if replies.len() == 0 {
            match self.inner.list_issues(query.repo.clone()) {
                Ok(request) => Ok(Step::Send(request)),
                Err(_) => Err(UnifiedError::Configuration("project is required".to_owned())),
            }
        } else {
            match reply_items(&replies[0]) {
                None => Err(UnifiedError::UnexpectedResponse(render(&replies[0]))),
                Some(items) => {
                    let mut issues: Vec<UnifiedIssue> = Vec::new();
                    let mut i: usize = 0;
                    while i < items.len()
                        invariant
                            i <= items.len(),
                            issue_views(issues@) == items@.take(i as int).map_values(
                                |item: Value| jira_issue(item),
                            ),
                        decreases items.len() - i,
                    {
                        let ghost before = issue_views(issues@);
                        issues.push(self.map_issue(&items[i]));
                        proof {
                            let added = jira_issue(items@[i as int]);
                            assert(issue_views(issues@) =~= before.push(added));
                        }
                        i += 1;
                    }
                    proof {
                        assert(items@.take(items.len() as int) =~= items@);
                    }
                    Ok(Step::Done(issues))
                },
            }
        }
    }

    /// Creates an issue of type `Task` in a project.
    ///
    /// Called with no reply, it answers with the request to send. Called
    /// again with the reply, it answers with the record that the reply
    /// describes.
    pub fn create(&self, params: &UnifiedCreateParams, replies: &Vec<Value>) -> (r: Result<
        Step<UnifiedIssue>,
        UnifiedError,
    >)
        ensures
            create_answer(
                self@,
                params.repo.deep_view(),
                params.title@,
                params.body.deep_view(),
                replies@,
                r,
            ),
    {
        if replies.len() == 0 {
            match self.inner.create_issue(
                params.repo.clone(),
                params.title.as_str(),
                as_text(&params.body),
            ) {
                Ok(request) => Ok(Step::Send(request)),
                Err(_) => Err(UnifiedError::Configuration("project is required".to_owned())),
            }
        } else {
            Ok(Step::Done(self.map_issue(&replies[0])))
        }
    }
}

/// Creation and listing project a record alike: the record that `create`
/// answers for a reply is the record that `list` answers for a search that
/// found that one reply.
pub proof fn lemma_created_like_listed(
    client: crate::providers::jira::JiraClientView,
    record: Value,
    search: Value,
    params: UnifiedCreateParams,
    query: UnifiedListQuery,
    created: Result<Step<UnifiedIssue>, UnifiedError>,
    listed: Result<Step<Vec<UnifiedIssue>>, UnifiedError>,
)
    requires
        listed_items(search) == Some(seq![record]),
        create_answer(
            client,
            params.repo.deep_view(),
            params.title@,
            params.body.deep_view(),
            seq![record],
            created,
        ),
        list_answer(client, query.repo.deep_view(), seq![search], listed),
    ensures
        created matches Ok(Step::Done(one)) && listed matches Ok(Step::Done(all)) && all@.len() == 1
            && all@[0]@ == one@,
{
    let all = listed->Ok_0->Done_0;
    assert(issue_views(all@).len() == 1);
    assert(issue_views(all@)[0] == jira_issue(record));
}

} // verus!
