//! One client type for all providers, and the function that builds it.

use crate::http::Step;
use crate::unified::github::GitHubClient;
use crate::unified::jira::JiraClient;
use crate::unified::linear::LinearClient;
use crate::unified::trello::TrelloClient;
use crate::unified::{
    github, jira, linear, trello, ErrorView, ProviderId, UnifiedCreateParams,
    UnifiedCreateProjectParams, UnifiedCreateTaskParams, UnifiedError, UnifiedIssue,
    UnifiedListQuery, UnifiedMoveTaskParams, UnifiedProject, UnifiedProjectQuery, UnifiedTask,
    UnifiedTaskQuery,
};
use serde_json::Value;
use vstd::prelude::*;
use vstd::string::*;

verus! {

/// What a client falls back on when a call names no scope, and what the
/// providers need besides a token.
#[derive(Clone, Debug)]
pub struct ScopeDefaults {
    /// The default repository of GitHub, as `owner/name`.
    pub repo: Option<String>,
    /// The default workspace of Linear.
    pub workspace: Option<String>,
    /// The default board of Trello.
    pub board: Option<String>,
    /// The default project of Jira.
    pub project: Option<String>,
    /// The key of the Trello application.
    pub api_key: Option<String>,
    /// The address of the Jira site.
    pub server_url: Option<String>,
}

/// The client of one provider, behind one interface.
pub enum ProviderClient {
    Github(GitHubClient),
    Linear(LinearClient),
    Trello(TrelloClient),
    Jira(JiraClient),
}

/// The text of an optional setting; empty where it is not set.
pub open spec fn text_or_empty(text: Option<Seq<char>>) -> Seq<char> {
    match text {
        Some(s) => s,
        None => Seq::empty(),
    }
}

/// The text of an optional setting; empty where it is not set.
fn or_empty(text: Option<String>) -> (r: String)
    ensures
        r@ == text_or_empty(text.deep_view()),
{
    match text {
        Some(s) => s,
        None => String::new(),
    }
}

/// Whether `client` is the client of `provider` for `token`, with the
/// defaults of that provider.
pub open spec fn built_from(
    client: ProviderClient,
    provider: ProviderId,
    token: Seq<char>,
    defaults: ScopeDefaults,
) -> bool {
    match provider {
        ProviderId::Github => client matches ProviderClient::Github(c) && c@ == (
        github::GitHubClientView {
            token,
            default_repo: defaults.repo.deep_view(),
            skip_pull_requests: false,
        }),
        ProviderId::Linear => client matches ProviderClient::Linear(c) && c@ == (
        linear::LinearClientView { token, default_workspace: defaults.workspace.deep_view() }),
        ProviderId::Trello => client matches ProviderClient::Trello(c) && c@ == (
        trello::TrelloClientView {
            token,
            api_key: text_or_empty(defaults.api_key.deep_view()),
            default_board: defaults.board.deep_view(),
        }),
        ProviderId::Jira => client matches ProviderClient::Jira(c) && c@ == (
        crate::providers::jira::JiraClientView {
            server_url: text_or_empty(defaults.server_url.deep_view()),
            token,
            default_project: defaults.project.deep_view(),
        }),
    }
}

/// Builds the client of a provider. The token must have been resolved
/// before; nothing here can fail.
pub fn build(provider: ProviderId, token: String, defaults: ScopeDefaults) -> (client:
    ProviderClient)
    ensures
        built_from(client, provider, token@, defaults),
        client.provider_id() == provider,
{
    match provider {
        ProviderId::Github => ProviderClient::Github(GitHubClient::new(token, defaults.repo)),
        ProviderId::Linear => ProviderClient::Linear(LinearClient::new(token, defaults.workspace)),
        ProviderId::Trello => ProviderClient::Trello(
            TrelloClient::new(token, or_empty(defaults.api_key), defaults.board),
        ),
        ProviderId::Jira => ProviderClient::Jira(
            JiraClient::new(token, or_empty(defaults.server_url), defaults.project),
        ),
    }
}

impl ProviderClient {
    /// The provider that the client talks to.
    pub open spec fn provider_id(&self) -> ProviderId {
        match self {
            ProviderClient::Github(_) => ProviderId::Github,
            ProviderClient::Linear(_) => ProviderId::Linear,
            ProviderClient::Trello(_) => ProviderId::Trello,
            ProviderClient::Jira(_) => ProviderId::Jira,
        }
    }

    /// What `list` answers, for the adapter that the client holds.
    pub open spec fn list_answer(
        &self,
        query: UnifiedListQuery,
        replies: Seq<Value>,
        r: Result<Step<Vec<UnifiedIssue>>, UnifiedError>,
    ) -> bool {
        match self {
            ProviderClient::Github(c) => github::list_answer(
                c@,
                query.repo.deep_view(),
                replies,
                r,
            ),
            ProviderClient::Linear(c) => linear::list_answer(
                c@,
                query.workspace.deep_view(),
                replies,
                r,
            ),
            ProviderClient::Trello(c) => trello::list_answer(
                c@,
                query.repo.deep_view(),
                replies,
                r,
            ),
            ProviderClient::Jira(c) => jira::list_answer(c@, query.repo.deep_view(), replies, r),
        }
    }

    /// What `create` answers, for the adapter that the client holds.
    pub open spec fn create_answer(
        &self,
        params: UnifiedCreateParams,
        replies: Seq<Value>,
        r: Result<Step<UnifiedIssue>, UnifiedError>,
    ) -> bool {
        match self {
            ProviderClient::Github(c) => github::create_answer(
                c@,
                params.repo.deep_view(),
                params.title@,
                params.body.deep_view(),
                replies,
                r,
            ),
            ProviderClient::Linear(c) => linear::create_answer(
                c@,
                params.workspace.deep_view(),
                params.title@,
                params.body.deep_view(),
                replies,
                r,
            ),
            ProviderClient::Trello(c) => trello::create_answer(
                c@,
                params.repo.deep_view(),
                params.title@,
                params.body.deep_view(),
                replies,
                r,
            ),
            ProviderClient::Jira(c) => jira::create_answer(
                c@,
                params.repo.deep_view(),
                params.title@,
                params.body.deep_view(),
                replies,
                r,
            ),
        }
    }

    pub fn provider(&self) -> (id: ProviderId)
        ensures
            id == self.provider_id(),
    {
        match self {
            ProviderClient::Github(c) => c.provider(),
            ProviderClient::Linear(c) => c.provider(),
            ProviderClient::Trello(c) => c.provider(),
            ProviderClient::Jira(c) => c.provider(),
        }
    }

    /// Lists the open items in a scope.
    ///
    /// `replies` holds the JSON documents of the replies received so far,
    /// in the order of the requests. The answer is the next request to
    /// send, or the items once every reply is there.
    pub fn list(&self, query: &UnifiedListQuery, replies: &Vec<Value>) -> (r: Result<
        Step<Vec<UnifiedIssue>>,
        UnifiedError,
    >)
        ensures
            self.list_answer(*query, replies@, r),
    {
        match self {
            ProviderClient::Github(c) => c.list(query, replies),
            ProviderClient::Linear(c) => c.list(query, replies),
            ProviderClient::Trello(c) => c.list(query, replies),
            ProviderClient::Jira(c) => c.list(query, replies),
        }
    }

    /// Creates one item in a scope.
    ///
    /// `replies` holds the JSON documents of the replies received so far,
    /// in the order of the requests. The answer is the next request to
    /// send, or the record of the new item once every reply is there.
    pub fn create(&self, params: &UnifiedCreateParams, replies: &Vec<Value>) -> (r: Result<
        Step<UnifiedIssue>,
        UnifiedError,
    >)
        ensures
            self.create_answer(*params, replies@, r),
    {
        match self {
            ProviderClient::Github(c) => c.create(params, replies),
            ProviderClient::Linear(c) => c.create(params, replies),
            ProviderClient::Trello(c) => c.create(params, replies),
            ProviderClient::Jira(c) => c.create(params, replies),
        }
    }

    /// Projects are not offered by any provider yet.
    pub fn list_projects(&self, query: &UnifiedProjectQuery, replies: &Vec<Value>) -> (r: Result<
        Step<Vec<UnifiedProject>>,
        UnifiedError,
    >)
        ensures
            r matches Err(e) && e@ == ErrorView::NotImplemented(self.provider_id()),
    {
        Err(UnifiedError::NotImplemented(self.provider()))
    }

    /// Projects are not offered by any provider yet.
    pub fn create_project(&self, params: &UnifiedCreateProjectParams, replies: &Vec<Value>) -> (r:
        Result<Step<UnifiedProject>, UnifiedError>)
        ensures
            r matches Err(e) && e@ == ErrorView::NotImplemented(self.provider_id()),
    {
        Err(UnifiedError::NotImplemented(self.provider()))
    }

    /// Tasks are not offered by any provider yet.
    pub fn list_tasks(&self, query: &UnifiedTaskQuery, replies: &Vec<Value>) -> (r: Result<
        Step<Vec<UnifiedTask>>,
        UnifiedError,
    >)
        ensures
            r matches Err(e) && e@ == ErrorView::NotImplemented(self.provider_id()),
    {
        Err(UnifiedError::NotImplemented(self.provider()))
    }

    /// Tasks are not offered by any provider yet.
    pub fn create_task(&self, params: &UnifiedCreateTaskParams, replies: &Vec<Value>) -> (r: Result<
        Step<UnifiedTask>,
        UnifiedError,
    >)
        ensures
            r matches Err(e) && e@ == ErrorView::NotImplemented(self.provider_id()),
    {
        Err(UnifiedError::NotImplemented(self.provider()))
    }

    /// Tasks are not offered by any provider yet.
    pub fn move_task(&self, params: &UnifiedMoveTaskParams, replies: &Vec<Value>) -> (r: Result<
        Step<UnifiedTask>,
        UnifiedError,
    >)
        ensures
            r matches Err(e) && e@ == ErrorView::NotImplemented(self.provider_id()),
    {
        Err(UnifiedError::NotImplemented(self.provider()))
    }
}

} // verus!
