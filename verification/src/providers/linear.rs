//! Linear: issues, workspaces and teams over its GraphQL endpoint.

use crate::http::{
    bearer, bearer_header, choose_scope, first_of, no_pairs, pairs1, sends_json, HttpBody,
    HttpMethod, HttpRequest,
};
use crate::json::{
    json_text, render, array_items, get3, json_data, nested_string_field, nested_text, object1, object2, object3,
    optional_text_data, optional_text_value, string_field, string_field_or, text_member,
    text_member_or, text_or, text_value, value_at3, JsonData,
};
use crate::text::as_text;
use serde_json::Value;
use vstd::prelude::*;
use vstd::string::*;

verus! {

/// The one address of Linear's API, for queries and mutations alike.
pub const LINEAR_GRAPHQL: &'static str = "https://api.linear.app/graphql";

/// The query that lists up to 50 issues whose state is not completed.
pub const LIST_ISSUES_QUERY: &'static str = r#"
                query($workspaceId: String) {
                    issues(first: 50, filter: { state: { type: { neq: "completed" } } }) {
                        nodes {
                            id
                            title
                            description
                            url
                            state {
                                name
                            }
                        }
                    }
                }
            "#;

/// The mutation that creates one issue.
pub const CREATE_ISSUE_MUTATION: &'static str = r#"
                mutation IssueCreate($input: IssueCreateInput!) {
                    issueCreate(input: $input) {
                        success
                        issue {
                            id
                            title
                            description
                            url
                            state {
                                name
                            }
                        }
                    }
                }
            "#;

/// The query that lists the organizations of the account.
pub const LIST_WORKSPACES_QUERY: &'static str = r#"
                query {
                    organizations {
                        nodes {
                            id
                            name
                            slug
                        }
                    }
                }
            "#;

/// The query that lists up to 50 teams of one organization.
pub const LIST_TEAMS_QUERY: &'static str = r#"
                query($workspaceId: String!) {
                    teams(first: 50, filter: { organization: { id: { eq: $workspaceId } } }) {
                        nodes {
                            id
                            name
                            key
                        }
                    }
                }
            "#;

/// Why a Linear operation failed.
#[derive(Debug)]
pub enum LinearError {
    MissingCredentials,
    WorkspaceRequired,
    Configuration(String),
    /// A reply did not have the expected shape; the reply is kept as text.
    UnexpectedResponse(String),
    Http(reqwest::Error),
}

#[derive(Clone, Debug)]
pub struct LinearConfig {
    pub default_workspace: Option<String>,
}

impl Default for LinearConfig {
    fn default() -> (config: LinearConfig)
        ensures
            config.default_workspace is None,
    {
        LinearConfig { default_workspace: None }
    }
}

/// One issue as Linear reports it.
#[derive(Clone, Debug)]
pub struct LinearIssue {
    pub id: String,
    pub title: String,
    pub description: Option<String>,
    pub state: String,
    pub url: Option<String>,
}

/// The mathematical content of a `LinearIssue`.
pub struct LinearIssueView {
    pub id: Seq<char>,
    pub title: Seq<char>,
    pub description: Option<Seq<char>>,
    pub state: Seq<char>,
    pub url: Option<Seq<char>>,
}

impl View for LinearIssue {
    type V = LinearIssueView;

    open spec fn view(&self) -> LinearIssueView {
        LinearIssueView {
            id: self.id@,
            title: self.title@,
            description: self.description.deep_view(),
            state: self.state@,
            url: self.url.deep_view(),
        }
    }
}

/// The name of the state of a node: the text member `name` of its member
/// `state`, else `unknown`.
pub open spec fn state_name(d: JsonData) -> Seq<char> {
    match nested_text(d, "state"@, "name"@) {
        Some(name) => name,
        None => "unknown"@,
    }
}

/// The issue that a node of a GraphQL reply describes.
pub open spec fn linear_issue_of(d: JsonData) -> LinearIssueView {
    LinearIssueView {
        id: text_member_or(d, "id"@, Seq::empty()),
        title: text_member_or(d, "title"@, "untitled"@),
        description: text_member(d, "description"@),
        state: state_name(d),
        url: text_member(d, "url"@),
    }
}

/// The content of each issue of a list.
pub open spec fn linear_issue_views(issues: Seq<LinearIssue>) -> Seq<LinearIssueView> {
    issues.map_values(|issue: LinearIssue| issue@)
}

impl LinearIssue {
    /// Reads an issue from a node of a GraphQL reply.
    pub fn from_json(value: &Value) -> (issue: LinearIssue)
        ensures
            issue@ == linear_issue_of(json_data(*value)),
    {
        proof {
            reveal_strlit("");
            assert(""@ =~= Seq::<char>::empty());
        }
        LinearIssue {
            id: string_field_or(value, "id", ""),
            title: string_field_or(value, "title", "untitled"),
            description: string_field(value, "description"),
            state: text_or(nested_string_field(value, "state", "name"), "unknown"),
            url: string_field(value, "url"),
        }
    }
}

#[derive(Clone, Debug)]
pub struct LinearWorkspace {
    pub id: String,
    pub name: String,
    pub slug: String,
}

#[derive(Clone, Debug)]
pub struct LinearTeam {
    pub id: String,
    pub name: String,
    pub key: String,
}

/// Three texts read from one node.
pub struct NamedView {
    pub id: Seq<char>,
    pub name: Seq<char>,
    pub tag: Seq<char>,
}

impl View for LinearWorkspace {
    type V = NamedView;

    open spec fn view(&self) -> NamedView {
        NamedView { id: self.id@, name: self.name@, tag: self.slug@ }
    }
}

impl View for LinearTeam {
    type V = NamedView;

    open spec fn view(&self) -> NamedView {
        NamedView { id: self.id@, name: self.name@, tag: self.key@ }
    }
}

/// The texts `id`, `name` and `tag_key` of a node, if it has all three.
pub open spec fn named_of(d: JsonData, tag_key: Seq<char>) -> Option<NamedView> {
    match (text_member(d, "id"@), text_member(d, "name"@), text_member(d, tag_key)) {
        (Some(id), Some(name), Some(tag)) => Some(NamedView { id, name, tag }),
        _ => None,
    }
}

/// The nodes of a listing that have an `id`, a `name` and the text member
/// `tag_key`, in the order of the listing.
pub open spec fn named_nodes(nodes: Seq<Value>, tag_key: Seq<char>) -> Seq<NamedView> {
    nodes.filter_map(|node: Value| named_of(json_data(node), tag_key))
}

/// A client for one Linear account: its token and the workspace it works in
/// when a call names none.
pub struct LinearClient {
    token: String,
    default_workspace: Option<String>,
}

/// The mathematical content of a `LinearClient`.
pub struct LinearClientView {
    pub token: Seq<char>,
    pub default_workspace: Option<Seq<char>>,
}

impl View for LinearClient {
    type V = LinearClientView;

    closed spec fn view(&self) -> LinearClientView {
        LinearClientView {
            token: self.token@,
            default_workspace: self.default_workspace.deep_view(),
        }
    }
}

/// The document of a GraphQL call: the query text and its variables.
pub open spec fn graphql_data(query: Seq<char>, variables: JsonData) -> JsonData {
    JsonData::Object(map!["query"@ => JsonData::Text(query), "variables"@ => variables])
}

/// The variables of a call that names a workspace, or `null` for none.
pub open spec fn workspace_variables(workspace: Option<Seq<char>>) -> JsonData {
    JsonData::Object(map!["workspaceId"@ => optional_text_data(workspace)])
}

/// The variables of the mutation that creates an issue.
pub open spec fn create_variables(
    title: Seq<char>,
    body: Option<Seq<char>>,
    workspace: Option<Seq<char>>,
) -> JsonData {
    JsonData::Object(
        map![
            "input"@ => JsonData::Object(
                map![
                    "title"@ => JsonData::Text(title),
                    "description"@ => optional_text_data(body),
                    "teamId"@ => optional_text_data(workspace)
                ],
            )
        ],
    )
}

/// The nodes under `data.<group>.nodes` of a reply, where that is an array.
pub open spec fn nodes_of(reply: Value, group: Seq<char>) -> Option<Seq<Value>> {
    match value_at3(reply, "data"@, group, "nodes"@) {
        Some(nodes) => array_items(nodes),
        None => None,
    }
}

/// The issue under `data.issueCreate.issue` of a reply.
pub open spec fn created_node(reply: Value) -> Option<Value> {
    value_at3(reply, "data"@, "issueCreate"@, "issue"@)
}

/// The headers of every call to Linear: the bearer token.
pub open spec fn linear_headers(token: Seq<char>) -> Seq<(Seq<char>, Seq<char>)> {
    seq![bearer_header(token)]
}

/// Whether `request` is the GraphQL call with `query` and `variables` on
/// behalf of `token`.
pub open spec fn sends_graphql(
    request: crate::http::RequestView,
    token: Seq<char>,
    query: Seq<char>,
    variables: JsonData,
) -> bool {
    sends_json(
        request,
        HttpMethod::Post,
        LINEAR_GRAPHQL@,
        linear_headers(token),
        graphql_data(query, variables),
    )
}

/// The GraphQL call with `query` and `variables` on behalf of `token`.
pub fn graphql_request(token: &str, query: &str, variables: Value) -> (request: HttpRequest)
    ensures
        sends_graphql(request@, token@, query@, json_data(variables)),
{
    proof {
        reveal_strlit("query");
        reveal_strlit("variables");
        assert("query"@.len() != "variables"@.len());
    }
    let document = object2("query", text_value(query), "variables", variables);
    HttpRequest {
        method: HttpMethod::Post,
        url: LINEAR_GRAPHQL.to_owned(),
        query: no_pairs(),
        headers: pairs1(bearer(token)),
        body: HttpBody::Json(document),
    }
}

/// The variables that name a workspace.
pub fn workspace_variables_value(workspace: Option<&str>) -> (variables: Value)
    ensures
        json_data(variables) == workspace_variables(workspace.deep_view()),
{
    object1("workspaceId", optional_text_value(workspace))
}

/// The variables of the mutation that creates an issue.
pub fn create_variables_value(title: &str, body: Option<&str>, workspace: Option<&str>) -> (variables:
    Value)
    ensures
        json_data(variables) == create_variables(
            title@,
            body.deep_view(),
            workspace.deep_view(),
        ),
{
    proof {
        reveal_strlit("title");
        reveal_strlit("description");
        reveal_strlit("teamId");
        assert("title"@.len() != "description"@.len());
    }
    let input = object3(
        "title",
        text_value(title),
        "description",
        optional_text_value(body),
        "teamId",
        optional_text_value(workspace),
    );
    object1("input", input)
}

/// The nodes under `data.<group>.nodes` of a reply.
pub fn reply_nodes<'a>(reply: &'a Value, group: &str) -> (nodes: Option<&'a Vec<Value>>)
    ensures
        nodes matches Some(found) ==> nodes_of(*reply, group@) == Some(found@),
        nodes is None ==> nodes_of(*reply, group@) is None,
{
    match get3(reply, "data", group, "nodes") {
        Some(found) => found.as_array(),
        None => None,
    }
}

/// The texts `id`, `name` and `tag_key` of a node.
fn read_named(node: &Value, tag_key: &str) -> (r: Option<(String, String, String)>)
    ensures
        match named_of(json_data(*node), tag_key@) {
            Some(named) => r matches Some(texts) && texts.0@ == named.id && texts.1@ == named.name
                && texts.2@ == named.tag,
            None => r is None,
        },
{
    let id = string_field(node, "id");
    let name = string_field(node, "name");
    let tag = string_field(node, tag_key);
    match (id, name, tag) {
        (Some(id), Some(name), Some(tag)) => Some((id, name, tag)),
        _ => None,
    }
}

impl LinearClient {
    pub fn new(token: String, default_workspace: Option<String>) -> (client: LinearClient)
        ensures
            client@ == (LinearClientView {
                token: token@,
                default_workspace: default_workspace.deep_view(),
            }),
    {
        LinearClient { token, default_workspace }
    }

    pub fn with_workspace(token: String, workspace: String) -> (client: LinearClient)
        ensures
            client@ == (LinearClientView { token: token@, default_workspace: Some(workspace@) }),
    {
        LinearClient { token, default_workspace: Some(workspace) }
    }

    /// The default workspace of the client.
    pub fn config(&self) -> (workspace: Option<&String>)
        ensures
            workspace.deep_view() == self@.default_workspace,
    {
        self.default_workspace.as_ref()
    }

    /// The workspace to name in a call: `override_workspace` where it is
    /// given, else the default of the client, else none.
    pub fn workspace_variable(&self, override_workspace: Option<&String>) -> (workspace: Option<
        String,
    >)
        ensures
            workspace.deep_view() == first_of(
                override_workspace.deep_view(),
                self@.default_workspace,
            ),
    {
        choose_scope(override_workspace, &self.default_workspace)
    }

    /// The request that lists up to 50 issues that are not completed.
    pub fn list_issues(&self, workspace: Option<String>) -> (request: HttpRequest)
        ensures
            sends_graphql(
                request@,
                self@.token,
                LIST_ISSUES_QUERY@,
                workspace_variables(first_of(workspace.deep_view(), self@.default_workspace)),
            ),
    {
        let chosen = self.workspace_variable(workspace.as_ref());
        graphql_request(
            self.token.as_str(),
            LIST_ISSUES_QUERY,
            workspace_variables_value(as_text(&chosen)),
        )
    }

    /// Reads the reply to the listing of issues: one issue per node under
    /// `data.issues.nodes`. A reply without that array is refused, and kept as
    /// text in the error.
    pub fn list_issues_result(reply: &Value) -> (r: Result<Vec<LinearIssue>, LinearError>)
        ensures
            match nodes_of(*reply, "issues"@) {
                Some(nodes) => r matches Ok(issues) && linear_issue_views(issues@)
                    == nodes.map_values(|node: Value| linear_issue_of(json_data(node))),
                None => r matches Err(LinearError::UnexpectedResponse(body)) && body@ == json_text(
                    *reply,
                ),
            },
    {
        match reply_nodes(reply, "issues") {
            None => Err(LinearError::UnexpectedResponse(render(reply))),
            Some(nodes) => {
                let mut issues: Vec<LinearIssue> = Vec::new();
                let mut i: usize = 0;
                while i < nodes.len()
                    invariant
                        i <= nodes.len(),
                        linear_issue_views(issues@) == nodes@.take(i as int).map_values(
                            |node: Value| linear_issue_of(json_data(node)),
                        ),
                    decreases nodes.len() - i,
                {
                    let ghost before = linear_issue_views(issues@);
                    issues.push(LinearIssue::from_json(&nodes[i]));
                    proof {
                        let added = linear_issue_of(json_data(nodes@[i as int]));
                        assert(linear_issue_views(issues@) =~= before.push(added));
                    }
                    i += 1;
                }
                Ok(issues)
            },
        }
    }

    /// The request that creates an issue, for the team that the workspace
    /// names.
    pub fn create_issue(&self, workspace: Option<String>, title: &str, body: Option<
        &str,
    >) -> (request: HttpRequest)
        ensures
            sends_graphql(
                request@,
                self@.token,
                CREATE_ISSUE_MUTATION@,
                create_variables(
                    title@,
                    body.deep_view(),
                    first_of(workspace.deep_view(), self@.default_workspace),
                ),
            ),
    {
        let chosen = self.workspace_variable(workspace.as_ref());
        graphql_request(
            self.token.as_str(),
            CREATE_ISSUE_MUTATION,
            create_variables_value(title, body, as_text(&chosen)),
        )
    }

    /// Reads the reply to the creation of an issue: the issue under
    /// `data.issueCreate.issue`. A reply without it is refused, and kept as text
    /// in the error.
    pub fn create_issue_result(reply: &Value) -> (r: Result<LinearIssue, LinearError>)
        ensures
            match created_node(*reply) {
                Some(node) => r matches Ok(issue) && issue@ == linear_issue_of(json_data(node)),
                None => r matches Err(LinearError::UnexpectedResponse(body)) && body@ == json_text(
                    *reply,
                ),
            },
    {
        match get3(reply, "data", "issueCreate", "issue") {
            Some(node) => Ok(LinearIssue::from_json(node)),
            None => Err(LinearError::UnexpectedResponse(render(reply))),
        }
    }

    /// The request that lists the organizations of the account.
    pub fn list_workspaces(&self) -> (request: HttpRequest)
        ensures
            sends_json(
                request@,
                HttpMethod::Post,
                LINEAR_GRAPHQL@,
                linear_headers(self@.token),
                JsonData::Object(map!["query"@ => JsonData::Text(LIST_WORKSPACES_QUERY@)]),
            ),
    {
        HttpRequest {
            method: HttpMethod::Post,
            url: LINEAR_GRAPHQL.to_owned(),
            query: no_pairs(),
            headers: pairs1(bearer(self.token.as_str())),
            body: HttpBody::Json(object1("query", text_value(LIST_WORKSPACES_QUERY))),
        }
    }

    /// Reads the reply to the listing of organizations. Nodes that lack an
    /// `id`, a `name` or a `slug` are left out.
    pub fn list_workspaces_result(reply: &Value) -> (r: Result<Vec<LinearWorkspace>, LinearError>)
        ensures
            match nodes_of(*reply, "organizations"@) {
                Some(nodes) => r matches Ok(found) && found@.map_values(
                    |w: LinearWorkspace| w@,
                ) == named_nodes(nodes, "slug"@),
                None => r matches Err(LinearError::UnexpectedResponse(body)) && body@ == json_text(
                    *reply,
                ),
            },
    {
        match reply_nodes(reply, "organizations") {
            None => Err(LinearError::UnexpectedResponse(render(reply))),
            Some(nodes) => {
                let mut found: Vec<LinearWorkspace> = Vec::new();
                let mut i: usize = 0;
                while i < nodes.len()
                    invariant
                        i <= nodes.len(),
                        found@.map_values(|w: LinearWorkspace| w@) == named_nodes(
                            nodes@.take(i as int),
                            "slug"@,
                        ),
                    decreases nodes.len() - i,
                {
                    proof {
                        assert(nodes@.take(i + 1).drop_last() =~= nodes@.take(i as int));
                    }
                    match read_named(&nodes[i], "slug") {
                        Some((id, name, slug)) => {
                            let workspace = LinearWorkspace { id, name, slug };
                            found.push(workspace);
                        },
                        None => {},
                    }
                    i += 1;
                }
                proof {
                    assert(nodes@.take(nodes.len() as int) =~= nodes@);
                }
                Ok(found)
            },
        }
    }

    /// The request that lists up to 50 teams of a workspace.
    pub fn list_teams(&self, workspace: Option<String>) -> (request: HttpRequest)
        ensures
            sends_graphql(
                request@,
                self@.token,
                LIST_TEAMS_QUERY@,
                workspace_variables(first_of(workspace.deep_view(), self@.default_workspace)),
            ),
    {
        let chosen = self.workspace_variable(workspace.as_ref());
        graphql_request(
            self.token.as_str(),
            LIST_TEAMS_QUERY,
            workspace_variables_value(as_text(&chosen)),
        )
    }

    /// Reads the reply to the listing of teams. Nodes that lack an `id`, a
    /// `name` or a `key` are left out.
    pub fn list_teams_result(reply: &Value) -> (r: Result<Vec<LinearTeam>, LinearError>)
        ensures
            match nodes_of(*reply, "teams"@) {
                Some(nodes) => r matches Ok(found) && found@.map_values(|t: LinearTeam| t@)
                    == named_nodes(nodes, "key"@),
                None => r matches Err(LinearError::UnexpectedResponse(body)) && body@ == json_text(
                    *reply,
                ),
            },
    {
        match reply_nodes(reply, "teams") {
            None => Err(LinearError::UnexpectedResponse(render(reply))),
            Some(nodes) => {
                let mut found: Vec<LinearTeam> = Vec::new();
                let mut i: usize = 0;
                while i < nodes.len()
                    invariant
                        i <= nodes.len(),
                        found@.map_values(|t: LinearTeam| t@) == named_nodes(
                            nodes@.take(i as int),
                            "key"@,
                        ),
                    decreases nodes.len() - i,
                {
                    proof {
                        assert(nodes@.take(i + 1).drop_last() =~= nodes@.take(i as int));
                    }
                    match read_named(&nodes[i], "key") {
                        Some((id, name, key)) => {
                            let team = LinearTeam { id, name, key };
                            found.push(team);
                        },
                        None => {},
                    }
                    i += 1;
                }
                proof {
                    assert(nodes@.take(nodes.len() as int) =~= nodes@);
                }
                Ok(found)
            },
        }
    }
}

/// The message of an error. A transport failure has the message of its
/// cause.
pub open spec fn linear_error_text(e: LinearError) -> Seq<char> {
    match e {
        LinearError::MissingCredentials => "missing credentials"@,
        LinearError::WorkspaceRequired => "workspace is required"@,
        LinearError::Configuration(detail) => "configuration error: "@ + detail@,
        LinearError::UnexpectedResponse(body) => "provider response is malformed: "@ + body@,
        LinearError::Http(cause) => crate::unified::transport_text(cause),
    }
}

impl LinearError {
    /// The message shown to people.
    pub fn message(&self) -> (text: String)
        ensures
            text@ == linear_error_text(*self),
    {
        match self {
            LinearError::MissingCredentials => "missing credentials".to_owned(),
            LinearError::WorkspaceRequired => "workspace is required".to_owned(),
            LinearError::Configuration(detail) => crate::text::join2(
                "configuration error: ",
                detail.as_str(),
            ),
            LinearError::UnexpectedResponse(body) => crate::text::join2(
                "provider response is malformed: ",
                body.as_str(),
            ),
            LinearError::Http(cause) => crate::unified::transport_message(cause),
        }
    }
}

} // verus!
