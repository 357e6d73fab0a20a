//! The Linear adapter of the unified interface.

use crate::http::{choose_scope, first_of, Step};
use crate::json::{
    json_data, json_text, nested_string_field, render, string_field, string_field_or,
    text_member, text_member_or, text_or, get3,
};
use crate::providers::linear::{
    create_variables, create_variables_value, created_node, graphql_request, nodes_of,
    reply_nodes, sends_graphql, state_name, workspace_variables, workspace_variables_value,
    CREATE_ISSUE_MUTATION,
};
use crate::text::as_text;
use crate::unified::{
    issue_views, ErrorView, IssueView, ProviderId, UnifiedCreateParams, UnifiedError,
    UnifiedIssue, UnifiedListQuery,
};
use serde_json::Value;
use vstd::prelude::*;
use vstd::string::*;

verus! {

/// The query that lists up to 20 issues whose state is not completed.
pub const LIST_QUERY: &'static str = r#"
                query($workspaceId: String) {
                    issues(first: 20, filter: { state: { type: { neq: "completed" } } }) {
                        nodes {
                            id
                            title
                            description
                            url
                            state {
                                name
                            }
                        }
                    }
                }
            "#;

/// The Linear adapter: a token and the workspace to work in when a call
/// names none.
pub struct LinearClient {
    token: String,
    default_workspace: Option<String>,
}

/// The mathematical content of the adapter.
pub struct LinearClientView {
    pub token: Seq<char>,
    pub default_workspace: Option<Seq<char>>,
}

impl View for LinearClient {
    type V = LinearClientView;

    closed spec fn view(&self) -> LinearClientView {
        LinearClientView {
            token: self.token@,
            default_workspace: self.default_workspace.deep_view(),
        }
    }
}

/// The unified record for a node of a GraphQL reply. The node itself is kept
/// as the raw payload.
pub open spec fn linear_issue(node: Value) -> IssueView {
    let d = json_data(node);
    IssueView {
        id: text_member_or(d, "id"@, Seq::empty()),
        title: text_member_or(d, "title"@, "untitled"@),
        state: state_name(d),
        url: text_member(d, "url"@),
        provider: ProviderId::Linear,
        raw_payload: node,
    }
}

/// What `list` answers to the reply: one record per node under
/// `data.issues.nodes`, in its order; a reply without that array is refused
/// and kept as text.
pub open spec fn list_closing(r: Result<Step<Vec<UnifiedIssue>>, UnifiedError>, reply: Value) -> bool {
    match nodes_of(reply, "issues"@) {
        Some(nodes) => r matches Ok(Step::Done(issues)) && issue_views(issues@)
            == nodes.map_values(|node: Value| linear_issue(node)),
        None => r matches Err(e) && e@ == ErrorView::UnexpectedResponse(json_text(reply)),
    }
}

/// What `create` answers to the reply: the record of the issue under
/// `data.issueCreate.issue`; a reply without it is refused and kept as text.
pub open spec fn create_closing(r: Result<Step<UnifiedIssue>, UnifiedError>, reply: Value) -> bool {
    match created_node(reply) {
        Some(node) => r matches Ok(Step::Done(issue)) && issue@ == linear_issue(node),
        None => r matches Err(e) && e@ == ErrorView::UnexpectedResponse(json_text(reply)),
    }
}

/// What `list` answers: the request while no reply has come, then the
/// issues of the reply.
pub open spec fn list_answer(
    client: LinearClientView,
    workspace: Option<Seq<char>>,
    replies: Seq<Value>,
    r: Result<Step<Vec<UnifiedIssue>>, UnifiedError>,
) -> bool {
    if replies.len() == 0 {
        r matches Ok(Step::Send(request)) && sends_graphql(
            request@,
            client.token,
            LIST_QUERY@,
            workspace_variables(first_of(workspace, client.default_workspace)),
        )
    } else {
        list_closing(r, replies[0])
    }
}

/// What `create` answers: the request while no reply has come, then the
/// record of the new issue.
pub open spec fn create_answer(
    client: LinearClientView,
    workspace: Option<Seq<char>>,
    title: Seq<char>,
    body: Option<Seq<char>>,
    replies: Seq<Value>,
    r: Result<Step<UnifiedIssue>, UnifiedError>,
) -> bool {
    if replies.len() == 0 {
        r matches Ok(Step::Send(request)) && sends_graphql(
            request@,
            client.token,
            CREATE_ISSUE_MUTATION@,
            create_variables(title, body, first_of(workspace, client.default_workspace)),
        )
    } else {
        create_closing(r, replies[0])
    }
}

impl LinearClient {
    pub fn new(token: String, default_workspace: Option<String>) -> (client: LinearClient)
        ensures
            client@ == (LinearClientView {
                token: token@,
                default_workspace: default_workspace.deep_view(),
            }),
    {
        LinearClient { token, default_workspace }
    }

    pub fn provider(&self) -> (id: ProviderId)
        ensures
            id == ProviderId::Linear,
    {
        ProviderId::Linear
    }

    /// The workspace to name in a call: `override_workspace` where it is
    /// given, else the default of the adapter, else none.
    pub fn workspace_variable(&self, override_workspace: Option<&String>) -> (workspace: Option<
        String,
    >)
        ensures
            workspace.deep_view() == first_of(
                override_workspace.deep_view(),
                self@.default_workspace,
            ),
    {
        choose_scope(override_workspace, &self.default_workspace)
    }

    /// Projects a node of a GraphQL reply into the unified record.
    pub fn map_node(&self, value: &Value) -> (issue: UnifiedIssue)
        ensures
            issue@ == linear_issue(*value),
    {
        proof {
            reveal_strlit("");
            assert(""@ =~= Seq::<char>::empty());
        }
        UnifiedIssue {
            id: string_field_or(value, "id", ""),
            title: string_field_or(value, "title", "untitled"),
            state: text_or(nested_string_field(value, "state", "name"), "unknown"),
            url: string_field(value, "url"),
            provider: ProviderId::Linear,
            raw_payload: value.clone(),
        }
    }

    /// The nodes under `data.issues.nodes` of a reply. A reply without that
    /// array is refused, and kept as text in the error.
    pub fn extract_nodes(response: &Value) -> (r: Result<Vec<Value>, UnifiedError>)
        ensures
            match nodes_of(*response, "issues"@) {
                Some(nodes) => r matches Ok(found) && found@ == nodes,
                None => r matches Err(e) && e@ == ErrorView::UnexpectedResponse(
                    json_text(*response),
                ),
            },
    {
        match reply_nodes(response, "issues") {
            Some(nodes) => Ok(nodes.clone()),
            None => Err(UnifiedError::UnexpectedResponse(render(response))),
        }
    }

    /// Lists the issues that are not completed, 20 at most.
    ///
    /// Called with no reply, it answers with the request to send. Called
    /// again with the reply to that request, it answers with the issues.
    pub fn list(&self, query: &UnifiedListQuery, replies: &Vec<Value>) -> (r: Result<
        Step<Vec<UnifiedIssue>>,
        UnifiedError,
    >)
        ensures
            list_answer(self@, query.workspace.deep_view(), replies@, r),
    {
        if replies.len() == 0 {
            let chosen = self.workspace_variable(query.workspace.as_ref());
            Ok(
                Step::Send(
                    graphql_request(
                        self.token.as_str(),
                        LIST_QUERY,
                        workspace_variables_value(as_text(&chosen)),
                    ),
                ),
            )
        } else {
            let nodes = LinearClient::extract_nodes(&replies[0])?;
            let mut issues: Vec<UnifiedIssue> = Vec::new();
            let mut i: usize = 0;
            while i < nodes.len()
                invariant
                    i <= nodes.len(),
                    issue_views(issues@) == nodes@.take(i as int).map_values(
                        |node: Value| linear_issue(node),
                    ),
                decreases nodes.len() - i,
            {
                let ghost before = issue_views(issues@);
                issues.push(self.map_node(&nodes[i]));
                proof {
                    let added = linear_issue(nodes@[i as int]);
                    assert(issue_views(issues@) =~= before.push(added));
                }
                i += 1;
            }
            proof {
                assert(nodes@.take(nodes.len() as int) =~= nodes@);
            }
            Ok(Step::Done(issues))
        }
    }

    /// Creates an issue for the team that the workspace names.
    ///
    /// Called with no reply, it answers with the request to send. Called
    /// again with the reply, it answers with the record of the new issue.
    pub fn create(&self, params: &UnifiedCreateParams, replies: &Vec<Value>) -> (r: Result<
        Step<UnifiedIssue>,
        UnifiedError,
    >)
        ensures
            create_answer(
                self@,
                params.workspace.deep_view(),
                params.title@,
                params.body.deep_view(),
                replies@,
                r,
            ),
    {
        if replies.len() == 0 {
            let chosen = self.workspace_variable(params.workspace.as_ref());
            Ok(
                Step::Send(
                    graphql_request(
                        self.token.as_str(),
                        CREATE_ISSUE_MUTATION,
                        create_variables_value(
                            params.title.as_str(),
                            as_text(&params.body),
                            as_text(&chosen),
                        ),
                    ),
                ),
            )
        } else {
            match get3(&replies[0], "data", "issueCreate", "issue") {
                Some(node) => Ok(Step::Done(self.map_node(node))),
                None => Err(UnifiedError::UnexpectedResponse(render(&replies[0]))),
            }
        }
    }
}

/// Creation and listing project a node alike: the record that `create`
/// answers for the node of a reply is the record that `list` answers for a
/// listing of that one node.
pub proof fn lemma_created_like_listed(
    client: LinearClientView,
    node: Value,
    creation: Value,
    listing: Value,
    params: UnifiedCreateParams,
    query: UnifiedListQuery,
    created: Result<Step<UnifiedIssue>, UnifiedError>,
    listed: Result<Step<Vec<UnifiedIssue>>, UnifiedError>,
)
    requires
        created_node(creation) == Some(node),
        nodes_of(listing, "issues"@) == Some(seq![node]),
        create_answer(
            client,
            params.workspace.deep_view(),
            params.title@,
            params.body.deep_view(),
            seq![creation],
            created,
        ),
        list_answer(client, query.workspace.deep_view(), seq![listing], listed),
    ensures
        created matches Ok(Step::Done(one)) && listed matches Ok(Step::Done(all)) && all@.len() == 1
            && all@[0]@ == one@,
{
    let all = listed->Ok_0->Done_0;
    assert(issue_views(all@).len() == 1);
    assert(issue_views(all@)[0] == linear_issue(node));
}

} // verus!
