//! Jira: issues of a project, searched with JQL and created with a
//! description in the Atlassian document format.

use crate::encoding::{base64_encode, base64_of, percent_encode, percent_encoded};
use crate::http::{
    choose_scope, first_of, no_pairs, pair, pairs2, plain_request, sends_json, HttpBody,
    HttpMethod, HttpRequest,
};
use crate::json::{
    json_text, render, array1, array_items, get, integer_value, json_data, member, member_value,
    nested_string_field, nested_text, object1, object2, object3, object4, string_field,
    string_field_or, text_member, text_member_or, text_or, text_value, JsonData, JsonNumber,
};
use crate::text::{join2, join3, replace, replace_all};
use serde_json::Value;
use vstd::prelude::*;
use vstd::string::*;
use vstd::utf8::encode_utf8;

verus! {

/// Why a Jira operation failed.
#[derive(Debug)]
pub enum JiraError {
    MissingCredentials,
    ServerUrlRequired,
    ProjectRequired,
    Configuration(String),
    /// A reply did not have the expected shape; the reply is kept as text.
    UnexpectedResponse(String),
    Http(reqwest::Error),
}

#[derive(Clone, Debug)]
pub struct JiraConfig {
    pub server_url: Option<String>,
    pub default_project: Option<String>,
    pub email: Option<String>,
}

impl Default for JiraConfig {
    fn default() -> (config: JiraConfig)
        ensures
            config.server_url is None,
            config.default_project is None,
            config.email is None,
    {
        JiraConfig { server_url: None, default_project: None, email: None }
    }
}

/// One issue as Jira reports it.
#[derive(Clone, Debug)]
pub struct JiraIssue {
    pub id: String,
    pub key: String,
    pub summary: String,
    pub description: Option<String>,
    pub status: String,
    pub url: Option<String>,
}

#[derive(Clone, Debug)]
pub struct JiraProject {
    pub id: String,
    pub key: String,
    pub name: String,
}

/// The mathematical content of a `JiraIssue`.
pub struct JiraIssueView {
    pub id: Seq<char>,
    pub key: Seq<char>,
    pub summary: Seq<char>,
    pub description: Option<Seq<char>>,
    pub status: Seq<char>,
    pub url: Option<Seq<char>>,
}

impl View for JiraIssue {
    type V = JiraIssueView;

    open spec fn view(&self) -> JiraIssueView {
        JiraIssueView {
            id: self.id@,
            key: self.key@,
            summary: self.summary@,
            description: self.description.deep_view(),
            status: self.status@,
            url: self.url.deep_view(),
        }
    }
}

/// The content of each issue of a list.
pub open spec fn jira_issue_views(issues: Seq<JiraIssue>) -> Seq<JiraIssueView> {
    issues.map_values(|issue: JiraIssue| issue@)
}

/// The part of an issue's API address that is replaced to get the address
/// people open.
pub open spec fn api_path() -> Seq<char> {
    "/rest/api/3/issue/"@
}

/// The name of the status of an issue: `fields.status.name`, else `unknown`.
pub open spec fn status_name(d: JsonData) -> Seq<char> {
    match member(d, "fields"@) {
        Some(fields) => match nested_text(fields, "status"@, "name"@) {
            Some(name) => name,
            None => "unknown"@,
        },
        None => "unknown"@,
    }
}

/// The address at which people open an issue: its API address, with the API
/// path replaced by `/browse/`.
pub open spec fn browse_url(d: JsonData) -> Option<Seq<char>> {
    match text_member(d, "self"@) {
        Some(address) => Some(replace_all(address, api_path(), "/browse/"@)),
        None => None,
    }
}

/// The issue that a JSON record describes.
pub open spec fn jira_issue_of(d: JsonData) -> JiraIssueView {
    JiraIssueView {
        id: text_member_or(d, "id"@, Seq::empty()),
        key: text_member_or(d, "key"@, Seq::empty()),
        summary: match nested_text(d, "fields"@, "summary"@) {
            Some(text) => text,
            None => "untitled"@,
        },
        description: nested_text(d, "fields"@, "description"@),
        status: status_name(d),
        url: browse_url(d),
    }
}

/// The name of the status of an issue.
fn read_status(value: &Value) -> (name: String)
    ensures
        name@ == status_name(json_data(*value)),
{
    match get(value, "fields") {
        Some(fields) => text_or(nested_string_field(fields, "status", "name"), "unknown"),
        None => "unknown".to_owned(),
    }
}

impl JiraIssue {
    /// Reads an issue from the JSON record that Jira sends for it.
    pub fn from_json(value: &Value) -> (issue: JiraIssue)
        ensures
            issue@ == jira_issue_of(json_data(*value)),
    {
        proof {
            reveal_strlit("");
            assert(""@ =~= Seq::<char>::empty());
        }
        let url = match string_field(value, "self") {
            Some(address) => Some(replace(address.as_str(), "/rest/api/3/issue/", "/browse/")),
            None => None,
        };
        JiraIssue {
            id: string_field_or(value, "id", ""),
            key: string_field_or(value, "key", ""),
            summary: text_or(nested_string_field(value, "fields", "summary"), "untitled"),
            description: nested_string_field(value, "fields", "description"),
            status: read_status(value),
            url,
        }
    }
}

/// A client for one Jira site: its address, the token of the account and
/// the project it works in when a call names none.
pub struct JiraClient {
    server_url: String,
    token: String,
    default_project: Option<String>,
}

/// The mathematical content of a `JiraClient`.
pub struct JiraClientView {
    pub server_url: Seq<char>,
    pub token: Seq<char>,
    pub default_project: Option<Seq<char>>,
}

impl View for JiraClient {
    type V = JiraClientView;

    closed spec fn view(&self) -> JiraClientView {
        JiraClientView {
            server_url: self.server_url@,
            token: self.token@,
            default_project: self.default_project.deep_view(),
        }
    }
}

/// The value of the header `Authorization`: HTTP Basic, with the token as
/// the password.
pub open spec fn basic_auth(token: Seq<char>) -> Seq<char> {
    "Basic "@ + base64_of(encode_utf8("email:"@ + token))
}

/// The headers of every call to Jira.
pub open spec fn jira_headers(token: Seq<char>) -> Seq<(Seq<char>, Seq<char>)> {
    seq![("Authorization"@, basic_auth(token)), ("Content-Type"@, "application/json"@)]
}

/// The search for the issues of a project that are not done, the newest
/// first.
pub open spec fn jql_text(project: Seq<char>) -> Seq<char> {
    "project = "@ + project + " AND status != Done ORDER BY created DESC"@
}

/// The address of the search for up to 50 issues of a project.
pub open spec fn search_url(server_url: Seq<char>, project: Seq<char>) -> Seq<char> {
    server_url + "/rest/api/3/search?jql="@ + percent_encoded(jql_text(project))
        + "&maxResults=50"@
}

/// A description in the Atlassian document format: one paragraph with one
/// run of text.
pub open spec fn document_data(text: Seq<char>) -> JsonData {
    JsonData::Object(
        map![
            "type"@ => JsonData::Text("doc"@),
            "version"@ => JsonData::Number(JsonNumber::Integer(1)),
            "content"@ => JsonData::Array(
                seq![
                    JsonData::Object(
                        map![
                            "type"@ => JsonData::Text("paragraph"@),
                            "content"@ => JsonData::Array(
                                seq![
                                    JsonData::Object(
                                        map![
                                            "type"@ => JsonData::Text("text"@),
                                            "text"@ => JsonData::Text(text)
                                        ],
                                    )
                                ],
                            )
                        ],
                    )
                ],
            )
        ],
    )
}

/// The fields of a new issue: the project, the summary, the issue type
/// `Task` and, where a description is given, the description as a document.
pub open spec fn new_issue_fields(
    project: Seq<char>,
    summary: Seq<char>,
    description: Option<Seq<char>>,
) -> JsonData {
    let project_data = JsonData::Object(map!["key"@ => JsonData::Text(project)]);
    let type_data = JsonData::Object(map!["name"@ => JsonData::Text("Task"@)]);
    match description {
        None => JsonData::Object(
            map![
                "project"@ => project_data,
                "summary"@ => JsonData::Text(summary),
                "issuetype"@ => type_data
            ],
        ),
        Some(text) => JsonData::Object(
            map![
                "project"@ => project_data,
                "summary"@ => JsonData::Text(summary),
                "issuetype"@ => type_data,
                "description"@ => document_data(text)
            ],
        ),
    }
}

/// The document that creates an issue.
pub open spec fn new_issue_data(
    project: Seq<char>,
    summary: Seq<char>,
    description: Option<Seq<char>>,
) -> JsonData {
    JsonData::Object(map!["fields"@ => new_issue_fields(project, summary, description)])
}

/// The records that a search reply lists: the elements of its member
/// `issues`, where that is an array.
pub open spec fn listed_items(reply: Value) -> Option<Seq<Value>> {
    match member_value(reply, "issues"@) {
        Some(listing) => array_items(listing),
        None => None,
    }
}

/// The records that a search reply lists.
pub fn reply_items<'a>(reply: &'a Value) -> (items: Option<&'a Vec<Value>>)
    ensures
        items matches Some(found) ==> listed_items(*reply) == Some(found@),
        items is None ==> listed_items(*reply) is None,
{
    match get(reply, "issues") {
        Some(listing) => listing.as_array(),
        None => None,
    }
}

/// A description as a document of one paragraph.
pub fn document_value(text: &str) -> (document: Value)
    ensures
        json_data(document) == document_data(text@),
{
    proof {
        reveal_strlit("type");
        reveal_strlit("text");
        reveal_strlit("version");
        reveal_strlit("content");
        assert("type"@[1] != "text"@[1]);
        assert("version"@[0] != "content"@[0]);
    }
    let run = object2("type", text_value("text"), "text", text_value(text));
    let paragraph = object2("type", text_value("paragraph"), "content", array1(run));
    object3(
        "type",
        text_value("doc"),
        "version",
        integer_value(1),
        "content",
        array1(paragraph),
    )
}

/// The fields of a new issue.
pub fn new_issue_fields_value(project: &str, summary: &str, description: Option<&str>) -> (fields:
    Value)
    ensures
        json_data(fields) == new_issue_fields(project@, summary@, description.deep_view()),
{
    proof {
        reveal_strlit("project");
        reveal_strlit("summary");
        reveal_strlit("issuetype");
        reveal_strlit("description");
        assert("project"@[0] != "summary"@[0]);
        assert("project"@.len() != "issuetype"@.len());
    }
    let project_value = object1("key", text_value(project));
    let type_value = object1("name", text_value("Task"));
    match description {
        None => object3(
            "project",
            project_value,
            "summary",
            text_value(summary),
            "issuetype",
            type_value,
        ),
        Some(text) => object4(
            "project",
            project_value,
            "summary",
            text_value(summary),
            "issuetype",
            type_value,
            "description",
            document_value(text),
        ),
    }
}

impl JiraClient {
    pub fn new(token: String, server_url: String, default_project: Option<String>) -> (client:
        JiraClient)
        ensures
            client@ == (JiraClientView {
                server_url: server_url@,
                token: token@,
                default_project: default_project.deep_view(),
            }),
    {
        JiraClient { server_url, token, default_project }
    }

    pub fn with_project(token: String, server_url: String, project: String) -> (client: JiraClient)
        ensures
            client@ == (JiraClientView {
                server_url: server_url@,
                token: token@,
                default_project: Some(project@),
            }),
    {
        JiraClient { server_url, token, default_project: Some(project) }
    }

    /// The default project of the client.
    pub fn config(&self) -> (project: Option<&String>)
        ensures
            project.deep_view() == self@.default_project,
    {
        self.default_project.as_ref()
    }

    /// The value of the header `Authorization`.
    pub fn auth_header(&self) -> (value: String)
        ensures
            value@ == basic_auth(self@.token),
    {
        let credentials = join2("email:", self.token.as_str());
        let encoded = base64_encode(credentials.as_str());
        join2("Basic ", encoded.as_str())
    }

    /// The headers of a call.
    fn headers(&self) -> (headers: Vec<(String, String)>)
        ensures
            headers.deep_view() == jira_headers(self@.token),
    {
        let value = self.auth_header();
        pairs2(pair("Authorization", value.as_str()), pair("Content-Type", "application/json"))
    }

    /// The project to work in: `override_project` where it is given, else
    /// the default of the client. Without either, a project is required.
    pub fn resolve_project(&self, override_project: Option<&String>) -> (r: Result<
        String,
        JiraError,
    >)
        ensures
            match first_of(override_project.deep_view(), self@.default_project) {
                Some(project) => r matches Ok(found) && found@ == project,
                None => r matches Err(JiraError::ProjectRequired),
            },
    {
        match choose_scope(override_project, &self.default_project) {
            Some(project) => Ok(project),
            None => Err(JiraError::ProjectRequired),
        }
    }

    /// The request that searches up to 50 issues of a project that are not
    /// done.
    pub fn list_issues(&self, project: Option<String>) -> (r: Result<HttpRequest, JiraError>)
        ensures
            match first_of(project.deep_view(), self@.default_project) {
                Some(key) => r matches Ok(request) && request@ == plain_request(
                    HttpMethod::Get,
                    search_url(self@.server_url, key),
                    Seq::empty(),
                    jira_headers(self@.token),
                ),
                None => r matches Err(JiraError::ProjectRequired),
            },
    {
        let key = self.resolve_project(project.as_ref())?;
        let jql = join3(
            "project = ",
            key.as_str(),
            " AND status != Done ORDER BY created DESC",
        );
        let encoded = percent_encode(jql.as_str());
        let mut url = self.server_url.clone();
        url.append("/rest/api/3/search?jql=");
        url.append(encoded.as_str());
        url.append("&maxResults=50");
        Ok(
            HttpRequest {
                method: HttpMethod::Get,
                url,
                query: no_pairs(),
                headers: self.headers(),
                body: HttpBody::Empty,
            },
        )
    }

    /// Reads the reply to a search: one issue per element of its member
    /// `issues`. A reply without that array is refused, and kept as text in
    /// the error.
    pub fn list_issues_result(reply: &Value) -> (r: Result<Vec<JiraIssue>, JiraError>)
        ensures
            match listed_items(*reply) {
                Some(items) => r matches Ok(issues) && jira_issue_views(issues@)
                    == items.map_values(|item: Value| jira_issue_of(json_data(item))),
                None => r matches Err(JiraError::UnexpectedResponse(body)) && body@ == json_text(
                    *reply,
                ),
            },
    {
        let items = match reply_items(reply) {
            Some(items) => items,
            None => {
                return Err(JiraError::UnexpectedResponse(render(reply)));
            },
        };
        let mut issues: Vec<JiraIssue> = Vec::new();
        let mut i: usize = 0;
        while i < items.len()
            invariant
                i <= items.len(),
                jira_issue_views(issues@) == items@.take(i as int).map_values(
                    |item: Value| jira_issue_of(json_data(item)),
                ),
            decreases items.len() - i,
        {
            let ghost before = jira_issue_views(issues@);
            issues.push(JiraIssue::from_json(&items[i]));
            proof {
                let added = jira_issue_of(json_data(items@[i as int]));
                assert(jira_issue_views(issues@) =~= before.push(added));
            }
            i += 1;
        }
        proof {
            assert(items@.take(items.len() as int) =~= items@);
        }
        Ok(issues)
    }

    /// The request that creates an issue of type `Task` in a project.
    pub fn create_issue(
        &self,
        project: Option<String>,
        summary: &str,
        description: Option<&str>,
    ) -> (r: Result<HttpRequest, JiraError>)
        ensures
            match first_of(project.deep_view(), self@.default_project) {
                Some(key) => r matches Ok(request) && sends_json(
                    request@,
                    HttpMethod::Post,
                    self@.server_url + "/rest/api/3/issue"@,
                    jira_headers(self@.token),
                    new_issue_data(key, summary@, description.deep_view()),
                ),
                None => r matches Err(JiraError::ProjectRequired),
            },
    {
        let key = self.resolve_project(project.as_ref())?;
        let fields = new_issue_fields_value(key.as_str(), summary, description);
        Ok(
            HttpRequest {
                method: HttpMethod::Post,
                url: join2(self.server_url.as_str(), "/rest/api/3/issue"),
                query: no_pairs(),
                headers: self.headers(),
                body: HttpBody::Json(object1("fields", fields)),
            },
        )
    }

    /// The request for the projects of the site.
    pub fn list_projects(&self) -> (request: HttpRequest)
        ensures
            request@ == plain_request(
                HttpMethod::Get,
                self@.server_url + "/rest/api/3/project"@,
                Seq::empty(),
                jira_headers(self@.token),
            ),
    {
        HttpRequest {
            method: HttpMethod::Get,
            url: join2(self.server_url.as_str(), "/rest/api/3/project"),
            query: no_pairs(),
            headers: self.headers(),
            body: HttpBody::Empty,
        }
    }
}

/// The message of an error. A transport failure has the message of its
/// cause.
pub open spec fn jira_error_text(e: JiraError) -> Seq<char> {
    match e {
        JiraError::MissingCredentials => "missing credentials"@,
        JiraError::ServerUrlRequired => "server URL is required"@,
        JiraError::ProjectRequired => "project is required"@,
        JiraError::Configuration(detail) => "configuration error: "@ + detail@,
        JiraError::UnexpectedResponse(body) => "provider response is malformed: "@ + body@,
        JiraError::Http(cause) => crate::unified::transport_text(cause),
    }
}

impl JiraError {
    /// The message shown to people.
    pub fn message(&self) -> (text: String)
        ensures
            text@ == jira_error_text(*self),
    {
        match self {
            JiraError::MissingCredentials => "missing credentials".to_owned(),
            JiraError::ServerUrlRequired => "server URL is required".to_owned(),
            JiraError::ProjectRequired => "project is required".to_owned(),
            JiraError::Configuration(detail) => crate::text::join2(
                "configuration error: ",
                detail.as_str(),
            ),
            JiraError::UnexpectedResponse(body) => crate::text::join2(
                "provider response is malformed: ",
                body.as_str(),
            ),
            JiraError::Http(cause) => crate::unified::transport_message(cause),
        }
    }
}

} // verus!
