//! The provider-neutral model: provider tags, unified records, parameter
//! bags and the shared error type.

pub mod dispatch;
pub mod github;
pub mod github_oauth;
pub mod jira;
pub mod linear;
pub mod trello;

pub use dispatch::{build, ProviderClient, ScopeDefaults};

use crate::json::{json_data, string_field, text_member_or};
use crate::text::{ascii_lower_text, ascii_lowercase, join2, join3, same};
use serde_json::Value;
use vstd::prelude::*;
use vstd::string::*;

verus! {

/// The closed set of supported issue trackers.
#[derive(Clone, Copy, Debug, PartialEq, Eq, Hash, Structural)]
pub enum ProviderId {
    Github,
    Linear,
    Trello,
    Jira,
}

/// The name of the environment variable that overrides the stored token of a
/// provider.
pub open spec fn env_var_text(id: ProviderId) -> Seq<char> {
    match id {
        ProviderId::Github => "KIREI_GITHUB_TOKEN"@,
        ProviderId::Linear => "KIREI_LINEAR_TOKEN"@,
        ProviderId::Trello => "KIREI_TRELLO_TOKEN"@,
        ProviderId::Jira => "KIREI_JIRA_TOKEN"@,
    }
}

/// The name under which a provider is shown to people.
pub open spec fn display_name_text(id: ProviderId) -> Seq<char> {
    match id {
        ProviderId::Github => "GitHub"@,
        ProviderId::Linear => "Linear"@,
        ProviderId::Trello => "Trello"@,
        ProviderId::Jira => "Jira"@,
    }
}

/// The provider that a text names: the text is compared, ASCII capitals
/// lowered, with the four lower-case names.
pub open spec fn parse_provider(text: Seq<char>) -> Option<ProviderId> {
    let lower = ascii_lower_text(text);
    if lower == "github"@ {
        Some(ProviderId::Github)
    } else if lower == "linear"@ {
        Some(ProviderId::Linear)
    } else if lower == "trello"@ {
        Some(ProviderId::Trello)
    } else if lower == "jira"@ {
        Some(ProviderId::Jira)
    } else {
        None
    }
}

/// The message for a text that names no provider.
pub open spec fn unknown_provider_text(text: Seq<char>) -> Seq<char> {
    "unknown provider '"@ + text + "'"@
}

impl ProviderId {
    pub fn env_var(&self) -> (name: &'static str)
        ensures
            name@ == env_var_text(*self),
    {
        match self {
            ProviderId::Github => "KIREI_GITHUB_TOKEN",
            ProviderId::Linear => "KIREI_LINEAR_TOKEN",
            ProviderId::Trello => "KIREI_TRELLO_TOKEN",
            ProviderId::Jira => "KIREI_JIRA_TOKEN",
        }
    }

    pub fn display_name(&self) -> (name: &'static str)
        ensures
            name@ == display_name_text(*self),
    {
        match self {
            ProviderId::Github => "GitHub",
            ProviderId::Linear => "Linear",
            ProviderId::Trello => "Trello",
            ProviderId::Jira => "Jira",
        }
    }

    /// Reads a provider tag from free text, ignoring the case of ASCII
    /// letters. Any other text is refused with a message that quotes it.
    pub fn parse(text: &str) -> (r: Result<ProviderId, String>)
        ensures
            match r {
                Ok(id) => parse_provider(text@) == Some(id),
                Err(message) => parse_provider(text@) is None && message@
                    == unknown_provider_text(text@),
            },
    {
        let lower = ascii_lowercase(text);
        if same(lower.as_str(), "github") {
            Ok(ProviderId::Github)
        } else if same(lower.as_str(), "linear") {
            Ok(ProviderId::Linear)
        } else if same(lower.as_str(), "trello") {
            Ok(ProviderId::Trello)
        } else if same(lower.as_str(), "jira") {
            Ok(ProviderId::Jira)
        } else {
            Err(join3("unknown provider '", text, "'"))
        }
    }

    /// The display name as an owned string.
    pub fn label(&self) -> (name: String)
        ensures
            name@ == display_name_text(*self),
    {
        self.display_name().to_owned()
    }
}

impl Default for ProviderId {
    fn default() -> (id: ProviderId)
        ensures
            id == ProviderId::Github,
    {
        ProviderId::Github
    }
}

impl std::str::FromStr for ProviderId {
    type Err = String;

    fn from_str(s: &str) -> (r: Result<ProviderId, String>)
        ensures
            match r {
                Ok(id) => parse_provider(s@) == Some(id),
                Err(message) => parse_provider(s@) is None && message@ == unknown_provider_text(
                    s@,
                ),
            },
    {
        ProviderId::parse(s)
    }
}

/// Every provider is found again from its display name: lowering the display
/// name and parsing it gives the provider back.
pub proof fn lemma_display_name_round_trip(id: ProviderId)
    ensures
        parse_provider(ascii_lower_text(display_name_text(id))) == Some(id),
{
    reveal_strlit("GitHub");
    reveal_strlit("Linear");
    reveal_strlit("Trello");
    reveal_strlit("Jira");
    reveal_strlit("github");
    reveal_strlit("linear");
    reveal_strlit("trello");
    reveal_strlit("jira");
    let lowered = ascii_lower_text(ascii_lower_text(display_name_text(id)));
    match id {
        ProviderId::Github => {
            assert(lowered =~= "github"@);
        },
        ProviderId::Linear => {
            assert(lowered =~= "linear"@);
            assert("linear"@[0] != "github"@[0]);
        },
        ProviderId::Trello => {
            assert(lowered =~= "trello"@);
            assert("trello"@[0] != "github"@[0]);
        },
        ProviderId::Jira => {
            assert(lowered =~= "jira"@);
        },
    }
}

#[verifier::external_type_specification]
#[verifier::external_body]
pub struct ExTransportError(reqwest::Error);

/// One issue, card or ticket, in the shape shared by all trackers.
#[derive(Debug, Clone)]
pub struct UnifiedIssue {
    /// The tracker's own identifier, as text.
    pub id: String,
    pub title: String,
    /// The tracker's own word for the state; not normalised.
    pub state: String,
    pub url: Option<String>,
    pub provider: ProviderId,
    /// The JSON record as the tracker sent it.
    pub raw_payload: Value,
}

#[derive(Debug, Clone)]
pub struct UnifiedProject {
    pub id: String,
    pub name: String,
    pub description: Option<String>,
    pub provider: ProviderId,
    pub raw: Value,
}

#[derive(Debug, Clone)]
pub struct UnifiedTask {
    pub id: String,
    pub title: String,
    pub description: Option<String>,
    pub status: String,
    pub project_id: String,
    pub provider: ProviderId,
    pub raw: Value,
}

#[derive(Debug, Clone)]
pub struct UnifiedListQuery {
    pub workspace: Option<String>,
    pub repo: Option<String>,
    pub search: Option<String>,
}

#[derive(Debug, Clone)]
pub struct UnifiedCreateParams {
    pub workspace: Option<String>,
    pub repo: Option<String>,
    pub title: String,
    pub body: Option<String>,
}

#[derive(Debug, Clone)]
pub struct UnifiedProjectQuery {
    pub workspace: Option<String>,
    pub repo: Option<String>,
    pub search: Option<String>,
}

#[derive(Debug, Clone)]
pub struct UnifiedCreateProjectParams {
    pub workspace: Option<String>,
    pub repo: Option<String>,
    pub name: String,
    pub description: Option<String>,
}

#[derive(Debug, Clone)]
pub struct UnifiedTaskQuery {
    pub project_id: Option<String>,
    pub status: Option<String>,
}

#[derive(Debug, Clone)]
pub struct UnifiedCreateTaskParams {
    pub project_id: String,
    pub title: String,
    pub description: Option<String>,
    pub status: Option<String>,
}

#[derive(Debug, Clone)]
pub struct UnifiedMoveTaskParams {
    pub task_id: String,
    pub target_status: String,
}

/// Why an operation on a tracker failed.
#[derive(Debug)]
pub enum UnifiedError {
    /// No token is known for the provider.
    MissingToken(ProviderId),
    /// The provider does not offer the operation.
    NotImplemented(ProviderId),
    /// A reply did not have the expected shape; the reply is kept as text.
    UnexpectedResponse(String),
    /// The exchange itself failed.
    Http(reqwest::Error),
    /// A scope is missing or malformed.
    Configuration(String),
}

/// The mathematical content of a `UnifiedIssue`.
pub struct IssueView {
    pub id: Seq<char>,
    pub title: Seq<char>,
    pub state: Seq<char>,
    pub url: Option<Seq<char>>,
    pub provider: ProviderId,
    pub raw_payload: Value,
}

impl View for UnifiedIssue {
    type V = IssueView;

    open spec fn view(&self) -> IssueView {
        IssueView {
            id: self.id@,
            title: self.title@,
            state: self.state@,
            url: self.url.deep_view(),
            provider: self.provider,
            raw_payload: self.raw_payload,
        }
    }
}

/// The content of each issue of a list.
pub open spec fn issue_views(issues: Seq<UnifiedIssue>) -> Seq<IssueView> {
    issues.map_values(|issue: UnifiedIssue| issue@)
}

/// The mathematical content of a `UnifiedError`.
pub enum ErrorView {
    MissingToken(ProviderId),
    NotImplemented(ProviderId),
    UnexpectedResponse(Seq<char>),
    Http(reqwest::Error),
    Configuration(Seq<char>),
}

impl View for UnifiedError {
    type V = ErrorView;

    open spec fn view(&self) -> ErrorView {
        match self {
            UnifiedError::MissingToken(id) => ErrorView::MissingToken(*id),
            UnifiedError::NotImplemented(id) => ErrorView::NotImplemented(*id),
            UnifiedError::UnexpectedResponse(body) => ErrorView::UnexpectedResponse(body@),
            UnifiedError::Http(cause) => ErrorView::Http(*cause),
            UnifiedError::Configuration(detail) => ErrorView::Configuration(detail@),
        }
    }
}

/// The message of a transport failure, as `to_string` renders it.
pub uninterp spec fn transport_text(cause: reqwest::Error) -> Seq<char>;

/// The message of an error. A transport failure has the message of its
/// cause.
pub open spec fn error_text(e: ErrorView) -> Seq<char> {
    match e {
        ErrorView::MissingToken(id) => "missing credentials for "@ + display_name_text(id),
        ErrorView::NotImplemented(id) => "provider "@ + display_name_text(id)
            + " is not implemented yet"@,
        ErrorView::UnexpectedResponse(body) => "provider response is malformed: "@ + body,
        ErrorView::Http(cause) => transport_text(cause),
        ErrorView::Configuration(detail) => "configuration error: "@ + detail,
    }
}

/// `to_string` of a `reqwest::Error`: the message of a transport failure.
#[verifier::external_body]
pub(crate) fn transport_message(cause: &reqwest::Error) -> (message: String)
    ensures
        message@ == transport_text(*cause),
{
    cause.to_string()
}

impl UnifiedError {
    /// The message shown to people.
    pub fn message(&self) -> (text: String)
        ensures
            text@ == error_text(self@),
    {
        match self {
            UnifiedError::MissingToken(id) => join2("missing credentials for ", id.display_name()),
            UnifiedError::NotImplemented(id) => join3(
                "provider ",
                id.display_name(),
                " is not implemented yet",
            ),
            UnifiedError::UnexpectedResponse(body) => join2(
                "provider response is malformed: ",
                body.as_str(),
            ),
            UnifiedError::Http(cause) => transport_message(cause),
            UnifiedError::Configuration(detail) => join2("configuration error: ", detail.as_str()),
        }
    }
}

/// The one-line summary of an issue: provider, state, title and the `url`
/// member of the raw record, or `no-url` where the record has none.
pub open spec fn summary_text(issue: IssueView) -> Seq<char> {
    display_name_text(issue.provider) + " ["@ + issue.state + "] "@ + issue.title + " ("@
        + text_member_or(json_data(issue.raw_payload), "url"@, "no-url"@) + ")"@
}

impl UnifiedIssue {
    pub fn display_summary(&self) -> (text: String)
        ensures
            text@ == summary_text(self@),
    {
        let mut text = self.provider.display_name().to_owned();
        text.append(" [");
        text.append(self.state.as_str());
        text.append("] ");
        text.append(self.title.as_str());
        text.append(" (");
        match string_field(&self.raw_payload, "url") {
            Some(url) => text.append(url.as_str()),
            None => text.append("no-url"),
        }
        text.append(")");
        text
    }
}

/// Every provider has an environment variable and a display name of its own:
/// no two providers share either.
pub proof fn lemma_names_identify_providers(a: ProviderId, b: ProviderId)
    ensures
        env_var_text(a) == env_var_text(b) ==> a == b,
        display_name_text(a) == display_name_text(b) ==> a == b,
{
    reveal_strlit("KIREI_GITHUB_TOKEN");
    reveal_strlit("KIREI_LINEAR_TOKEN");
    reveal_strlit("KIREI_TRELLO_TOKEN");
    reveal_strlit("KIREI_JIRA_TOKEN");
    reveal_strlit("GitHub");
    reveal_strlit("Linear");
    reveal_strlit("Trello");
    reveal_strlit("Jira");
    if a != b {
        assert(env_var_text(a)[6] != env_var_text(b)[6]);
        assert(display_name_text(a)[0] != display_name_text(b)[0]);
    }
}

} // verus!
