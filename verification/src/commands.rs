//! What the commands decide.
//!
//! The program around the library loads the configuration, reads the
//! environment, talks to the network and prints. Everything in between is
//! here: which providers a command addresses, which token each is called
//! with, what a command changes in the configuration and which lines it
//! shows.

use crate::args::{
    CreateArgs, GitHubRepoCommands, JiraProjectCommands, LinearWorkspaceCommands, ListArgs,
    TrelloBoardCommands,
};
use crate::config::{token_in, Config, ProviderTokens};
use crate::credentials::{resolve_token, resolved_token};
use crate::http::first_of;
use crate::providers::github::{GitHubIssue, GitHubIssueView, GitHubRepositoryInfo};
use crate::providers::jira::{JiraIssue, JiraIssueView, JiraProject};
use crate::providers::linear::{LinearIssue, LinearIssueView, LinearWorkspace};
use crate::providers::trello::{TrelloBoard, TrelloCard, TrelloCardView};
use crate::text::{
    blank_text, decimal_i64, decimal_text, is_blank, join2, join3, same, trim, trimmed_text,
};
use crate::unified::{display_name_text, ProviderId, ScopeDefaults};
use vstd::prelude::*;
use vstd::string::*;

verus! {

/// Why a command cannot go ahead.
#[derive(Debug)]
pub enum CommandError {
    /// The text names none of the providers.
    UnknownProvider(String),
    /// Neither the environment nor the configuration has a token.
    TokenNotConfigured(ProviderId),
    /// The text names no way to authorise.
    UnknownAuthMethod(String),
}

/// The mathematical content of a `CommandError`.
pub enum CommandErrorView {
    UnknownProvider(Seq<char>),
    TokenNotConfigured(ProviderId),
    UnknownAuthMethod(Seq<char>),
}

impl View for CommandError {
    type V = CommandErrorView;

    open spec fn view(&self) -> CommandErrorView {
        match self {
            CommandError::UnknownProvider(name) => CommandErrorView::UnknownProvider(name@),
            CommandError::TokenNotConfigured(id) => CommandErrorView::TokenNotConfigured(*id),
            CommandError::UnknownAuthMethod(name) => CommandErrorView::UnknownAuthMethod(name@),
        }
    }
}

/// The word that names a provider on the command line.
pub open spec fn command_word(id: ProviderId) -> Seq<char> {
    match id {
        ProviderId::Github => "github"@,
        ProviderId::Linear => "linear"@,
        ProviderId::Trello => "trello"@,
        ProviderId::Jira => "jira"@,
    }
}

/// The provider that a word of the command line names. The word must be
/// written exactly, in lower case.
pub open spec fn provider_named(word: Seq<char>) -> Option<ProviderId> {
    if word == "github"@ {
        Some(ProviderId::Github)
    } else if word == "linear"@ {
        Some(ProviderId::Linear)
    } else if word == "trello"@ {
        Some(ProviderId::Trello)
    } else if word == "jira"@ {
        Some(ProviderId::Jira)
    } else {
        None
    }
}

/// The message of an error.
pub open spec fn command_error_text(e: CommandErrorView) -> Seq<char> {
    match e {
        CommandErrorView::UnknownProvider(name) => "Unknown provider: "@ + name,
        CommandErrorView::TokenNotConfigured(id) => display_name_text(id)
            + " token not configured. Run: kirei "@ + command_word(id) + " auth"@,
        CommandErrorView::UnknownAuthMethod(name) => "Unknown auth method: "@ + name,
    }
}

/// The word that names a provider on the command line.
pub fn provider_word(id: ProviderId) -> (word: &'static str)
    ensures
        word@ == command_word(id),
{
    match id {
        ProviderId::Github => "github",
        ProviderId::Linear => "linear",
        ProviderId::Trello => "trello",
        ProviderId::Jira => "jira",
    }
}

/// The provider that a word of the command line names.
pub fn named_provider(word: &str) -> (id: Option<ProviderId>)
    ensures
        id == provider_named(word@),
{
    if same(word, "github") {
        Some(ProviderId::Github)
    } else if same(word, "linear") {
        Some(ProviderId::Linear)
    } else if same(word, "trello") {
        Some(ProviderId::Trello)
    } else if same(word, "jira") {
        Some(ProviderId::Jira)
    } else {
        None
    }
}

impl CommandError {
    /// The message shown to people.
    pub fn message(&self) -> (text: String)
        ensures
            text@ == command_error_text(self@),
    {
        match self {
            CommandError::UnknownProvider(name) => join2("Unknown provider: ", name.as_str()),
            CommandError::TokenNotConfigured(id) => {
                let mut text = id.display_name().to_owned();
                text.append(" token not configured. Run: kirei ");
                text.append(provider_word(*id));
                text.append(" auth");
                text
            },
            CommandError::UnknownAuthMethod(name) => join2("Unknown auth method: ", name.as_str()),
        }
    }
}

/// The token that a command calls a provider with: from the environment
/// where it holds one that is not blank, else from the configuration.
pub open spec fn command_token(
    id: ProviderId,
    env: Map<ProviderId, Seq<char>>,
    stored: Map<ProviderId, Seq<char>>,
) -> Option<Seq<char>> {
    resolved_token(token_in(env, id), token_in(stored, id))
}

/// Finds the token of a provider for a command. `env` holds what the
/// environment has under the token variable of each provider.
pub fn require_token(id: ProviderId, config: &Config, env: &ProviderTokens) -> (r: Result<
    String,
    CommandError,
>)
    ensures
        match command_token(id, env@, config.unified.tokens@) {
            Some(token) => r matches Ok(found) && found@ == token,
            None => r matches Err(e) && e@ == CommandErrorView::TokenNotConfigured(id),
        },
{
    let env_value = match env.get(id) {
        Some(value) => Some(value.as_str()),
        None => None,
    };
    match resolve_token(id, env_value, &config.unified) {
        Ok(token) => Ok(token),
        Err(_) => Err(CommandError::TokenNotConfigured(id)),
    }
}

/// One provider to list from.
#[derive(Debug, Clone)]
pub struct ListJob {
    pub provider: ProviderId,
    pub token: String,
    /// The line to show above the items; none when one provider was asked
    /// for by name.
    pub heading: Option<String>,
    /// Whether a failure of this provider is passed over in silence.
    pub tolerant: bool,
}

/// The mathematical content of a `ListJob`.
pub struct ListJobView {
    pub provider: ProviderId,
    pub token: Seq<char>,
    pub heading: Option<Seq<char>>,
    pub tolerant: bool,
}

impl View for ListJob {
    type V = ListJobView;

    open spec fn view(&self) -> ListJobView {
        ListJobView {
            provider: self.provider,
            token: self.token@,
            heading: self.heading.deep_view(),
            tolerant: self.tolerant,
        }
    }
}

/// The content of each job of a list.
pub open spec fn job_views(jobs: Seq<ListJob>) -> Seq<ListJobView> {
    jobs.map_values(|job: ListJob| job@)
}

/// The line above the items of a provider.
pub open spec fn heading_text(id: ProviderId) -> Seq<char> {
    match id {
        ProviderId::Github => "GitHub Issues:"@,
        ProviderId::Linear => "Linear Issues:"@,
        ProviderId::Trello => "Trello Cards:"@,
        ProviderId::Jira => "Jira Issues:"@,
    }
}

/// The providers, in the order in which they are listed.
pub open spec fn every_provider() -> Seq<ProviderId> {
    seq![ProviderId::Github, ProviderId::Linear, ProviderId::Trello, ProviderId::Jira]
}

/// The job for a provider when all providers are listed: there is one where
/// the provider has a token and, for Trello, where the key of the
/// application is known.
pub open spec fn job_among_all(
    id: ProviderId,
    env: Map<ProviderId, Seq<char>>,
    stored: Map<ProviderId, Seq<char>>,
    api_key_known: bool,
) -> Option<ListJobView> {
    match command_token(id, env, stored) {
        Some(token) => if id == ProviderId::Trello && !api_key_known {
            None
        } else {
            Some(
                ListJobView {
                    provider: id,
                    token,
                    heading: Some(heading_text(id)),
                    tolerant: true,
                },
            )
        },
        None => None,
    }
}

/// What the listing command does: with a provider named, one job for that
/// provider, which must be known and have a token; with none named, one job
/// for each provider that can be called.
pub open spec fn ls_outcome(
    named: Option<Seq<char>>,
    env: Map<ProviderId, Seq<char>>,
    stored: Map<ProviderId, Seq<char>>,
    api_key_known: bool,
) -> Result<Seq<ListJobView>, CommandErrorView> {
    match named {
        Some(word) => match provider_named(word) {
            None => Err(CommandErrorView::UnknownProvider(word)),
            Some(id) => match command_token(id, env, stored) {
                None => Err(CommandErrorView::TokenNotConfigured(id)),
                Some(token) => Ok(
                    seq![ListJobView { provider: id, token, heading: None, tolerant: false }],
                ),
            },
        },
        None => Ok(
            every_provider().filter_map(
                |id: ProviderId| job_among_all(id, env, stored, api_key_known),
            ),
        ),
    }
}

/// The line above the items of a provider.
pub fn heading(id: ProviderId) -> (text: String)
    ensures
        text@ == heading_text(id),
{
    match id {
        ProviderId::Github => "GitHub Issues:".to_owned(),
        ProviderId::Linear => "Linear Issues:".to_owned(),
        ProviderId::Trello => "Trello Cards:".to_owned(),
        ProviderId::Jira => "Jira Issues:".to_owned(),
    }
}

/// The providers, in the order in which they are listed.
pub fn all_providers() -> (ids: Vec<ProviderId>)
    ensures
        ids@ == every_provider(),
{
    let mut ids: Vec<ProviderId> = Vec::new();
    ids.push(ProviderId::Github);
    ids.push(ProviderId::Linear);
    ids.push(ProviderId::Trello);
    ids.push(ProviderId::Jira);
    ids
}

/// Decides what the listing command lists.
pub fn ls_command(args: &ListArgs, config: &Config, env: &ProviderTokens) -> (r: Result<
    Vec<ListJob>,
    CommandError,
>)
    ensures
        match ls_outcome(
            args.provider.deep_view(),
            env@,
            config.unified.tokens@,
            config.trello.api_key is Some,
        ) {
            Ok(expected) => r matches Ok(jobs) && job_views(jobs@) == expected,
            Err(expected) => r matches Err(e) && e@ == expected,
        },
{
    let mut jobs: Vec<ListJob> = Vec::new();
    match &args.provider {
        Some(word) => {
            let id = match named_provider(word.as_str()) {
                Some(id) => id,
                None => {
                    return Err(CommandError::UnknownProvider(word.clone()));
                },
            };
            let token = require_token(id, config, env)?;
            let job = ListJob { provider: id, token, heading: None, tolerant: false };
            jobs.push(job);
            Ok(jobs)
        },
        None => {
            let ids = all_providers();
            let ghost stored = config.unified.tokens@;
            let ghost known = config.trello.api_key is Some;
            let mut i: usize = 0;
            while i < ids.len()
                invariant
                    i <= ids.len(),
                    ids@ == every_provider(),
                    stored == config.unified.tokens@,
                    known == (config.trello.api_key is Some),
                    job_views(jobs@) == ids@.take(i as int).filter_map(
                        |id: ProviderId| job_among_all(id, env@, stored, known),
                    ),
                decreases ids.len() - i,
            {
                proof {
                    assert(ids@.take(i + 1).drop_last() =~= ids@.take(i as int));
                }
                let id = ids[i];
                match require_token(id, config, env) {
                    Ok(token) => {
                        let callable = match id {
                            ProviderId::Trello => config.trello.api_key.is_some(),
                            _ => true,
                        };
                        if callable {
                            let job = ListJob {
                                provider: id,
                                token,
                                heading: Some(heading(id)),
                                tolerant: true,
                            };
                            jobs.push(job);
                        }
                    },
                    Err(_) => {},
                }
                i += 1;
            }
            proof {
                assert(ids@.take(ids.len() as int) =~= ids@);
            }
            Ok(jobs)
        },
    }
}

/// What the creating command does: it addresses the provider named, else
/// the default provider, which must have a token.
pub open spec fn new_outcome(
    named: Option<Seq<char>>,
    default_provider: ProviderId,
    env: Map<ProviderId, Seq<char>>,
    stored: Map<ProviderId, Seq<char>>,
) -> Result<(ProviderId, Seq<char>), CommandErrorView> {
    let chosen = match named {
        Some(word) => provider_named(word),
        None => Some(default_provider),
    };
    match chosen {
        None => Err(CommandErrorView::UnknownProvider(named->0)),
        Some(id) => match command_token(id, env, stored) {
            None => Err(CommandErrorView::TokenNotConfigured(id)),
            Some(token) => Ok((id, token)),
        },
    }
}

/// Decides where the creating command creates: the provider and the token
/// to call it with.
pub fn new_command(args: &CreateArgs, config: &Config, env: &ProviderTokens) -> (r: Result<
    (ProviderId, String),
    CommandError,
>)
    ensures
        match new_outcome(
            args.provider.deep_view(),
            config.unified.default_provider,
            env@,
            config.unified.tokens@,
        ) {
            Ok(expected) => r matches Ok(found) && found.0 == expected.0 && found.1@ == expected.1,
            Err(expected) => r matches Err(e) && e@ == expected,
        },
{
    let id = match &args.provider {
        Some(word) => match named_provider(word.as_str()) {
            Some(id) => id,
            None => {
                return Err(CommandError::UnknownProvider(word.clone()));
            },
        },
        None => config.unified.default_provider,
    };
    let token = require_token(id, config, env)?;
    Ok((id, token))
}

/// The defaults that the clients are built with: the scope of each provider
/// from its own section of the configuration, else, for repositories and
/// workspaces, from the unified section.
pub fn scope_defaults(config: &Config) -> (defaults: ScopeDefaults)
    ensures
        defaults.repo.deep_view() == first_of(
            config.github.default_repo.deep_view(),
            config.unified.default_repo.deep_view(),
        ),
        defaults.workspace.deep_view() == first_of(
            config.linear.default_workspace.deep_view(),
            config.unified.default_workspace.deep_view(),
        ),
        defaults.board.deep_view() == config.trello.default_board.deep_view(),
        defaults.project.deep_view() == config.jira.default_project.deep_view(),
        defaults.api_key.deep_view() == config.trello.api_key.deep_view(),
        defaults.server_url.deep_view() == config.jira.server_url.deep_view(),
{
    ScopeDefaults {
        repo: crate::http::choose_scope(config.github.default_repo.as_ref(), &config.unified.default_repo),
        workspace: crate::http::choose_scope(
            config.linear.default_workspace.as_ref(),
            &config.unified.default_workspace,
        ),
        board: config.trello.default_board.clone(),
        project: config.jira.default_project.clone(),
        api_key: config.trello.api_key.clone(),
        server_url: config.jira.server_url.clone(),
    }
}

/// A way to authorise with GitHub.
#[derive(Clone, Copy, Debug, PartialEq, Eq, Structural)]
pub enum AuthMethod {
    /// A personal access token, entered by hand.
    Token,
    /// The browser-based flow.
    OAuth,
}

/// The way to authorise that a word names.
pub open spec fn method_named(word: Seq<char>) -> Option<AuthMethod> {
    if word == "token"@ {
        Some(AuthMethod::Token)
    } else if word == "oauth"@ {
        Some(AuthMethod::OAuth)
    } else {
        None
    }
}

/// Reads the way to authorise. Any word but `token` and `oauth` is refused.
pub fn auth_method(word: &str) -> (r: Result<AuthMethod, CommandError>)
    ensures
        match method_named(word@) {
            Some(method) => r == Ok::<AuthMethod, CommandError>(method),
            None => r matches Err(e) && e@ == CommandErrorView::UnknownAuthMethod(word@),
        },
{
    if same(word, "token") {
        Ok(AuthMethod::Token)
    } else if same(word, "oauth") {
        Ok(AuthMethod::OAuth)
    } else {
        Err(CommandError::UnknownAuthMethod(word.to_owned()))
    }
}

/// What a command works with before it asks: the value given with the
/// command, else the stored one. Where there is neither, the person is
/// asked.
pub fn given_or_stored(given: Option<String>, stored: Option<&String>) -> (known: Option<String>)
    ensures
        known.deep_view() == first_of(given.deep_view(), stored.deep_view()),
{
    match given {
        Some(value) => Some(value),
        None => match stored {
            Some(value) => Some(value.clone()),
            None => None,
        },
    }
}

/// Checks what a person entered at a prompt: it must not be blank. `what`
/// names the thing asked for.
pub fn validate_entry(value: &str, what: &str) -> (r: Result<(), String>)
    ensures
        blank_text(value@) ==> (r matches Err(message) && message@ == what@
            + " cannot be empty"@),
        !blank_text(value@) ==> r is Ok,
{
    if is_blank(value) {
        Err(join2(what, " cannot be empty"))
    } else {
        Ok(())
    }
}

/// Stores the token that a person entered for a provider, trimmed.
pub fn store_token(config: &mut Config, id: ProviderId, entered: &str)
    ensures
        final(config).unified.tokens@ == old(config).unified.tokens@.insert(
            id,
            trimmed_text(entered@),
        ),
        final(config).unified.default_provider == old(config).unified.default_provider,
        final(config).unified.default_repo == old(config).unified.default_repo,
        final(config).unified.default_workspace == old(config).unified.default_workspace,
        final(config).user_name == old(config).user_name,
        final(config).github == old(config).github,
        final(config).linear == old(config).linear,
        final(config).trello == old(config).trello,
        final(config).jira == old(config).jira,
{
    config.unified.tokens.insert(id, trim(entered));
}

/// What a command that only touches the configuration comes to.
#[derive(Debug, Clone)]
pub struct Outcome {
    /// Whether the configuration was changed and has to be saved.
    pub save: bool,
    /// The line to show.
    pub message: String,
}

/// The line that reports a default scope, or that there is none.
pub open spec fn scope_report(kind: Seq<char>, scope: Option<Seq<char>>) -> Seq<char> {
    match scope {
        Some(text) => "Default "@ + kind + ": "@ + text,
        None => "No default "@ + kind + " set."@,
    }
}

/// The line that confirms a new default scope.
pub open spec fn scope_confirmation(kind: Seq<char>) -> Seq<char> {
    "Default "@ + kind + " set."@
}

/// The line that reports a default scope, or that there is none.
fn report_scope(kind: &str, scope: &Option<String>) -> (outcome: Outcome)
    ensures
        !outcome.save,
        outcome.message@ == scope_report(kind@, scope.deep_view()),
{
    let message = match scope {
        Some(text) => {
            let mut line = join3("Default ", kind, ": ");
            line.append(text.as_str());
            line
        },
        None => join3("No default ", kind, " set."),
    };
    Outcome { save: false, message }
}

/// The line that confirms a new default scope.
fn confirm_scope(kind: &str) -> (outcome: Outcome)
    ensures
        outcome.save,
        outcome.message@ == scope_confirmation(kind@),
{
    Outcome { save: true, message: join3("Default ", kind, " set.") }
}

/// Sets or shows the default repository of GitHub.
pub fn github_repo_command(cmd: &GitHubRepoCommands, config: &mut Config) -> (outcome: Outcome)
    ensures
        match *cmd {
            GitHubRepoCommands::SetDefault(args) => outcome.save && outcome.message@
                == scope_confirmation("repository"@) && final(config).github.default_repo.deep_view()
                == Some(args.repo@),
            GitHubRepoCommands::List => !outcome.save && outcome.message@ == scope_report(
                "repository"@,
                old(config).github.default_repo.deep_view(),
            ) && final(config).github.default_repo == old(config).github.default_repo,
        },
        final(config).github.client_id == old(config).github.client_id,
        final(config).github.client_secret == old(config).github.client_secret,
        final(config).unified == old(config).unified,
        final(config).user_name == old(config).user_name,
        final(config).linear == old(config).linear,
        final(config).trello == old(config).trello,
        final(config).jira == old(config).jira,
{
    match cmd {
        GitHubRepoCommands::SetDefault(args) => {
            config.github.default_repo = Some(args.repo.clone());
            confirm_scope("repository")
        },
        GitHubRepoCommands::List => report_scope("repository", &config.github.default_repo),
    }
}

/// Sets or shows the default workspace of Linear.
pub fn linear_workspace_command(cmd: &LinearWorkspaceCommands, config: &mut Config) -> (outcome:
    Outcome)
    ensures
        match *cmd {
            LinearWorkspaceCommands::SetDefault(args) => outcome.save && outcome.message@
                == scope_confirmation("workspace"@)
                && final(config).linear.default_workspace.deep_view() == Some(args.workspace@),
            LinearWorkspaceCommands::List => !outcome.save && outcome.message@ == scope_report(
                "workspace"@,
                old(config).linear.default_workspace.deep_view(),
            ) && final(config).linear == old(config).linear,
        },
        final(config).unified == old(config).unified,
        final(config).user_name == old(config).user_name,
        final(config).github == old(config).github,
        final(config).trello == old(config).trello,
        final(config).jira == old(config).jira,
{
    match cmd {
        LinearWorkspaceCommands::SetDefault(args) => {
            config.linear.default_workspace = Some(args.workspace.clone());
            confirm_scope("workspace")
        },
        LinearWorkspaceCommands::List => report_scope(
            "workspace",
            &config.linear.default_workspace,
        ),
    }
}

/// Sets or shows the default board of Trello.
pub fn trello_board_command(cmd: &TrelloBoardCommands, config: &mut Config) -> (outcome: Outcome)
    ensures
        match *cmd {
            TrelloBoardCommands::SetDefault(args) => outcome.save && outcome.message@
                == scope_confirmation("board"@) && final(config).trello.default_board.deep_view()
                == Some(args.board@),
            TrelloBoardCommands::List => !outcome.save && outcome.message@ == scope_report(
                "board"@,
                old(config).trello.default_board.deep_view(),
            ) && final(config).trello.default_board == old(config).trello.default_board,
        },
        final(config).trello.api_key == old(config).trello.api_key,
        final(config).unified == old(config).unified,
        final(config).user_name == old(config).user_name,
        final(config).github == old(config).github,
        final(config).linear == old(config).linear,
        final(config).jira == old(config).jira,
{
    match cmd {
        TrelloBoardCommands::SetDefault(args) => {
            config.trello.default_board = Some(args.board.clone());
            confirm_scope("board")
        },
        TrelloBoardCommands::List => report_scope("board", &config.trello.default_board),
    }
}

/// Sets or shows the default project of Jira.
pub fn jira_project_command(cmd: &JiraProjectCommands, config: &mut Config) -> (outcome: Outcome)
    ensures
        match *cmd {
            JiraProjectCommands::SetDefault(args) => outcome.save && outcome.message@
                == scope_confirmation("project"@) && final(config).jira.default_project.deep_view()
                == Some(args.project@),
            JiraProjectCommands::List => !outcome.save && outcome.message@ == scope_report(
                "project"@,
                old(config).jira.default_project.deep_view(),
            ) && final(config).jira.default_project == old(config).jira.default_project,
        },
        final(config).jira.server_url == old(config).jira.server_url,
        final(config).jira.email == old(config).jira.email,
        final(config).unified == old(config).unified,
        final(config).user_name == old(config).user_name,
        final(config).github == old(config).github,
        final(config).linear == old(config).linear,
        final(config).trello == old(config).trello,
{
    match cmd {
        JiraProjectCommands::SetDefault(args) => {
            config.jira.default_project = Some(args.project.clone());
            confirm_scope("project")
        },
        JiraProjectCommands::List => report_scope("project", &config.jira.default_project),
    }
}

/// Makes the provider that `word` names the default provider.
pub fn set_default_provider(config: &mut Config, word: &str) -> (r: Result<Outcome, CommandError>)
    ensures
        match provider_named(word@) {
            Some(id) => r matches Ok(outcome) && outcome.save && outcome.message@
                == "Default provider set."@ && final(config).unified.default_provider == id,
            None => r matches Err(e) && e@ == CommandErrorView::UnknownProvider(word@)
                && final(config).unified.default_provider == old(config).unified.default_provider,
        },
        final(config).unified.tokens == old(config).unified.tokens,
        final(config).unified.default_repo == old(config).unified.default_repo,
        final(config).unified.default_workspace == old(config).unified.default_workspace,
        final(config).user_name == old(config).user_name,
        final(config).github == old(config).github,
        final(config).linear == old(config).linear,
        final(config).trello == old(config).trello,
        final(config).jira == old(config).jira,
{
    match named_provider(word) {
        Some(id) => {
            config.unified.default_provider = id;
            Ok(Outcome { save: true, message: "Default provider set.".to_owned() })
        },
        None => Err(CommandError::UnknownProvider(word.to_owned())),
    }
}

/// `value`, trimmed, in place of `slot`, where a value is given.
fn store_trimmed(slot: &mut Option<String>, value: Option<&str>)
    ensures
        value matches Some(text) ==> final(slot).deep_view() == Some(trimmed_text(text@)),
        value is None ==> *final(slot) == *old(slot),
{
    match value {
        Some(text) => {
            *slot = Some(trim(text));
        },
        None => {},
    }
}

/// Stores what a person gave to authorise with Trello: the key of the
/// application and the token, each trimmed, each only where it was given.
pub fn store_trello_credentials(config: &mut Config, api_key: Option<&str>, token: Option<&str>)
    ensures
        api_key matches Some(text) ==> final(config).trello.api_key.deep_view() == Some(
            trimmed_text(text@),
        ),
        api_key is None ==> final(config).trello.api_key == old(config).trello.api_key,
        token matches Some(text) ==> final(config).unified.tokens@ == old(
            config,
        ).unified.tokens@.insert(ProviderId::Trello, trimmed_text(text@)),
        token is None ==> final(config).unified.tokens == old(config).unified.tokens,
        final(config).trello.default_board == old(config).trello.default_board,
        final(config).unified.default_provider == old(config).unified.default_provider,
        final(config).unified.default_repo == old(config).unified.default_repo,
        final(config).unified.default_workspace == old(config).unified.default_workspace,
        final(config).user_name == old(config).user_name,
        final(config).github == old(config).github,
        final(config).linear == old(config).linear,
        final(config).jira == old(config).jira,
{
    store_trimmed(&mut config.trello.api_key, api_key);
    match token {
        Some(text) => store_token(config, ProviderId::Trello, text),
        None => {},
    }
}

/// Stores what a person gave to authorise with Jira: the address of the
/// site, the e-mail address and the token, each trimmed, each only where it
/// was given.
pub fn store_jira_credentials(
    config: &mut Config,
    server: Option<&str>,
    email: Option<&str>,
    token: Option<&str>,
)
    ensures
        server matches Some(text) ==> final(config).jira.server_url.deep_view() == Some(
            trimmed_text(text@),
        ),
        server is None ==> final(config).jira.server_url == old(config).jira.server_url,
        email matches Some(text) ==> final(config).jira.email.deep_view() == Some(
            trimmed_text(text@),
        ),
        email is None ==> final(config).jira.email == old(config).jira.email,
        token matches Some(text) ==> final(config).unified.tokens@ == old(
            config,
        ).unified.tokens@.insert(ProviderId::Jira, trimmed_text(text@)),
        token is None ==> final(config).unified.tokens == old(config).unified.tokens,
        final(config).jira.default_project == old(config).jira.default_project,
        final(config).unified.default_provider == old(config).unified.default_provider,
        final(config).unified.default_repo == old(config).unified.default_repo,
        final(config).unified.default_workspace == old(config).unified.default_workspace,
        final(config).user_name == old(config).user_name,
        final(config).github == old(config).github,
        final(config).linear == old(config).linear,
        final(config).trello == old(config).trello,
{
    store_trimmed(&mut config.jira.server_url, server);
    store_trimmed(&mut config.jira.email, email);
    match token {
        Some(text) => store_token(config, ProviderId::Jira, text),
        None => {},
    }
}

/// Stores the credentials of the OAuth application, as they were given.
pub fn store_oauth_application(config: &mut Config, client_id: &str, client_secret: &str)
    ensures
        final(config).github.client_id.deep_view() == Some(client_id@),
        final(config).github.client_secret.deep_view() == Some(client_secret@),
        final(config).github.default_repo == old(config).github.default_repo,
        final(config).unified == old(config).unified,
        final(config).user_name == old(config).user_name,
        final(config).linear == old(config).linear,
        final(config).trello == old(config).trello,
        final(config).jira == old(config).jira,
{
    config.github.client_id = Some(client_id.to_owned());
    config.github.client_secret = Some(client_secret.to_owned());
}

/// One entry of a listing: its line, and the address to show below it.
pub struct Entry {
    pub line: String,
    pub url: Option<String>,
}

/// The mathematical content of an `Entry`.
pub struct EntryView {
    pub line: Seq<char>,
    pub url: Option<Seq<char>>,
}

impl View for Entry {
    type V = EntryView;

    open spec fn view(&self) -> EntryView {
        EntryView { line: self.line@, url: self.url.deep_view() }
    }
}

/// The lines of one entry: its line and, indented, its address.
pub open spec fn entry_lines(entry: EntryView) -> Seq<Seq<char>> {
    match entry.url {
        Some(url) => seq![entry.line, "  "@ + url],
        None => seq![entry.line],
    }
}

/// The lines of the entries, one entry after the other.
pub open spec fn entries_lines(entries: Seq<EntryView>) -> Seq<Seq<char>>
    decreases entries.len(),
{
    if entries.len() == 0 {
        Seq::empty()
    } else {
        entries_lines(entries.drop_last()) + entry_lines(entries.last())
    }
}

/// The lines that show a listing: the lines of its entries, or `note` alone
/// where it has none.
pub open spec fn listing_lines(entries: Seq<EntryView>, note: Seq<char>) -> Seq<Seq<char>> {
    if entries.len() == 0 {
        seq![note]
    } else {
        entries_lines(entries)
    }
}

/// The line of a GitHub issue.
pub open spec fn github_entry(issue: GitHubIssueView) -> EntryView {
    EntryView {
        line: "#"@ + decimal_text(issue.number as int) + " ["@ + issue.state + "] "@ + issue.title,
        url: issue.html_url,
    }
}

/// The line of a Linear issue.
pub open spec fn linear_entry(issue: LinearIssueView) -> EntryView {
    EntryView { line: issue.id + " ["@ + issue.state + "] "@ + issue.title, url: issue.url }
}

/// The line of a Trello card.
pub open spec fn trello_entry(card: TrelloCardView) -> EntryView {
    EntryView { line: "["@ + card.list_name + "] "@ + card.name, url: card.url }
}

/// The line of a Jira issue.
pub open spec fn jira_entry(issue: JiraIssueView) -> EntryView {
    EntryView { line: issue.key + " ["@ + issue.status + "] "@ + issue.summary, url: issue.url }
}

/// The lines that show a listing.
pub fn show_listing(entries: &Vec<Entry>, note: &str) -> (lines: Vec<String>)
    ensures
        lines.deep_view() == listing_lines(entries@.map_values(|e: Entry| e@), note@),
{
    let mut lines: Vec<String> = Vec::new();
    let ghost views = entries@.map_values(|e: Entry| e@);
    if entries.len() == 0 {
        lines.push(note.to_owned());
        return lines;
    }
    let mut i: usize = 0;
    while i < entries.len()
        invariant
            i <= entries.len(),
            views == entries@.map_values(|e: Entry| e@),
            lines.deep_view() == entries_lines(views.take(i as int)),
        decreases entries.len() - i,
    {
        proof {
            assert(views.take(i + 1).drop_last() =~= views.take(i as int));
        }
        lines.push(entries[i].line.clone());
        match &entries[i].url {
            Some(url) => {
                lines.push(join2("  ", url.as_str()));
            },
            None => {},
        }
        i += 1;
    }
    proof {
        assert(views.take(entries.len() as int) =~= views);
    }
    lines
}

/// The lines that show the issues of GitHub.
pub fn display_github_issues(issues: &Vec<GitHubIssue>) -> (lines: Vec<String>)
    ensures
        lines.deep_view() == listing_lines(
            issues@.map_values(|issue: GitHubIssue| github_entry(issue@)),
            "No issues found."@,
        ),
{
    let mut entries: Vec<Entry> = Vec::new();
    let mut i: usize = 0;
    while i < issues.len()
        invariant
            i <= issues.len(),
            entries@.map_values(|e: Entry| e@) == issues@.take(i as int).map_values(
                |issue: GitHubIssue| github_entry(issue@),
            ),
        decreases issues.len() - i,
    {
        let issue = &issues[i];
        let mut line = "#".to_owned();
        line.append(decimal_i64(issue.number).as_str());
        line.append(" [");
        line.append(issue.state.as_str());
        line.append("] ");
        line.append(issue.title.as_str());
        let ghost before = entries@.map_values(|e: Entry| e@);
        let entry = Entry { line, url: issue.html_url.clone() };
        entries.push(entry);
        proof {
            assert(entries@.map_values(|e: Entry| e@) =~= before.push(entry@));
        }
        i += 1;
    }
    proof {
        assert(issues@.take(issues.len() as int) =~= issues@);
    }
    show_listing(&entries, "No issues found.")
}

/// The lines that show the issues of Linear.
pub fn display_linear_issues(issues: &Vec<LinearIssue>) -> (lines: Vec<String>)
    ensures
        lines.deep_view() == listing_lines(
            issues@.map_values(|issue: LinearIssue| linear_entry(issue@)),
            "No issues found."@,
        ),
{
    let mut entries: Vec<Entry> = Vec::new();
    let mut i: usize = 0;
    while i < issues.len()
        invariant
            i <= issues.len(),
            entries@.map_values(|e: Entry| e@) == issues@.take(i as int).map_values(
                |issue: LinearIssue| linear_entry(issue@),
            ),
        decreases issues.len() - i,
    {
        let issue = &issues[i];
        let mut line = issue.id.clone();
        line.append(" [");
        line.append(issue.state.as_str());
        line.append("] ");
        line.append(issue.title.as_str());
        let ghost before = entries@.map_values(|e: Entry| e@);
        let entry = Entry { line, url: issue.url.clone() };
        entries.push(entry);
        proof {
            assert(entries@.map_values(|e: Entry| e@) =~= before.push(entry@));
        }
        i += 1;
    }
    proof {
        assert(issues@.take(issues.len() as int) =~= issues@);
    }
    show_listing(&entries, "No issues found.")
}

/// The lines that show the cards of Trello.
pub fn display_trello_cards(cards: &Vec<TrelloCard>) -> (lines: Vec<String>)
    ensures
        lines.deep_view() == listing_lines(
            cards@.map_values(|card: TrelloCard| trello_entry(card@)),
            "No cards found."@,
        ),
{
    let mut entries: Vec<Entry> = Vec::new();
    let mut i: usize = 0;
    while i < cards.len()
        invariant
            i <= cards.len(),
            entries@.map_values(|e: Entry| e@) == cards@.take(i as int).map_values(
                |card: TrelloCard| trello_entry(card@),
            ),
        decreases cards.len() - i,
    {
        let card = &cards[i];
        let mut line = "[".to_owned();
        line.append(card.list_name.as_str());
        line.append("] ");
        line.append(card.name.as_str());
        let ghost before = entries@.map_values(|e: Entry| e@);
        let entry = Entry { line, url: card.url.clone() };
        entries.push(entry);
        proof {
            assert(entries@.map_values(|e: Entry| e@) =~= before.push(entry@));
        }
        i += 1;
    }
    proof {
        assert(cards@.take(cards.len() as int) =~= cards@);
    }
    show_listing(&entries, "No cards found.")
}

/// The lines that show the issues of Jira.
pub fn display_jira_issues(issues: &Vec<JiraIssue>) -> (lines: Vec<String>)
    ensures
        lines.deep_view() == listing_lines(
            issues@.map_values(|issue: JiraIssue| jira_entry(issue@)),
            "No issues found."@,
        ),
{
    let mut entries: Vec<Entry> = Vec::new();
    let mut i: usize = 0;
    while i < issues.len()
        invariant
            i <= issues.len(),
            entries@.map_values(|e: Entry| e@) == issues@.take(i as int).map_values(
                |issue: JiraIssue| jira_entry(issue@),
            ),
        decreases issues.len() - i,
    {
        let issue = &issues[i];
        let mut line = issue.key.clone();
        line.append(" [");
        line.append(issue.status.as_str());
        line.append("] ");
        line.append(issue.summary.as_str());
        let ghost before = entries@.map_values(|e: Entry| e@);
        let entry = Entry { line, url: issue.url.clone() };
        entries.push(entry);
        proof {
            assert(entries@.map_values(|e: Entry| e@) =~= before.push(entry@));
        }
        i += 1;
    }
    proof {
        assert(issues@.take(issues.len() as int) =~= issues@);
    }
    show_listing(&entries, "No issues found.")
}

/// The lines that report a new item: what was created and, where it is
/// wanted and known, the address of the item.
pub open spec fn created_lines(what: Seq<char>, url: Option<Seq<char>>, with_url: bool) -> Seq<
    Seq<char>,
> {
    match url {
        Some(address) => if with_url {
            seq![what, "URL: "@ + address]
        } else {
            seq![what]
        },
        None => seq![what],
    }
}

/// The lines that report a new item.
fn report_created(what: String, url: &Option<String>, with_url: bool) -> (lines: Vec<String>)
    ensures
        lines.deep_view() == created_lines(what@, url.deep_view(), with_url),
{
    let mut lines: Vec<String> = Vec::new();
    lines.push(what);
    if with_url {
        match url {
            Some(address) => {
                lines.push(join2("URL: ", address.as_str()));
            },
            None => {},
        }
    }
    lines
}

/// The lines that report a new GitHub issue.
pub fn created_github_issue(issue: &GitHubIssue, with_url: bool) -> (lines: Vec<String>)
    ensures
        lines.deep_view() == created_lines(
            "Created GitHub issue #"@ + decimal_text(issue.number as int) + ": "@ + issue.title@,
            issue.html_url.deep_view(),
            with_url,
        ),
{
    let mut what = join2("Created GitHub issue #", decimal_i64(issue.number).as_str());
    what.append(": ");
    what.append(issue.title.as_str());
    report_created(what, &issue.html_url, with_url)
}

/// The lines that report a new Linear issue.
pub fn created_linear_issue(issue: &LinearIssue, with_url: bool) -> (lines: Vec<String>)
    ensures
        lines.deep_view() == created_lines(
            "Created Linear issue "@ + issue.id@ + ": "@ + issue.title@,
            issue.url.deep_view(),
            with_url,
        ),
{
    let mut what = join2("Created Linear issue ", issue.id.as_str());
    what.append(": ");
    what.append(issue.title.as_str());
    report_created(what, &issue.url, with_url)
}

/// The lines that report a new Trello card.
pub fn created_trello_card(card: &TrelloCard, with_url: bool) -> (lines: Vec<String>)
    ensures
        lines.deep_view() == created_lines(
            "Created Trello card: "@ + card.name@,
            card.url.deep_view(),
            with_url,
        ),
{
    report_created(join2("Created Trello card: ", card.name.as_str()), &card.url, with_url)
}

/// The lines that report a new Jira issue.
pub fn created_jira_issue(issue: &JiraIssue, with_url: bool) -> (lines: Vec<String>)
    ensures
        lines.deep_view() == created_lines(
            "Created Jira issue "@ + issue.key@ + ": "@ + issue.summary@,
            issue.url.deep_view(),
            with_url,
        ),
{
    let mut what = join2("Created Jira issue ", issue.key.as_str());
    what.append(": ");
    what.append(issue.summary.as_str());
    report_created(what, &issue.url, with_url)
}

/// The line that shows a repository: its full name and its description.
pub fn repository_line(info: &GitHubRepositoryInfo) -> (line: String)
    ensures
        line@ == info.full_name@ + " - "@ + (match info.description.deep_view() {
            Some(text) => text,
            None => Seq::empty(),
        }),
{
    let mut line = join2(info.full_name.as_str(), " - ");
    match &info.description {
        Some(text) => line.append(text.as_str()),
        None => {},
    }
    line
}

/// The line that shows a workspace: its name and, in brackets, its slug.
pub fn workspace_line(workspace: &LinearWorkspace) -> (line: String)
    ensures
        line@ == workspace.name@ + " ("@ + workspace.slug@ + ")"@,
{
    let mut line = join3(workspace.name.as_str(), " (", workspace.slug.as_str());
    line.append(")");
    line
}

/// The line that shows a board: its name and its address.
pub fn board_line(board: &TrelloBoard) -> (line: String)
    ensures
        line@ == board.name@ + " - "@ + board.url@,
{
    join3(board.name.as_str(), " - ", board.url.as_str())
}

/// The line that shows a project: its key and its name.
pub fn project_line(project: &JiraProject) -> (line: String)
    ensures
        line@ == project.key@ + " - "@ + project.name@,
{
    join3(project.key.as_str(), " - ", project.name.as_str())
}

} // verus!
