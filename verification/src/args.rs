//! The commands of the command line, as plain data.
//!
//! Reading them from the arguments of a process is left to the program
//! around the library; what each command decides is in `commands`.

use vstd::prelude::*;

verus! {

#[derive(Clone, Debug)]
pub struct Cli {
    pub command: Command,
}

#[derive(Clone, Debug)]
pub enum Command {
    /// List all issues across providers
    Ls(ListArgs),
    /// Create a new issue
    New(CreateArgs),
    /// GitHub commands
    Github(GitHubCommands),
    /// Linear commands
    Linear(LinearCommands),
    /// Trello commands
    Trello(TrelloCommands),
    /// Jira commands
    Jira(JiraCommands),
    /// Configuration
    Config(ConfigCommands),
}

#[derive(Clone, Debug)]
pub struct ListArgs {
    /// Provider to list from (github, linear, trello, jira)
    pub provider: Option<String>,
    /// Show raw JSON output
    pub raw: bool,
}

#[derive(Clone, Debug)]
pub struct CreateArgs {
    /// Title for the issue
    pub title: String,
    /// Description for the issue
    pub body: Option<String>,
    /// Provider to create on
    pub provider: Option<String>,
}

#[derive(Clone, Debug)]
pub enum GitHubCommands {
    /// List issues
    Ls(GitHubLsArgs),
    /// Create an issue
    New(GitHubNewArgs),
    /// Authentication setup
    Auth(GitHubAuthArgs),
    /// Repository management
    Repo(GitHubRepoCommands),
    /// List repositories
    Repos(GitHubReposArgs),
}

#[derive(Clone, Debug)]
pub struct GitHubLsArgs {
    /// Repository (owner/repo)
    pub repo: Option<String>,
    /// Issue state (open, closed, all)
    pub state: String,
    /// Show raw JSON output
    pub raw: bool,
}

#[derive(Clone, Debug)]
pub struct GitHubNewArgs {
    /// Repository (owner/repo)
    pub repo: Option<String>,
    /// Issue title
    pub title: String,
    /// Issue body
    pub body: Option<String>,
}

#[derive(Clone, Debug)]
pub struct GitHubAuthArgs {
    /// Authentication method (token, oauth)
    pub method: Option<String>,
    /// Token or Client ID
    pub value: Option<String>,
    /// Client Secret (for OAuth)
    pub secret: Option<String>,
}

#[derive(Clone, Debug)]
pub enum GitHubRepoCommands {
    /// Set default repository
    SetDefault(GitHubRepoSetArgs),
    /// Show current repository
    List,
}

#[derive(Clone, Debug)]
pub struct GitHubRepoSetArgs {
    pub repo: String,
}

#[derive(Clone, Debug)]
pub struct GitHubReposArgs {
    /// Show raw JSON output
    pub raw: bool,
}

#[derive(Clone, Debug)]
pub enum LinearCommands {
    /// List issues
    Ls(LinearLsArgs),
    /// Create an issue
    New(LinearNewArgs),
    /// Authentication setup
    Auth(LinearAuthArgs),
    /// Workspace management
    Workspace(LinearWorkspaceCommands),
    /// List workspaces
    Workspaces(LinearWorkspacesArgs),
}

#[derive(Clone, Debug)]
pub struct LinearLsArgs {
    /// Workspace
    pub workspace: Option<String>,
    /// Show raw JSON output
    pub raw: bool,
}

#[derive(Clone, Debug)]
pub struct LinearNewArgs {
    /// Workspace
    pub workspace: Option<String>,
    /// Issue title
    pub title: String,
    /// Issue body
    pub body: Option<String>,
}

#[derive(Clone, Debug)]
pub struct LinearAuthArgs {
    /// API token
    pub token: Option<String>,
}

#[derive(Clone, Debug)]
pub enum LinearWorkspaceCommands {
    /// Set default workspace
    SetDefault(LinearWorkspaceSetArgs),
    /// Show current workspace
    List,
}

#[derive(Clone, Debug)]
pub struct LinearWorkspaceSetArgs {
    pub workspace: String,
}

#[derive(Clone, Debug)]
pub struct LinearWorkspacesArgs {
    /// Show raw JSON output
    pub raw: bool,
}

#[derive(Clone, Debug)]
pub enum TrelloCommands {
    /// List cards
    Ls(TrelloLsArgs),
    /// Create a card
    New(TrelloNewArgs),
    /// Authentication setup
    Auth(TrelloAuthArgs),
    /// Board management
    Board(TrelloBoardCommands),
    /// List boards
    Boards(TrelloBoardsArgs),
}

#[derive(Clone, Debug)]
pub struct TrelloLsArgs {
    /// Board name or ID
    pub board: Option<String>,
    /// Show raw JSON output
    pub raw: bool,
}

#[derive(Clone, Debug)]
pub struct TrelloNewArgs {
    /// Board name or ID
    pub board: Option<String>,
    /// Card name
    pub name: String,
    /// Card description
    pub description: Option<String>,
}

#[derive(Clone, Debug)]
pub struct TrelloAuthArgs {
    /// API key
    pub api_key: Option<String>,
    /// Token
    pub token: Option<String>,
}

#[derive(Clone, Debug)]
pub enum TrelloBoardCommands {
    /// Set default board
    SetDefault(TrelloBoardSetArgs),
    /// Show current board
    List,
}

#[derive(Clone, Debug)]
pub struct TrelloBoardSetArgs {
    pub board: String,
}

#[derive(Clone, Debug)]
pub struct TrelloBoardsArgs {
    /// Show raw JSON output
    pub raw: bool,
}

#[derive(Clone, Debug)]
pub enum JiraCommands {
    /// List issues
    Ls(JiraLsArgs),
    /// Create an issue
    New(JiraNewArgs),
    /// Authentication setup
    Auth(JiraAuthArgs),
    /// Project management
    Project(JiraProjectCommands),
    /// List projects
    Projects(JiraProjectsArgs),
}

#[derive(Clone, Debug)]
pub struct JiraLsArgs {
    /// Project key
    pub project: Option<String>,
    /// Show raw JSON output
    pub raw: bool,
}

#[derive(Clone, Debug)]
pub struct JiraNewArgs {
    /// Project key
    pub project: Option<String>,
    /// Issue summary
    pub summary: String,
    /// Issue description
    pub description: Option<String>,
}

#[derive(Clone, Debug)]
pub struct JiraAuthArgs {
    /// Server URL (e.g., https://company.atlassian.net)
    pub server: Option<String>,
    /// Email
    pub email: Option<String>,
    /// API token
    pub token: Option<String>,
}

#[derive(Clone, Debug)]
pub enum JiraProjectCommands {
    /// Set default project
    SetDefault(JiraProjectSetArgs),
    /// Show current project
    List,
}

#[derive(Clone, Debug)]
pub struct JiraProjectSetArgs {
    pub project: String,
}

#[derive(Clone, Debug)]
pub struct JiraProjectsArgs {
    /// Show raw JSON output
    pub raw: bool,
}

#[derive(Clone, Debug)]
pub enum ConfigCommands {
    /// Show current configuration
    Show,
    /// Show config file path
    Path,
    /// Set default provider
    Provider(ConfigProviderArgs),
}

#[derive(Clone, Debug)]
pub struct ConfigProviderArgs {
    pub provider: String,
}

} // verus!
