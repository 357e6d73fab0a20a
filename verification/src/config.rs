//! The stored configuration: tokens, defaults and where the file lives.

use crate::error::CoreError;
use crate::providers::github::GitHubConfig;
use crate::providers::jira::JiraConfig;
use crate::providers::linear::LinearConfig;
use crate::providers::trello::TrelloConfig;
use crate::unified::ProviderId;
use std::path::PathBuf;
use vstd::prelude::*;
use vstd::string::*;

verus! {

/// The name of the directory, under the home directory, that holds the
/// configuration.
pub const CONFIG_DIR_NAME: &'static str = ".kirei";

/// The name of the configuration file in that directory.
pub const CONFIG_FILE_NAME: &'static str = "config.json";

/// The stored tokens: at most one per provider.
#[derive(Clone, Debug)]
pub struct ProviderTokens {
    pub github: Option<String>,
    pub linear: Option<String>,
    pub trello: Option<String>,
    pub jira: Option<String>,
}

/// `tokens` with the token of `id`, where there is one.
pub open spec fn with_token(
    tokens: Map<ProviderId, Seq<char>>,
    id: ProviderId,
    token: Option<Seq<char>>,
) -> Map<ProviderId, Seq<char>> {
    match token {
        Some(text) => tokens.insert(id, text),
        None => tokens,
    }
}

/// The token of a provider in a map of tokens.
pub open spec fn token_in(tokens: Map<ProviderId, Seq<char>>, id: ProviderId) -> Option<Seq<char>> {
    if tokens.contains_key(id) {
        Some(tokens[id])
    } else {
        None
    }
}

impl View for ProviderTokens {
    type V = Map<ProviderId, Seq<char>>;

    open spec fn view(&self) -> Map<ProviderId, Seq<char>> {
        with_token(
            with_token(
                with_token(
                    with_token(Map::empty(), ProviderId::Github, self.github.deep_view()),
                    ProviderId::Linear,
                    self.linear.deep_view(),
                ),
                ProviderId::Trello,
                self.trello.deep_view(),
            ),
            ProviderId::Jira,
            self.jira.deep_view(),
        )
    }
}

impl ProviderTokens {
    /// No tokens.
    pub fn new() -> (tokens: ProviderTokens)
        ensures
            tokens@ == Map::<ProviderId, Seq<char>>::empty(),
    {
        ProviderTokens { github: None, linear: None, trello: None, jira: None }
    }

    /// The token of a provider.
    pub fn get(&self, id: ProviderId) -> (token: Option<&String>)
        ensures
            token.deep_view() == token_in(self@, id),
    {
        match id {
            ProviderId::Github => self.github.as_ref(),
            ProviderId::Linear => self.linear.as_ref(),
            ProviderId::Trello => self.trello.as_ref(),
            ProviderId::Jira => self.jira.as_ref(),
        }
    }

    /// Stores the token of a provider, in place of the one it had.
    pub fn insert(&mut self, id: ProviderId, token: String)
        ensures
            final(self)@ == old(self)@.insert(id, token@),
    {
        match id {
            ProviderId::Github => {
                self.github = Some(token);
            },
            ProviderId::Linear => {
                self.linear = Some(token);
            },
            ProviderId::Trello => {
                self.trello = Some(token);
            },
            ProviderId::Jira => {
                self.jira = Some(token);
            },
        }
    }

    /// Forgets the token of a provider.
    pub fn remove(&mut self, id: ProviderId)
        ensures
            final(self)@ == old(self)@.remove(id),
    {
        match id {
            ProviderId::Github => {
                self.github = None;
            },
            ProviderId::Linear => {
                self.linear = None;
            },
            ProviderId::Trello => {
                self.trello = None;
            },
            ProviderId::Jira => {
                self.jira = None;
            },
        }
    }
}

/// What the unified interface keeps: the provider to use when none is
/// named, default scopes and the tokens.
#[derive(Clone, Debug)]
pub struct UnifiedConfig {
    pub default_provider: ProviderId,
    pub default_repo: Option<String>,
    pub default_workspace: Option<String>,
    pub tokens: ProviderTokens,
}

impl Default for UnifiedConfig {
    fn default() -> (config: UnifiedConfig)
        ensures
            config.default_provider == ProviderId::Github,
            config.default_repo is None,
            config.default_workspace is None,
            config.tokens@ == Map::<ProviderId, Seq<char>>::empty(),
    {
        UnifiedConfig {
            default_provider: ProviderId::Github,
            default_repo: None,
            default_workspace: None,
            tokens: ProviderTokens::new(),
        }
    }
}

/// The whole configuration file.
#[derive(Clone, Debug)]
pub struct Config {
    pub user_name: String,
    pub unified: UnifiedConfig,
    pub github: GitHubConfig,
    pub linear: LinearConfig,
    pub trello: TrelloConfig,
    pub jira: JiraConfig,
}

/// Whether a configuration is the one that a person starts with: the user
/// name `World`, GitHub as default provider, and nothing else set.
pub open spec fn is_default_config(config: Config) -> bool {
    &&& config.user_name@ == "World"@
    &&& config.unified.default_provider == ProviderId::Github
    &&& config.unified.default_repo is None
    &&& config.unified.default_workspace is None
    &&& config.unified.tokens@ == Map::<ProviderId, Seq<char>>::empty()
    &&& config.github.default_repo is None
    &&& config.github.client_id is None
    &&& config.github.client_secret is None
    &&& config.linear.default_workspace is None
    &&& config.trello.default_board is None
    &&& config.trello.api_key is None
    &&& config.jira.server_url is None
    &&& config.jira.default_project is None
    &&& config.jira.email is None
}

impl Default for Config {
    fn default() -> (config: Config)
        ensures
            is_default_config(config),
    {
        Config {
            user_name: "World".to_owned(),
            unified: UnifiedConfig::default(),
            github: GitHubConfig::default(),
            linear: LinearConfig::default(),
            trello: TrelloConfig::default(),
            jira: JiraConfig::default(),
        }
    }
}

/// The path that `Path::join` makes of a base and one more part.
pub uninterp spec fn joined_path(base: PathBuf, part: Seq<char>) -> PathBuf;

/// `Path::join` of the standard library: the base, extended by one part.
#[verifier::external_body]
fn join_path(base: &PathBuf, part: &str) -> (path: PathBuf)
    ensures
        path == joined_path(*base, part@),
{
    base.join(part)
}

/// `Clone` for `PathBuf` of the standard library: the copy is the same path.
pub assume_specification[ <PathBuf as Clone>::clone ](path: &PathBuf) -> (copy: PathBuf)
    ensures
        copy == *path,
;

/// What reading the configuration file came to.
#[derive(Debug)]
pub enum ReadOutcome {
    /// There is no file yet.
    Missing,
    /// The file could not be read.
    Unreadable(std::io::Error),
    /// The file does not hold a configuration.
    Malformed(serde_json::Error),
    /// The file holds this configuration.
    Loaded(Config),
}

/// What writing the configuration file came to.
#[derive(Debug)]
pub enum WriteOutcome {
    /// The directory could not be created.
    NoDirectory(std::io::Error),
    /// The configuration could not be turned into JSON.
    NotSerialized(serde_json::Error),
    /// The file could not be written.
    NotWritten(std::io::Error),
    /// The file is written.
    Written,
}

/// Where the configuration lives: its directory and its file.
pub struct ConfigStore {
    dir: PathBuf,
    path: PathBuf,
}

/// The directory of the configuration under a home directory.
pub open spec fn config_dir_of(home: PathBuf) -> PathBuf {
    joined_path(home, CONFIG_DIR_NAME@)
}

/// The file of the configuration under a home directory.
pub open spec fn config_path_of(home: PathBuf) -> PathBuf {
    joined_path(config_dir_of(home), CONFIG_FILE_NAME@)
}

impl ConfigStore {
    pub closed spec fn dir_path(&self) -> PathBuf {
        self.dir
    }

    pub closed spec fn file_path(&self) -> PathBuf {
        self.path
    }

    /// The store under the home directory of the person. Without a home
    /// directory there is no place for a configuration.
    pub fn new(home: Option<PathBuf>) -> (r: Result<ConfigStore, CoreError>)
        ensures
            match home {
                Some(base) => r matches Ok(store) && store.dir_path() == config_dir_of(base)
                    && store.file_path() == config_path_of(base),
                None => r matches Err(CoreError::NoConfigDir),
            },
    {
        match home {
            None => Err(CoreError::NoConfigDir),
            Some(base) => {
                let dir = join_path(&base, CONFIG_DIR_NAME);
                let path = join_path(&dir, CONFIG_FILE_NAME);
                Ok(ConfigStore { dir, path })
            },
        }
    }

    /// The configuration to work with, given what reading the file came to:
    /// the one that was loaded, the default one where there is no file yet,
    /// or the reason why the file is of no use.
    pub fn load_or_default(&self, outcome: ReadOutcome) -> (r: Result<Config, CoreError>)
        ensures
            match outcome {
                ReadOutcome::Missing => r matches Ok(config) && is_default_config(config),
                ReadOutcome::Unreadable(cause) => r matches Err(
                    CoreError::ReadConfig { path, source },
                ) && path == self.file_path() && source == cause,
                ReadOutcome::Malformed(cause) => r matches Err(
                    CoreError::ParseConfig { path, source },
                ) && path == self.file_path() && source == cause,
                ReadOutcome::Loaded(config) => r == Ok::<Config, CoreError>(config),
            },
    {
        match outcome {
            ReadOutcome::Missing => Ok(Config::default()),
            ReadOutcome::Unreadable(source) => Err(
                CoreError::ReadConfig { path: self.path.clone(), source },
            ),
            ReadOutcome::Malformed(source) => Err(
                CoreError::ParseConfig { path: self.path.clone(), source },
            ),
            ReadOutcome::Loaded(config) => Ok(config),
        }
    }

    /// Where the configuration was saved, given what writing the file came
    /// to, or the reason why it was not saved.
    pub fn save(&self, outcome: WriteOutcome) -> (r: Result<PathBuf, CoreError>)
        ensures
            match outcome {
                WriteOutcome::NoDirectory(cause) => r matches Err(
                    CoreError::CreateConfigDir { path, source },
                ) && path == self.dir_path() && source == cause,
                WriteOutcome::NotSerialized(cause) => r matches Err(
                    CoreError::SerializeConfig { source },
                ) && source == cause,
                WriteOutcome::NotWritten(cause) => r matches Err(
                    CoreError::WriteConfig { path, source },
                ) && path == self.file_path() && source == cause,
                WriteOutcome::Written => r == Ok::<PathBuf, CoreError>(self.file_path()),
            },
    {
        match outcome {
            WriteOutcome::NoDirectory(source) => Err(
                CoreError::CreateConfigDir { path: self.dir.clone(), source },
            ),
            WriteOutcome::NotSerialized(source) => Err(CoreError::SerializeConfig { source }),
            WriteOutcome::NotWritten(source) => Err(
                CoreError::WriteConfig { path: self.path.clone(), source },
            ),
            WriteOutcome::Written => Ok(self.path.clone()),
        }
    }

    pub fn dir(&self) -> (dir: &PathBuf)
        ensures
            *dir == self.dir_path(),
    {
        &self.dir
    }

    pub fn path(&self) -> (path: &PathBuf)
        ensures
            *path == self.file_path(),
    {
        &self.path
    }
}

} // verus!
