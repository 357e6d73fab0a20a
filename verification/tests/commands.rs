use kirei::args::{
    CreateArgs, GitHubRepoCommands, GitHubRepoSetArgs, JiraProjectCommands, JiraProjectSetArgs,
    LinearWorkspaceCommands, LinearWorkspaceSetArgs, ListArgs, TrelloBoardCommands,
    TrelloBoardSetArgs,
};
use kirei::commands::{
    board_line, created_github_issue, created_jira_issue, created_linear_issue, given_or_stored,
    created_trello_card, project_line, repository_line, workspace_line,
};
use kirei::commands::{
    all_providers, auth_method, display_github_issues, display_jira_issues,
    display_linear_issues, display_trello_cards, github_repo_command, jira_project_command,
    linear_workspace_command, ls_command, named_provider, new_command, provider_word,
    require_token, scope_defaults, set_default_provider, show_listing, store_jira_credentials,
    store_oauth_application, store_token, store_trello_credentials, trello_board_command,
    validate_entry, AuthMethod, CommandError, Entry,
};
use kirei::config::{Config, ProviderTokens};
use kirei::providers::github::{GitHubIssue, GitHubOwner, GitHubRepositoryInfo};
use kirei::providers::jira::{JiraIssue, JiraProject};
use kirei::providers::linear::{LinearIssue, LinearWorkspace};
use kirei::providers::trello::{TrelloBoard, TrelloCard};
use kirei::unified::ProviderId;

fn stored(items: &[(ProviderId, &str)]) -> Config {
    let mut config = Config::default();
    for (id, token) in items {
        config.unified.tokens.insert(*id, token.to_string());
    }
    config
}

fn env(items: &[(ProviderId, &str)]) -> ProviderTokens {
    let mut tokens = ProviderTokens::new();
    for (id, token) in items {
        tokens.insert(*id, token.to_string());
    }
    tokens
}

fn ls(provider: Option<&str>) -> ListArgs {
    ListArgs { provider: provider.map(str::to_string), raw: false }
}

#[test]
fn providers_are_named_in_lower_case() {
    assert_eq!(named_provider("github"), Some(ProviderId::Github));
    assert_eq!(named_provider("linear"), Some(ProviderId::Linear));
    assert_eq!(named_provider("trello"), Some(ProviderId::Trello));
    assert_eq!(named_provider("jira"), Some(ProviderId::Jira));
    assert_eq!(named_provider("GitHub"), None);
    assert_eq!(named_provider(""), None);
    for id in all_providers() {
        assert_eq!(named_provider(provider_word(id)), Some(id));
    }
    assert_eq!(
        all_providers(),
        vec![ProviderId::Github, ProviderId::Linear, ProviderId::Trello, ProviderId::Jira]
    );
}

#[test]
fn command_error_messages() {
    assert_eq!(CommandError::UnknownProvider("gitlab".to_string()).message(), "Unknown provider: gitlab");
    assert_eq!(
        CommandError::TokenNotConfigured(ProviderId::Github).message(),
        "GitHub token not configured. Run: kirei github auth"
    );
    assert_eq!(
        CommandError::TokenNotConfigured(ProviderId::Jira).message(),
        "Jira token not configured. Run: kirei jira auth"
    );
    assert_eq!(CommandError::UnknownAuthMethod("sso".to_string()).message(), "Unknown auth method: sso");
}

#[test]
fn token_comes_from_environment_first() {
    let config = stored(&[(ProviderId::Github, "stored")]);
    assert_eq!(require_token(ProviderId::Github, &config, &env(&[(ProviderId::Github, "env")])).unwrap(), "env");
    assert_eq!(require_token(ProviderId::Github, &config, &env(&[(ProviderId::Github, "  ")])).unwrap(), "stored");
    assert_eq!(require_token(ProviderId::Github, &config, &env(&[])).unwrap(), "stored");
    match require_token(ProviderId::Linear, &config, &env(&[(ProviderId::Github, "env")])) {
        Err(CommandError::TokenNotConfigured(id)) => assert_eq!(id, ProviderId::Linear),
        other => panic!("unexpected: {:?}", other),
    }
}

#[test]
fn listing_one_provider_by_name() {
    let config = stored(&[(ProviderId::Linear, "lin")]);
    let jobs = ls_command(&ls(Some("linear")), &config, &env(&[])).unwrap();
    assert_eq!(jobs.len(), 1);
    assert_eq!(jobs[0].provider, ProviderId::Linear);
    assert_eq!(jobs[0].token, "lin");
    assert!(jobs[0].heading.is_none());
    assert!(!jobs[0].tolerant);
}

#[test]
fn listing_an_unknown_provider_fails() {
    match ls_command(&ls(Some("gitlab")), &Config::default(), &env(&[])) {
        Err(CommandError::UnknownProvider(name)) => assert_eq!(name, "gitlab"),
        other => panic!("unexpected: {:?}", other),
    }
    match ls_command(&ls(Some("Github")), &Config::default(), &env(&[])) {
        Err(CommandError::UnknownProvider(name)) => assert_eq!(name, "Github"),
        other => panic!("unexpected: {:?}", other),
    }
}

#[test]
fn listing_a_provider_without_token_fails() {
    match ls_command(&ls(Some("jira")), &stored(&[(ProviderId::Github, "g")]), &env(&[])) {
        Err(CommandError::TokenNotConfigured(id)) => assert_eq!(id, ProviderId::Jira),
        other => panic!("unexpected: {:?}", other),
    }
}

#[test]
fn listing_all_takes_every_provider_that_can_be_called() {
    let mut config = stored(&[(ProviderId::Github, "g"), (ProviderId::Trello, "t"), (ProviderId::Jira, "j")]);
    let jobs = ls_command(&ls(None), &config, &env(&[(ProviderId::Jira, "from-env")])).unwrap();
    let found: Vec<(ProviderId, &str, Option<&str>, bool)> = jobs
        .iter()
        .map(|j| (j.provider, j.token.as_str(), j.heading.as_deref(), j.tolerant))
        .collect();
    assert_eq!(
        found,
        vec![
            (ProviderId::Github, "g", Some("GitHub Issues:"), true),
            (ProviderId::Jira, "from-env", Some("Jira Issues:"), true),
        ]
    );
    config.trello.api_key = Some("key".to_string());
    let jobs = ls_command(&ls(None), &config, &env(&[(ProviderId::Linear, "l")])).unwrap();
    let found: Vec<(ProviderId, Option<&str>)> =
        jobs.iter().map(|j| (j.provider, j.heading.as_deref())).collect();
    assert_eq!(
        found,
        vec![
            (ProviderId::Github, Some("GitHub Issues:")),
            (ProviderId::Linear, Some("Linear Issues:")),
            (ProviderId::Trello, Some("Trello Cards:")),
            (ProviderId::Jira, Some("Jira Issues:")),
        ]
    );
    assert!(ls_command(&ls(None), &Config::default(), &env(&[])).unwrap().is_empty());
}

#[test]
fn creating_addresses_the_named_or_default_provider() {
    let mut config = stored(&[(ProviderId::Github, "g"), (ProviderId::Trello, "t")]);
    let args = |provider: Option<&str>| CreateArgs {
        title: "T".to_string(),
        body: None,
        provider: provider.map(str::to_string),
    };
    assert_eq!(new_command(&args(None), &config, &env(&[])).unwrap(), (ProviderId::Github, "g".to_string()));
    assert_eq!(
        new_command(&args(Some("trello")), &config, &env(&[])).unwrap(),
        (ProviderId::Trello, "t".to_string())
    );
    config.unified.default_provider = ProviderId::Linear;
    match new_command(&args(None), &config, &env(&[])) {
        Err(CommandError::TokenNotConfigured(id)) => assert_eq!(id, ProviderId::Linear),
        other => panic!("unexpected: {:?}", other),
    }
    match new_command(&args(Some("nowhere")), &config, &env(&[])) {
        Err(CommandError::UnknownProvider(name)) => assert_eq!(name, "nowhere"),
        other => panic!("unexpected: {:?}", other),
    }
}

#[test]
fn scope_defaults_prefer_the_provider_sections() {
    let mut config = Config::default();
    config.unified.default_repo = Some("unified/repo".to_string());
    config.unified.default_workspace = Some("unified-ws".to_string());
    config.trello.default_board = Some("board".to_string());
    config.trello.api_key = Some("key".to_string());
    config.jira.default_project = Some("PROJ".to_string());
    config.jira.server_url = Some("https://x".to_string());
    let defaults = scope_defaults(&config);
    assert_eq!(defaults.repo.as_deref(), Some("unified/repo"));
    assert_eq!(defaults.workspace.as_deref(), Some("unified-ws"));
    assert_eq!(defaults.board.as_deref(), Some("board"));
    assert_eq!(defaults.project.as_deref(), Some("PROJ"));
    assert_eq!(defaults.api_key.as_deref(), Some("key"));
    assert_eq!(defaults.server_url.as_deref(), Some("https://x"));
    config.github.default_repo = Some("octo/repo".to_string());
    config.linear.default_workspace = Some("team".to_string());
    let defaults = scope_defaults(&config);
    assert_eq!(defaults.repo.as_deref(), Some("octo/repo"));
    assert_eq!(defaults.workspace.as_deref(), Some("team"));
}

#[test]
fn auth_methods() {
    assert_eq!(auth_method("token").unwrap(), AuthMethod::Token);
    assert_eq!(auth_method("oauth").unwrap(), AuthMethod::OAuth);
    match auth_method("OAuth") {
        Err(CommandError::UnknownAuthMethod(name)) => assert_eq!(name, "OAuth"),
        other => panic!("unexpected: {:?}", other),
    }
}

#[test]
fn entries_must_not_be_blank() {
    assert_eq!(validate_entry("x", "Token"), Ok(()));
    assert_eq!(validate_entry(" x ", "Token"), Ok(()));
    assert_eq!(validate_entry("", "Token"), Err("Token cannot be empty".to_string()));
    assert_eq!(validate_entry(" \t", "Client ID"), Err("Client ID cannot be empty".to_string()));
}

#[test]
fn tokens_are_stored_trimmed() {
    let mut config = stored(&[(ProviderId::Github, "old")]);
    store_token(&mut config, ProviderId::Github, "  new-token \n");
    store_token(&mut config, ProviderId::Linear, "lin");
    assert_eq!(config.unified.tokens.get(ProviderId::Github), Some(&"new-token".to_string()));
    assert_eq!(config.unified.tokens.get(ProviderId::Linear), Some(&"lin".to_string()));
    assert!(config.unified.tokens.get(ProviderId::Jira).is_none());
}

#[test]
fn trello_credentials_are_stored_where_given() {
    let mut config = Config::default();
    config.trello.default_board = Some("b".to_string());
    store_trello_credentials(&mut config, Some(" key "), None);
    assert_eq!(config.trello.api_key.as_deref(), Some("key"));
    assert!(config.unified.tokens.get(ProviderId::Trello).is_none());
    store_trello_credentials(&mut config, None, Some("\ttok"));
    assert_eq!(config.trello.api_key.as_deref(), Some("key"));
    assert_eq!(config.unified.tokens.get(ProviderId::Trello), Some(&"tok".to_string()));
    assert_eq!(config.trello.default_board.as_deref(), Some("b"));
}

#[test]
fn jira_credentials_are_stored_where_given() {
    let mut config = Config::default();
    store_jira_credentials(&mut config, Some(" https://x "), Some("me@x.org "), Some(" tok"));
    assert_eq!(config.jira.server_url.as_deref(), Some("https://x"));
    assert_eq!(config.jira.email.as_deref(), Some("me@x.org"));
    assert_eq!(config.unified.tokens.get(ProviderId::Jira), Some(&"tok".to_string()));
    store_jira_credentials(&mut config, None, None, None);
    assert_eq!(config.jira.server_url.as_deref(), Some("https://x"));
    assert_eq!(config.jira.email.as_deref(), Some("me@x.org"));
    assert_eq!(config.unified.tokens.get(ProviderId::Jira), Some(&"tok".to_string()));
}

#[test]
fn oauth_application_is_stored_as_given() {
    let mut config = Config::default();
    config.github.default_repo = Some("octo/repo".to_string());
    store_oauth_application(&mut config, " id ", "secret");
    assert_eq!(config.github.client_id.as_deref(), Some(" id "));
    assert_eq!(config.github.client_secret.as_deref(), Some("secret"));
    assert_eq!(config.github.default_repo.as_deref(), Some("octo/repo"));
}

#[test]
fn default_scopes_are_set_and_shown() {
    let mut config = Config::default();
    let shown = github_repo_command(&GitHubRepoCommands::List, &mut config);
    assert!(!shown.save);
    assert_eq!(shown.message, "No default repository set.");
    let set = github_repo_command(
        &GitHubRepoCommands::SetDefault(GitHubRepoSetArgs { repo: "octo/repo".to_string() }),
        &mut config,
    );
    assert!(set.save);
    assert_eq!(set.message, "Default repository set.");
    assert_eq!(config.github.default_repo.as_deref(), Some("octo/repo"));
    let shown = github_repo_command(&GitHubRepoCommands::List, &mut config);
    assert_eq!(shown.message, "Default repository: octo/repo");

    let set = linear_workspace_command(
        &LinearWorkspaceCommands::SetDefault(LinearWorkspaceSetArgs { workspace: "w".to_string() }),
        &mut config,
    );
    assert_eq!((set.save, set.message.as_str()), (true, "Default workspace set."));
    assert_eq!(
        linear_workspace_command(&LinearWorkspaceCommands::List, &mut config).message,
        "Default workspace: w"
    );

    assert_eq!(
        trello_board_command(&TrelloBoardCommands::List, &mut config).message,
        "No default board set."
    );
    let set = trello_board_command(
        &TrelloBoardCommands::SetDefault(TrelloBoardSetArgs { board: "b".to_string() }),
        &mut config,
    );
    assert_eq!((set.save, set.message.as_str()), (true, "Default board set."));
    assert_eq!(config.trello.default_board.as_deref(), Some("b"));

    let set = jira_project_command(
        &JiraProjectCommands::SetDefault(JiraProjectSetArgs { project: "P".to_string() }),
        &mut config,
    );
    assert_eq!((set.save, set.message.as_str()), (true, "Default project set."));
    assert_eq!(
        jira_project_command(&JiraProjectCommands::List, &mut config).message,
        "Default project: P"
    );
}

#[test]
fn default_provider_must_be_known() {
    let mut config = Config::default();
    let outcome = set_default_provider(&mut config, "trello").unwrap();
    assert!(outcome.save);
    assert_eq!(outcome.message, "Default provider set.");
    assert_eq!(config.unified.default_provider, ProviderId::Trello);
    match set_default_provider(&mut config, "gitlab") {
        Err(CommandError::UnknownProvider(name)) => assert_eq!(name, "gitlab"),
        other => panic!("unexpected: {:?}", other),
    }
    assert_eq!(config.unified.default_provider, ProviderId::Trello);
}

#[test]
fn listings_are_shown_line_by_line() {
    let entries = vec![
        Entry { line: "one".to_string(), url: Some("u1".to_string()) },
        Entry { line: "two".to_string(), url: None },
    ];
    assert_eq!(show_listing(&entries, "Nothing."), vec!["one", "  u1", "two"]);
    assert_eq!(show_listing(&Vec::new(), "Nothing."), vec!["Nothing."]);
}

#[test]
fn issues_and_cards_are_shown() {
    let github = vec![
        GitHubIssue {
            id: "9".to_string(),
            number: 12,
            title: "Crash".to_string(),
            body: None,
            state: "open".to_string(),
            html_url: Some("https://github.com/o/r/issues/12".to_string()),
        },
        GitHubIssue {
            id: "10".to_string(),
            number: -3,
            title: "Odd".to_string(),
            body: None,
            state: "closed".to_string(),
            html_url: None,
        },
    ];
    assert_eq!(
        display_github_issues(&github),
        vec!["#12 [open] Crash", "  https://github.com/o/r/issues/12", "#-3 [closed] Odd"]
    );
    assert_eq!(display_github_issues(&Vec::new()), vec!["No issues found."]);

    let linear = vec![LinearIssue {
        id: "LIN-1".to_string(),
        title: "One".to_string(),
        description: None,
        state: "Todo".to_string(),
        url: Some("u".to_string()),
    }];
    assert_eq!(display_linear_issues(&linear), vec!["LIN-1 [Todo] One", "  u"]);
    assert_eq!(display_linear_issues(&Vec::new()), vec!["No issues found."]);

    let cards = vec![TrelloCard {
        id: "c".to_string(),
        name: "Card".to_string(),
        description: None,
        list_name: "Doing".to_string(),
        url: None,
    }];
    assert_eq!(display_trello_cards(&cards), vec!["[Doing] Card"]);
    assert_eq!(display_trello_cards(&Vec::new()), vec!["No cards found."]);

    let jira = vec![JiraIssue {
        id: "1".to_string(),
        key: "P-1".to_string(),
        summary: "Sum".to_string(),
        description: None,
        status: "Open".to_string(),
        url: Some("b".to_string()),
    }];
    assert_eq!(display_jira_issues(&jira), vec!["P-1 [Open] Sum", "  b"]);
    assert_eq!(display_jira_issues(&Vec::new()), vec!["No issues found."]);
}

#[test]
fn new_items_are_reported() {
    let issue = GitHubIssue {
        id: "9".to_string(),
        number: 12,
        title: "Crash".to_string(),
        body: None,
        state: "open".to_string(),
        html_url: Some("https://github.com/o/r/issues/12".to_string()),
    };
    assert_eq!(
        created_github_issue(&issue, true),
        vec!["Created GitHub issue #12: Crash", "URL: https://github.com/o/r/issues/12"]
    );
    assert_eq!(created_github_issue(&issue, false), vec!["Created GitHub issue #12: Crash"]);
    let linear = LinearIssue {
        id: "LIN-1".to_string(),
        title: "One".to_string(),
        description: None,
        state: "Todo".to_string(),
        url: None,
    };
    assert_eq!(created_linear_issue(&linear, true), vec!["Created Linear issue LIN-1: One"]);
    let card = TrelloCard {
        id: "c".to_string(),
        name: "Card".to_string(),
        description: None,
        list_name: "".to_string(),
        url: Some("u".to_string()),
    };
    assert_eq!(created_trello_card(&card, true), vec!["Created Trello card: Card", "URL: u"]);
    let jira = JiraIssue {
        id: "1".to_string(),
        key: "P-1".to_string(),
        summary: "Sum".to_string(),
        description: None,
        status: "Open".to_string(),
        url: Some("b".to_string()),
    };
    assert_eq!(created_jira_issue(&jira, false), vec!["Created Jira issue P-1: Sum"]);

    let mut info = GitHubRepositoryInfo {
        name: "repo".to_string(),
        full_name: "octo/repo".to_string(),
        description: Some("A repository".to_string()),
        html_url: "https://github.com/octo/repo".to_string(),
        private: false,
        owner: GitHubOwner { login: "octo".to_string(), avatar_url: None },
    };
    assert_eq!(repository_line(&info), "octo/repo - A repository");
    info.description = None;
    assert_eq!(repository_line(&info), "octo/repo - ");
    let workspace = LinearWorkspace {
        id: "o".to_string(),
        name: "Org".to_string(),
        slug: "org".to_string(),
    };
    assert_eq!(workspace_line(&workspace), "Org (org)");
    let board = TrelloBoard { id: "b".to_string(), name: "Board".to_string(), url: "u".to_string() };
    assert_eq!(board_line(&board), "Board - u");
    let project = JiraProject { id: "1".to_string(), key: "P".to_string(), name: "Project".to_string() };
    assert_eq!(project_line(&project), "P - Project");
}

#[test]
fn given_values_win_over_stored_ones() {
    let stored = "stored".to_string();
    assert_eq!(given_or_stored(Some("given".to_string()), Some(&stored)), Some("given".to_string()));
    assert_eq!(given_or_stored(None, Some(&stored)), Some("stored".to_string()));
    assert_eq!(given_or_stored(Some("given".to_string()), None), Some("given".to_string()));
    assert_eq!(given_or_stored(None, None), None);
}
