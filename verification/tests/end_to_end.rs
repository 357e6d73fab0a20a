use kirei::config::Config;
use kirei::credentials::resolve_token;
use kirei::http::{HttpBody, HttpMethod, Step};
use kirei::unified::{
    build, ProviderClient, ProviderId, ScopeDefaults, UnifiedCreateParams,
    UnifiedCreateProjectParams, UnifiedCreateTaskParams, UnifiedError, UnifiedListQuery,
    UnifiedMoveTaskParams, UnifiedProjectQuery, UnifiedTaskQuery,
};
use serde_json::Value;

fn json(text: &str) -> Value {
    serde_json::from_str(text).unwrap()
}

fn defaults() -> ScopeDefaults {
    ScopeDefaults {
        repo: Some("octo/repo".to_string()),
        workspace: Some("ws".to_string()),
        board: Some("board".to_string()),
        project: Some("PROJ".to_string()),
        api_key: Some("key".to_string()),
        server_url: Some("https://acme.atlassian.net".to_string()),
    }
}

fn nothing() -> ScopeDefaults {
    ScopeDefaults {
        repo: None,
        workspace: None,
        board: None,
        project: None,
        api_key: None,
        server_url: None,
    }
}

fn empty_query() -> UnifiedListQuery {
    UnifiedListQuery { workspace: None, repo: None, search: None }
}

#[test]
fn github_listing_from_environment_token_to_records() {
    let config = Config::default();
    assert_eq!(ProviderId::Github.env_var(), "KIREI_GITHUB_TOKEN");
    let token = resolve_token(ProviderId::Github, Some("abc123"), &config.unified).unwrap();
    let client = build(ProviderId::Github, token, defaults());
    assert_eq!(client.provider(), ProviderId::Github);

    let mut replies: Vec<Value> = Vec::new();
    let request = match client.list(&empty_query(), &replies) {
        Ok(Step::Send(request)) => request,
        other => panic!("unexpected: {:?}", other),
    };
    assert_eq!(request.method, HttpMethod::Get);
    assert_eq!(request.url, "https://api.github.com/repos/octo/repo/issues?state=open&per_page=20");
    assert!(request.query.is_empty());
    assert!(request
        .headers
        .contains(&("Authorization".to_string(), "Bearer abc123".to_string())));
    assert!(request.headers.contains(&("User-Agent".to_string(), "kirei-cli".to_string())));
    assert!(matches!(request.body, HttpBody::Empty));

    replies.push(json(
        r#"[{"number": 1, "title": "One", "state": "open"},
            {"number": 2, "title": "Two", "state": "open"}]"#,
    ));
    let issues = match client.list(&empty_query(), &replies) {
        Ok(Step::Done(issues)) => issues,
        other => panic!("unexpected: {:?}", other),
    };
    assert_eq!(issues.len(), 2);
    assert!(issues.iter().all(|issue| issue.provider == ProviderId::Github));
    assert_eq!(issues[0].id, "1");
    assert_eq!(issues[1].id, "2");
    assert_eq!(issues[1].title, "Two");
}

#[test]
fn build_selects_the_adapter_of_the_provider() {
    for id in [ProviderId::Github, ProviderId::Linear, ProviderId::Trello, ProviderId::Jira] {
        let client = build(id, "tok".to_string(), defaults());
        assert_eq!(client.provider(), id);
        let same_kind = match (&client, id) {
            (ProviderClient::Github(_), ProviderId::Github) => true,
            (ProviderClient::Linear(_), ProviderId::Linear) => true,
            (ProviderClient::Trello(_), ProviderId::Trello) => true,
            (ProviderClient::Jira(_), ProviderId::Jira) => true,
            _ => false,
        };
        assert!(same_kind);
    }
}

#[test]
fn every_adapter_opens_a_listing_with_its_own_request() {
    let urls: Vec<String> = [ProviderId::Github, ProviderId::Linear, ProviderId::Trello, ProviderId::Jira]
        .into_iter()
        .map(|id| match build(id, "tok".to_string(), defaults()).list(&empty_query(), &Vec::new()) {
            Ok(Step::Send(request)) => request.url,
            other => panic!("unexpected: {:?}", other),
        })
        .collect();
    assert_eq!(
        urls,
        vec![
            "https://api.github.com/repos/octo/repo/issues?state=open&per_page=20",
            "https://api.linear.app/graphql",
            "https://api.trello.com/1/boards/board/cards",
            "https://acme.atlassian.net/rest/api/3/search?jql=project%20%3D%20PROJ%20AND%20status%20%21%3D%20Done%20ORDER%20BY%20created%20DESC&maxResults=50",
        ]
    );
}

#[test]
fn adapters_that_need_a_scope_fail_without_one() {
    let expected = [
        (ProviderId::Github, "repository is required"),
        (ProviderId::Trello, "board is required"),
        (ProviderId::Jira, "project is required"),
    ];
    for (id, detail) in expected {
        let client = build(id, "tok".to_string(), nothing());
        match client.list(&empty_query(), &Vec::new()) {
            Err(UnifiedError::Configuration(found)) => assert_eq!(found, detail),
            other => panic!("unexpected: {:?}", other),
        }
        let params = UnifiedCreateParams { workspace: None, repo: None, title: "t".to_string(), body: None };
        match client.create(&params, &Vec::new()) {
            Err(UnifiedError::Configuration(found)) => assert_eq!(found, detail),
            other => panic!("unexpected: {:?}", other),
        }
    }
    let linear = build(ProviderId::Linear, "tok".to_string(), nothing());
    assert!(matches!(linear.list(&empty_query(), &Vec::new()), Ok(Step::Send(_))));
}

#[test]
fn trello_without_key_sends_an_empty_key() {
    let mut without_key = defaults();
    without_key.api_key = None;
    let client = build(ProviderId::Trello, "tok".to_string(), without_key);
    match client.list(&empty_query(), &Vec::new()) {
        Ok(Step::Send(request)) => assert_eq!(
            request.query,
            vec![("key".to_string(), "".to_string()), ("token".to_string(), "tok".to_string())]
        ),
        other => panic!("unexpected: {:?}", other),
    }
}

#[test]
fn projects_and_tasks_are_not_implemented() {
    for id in [ProviderId::Github, ProviderId::Linear, ProviderId::Trello, ProviderId::Jira] {
        let client = build(id, "tok".to_string(), defaults());
        let none: Vec<Value> = Vec::new();
        let project_query = UnifiedProjectQuery { workspace: None, repo: None, search: None };
        match client.list_projects(&project_query, &none) {
            Err(UnifiedError::NotImplemented(found)) => assert_eq!(found, id),
            other => panic!("unexpected: {:?}", other),
        }
        let new_project = UnifiedCreateProjectParams {
            workspace: None,
            repo: None,
            name: "n".to_string(),
            description: None,
        };
        match client.create_project(&new_project, &none) {
            Err(UnifiedError::NotImplemented(found)) => assert_eq!(found, id),
            other => panic!("unexpected: {:?}", other),
        }
        let task_query = UnifiedTaskQuery { project_id: None, status: None };
        match client.list_tasks(&task_query, &none) {
            Err(UnifiedError::NotImplemented(found)) => assert_eq!(found, id),
            other => panic!("unexpected: {:?}", other),
        }
        let new_task = UnifiedCreateTaskParams {
            project_id: "p".to_string(),
            title: "t".to_string(),
            description: None,
            status: None,
        };
        match client.create_task(&new_task, &none) {
            Err(UnifiedError::NotImplemented(found)) => assert_eq!(found, id),
            other => panic!("unexpected: {:?}", other),
        }
        let moved = UnifiedMoveTaskParams { task_id: "t".to_string(), target_status: "Done".to_string() };
        match client.move_task(&moved, &none) {
            Err(UnifiedError::NotImplemented(found)) => assert_eq!(found, id),
            other => panic!("unexpected: {:?}", other),
        }
    }
}

#[test]
fn unified_error_messages() {
    assert_eq!(
        UnifiedError::MissingToken(ProviderId::Linear).message(),
        "missing credentials for Linear"
    );
    assert_eq!(
        UnifiedError::NotImplemented(ProviderId::Jira).message(),
        "provider Jira is not implemented yet"
    );
    assert_eq!(
        UnifiedError::UnexpectedResponse("{}".to_string()).message(),
        "provider response is malformed: {}"
    );
    assert_eq!(
        UnifiedError::Configuration("repository is required".to_string()).message(),
        "configuration error: repository is required"
    );
}

#[test]
fn transport_error_shows_the_message_of_its_cause() {
    let cause = reqwest::Client::new().get("not an address").build().unwrap_err();
    let expected = cause.to_string();
    assert!(!expected.is_empty());
    assert_eq!(UnifiedError::Http(cause).message(), expected);
}
