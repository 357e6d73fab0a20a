use kirei::http::Step;
use kirei::providers::github::GitHubError;
use kirei::providers::jira::JiraError;
use kirei::providers::linear::LinearError;
use kirei::providers::trello::TrelloError;
use kirei::unified::jira::JiraClient as UnifiedJira;
use kirei::unified::linear::LinearClient as UnifiedLinear;
use kirei::unified::{UnifiedCreateParams, UnifiedListQuery};
use serde_json::Value;

fn json(text: &str) -> Value {
    serde_json::from_str(text).unwrap()
}

fn transport_failure() -> reqwest::Error {
    reqwest::Client::new().get("not an address").build().unwrap_err()
}

#[test]
fn github_error_messages() {
    assert_eq!(GitHubError::MissingCredentials.message(), "missing credentials");
    assert_eq!(GitHubError::RepositoryRequired.message(), "repository is required");
    assert_eq!(GitHubError::OwnerMissing.message(), "repository owner missing");
    assert_eq!(GitHubError::RepoNameMissing.message(), "repository name missing");
    assert_eq!(GitHubError::Configuration("x".to_string()).message(), "configuration error: x");
    assert_eq!(
        GitHubError::AuthorizationExchangeFailed("No access token in response".to_string())
            .message(),
        "No access token in response"
    );
    let cause = transport_failure();
    let expected = cause.to_string();
    assert_eq!(GitHubError::Http(cause).message(), expected);
}

#[test]
fn linear_error_messages() {
    assert_eq!(LinearError::MissingCredentials.message(), "missing credentials");
    assert_eq!(LinearError::WorkspaceRequired.message(), "workspace is required");
    assert_eq!(LinearError::Configuration("x".to_string()).message(), "configuration error: x");
    assert_eq!(
        LinearError::UnexpectedResponse("{}".to_string()).message(),
        "provider response is malformed: {}"
    );
    let cause = transport_failure();
    let expected = cause.to_string();
    assert_eq!(LinearError::Http(cause).message(), expected);
}

#[test]
fn trello_error_messages() {
    assert_eq!(TrelloError::MissingCredentials.message(), "missing credentials");
    assert_eq!(TrelloError::ApiKeyRequired.message(), "API key is required");
    assert_eq!(TrelloError::BoardRequired.message(), "board is required");
    assert_eq!(TrelloError::Configuration("x".to_string()).message(), "configuration error: x");
    let cause = transport_failure();
    let expected = cause.to_string();
    assert_eq!(TrelloError::Http(cause).message(), expected);
}

#[test]
fn jira_error_messages() {
    assert_eq!(JiraError::MissingCredentials.message(), "missing credentials");
    assert_eq!(JiraError::ServerUrlRequired.message(), "server URL is required");
    assert_eq!(JiraError::ProjectRequired.message(), "project is required");
    assert_eq!(JiraError::Configuration("x".to_string()).message(), "configuration error: x");
    assert_eq!(
        JiraError::UnexpectedResponse("[]".to_string()).message(),
        "provider response is malformed: []"
    );
    let cause = transport_failure();
    let expected = cause.to_string();
    assert_eq!(JiraError::Http(cause).message(), expected);
}

#[test]
fn linear_creation_and_listing_project_alike() {
    let client = UnifiedLinear::new("t".to_string(), None);
    let node = json(r#"{"id": "LIN-1", "title": "T", "state": {"name": "Todo"}, "url": "u"}"#);
    let creation = json(&format!(r#"{{"data": {{"issueCreate": {{"issue": {}}}}}}}"#, node));
    let listing = json(&format!(r#"{{"data": {{"issues": {{"nodes": [{}]}}}}}}"#, node));
    let params = UnifiedCreateParams { workspace: None, repo: None, title: "T".to_string(), body: None };
    let query = UnifiedListQuery { workspace: None, repo: None, search: None };
    let created = match client.create(&params, &vec![creation]) {
        Ok(Step::Done(issue)) => issue,
        other => panic!("unexpected: {:?}", other),
    };
    let listed = match client.list(&query, &vec![listing]) {
        Ok(Step::Done(issues)) => issues,
        other => panic!("unexpected: {:?}", other),
    };
    assert_eq!(listed.len(), 1);
    assert_eq!(
        (&listed[0].id, &listed[0].title, &listed[0].state, &listed[0].url, &listed[0].raw_payload),
        (&created.id, &created.title, &created.state, &created.url, &created.raw_payload)
    );
    assert_eq!(created.raw_payload, node);
}

#[test]
fn jira_creation_and_listing_project_alike() {
    let client = UnifiedJira::new("t".to_string(), "https://x".to_string(), Some("P".to_string()));
    let record = json(
        r#"{"id": "1", "key": "P-1", "self": "https://x/rest/api/3/issue/1",
            "fields": {"summary": "S", "status": {"name": "Open"}}}"#,
    );
    let search = json(&format!(r#"{{"issues": [{}]}}"#, record));
    let params = UnifiedCreateParams { workspace: None, repo: None, title: "S".to_string(), body: None };
    let query = UnifiedListQuery { workspace: None, repo: None, search: None };
    let created = match client.create(&params, &vec![record.clone()]) {
        Ok(Step::Done(issue)) => issue,
        other => panic!("unexpected: {:?}", other),
    };
    let listed = match client.list(&query, &vec![search]) {
        Ok(Step::Done(issues)) => issues,
        other => panic!("unexpected: {:?}", other),
    };
    assert_eq!(listed.len(), 1);
    assert_eq!(
        (&listed[0].id, &listed[0].title, &listed[0].state, &listed[0].url, &listed[0].raw_payload),
        (&created.id, &created.title, &created.state, &created.url, &created.raw_payload)
    );
    assert_eq!(created.id, "P-1");
    assert_eq!(created.state, "Open");
}
