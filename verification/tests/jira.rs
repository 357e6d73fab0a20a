use kirei::http::{HttpBody, HttpMethod, HttpRequest, Step};
use kirei::providers::jira::{
    document_value, JiraClient, JiraConfig, JiraError, JiraIssue,
};
use kirei::unified::jira::JiraClient as UnifiedJira;
use kirei::unified::{ProviderId, UnifiedCreateParams, UnifiedError, UnifiedListQuery};
use serde_json::Value;

fn json(text: &str) -> Value {
    serde_json::from_str(text).unwrap()
}

fn pairs(items: &[(&str, &str)]) -> Vec<(String, String)> {
    items.iter().map(|(k, v)| (k.to_string(), v.to_string())).collect()
}

fn headers() -> Vec<(String, String)> {
    pairs(&[("Authorization", "Basic ZW1haWw6dG9r"), ("Content-Type", "application/json")])
}

fn client() -> JiraClient {
    JiraClient::new("tok".to_string(), "https://acme.atlassian.net".to_string(), Some("PROJ".to_string()))
}

fn body_of(request: HttpRequest) -> Value {
    match request.body {
        HttpBody::Json(document) => document,
        other => panic!("unexpected body {:?}", other),
    }
}

const SEARCH: &str = r#"{"total": 2, "issues": [
    {"id": "10001", "key": "PROJ-1",
     "self": "https://acme.atlassian.net/rest/api/3/issue/10001",
     "fields": {"summary": "First", "status": {"name": "In Progress"}, "description": "plain"}},
    {"id": "10002", "fields": {"description": {"type": "doc"}}}
]}"#;

#[test]
fn jira_issue_is_read_from_json() {
    let reply = json(SEARCH);
    let first = JiraIssue::from_json(&reply["issues"][0]);
    assert_eq!(first.id, "10001");
    assert_eq!(first.key, "PROJ-1");
    assert_eq!(first.summary, "First");
    assert_eq!(first.description.as_deref(), Some("plain"));
    assert_eq!(first.status, "In Progress");
    assert_eq!(first.url.as_deref(), Some("https://acme.atlassian.net/browse/10001"));
    let second = JiraIssue::from_json(&reply["issues"][1]);
    assert_eq!(second.key, "");
    assert_eq!(second.summary, "untitled");
    assert_eq!(second.status, "unknown");
    assert!(second.description.is_none());
    assert!(second.url.is_none());
    let bare = JiraIssue::from_json(&json("null"));
    assert_eq!(bare.id, "");
    assert_eq!(bare.status, "unknown");
}

#[test]
fn browse_address_replaces_every_api_path() {
    let issue = JiraIssue::from_json(&json(
        r#"{"self": "https://x/rest/api/3/issue/1/rest/api/3/issue/2"}"#,
    ));
    assert_eq!(issue.url.as_deref(), Some("https://x/browse/1/browse/2"));
    let other = JiraIssue::from_json(&json(r#"{"self": "https://x/rest/api/2/issue/1"}"#));
    assert_eq!(other.url.as_deref(), Some("https://x/rest/api/2/issue/1"));
}

#[test]
fn basic_auth_carries_the_token_as_password() {
    assert_eq!(client().auth_header(), "Basic ZW1haWw6dG9r");
    let other = JiraClient::new("s3cr3t-token".to_string(), "u".to_string(), None);
    assert_eq!(other.auth_header(), "Basic ZW1haWw6czNjcjN0LXRva2Vu");
}

#[test]
fn search_request_encodes_the_jql() {
    let request = client().list_issues(None).unwrap();
    assert_eq!(request.method, HttpMethod::Get);
    assert_eq!(
        request.url,
        "https://acme.atlassian.net/rest/api/3/search?jql=project%20%3D%20PROJ%20AND%20status%20%21%3D%20Done%20ORDER%20BY%20created%20DESC&maxResults=50"
    );
    assert_eq!(request.headers, headers());
    assert!(request.query.is_empty());
    assert!(matches!(request.body, HttpBody::Empty));
}

#[test]
fn search_request_encodes_unusual_project_keys() {
    let request = client().list_issues(Some("Ä b/c~d_e-f.g".to_string())).unwrap();
    assert_eq!(
        request.url,
        "https://acme.atlassian.net/rest/api/3/search?jql=project%20%3D%20%C3%84%20b%2Fc~d_e-f.g%20AND%20status%20%21%3D%20Done%20ORDER%20BY%20created%20DESC&maxResults=50"
    );
}

#[test]
fn project_is_required() {
    let bare = JiraClient::new("tok".to_string(), "https://acme.atlassian.net".to_string(), None);
    assert!(matches!(bare.list_issues(None), Err(JiraError::ProjectRequired)));
    assert!(matches!(bare.create_issue(None, "s", None), Err(JiraError::ProjectRequired)));
    assert!(matches!(bare.resolve_project(None), Err(JiraError::ProjectRequired)));
    assert_eq!(bare.resolve_project(Some(&"K".to_string())).unwrap(), "K");
    assert!(bare.config().is_none());
    let with = JiraClient::with_project("t".to_string(), "u".to_string(), "P".to_string());
    assert_eq!(with.config(), Some(&"P".to_string()));
}

#[test]
fn search_result_reads_the_issues() {
    let issues = JiraClient::list_issues_result(&json(SEARCH)).unwrap();
    assert_eq!(issues.len(), 2);
    assert_eq!(issues[0].key, "PROJ-1");
    assert_eq!(issues[1].id, "10002");
    assert!(JiraClient::list_issues_result(&json(r#"{"issues": []}"#)).unwrap().is_empty());
}

#[test]
fn search_result_without_issues_is_refused() {
    for reply in [r#"{"errorMessages":["bad project"]}"#, r#"{"issues":{}}"#, "[]"] {
        match JiraClient::list_issues_result(&json(reply)) {
            Err(JiraError::UnexpectedResponse(body)) => assert_eq!(body, reply),
            other => panic!("unexpected: {:?}", other),
        }
    }
}

#[test]
fn create_request_without_description_is_flat() {
    let request = client().create_issue(None, "Summary", None).unwrap();
    assert_eq!(request.method, HttpMethod::Post);
    assert_eq!(request.url, "https://acme.atlassian.net/rest/api/3/issue");
    assert_eq!(request.headers, headers());
    assert_eq!(
        body_of(request),
        json(
            r#"{"fields": {"project": {"key": "PROJ"}, "summary": "Summary",
                "issuetype": {"name": "Task"}}}"#
        )
    );
}

#[test]
fn create_request_with_description_builds_a_document() {
    let request = client().create_issue(Some("OTHER".to_string()), "Summary", Some("Text")).unwrap();
    assert_eq!(
        body_of(request),
        json(
            r#"{"fields": {
                "project": {"key": "OTHER"},
                "summary": "Summary",
                "issuetype": {"name": "Task"},
                "description": {
                    "type": "doc",
                    "version": 1,
                    "content": [{
                        "type": "paragraph",
                        "content": [{"type": "text", "text": "Text"}]
                    }]
                }
            }}"#
        )
    );
    assert_eq!(
        document_value("x"),
        json(
            r#"{"type": "doc", "version": 1,
                "content": [{"type": "paragraph", "content": [{"type": "text", "text": "x"}]}]}"#
        )
    );
}

#[test]
fn projects_request() {
    let request = client().list_projects();
    assert_eq!(request.method, HttpMethod::Get);
    assert_eq!(request.url, "https://acme.atlassian.net/rest/api/3/project");
    assert_eq!(request.headers, headers());
}

#[test]
fn unified_list_searches_and_maps() {
    let adapter = UnifiedJira::new(
        "tok".to_string(),
        "https://acme.atlassian.net".to_string(),
        Some("PROJ".to_string()),
    );
    assert_eq!(adapter.provider(), ProviderId::Jira);
    let query = UnifiedListQuery { workspace: None, repo: None, search: None };
    let request = match adapter.list(&query, &Vec::new()) {
        Ok(Step::Send(request)) => request,
        other => panic!("unexpected: {:?}", other),
    };
    assert_eq!(
        request.url,
        "https://acme.atlassian.net/rest/api/3/search?jql=project%20%3D%20PROJ%20AND%20status%20%21%3D%20Done%20ORDER%20BY%20created%20DESC&maxResults=50"
    );
    assert_eq!(request.headers, headers());
    let reply = json(SEARCH);
    let issues = match adapter.list(&query, &vec![reply.clone()]) {
        Ok(Step::Done(issues)) => issues,
        other => panic!("unexpected: {:?}", other),
    };
    assert_eq!(issues.len(), 2);
    assert_eq!(issues[0].id, "PROJ-1");
    assert_eq!(issues[0].title, "First");
    assert_eq!(issues[0].state, "In Progress");
    assert_eq!(issues[0].url.as_deref(), Some("https://acme.atlassian.net/browse/10001"));
    assert_eq!(issues[1].id, "10002");
    assert_eq!(issues[1].title, "untitled");
    for (issue, raw) in issues.iter().zip(reply["issues"].as_array().unwrap()) {
        assert_eq!(issue.provider, ProviderId::Jira);
        assert_eq!(&issue.raw_payload, raw);
    }
}

#[test]
fn unified_list_refuses_a_reply_without_issues() {
    let adapter = UnifiedJira::new("tok".to_string(), "https://x".to_string(), Some("P".to_string()));
    let query = UnifiedListQuery { workspace: None, repo: None, search: None };
    match adapter.list(&query, &vec![json(r#"{"errorMessages": ["bad jql"]}"#)]) {
        Err(UnifiedError::UnexpectedResponse(body)) => {
            assert_eq!(body, r#"{"errorMessages":["bad jql"]}"#)
        }
        other => panic!("unexpected: {:?}", other),
    }
}

#[test]
fn unified_operations_require_a_project() {
    let adapter = UnifiedJira::new("tok".to_string(), "https://x".to_string(), None);
    let query = UnifiedListQuery { workspace: None, repo: None, search: None };
    match adapter.list(&query, &Vec::new()) {
        Err(UnifiedError::Configuration(detail)) => assert_eq!(detail, "project is required"),
        other => panic!("unexpected: {:?}", other),
    }
    let params = UnifiedCreateParams { workspace: None, repo: None, title: "t".to_string(), body: None };
    match adapter.create(&params, &Vec::new()) {
        Err(UnifiedError::Configuration(detail)) => assert_eq!(detail, "project is required"),
        other => panic!("unexpected: {:?}", other),
    }
}

#[test]
fn unified_create_posts_and_maps_the_reply() {
    let adapter = UnifiedJira::new("tok".to_string(), "https://x".to_string(), None);
    let params = UnifiedCreateParams {
        workspace: None,
        repo: Some("KEY".to_string()),
        title: "Summary".to_string(),
        body: Some("Text".to_string()),
    };
    let request = match adapter.create(&params, &Vec::new()) {
        Ok(Step::Send(request)) => request,
        other => panic!("unexpected: {:?}", other),
    };
    assert_eq!(request.method, HttpMethod::Post);
    assert_eq!(request.url, "https://x/rest/api/3/issue");
    let document = body_of(request);
    assert_eq!(document["fields"]["project"]["key"], Value::String("KEY".to_string()));
    assert_eq!(document["fields"]["description"]["content"][0]["content"][0]["text"], Value::String("Text".to_string()));
    let reply = json(r#"{"id": "10003", "key": "KEY-3", "self": "https://x/rest/api/3/issue/10003"}"#);
    let issue = match adapter.create(&params, &vec![reply.clone()]) {
        Ok(Step::Done(issue)) => issue,
        other => panic!("unexpected: {:?}", other),
    };
    assert_eq!(issue.id, "KEY-3");
    assert_eq!(issue.title, "untitled");
    assert_eq!(issue.state, "unknown");
    assert_eq!(issue.url.as_deref(), Some("https://x/browse/10003"));
    assert_eq!(issue.raw_payload, reply);
}

#[test]
fn default_jira_configuration_is_empty() {
    let config = JiraConfig::default();
    assert!(config.server_url.is_none() && config.default_project.is_none());
    assert!(config.email.is_none());
}
