use kirei::http::{HttpBody, HttpMethod, HttpRequest, Step};
use kirei::providers::github::{
    exchange_code_for_token, exchange_code_result, get_authorization_url, split_scope,
    GitHubClient, GitHubConfig, GitHubError, GitHubIssue, GitHubOAuthConfig, GitHubRepository,
    ScopeParts,
};
use kirei::unified::github::GitHubClient as UnifiedGitHub;
use kirei::unified::{ProviderId, UnifiedCreateParams, UnifiedError, UnifiedIssue, UnifiedListQuery};
use serde_json::Value;

fn json(text: &str) -> Value {
    serde_json::from_str(text).unwrap()
}

fn pairs(items: &[(&str, &str)]) -> Vec<(String, String)> {
    items.iter().map(|(k, v)| (k.to_string(), v.to_string())).collect()
}

fn github_headers(token: &str) -> Vec<(String, String)> {
    pairs(&[("Authorization", &format!("Bearer {}", token)), ("User-Agent", "kirei-cli")])
}

fn sent<T>(step: Result<Step<T>, UnifiedError>) -> HttpRequest {
    match step {
        Ok(Step::Send(request)) => request,
        Ok(Step::Done(_)) => panic!("expected a request, got a result"),
        Err(e) => panic!("expected a request, got {:?}", e),
    }
}

fn done<T>(step: Result<Step<T>, UnifiedError>) -> T {
    match step {
        Ok(Step::Done(value)) => value,
        Ok(Step::Send(request)) => panic!("expected a result, got {:?}", request),
        Err(e) => panic!("expected a result, got {:?}", e),
    }
}

fn configuration_error<T>(step: Result<Step<T>, UnifiedError>) -> String {
    match step {
        Err(UnifiedError::Configuration(detail)) => detail,
        Err(e) => panic!("expected a configuration error, got {:?}", e),
        Ok(_) => panic!("expected a configuration error"),
    }
}

fn query(repo: Option<&str>) -> UnifiedListQuery {
    UnifiedListQuery { workspace: None, repo: repo.map(str::to_string), search: None }
}

const LISTING: &str = r#"[
    {"id": 9001, "number": 1, "title": "First", "state": "open",
     "html_url": "https://github.com/octo/repo/issues/1", "body": "text"},
    {"id": 9002, "number": 2, "title": "A pull request", "state": "open",
     "pull_request": {"url": "https://api.github.com/repos/octo/repo/pulls/2"}},
    {"number": 3, "state": "closed"},
    {"id": 9004, "number": 4, "title": "Null marker", "pull_request": null}
]"#;

#[test]
fn scope_splits_at_first_slash() {
    let repo = GitHubRepository::from_string("octo/repo").unwrap();
    assert_eq!(repo.owner, "octo");
    assert_eq!(repo.name, "repo");
    let nested = GitHubRepository::from_string("a/b/c").unwrap();
    assert_eq!(nested.owner, "a");
    assert_eq!(nested.name, "b/c");
}

#[test]
fn scope_without_slash_has_no_name() {
    assert!(matches!(GitHubRepository::from_string("repo"), Err(GitHubError::RepoNameMissing)));
    assert!(matches!(GitHubRepository::from_string("octo/"), Err(GitHubError::RepoNameMissing)));
}

#[test]
fn scope_without_owner_is_refused() {
    assert!(matches!(GitHubRepository::from_string(""), Err(GitHubError::OwnerMissing)));
    assert!(matches!(GitHubRepository::from_string("/repo"), Err(GitHubError::OwnerMissing)));
    assert!(matches!(GitHubRepository::from_string("/"), Err(GitHubError::OwnerMissing)));
}

#[test]
fn split_scope_reports_each_case() {
    assert!(matches!(split_scope(""), ScopeParts::OwnerMissing));
    assert!(matches!(split_scope("x"), ScopeParts::NameMissing));
    match split_scope("ö/ü") {
        ScopeParts::Parts(owner, name) => {
            assert_eq!(owner, "ö");
            assert_eq!(name, "ü");
        }
        _ => panic!("expected two parts"),
    }
}

#[test]
fn repository_text_round_trips() {
    let repo = GitHubRepository::new("octo".to_string(), "repo".to_string());
    assert_eq!(repo.as_str(), "octo/repo");
    let again = GitHubRepository::from_string(&repo.as_str()).unwrap();
    assert_eq!(again.owner, "octo");
    assert_eq!(again.name, "repo");
}

#[test]
fn github_issue_is_read_from_json() {
    let issue = GitHubIssue::from_json(json(
        r#"{"id": 77, "number": 5, "title": "T", "body": "B", "state": "open", "html_url": "u"}"#,
    ));
    assert_eq!(issue.id, "5");
    assert_eq!(issue.number, 5);
    assert_eq!(issue.title, "T");
    assert_eq!(issue.body.as_deref(), Some("B"));
    assert_eq!(issue.state, "open");
    assert_eq!(issue.html_url.as_deref(), Some("u"));
}

#[test]
fn issue_defaults_for_missing_members() {
    let issue = GitHubIssue::from_json(json(r#"{"number": 12}"#));
    assert_eq!(issue.id, "12");
    assert_eq!(issue.number, 12);
    assert_eq!(issue.title, "untitled");
    assert_eq!(issue.state, "unknown");
    assert!(issue.body.is_none());
    assert!(issue.html_url.is_none());

    let empty = GitHubIssue::from_json(json("{}"));
    assert_eq!(empty.id, "");
    assert_eq!(empty.number, 0);

    let by_id = GitHubIssue::from_json(json(r#"{"id": 1001, "title": "Bug"}"#));
    assert_eq!(by_id.id, "1001");
    assert_eq!(by_id.number, 0);

    let odd = GitHubIssue::from_json(json(r#"{"id": "text", "number": 1.5, "title": 3}"#));
    assert_eq!(odd.id, "text");
    assert_eq!(odd.number, 0);
    assert_eq!(odd.title, "untitled");

    let not_an_object = GitHubIssue::from_json(json("[1, 2]"));
    assert_eq!(not_an_object.id, "");
    assert_eq!(not_an_object.title, "untitled");
}

#[test]
fn issue_number_out_of_range_counts_as_missing() {
    let issue = GitHubIssue::from_json(json(r#"{"number": 9223372036854775808, "id": -4}"#));
    assert_eq!(issue.number, 0);
    assert_eq!(issue.id, "-4");
}

#[test]
fn listing_leaves_pull_requests_out() {
    let items: Vec<Value> = serde_json::from_str(LISTING).unwrap();
    let issues = GitHubIssue::read_listing(&items);
    assert_eq!(issues.len(), 2);
    assert_eq!(issues[0].number, 1);
    assert_eq!(issues[0].id, "1");
    assert_eq!(issues[0].title, "First");
    assert_eq!(issues[1].number, 3);
    assert_eq!(issues[1].id, "3");
    assert_eq!(issues[1].title, "untitled");
    assert_eq!(issues[1].state, "closed");
}

#[test]
fn listing_of_nothing_is_empty() {
    assert!(GitHubIssue::read_listing(&Vec::new()).is_empty());
}

#[test]
fn provider_client_list_request() {
    let client = GitHubClient::new("tok".to_string(), Some("octo/repo".to_string()));
    let request = client.list_issues(None, None).unwrap();
    assert_eq!(request.method, HttpMethod::Get);
    assert_eq!(request.url, "https://api.github.com/repos/octo/repo/issues?state=open&per_page=50");
    assert_eq!(request.headers, github_headers("tok"));
    assert!(request.query.is_empty());
    assert!(matches!(request.body, HttpBody::Empty));

    let closed = client.list_issues(Some("a/b".to_string()), Some("closed")).unwrap();
    assert_eq!(closed.url, "https://api.github.com/repos/a/b/issues?state=closed&per_page=50");
}

#[test]
fn provider_client_reports_scope_errors() {
    let bare = GitHubClient::new("tok".to_string(), None);
    assert!(matches!(bare.list_issues(None, None), Err(GitHubError::RepositoryRequired)));
    assert!(matches!(
        bare.list_issues(Some("repo".to_string()), None),
        Err(GitHubError::RepoNameMissing)
    ));
    assert!(matches!(
        bare.create_issue(Some("/repo".to_string()), "t", None),
        Err(GitHubError::OwnerMissing)
    ));
    assert!(bare.config().is_none());
}

#[test]
fn provider_client_create_request() {
    let repo = GitHubRepository::new("octo".to_string(), "repo".to_string());
    let client = GitHubClient::with_repo("tok".to_string(), repo);
    assert_eq!(client.config(), Some(&"octo/repo".to_string()));
    let request = client.create_issue(None, "Title", Some("Body")).unwrap();
    assert_eq!(request.method, HttpMethod::Post);
    assert_eq!(request.url, "https://api.github.com/repos/octo/repo/issues");
    assert_eq!(request.headers, github_headers("tok"));
    match request.body {
        HttpBody::Json(document) => {
            assert_eq!(document, json(r#"{"title": "Title", "body": "Body"}"#))
        }
        other => panic!("unexpected body {:?}", other),
    }
    let without = client.create_issue(None, "Title", None).unwrap();
    match without.body {
        HttpBody::Json(document) => assert_eq!(document, json(r#"{"title": "Title"}"#)),
        other => panic!("unexpected body {:?}", other),
    }
}

#[test]
fn provider_client_account_requests() {
    let client = GitHubClient::new("tok".to_string(), None);
    let repos = client.list_repositories();
    assert_eq!(repos.method, HttpMethod::Get);
    assert_eq!(repos.url, "https://api.github.com/user/repos?per_page=100&sort=updated");
    assert_eq!(repos.headers, github_headers("tok"));
    let user = client.get_token_info();
    assert_eq!(user.url, "https://api.github.com/user");
    assert_eq!(user.headers, github_headers("tok"));
}

#[test]
fn unified_list_asks_for_open_issues() {
    let client = UnifiedGitHub::new("abc123".to_string(), Some("octo/repo".to_string()));
    let request = sent(client.list(&query(None), &Vec::new()));
    assert_eq!(request.method, HttpMethod::Get);
    assert_eq!(request.url, "https://api.github.com/repos/octo/repo/issues?state=open&per_page=20");
    assert_eq!(request.headers, github_headers("abc123"));
    assert!(request.query.is_empty());
    assert!(matches!(request.body, HttpBody::Empty));
    assert_eq!(client.provider(), ProviderId::Github);
}

#[test]
fn unified_list_prefers_the_scope_of_the_query() {
    let client = UnifiedGitHub::new("t".to_string(), Some("octo/repo".to_string()));
    let request = sent(client.list(&query(Some("other/place")), &Vec::new()));
    assert_eq!(request.url, "https://api.github.com/repos/other/place/issues?state=open&per_page=20");
}

#[test]
fn unified_scope_errors_are_configuration_errors() {
    let bare = UnifiedGitHub::new("t".to_string(), None);
    assert_eq!(configuration_error(bare.list(&query(None), &Vec::new())), "repository is required");
    assert_eq!(
        configuration_error(bare.list(&query(Some("/x")), &Vec::new())),
        "repository owner missing"
    );
    assert_eq!(
        configuration_error(bare.list(&query(Some("x")), &Vec::new())),
        "repository name missing"
    );
    let owner_and_name = bare.resolve_repo(Some(&"octo/repo".to_string())).unwrap();
    assert_eq!(owner_and_name, ("octo".to_string(), "repo".to_string()));
}

#[test]
fn unified_list_maps_every_element() {
    let client = UnifiedGitHub::new("t".to_string(), Some("octo/repo".to_string()));
    let reply = json(LISTING);
    let issues: Vec<UnifiedIssue> = done(client.list(&query(None), &vec![reply.clone()]));
    assert_eq!(issues.len(), 4);
    let ids: Vec<&str> = issues.iter().map(|i| i.id.as_str()).collect();
    assert_eq!(ids, vec!["1", "2", "3", "4"]);
    assert_eq!(issues[0].title, "First");
    assert_eq!(issues[0].state, "open");
    assert_eq!(issues[0].url.as_deref(), Some("https://github.com/octo/repo/issues/1"));
    assert_eq!(issues[2].title, "untitled");
    assert_eq!(issues[2].state, "closed");
    assert!(issues[2].url.is_none());
    for (issue, raw) in issues.iter().zip(reply.as_array().unwrap()) {
        assert_eq!(issue.provider, ProviderId::Github);
        assert_eq!(&issue.raw_payload, raw);
    }
}

#[test]
fn unified_list_refuses_a_reply_that_is_no_array() {
    let client = UnifiedGitHub::new("t".to_string(), Some("octo/repo".to_string()));
    let reply = json(r#"{"message": "Bad credentials"}"#);
    match client.list(&query(None), &vec![reply]) {
        Err(UnifiedError::UnexpectedResponse(body)) => {
            assert_eq!(body, r#"{"message":"Bad credentials"}"#)
        }
        other => panic!("unexpected: {:?}", other),
    }
}

#[test]
fn unified_issue_falls_back_to_text_id() {
    let client = UnifiedGitHub::new("t".to_string(), None);
    let by_id = client.map_issue(json(r#"{"id": "node-7", "title": "x"}"#));
    assert_eq!(by_id.id, "node-7");
    let numeric_id_only = client.map_issue(json(r#"{"id": 1001, "title": "Bug"}"#));
    assert_eq!(numeric_id_only.id, "1001");
    assert_eq!(client.map_issue(json("{}")).id, "");
    let both = client.map_issue(json(r#"{"id": "node-7", "number": 42}"#));
    assert_eq!(both.id, "42");
    assert_eq!(both.title, "untitled");
    assert_eq!(both.state, "unknown");
}

#[test]
fn unified_create_posts_title_and_body() {
    let client = UnifiedGitHub::new("t".to_string(), Some("octo/repo".to_string()));
    let params = UnifiedCreateParams {
        workspace: None,
        repo: None,
        title: "Title".to_string(),
        body: Some("Body".to_string()),
    };
    let request = sent(client.create(&params, &Vec::new()));
    assert_eq!(request.method, HttpMethod::Post);
    assert_eq!(request.url, "https://api.github.com/repos/octo/repo/issues");
    assert_eq!(request.headers, github_headers("t"));
    match request.body {
        HttpBody::Json(document) => {
            assert_eq!(document, json(r#"{"title": "Title", "body": "Body"}"#))
        }
        other => panic!("unexpected body {:?}", other),
    }
    let no_body = UnifiedCreateParams { body: None, ..params.clone() };
    match sent(client.create(&no_body, &Vec::new())).body {
        HttpBody::Json(document) => {
            assert_eq!(document, json(r#"{"title": "Title", "body": null}"#))
        }
        other => panic!("unexpected body {:?}", other),
    }
    let reply = json(r#"{"number": 8, "title": "Title", "state": "open", "html_url": "u"}"#);
    let issue = done(client.create(&params, &vec![reply.clone()]));
    assert_eq!(issue.id, "8");
    assert_eq!(issue.title, "Title");
    assert_eq!(issue.raw_payload, reply);
}

#[test]
fn creation_and_listing_project_alike() {
    let client = UnifiedGitHub::new("t".to_string(), Some("octo/repo".to_string()));
    let record = json(r#"{"number": 8, "title": "Title", "state": "open", "html_url": "u"}"#);
    let params = UnifiedCreateParams {
        workspace: None,
        repo: None,
        title: "Title".to_string(),
        body: None,
    };
    let created = done(client.create(&params, &vec![record.clone()]));
    let listed = done(client.list(&query(None), &vec![Value::Array(vec![record])]));
    assert_eq!(listed.len(), 1);
    assert_eq!(created.id, listed[0].id);
    assert_eq!(created.title, listed[0].title);
    assert_eq!(created.state, listed[0].state);
    assert_eq!(created.url, listed[0].url);
    assert_eq!(created.raw_payload, listed[0].raw_payload);
}

#[test]
fn summary_shows_provider_state_title_and_url() {
    let client = UnifiedGitHub::new("t".to_string(), None);
    let with_url = client.map_issue(json(
        r#"{"number": 1, "title": "T", "state": "open", "url": "https://api/1"}"#,
    ));
    assert_eq!(with_url.display_summary(), "GitHub [open] T (https://api/1)");
    let without = client.map_issue(json(r#"{"number": 1, "title": "T", "state": "open"}"#));
    assert_eq!(without.display_summary(), "GitHub [open] T (no-url)");
}

#[test]
fn exchange_request_is_a_form_post() {
    let request = exchange_code_for_token("id", "secret", "the-code");
    assert_eq!(request.method, HttpMethod::Post);
    assert_eq!(request.url, "https://github.com/login/oauth/access_token");
    assert_eq!(request.headers, pairs(&[("Accept", "application/json")]));
    match request.body {
        HttpBody::Form(form) => assert_eq!(
            form,
            pairs(&[("client_id", "id"), ("client_secret", "secret"), ("code", "the-code")])
        ),
        other => panic!("unexpected body {:?}", other),
    }
}

#[test]
fn exchange_result_needs_an_access_token() {
    assert_eq!(exchange_code_result(&json(r#"{"access_token": "gho_1"}"#)).unwrap(), "gho_1");
    for reply in [r#"{"error": "bad_verification_code"}"#, r#"{"access_token": 5}"#] {
        match exchange_code_result(&json(reply)) {
            Err(GitHubError::AuthorizationExchangeFailed(detail)) => {
                assert_eq!(detail, "No access token in response")
            }
            other => panic!("unexpected: {:?}", other),
        }
    }
}

#[test]
fn authorization_url_of_the_provider_layer() {
    let url = get_authorization_url("my client", 4321);
    let parsed = url::Url::parse(&url).unwrap();
    let found: Vec<(String, String)> = parsed.query_pairs().into_owned().collect();
    assert_eq!(found.len(), 4);
    assert_eq!(found[0], ("client_id".to_string(), "my client".to_string()));
    assert_eq!(
        found[1],
        ("redirect_uri".to_string(), "http://localhost:4321/callback".to_string())
    );
    assert_eq!(found[2], ("scope".to_string(), "repo".to_string()));
    assert_eq!(found[3].0, "state");
    assert_eq!(found[3].1.len(), 32);
    assert!(found[3].1.chars().all(|c| c.is_ascii_digit() || c.is_ascii_lowercase()));
}

#[test]
fn default_configurations_are_empty() {
    let config = GitHubConfig::default();
    assert!(config.default_repo.is_none() && config.client_id.is_none());
    assert!(config.client_secret.is_none());
    let oauth = GitHubOAuthConfig::default();
    assert!(oauth.client_id.is_none() && oauth.client_secret.is_none());
}

#[test]
fn unified_listing_without_pull_requests() {
    let client = UnifiedGitHub::new("t".to_string(), Some("octo/repo".to_string()))
        .without_pull_requests();
    let reply = json(LISTING);
    let issues: Vec<UnifiedIssue> = done(client.list(&query(None), &vec![reply.clone()]));
    let ids: Vec<&str> = issues.iter().map(|i| i.id.as_str()).collect();
    assert_eq!(ids, vec!["1", "3"]);
    let entries = reply.as_array().unwrap();
    assert_eq!(issues[0].raw_payload, entries[0]);
    assert_eq!(issues[1].raw_payload, entries[2]);
    for issue in &issues {
        assert_eq!(issue.provider, ProviderId::Github);
        assert!(issue.raw_payload.get("pull_request").is_none());
        assert_eq!(issue.id, issue.raw_payload["number"].as_i64().unwrap().to_string());
    }
    let request = sent(client.list(&query(None), &Vec::new()));
    assert_eq!(request.url, "https://api.github.com/repos/octo/repo/issues?state=open&per_page=20");
}
