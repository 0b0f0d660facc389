use discussion_notifier::query::build_query;
use discussion_notifier::query::encode_request;
use discussion_notifier::query::prepare_request;
use discussion_notifier::query::QUERY_DOCUMENT;

#[test]
fn build_query_is_pure() {
    let a = build_query("octocat");
    let b = build_query("octocat");
    assert_eq!(a.query, b.query);
    assert_eq!(a.login, b.login);
    assert_eq!(a.login, "octocat");
}

#[test]
fn query_document_requests_the_needed_fields() {
    let q = build_query("octocat").query;
    assert!(q.starts_with("query($login: String!)"));
    assert!(q.contains("user(login: $login)"));
    assert!(q.contains("repositories(first: 100, orderBy: {field: UPDATED_AT, direction: DESC})"));
    assert!(q.contains("discussions(first: 100, orderBy: {field: UPDATED_AT, direction: DESC})"));
    assert!(q.contains("id,"));
    assert!(q.contains("title,"));
    assert!(q.contains("url,"));
    assert!(q.contains("totalCount"));
    assert!(q.contains("createdAt"));
}

#[test]
fn request_body_matches_serde_json_encoding() {
    let owner = "octocat";
    let req = build_query(owner);
    let body = encode_request(&req);

    let mut vars = serde_json::Map::new();
    vars.insert(
        "login".to_string(),
        serde_json::Value::String(owner.to_string()),
    );
    let mut obj = serde_json::Map::new();
    obj.insert(
        "query".to_string(),
        serde_json::Value::String(QUERY_DOCUMENT.to_string()),
    );
    obj.insert("variables".to_string(), serde_json::Value::Object(vars));
    let expected = serde_json::Value::Object(obj).to_string();

    assert_eq!(body, expected);
}

#[test]
fn request_body_escapes_the_owner() {
    let req = build_query("a\"b\\c");
    let body = encode_request(&req);
    assert!(body.ends_with(",\"variables\":{\"login\":\"a\\\"b\\\\c\"}}"));
}

#[test]
fn prepared_request_carries_url_headers_and_body() {
    let parts = prepare_request("SECRET-REDACTED", "octocat");
    assert_eq!(parts.url, "https://api.github.com/graphql");
    assert_eq!(parts.authorization, "Bearer SECRET-REDACTED");
    assert_eq!(parts.content_type, "application/json");
    assert_eq!(parts.user_agent, "Flows Network Connector");
    let req = build_query("octocat");
    assert_eq!(parts.body, encode_request(&req));
}
