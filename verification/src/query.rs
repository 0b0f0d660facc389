//! The GraphQL query builder: one fixed query document asking, for a given
//! login, for the first 100 most-recently-updated repositories and, in each,
//! the first 100 most-recently-updated discussions with their id, title, URL,
//! comment count and creation timestamp; plus the JSON request body and the
//! HTTP header values that carry it to the endpoint.

use vstd::prelude::*;
use vstd::string::StringExecFns;

verus! {

/// The query document sent on every run. It asks for one page of at most 100
/// repositories and at most 100 discussions per repository; later pages are
/// never requested.
pub open spec fn discussions_query_text() -> Seq<char> {
    QUERY_DOCUMENT@
}

pub const QUERY_DOCUMENT: &'static str = "query($login: String!) {
                user(login: $login) {
                    repositories(first: 100, orderBy: {field: UPDATED_AT, direction: DESC}) {
                        edges {
                            node {
                                name,
                                discussions(first: 100, orderBy: {field: UPDATED_AT, direction: DESC}) {
                                    edges {
                                        node {
                                            id,
                                            title,
                                            url,
                                            comments {
                                                totalCount
                                            },
                                            createdAt
                                        }
                                    }
                                }
                            }
                        }
                    }
                }
            }";

/// One built GraphQL request: the query document and the value bound to its
/// `login` variable.
pub struct GraphQlRequest {
    pub query: String,
    pub login: String,
}

/// What the builder produces for `owner`: the fixed query text and the login
/// binding, as a pair.
pub open spec fn built_query(owner: Seq<char>) -> (Seq<char>, Seq<char>) {
    (discussions_query_text(), owner)
}

/// Builds the GraphQL request for `owner`: the fixed query document plus a
/// variables object binding `login` to `owner`.
pub fn build_query(owner: &str) -> (r: GraphQlRequest)
    ensures
        (r.query@, r.login@) == built_query(owner@),
{
    GraphQlRequest { query: String::from_str(QUERY_DOCUMENT), login: String::from_str(owner) }
}

/// The query builder is a pure function of the owner: any two requests built
/// for the same owner have the same query text and the same login binding.
pub proof fn lemma_query_builder_idempotent(
    owner: Seq<char>,
    r1: (Seq<char>, Seq<char>),
    r2: (Seq<char>, Seq<char>),
)
    requires
        r1 == built_query(owner),
        r2 == built_query(owner),
    ensures
        r1 == r2,
{
}

/// The JSON string literal (quoted and escaped) that encodes the characters
/// `s`.
pub uninterp spec fn json_str_of(s: Seq<char>) -> Seq<char>;

/// Relies on `serde_json::to_string` on a string slice: it returns the JSON
/// string literal for the slice, a pure function of its characters, and
/// serializing a string slice never fails.
#[verifier::external_body]
pub(crate) fn json_encode_str(s: &str) -> (r: String)
    ensures
        r@ == json_str_of(s@),
{
    match serde_json::to_string(s) {
        Ok(t) => t,
        Err(_) => String::new(),
    }
}

/// The JSON request body `{"query": q, "variables": {"login": l}}`: both
/// strings JSON-encoded, the keys in this order, no whitespace.
pub open spec fn request_body_text(query: Seq<char>, login: Seq<char>) -> Seq<char> {
    "{\"query\":"@ + json_str_of(query) + ",\"variables\":{\"login\":"@ + json_str_of(login)
        + "}}"@
}

/// Encodes a built request as the JSON body of the HTTP POST.
pub fn encode_request(req: &GraphQlRequest) -> (r: String)
    ensures
        r@ == request_body_text(req.query@, req.login@),
{
    let mut out = String::from_str("{\"query\":");
    let q = json_encode_str(req.query.as_str());
    out.append(q.as_str());
    out.append(",\"variables\":{\"login\":");
    let l = json_encode_str(req.login.as_str());
    out.append(l.as_str());
    out.append("}}");
    out
}

/// Everything the HTTP POST to the GraphQL endpoint carries. The embedding
/// program only copies these values onto the wire.
pub struct HttpRequestParts {
    pub url: String,
    pub authorization: String,
    pub content_type: String,
    pub user_agent: String,
    pub body: String,
}

/// The Authorization header value for `token`.
pub open spec fn bearer_text(token: Seq<char>) -> Seq<char> {
    "Bearer "@ + token
}

/// Prepares the whole HTTP request of one polling run: the endpoint URL, the
/// header values, and the JSON body for `owner`, authorized by `token`.
pub fn prepare_request(token: &str, owner: &str) -> (r: HttpRequestParts)
    ensures
        r.url@ == "https://api.github.com/graphql"@,
        r.authorization@ == bearer_text(token@),
        r.content_type@ == "application/json"@,
        r.user_agent@ == "Flows Network Connector"@,
        r.body@ == request_body_text(discussions_query_text(), owner@),
{
    let req = build_query(owner);
    let body = encode_request(&req);
    let mut authorization = String::from_str("Bearer ");
    authorization.append(token);
    HttpRequestParts {
        url: String::from_str("https://api.github.com/graphql"),
        authorization,
        content_type: String::from_str("application/json"),
        user_agent: String::from_str("Flows Network Connector"),
        body,
    }
}

} // verus!
