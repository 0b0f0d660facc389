//! The typed shape of one GraphQL response, mirroring
//! `data.user.repositories.edges[].node.discussions.edges[].node`, and the
//! notification records selected from it.

use vstd::prelude::*;

verus! {

/// The comment counter of one discussion.
pub struct Comment {
    pub total_count: u64,
}

/// One discussion: identifier, title, URL, comment counter and the creation
/// timestamp exactly as the server sent it (an RFC 3339 date-time on a
/// well-formed response).
pub struct DiscussionNode {
    pub id: String,
    pub title: String,
    pub url: String,
    pub comments: Comment,
    pub created_at: String,
}

/// One edge of the discussion connection.
pub struct DiscussionEdge {
    pub node: DiscussionNode,
}

/// The discussion connection of one repository, in server order
/// (most recently updated first).
pub struct Discussions {
    pub edges: Vec<DiscussionEdge>,
}

/// One repository: its name and its discussions.
pub struct RepoNode {
    pub name: String,
    pub discussions: Discussions,
}

/// One edge of the repository connection.
pub struct RepoEdge {
    pub node: RepoNode,
}

/// The repository connection of the queried owner, in server order.
pub struct Repositories {
    pub edges: Vec<RepoEdge>,
}

/// The user node of the response.
pub struct User {
    pub repositories: Repositories,
}

/// The `data` object of the response.
pub struct Data {
    pub user: User,
}

/// One whole GraphQL response body, already parsed into plain values.
pub struct Response {
    pub data: Data,
}

/// One discussion selected for notification, paired with the name of the
/// repository it belongs to.
pub struct Notification {
    pub repo_name: String,
    pub title: String,
    pub url: String,
}

/// The notification record for discussion `d` of the repository named `name`.
pub open spec fn note_of(name: String, d: DiscussionNode) -> Notification {
    Notification { repo_name: name, title: d.title, url: d.url }
}

} // verus!
