use discussion_notifier::filter::filter_discussions;
use discussion_notifier::notify::discussion_messages;
use discussion_notifier::notify::discussion_messages_today;
use discussion_notifier::notify::format_notification;
use discussion_notifier::response::Comment;
use discussion_notifier::response::Data;
use discussion_notifier::response::DiscussionEdge;
use discussion_notifier::response::DiscussionNode;
use discussion_notifier::response::Discussions;
use discussion_notifier::response::Notification;
use discussion_notifier::response::RepoEdge;
use discussion_notifier::response::RepoNode;
use discussion_notifier::response::Repositories;
use discussion_notifier::response::Response;
use discussion_notifier::response::User;

fn discussion(title: &str, url: &str, comments: u64, created_at: &str) -> DiscussionEdge {
    DiscussionEdge {
        node: DiscussionNode {
            id: format!("D_{title}"),
            title: title.to_string(),
            url: url.to_string(),
            comments: Comment {
                total_count: comments,
            },
            created_at: created_at.to_string(),
        },
    }
}

fn repository(name: &str, discussions: Vec<DiscussionEdge>) -> RepoEdge {
    RepoEdge {
        node: RepoNode {
            name: name.to_string(),
            discussions: Discussions { edges: discussions },
        },
    }
}

fn response(repos: Vec<RepoEdge>) -> Response {
    Response {
        data: Data {
            user: User {
                repositories: Repositories { edges: repos },
            },
        },
    }
}

/// Day number of a calendar date, counted as the library counts days.
fn day_of(y: i32, m: u32, d: u32) -> i32 {
    chrono::Datelike::num_days_from_ce(&chrono::NaiveDate::from_ymd_opt(y, m, d).unwrap())
}

#[test]
fn one_fresh_uncommented_discussion_yields_one_message() {
    // created on the current day, no comments, lookback of one day
    let created = chrono::Utc::now().to_rfc3339();
    let today = chrono::Datelike::num_days_from_ce(&chrono::Utc::now().date_naive());
    let resp = response(vec![repository(
        "repo-a",
        vec![discussion(
            "Help needed",
            "https://example.com/repo-a/discussions/1",
            0,
            &created,
        )],
    )]);
    let notes = filter_discussions(&resp, today, 1);
    assert_eq!(notes.len(), 1);
    assert_eq!(notes[0].repo_name, "repo-a");
    assert_eq!(notes[0].title, "Help needed");
    let messages = discussion_messages(&resp, today, 1);
    assert_eq!(messages.len(), 1);
    assert_eq!(
        messages[0],
        "New discussion: Help needed\nhttps://example.com/repo-a/discussions/1"
    );
}

#[test]
fn a_commented_discussion_is_never_reported() {
    let created = chrono::Utc::now().to_rfc3339();
    let today = chrono::Datelike::num_days_from_ce(&chrono::Utc::now().date_naive());
    let resp = response(vec![repository(
        "repo-a",
        vec![discussion(
            "Help needed",
            "https://example.com/repo-a/discussions/1",
            3,
            &created,
        )],
    )]);
    assert_eq!(discussion_messages(&resp, today, 1).len(), 0);
    // even with a very wide window
    assert_eq!(discussion_messages(&resp, today, 10000).len(), 0);
}

#[test]
fn an_old_discussion_is_reported_only_with_a_wide_enough_window() {
    let created = (chrono::Utc::now() - chrono::Duration::days(10)).to_rfc3339();
    let today = chrono::Datelike::num_days_from_ce(&chrono::Utc::now().date_naive());
    let resp = response(vec![repository(
        "repo-a",
        vec![discussion(
            "Help needed",
            "https://example.com/repo-a/discussions/1",
            0,
            &created,
        )],
    )]);
    assert_eq!(discussion_messages(&resp, today, 1).len(), 0);
    assert_eq!(discussion_messages(&resp, today, 30).len(), 1);
}

#[test]
fn two_repositories_report_in_server_order() {
    let today = day_of(2024, 6, 15);
    let resp = response(vec![
        repository(
            "repo-b",
            vec![discussion("First", "https://example.com/b/1", 0, "2024-06-15T08:00:00Z")],
        ),
        repository(
            "repo-a",
            vec![discussion("Second", "https://example.com/a/1", 0, "2024-06-14T22:00:00Z")],
        ),
    ]);
    let messages = discussion_messages(&resp, today, 1);
    assert_eq!(messages.len(), 2);
    assert_eq!(messages[0], "New discussion: First\nhttps://example.com/b/1");
    assert_eq!(messages[1], "New discussion: Second\nhttps://example.com/a/1");
}

#[test]
fn a_malformed_timestamp_skips_that_discussion_alone() {
    let today = day_of(2024, 6, 15);
    let resp = response(vec![repository(
        "repo-a",
        vec![
            discussion("Broken", "https://example.com/a/1", 0, "not-a-date"),
            discussion("Fine", "https://example.com/a/2", 0, "2024-06-15T12:00:00Z"),
        ],
    )]);
    let messages = discussion_messages(&resp, today, 1);
    assert_eq!(messages.len(), 1);
    assert_eq!(messages[0], "New discussion: Fine\nhttps://example.com/a/2");
}

#[test]
fn the_window_is_compared_at_day_granularity() {
    let today = day_of(2024, 6, 15);
    // one day of lookback: anything on the 14th or the 15th qualifies
    let resp = response(vec![repository(
        "repo-a",
        vec![
            discussion("Start of day", "https://example.com/a/1", 0, "2024-06-14T00:00:00Z"),
            discussion("End of day", "https://example.com/a/2", 0, "2024-06-14T23:59:59Z"),
            discussion("Too old", "https://example.com/a/3", 0, "2024-06-13T23:59:59Z"),
        ],
    )]);
    let messages = discussion_messages(&resp, today, 1);
    assert_eq!(messages.len(), 2);
    assert_eq!(messages[0], "New discussion: Start of day\nhttps://example.com/a/1");
    assert_eq!(messages[1], "New discussion: End of day\nhttps://example.com/a/2");
}

#[test]
fn timestamps_are_compared_on_their_utc_day() {
    let today = day_of(2024, 6, 15);
    // 23:30 on the 14th at UTC-7 is 06:30 on the 15th in UTC
    let resp = response(vec![repository(
        "repo-a",
        vec![discussion(
            "Offset",
            "https://example.com/a/1",
            0,
            "2024-06-14T23:30:00-07:00",
        )],
    )]);
    let notes = filter_discussions(&resp, today, 0);
    assert_eq!(notes.len(), 1);
}

#[test]
fn a_future_discussion_is_outside_the_window() {
    let today = day_of(2024, 6, 15);
    let resp = response(vec![repository(
        "repo-a",
        vec![discussion("Future", "https://example.com/a/1", 0, "2024-06-16T00:00:01Z")],
    )]);
    assert_eq!(discussion_messages(&resp, today, 1).len(), 0);
}

#[test]
fn an_empty_response_yields_no_messages() {
    let resp = response(vec![]);
    assert_eq!(discussion_messages(&resp, day_of(2024, 6, 15), 1).len(), 0);
    assert_eq!(discussion_messages_today(&resp, 1).len(), 0);
}

#[test]
fn message_format_holds_title_and_url() {
    let n = Notification {
        repo_name: "repo-a".to_string(),
        title: "Help needed".to_string(),
        url: "https://example.com/1".to_string(),
    };
    assert_eq!(
        format_notification(&n),
        "New discussion: Help needed\nhttps://example.com/1"
    );
}
