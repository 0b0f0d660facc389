//! The discussion filter: walks the repository/discussion tree of one parsed
//! response and selects, in server order, every discussion that was created
//! within the lookback window and has no comments yet. A discussion whose
//! creation timestamp is not a valid RFC 3339 date-time is skipped on its own,
//! without disturbing its siblings.

use vstd::prelude::*;

use crate::response::DiscussionEdge;
use crate::response::DiscussionNode;
use crate::response::Notification;
use crate::response::RepoEdge;
use crate::response::RepoNode;
use crate::response::Response;
use crate::response::note_of;
use crate::time::parse_rfc3339_day;
use crate::time::rfc3339_utc_day;

verus! {

broadcast use {
    Seq::group_seq_extra,
    Seq::lemma_take_succ_push,
    vstd::seq_lib::group_seq_lib_default,
};

/// Day `day` lies in the lookback window: at most `n_days` days before
/// `now_day`, and not after `now_day`.
pub open spec fn day_in_window(day: int, now_day: int, n_days: int) -> bool {
    now_day - n_days <= day <= now_day
}

/// Discussion `d` is selected for notification: nobody has commented on it,
/// its creation timestamp is a valid RFC 3339 date-time, and the UTC calendar
/// day of that timestamp lies in the lookback window.
pub open spec fn selected(d: DiscussionNode, now_day: int, n_days: int) -> bool {
    &&& d.comments.total_count == 0
    &&& rfc3339_utc_day(d.created_at@) is Some
    &&& day_in_window(rfc3339_utc_day(d.created_at@)->0 as int, now_day, n_days)
}

/// The notifications for the discussion edges `ds` of the repository named
/// `name`: one record per selected discussion, in the order the server sent
/// the discussions.
pub open spec fn notes_of_discussions(
    name: String,
    ds: Seq<DiscussionEdge>,
    now_day: int,
    n_days: int,
) -> Seq<Notification> {
    ds.filter(|e: DiscussionEdge| selected(e.node, now_day, n_days)).map_values(
        |e: DiscussionEdge| note_of(name, e.node),
    )
}

/// The notifications for one repository.
pub open spec fn repo_notes(r: RepoNode, now_day: int, n_days: int) -> Seq<Notification> {
    notes_of_discussions(r.name, r.discussions.edges@, now_day, n_days)
}

/// The notifications for a whole response: each repository's notifications in
/// turn, repositories in the order the server sent them.
pub open spec fn response_notes(resp: Response, now_day: int, n_days: int) -> Seq<Notification> {
    resp.data.user.repositories.edges@.flat_map(
        |e: RepoEdge| repo_notes(e.node, now_day, n_days),
    )
}

/// Decides `selected` for one discussion: parses the creation timestamp and
/// tests the window bounds and the comment counter.
fn discussion_selected(d: &DiscussionNode, now_day: i32, n_days: i64) -> (r: bool)
    ensures
        r == selected(*d, now_day as int, n_days as int),
{
    match parse_rfc3339_day(d.created_at.as_str()) {
        Some(day) => d.comments.total_count == 0
            && (now_day as i128) - (n_days as i128) <= (day as i128)
            && (day as i128) <= (now_day as i128),
        None => false,
    }
}

/// Walks the response and returns the notification records of every selected
/// discussion, repositories and discussions both in server order.
pub fn filter_discussions(resp: &Response, now_day: i32, n_days: i64) -> (r: Vec<Notification>)
    ensures
        r@ == response_notes(*resp, now_day as int, n_days as int),
{
    let repo_edges = &resp.data.user.repositories.edges;
    let ghost f = |e: RepoEdge| repo_notes(e.node, now_day as int, n_days as int);
    let mut out: Vec<Notification> = Vec::new();
    let mut i: usize = 0;
    while i < repo_edges.len()
        invariant
            i <= repo_edges.len(),
            f == (|e: RepoEdge| repo_notes(e.node, now_day as int, n_days as int)),
            out@ == repo_edges@.take(i as int).flat_map(f),
        decreases repo_edges.len() - i,
    {
        let repo = &repo_edges[i].node;
        let ds = &repo.discussions.edges;
        let ghost prefix = out@;
        let mut j: usize = 0;
        while j < ds.len()
            invariant
                j <= ds.len(),
                out@ == prefix + notes_of_discussions(
                    repo.name,
                    ds@.take(j as int),
                    now_day as int,
                    n_days as int,
                ),
            decreases ds.len() - j,
        {
            let d = &ds[j].node;
            if discussion_selected(d, now_day, n_days) {
                out.push(
                    Notification {
                        repo_name: repo.name.clone(),
                        title: d.title.clone(),
                        url: d.url.clone(),
                    },
                );
            }
            proof {
                let pred = |e: DiscussionEdge| selected(e.node, now_day as int, n_days as int);
                let taken = ds@.take(j as int);
                assert(ds@.take(j as int + 1) =~= taken.push(ds@[j as int]));
                assert(taken.push(ds@[j as int]).filter(pred) == if pred(ds@[j as int]) {
                    taken.filter(pred).push(ds@[j as int])
                } else {
                    taken.filter(pred)
                });
                assert(out@ == prefix + notes_of_discussions(
                    repo.name,
                    ds@.take(j as int + 1),
                    now_day as int,
                    n_days as int,
                ));
            }
            j = j + 1;
        }
        proof {
            assert(ds@.take(ds@.len() as int) == ds@);
            assert(out@ == prefix + repo_notes(repo_edges@[i as int].node, now_day as int,
                n_days as int));
            assert(repo_edges@.take(i as int + 1).flat_map(f) =~= repo_edges@.take(
                i as int,
            ).flat_map(f) + f(repo_edges@[i as int]));
            assert(out@ =~= repo_edges@.take(i as int + 1).flat_map(f));
        }
        i = i + 1;
    }
    proof {
        assert(repo_edges@.take(repo_edges@.len() as int) == repo_edges@);
    }
    out
}

/// How many discussion edges of `ds` are selected.
pub open spec fn count_selected(ds: Seq<DiscussionEdge>, now_day: int, n_days: int) -> int
    decreases ds.len(),
{
    if ds.len() == 0 {
        0
    } else {
        count_selected(ds.drop_last(), now_day, n_days) + if selected(
            ds.last().node,
            now_day,
            n_days,
        ) {
            1int
        } else {
            0int
        }
    }
}

/// A discussion with any comments is never selected, whatever its timestamp.
pub proof fn lemma_commented_discussion_excluded(d: DiscussionNode, now_day: int, n_days: int)
    requires
        d.comments.total_count > 0,
    ensures
        !selected(d, now_day, n_days),
{
}

/// A discussion created strictly before the start of the lookback window is
/// never selected, whatever its comment count.
pub proof fn lemma_stale_discussion_excluded(d: DiscussionNode, now_day: int, n_days: int)
    requires
        rfc3339_utc_day(d.created_at@) is Some,
        rfc3339_utc_day(d.created_at@)->0 < now_day - n_days,
    ensures
        !selected(d, now_day, n_days),
{
}

/// A discussion with no comments, a creation timestamp that parses, and a
/// creation day inside the lookback window contributes its notification to
/// the repository's notes.
pub proof fn lemma_qualifying_discussion_included(r: RepoNode, j: int, now_day: int, n_days: int)
    requires
        0 <= j < r.discussions.edges@.len(),
        r.discussions.edges@[j].node.comments.total_count == 0,
        rfc3339_utc_day(r.discussions.edges@[j].node.created_at@) is Some,
        day_in_window(
            rfc3339_utc_day(r.discussions.edges@[j].node.created_at@)->0 as int,
            now_day,
            n_days,
        ),
    ensures
        repo_notes(r, now_day, n_days).contains(
            note_of(r.name, r.discussions.edges@[j].node),
        ),
{
    let ds = r.discussions.edges@;
    let pred = |e: DiscussionEdge| selected(e.node, now_day, n_days);
    let to_note = |e: DiscussionEdge| note_of(r.name, e.node);
    assert(pred(ds[j]));
    assert(ds.filter(pred).contains(ds[j]));
    let k = choose|k: int| 0 <= k < ds.filter(pred).len() && ds.filter(pred)[k] == ds[j];
    assert(ds.filter(pred).map_values(to_note)[k] == to_note(ds[j]));
    assert(repo_notes(r, now_day, n_days).contains(note_of(r.name, ds[j].node)));
}

proof fn lemma_flat_map_prefix_contains(
    s: Seq<RepoEdge>,
    f: spec_fn(RepoEdge) -> Seq<Notification>,
    k: int,
    x: Notification,
)
    requires
        0 <= k <= s.len(),
        s.take(k).flat_map(f).contains(x),
    ensures
        s.flat_map(f).contains(x),
    decreases s.len() - k,
{
    if k == s.len() {
        assert(s.take(k) == s);
    } else {
        assert(s.take(k + 1).flat_map(f) =~= s.take(k).flat_map(f) + f(s[k]));
        let idx = choose|idx: int|
            0 <= idx < s.take(k).flat_map(f).len() && #[trigger] s.take(k).flat_map(f)[idx] == x;
        assert(s.take(k + 1).flat_map(f)[idx] == x);
        lemma_flat_map_prefix_contains(s, f, k + 1, x);
    }
}

/// A selected discussion anywhere in the response contributes its
/// notification: discussion `j` of repository `i`.
pub proof fn lemma_selected_discussion_in_response(
    resp: Response,
    i: int,
    j: int,
    now_day: int,
    n_days: int,
)
    requires
        0 <= i < resp.data.user.repositories.edges@.len(),
        0 <= j < resp.data.user.repositories.edges@[i].node.discussions.edges@.len(),
        selected(
            resp.data.user.repositories.edges@[i].node.discussions.edges@[j].node,
            now_day,
            n_days,
        ),
    ensures
        response_notes(resp, now_day, n_days).contains(
            note_of(
                resp.data.user.repositories.edges@[i].node.name,
                resp.data.user.repositories.edges@[i].node.discussions.edges@[j].node,
            ),
        ),
{
    let s = resp.data.user.repositories.edges@;
    let f = |e: RepoEdge| repo_notes(e.node, now_day, n_days);
    let r = s[i].node;
    let note = note_of(r.name, r.discussions.edges@[j].node);
    lemma_qualifying_discussion_included(r, j, now_day, n_days);
    assert(f(s[i]).contains(note));
    assert(s.take(i + 1).flat_map(f) =~= s.take(i).flat_map(f) + f(s[i]));
    let idx = choose|idx: int| 0 <= idx < f(s[i]).len() && #[trigger] f(s[i])[idx] == note;
    assert(s.take(i + 1).flat_map(f)[s.take(i).flat_map(f).len() + idx] == note);
    lemma_flat_map_prefix_contains(s, f, i + 1, note);
}

/// Every notification of a repository stands for one of its selected
/// discussions: nothing reaches the notification set except through
/// `selected`.
pub proof fn lemma_note_stands_for_selected(r: RepoNode, k: int, now_day: int, n_days: int)
    requires
        0 <= k < repo_notes(r, now_day, n_days).len(),
    ensures
        exists|j: int|
            0 <= j < r.discussions.edges@.len() && selected(
                #[trigger] r.discussions.edges@[j].node,
                now_day,
                n_days,
            ) && repo_notes(r, now_day, n_days)[k] == note_of(
                r.name,
                r.discussions.edges@[j].node,
            ),
{
    let ds = r.discussions.edges@;
    let pred = |e: DiscussionEdge| selected(e.node, now_day, n_days);
    let to_note = |e: DiscussionEdge| note_of(r.name, e.node);
    let fs = ds.filter(pred);
    assert(repo_notes(r, now_day, n_days)[k] == to_note(fs[k]));
    assert(pred(fs[k]));
    assert(fs.contains(fs[k]));
    ds.lemma_filter_contains_rev(pred, fs[k]);
    let j = choose|j: int| 0 <= j < ds.len() && ds[j] == fs[k];
    assert(selected(ds[j].node, now_day, n_days));
    assert(repo_notes(r, now_day, n_days)[k] == note_of(r.name, ds[j].node));
}

/// A repository yields exactly one notification per selected discussion.
pub proof fn lemma_one_note_per_selected(
    name: String,
    ds: Seq<DiscussionEdge>,
    now_day: int,
    n_days: int,
)
    ensures
        notes_of_discussions(name, ds, now_day, n_days).len() == count_selected(
            ds,
            now_day,
            n_days,
        ),
    decreases ds.len(),
{
    reveal_with_fuel(Seq::<_>::filter, 2);
    let pred = |e: DiscussionEdge| selected(e.node, now_day, n_days);
    if ds.len() == 0 {
    } else {
        lemma_one_note_per_selected(name, ds.drop_last(), now_day, n_days);
        assert(ds.filter(pred) == if pred(ds.last()) {
            ds.drop_last().filter(pred).push(ds.last())
        } else {
            ds.drop_last().filter(pred)
        });
    }
}

/// A discussion whose creation timestamp is not a valid RFC 3339 date-time is
/// skipped on its own: dropping it from the sequence leaves the notifications
/// unchanged, so its sibling discussions are still processed.
pub proof fn lemma_malformed_timestamp_skipped(
    name: String,
    ds: Seq<DiscussionEdge>,
    j: int,
    now_day: int,
    n_days: int,
)
    requires
        0 <= j < ds.len(),
        rfc3339_utc_day(ds[j].node.created_at@) is None,
    ensures
        notes_of_discussions(name, ds, now_day, n_days) == notes_of_discussions(
            name,
            ds.remove(j),
            now_day,
            n_days,
        ),
{
    let pred = |e: DiscussionEdge| selected(e.node, now_day, n_days);
    let a = ds.subrange(0, j);
    let b = ds.subrange(j + 1, ds.len() as int);
    let m = seq![ds[j]];
    assert(ds =~= a + m + b);
    assert(m.filter(pred) =~= Seq::<DiscussionEdge>::empty()) by {
        reveal_with_fuel(Seq::<_>::filter, 2);
        assert(m.drop_last() =~= Seq::<DiscussionEdge>::empty());
        assert(!pred(m.last()));
    }
    assert((a + m + b).filter(pred) == (a + m).filter(pred) + b.filter(pred));
    assert((a + m).filter(pred) == a.filter(pred) + m.filter(pred));
    assert(ds.remove(j) == a + b);
    assert((a + b).filter(pred) == a.filter(pred) + b.filter(pred));
    assert(ds.filter(pred) =~= ds.remove(j).filter(pred));
}

} // verus!
