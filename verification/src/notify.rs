//! Message formatting, and the whole computing side of one polling run: from
//! a parsed response to the list of chat messages, one per selected
//! discussion, in filter order. Delivering the messages is the embedding
//! program's job; a delivery failure there concerns one message alone.

use vstd::prelude::*;
use vstd::string::StringExecFns;

use crate::filter::filter_discussions;
use crate::filter::response_notes;
use crate::response::Notification;
use crate::response::Response;
use crate::time::today_utc_day;

verus! {

broadcast use Seq::group_seq_extra;

/// The text of the notification for `n`: the discussion's title and its URL,
/// on two lines.
pub open spec fn message_text(n: Notification) -> Seq<char> {
    "New discussion: "@ + n.title@ + "\n"@ + n.url@
}

/// Formats the chat message for one selected discussion.
pub fn format_notification(n: &Notification) -> (r: String)
    ensures
        r@ == message_text(*n),
{
    let mut out = String::from_str("New discussion: ");
    out.append(n.title.as_str());
    out.append("\n");
    out.append(n.url.as_str());
    out
}

/// The messages of one run: the message of each selected discussion, in the
/// order the filter yields them.
pub open spec fn response_messages(resp: Response, now_day: int, n_days: int) -> Seq<Seq<char>> {
    response_notes(resp, now_day, n_days).map_values(|n: Notification| message_text(n))
}

/// Computes the messages of one run from a parsed response, with the lookback
/// window of `n_days` days ending on day `now_day`.
pub fn discussion_messages(resp: &Response, now_day: i32, n_days: i64) -> (r: Vec<String>)
    ensures
        r@.map_values(|s: String| s@) == response_messages(
            *resp,
            now_day as int,
            n_days as int,
        ),
{
    let notes = filter_discussions(resp, now_day, n_days);
    let mut out: Vec<String> = Vec::new();
    let mut i: usize = 0;
    proof {
        assert(out@.map_values(|s: String| s@) =~= notes@.take(0).map_values(
            |n: Notification| message_text(n),
        ));
    }
    while i < notes.len()
        invariant
            i <= notes.len(),
            notes@ == response_notes(*resp, now_day as int, n_days as int),
            out@.map_values(|s: String| s@) == notes@.take(i as int).map_values(
                |n: Notification| message_text(n),
            ),
        decreases notes.len() - i,
    {
        let m = format_notification(&notes[i]);
        out.push(m);
        i = i + 1;
    }
    proof {
        assert(notes@.take(notes@.len() as int) == notes@);
    }
    out
}

/// Computes the messages of one run against the clock: the lookback window
/// ends on the current UTC day, whichever day that is when the call is made.
pub fn discussion_messages_today(resp: &Response, n_days: i64) -> (r: Vec<String>)
    ensures
        exists|today: int|
            r@.map_values(|s: String| s@) == response_messages(*resp, today, n_days as int),
{
    let today = today_utc_day();
    let r = discussion_messages(resp, today, n_days);
    proof {
        assert(r@.map_values(|s: String| s@) == response_messages(
            *resp,
            today as int,
            n_days as int,
        ));
    }
    r
}

} // verus!
