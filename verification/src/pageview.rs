//! Pageview logging: which requests are logged, and the line that is appended.

use vstd::prelude::*;
use vstd::string::StringExecFns;
use crate::calendar::{log_timestamp, utc_text, TIMESTAMP_PATTERN};
use crate::model::optional_text;
use crate::text::same_text;

verus! {

/// Whether a request with this method and path is a visit to the main page.
pub open spec fn is_pageview(method: Seq<char>, path: Seq<char>) -> bool {
    method == "GET"@ && (path == "/"@ || path == "/index.html"@)
}

/// The log line of a pageview: the timestamp, the marker, the path, and a
/// line feed.
pub open spec fn entry_text(timestamp: Seq<char>, path: Seq<char>) -> Seq<char> {
    timestamp + " - Pageview: "@ + path + "\n"@
}

/// What is appended to the log for a request that arrives at `now_secs`:
/// nothing unless it is a pageview, else its line, as far as the instant has
/// a timestamp.
pub open spec fn logged_text(method: Seq<char>, path: Seq<char>, now_secs: i64) -> Option<
    Seq<char>,
> {
    if is_pageview(method, path) {
        match utc_text(now_secs, TIMESTAMP_PATTERN@) {
            Some(stamp) => Some(entry_text(stamp, path)),
            None => None,
        }
    } else {
        None
    }
}

/// Decides whether a request is logged as a pageview: only a `GET` of `/` or
/// of `/index.html` is.
pub fn should_log_pageview(method: &str, path: &str) -> (logged: bool)
    ensures
        logged == is_pageview(method@, path@),
{
    same_text(method, "GET") && (same_text(path, "/") || same_text(path, "/index.html"))
}

/// Builds the log line of a pageview from its timestamp and path.
pub fn pageview_entry(timestamp: &str, path: &str) -> (line: String)
    ensures
        line@ == entry_text(timestamp@, path@),
{
    let mut line = String::from_str(timestamp);
    line.append(" - Pageview: ");
    line.append(path);
    line.append("\n");
    line
}

/// Decides what a request that arrives at `now_secs` seconds after the Unix
/// epoch appends to the pageview log. The request itself is forwarded
/// whatever the answer.
pub fn log_pageview(method: &str, path: &str, now_secs: i64) -> (appended: Option<String>)
    ensures
        optional_text(appended) == logged_text(method@, path@, now_secs),
{
    if !should_log_pageview(method, path) {
        return None;
    }
    match log_timestamp(now_secs) {
        Some(stamp) => Some(pageview_entry(stamp.as_str(), path)),
        None => None,
    }
}

} // verus!
