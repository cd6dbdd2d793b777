//! Issue and pull-request counts for a repository: the four search URLs
//! that ask for them, and the rule that turns the four answers into a
//! result.

use vstd::prelude::*;
use crate::Error;
use crate::json::json_as_u64;
use crate::json::json_get;

verus! {

/// The search URL asking how many issues or pull requests of one state a
/// repository has: one result per page, so the interesting part of the
/// answer is its total count.
pub open spec fn spec_issue_search_url(
    user: Seq<char>,
    repo: Seq<char>,
    kind: Seq<char>,
    state: Seq<char>,
) -> Seq<char> {
    "https://api.github.com/search/issues?per_page=1&q=repo:"@ + user + "/"@ + repo + "+type:"@
        + kind + "+state:"@ + state
}

/// Formats the search URL for one kind/state combination.
pub fn issue_search_url(user: &str, repo: &str, kind: &str, state: &str) -> (r: String)
    ensures
        r@ == spec_issue_search_url(user@, repo@, kind@, state@),
{
    let mut out = String::new();
    out.append("https://api.github.com/search/issues?per_page=1&q=repo:");
    out.append(user);
    out.append("/");
    out.append(repo);
    out.append("+type:");
    out.append(kind);
    out.append("+state:");
    out.append(state);
    out
}

/// The four search URLs behind an issue-stats lookup, in the order open
/// issues, closed issues, open pull requests, closed pull requests.
pub fn issue_stats_urls(user: &str, repo: &str) -> (r: (String, String, String, String))
    ensures
        r.0@ == spec_issue_search_url(user@, repo@, "issue"@, "open"@),
        r.1@ == spec_issue_search_url(user@, repo@, "issue"@, "closed"@),
        r.2@ == spec_issue_search_url(user@, repo@, "pr"@, "open"@),
        r.3@ == spec_issue_search_url(user@, repo@, "pr"@, "closed"@),
{
    (
        issue_search_url(user, repo, "issue", "open"),
        issue_search_url(user, repo, "issue", "closed"),
        issue_search_url(user, repo, "pr", "open"),
        issue_search_url(user, repo, "pr", "closed"),
    )
}

/// Combines the four total counts into the issue-stats tuple, in the order
/// open issues, closed issues, open pull requests, closed pull requests.
/// The first count that could not be read decides the error.
pub fn issue_stats_from_counts(
    open_issues: Option<u64>,
    closed_issues: Option<u64>,
    open_pull_requests: Option<u64>,
    closed_pull_requests: Option<u64>,
) -> (r: Result<(u64, u64, u64, u64), Error>)
    ensures
        open_issues is None ==> r is Err && r->Err_0.message@ == "Cannot get open issue count"@,
        open_issues is Some && closed_issues is None ==> r is Err && r->Err_0.message@
            == "Cannot get closed issue count"@,
        open_issues is Some && closed_issues is Some && open_pull_requests is None ==> r is Err
            && r->Err_0.message@ == "Cannot get open pull request count"@,
        open_issues is Some && closed_issues is Some && open_pull_requests is Some
            && closed_pull_requests is None ==> r is Err && r->Err_0.message@
            == "Cannot get closed pull request count"@,
        open_issues is Some && closed_issues is Some && open_pull_requests is Some
            && closed_pull_requests is Some ==> r is Ok && r->Ok_0 == (
            open_issues->0,
            closed_issues->0,
            open_pull_requests->0,
            closed_pull_requests->0,
        ),
{
    let open_issues = match open_issues {
        Some(n) => n,
        None => {
            return Err(Error::new("Cannot get open issue count"));
        },
    };
    let closed_issues = match closed_issues {
        Some(n) => n,
        None => {
            return Err(Error::new("Cannot get closed issue count"));
        },
    };
    let open_pull_requests = match open_pull_requests {
        Some(n) => n,
        None => {
            return Err(Error::new("Cannot get open pull request count"));
        },
    };
    let closed_pull_requests = match closed_pull_requests {
        Some(n) => n,
        None => {
            return Err(Error::new("Cannot get closed pull request count"));
        },
    };
    Ok((open_issues, closed_issues, open_pull_requests, closed_pull_requests))
}

/// Reads the `total_count` field of one search response, if it is there
/// and is a count.
pub fn response_total_count(response: &serde_json::Value) -> (r: Option<u64>) {
    match json_get(response, "total_count") {
        Some(v) => json_as_u64(v),
        None => None,
    }
}

/// Combines four fetched search responses into the issue-stats tuple: the
/// `total_count` of each, in the order open issues, closed issues, open
/// pull requests, closed pull requests.  Whatever the responses hold, an
/// error names the first response whose count could not be read.
pub fn issue_stats_from_responses(
    open_issues: &serde_json::Value,
    closed_issues: &serde_json::Value,
    open_pull_requests: &serde_json::Value,
    closed_pull_requests: &serde_json::Value,
) -> (r: Result<(u64, u64, u64, u64), Error>)
    ensures
        r is Err ==> r->Err_0.message@ == "Cannot get open issue count"@ || r->Err_0.message@
            == "Cannot get closed issue count"@ || r->Err_0.message@
            == "Cannot get open pull request count"@ || r->Err_0.message@
            == "Cannot get closed pull request count"@,
{
    issue_stats_from_counts(
        response_total_count(open_issues),
        response_total_count(closed_issues),
        response_total_count(open_pull_requests),
        response_total_count(closed_pull_requests),
    )
}

} // verus!
