//! The languages a repository is written in: the URL that asks for them,
//! and the rule that turns the answer's entries into byte counts.

use vstd::prelude::*;
use crate::Error;
use crate::json::json_as_u64;
use crate::json::json_object_entries;

verus! {

/// The URL of a repository's languages endpoint.
pub open spec fn spec_languages_url(user: Seq<char>, repo: Seq<char>) -> Seq<char> {
    "https://api.github.com/repos/"@ + user + "/"@ + repo + "/languages"@
}

/// Formats the URL of a repository's languages endpoint.
pub fn languages_url(user: &str, repo: &str) -> (r: String)
    ensures
        r@ == spec_languages_url(user@, repo@),
{
    let mut out = String::new();
    out.append("https://api.github.com/repos/");
    out.append(user);
    out.append("/");
    out.append(repo);
    out.append("/languages");
    out
}

/// The error message for a language whose byte count could not be read.
pub open spec fn bad_count_message(key: Seq<char>) -> Seq<char> {
    "Couldn't parse value of \""@ + key + "\" to u64"@
}

/// The error message for a response that is not a JSON object.
pub open spec fn not_object_message(url: Seq<char>) -> Seq<char> {
    "Cannot read results of \""@ + url + "\" as JSON object"@
}

/// Combines the entries of a languages response into named byte counts,
/// keeping the entries' order.  Every count must be readable; the first
/// entry without one decides the error.
pub fn collect_language_counts(entries: Vec<(String, Option<u64>)>) -> (r: Result<
    Vec<(String, u64)>,
    Error,
>)
    ensures
        (forall|i: int| 0 <= i < entries@.len() ==> (#[trigger] entries@[i]).1 is Some) <==> r
            is Ok,
        r is Ok ==> (r->Ok_0)@.len() == entries@.len() && forall|i: int|
            0 <= i < entries@.len() ==> ((#[trigger] (r->Ok_0)@[i]).0@ == entries@[i].0@ && (
            r->Ok_0)@[i].1 == entries@[i].1->0),
        r is Err ==> exists|i: int|
            0 <= i < entries@.len() && (#[trigger] entries@[i]).1 is None && r->Err_0.message@
                == bad_count_message(entries@[i].0@),
{
    let mut out: Vec<(String, u64)> = Vec::new();
    let n = entries.len();
    for i in 0..n
        invariant
            n == entries.len(),
            out@.len() == i,
            forall|j: int| 0 <= j < i ==> (#[trigger] entries@[j]).1 is Some,
            forall|j: int|
                0 <= j < i ==> ((#[trigger] out@[j]).0@ == entries@[j].0@ && out@[j].1
                    == entries@[j].1->0),
    {
        match entries[i].1 {
            Some(count) => {
                out.push((entries[i].0.clone(), count));
            },
            None => {
                let mut msg = String::new();
                msg.append("Couldn't parse value of \"");
                msg.append(entries[i].0.as_str());
                msg.append("\" to u64");
                proof {
                    assert(msg@ == bad_count_message(entries@[i as int].0@));
                }
                return Err(Error { message: msg });
            },
        }
    }
    Ok(out)
}

/// Combines a fetched languages response into named byte counts.  The
/// response must be a JSON object; whatever it holds, an error either says
/// so, naming the URL it came from, or names a language whose count could
/// not be read.
pub fn languages_from_response(response: &serde_json::Value, url: &str) -> (r: Result<
    Vec<(String, u64)>,
    Error,
>)
    ensures
        r is Err ==> r->Err_0.message@ == not_object_message(url@) || exists|k: Seq<char>|
            r->Err_0.message@ == bad_count_message(k),
{
    let entries = match json_object_entries(response) {
        Some(entries) => entries,
        None => {
            let mut msg = String::new();
            msg.append("Cannot read results of \"");
            msg.append(url);
            msg.append("\" as JSON object");
            return Err(Error { message: msg });
        },
    };
    let mut opts: Vec<(String, Option<u64>)> = Vec::new();
    let n = entries.len();
    for i in 0..n
        invariant
            n == entries.len(),
            opts@.len() == i,
    {
        let count = json_as_u64(&entries[i].1);
        opts.push((entries[i].0.clone(), count));
    }
    let r = collect_language_counts(opts);
    proof {
        if r is Err {
            let i = choose|i: int|
                0 <= i < opts@.len() && (#[trigger] opts@[i]).1 is None && r->Err_0.message@
                    == bad_count_message(opts@[i].0@);
            assert(r->Err_0.message@ == bad_count_message(opts@[i].0@));
        }
    }
    r
}

} // verus!
