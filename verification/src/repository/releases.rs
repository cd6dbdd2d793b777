//! Release information for a repository: the URL of the latest-release
//! endpoint, and the rule that turns a fetched response into a release.

use vstd::prelude::*;
use crate::Error;
use crate::dates::datetime_parses;
use crate::dates::parse_datetime;
use crate::json::json_as_string;
use crate::json::json_get;

verus! {

/// The URL of a repository's latest-release endpoint.
pub open spec fn spec_latest_release_url(user: Seq<char>, repo: Seq<char>) -> Seq<char> {
    "https://api.github.com/repos/"@ + user + "/"@ + repo + "/releases/latest"@
}

/// Formats the URL of a repository's latest-release endpoint.
pub fn latest_release_url(user: &str, repo: &str) -> (r: String)
    ensures
        r@ == spec_latest_release_url(user@, repo@),
{
    let mut out = String::new();
    out.append("https://api.github.com/repos/");
    out.append(user);
    out.append("/");
    out.append(repo);
    out.append("/releases/latest");
    out
}

/// The stats of a release.
///
/// All releases are tags, but *not all tags are releases.*
#[derive(Debug)]
pub struct Release {
    pub tag: String,
    pub name: String,
    pub published: chrono::NaiveDateTime,
}

impl Release {
    /// The tag associated with the release.
    pub fn tag(&self) -> (r: &str)
        ensures
            r@ == self.tag@,
    {
        self.tag.as_str()
    }

    /// The name of the release.
    pub fn name(&self) -> (r: &str)
        ensures
            r@ == self.name@,
    {
        self.name.as_str()
    }

    /// When the release was published.
    pub fn published(&self) -> (r: &chrono::NaiveDateTime)
        ensures
            r == &self.published,
    {
        &self.published
    }

    /// Assembles the latest release from the fields of a latest-release
    /// response: `None` when the response carried no release at all (no
    /// `id` field), the release when every field is present and the
    /// timestamp parses, and otherwise the error for the first field that
    /// is missing or malformed.
    pub fn from_fields(
        has_id: bool,
        tag: Option<String>,
        name: Option<String>,
        published_at: Option<String>,
    ) -> (r: Result<Option<Release>, Error>)
        ensures
            !has_id ==> r is Ok && r->Ok_0 is None,
            has_id && tag is None ==> r is Err && r->Err_0.message@
                == "\"tag_name\" is not a string"@,
            has_id && tag is Some && name is None ==> r is Err && r->Err_0.message@
                == "\"name\" is not a string"@,
            has_id && tag is Some && name is Some && published_at is None ==> r is Err
                && r->Err_0.message@ == "\"published_at\" is not a string"@,
            has_id && tag is Some && name is Some && published_at is Some && !datetime_parses(
                (published_at->0)@,
            ) ==> r is Err && r->Err_0.message@ == "\"published_at\" is not a valid timestamp"@,
            has_id && tag is Some && name is Some && published_at is Some && datetime_parses(
                (published_at->0)@,
            ) ==> r is Ok && r->Ok_0 is Some && (r->Ok_0->0).tag@ == (tag->0)@ && (
            r->Ok_0->0).name@ == (name->0)@,
    {
        if !has_id {
            return Ok(None);
        }
        let tag = match tag {
            Some(t) => t,
            None => {
                return Err(Error::new("\"tag_name\" is not a string"));
            },
        };
        let name = match name {
            Some(n) => n,
            None => {
                return Err(Error::new("\"name\" is not a string"));
            },
        };
        let published_at = match published_at {
            Some(p) => p,
            None => {
                return Err(Error::new("\"published_at\" is not a string"));
            },
        };
        let published = match parse_datetime(published_at.as_str()) {
            Some(p) => p,
            None => {
                return Err(Error::new("\"published_at\" is not a valid timestamp"));
            },
        };
        Ok(Some(Release { tag, name, published }))
    }

    /// Assembles the latest release from a fetched latest-release
    /// response, reading its `id`, `tag_name`, `name` and `published_at`
    /// fields.  Whatever the response holds, an error carries one of the
    /// field messages of [`Release::from_fields`].
    pub fn from_response(response: &serde_json::Value) -> (r: Result<Option<Release>, Error>)
        ensures
            r is Err ==> r->Err_0.message@ == "\"tag_name\" is not a string"@
                || r->Err_0.message@ == "\"name\" is not a string"@ || r->Err_0.message@
                == "\"published_at\" is not a string"@ || r->Err_0.message@
                == "\"published_at\" is not a valid timestamp"@,
    {
        let has_id = json_get(response, "id").is_some();
        let tag = match json_get(response, "tag_name") {
            Some(v) => json_as_string(v),
            None => None,
        };
        let name = match json_get(response, "name") {
            Some(v) => json_as_string(v),
            None => None,
        };
        let published_at = match json_get(response, "published_at") {
            Some(v) => json_as_string(v),
            None => None,
        };
        Release::from_fields(has_id, tag, name, published_at)
    }
}

} // verus!
