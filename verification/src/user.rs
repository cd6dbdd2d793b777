//! The typed record of a user, as the service's users endpoint reports it.

use vstd::prelude::*;

verus! {

/// The URL of a user's record on the users endpoint.
pub open spec fn spec_user_api_url(user: Seq<char>) -> Seq<char> {
    "https://api.github.com/users/"@ + user
}

/// Formats the URL of a user's record on the users endpoint.
pub fn user_api_url(user: &str) -> (r: String)
    ensures
        r@ == spec_user_api_url(user@),
{
    let mut out = String::new();
    out.append("https://api.github.com/users/");
    out.append(user);
    out
}

/// The stats of a user.  The fields mirror the JSON object of the users
/// endpoint; filling them from a fetched response is the surrounding
/// application's job.
#[derive(Debug)]
pub struct User {
    pub login: String,
    pub id: u64,
    pub node_id: String,
    pub avatar_url: String,
    pub gravatar_id: String,
    pub html_url: String,
    pub url: String,
    pub followers_url: String,
    pub following_url: String,
    pub gists_url: String,
    pub starred_url: String,
    pub subscriptions_url: String,
    pub organizations_url: String,
    pub repos_url: String,
    pub events_url: String,
    pub received_events_url: String,
    pub type_: String,
    pub site_admin: bool,
}

impl User {
    pub fn login(&self) -> (r: &str)
        ensures
            r@ == self.login@,
    {
        self.login.as_str()
    }

    pub fn id(&self) -> (r: u64)
        ensures
            r == self.id,
    {
        self.id
    }

    pub fn node_id(&self) -> (r: &str)
        ensures
            r@ == self.node_id@,
    {
        self.node_id.as_str()
    }

    pub fn avatar_url(&self) -> (r: &str)
        ensures
            r@ == self.avatar_url@,
    {
        self.avatar_url.as_str()
    }

    pub fn gravatar_id(&self) -> (r: &str)
        ensures
            r@ == self.gravatar_id@,
    {
        self.gravatar_id.as_str()
    }

    /// Actual link to the user's page.
    pub fn html_url(&self) -> (r: &str)
        ensures
            r@ == self.html_url@,
    {
        self.html_url.as_str()
    }

    pub fn url(&self) -> (r: &str)
        ensures
            r@ == self.url@,
    {
        self.url.as_str()
    }

    pub fn followers_url(&self) -> (r: &str)
        ensures
            r@ == self.followers_url@,
    {
        self.followers_url.as_str()
    }

    pub fn following_url(&self) -> (r: &str)
        ensures
            r@ == self.following_url@,
    {
        self.following_url.as_str()
    }

    pub fn gists_url(&self) -> (r: &str)
        ensures
            r@ == self.gists_url@,
    {
        self.gists_url.as_str()
    }

    pub fn starred_url(&self) -> (r: &str)
        ensures
            r@ == self.starred_url@,
    {
        self.starred_url.as_str()
    }

    pub fn subscriptions_url(&self) -> (r: &str)
        ensures
            r@ == self.subscriptions_url@,
    {
        self.subscriptions_url.as_str()
    }

    pub fn organizations_url(&self) -> (r: &str)
        ensures
            r@ == self.organizations_url@,
    {
        self.organizations_url.as_str()
    }

    pub fn repos_url(&self) -> (r: &str)
        ensures
            r@ == self.repos_url@,
    {
        self.repos_url.as_str()
    }

    pub fn events_url(&self) -> (r: &str)
        ensures
            r@ == self.events_url@,
    {
        self.events_url.as_str()
    }

    pub fn received_events_url(&self) -> (r: &str)
        ensures
            r@ == self.received_events_url@,
    {
        self.received_events_url.as_str()
    }

    /// The account's kind, e.g. `User` or `Organization`.
    pub fn type_(&self) -> (r: &str)
        ensures
            r@ == self.type_@,
    {
        self.type_.as_str()
    }

    pub fn site_admin(&self) -> (r: bool)
        ensures
            r == self.site_admin,
    {
        self.site_admin
    }
}

} // verus!
