//! The typed record of a repository, as the service's repos endpoint
//! reports it.

use vstd::prelude::*;
use crate::User;

pub mod issues;
pub mod releases;

verus! {

/// The URL of a repository's record on the repos endpoint.
pub open spec fn spec_repo_api_url(user: Seq<char>, repo: Seq<char>) -> Seq<char> {
    "https://api.github.com/repos/"@ + user + "/"@ + repo
}

/// Formats the URL of a repository's record on the repos endpoint.
pub fn repo_api_url(user: &str, repo: &str) -> (r: String)
    ensures
        r@ == spec_repo_api_url(user@, repo@),
{
    let mut out = String::new();
    out.append("https://api.github.com/repos/");
    out.append(user);
    out.append("/");
    out.append(repo);
    out
}

/// The stats of a repository.  The fields mirror the JSON object of the
/// repos endpoint; filling them from a fetched response is the surrounding
/// application's job.
#[derive(Debug)]
pub struct Repo {
    pub id: u64,
    pub node_id: String,
    pub name: String,
    pub full_name: String,
    pub private: bool,
    pub owner: User,
    pub html_url: String,
    pub description: String,
    pub fork: bool,
    pub url: String,
    pub created_at: chrono::NaiveDateTime,
    pub updated_at: chrono::NaiveDateTime,
    pub pushed_at: chrono::NaiveDateTime,
    pub git_url: String,
    pub ssh_url: String,
    pub clone_url: String,
    pub svn_url: String,
    pub homepage: String,
    /// In *kilo*bytes.
    pub size: u64,
    pub stargazers_count: u64,
    pub language: String,
    pub forks_count: u64,
    pub archived: bool,
    pub disabled: bool,
    pub has_projects: bool,
    pub has_pages: bool,
    pub has_downloads: bool,
    /// Issues + PRs.
    pub open_issues: u64,
    pub default_branch: String,
    /// Number of watchers.
    pub subscribers_count: u64,
    pub has_issues: bool,
    pub has_wiki: bool,
    pub open_issues_count: u64,
}

impl Repo {
    pub fn id(&self) -> (r: u64)
        ensures
            r == self.id,
    {
        self.id
    }

    pub fn node_id(&self) -> (r: &str)
        ensures
            r@ == self.node_id@,
    {
        self.node_id.as_str()
    }

    pub fn name(&self) -> (r: &str)
        ensures
            r@ == self.name@,
    {
        self.name.as_str()
    }

    pub fn full_name(&self) -> (r: &str)
        ensures
            r@ == self.full_name@,
    {
        self.full_name.as_str()
    }

    pub fn private(&self) -> (r: bool)
        ensures
            r == self.private,
    {
        self.private
    }

    pub fn owner(&self) -> (r: &User)
        ensures
            r == &self.owner,
    {
        &self.owner
    }

    pub fn html_url(&self) -> (r: &str)
        ensures
            r@ == self.html_url@,
    {
        self.html_url.as_str()
    }

    pub fn description(&self) -> (r: &str)
        ensures
            r@ == self.description@,
    {
        self.description.as_str()
    }

    pub fn fork(&self) -> (r: bool)
        ensures
            r == self.fork,
    {
        self.fork
    }

    pub fn url(&self) -> (r: &str)
        ensures
            r@ == self.url@,
    {
        self.url.as_str()
    }

    pub fn created_at(&self) -> (r: &chrono::NaiveDateTime)
        ensures
            r == &self.created_at,
    {
        &self.created_at
    }

    pub fn updated_at(&self) -> (r: &chrono::NaiveDateTime)
        ensures
            r == &self.updated_at,
    {
        &self.updated_at
    }

    pub fn pushed_at(&self) -> (r: &chrono::NaiveDateTime)
        ensures
            r == &self.pushed_at,
    {
        &self.pushed_at
    }

    pub fn git_url(&self) -> (r: &str)
        ensures
            r@ == self.git_url@,
    {
        self.git_url.as_str()
    }

    pub fn ssh_url(&self) -> (r: &str)
        ensures
            r@ == self.ssh_url@,
    {
        self.ssh_url.as_str()
    }

    pub fn clone_url(&self) -> (r: &str)
        ensures
            r@ == self.clone_url@,
    {
        self.clone_url.as_str()
    }

    pub fn svn_url(&self) -> (r: &str)
        ensures
            r@ == self.svn_url@,
    {
        self.svn_url.as_str()
    }

    pub fn homepage(&self) -> (r: &str)
        ensures
            r@ == self.homepage@,
    {
        self.homepage.as_str()
    }

    /// In *kilo*bytes.
    pub fn size(&self) -> (r: u64)
        ensures
            r == self.size,
    {
        self.size
    }

    pub fn stargazers_count(&self) -> (r: u64)
        ensures
            r == self.stargazers_count,
    {
        self.stargazers_count
    }

    pub fn language(&self) -> (r: &str)
        ensures
            r@ == self.language@,
    {
        self.language.as_str()
    }

    pub fn forks_count(&self) -> (r: u64)
        ensures
            r == self.forks_count,
    {
        self.forks_count
    }

    pub fn archived(&self) -> (r: bool)
        ensures
            r == self.archived,
    {
        self.archived
    }

    pub fn disabled(&self) -> (r: bool)
        ensures
            r == self.disabled,
    {
        self.disabled
    }

    pub fn has_projects(&self) -> (r: bool)
        ensures
            r == self.has_projects,
    {
        self.has_projects
    }

    pub fn has_pages(&self) -> (r: bool)
        ensures
            r == self.has_pages,
    {
        self.has_pages
    }

    pub fn has_downloads(&self) -> (r: bool)
        ensures
            r == self.has_downloads,
    {
        self.has_downloads
    }

    /// Issues + PRs.
    pub fn open_issues(&self) -> (r: u64)
        ensures
            r == self.open_issues,
    {
        self.open_issues
    }

    pub fn default_branch(&self) -> (r: &str)
        ensures
            r@ == self.default_branch@,
    {
        self.default_branch.as_str()
    }

    /// Number of watchers.
    pub fn subscribers_count(&self) -> (r: u64)
        ensures
            r == self.subscribers_count,
    {
        self.subscribers_count
    }

    pub fn has_issues(&self) -> (r: bool)
        ensures
            r == self.has_issues,
    {
        self.has_issues
    }

    pub fn has_wiki(&self) -> (r: bool)
        ensures
            r == self.has_wiki,
    {
        self.has_wiki
    }

    pub fn open_issues_count(&self) -> (r: u64)
        ensures
            r == self.open_issues_count,
    {
        self.open_issues_count
    }
}

} // verus!
