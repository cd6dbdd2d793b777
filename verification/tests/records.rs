use github_stats::Error;
use github_stats::Query;
use github_stats::Release;
use github_stats::Repo;
use github_stats::User;
use github_stats::languages::collect_language_counts;
use github_stats::languages::languages_from_response;
use github_stats::languages::languages_url;
use github_stats::repository::issues::issue_stats_from_counts;
use github_stats::repository::issues::issue_stats_from_responses;
use github_stats::repository::issues::issue_stats_urls;
use github_stats::repository::releases::latest_release_url;
use github_stats::search::SearchResults;

fn sample_user() -> User {
    User {
        login: String::from("octocat"),
        id: 1,
        node_id: String::from("MDQ6VXNlcjE="),
        avatar_url: String::from("https://example.invalid/avatar"),
        gravatar_id: String::from(""),
        html_url: String::from("https://example.invalid/octocat"),
        url: String::from("https://api.example.invalid/users/octocat"),
        followers_url: String::from("https://api.example.invalid/users/octocat/followers"),
        following_url: String::from("https://api.example.invalid/users/octocat/following"),
        gists_url: String::from("https://api.example.invalid/users/octocat/gists"),
        starred_url: String::from("https://api.example.invalid/users/octocat/starred"),
        subscriptions_url: String::from("https://api.example.invalid/users/octocat/subscriptions"),
        organizations_url: String::from("https://api.example.invalid/users/octocat/orgs"),
        repos_url: String::from("https://api.example.invalid/users/octocat/repos"),
        events_url: String::from("https://api.example.invalid/users/octocat/events"),
        received_events_url: String::from(
            "https://api.example.invalid/users/octocat/received_events",
        ),
        type_: String::from("User"),
        site_admin: false,
    }
}

fn timestamp(s: &str) -> chrono::NaiveDateTime {
    chrono::NaiveDateTime::parse_from_str(s, "%Y-%m-%dT%H:%M:%SZ").unwrap()
}

fn sample_repo() -> Repo {
    Repo {
        id: 42,
        node_id: String::from("MDEwOlJlcG9zaXRvcnk0Mg=="),
        name: String::from("rust"),
        full_name: String::from("rust-lang/rust"),
        private: false,
        owner: sample_user(),
        html_url: String::from("https://example.invalid/rust-lang/rust"),
        description: String::from("The Rust programming language"),
        fork: false,
        url: String::from("https://api.example.invalid/repos/rust-lang/rust"),
        created_at: timestamp("2010-06-16T20:39:03Z"),
        updated_at: timestamp("2020-01-01T00:00:00Z"),
        pushed_at: timestamp("2020-01-02T03:04:05Z"),
        git_url: String::from("git://example.invalid/rust-lang/rust.git"),
        ssh_url: String::from("git@example.invalid:rust-lang/rust.git"),
        clone_url: String::from("https://example.invalid/rust-lang/rust.git"),
        svn_url: String::from("https://example.invalid/rust-lang/rust"),
        homepage: String::from("https://www.rust-lang.org"),
        size: 1024,
        stargazers_count: 50000,
        language: String::from("Rust"),
        forks_count: 7000,
        archived: false,
        disabled: false,
        has_projects: true,
        has_pages: false,
        has_downloads: true,
        open_issues: 5000,
        default_branch: String::from("master"),
        subscribers_count: 1500,
        has_issues: true,
        has_wiki: true,
        open_issues_count: 5000,
    }
}

#[test]
fn user_getters_report_fields() {
    let user = sample_user();
    assert_eq!("octocat", user.login());
    assert_eq!(1, user.id());
    assert_eq!("MDQ6VXNlcjE=", user.node_id());
    assert_eq!("https://example.invalid/avatar", user.avatar_url());
    assert_eq!("", user.gravatar_id());
    assert_eq!("https://example.invalid/octocat", user.html_url());
    assert_eq!("https://api.example.invalid/users/octocat", user.url());
    assert_eq!("User", user.type_());
    assert!(!user.site_admin());
}

#[test]
fn repo_getters_report_fields() {
    let repo = sample_repo();
    assert_eq!(42, repo.id());
    assert_eq!("rust", repo.name());
    assert_eq!("rust-lang/rust", repo.full_name());
    assert_eq!("octocat", repo.owner().login());
    assert_eq!(1024, repo.size());
    assert_eq!("Rust", repo.language());
    assert_eq!("master", repo.default_branch());
    assert_eq!(timestamp("2010-06-16T20:39:03Z"), *repo.created_at());
    assert_eq!(timestamp("2020-01-01T00:00:00Z"), *repo.updated_at());
    assert_eq!(timestamp("2020-01-02T03:04:05Z"), *repo.pushed_at());
    assert!(repo.has_issues());
    assert!(!repo.archived());
}

#[test]
fn query_from_repo_uses_full_name() {
    let query = Query::from_repo(sample_repo());
    assert_eq!("repo:rust-lang/rust", query.render());
}

#[test]
fn search_results_getters_report_fields() {
    let results = SearchResults {
        total_count: 46,
        items: vec![serde_json::Value::from(1u64), serde_json::Value::from(2u64)],
    };
    assert_eq!(46, results.total_count());
    assert_eq!(2, results.items().len());
}

#[test]
fn error_carries_its_message() {
    let error = Error::new("something went wrong");
    assert_eq!("something went wrong", error.message());
}

#[test]
fn issue_stats_urls_name_all_four_searches() {
    let (open_issues, closed_issues, open_prs, closed_prs) = issue_stats_urls("rust-lang", "rust");
    assert_eq!(
        "https://api.github.com/search/issues?per_page=1&q=repo:rust-lang/rust+type:issue+state:open",
        open_issues
    );
    assert_eq!(
        "https://api.github.com/search/issues?per_page=1&q=repo:rust-lang/rust+type:issue+state:closed",
        closed_issues
    );
    assert_eq!(
        "https://api.github.com/search/issues?per_page=1&q=repo:rust-lang/rust+type:pr+state:open",
        open_prs
    );
    assert_eq!(
        "https://api.github.com/search/issues?per_page=1&q=repo:rust-lang/rust+type:pr+state:closed",
        closed_prs
    );
}

#[test]
fn issue_stats_counts_combine_in_order() {
    let stats = issue_stats_from_counts(Some(1), Some(2), Some(3), Some(4)).unwrap();
    assert_eq!((1, 2, 3, 4), stats);
}

#[test]
fn issue_stats_counts_report_first_failure() {
    let e = issue_stats_from_counts(None, Some(2), Some(3), Some(4)).unwrap_err();
    assert_eq!("Cannot get open issue count", e.message());
    let e = issue_stats_from_counts(Some(1), None, Some(3), Some(4)).unwrap_err();
    assert_eq!("Cannot get closed issue count", e.message());
    let e = issue_stats_from_counts(Some(1), Some(2), None, Some(4)).unwrap_err();
    assert_eq!("Cannot get open pull request count", e.message());
    let e = issue_stats_from_counts(Some(1), Some(2), Some(3), None).unwrap_err();
    assert_eq!("Cannot get closed pull request count", e.message());
}

fn count_response(total_count: u64) -> serde_json::Value {
    let mut object = serde_json::Map::new();
    object.insert(String::from("total_count"), serde_json::Value::from(total_count));
    serde_json::Value::Object(object)
}

#[test]
fn issue_stats_responses_read_total_counts() {
    let stats = issue_stats_from_responses(
        &count_response(10),
        &count_response(20),
        &count_response(30),
        &count_response(40),
    )
    .unwrap();
    assert_eq!((10, 20, 30, 40), stats);
}

#[test]
fn issue_stats_responses_report_missing_count() {
    let empty = serde_json::Value::Object(serde_json::Map::new());
    let e = issue_stats_from_responses(
        &count_response(10),
        &empty,
        &count_response(30),
        &count_response(40),
    )
    .unwrap_err();
    assert_eq!("Cannot get closed issue count", e.message());
}

fn release_response(
    id: Option<u64>,
    tag: Option<&str>,
    name: Option<&str>,
    published_at: Option<&str>,
) -> serde_json::Value {
    let mut object = serde_json::Map::new();
    if let Some(id) = id {
        object.insert(String::from("id"), serde_json::Value::from(id));
    }
    if let Some(tag) = tag {
        object.insert(String::from("tag_name"), serde_json::Value::from(tag));
    }
    if let Some(name) = name {
        object.insert(String::from("name"), serde_json::Value::from(name));
    }
    if let Some(published_at) = published_at {
        object.insert(String::from("published_at"), serde_json::Value::from(published_at));
    }
    serde_json::Value::Object(object)
}

#[test]
fn latest_release_url_names_the_endpoint() {
    assert_eq!(
        "https://api.github.com/repos/rust-lang/rust/releases/latest",
        latest_release_url("rust-lang", "rust")
    );
}

#[test]
fn release_parses_a_full_response() {
    let response = release_response(
        Some(7),
        Some("v1.0.0"),
        Some("First stable"),
        Some("2019-04-01T19:18:20Z"),
    );
    let release = Release::from_response(&response).unwrap().unwrap();
    assert_eq!("v1.0.0", release.tag());
    assert_eq!("First stable", release.name());
    assert_eq!(timestamp("2019-04-01T19:18:20Z"), *release.published());
}

#[test]
fn release_without_id_is_none() {
    let response = release_response(None, Some("v1.0.0"), Some("x"), Some("2019-04-01T19:18:20Z"));
    assert!(Release::from_response(&response).unwrap().is_none());
}

#[test]
fn release_reports_each_missing_field() {
    let e = Release::from_response(&release_response(Some(7), None, None, None)).unwrap_err();
    assert_eq!("\"tag_name\" is not a string", e.message());
    let e = Release::from_response(&release_response(Some(7), Some("v1"), None, None))
        .unwrap_err();
    assert_eq!("\"name\" is not a string", e.message());
    let e = Release::from_response(&release_response(Some(7), Some("v1"), Some("x"), None))
        .unwrap_err();
    assert_eq!("\"published_at\" is not a string", e.message());
    let e = Release::from_response(&release_response(Some(7), Some("v1"), Some("x"), Some("soon")))
        .unwrap_err();
    assert_eq!("\"published_at\" is not a valid timestamp", e.message());
}

#[test]
fn languages_url_names_the_endpoint() {
    assert_eq!(
        "https://api.github.com/repos/rust-lang/rust/languages",
        languages_url("rust-lang", "rust")
    );
}

#[test]
fn language_counts_collect_in_order() {
    let counts = collect_language_counts(vec![
        (String::from("Rust"), Some(100)),
        (String::from("C"), Some(7)),
    ])
    .unwrap();
    assert_eq!(vec![(String::from("Rust"), 100), (String::from("C"), 7)], counts);
}

#[test]
fn language_counts_report_first_bad_value() {
    let e = collect_language_counts(vec![
        (String::from("Rust"), Some(100)),
        (String::from("C"), None),
        (String::from("Go"), None),
    ])
    .unwrap_err();
    assert_eq!("Couldn't parse value of \"C\" to u64", e.message());
}

#[test]
fn languages_response_becomes_counts() {
    let mut object = serde_json::Map::new();
    object.insert(String::from("C"), serde_json::Value::from(7u64));
    object.insert(String::from("Rust"), serde_json::Value::from(100u64));
    let response = serde_json::Value::Object(object);
    let counts = languages_from_response(&response, "https://example.invalid/languages").unwrap();
    assert_eq!(vec![(String::from("C"), 7), (String::from("Rust"), 100)], counts);
}

#[test]
fn languages_response_must_be_an_object() {
    let response = serde_json::Value::from("not an object");
    let e = languages_from_response(&response, "https://example.invalid/languages").unwrap_err();
    assert_eq!(
        "Cannot read results of \"https://example.invalid/languages\" as JSON object",
        e.message()
    );
}
