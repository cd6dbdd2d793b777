use github_stats::Query;
use github_stats::Search;

#[test]
fn built_search() {
    let expected =
        "https://api.github.com/search/issues?per_page=1&page=1&q=repo:rust-lang/rust+is:pr+is:merged";
    let search =
        Search::issues(&Query::new().repo("rust-lang", "rust").is("pr").is("merged")).per_page(1);

    assert_eq!(expected, search.to_url());
}

#[test]
fn empty_query_url_ends_with_bare_q() {
    let search = Search::issues(&Query::new());
    assert_eq!(
        "https://api.github.com/search/issues?per_page=10&page=1&q=",
        search.to_url()
    );
}

#[test]
fn users_area_url() {
    let search = Search::users(&Query::new().user("octocat")).per_page(3).page(7);
    assert_eq!(
        "https://api.github.com/search/users?per_page=3&page=7&q=user:octocat",
        search.to_url()
    );
}

#[test]
fn get_query_reports_rendered_query() {
    let search = Search::issues(&Query::new().repo("a", "b"));
    assert_eq!("repo:a/b", search.get_query());
}

#[test]
fn next_page_saturates_at_max() {
    let mut search = Search::issues(&Query::new()).page(usize::MAX);
    search.next_page();
    let url = search.to_url();
    let again = Search::issues(&Query::new()).page(usize::MAX).to_url();
    assert_eq!(again, url);
}

#[test]
fn prev_page_saturates_at_zero() {
    let mut search = Search::issues(&Query::new()).page(0);
    search.prev_page();
    assert_eq!(
        "https://api.github.com/search/issues?per_page=10&page=0&q=",
        search.to_url()
    );
}

#[test]
fn pages_move_forward_and_back() {
    let mut search = Search::issues(&Query::new());
    search.next_page();
    search.next_page();
    assert_eq!(
        "https://api.github.com/search/issues?per_page=10&page=3&q=",
        search.to_url()
    );
    search.prev_page();
    assert_eq!(
        "https://api.github.com/search/issues?per_page=10&page=2&q=",
        search.to_url()
    );
}

#[test]
fn large_counters_render_in_decimal() {
    let search = Search::issues(&Query::new()).per_page(12345).page(907);
    assert_eq!(
        "https://api.github.com/search/issues?per_page=12345&page=907&q=",
        search.to_url()
    );
}
