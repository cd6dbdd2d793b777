use github_stats::Query;
use github_stats::search::query::FullName;
use github_stats::search::query::In;
use github_stats::search::query::MissingMetadata;

#[test]
fn built_query() {
    let query = Query::new()
        .repo("rust-lang", "rust")
        .type_("pr")
        .is("merged")
        .label("hacktoberfest")
        .no("assignee")
        .in_("[BUG]", "name")
        .assignee("spenserblack")
        .user("spenserblack")
        .author("spenserblack")
        .language("rust")
        .render();

    assert_eq!(
        "repo:rust-lang/rust+is:merged+[BUG] in:name+author:spenserblack+assignee:spenserblack+user:spenserblack+label:hacktoberfest+type:pr+no:assignee+language:rust",
        query
    );
}

#[test]
fn org_query() {
    let query = Query::new().org("rust-lang").render();

    assert_eq!("org:rust-lang", query);
}

#[test]
fn in_string() {
    let in_term = In(String::from("Users"), String::from("title"));

    assert_eq!("Users in:title", in_term.render());
}

#[test]
fn fullname_string() {
    let fullname = FullName::new("Octo", "Cat");

    assert_eq!("fullname:Octo Cat", fullname.render());
}

#[test]
fn render_is_deterministic() {
    let query = Query::new()
        .repo("rust-lang", "rust")
        .is("pr")
        .label("bug")
        .missing_metadata(MissingMetadata::Milestone);
    let first = query.render();
    let second = query.render();
    assert_eq!(first, second);
}

#[test]
fn empty_query_renders_empty() {
    assert_eq!("", Query::new().render());
}

#[test]
fn call_order_across_categories_is_irrelevant() {
    let label_first = Query::new().label("x").repo("a", "b").render();
    let repo_first = Query::new().repo("a", "b").label("x").render();
    assert_eq!(label_first, repo_first);
    assert_eq!("repo:a/b+label:x", repo_first);
}

#[test]
fn missing_metadata_is_a_set() {
    let query = Query::new()
        .missing_metadata(MissingMetadata::Assignee)
        .missing_metadata(MissingMetadata::Assignee)
        .render();
    assert_eq!("no:assignee", query);
}

#[test]
fn missing_metadata_kinds_render() {
    let query = Query::new()
        .missing_metadata(MissingMetadata::Label)
        .missing_metadata(MissingMetadata::Milestone)
        .missing_metadata(MissingMetadata::Project)
        .render();
    assert_eq!("no:label+no:milestone+no:project", query);
}

#[test]
fn missing_metadata_renders_after_no() {
    let query = Query::new()
        .missing_metadata(MissingMetadata::Milestone)
        .no("assignee")
        .render();
    assert_eq!("no:assignee+no:milestone", query);
}

#[test]
fn full_scenario_renders_in_category_order() {
    let query = Query::new()
        .repo("rust-lang", "rust")
        .type_("pr")
        .is("merged")
        .label("hacktoberfest")
        .no("assignee")
        .in_("[BUG]", "name")
        .user("spenserblack")
        .language("rust")
        .render();
    assert_eq!(
        "repo:rust-lang/rust+is:merged+[BUG] in:name+user:spenserblack+label:hacktoberfest+type:pr+no:assignee+language:rust",
        query
    );
}

#[test]
fn duplicate_values_are_kept_in_order() {
    let query = Query::new().is("pr").is("merged").is("pr").render();
    assert_eq!("is:pr+is:merged+is:pr", query);
}

#[test]
fn state_and_fullname_render() {
    let query = Query::new()
        .state("open")
        .fullname("Octo", "Cat")
        .author("octocat")
        .render();
    assert_eq!("author:octocat+fullname:Octo Cat+state:open", query);
}
