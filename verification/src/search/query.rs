//! The query builder: accumulates typed search qualifiers and renders them
//! into a single query string in a fixed category order.

use vstd::prelude::*;
use crate::Repo;
use crate::text::join_plus;
use crate::text::join_terms;

verus! {

/// The enumerated metadata kinds that can be reported missing with
/// [`Query::missing_metadata`].
#[derive(Clone, Copy, PartialEq, Eq, Structural, Debug)]
pub enum MissingMetadata {
    Label,
    Milestone,
    Assignee,
    Project,
}

impl MissingMetadata {
    /// The kind's name as it appears in a rendered `no:` term.
    pub open spec fn spec_str(self) -> Seq<char> {
        match self {
            MissingMetadata::Label => "label"@,
            MissingMetadata::Milestone => "milestone"@,
            MissingMetadata::Assignee => "assignee"@,
            MissingMetadata::Project => "project"@,
        }
    }

    /// The kind's name as a borrowed string.
    pub fn as_str(self) -> (r: &'static str)
        ensures
            r@ == self.spec_str(),
    {
        match self {
            MissingMetadata::Label => "label",
            MissingMetadata::Milestone => "milestone",
            MissingMetadata::Assignee => "assignee",
            MissingMetadata::Project => "project",
        }
    }
}

/// The rendering of a keyword-in-field term: `{keyword} in:{field}`.
/// Note the distinct grammar: no colon after a qualifier name.
pub open spec fn in_term(keyword: Seq<char>, field: Seq<char>) -> Seq<char> {
    keyword + " in:"@ + field
}

/// The rendering of a full-name term: `fullname:{first} {last}`.
pub open spec fn fullname_term(first: Seq<char>, last: Seq<char>) -> Seq<char> {
    "fullname:"@ + first + " "@ + last
}

/// A keyword searched within a named field, rendered as `{keyword} in:{field}`.
pub struct In(pub String, pub String);

impl View for In {
    type V = (Seq<char>, Seq<char>);

    open spec fn view(&self) -> (Seq<char>, Seq<char>) {
        (self.0@, self.1@)
    }
}

impl DeepView for In {
    type V = (Seq<char>, Seq<char>);

    open spec fn deep_view(&self) -> (Seq<char>, Seq<char>) {
        self@
    }
}

impl In {
    /// Renders this term as `{keyword} in:{field}`.
    pub fn render(&self) -> (r: String)
        ensures
            r@ == in_term(self.0@, self.1@),
    {
        let mut out = self.0.clone();
        out.append(" in:");
        out.append(self.1.as_str());
        out
    }
}

/// A first and last name, rendered as `fullname:{first} {last}`.
pub struct FullName(pub String, pub String);

impl View for FullName {
    type V = (Seq<char>, Seq<char>);

    open spec fn view(&self) -> (Seq<char>, Seq<char>) {
        (self.0@, self.1@)
    }
}

impl DeepView for FullName {
    type V = (Seq<char>, Seq<char>);

    open spec fn deep_view(&self) -> (Seq<char>, Seq<char>) {
        self@
    }
}

impl FullName {
    /// Builds a full name from its two parts.
    pub fn new(first_name: &str, last_name: &str) -> (r: Self)
        ensures
            r.0@ == first_name@,
            r.1@ == last_name@,
    {
        FullName(first_name.to_owned(), last_name.to_owned())
    }

    /// Renders this term as `fullname:{first} {last}`.
    pub fn render(&self) -> (r: String)
        ensures
            r@ == fullname_term(self.0@, self.1@),
    {
        let mut out = String::new();
        out.append("fullname:");
        out.append(self.0.as_str());
        out.append(" ");
        out.append(self.1.as_str());
        out
    }
}

/// The mathematical state of a [`Query`]: one sequence of values per
/// qualifier category, in insertion order, plus the duplicate-free sequence
/// of missing-metadata kinds.
#[verifier::ext_equal]
pub struct QueryModel {
    pub repo: Seq<Seq<char>>,
    pub is: Seq<Seq<char>>,
    pub in_terms: Seq<(Seq<char>, Seq<char>)>,
    pub author: Seq<Seq<char>>,
    pub assignee: Seq<Seq<char>>,
    pub user: Seq<Seq<char>>,
    pub org: Seq<Seq<char>>,
    pub fullname: Seq<(Seq<char>, Seq<char>)>,
    pub label: Seq<Seq<char>>,
    pub type_: Seq<Seq<char>>,
    pub state: Seq<Seq<char>>,
    pub no: Seq<Seq<char>>,
    pub missing: Seq<MissingMetadata>,
    pub language: Seq<Seq<char>>,
}

/// The state of a freshly built query: every category empty.
pub open spec fn empty_model() -> QueryModel {
    QueryModel {
        repo: Seq::empty(),
        is: Seq::empty(),
        in_terms: Seq::empty(),
        author: Seq::empty(),
        assignee: Seq::empty(),
        user: Seq::empty(),
        org: Seq::empty(),
        fullname: Seq::empty(),
        label: Seq::empty(),
        type_: Seq::empty(),
        state: Seq::empty(),
        no: Seq::empty(),
        missing: Seq::empty(),
        language: Seq::empty(),
    }
}

impl QueryModel {
    /// The builder's invariant: the recorded missing-metadata kinds form a
    /// set, so no kind appears twice.  [`Query::new`] establishes it and
    /// every append call preserves it.
    pub open spec fn wf(self) -> bool {
        forall|i: int, j: int|
            0 <= i < j < self.missing.len() ==> self.missing[i] != self.missing[j]
    }
}

/// One qualifier-append call, as a value: which category it touches and the
/// value it carries.  [`apply_qualifier`] says what each call does to the
/// model, and every append method of [`Query`] promises exactly that.
pub enum Qualifier {
    Repo(Seq<char>),
    Is(Seq<char>),
    InTerm(Seq<char>, Seq<char>),
    Author(Seq<char>),
    Assignee(Seq<char>),
    User(Seq<char>),
    Org(Seq<char>),
    FullName(Seq<char>, Seq<char>),
    Label(Seq<char>),
    Type(Seq<char>),
    State(Seq<char>),
    No(Seq<char>),
    Missing(MissingMetadata),
    Language(Seq<char>),
}

/// What one append call does to the builder state.  Every category keeps
/// insertion order and duplicates, except the missing-metadata kinds, which
/// form a set: a kind already present is not inserted again.
pub open spec fn apply_qualifier(m: QueryModel, q: Qualifier) -> QueryModel {
    match q {
        Qualifier::Repo(v) => QueryModel { repo: m.repo.push(v), ..m },
        Qualifier::Is(v) => QueryModel { is: m.is.push(v), ..m },
        Qualifier::InTerm(k, f) => QueryModel { in_terms: m.in_terms.push((k, f)), ..m },
        Qualifier::Author(v) => QueryModel { author: m.author.push(v), ..m },
        Qualifier::Assignee(v) => QueryModel { assignee: m.assignee.push(v), ..m },
        Qualifier::User(v) => QueryModel { user: m.user.push(v), ..m },
        Qualifier::Org(v) => QueryModel { org: m.org.push(v), ..m },
        Qualifier::FullName(f, l) => QueryModel { fullname: m.fullname.push((f, l)), ..m },
        Qualifier::Label(v) => QueryModel { label: m.label.push(v), ..m },
        Qualifier::Type(v) => QueryModel { type_: m.type_.push(v), ..m },
        Qualifier::State(v) => QueryModel { state: m.state.push(v), ..m },
        Qualifier::No(v) => QueryModel { no: m.no.push(v), ..m },
        Qualifier::Missing(k) => QueryModel {
            missing: if m.missing.contains(k) {
                m.missing
            } else {
                m.missing.push(k)
            },
            ..m
        },
        Qualifier::Language(v) => QueryModel { language: m.language.push(v), ..m },
    }
}

/// Applies a sequence of qualifier-append calls to a builder state, first
/// to last.
pub open spec fn apply_all(m: QueryModel, qs: Seq<Qualifier>) -> QueryModel
    decreases qs.len(),
{
    if qs.len() == 0 {
        m
    } else {
        apply_qualifier(apply_all(m, qs.drop_last()), qs.last())
    }
}

/// The values that a call sequence appends to the repo category, in call
/// order.
pub open spec fn repo_values(qs: Seq<Qualifier>) -> Seq<Seq<char>>
    decreases qs.len(),
{
    if qs.len() == 0 {
        Seq::empty()
    } else {
        let rest = repo_values(qs.drop_last());
        if qs.last() is Repo {
            rest.push(qs.last()->Repo_0)
        } else {
            rest
        }
    }
}

/// The values that a call sequence appends to the `is` category, in call
/// order.
pub open spec fn is_values(qs: Seq<Qualifier>) -> Seq<Seq<char>>
    decreases qs.len(),
{
    if qs.len() == 0 {
        Seq::empty()
    } else {
        let rest = is_values(qs.drop_last());
        if qs.last() is Is {
            rest.push(qs.last()->Is_0)
        } else {
            rest
        }
    }
}

/// The keyword-field pairs that a call sequence appends, in call order.
pub open spec fn in_values(qs: Seq<Qualifier>) -> Seq<(Seq<char>, Seq<char>)>
    decreases qs.len(),
{
    if qs.len() == 0 {
        Seq::empty()
    } else {
        let rest = in_values(qs.drop_last());
        if qs.last() is InTerm {
            rest.push((qs.last()->InTerm_0, qs.last()->InTerm_1))
        } else {
            rest
        }
    }
}

/// The values that a call sequence appends to the author category, in call
/// order.
pub open spec fn author_values(qs: Seq<Qualifier>) -> Seq<Seq<char>>
    decreases qs.len(),
{
    if qs.len() == 0 {
        Seq::empty()
    } else {
        let rest = author_values(qs.drop_last());
        if qs.last() is Author {
            rest.push(qs.last()->Author_0)
        } else {
            rest
        }
    }
}

/// The values that a call sequence appends to the assignee category, in
/// call order.
pub open spec fn assignee_values(qs: Seq<Qualifier>) -> Seq<Seq<char>>
    decreases qs.len(),
{
    if qs.len() == 0 {
        Seq::empty()
    } else {
        let rest = assignee_values(qs.drop_last());
        if qs.last() is Assignee {
            rest.push(qs.last()->Assignee_0)
        } else {
            rest
        }
    }
}

/// The values that a call sequence appends to the user category, in call
/// order.
pub open spec fn user_values(qs: Seq<Qualifier>) -> Seq<Seq<char>>
    decreases qs.len(),
{
    if qs.len() == 0 {
        Seq::empty()
    } else {
        let rest = user_values(qs.drop_last());
        if qs.last() is User {
            rest.push(qs.last()->User_0)
        } else {
            rest
        }
    }
}

/// The values that a call sequence appends to the org category, in call
/// order.
pub open spec fn org_values(qs: Seq<Qualifier>) -> Seq<Seq<char>>
    decreases qs.len(),
{
    if qs.len() == 0 {
        Seq::empty()
    } else {
        let rest = org_values(qs.drop_last());
        if qs.last() is Org {
            rest.push(qs.last()->Org_0)
        } else {
            rest
        }
    }
}

/// The name pairs that a call sequence appends, in call order.
pub open spec fn fullname_values(qs: Seq<Qualifier>) -> Seq<(Seq<char>, Seq<char>)>
    decreases qs.len(),
{
    if qs.len() == 0 {
        Seq::empty()
    } else {
        let rest = fullname_values(qs.drop_last());
        if qs.last() is FullName {
            rest.push((qs.last()->FullName_0, qs.last()->FullName_1))
        } else {
            rest
        }
    }
}

/// The values that a call sequence appends to the label category, in call
/// order.
pub open spec fn label_values(qs: Seq<Qualifier>) -> Seq<Seq<char>>
    decreases qs.len(),
{
    if qs.len() == 0 {
        Seq::empty()
    } else {
        let rest = label_values(qs.drop_last());
        if qs.last() is Label {
            rest.push(qs.last()->Label_0)
        } else {
            rest
        }
    }
}

/// The values that a call sequence appends to the type category, in call
/// order.
pub open spec fn type_values(qs: Seq<Qualifier>) -> Seq<Seq<char>>
    decreases qs.len(),
{
    if qs.len() == 0 {
        Seq::empty()
    } else {
        let rest = type_values(qs.drop_last());
        if qs.last() is Type {
            rest.push(qs.last()->Type_0)
        } else {
            rest
        }
    }
}

/// The values that a call sequence appends to the state category, in call
/// order.
pub open spec fn state_values(qs: Seq<Qualifier>) -> Seq<Seq<char>>
    decreases qs.len(),
{
    if qs.len() == 0 {
        Seq::empty()
    } else {
        let rest = state_values(qs.drop_last());
        if qs.last() is State {
            rest.push(qs.last()->State_0)
        } else {
            rest
        }
    }
}

/// The values that a call sequence appends to the `no` category, in call
/// order.
pub open spec fn no_values(qs: Seq<Qualifier>) -> Seq<Seq<char>>
    decreases qs.len(),
{
    if qs.len() == 0 {
        Seq::empty()
    } else {
        let rest = no_values(qs.drop_last());
        if qs.last() is No {
            rest.push(qs.last()->No_0)
        } else {
            rest
        }
    }
}

/// The missing-metadata kinds that a call sequence records, in call order,
/// duplicates included.
pub open spec fn missing_values(qs: Seq<Qualifier>) -> Seq<MissingMetadata>
    decreases qs.len(),
{
    if qs.len() == 0 {
        Seq::empty()
    } else {
        let rest = missing_values(qs.drop_last());
        if qs.last() is Missing {
            rest.push(qs.last()->Missing_0)
        } else {
            rest
        }
    }
}

/// The values that a call sequence appends to the language category, in
/// call order.
pub open spec fn language_values(qs: Seq<Qualifier>) -> Seq<Seq<char>>
    decreases qs.len(),
{
    if qs.len() == 0 {
        Seq::empty()
    } else {
        let rest = language_values(qs.drop_last());
        if qs.last() is Language {
            rest.push(qs.last()->Language_0)
        } else {
            rest
        }
    }
}

/// Recorded missing-metadata kinds after inserting `ks` one at a time into
/// `s` with set semantics: a kind already present is not inserted again.
pub open spec fn missing_apply(
    s: Seq<MissingMetadata>,
    ks: Seq<MissingMetadata>,
) -> Seq<MissingMetadata>
    decreases ks.len(),
{
    if ks.len() == 0 {
        s
    } else {
        let prev = missing_apply(s, ks.drop_last());
        if prev.contains(ks.last()) {
            prev
        } else {
            prev.push(ks.last())
        }
    }
}

/// What a whole call sequence leaves in each category: the category's
/// values in call order appended to what was already there, and the
/// missing-metadata kinds inserted with set semantics.  In particular the
/// final state depends only on each category's own value sequence, not on
/// how calls to different categories were interleaved.
pub proof fn lemma_apply_all_by_category(m: QueryModel, qs: Seq<Qualifier>)
    ensures
        apply_all(m, qs).repo == m.repo + repo_values(qs),
        apply_all(m, qs).is == m.is + is_values(qs),
        apply_all(m, qs).in_terms == m.in_terms + in_values(qs),
        apply_all(m, qs).author == m.author + author_values(qs),
        apply_all(m, qs).assignee == m.assignee + assignee_values(qs),
        apply_all(m, qs).user == m.user + user_values(qs),
        apply_all(m, qs).org == m.org + org_values(qs),
        apply_all(m, qs).fullname == m.fullname + fullname_values(qs),
        apply_all(m, qs).label == m.label + label_values(qs),
        apply_all(m, qs).type_ == m.type_ + type_values(qs),
        apply_all(m, qs).state == m.state + state_values(qs),
        apply_all(m, qs).no == m.no + no_values(qs),
        apply_all(m, qs).missing == missing_apply(m.missing, missing_values(qs)),
        apply_all(m, qs).language == m.language + language_values(qs),
    decreases qs.len(),
{
    if qs.len() == 0 {
        assert(m.repo + repo_values(qs) =~= m.repo);
        assert(m.is + is_values(qs) =~= m.is);
        assert(m.in_terms + in_values(qs) =~= m.in_terms);
        assert(m.author + author_values(qs) =~= m.author);
        assert(m.assignee + assignee_values(qs) =~= m.assignee);
        assert(m.user + user_values(qs) =~= m.user);
        assert(m.org + org_values(qs) =~= m.org);
        assert(m.fullname + fullname_values(qs) =~= m.fullname);
        assert(m.label + label_values(qs) =~= m.label);
        assert(m.type_ + type_values(qs) =~= m.type_);
        assert(m.state + state_values(qs) =~= m.state);
        assert(m.no + no_values(qs) =~= m.no);
        assert(m.language + language_values(qs) =~= m.language);
    } else {
        lemma_apply_all_by_category(m, qs.drop_last());
        let prev = apply_all(m, qs.drop_last());
        match qs.last() {
            Qualifier::Repo(v) => {
                assert((m.repo + repo_values(qs.drop_last())).push(v) =~= m.repo + repo_values(
                    qs,
                ));
            },
            Qualifier::Is(v) => {
                assert((m.is + is_values(qs.drop_last())).push(v) =~= m.is + is_values(qs));
            },
            Qualifier::InTerm(k, f) => {
                assert((m.in_terms + in_values(qs.drop_last())).push((k, f)) =~= m.in_terms
                    + in_values(qs));
            },
            Qualifier::Author(v) => {
                assert((m.author + author_values(qs.drop_last())).push(v) =~= m.author
                    + author_values(qs));
            },
            Qualifier::Assignee(v) => {
                assert((m.assignee + assignee_values(qs.drop_last())).push(v) =~= m.assignee
                    + assignee_values(qs));
            },
            Qualifier::User(v) => {
                assert((m.user + user_values(qs.drop_last())).push(v) =~= m.user + user_values(
                    qs,
                ));
            },
            Qualifier::Org(v) => {
                assert((m.org + org_values(qs.drop_last())).push(v) =~= m.org + org_values(qs));
            },
            Qualifier::FullName(f, l) => {
                assert((m.fullname + fullname_values(qs.drop_last())).push((f, l)) =~= m.fullname
                    + fullname_values(qs));
            },
            Qualifier::Label(v) => {
                assert((m.label + label_values(qs.drop_last())).push(v) =~= m.label
                    + label_values(qs));
            },
            Qualifier::Type(v) => {
                assert((m.type_ + type_values(qs.drop_last())).push(v) =~= m.type_ + type_values(
                    qs,
                ));
            },
            Qualifier::State(v) => {
                assert((m.state + state_values(qs.drop_last())).push(v) =~= m.state
                    + state_values(qs));
            },
            Qualifier::No(v) => {
                assert((m.no + no_values(qs.drop_last())).push(v) =~= m.no + no_values(qs));
            },
            Qualifier::Missing(k) => {
                assert(missing_values(qs).drop_last() =~= missing_values(qs.drop_last()));
                assert(missing_values(qs).last() == k);
            },
            Qualifier::Language(v) => {
                assert((m.language + language_values(qs.drop_last())).push(v) =~= m.language
                    + language_values(qs));
            },
        }
    }
}

/// Call order does not matter across categories: two call sequences that
/// append the same values, in the same order, within every single category
/// lead from any one starting state to the same builder state, and so to
/// the same rendered string.
pub proof fn lemma_render_independent_of_call_order(
    m: QueryModel,
    qs1: Seq<Qualifier>,
    qs2: Seq<Qualifier>,
)
    requires
        repo_values(qs1) == repo_values(qs2),
        is_values(qs1) == is_values(qs2),
        in_values(qs1) == in_values(qs2),
        author_values(qs1) == author_values(qs2),
        assignee_values(qs1) == assignee_values(qs2),
        user_values(qs1) == user_values(qs2),
        org_values(qs1) == org_values(qs2),
        fullname_values(qs1) == fullname_values(qs2),
        label_values(qs1) == label_values(qs2),
        type_values(qs1) == type_values(qs2),
        state_values(qs1) == state_values(qs2),
        no_values(qs1) == no_values(qs2),
        missing_values(qs1) == missing_values(qs2),
        language_values(qs1) == language_values(qs2),
    ensures
        apply_all(m, qs1) == apply_all(m, qs2),
        spec_render(apply_all(m, qs1)) == spec_render(apply_all(m, qs2)),
{
    lemma_apply_all_by_category(m, qs1);
    lemma_apply_all_by_category(m, qs2);
    assert(apply_all(m, qs1) =~= apply_all(m, qs2));
}

/// A fresh builder state is well formed, and every append call keeps a
/// well-formed state well formed: in particular the recorded
/// missing-metadata kinds never hold a duplicate.
pub proof fn lemma_apply_preserves_wf(m: QueryModel, q: Qualifier)
    requires
        m.wf(),
    ensures
        empty_model().wf(),
        apply_qualifier(m, q).wf(),
{
    if q is Missing && !m.missing.contains(q->Missing_0) {
        let pushed = m.missing.push(q->Missing_0);
        assert forall|i: int, j: int| 0 <= i < j < pushed.len() implies pushed[i] != pushed[j] by {
            if j == pushed.len() - 1 {
                assert(pushed[i] == m.missing[i]);
            }
        }
    }
}

/// Rendering is a pure function of the builder state: with no intervening
/// append, two renderings of the same query are the same string.  Together
/// with the contract of [`Query::render`], which pins the result to
/// `spec_render` of the state, this is the rendering's determinism.
pub proof fn lemma_render_deterministic(m1: QueryModel, m2: QueryModel)
    requires
        m1 == m2,
    ensures
        spec_render(m1) == spec_render(m2),
{
}

/// An empty query renders to the empty string.
pub proof fn lemma_empty_query_renders_empty()
    ensures
        spec_render(empty_model()) == Seq::<char>::empty(),
{
    assert(spec_terms(empty_model()) =~= Seq::<Seq<char>>::empty());
}

/// Recording the same missing-metadata kind twice inserts only one entry:
/// the second call leaves the builder state unchanged (set semantics).
pub proof fn lemma_missing_metadata_idempotent(m: QueryModel, kind: MissingMetadata)
    ensures
        apply_qualifier(apply_qualifier(m, Qualifier::Missing(kind)), Qualifier::Missing(kind))
            == apply_qualifier(m, Qualifier::Missing(kind)),
{
    let m1 = apply_qualifier(m, Qualifier::Missing(kind));
    if !m.missing.contains(kind) {
        assert(m1.missing[m.missing.len() as int] == kind);
        assert(m1.missing.contains(kind));
    }
    assert(apply_qualifier(m1, Qualifier::Missing(kind)) =~= m1);
}

/// Every value of `vals` turned into a term by putting `prefix` in front,
/// in order.
pub open spec fn prefixed_terms(prefix: Seq<char>, vals: Seq<Seq<char>>) -> Seq<Seq<char>>
    decreases vals.len(),
{
    if vals.len() == 0 {
        Seq::empty()
    } else {
        prefixed_terms(prefix, vals.drop_last()).push(prefix + vals.last())
    }
}

/// Every keyword-field pair rendered as a keyword-in-field term, in order.
pub open spec fn in_terms_of(vals: Seq<(Seq<char>, Seq<char>)>) -> Seq<Seq<char>>
    decreases vals.len(),
{
    if vals.len() == 0 {
        Seq::empty()
    } else {
        in_terms_of(vals.drop_last()).push(in_term(vals.last().0, vals.last().1))
    }
}

/// Every name pair rendered as a full-name term, in order.
pub open spec fn fullname_terms_of(vals: Seq<(Seq<char>, Seq<char>)>) -> Seq<Seq<char>>
    decreases vals.len(),
{
    if vals.len() == 0 {
        Seq::empty()
    } else {
        fullname_terms_of(vals.drop_last()).push(fullname_term(vals.last().0, vals.last().1))
    }
}

/// Every recorded missing-metadata kind rendered as a `no:` term, in order.
pub open spec fn missing_terms_of(kinds: Seq<MissingMetadata>) -> Seq<Seq<char>>
    decreases kinds.len(),
{
    if kinds.len() == 0 {
        Seq::empty()
    } else {
        missing_terms_of(kinds.drop_last()).push("no:"@ + kinds.last().spec_str())
    }
}

/// The rendered terms of a builder state, in the fixed category order:
/// repo, is, in, author, assignee, user, org, fullname, label, type, state,
/// no, missing metadata, language.  The order is part of the crate's
/// contract: it never depends on the order of the append calls.
pub open spec fn spec_terms(m: QueryModel) -> Seq<Seq<char>> {
    prefixed_terms("repo:"@, m.repo) + prefixed_terms("is:"@, m.is) + in_terms_of(m.in_terms)
        + prefixed_terms("author:"@, m.author) + prefixed_terms("assignee:"@, m.assignee)
        + prefixed_terms("user:"@, m.user) + prefixed_terms("org:"@, m.org) + fullname_terms_of(
        m.fullname,
    ) + prefixed_terms("label:"@, m.label) + prefixed_terms("type:"@, m.type_) + prefixed_terms(
        "state:"@,
        m.state,
    ) + prefixed_terms("no:"@, m.no) + missing_terms_of(m.missing) + prefixed_terms(
        "language:"@,
        m.language,
    )
}

/// The full rendering of a builder state: its terms joined by `+`.
pub open spec fn spec_render(m: QueryModel) -> Seq<char> {
    join_plus(spec_terms(m))
}

/// Appends `prefix` + value to `out` for every value in `vals`, in order.
fn push_prefixed(out: &mut Vec<String>, prefix: &str, vals: &Vec<String>)
    ensures
        final(out).deep_view() == old(out).deep_view() + prefixed_terms(
            prefix@,
            vals.deep_view(),
        ),
{
    let ghost base = out.deep_view();
    let ghost vs = vals.deep_view();
    let n = vals.len();
    for i in 0..n
        invariant
            n == vals.len(),
            vs == vals.deep_view(),
            out.deep_view() == base + prefixed_terms(prefix@, vs.take(i as int)),
    {
        let mut t = prefix.to_owned();
        t.append(vals[i].as_str());
        let ghost pre = out.deep_view();
        let ghost tv = t@;
        out.push(t);
        proof {
            assert(vs[i as int] == vals@[i as int]@);
            assert(tv == prefix@ + vs[i as int]);
            assert(out.deep_view() =~= pre.push(tv));
            assert(vs.take(i + 1).drop_last() =~= vs.take(i as int));
            assert(out.deep_view() =~= base + prefixed_terms(prefix@, vs.take(i + 1)));
        }
    }
    proof {
        assert(vs.take(n as int) =~= vs);
    }
}

/// Appends the rendering of every keyword-in-field term to `out`, in order.
fn push_in_terms(out: &mut Vec<String>, vals: &Vec<In>)
    ensures
        final(out).deep_view() == old(out).deep_view() + in_terms_of(vals.deep_view()),
{
    let ghost base = out.deep_view();
    let ghost vs = vals.deep_view();
    let n = vals.len();
    for i in 0..n
        invariant
            n == vals.len(),
            vs == vals.deep_view(),
            out.deep_view() == base + in_terms_of(vs.take(i as int)),
    {
        let t = vals[i].render();
        let ghost pre = out.deep_view();
        let ghost tv = t@;
        out.push(t);
        proof {
            assert(vs[i as int] == vals@[i as int]@);
            assert(tv == in_term(vs[i as int].0, vs[i as int].1));
            assert(out.deep_view() =~= pre.push(tv));
            assert(vs.take(i + 1).drop_last() =~= vs.take(i as int));
            assert(out.deep_view() =~= base + in_terms_of(vs.take(i + 1)));
        }
    }
    proof {
        assert(vs.take(n as int) =~= vs);
    }
}

/// Appends the rendering of every full-name term to `out`, in order.
fn push_fullname_terms(out: &mut Vec<String>, vals: &Vec<FullName>)
    ensures
        final(out).deep_view() == old(out).deep_view() + fullname_terms_of(vals.deep_view()),
{
    let ghost base = out.deep_view();
    let ghost vs = vals.deep_view();
    let n = vals.len();
    for i in 0..n
        invariant
            n == vals.len(),
            vs == vals.deep_view(),
            out.deep_view() == base + fullname_terms_of(vs.take(i as int)),
    {
        let t = vals[i].render();
        let ghost pre = out.deep_view();
        let ghost tv = t@;
        out.push(t);
        proof {
            assert(vs[i as int] == vals@[i as int]@);
            assert(tv == fullname_term(vs[i as int].0, vs[i as int].1));
            assert(out.deep_view() =~= pre.push(tv));
            assert(vs.take(i + 1).drop_last() =~= vs.take(i as int));
            assert(out.deep_view() =~= base + fullname_terms_of(vs.take(i + 1)));
        }
    }
    proof {
        assert(vs.take(n as int) =~= vs);
    }
}

/// Appends `no:{kind}` to `out` for every recorded missing-metadata kind,
/// in order.
fn push_missing_terms(out: &mut Vec<String>, vals: &Vec<MissingMetadata>)
    ensures
        final(out).deep_view() == old(out).deep_view() + missing_terms_of(vals@),
{
    let ghost base = out.deep_view();
    let ghost vs = vals@;
    let n = vals.len();
    for i in 0..n
        invariant
            n == vals.len(),
            vs == vals@,
            out.deep_view() == base + missing_terms_of(vs.take(i as int)),
    {
        let mut t = String::new();
        t.append("no:");
        t.append(vals[i].as_str());
        let ghost pre = out.deep_view();
        let ghost tv = t@;
        out.push(t);
        proof {
            assert(tv == "no:"@ + vs[i as int].spec_str());
            assert(out.deep_view() =~= pre.push(tv));
            assert(vs.take(i + 1).drop_last() =~= vs.take(i as int));
            assert(out.deep_view() =~= base + missing_terms_of(vs.take(i + 1)));
        }
    }
    proof {
        assert(vs.take(n as int) =~= vs);
    }
}

/// Accumulates search qualifiers and renders them into the query-string
/// portion of a search request.  Each append method consumes the builder and
/// returns it, so calls chain.
pub struct Query {
    repo: Vec<String>,
    is: Vec<String>,
    in_terms: Vec<In>,
    author: Vec<String>,
    assignee: Vec<String>,
    user: Vec<String>,
    org: Vec<String>,
    fullname: Vec<FullName>,
    label: Vec<String>,
    type_: Vec<String>,
    state: Vec<String>,
    no: Vec<String>,
    missing: Vec<MissingMetadata>,
    language: Vec<String>,
}

impl View for Query {
    type V = QueryModel;

    closed spec fn view(&self) -> QueryModel {
        QueryModel {
            repo: self.repo.deep_view(),
            is: self.is.deep_view(),
            in_terms: self.in_terms.deep_view(),
            author: self.author.deep_view(),
            assignee: self.assignee.deep_view(),
            user: self.user.deep_view(),
            org: self.org.deep_view(),
            fullname: self.fullname.deep_view(),
            label: self.label.deep_view(),
            type_: self.type_.deep_view(),
            state: self.state.deep_view(),
            no: self.no.deep_view(),
            missing: self.missing@,
            language: self.language.deep_view(),
        }
    }
}

impl Query {
    /// Builds an empty query.
    pub fn new() -> (r: Self)
        ensures
            r@ == empty_model(),
    {
        let q = Query {
            repo: Vec::new(),
            is: Vec::new(),
            in_terms: Vec::new(),
            author: Vec::new(),
            assignee: Vec::new(),
            user: Vec::new(),
            org: Vec::new(),
            fullname: Vec::new(),
            label: Vec::new(),
            type_: Vec::new(),
            state: Vec::new(),
            no: Vec::new(),
            missing: Vec::new(),
            language: Vec::new(),
        };
        proof {
            assert(q@ =~= empty_model());
        }
        q
    }

    /// Builds a query that already names the given repository, as
    /// `repo:{full_name}`.
    pub fn from_repo(repo: Repo) -> (r: Self)
        ensures
            r@ == apply_qualifier(empty_model(), Qualifier::Repo(repo.full_name@)),
    {
        let mut q = Query::new();
        q.repo.push(repo.full_name);
        proof {
            assert(q@ =~= apply_qualifier(empty_model(), Qualifier::Repo(repo.full_name@)));
        }
        q
    }

    /// Adds an author to the query.  Renders as `author:{username}`.
    pub fn author(self, username: &str) -> (r: Self)
        ensures
            r@ == apply_qualifier(self@, Qualifier::Author(username@)),
    {
        let ghost m = self@;
        let mut q = self;
        q.author.push(username.to_owned());
        proof {
            assert(q@ =~= apply_qualifier(m, Qualifier::Author(username@)));
        }
        q
    }

    /// Adds a repo to the query.  Renders as `repo:{user}/{repo}`.
    pub fn repo(self, user: &str, repo: &str) -> (r: Self)
        ensures
            r@ == apply_qualifier(self@, Qualifier::Repo(user@ + "/"@ + repo@)),
    {
        let ghost m = self@;
        let mut q = self;
        let mut full = user.to_owned();
        full.append("/");
        full.append(repo);
        q.repo.push(full);
        proof {
            assert(q@ =~= apply_qualifier(m, Qualifier::Repo(user@ + "/"@ + repo@)));
        }
        q
    }

    /// Adds an `is` statement to the query.  Renders as `is:{statement}`.
    pub fn is(self, statement: &str) -> (r: Self)
        ensures
            r@ == apply_qualifier(self@, Qualifier::Is(statement@)),
    {
        let ghost m = self@;
        let mut q = self;
        q.is.push(statement.to_owned());
        proof {
            assert(q@ =~= apply_qualifier(m, Qualifier::Is(statement@)));
        }
        q
    }

    /// Adds an `in` statement to the query.  Renders as `{keyword} in:{field}`.
    pub fn in_(self, keyword: &str, field: &str) -> (r: Self)
        ensures
            r@ == apply_qualifier(self@, Qualifier::InTerm(keyword@, field@)),
    {
        let ghost m = self@;
        let mut q = self;
        q.in_terms.push(In(keyword.to_owned(), field.to_owned()));
        proof {
            assert(q@ =~= apply_qualifier(m, Qualifier::InTerm(keyword@, field@)));
        }
        q
    }

    /// Adds an `assignee` statement to the query.  Renders as
    /// `assignee:{username}`.
    pub fn assignee(self, username: &str) -> (r: Self)
        ensures
            r@ == apply_qualifier(self@, Qualifier::Assignee(username@)),
    {
        let ghost m = self@;
        let mut q = self;
        q.assignee.push(username.to_owned());
        proof {
            assert(q@ =~= apply_qualifier(m, Qualifier::Assignee(username@)));
        }
        q
    }

    /// Adds a `user` statement to the query.  Renders as `user:{statement}`.
    pub fn user(self, statement: &str) -> (r: Self)
        ensures
            r@ == apply_qualifier(self@, Qualifier::User(statement@)),
    {
        let ghost m = self@;
        let mut q = self;
        q.user.push(statement.to_owned());
        proof {
            assert(q@ =~= apply_qualifier(m, Qualifier::User(statement@)));
        }
        q
    }

    /// Adds an `org` statement to the query.  Renders as `org:{statement}`.
    pub fn org(self, statement: &str) -> (r: Self)
        ensures
            r@ == apply_qualifier(self@, Qualifier::Org(statement@)),
    {
        let ghost m = self@;
        let mut q = self;
        q.org.push(statement.to_owned());
        proof {
            assert(q@ =~= apply_qualifier(m, Qualifier::Org(statement@)));
        }
        q
    }

    /// Adds a `fullname` statement to the query.  Renders as
    /// `fullname:{first_name} {last_name}`.
    pub fn fullname(self, first_name: &str, last_name: &str) -> (r: Self)
        ensures
            r@ == apply_qualifier(self@, Qualifier::FullName(first_name@, last_name@)),
    {
        let ghost m = self@;
        let mut q = self;
        q.fullname.push(FullName::new(first_name, last_name));
        proof {
            assert(q@ =~= apply_qualifier(m, Qualifier::FullName(first_name@, last_name@)));
        }
        q
    }

    /// Adds a `label` statement to the query.  Renders as `label:{statement}`.
    pub fn label(self, statement: &str) -> (r: Self)
        ensures
            r@ == apply_qualifier(self@, Qualifier::Label(statement@)),
    {
        let ghost m = self@;
        let mut q = self;
        q.label.push(statement.to_owned());
        proof {
            assert(q@ =~= apply_qualifier(m, Qualifier::Label(statement@)));
        }
        q
    }

    /// Adds a `type` statement to the query.  Renders as `type:{statement}`.
    pub fn type_(self, statement: &str) -> (r: Self)
        ensures
            r@ == apply_qualifier(self@, Qualifier::Type(statement@)),
    {
        let ghost m = self@;
        let mut q = self;
        q.type_.push(statement.to_owned());
        proof {
            assert(q@ =~= apply_qualifier(m, Qualifier::Type(statement@)));
        }
        q
    }

    /// Adds a `state` statement to the query.  Renders as `state:{statement}`.
    pub fn state(self, statement: &str) -> (r: Self)
        ensures
            r@ == apply_qualifier(self@, Qualifier::State(statement@)),
    {
        let ghost m = self@;
        let mut q = self;
        q.state.push(statement.to_owned());
        proof {
            assert(q@ =~= apply_qualifier(m, Qualifier::State(statement@)));
        }
        q
    }

    /// Adds a free-form `no` statement to the query.  Renders as
    /// `no:{statement}`.
    pub fn no(self, statement: &str) -> (r: Self)
        ensures
            r@ == apply_qualifier(self@, Qualifier::No(statement@)),
    {
        let ghost m = self@;
        let mut q = self;
        q.no.push(statement.to_owned());
        proof {
            assert(q@ =~= apply_qualifier(m, Qualifier::No(statement@)));
        }
        q
    }

    /// Records that the given metadata kind is missing.  The kinds form a
    /// set: inserting a kind twice keeps a single entry.  Each distinct kind
    /// renders as `no:{kind}`.
    pub fn missing_metadata(self, kind: MissingMetadata) -> (r: Self)
        ensures
            r@ == apply_qualifier(self@, Qualifier::Missing(kind)),
    {
        let ghost m = self@;
        let mut q = self;
        let mut found = false;
        let n = q.missing.len();
        for i in 0..n
            invariant
                n == q.missing.len(),
                q.missing@ == m.missing,
                found <==> exists|j: int| 0 <= j < i && m.missing[j] == kind,
        {
            if q.missing[i] == kind {
                found = true;
                proof {
                    assert(m.missing[i as int] == kind);
                }
            }
        }
        proof {
            assert(found <==> m.missing.contains(kind));
        }
        if !found {
            q.missing.push(kind);
        }
        proof {
            assert(q@ =~= apply_qualifier(m, Qualifier::Missing(kind)));
        }
        q
    }

    /// Renders the query: every category's terms in the fixed category
    /// order, joined by `+`.  Two renderings of one builder state are the
    /// same string, whatever the order of the append calls that built it.
    pub fn render(&self) -> (r: String)
        ensures
            r@ == spec_render(self@),
    {
        let mut terms: Vec<String> = Vec::new();
        push_prefixed(&mut terms, "repo:", &self.repo);
        push_prefixed(&mut terms, "is:", &self.is);
        push_in_terms(&mut terms, &self.in_terms);
        push_prefixed(&mut terms, "author:", &self.author);
        push_prefixed(&mut terms, "assignee:", &self.assignee);
        push_prefixed(&mut terms, "user:", &self.user);
        push_prefixed(&mut terms, "org:", &self.org);
        push_fullname_terms(&mut terms, &self.fullname);
        push_prefixed(&mut terms, "label:", &self.label);
        push_prefixed(&mut terms, "type:", &self.type_);
        push_prefixed(&mut terms, "state:", &self.state);
        push_prefixed(&mut terms, "no:", &self.no);
        push_missing_terms(&mut terms, &self.missing);
        push_prefixed(&mut terms, "language:", &self.language);
        proof {
            assert(terms.deep_view() =~= spec_terms(self@));
        }
        join_terms(&terms)
    }

    /// Adds a `language` statement to the query.  Renders as
    /// `language:{statement}`.
    pub fn language(self, statement: &str) -> (r: Self)
        ensures
            r@ == apply_qualifier(self@, Qualifier::Language(statement@)),
    {
        let ghost m = self@;
        let mut q = self;
        q.language.push(statement.to_owned());
        proof {
            assert(q@ =~= apply_qualifier(m, Qualifier::Language(statement@)));
        }
        q
    }
}

} // verus!
