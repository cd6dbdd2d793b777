//! Search requests: a search area, a rendered query and pagination
//! counters, formatted into a request URL.

use vstd::prelude::*;
use crate::text::dec_rep;
use crate::text::usize_to_decimal;
use crate::search::query::spec_render;

pub use query::Query;

pub mod query;

verus! {

/// The enumerated resource category a search runs against.
#[derive(Clone, Copy, PartialEq, Eq, Structural, Debug)]
pub enum SearchArea {
    Issues,
    Users,
}

impl SearchArea {
    /// The area's name as it appears in the search endpoint path.
    pub open spec fn spec_str(self) -> Seq<char> {
        match self {
            SearchArea::Issues => "issues"@,
            SearchArea::Users => "users"@,
        }
    }

    /// The area's name as a borrowed string.
    pub fn as_str(self) -> (r: &'static str)
        ensures
            r@ == self.spec_str(),
    {
        match self {
            SearchArea::Issues => "issues",
            SearchArea::Users => "users",
        }
    }
}

/// The mathematical state of a [`Search`]: the area, the rendered query
/// string, and the two pagination counters.
#[verifier::ext_equal]
pub struct SearchModel {
    pub area: SearchArea,
    pub query: Seq<char>,
    pub per_page: int,
    pub page: int,
}

/// The request URL of a search:
/// `<base>/search/<area>?per_page=<n>&page=<p>&q=<query>`.
pub open spec fn spec_url(m: SearchModel) -> Seq<char> {
    "https://api.github.com/search/"@ + m.area.spec_str() + "?per_page="@ + dec_rep(
        m.per_page as nat,
    ) + "&page="@ + dec_rep(m.page as nat) + "&q="@ + m.query
}

/// What a search reports back: the server-side total of matching results,
/// and the items of the requested page as raw JSON values.  Filling the
/// fields from a fetched response is the surrounding application's job.
#[derive(Debug)]
pub struct SearchResults {
    pub total_count: u64,
    pub items: Vec<serde_json::Value>,
}

impl SearchResults {
    /// Gets the total count of values matching the query.
    ///
    /// This ignores `per_page`.  If you only want the total count, it is
    /// recommended that you set `per_page` to `1` to shrink results size.
    pub fn total_count(&self) -> (r: u64)
        ensures
            r == self.total_count,
    {
        self.total_count
    }

    /// Items matching the query.
    pub fn items(&self) -> (r: &Vec<serde_json::Value>)
        ensures
            r == &self.items,
    {
        &self.items
    }
}

/// A search request under construction: the query is rendered once, when
/// the request is built, and the pagination counters can then be adjusted.
pub struct Search {
    search_area: SearchArea,
    query: String,
    per_page: usize,
    page: usize,
}

impl View for Search {
    type V = SearchModel;

    closed spec fn view(&self) -> SearchModel {
        SearchModel {
            area: self.search_area,
            query: self.query@,
            per_page: self.per_page as int,
            page: self.page as int,
        }
    }
}

impl Search {
    /// Builds a search over the given area, with the query rendered and the
    /// pagination counters at their defaults: 10 results per page, page 1.
    fn new(search_area: SearchArea, query: &Query) -> (r: Self)
        ensures
            r@ == (SearchModel {
                area: search_area,
                query: spec_render(query@),
                per_page: 10,
                page: 1,
            }),
    {
        Search { search_area, query: query.render(), per_page: 10, page: 1 }
    }

    /// A search of the issues area.
    pub fn issues(query: &Query) -> (r: Self)
        ensures
            r@ == (SearchModel {
                area: SearchArea::Issues,
                query: spec_render(query@),
                per_page: 10,
                page: 1,
            }),
    {
        Search::new(SearchArea::Issues, query)
    }

    /// A search of the users area.
    pub fn users(query: &Query) -> (r: Self)
        ensures
            r@ == (SearchModel {
                area: SearchArea::Users,
                query: spec_render(query@),
                per_page: 10,
                page: 1,
            }),
    {
        Search::new(SearchArea::Users, query)
    }

    /// Gets the query string that will be used for the search.
    pub fn get_query(&self) -> (r: &str)
        ensures
            r@ == self@.query,
    {
        self.query.as_str()
    }

    /// Sets how many results a page holds.  Defaults to 10.
    pub fn per_page(self, per_page: usize) -> (r: Self)
        ensures
            r@ == (SearchModel { per_page: per_page as int, ..self@ }),
    {
        let mut s = self;
        s.per_page = per_page;
        s
    }

    /// Sets which page of results is requested.  Defaults to 1.
    pub fn page(self, page: usize) -> (r: Self)
        ensures
            r@ == (SearchModel { page: page as int, ..self@ }),
    {
        let mut s = self;
        s.page = page;
        s
    }

    /// Moves one page forward.  At the largest representable page number
    /// the counter saturates: it stays put instead of wrapping around.
    pub fn next_page(&mut self)
        ensures
            final(self)@ == (SearchModel {
                page: if old(self)@.page < usize::MAX as int {
                    old(self)@.page + 1
                } else {
                    old(self)@.page
                },
                ..old(self)@
            }),
    {
        if self.page < usize::MAX {
            self.page += 1;
        }
    }

    /// Moves one page backward.  At zero the counter saturates: it stays
    /// put instead of wrapping around.
    pub fn prev_page(&mut self)
        ensures
            final(self)@ == (SearchModel {
                page: if old(self)@.page > 0 {
                    old(self)@.page - 1
                } else {
                    old(self)@.page
                },
                ..old(self)@
            }),
    {
        if self.page > 0 {
            self.page -= 1;
        }
    }

    /// Formats the full request URL:
    /// `<base>/search/<area>?per_page=<n>&page=<p>&q=<query>`.
    /// Given one builder state the result is always the same string.
    pub fn to_url(&self) -> (r: String)
        ensures
            r@ == spec_url(self@),
    {
        let mut out = String::new();
        out.append("https://api.github.com/search/");
        out.append(self.search_area.as_str());
        out.append("?per_page=");
        let per_page = usize_to_decimal(self.per_page);
        out.append(per_page.as_str());
        out.append("&page=");
        let page = usize_to_decimal(self.page);
        out.append(page.as_str());
        out.append("&q=");
        out.append(self.query.as_str());
        out
    }
}

} // verus!
