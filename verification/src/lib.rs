//! Stats and search queries for a source-code hosting service's REST API.
//!
//! The heart of the crate is [`Query`], a builder that accumulates search
//! qualifiers and renders them into the query string of a search URL, and
//! [`Search`], which wraps a rendered query together with a search area and
//! pagination counters into a full request URL.  Typed records ([`Repo`],
//! [`User`], [`Release`]) carry the fields of the service's JSON responses;
//! fetching them over HTTP is left to the surrounding application.

use vstd::prelude::*;

mod dates;
mod json;
pub mod languages;
pub mod repository;
pub mod search;
mod text;
pub mod user;

pub use repository::Repo;
pub use repository::releases::Release;

pub use search::Query;
pub use search::Search;
pub use user::User;

verus! {

/// An error surfaced to the caller: a single opaque failure value carrying
/// a descriptive message.
#[derive(Debug)]
pub struct Error {
    pub message: String,
}

impl Error {
    /// Builds an error from a message.
    pub fn new(msg: &str) -> (r: Error)
        ensures
            r.message@ == msg@,
    {
        Error { message: msg.to_owned() }
    }

    /// The descriptive message carried by this error.
    pub fn message(&self) -> (r: &str)
        ensures
            r@ == self.message@,
    {
        self.message.as_str()
    }
}

} // verus!
