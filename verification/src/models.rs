//! The one entity: a mapping from a slug to a destination.

use vstd::prelude::*;

verus! {

/// A mapping as contracts speak of it.
pub struct UrlView {
    pub slug: Seq<char>,
    pub url: Seq<char>,
    pub author_ip: Seq<char>,
    pub usage_count: int,
}

/// A mapping as the store holds it.
#[derive(Debug, Clone, PartialEq, Eq)]
pub struct Url {
    pub slug: String,
    pub url: String,
    pub author_ip: String,
    pub usage_count: i32,
}

impl View for Url {
    type V = UrlView;

    open spec fn view(&self) -> UrlView {
        UrlView {
            slug: self.slug@,
            url: self.url@,
            author_ip: self.author_ip@,
            usage_count: self.usage_count as int,
        }
    }
}

/// A mapping on its way into the store.
#[derive(Debug, Clone, PartialEq, Eq)]
pub struct NewUrl<'a> {
    pub slug: &'a str,
    pub url: &'a str,
    pub author_ip: &'a str,
    pub usage_count: i32,
}

impl<'a> View for NewUrl<'a> {
    type V = UrlView;

    open spec fn view(&self) -> UrlView {
        UrlView {
            slug: self.slug@,
            url: self.url@,
            author_ip: self.author_ip@,
            usage_count: self.usage_count as int,
        }
    }
}

/// The mapping that a request for `slug` puts into the store: never used yet.
pub open spec fn fresh_row(slug: Seq<char>, url: Seq<char>, author_ip: Seq<char>) -> UrlView {
    UrlView { slug, url, author_ip, usage_count: 0 }
}

impl<'a> NewUrl<'a> {
    /// A mapping that has not been used yet.
    pub fn fresh(slug: &'a str, url: &'a str, author_ip: &'a str) -> (row: NewUrl<'a>)
        ensures
            row@ == fresh_row(slug@, url@, author_ip@),
    {
        NewUrl { slug, url, author_ip, usage_count: 0 }
    }
}

} // verus!
