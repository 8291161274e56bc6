//! The conversation with the store.
//!
//! The store is a table of mappings keyed by slug, kept elsewhere. A request
//! never touches it: it hands out one [`Query`] at a time and is handed back
//! a [`Reply`]. This module holds both, and a model of the table that says
//! what an honest store answers.

use vstd::prelude::*;
use crate::models::{NewUrl, Url, UrlView};

verus! {

/// What a request wants of the store next.
#[derive(Debug, Clone, PartialEq, Eq)]
pub enum Query<'a> {
    /// The mapping with this slug, if there is one. One row is enough.
    Find(&'a str),
    /// Add this mapping, unless its slug is taken.
    Insert(NewUrl<'a>),
    /// Raise by one the usage count of the mapping with this slug, in the
    /// store and in one statement.
    Bump(&'a str),
}

/// A query as contracts speak of it.
pub enum QueryView {
    Find(Seq<char>),
    Insert(UrlView),
    Bump(Seq<char>),
}

impl<'a> View for Query<'a> {
    type V = QueryView;

    open spec fn view(&self) -> QueryView {
        match *self {
            Query::Find(slug) => QueryView::Find(slug@),
            Query::Insert(row) => QueryView::Insert(row@),
            Query::Bump(slug) => QueryView::Bump(slug@),
        }
    }
}

/// What the store answered.
#[derive(Debug, Clone, PartialEq, Eq)]
pub enum Reply {
    /// The mappings that a `Find` met.
    Rows(Vec<Url>),
    /// The `Insert` or `Bump` was carried out.
    Done,
    /// The `Insert` was turned down: the slug is taken.
    Duplicate,
    /// The store could not carry the query out.
    Failed,
}

/// A reply as contracts speak of it.
pub enum ReplyView {
    Rows(Seq<UrlView>),
    Done,
    Duplicate,
    Failed,
}

impl View for Reply {
    type V = ReplyView;

    open spec fn view(&self) -> ReplyView {
        match *self {
            Reply::Rows(rows) => ReplyView::Rows(rows@.map_values(|row: Url| row@)),
            Reply::Done => ReplyView::Done,
            Reply::Duplicate => ReplyView::Duplicate,
            Reply::Failed => ReplyView::Failed,
        }
    }
}

/// Whether a reply to a `Find` leaves the slug free. Only an answer that
/// shows no mapping does: a store that fails is taken to hold one, so that
/// a slug in use is never handed out twice.
pub open spec fn leaves_free(reply: ReplyView) -> bool {
    match reply {
        ReplyView::Rows(rows) => rows.len() == 0,
        _ => false,
    }
}

/// The mapping that a reply to a `Find` shows, if it shows one.
pub open spec fn first_row(reply: ReplyView) -> Option<UrlView> {
    match reply {
        ReplyView::Rows(rows) if rows.len() > 0 => Some(rows[0]),
        _ => None,
    }
}

impl Reply {
    /// Whether this reply to a `Find` leaves the slug free.
    pub fn is_free(&self) -> (free: bool)
        ensures
            free == leaves_free(self@),
    {
        match self {
            Reply::Rows(rows) => rows.len() == 0,
            _ => false,
        }
    }

    /// The mapping that this reply to a `Find` shows, if it shows one.
    pub fn into_first(self) -> (row: Option<Url>)
        ensures
            match row {
                Some(found) => first_row(self@) == Some(found@),
                None => first_row(self@).is_none(),
            },
    {
        match self {
            Reply::Rows(mut rows) => {
                if rows.len() > 0 {
                    Some(rows.swap_remove(0))
                } else {
                    None
                }
            },
            _ => None,
        }
    }
}

/// The table of mappings: each slug has at most one.
pub type Table = Map<Seq<char>, UrlView>;

/// A table is in order when every mapping is filed under its own slug and
/// no usage count is negative.
pub open spec fn table_ok(t: Table) -> bool {
    forall|slug: Seq<char>| #[trigger]
        t.contains_key(slug) ==> t[slug].slug == slug && t[slug].usage_count >= 0
}

/// The mapping `row` after one more use.
pub open spec fn used_once(row: UrlView) -> UrlView {
    UrlView { usage_count: row.usage_count + 1, ..row }
}

/// What an honest store does with a query: the table afterwards and the
/// reply. With `up` false the store is out of order: it fails, and the
/// table stays as it was.
pub open spec fn serve(t: Table, query: QueryView, up: bool) -> (Table, ReplyView) {
    if !up {
        (t, ReplyView::Failed)
    } else {
        match query {
            QueryView::Find(slug) => if t.contains_key(slug) {
                (t, ReplyView::Rows(seq![t[slug]]))
            } else {
                (t, ReplyView::Rows(Seq::empty()))
            },
            QueryView::Insert(row) => if t.contains_key(row.slug) {
                (t, ReplyView::Duplicate)
            } else {
                (t.insert(row.slug, row), ReplyView::Done)
            },
            QueryView::Bump(slug) => if t.contains_key(slug) {
                (t.insert(slug, used_once(t[slug])), ReplyView::Done)
            } else {
                (t, ReplyView::Done)
            },
        }
    }
}

} // verus!
