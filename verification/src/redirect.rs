//! Following a slug to its destination.
//!
//! A [`Resolution`] finds the mapping and then has the store count the use.
//! The count is a courtesy: the destination is handed out whether or not the
//! store managed to raise it.

use vstd::prelude::*;
use crate::error::UrlErr;
use crate::store::{Query, QueryView, Reply, ReplyView};

verus! {

/// Where a resolution stands.
#[derive(Debug)]
pub enum Resolution {
    /// Looking the slug up.
    Looking { slug: String },
    /// Found; having the use counted.
    Counting { slug: String, url: String },
    /// Over, with the destination or the reason why there is none.
    /// `counted` tells whether the store confirmed the count.
    Finished { outcome: Result<String, UrlErr>, counted: bool },
}

/// A resolution as contracts speak of it.
pub enum ResolveView {
    Looking { slug: Seq<char> },
    Counting { slug: Seq<char>, url: Seq<char> },
    Finished { outcome: Result<Seq<char>, UrlErr>, counted: bool },
}

impl View for Resolution {
    type V = ResolveView;

    open spec fn view(&self) -> ResolveView {
        match *self {
            Resolution::Looking { slug } => ResolveView::Looking { slug: slug@ },
            Resolution::Counting { slug, url } => ResolveView::Counting { slug: slug@, url: url@ },
            Resolution::Finished { outcome: Ok(url), counted } => ResolveView::Finished {
                outcome: Ok(url@),
                counted,
            },
            Resolution::Finished { outcome: Err(err), counted } => ResolveView::Finished {
                outcome: Err(err),
                counted,
            },
        }
    }
}

/// A resolution at its start.
pub open spec fn resolve_begin(slug: Seq<char>) -> ResolveView {
    ResolveView::Looking { slug }
}

/// The resolution `r` after the store's `reply` to its query. A lookup
/// that fails ends it, and so does one that shows no mapping. Once the
/// mapping is found the destination is settled: the reply to the count
/// only tells whether it was counted.
pub open spec fn resolve_advance(r: ResolveView, reply: ReplyView) -> ResolveView {
    match r {
        ResolveView::Looking { slug } => match reply {
            ReplyView::Rows(rows) => if rows.len() > 0 {
                ResolveView::Counting { slug, url: rows[0].url }
            } else {
                ResolveView::Finished { outcome: Err(UrlErr::NotFound), counted: false }
            },
            _ => ResolveView::Finished { outcome: Err(UrlErr::DBError), counted: false },
        },
        ResolveView::Counting { slug, url } => ResolveView::Finished {
            outcome: Ok(url),
            counted: reply == ReplyView::Done,
        },
        ResolveView::Finished { .. } => r,
    }
}

/// What the resolution `r` wants of the store; nothing once it is over.
pub open spec fn resolve_query(r: ResolveView) -> Option<QueryView> {
    match r {
        ResolveView::Looking { slug } => Some(QueryView::Find(slug)),
        ResolveView::Counting { slug, .. } => Some(QueryView::Bump(slug)),
        ResolveView::Finished { .. } => None,
    }
}

impl Resolution {
    /// Starts the resolution of `slug`.
    pub fn begin(slug: String) -> (r: Resolution)
        ensures
            r@ == resolve_begin(slug@),
    {
        Resolution::Looking { slug }
    }

    /// What this resolution wants of the store; nothing once it is over.
    pub fn query(&self) -> (q: Option<Query<'_>>)
        ensures
            match q {
                Some(query) => resolve_query(self@) == Some(query@),
                None => resolve_query(self@).is_none(),
            },
    {
        match self {
            Resolution::Looking { slug } => Some(Query::Find(slug.as_str())),
            Resolution::Counting { slug, .. } => Some(Query::Bump(slug.as_str())),
            Resolution::Finished { .. } => None,
        }
    }

    /// Takes the store's `reply` to the query of this resolution.
    pub fn advance(self, reply: Reply) -> (next: Resolution)
        ensures
            next@ == resolve_advance(self@, reply@),
    {
        match self {
            Resolution::Looking { slug } => match reply {
                Reply::Rows(mut rows) => if rows.len() > 0 {
                    let row = rows.swap_remove(0);
                    Resolution::Counting { slug, url: row.url }
                } else {
                    Resolution::Finished { outcome: Err(UrlErr::NotFound), counted: false }
                },
                _ => Resolution::Finished { outcome: Err(UrlErr::DBError), counted: false },
            },
            Resolution::Counting { slug, url } => {
                let counted = match reply {
                    Reply::Done => true,
                    _ => false,
                };
                Resolution::Finished { outcome: Ok(url), counted }
            },
            Resolution::Finished { outcome, counted } => Resolution::Finished { outcome, counted },
        }
    }

    /// The outcome, once the resolution is over.
    pub fn outcome(self) -> (o: Option<Result<String, UrlErr>>)
        ensures
            match o {
                Some(Ok(url)) => self@ is Finished && self@->outcome == Ok::<Seq<char>, UrlErr>(url@),
                Some(Err(err)) => self@ is Finished && self@->outcome == Err::<Seq<char>, UrlErr>(err),
                None => !(self@ is Finished),
            },
    {
        match self {
            Resolution::Finished { outcome, .. } => Some(outcome),
            _ => None,
        }
    }

    /// Whether a destination was handed out without the store confirming
    /// the count: worth a warning, nothing more.
    pub fn lost_count(&self) -> (lost: bool)
        ensures
            lost == (self@ is Finished && self@->outcome is Ok && !self@->counted),
    {
        match self {
            Resolution::Finished { outcome: Ok(_), counted } => !*counted,
            _ => false,
        }
    }
}

} // verus!
