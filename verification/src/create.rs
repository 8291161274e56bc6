//! Giving a destination its slug.
//!
//! An [`Allocation`] proposes a slug, has the store say whether it is free,
//! inserts the mapping and reads it back. A slug that the caller chose is
//! proposed once. A slug made up here is replaced by another when it turns
//! out to be taken, up to [`MAX_TRIES`] proposals in all.

use vstd::prelude::*;
use crate::error::UrlErr;
use crate::models::{fresh_row, NewUrl, Url, UrlView};
use crate::slug::{gen_slug, generated_exists, is_generated};
use crate::store::{first_row, leaves_free, Query, QueryView, Reply, ReplyView};

verus! {

/// How many slugs an allocation proposes before it gives up.
pub const MAX_TRIES: u8 = 10;

/// The mapping that an allocation proposes.
#[derive(Debug)]
pub struct Proposal {
    pub slug: String,
    pub url: String,
    pub author_ip: String,
    /// Whether the caller chose the slug.
    pub chosen: bool,
    /// How many slugs were proposed so far, this one included.
    pub tries: u8,
}

/// A proposal as contracts speak of it.
pub struct ProposalView {
    pub slug: Seq<char>,
    pub url: Seq<char>,
    pub author_ip: Seq<char>,
    pub chosen: bool,
    pub tries: nat,
}

impl View for Proposal {
    type V = ProposalView;

    open spec fn view(&self) -> ProposalView {
        ProposalView {
            slug: self.slug@,
            url: self.url@,
            author_ip: self.author_ip@,
            chosen: self.chosen,
            tries: self.tries as nat,
        }
    }
}

/// Where an allocation stands.
#[derive(Debug)]
pub enum Allocation {
    /// Asking whether the proposed slug is free.
    Probing(Proposal),
    /// Inserting the proposed mapping.
    Writing(Proposal),
    /// Reading back the mapping that was inserted under this slug.
    Reading(String),
    /// Over, with the mapping as the store holds it or the reason why there is none.
    Finished(Result<Url, UrlErr>),
}

/// An allocation as contracts speak of it.
pub enum AllocView {
    Probing(ProposalView),
    Writing(ProposalView),
    Reading(Seq<char>),
    Finished(Result<UrlView, UrlErr>),
}

impl View for Allocation {
    type V = AllocView;

    open spec fn view(&self) -> AllocView {
        match *self {
            Allocation::Probing(p) => AllocView::Probing(p@),
            Allocation::Writing(p) => AllocView::Writing(p@),
            Allocation::Reading(slug) => AllocView::Reading(slug@),
            Allocation::Finished(Ok(row)) => AllocView::Finished(Ok(row@)),
            Allocation::Finished(Err(err)) => AllocView::Finished(Err(err)),
        }
    }
}

/// The slug that the caller asked for, if any, as contracts speak of it.
pub open spec fn text_of(slug: Option<String>) -> Option<Seq<char>> {
    match slug {
        Some(asked) => Some(asked@),
        None => None,
    }
}

/// An allocation at its start. A slug that the caller asks for is the
/// proposal; without one, `candidate` is.
pub open spec fn alloc_begin(
    url: Seq<char>,
    slug: Option<Seq<char>>,
    author_ip: Seq<char>,
    candidate: Seq<char>,
) -> AllocView {
    AllocView::Probing(
        ProposalView {
            slug: match slug {
                Some(asked) => asked,
                None => candidate,
            },
            url,
            author_ip,
            chosen: slug.is_some(),
            tries: 1,
        },
    )
}

/// What becomes of a proposal whose slug is taken. A chosen slug is not
/// replaced; a generated one is, by `candidate`, while the budget lasts.
pub open spec fn alloc_retry(p: ProposalView, candidate: Seq<char>) -> AllocView {
    if p.chosen {
        AllocView::Finished(Err(UrlErr::SlugOccupied))
    } else if p.tries >= MAX_TRIES {
        AllocView::Finished(Err(UrlErr::SlugTooManyTries))
    } else {
        AllocView::Probing(ProposalView { slug: candidate, tries: p.tries + 1, ..p })
    }
}

/// Whether the allocation `a`, on `reply`, proposes a new slug.
pub open spec fn alloc_redraws(a: AllocView, reply: ReplyView) -> bool {
    match a {
        AllocView::Probing(p) => !leaves_free(reply) && !p.chosen && p.tries < MAX_TRIES,
        AllocView::Writing(p) => reply == ReplyView::Duplicate && !p.chosen && p.tries
            < MAX_TRIES,
        _ => false,
    }
}

/// The allocation `a` after the store's `reply` to its query, with
/// `candidate` at hand in case a new slug is to be proposed.
pub open spec fn alloc_advance(a: AllocView, reply: ReplyView, candidate: Seq<char>) -> AllocView {
    match a {
        AllocView::Probing(p) => if leaves_free(reply) {
            AllocView::Writing(p)
        } else {
            alloc_retry(p, candidate)
        },
        AllocView::Writing(p) => match reply {
            ReplyView::Done => AllocView::Reading(p.slug),
            ReplyView::Duplicate => alloc_retry(p, candidate),
            _ => AllocView::Finished(Err(UrlErr::DBError)),
        },
        AllocView::Reading(_) => match first_row(reply) {
            Some(row) => AllocView::Finished(Ok(row)),
            None => AllocView::Finished(Err(UrlErr::DBError)),
        },
        AllocView::Finished(_) => a,
    }
}

/// What the allocation `a` wants of the store; nothing once it is over.
pub open spec fn alloc_query(a: AllocView) -> Option<QueryView> {
    match a {
        AllocView::Probing(p) => Some(QueryView::Find(p.slug)),
        AllocView::Writing(p) => Some(QueryView::Insert(fresh_row(p.slug, p.url, p.author_ip))),
        AllocView::Reading(slug) => Some(QueryView::Find(slug)),
        AllocView::Finished(_) => None,
    }
}

impl Proposal {
    /// What becomes of this proposal now that its slug is taken.
    pub fn retry(self, candidate: String) -> (next: Allocation)
        ensures
            next@ == alloc_retry(self@, candidate@),
    {
        if self.chosen {
            Allocation::Finished(Err(UrlErr::SlugOccupied))
        } else if self.tries >= MAX_TRIES {
            Allocation::Finished(Err(UrlErr::SlugTooManyTries))
        } else {
            Allocation::Probing(
                Proposal {
                    slug: candidate,
                    url: self.url,
                    author_ip: self.author_ip,
                    chosen: false,
                    tries: self.tries + 1,
                },
            )
        }
    }
}

impl Allocation {
    /// Starts an allocation for `url`, with `candidate` as the slug to
    /// propose if the caller asked for none.
    pub fn begin_with(url: String, slug: Option<String>, author_ip: String, candidate: String) -> (a:
        Allocation)
        ensures
            a@ == alloc_begin(
                url@,
                text_of(slug),
                author_ip@,
                candidate@,
            ),
    {
        match slug {
            Some(asked) => Allocation::Probing(
                Proposal { slug: asked, url, author_ip, chosen: true, tries: 1 },
            ),
            None => Allocation::Probing(
                Proposal { slug: candidate, url, author_ip, chosen: false, tries: 1 },
            ),
        }
    }

    /// Starts an allocation for `url`. Without a slug from the caller a
    /// random one is proposed. Destination, slug and creator address are
    /// taken as they stand: what they should look like is for the caller
    /// to see to.
    pub fn begin(url: String, slug: Option<String>, author_ip: String) -> (a: Allocation)
        ensures
            exists|candidate: Seq<char>|
                is_generated(candidate) && a@ == #[trigger] alloc_begin(
                    url@,
                    text_of(slug),
                    author_ip@,
                    candidate,
                ),
    {
        let ghost asked = text_of(slug);
        if slug.is_none() {
            let candidate = gen_slug();
            Allocation::begin_with(url, slug, author_ip, candidate)
        } else {
            proof {
                let c = generated_exists();
                assert(alloc_begin(url@, asked, author_ip@, c) == alloc_begin(
                    url@,
                    asked,
                    author_ip@,
                    Seq::empty(),
                ));
            }
            Allocation::begin_with(url, slug, author_ip, String::new())
        }
    }

    /// What this allocation wants of the store; nothing once it is over.
    pub fn query(&self) -> (q: Option<Query<'_>>)
        ensures
            match q {
                Some(query) => alloc_query(self@) == Some(query@),
                None => alloc_query(self@).is_none(),
            },
    {
        match self {
            Allocation::Probing(p) => Some(Query::Find(p.slug.as_str())),
            Allocation::Writing(p) => Some(
                Query::Insert(NewUrl::fresh(p.slug.as_str(), p.url.as_str(), p.author_ip.as_str())),
            ),
            Allocation::Reading(slug) => Some(Query::Find(slug.as_str())),
            Allocation::Finished(_) => None,
        }
    }

    /// Whether this allocation, on `reply`, proposes a new slug.
    pub fn redraws(&self, reply: &Reply) -> (again: bool)
        ensures
            again == alloc_redraws(self@, reply@),
    {
        match self {
            Allocation::Probing(p) => !reply.is_free() && !p.chosen && p.tries < MAX_TRIES,
            Allocation::Writing(p) => match reply {
                Reply::Duplicate => !p.chosen && p.tries < MAX_TRIES,
                _ => false,
            },
            _ => false,
        }
    }

    /// Takes the store's `reply` to the query of this allocation, with
    /// `candidate` at hand in case a new slug is to be proposed.
    pub fn advance_with(self, reply: Reply, candidate: String) -> (next: Allocation)
        ensures
            next@ == alloc_advance(self@, reply@, candidate@),
    {
        match self {
            Allocation::Probing(p) => if reply.is_free() {
                Allocation::Writing(p)
            } else {
                p.retry(candidate)
            },
            Allocation::Writing(p) => match reply {
                Reply::Done => Allocation::Reading(p.slug),
                Reply::Duplicate => p.retry(candidate),
                _ => Allocation::Finished(Err(UrlErr::DBError)),
            },
            Allocation::Reading(_) => match reply.into_first() {
                Some(row) => Allocation::Finished(Ok(row)),
                None => Allocation::Finished(Err(UrlErr::DBError)),
            },
            Allocation::Finished(outcome) => Allocation::Finished(outcome),
        }
    }

    /// Takes the store's `reply` to the query of this allocation. Where a
    /// new slug is to be proposed, it is a random one.
    pub fn advance(self, reply: Reply) -> (next: Allocation)
        ensures
            exists|candidate: Seq<char>|
                is_generated(candidate) && next@ == #[trigger] alloc_advance(
                    self@,
                    reply@,
                    candidate,
                ),
    {
        if self.redraws(&reply) {
            let candidate = gen_slug();
            self.advance_with(reply, candidate)
        } else {
            proof {
                let c = generated_exists();
                assert(alloc_advance(self@, reply@, c) == alloc_advance(
                    self@,
                    reply@,
                    Seq::empty(),
                ));
            }
            self.advance_with(reply, String::new())
        }
    }

    /// The outcome, once the allocation is over.
    pub fn outcome(self) -> (o: Option<Result<Url, UrlErr>>)
        ensures
            match o {
                Some(Ok(row)) => self@ == AllocView::Finished(Ok(row@)),
                Some(Err(err)) => self@ == AllocView::Finished(Err(err)),
                None => !(self@ is Finished),
            },
    {
        match self {
            Allocation::Finished(outcome) => Some(outcome),
            _ => None,
        }
    }
}

} // verus!
