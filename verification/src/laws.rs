//! What holds of one request, whatever the store replies.
//!
//! Each law follows a request from its start through the replies it takes
//! ([`alloc_run`], [`resolve_run`]), or through its first queries at an
//! honest store ([`serve`]).

use vstd::prelude::*;
use crate::create::{alloc_advance, alloc_begin, alloc_query, AllocView, ProposalView, MAX_TRIES};
use crate::error::UrlErr;
use crate::redirect::{resolve_advance, resolve_begin, resolve_query, ResolveView};
use crate::slug::is_generated;
use crate::store::{leaves_free, serve, QueryView, ReplyView, Table};

verus! {

/// A destination that was found is handed out whatever becomes of the
/// count: with the mapping in the table and the lookup answered, the
/// resolution ends with the mapping's destination on every reply to the
/// count, a failure included.
pub proof fn destination_despite_lost_count(t: Table, slug: Seq<char>, reply: ReplyView)
    requires
        t.contains_key(slug),
    ensures
        ({
            let found = resolve_advance(
                resolve_begin(slug),
                serve(t, resolve_query(resolve_begin(slug)).unwrap(), true).1,
            );
            &&& resolve_query(found) == Some(QueryView::Bump(slug))
            &&& resolve_advance(found, reply) is Finished
            &&& resolve_advance(found, reply)->outcome == Ok::<Seq<char>, UrlErr>(t[slug].url)
        }),
{
}

/// A slug that is taken is refused: an allocation that asks for it ends
/// with `SlugOccupied` on the store's first reply, whether the store is in
/// order or not, and the table is as it was.
pub proof fn taken_slug_is_refused(
    t: Table,
    url: Seq<char>,
    slug: Seq<char>,
    author_ip: Seq<char>,
    up: bool,
    candidate: Seq<char>,
)
    requires
        t.contains_key(slug),
    ensures
        ({
            let asked = alloc_begin(url, Some(slug), author_ip, candidate);
            let served = serve(t, alloc_query(asked).unwrap(), up);
            &&& served.0 == t
            &&& alloc_advance(asked, served.1, candidate) == AllocView::Finished(
                Err(UrlErr::SlugOccupied),
            )
        }),
{
}

/// An allocation and the replies it has taken, each with the slug that
/// chance held ready at that point.
pub open spec fn alloc_run(a: AllocView, steps: Seq<(ReplyView, Seq<char>)>) -> AllocView
    decreases steps.len(),
{
    if steps.len() == 0 {
        a
    } else {
        alloc_advance(alloc_run(a, steps.drop_last()), steps.last().0, steps.last().1)
    }
}

/// Whether none of the replies leaves the slug free.
pub open spec fn all_taken(steps: Seq<(ReplyView, Seq<char>)>) -> bool {
    forall|k: int| 0 <= k < steps.len() ==> !leaves_free((#[trigger] steps[k]).0)
}

/// The retry budget is ten, no fewer and no more. An allocation without a
/// slug from the caller, told each time that its proposal is taken, goes
/// on asking whether the next one is free, and asks nothing else, until
/// the tenth such reply; on that one it ends with `SlugTooManyTries`. It
/// has then put ten queries, none of them an insert.
pub proof fn ten_tries(
    url: Seq<char>,
    author_ip: Seq<char>,
    first: Seq<char>,
    steps: Seq<(ReplyView, Seq<char>)>,
)
    requires
        steps.len() <= MAX_TRIES,
        all_taken(steps),
    ensures
        ({
            let reached = alloc_run(alloc_begin(url, None, author_ip, first), steps);
            if steps.len() < MAX_TRIES {
                &&& reached == AllocView::Probing(
                    ProposalView {
                        slug: if steps.len() == 0 {
                            first
                        } else {
                            steps.last().1
                        },
                        url,
                        author_ip,
                        chosen: false,
                        tries: steps.len() + 1,
                    },
                )
                &&& alloc_query(reached) is Some
                &&& alloc_query(reached)->0 is Find
            } else {
                reached == AllocView::Finished(Err(UrlErr::SlugTooManyTries))
            }
        }),
    decreases steps.len(),
{
    if steps.len() > 0 {
        ten_tries(url, author_ip, first, steps.drop_last());
    }
}

/// Whether every slug that chance holds ready is of the generated form.
pub open spec fn all_generated(steps: Seq<(ReplyView, Seq<char>)>) -> bool {
    forall|k: int| 0 <= k < steps.len() ==> is_generated((#[trigger] steps[k]).1)
}

/// An allocation without a slug from the caller proposes generated slugs
/// only, and never more than ten of them: whatever the store replies, the
/// slug it is asking about, inserting or reading back is of the generated
/// form, and it is the first to the tenth that it has proposed.
pub proof fn proposals_are_generated(
    url: Seq<char>,
    author_ip: Seq<char>,
    first: Seq<char>,
    steps: Seq<(ReplyView, Seq<char>)>,
)
    requires
        is_generated(first),
        all_generated(steps),
    ensures
        match alloc_run(alloc_begin(url, None, author_ip, first), steps) {
            AllocView::Probing(p) => is_generated(p.slug) && !p.chosen && 1 <= p.tries
                <= MAX_TRIES,
            AllocView::Writing(p) => is_generated(p.slug) && !p.chosen && 1 <= p.tries
                <= MAX_TRIES,
            AllocView::Reading(slug) => is_generated(slug),
            AllocView::Finished(_) => true,
        },
    decreases steps.len(),
{
    if steps.len() > 0 {
        proposals_are_generated(url, author_ip, first, steps.drop_last());
    }
}

/// How many more replies the allocation `a` can take, at most, before it
/// is over: three for its last proposal, two for each one that it may
/// still replace.
pub open spec fn alloc_fuel(a: AllocView) -> nat {
    match a {
        AllocView::Probing(p) => if p.chosen || p.tries >= MAX_TRIES {
            3
        } else {
            (2 * (MAX_TRIES - p.tries) + 3) as nat
        },
        AllocView::Writing(p) => if p.chosen || p.tries >= MAX_TRIES {
            2
        } else {
            (2 * (MAX_TRIES - p.tries) + 2) as nat
        },
        AllocView::Reading(_) => 1,
        AllocView::Finished(_) => 0,
    }
}

/// Each reply brings an allocation that is not over closer to its end,
/// whatever the store replies and whatever slugs chance holds ready.
pub proof fn allocation_nears_end(a: AllocView, steps: Seq<(ReplyView, Seq<char>)>)
    ensures
        alloc_run(a, steps) is Finished || alloc_fuel(alloc_run(a, steps)) + steps.len()
            <= alloc_fuel(a),
    decreases steps.len(),
{
    if steps.len() > 0 {
        allocation_nears_end(a, steps.drop_last());
    }
}

/// Every allocation comes to an end: one that asks for a slug is over
/// after three replies, one that does not after twenty-one, whatever the
/// store replies and whatever slugs chance holds ready.
pub proof fn allocation_ends(
    url: Seq<char>,
    slug: Option<Seq<char>>,
    author_ip: Seq<char>,
    first: Seq<char>,
    steps: Seq<(ReplyView, Seq<char>)>,
)
    requires
        steps.len() >= if slug.is_some() {
            3nat
        } else {
            21nat
        },
    ensures
        alloc_run(alloc_begin(url, slug, author_ip, first), steps) is Finished,
{
    allocation_nears_end(alloc_begin(url, slug, author_ip, first), steps);
}

/// A resolution and the replies it has taken.
pub open spec fn resolve_run(r: ResolveView, replies: Seq<ReplyView>) -> ResolveView
    decreases replies.len(),
{
    if replies.len() == 0 {
        r
    } else {
        resolve_advance(resolve_run(r, replies.drop_last()), replies.last())
    }
}

/// Every resolution is over after two replies, whatever they are.
pub proof fn resolution_ends(slug: Seq<char>, replies: Seq<ReplyView>)
    requires
        replies.len() >= 2,
    ensures
        resolve_run(resolve_begin(slug), replies) is Finished,
    decreases replies.len(),
{
    if replies.len() > 2 {
        resolution_ends(slug, replies.drop_last());
    } else {
        reveal_with_fuel(resolve_run, 3);
        assert(replies.drop_last().drop_last().len() == 0);
    }
}

/// A slug without a mapping leads nowhere: its resolution ends with
/// `NotFound` on the first reply of a store in order, and the table is as
/// it was.
pub proof fn missing_is_not_found(t: Table, slug: Seq<char>)
    requires
        !t.contains_key(slug),
    ensures
        ({
            let served = serve(t, resolve_query(resolve_begin(slug)).unwrap(), true);
            &&& served.0 == t
            &&& resolve_advance(resolve_begin(slug), served.1) == (ResolveView::Finished {
                outcome: Err(UrlErr::NotFound),
                counted: false,
            })
        }),
{
}

} // verus!
