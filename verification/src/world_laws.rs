//! What holds of every run of many requests at one store.
//!
//! The laws here are about the requests of this library at an honest store
//! ([`serve`]), in any number and in any interleaving ([`run`]).

use vstd::prelude::*;
use crate::create::{alloc_begin, alloc_query, AllocView, ProposalView};
use crate::error::UrlErr;
use crate::models::{fresh_row, UrlView};
use crate::redirect::{resolve_advance, resolve_begin, resolve_query, ResolveView};
use crate::store::{serve, table_ok, used_once, QueryView, Table};
use crate::world::{
    after, creates_over, creates_served, resolves_over, resolves_served, run, Move, World,
};

verus! {

/// Whether the table `later` still holds every mapping of `earlier`, with
/// its slug, destination and creator address as they were and with a usage
/// count that is no lower.
pub open spec fn keeps(earlier: Table, later: Table) -> bool {
    forall|slug: Seq<char>| #[trigger]
        earlier.contains_key(slug) ==> {
            &&& later.contains_key(slug)
            &&& later[slug].slug == earlier[slug].slug
            &&& later[slug].url == earlier[slug].url
            &&& later[slug].author_ip == earlier[slug].author_ip
            &&& later[slug].usage_count >= earlier[slug].usage_count
        }
}

/// Whether a request of this library can put the query: what it inserts
/// has not been used yet.
pub open spec fn can_be_asked(query: QueryView) -> bool {
    query matches QueryView::Insert(row) ==> row.usage_count == 0
}

/// Whatever a request asks, the store keeps its mappings: none is removed
/// or filed under another slug, no destination or creator address changes,
/// no usage count falls.
pub proof fn serve_keeps(t: Table, query: QueryView, up: bool)
    requires
        table_ok(t),
        can_be_asked(query),
    ensures
        table_ok(serve(t, query, up).0),
        keeps(t, serve(t, query, up).0),
{
}

/// One move keeps the table in order and its mappings as they were.
pub proof fn move_keeps(w: World, m: Move)
    requires
        table_ok(w.table),
    ensures
        table_ok(after(w, m).table),
        keeps(w.table, after(w, m).table),
{
    match m {
        Move::Create { who, up, candidate } => {
            if 0 <= who < w.creates.len() && alloc_query(w.creates[who]).is_some() {
                serve_keeps(w.table, alloc_query(w.creates[who]).unwrap(), up);
            }
        },
        Move::Resolve { who, up } => {
            if 0 <= who < w.resolves.len() && resolve_query(w.resolves[who]).is_some() {
                serve_keeps(w.table, resolve_query(w.resolves[who]).unwrap(), up);
            }
        },
    }
}

/// In every run, whatever the requests and however they interleave, the
/// table stays in order, so that no two mappings share a slug, and a
/// mapping, once there, stays: its slug, destination and creator address
/// never change, and its usage count never falls.
pub proof fn mappings_endure(w: World, moves: Seq<Move>)
    requires
        table_ok(w.table),
    ensures
        table_ok(run(w, moves).table),
        keeps(w.table, run(w, moves).table),
    decreases moves.len(),
{
    if moves.len() > 0 {
        mappings_endure(w, moves.drop_last());
        move_keeps(run(w, moves.drop_last()), moves.last());
    }
}

/// The slug that an allocation has made its own: it has inserted the
/// mapping, or has it back from the store.
pub open spec fn secured(a: AllocView) -> Option<Seq<char>> {
    match a {
        AllocView::Reading(slug) => Some(slug),
        AllocView::Finished(Ok(row)) => Some(row.slug),
        _ => None,
    }
}

/// Whether no allocation has made a slug its own yet, as when all of them
/// are at their start.
pub open spec fn none_secured(w: World) -> bool {
    forall|i: int| 0 <= i < w.creates.len() ==> secured(#[trigger] w.creates[i]).is_none()
}

/// Whether the mapping `row`, as an allocation got it back, is in the
/// table: under its slug, with its destination and creator address, and
/// used no less than the allocation saw.
pub open spec fn persisted(t: Table, row: UrlView) -> bool {
    &&& t.contains_key(row.slug)
    &&& t[row.slug].url == row.url
    &&& t[row.slug].author_ip == row.author_ip
    &&& t[row.slug].usage_count >= row.usage_count
}

/// Whether the allocations of `w` that have a slug of their own have it in
/// the table, each a different one.
pub open spec fn slugs_apart(w: World) -> bool {
    &&& table_ok(w.table)
    &&& forall|i: int|
        0 <= i < w.creates.len() ==> match #[trigger] w.creates[i] {
            AllocView::Reading(slug) => w.table.contains_key(slug),
            AllocView::Finished(Ok(row)) => persisted(w.table, row),
            _ => true,
        }
    &&& forall|i: int, j: int|
        0 <= i < w.creates.len() && 0 <= j < w.creates.len() && i != j && secured(
            #[trigger] w.creates[i],
        ).is_some() && secured(#[trigger] w.creates[j]).is_some() ==> secured(w.creates[i])
            != secured(w.creates[j])
}

/// One move leaves the slugs apart.
pub proof fn move_keeps_apart(w: World, m: Move)
    requires
        slugs_apart(w),
    ensures
        slugs_apart(after(w, m)),
{
    let w2 = after(w, m);
    move_keeps(w, m);
    assert forall|i: int| 0 <= i < w2.creates.len() implies match #[trigger] w2.creates[i] {
        AllocView::Reading(slug) => w2.table.contains_key(slug),
        AllocView::Finished(Ok(row)) => persisted(w2.table, row),
        _ => true,
    } by {
        let before = w.creates[i];
        assert(secured(before).is_some() ==> w.table.contains_key(secured(before).unwrap()));
    }
    assert forall|i: int, j: int|
        0 <= i < w2.creates.len() && 0 <= j < w2.creates.len() && i != j && secured(
            #[trigger] w2.creates[i],
        ).is_some() && secured(#[trigger] w2.creates[j]).is_some() implies secured(w2.creates[i])
        != secured(w2.creates[j]) by {
        let a = w.creates[i];
        let b = w.creates[j];
        assert(secured(a).is_some() ==> w.table.contains_key(secured(a).unwrap()));
        assert(secured(b).is_some() ==> w.table.contains_key(secured(b).unwrap()));
    }
}

/// No two allocations succeed with the same slug. In every run from a
/// world in which no allocation has a slug of its own yet, whatever the
/// requests ask for, however they interleave and whenever the store
/// fails, the allocations that end well hold mappings with different
/// slugs, and each of those mappings is in the table.
pub proof fn slugs_stay_unique(w: World, moves: Seq<Move>)
    requires
        table_ok(w.table),
        none_secured(w),
    ensures
        slugs_apart(run(w, moves)),
        forall|i: int, j: int|
            #![trigger run(w, moves).creates[i], run(w, moves).creates[j]]
            0 <= i < j < run(w, moves).creates.len() ==> match (
                run(w, moves).creates[i],
                run(w, moves).creates[j],
            ) {
                (AllocView::Finished(Ok(one)), AllocView::Finished(Ok(other))) => one.slug
                    != other.slug,
                _ => true,
            },
        forall|i: int|
            0 <= i < run(w, moves).creates.len() ==> match #[trigger] run(w, moves).creates[i] {
                AllocView::Finished(Ok(row)) => persisted(run(w, moves).table, row),
                _ => true,
            },
    decreases moves.len(),
{
    if moves.len() > 0 {
        slugs_stay_unique(w, moves.drop_last());
        move_keeps_apart(run(w, moves.drop_last()), moves.last());
    } else {
        assert forall|i: int| 0 <= i < w.creates.len() implies match #[trigger] w.creates[i] {
            AllocView::Reading(slug) => w.table.contains_key(slug),
            AllocView::Finished(Ok(row)) => persisted(w.table, row),
            _ => true,
        } by {
            assert(secured(w.creates[i]).is_none());
        }
    }
    let end = run(w, moves);
    assert forall|i: int, j: int|
        #![trigger end.creates[i], end.creates[j]]
        0 <= i < j < end.creates.len() implies match (end.creates[i], end.creates[j]) {
        (AllocView::Finished(Ok(one)), AllocView::Finished(Ok(other))) => one.slug != other.slug,
        _ => true,
    } by {
        assert(secured(end.creates[i]).is_some() && secured(end.creates[j]).is_some() ==> secured(
            end.creates[i],
        ) != secured(end.creates[j]));
    }
}

/// Whether every allocation of `w` is at its start and asks for `slug`.
pub open spec fn all_ask_for(w: World, slug: Seq<char>) -> bool {
    forall|i: int|
        0 <= i < w.creates.len() ==> match #[trigger] w.creates[i] {
            AllocView::Probing(p) => p.chosen && p.slug == slug,
            _ => false,
        }
}

/// Whether the allocation `a`, which began as `start`, has won `slug`: it
/// ended well, with a mapping under that slug that carries its own
/// destination and creator address.
pub open spec fn has_won(start: AllocView, a: AllocView, slug: Seq<char>) -> bool {
    match (start, a) {
        (AllocView::Probing(p), AllocView::Finished(Ok(row))) => row.slug == slug && row.url
            == p.url && row.author_ip == p.author_ip,
        _ => false,
    }
}

/// Where a contest for `slug` stands, some moves after `start`.
spec fn contest(start: World, w: World, slug: Seq<char>) -> bool {
    &&& w.creates.len() == start.creates.len()
    &&& all_ask_for(start, slug)
    &&& slugs_apart(w)
    &&& forall|i: int|
        0 <= i < w.creates.len() ==> match (start.creates[i], #[trigger] w.creates[i]) {
            (AllocView::Probing(p), AllocView::Probing(q)) => q.chosen && q.slug == slug && q.url
                == p.url && q.author_ip == p.author_ip,
            (AllocView::Probing(p), AllocView::Writing(q)) => q.chosen && q.slug == slug && q.url
                == p.url && q.author_ip == p.author_ip,
            (AllocView::Probing(p), AllocView::Reading(held)) => held == slug
                && w.table[slug].url == p.url && w.table[slug].author_ip == p.author_ip,
            (_, AllocView::Finished(Ok(row))) => has_won(start.creates[i], w.creates[i], slug),
            (_, AllocView::Finished(Err(err))) => err == UrlErr::SlugOccupied
                && w.table.contains_key(slug),
            _ => false,
        }
    &&& w.table.contains_key(slug) ==> exists|i: int|
        0 <= i < w.creates.len() && secured(#[trigger] w.creates[i]) == Some(slug)
}

/// One move of a contest, with the store in order for the allocations.
proof fn move_keeps_contest(start: World, w: World, m: Move, slug: Seq<char>)
    requires
        contest(start, w, slug),
        m is Create ==> m->Create_up,
    ensures
        contest(start, after(w, m), slug),
{
    let w2 = after(w, m);
    move_keeps_apart(w, m);
    move_keeps(w, m);
    assert forall|i: int| 0 <= i < w2.creates.len() implies match (
        start.creates[i],
        #[trigger] w2.creates[i],
    ) {
        (AllocView::Probing(p), AllocView::Probing(q)) => q.chosen && q.slug == slug && q.url
            == p.url && q.author_ip == p.author_ip,
        (AllocView::Probing(p), AllocView::Writing(q)) => q.chosen && q.slug == slug && q.url
            == p.url && q.author_ip == p.author_ip,
        (AllocView::Probing(p), AllocView::Reading(held)) => held == slug && w2.table[slug].url
            == p.url && w2.table[slug].author_ip == p.author_ip,
        (_, AllocView::Finished(Ok(row))) => has_won(start.creates[i], w2.creates[i], slug),
        (_, AllocView::Finished(Err(err))) => err == UrlErr::SlugOccupied
            && w2.table.contains_key(slug),
        _ => false,
    } by {
        let before = w.creates[i];
        assert(secured(before).is_some() ==> w.table.contains_key(secured(before).unwrap()));
    }
    if w2.table.contains_key(slug) {
        if w.table.contains_key(slug) {
            let holder = choose|i: int|
                0 <= i < w.creates.len() && secured(#[trigger] w.creates[i]) == Some(slug);
            assert(secured(w2.creates[holder]) == Some(slug));
        } else {
            let who = m->Create_who;
            assert(secured(w2.creates[who]) == Some(slug));
        }
    }
}

/// Every run of a contest, with the store in order for the allocations.
proof fn run_keeps_contest(w: World, moves: Seq<Move>, slug: Seq<char>)
    requires
        table_ok(w.table),
        !w.table.contains_key(slug),
        all_ask_for(w, slug),
        creates_served(moves),
    ensures
        contest(w, run(w, moves), slug),
    decreases moves.len(),
{
    if moves.len() > 0 {
        run_keeps_contest(w, moves.drop_last(), slug);
        move_keeps_contest(w, run(w, moves.drop_last()), moves.last(), slug);
    } else {
        assert forall|i: int| 0 <= i < w.creates.len() implies secured(
            #[trigger] w.creates[i],
        ).is_none() by {}
    }
}

/// Of the allocations that ask for the same free slug, exactly one wins.
/// Let any number of them, at least one, run side by side in any
/// interleaving, among any resolutions, with the store in order whenever
/// one of them moves. Once all are over, one of them has ended well, with
/// the slug and with its own destination and creator address, and every
/// other has ended with `SlugOccupied`.
pub proof fn one_winner(w: World, moves: Seq<Move>, slug: Seq<char>) -> (winner: int)
    requires
        table_ok(w.table),
        !w.table.contains_key(slug),
        w.creates.len() > 0,
        all_ask_for(w, slug),
        creates_served(moves),
        creates_over(run(w, moves)),
    ensures
        0 <= winner < w.creates.len() == run(w, moves).creates.len(),
        has_won(w.creates[winner], run(w, moves).creates[winner], slug),
        forall|j: int|
            0 <= j < w.creates.len() && j != winner ==> #[trigger] run(w, moves).creates[j]
                == AllocView::Finished(Err(UrlErr::SlugOccupied)),
{
    run_keeps_contest(w, moves, slug);
    let end = run(w, moves);
    assert(end.creates[0] is Finished);
    assert(end.table.contains_key(slug));
    let winner = choose|i: int|
        0 <= i < end.creates.len() && secured(#[trigger] end.creates[i]) == Some(slug);
    assert(end.creates[winner] is Finished);
    assert forall|j: int| 0 <= j < w.creates.len() && j != winner implies #[trigger] end.creates[j]
        == AllocView::Finished(Err(UrlErr::SlugOccupied)) by {
        assert(end.creates[j] is Finished);
        assert(secured(end.creates[j]).is_some() ==> secured(end.creates[j]) != secured(
            end.creates[winner],
        ));
    }
    winner
}

/// Whether the resolution `r` ended with its use counted.
pub open spec fn is_counted(r: ResolveView) -> bool {
    match r {
        ResolveView::Finished { counted, .. } => counted,
        _ => false,
    }
}

/// How many of the resolutions ended with their use counted.
pub open spec fn counted_uses(rs: Seq<ResolveView>) -> nat
    decreases rs.len(),
{
    if rs.len() == 0 {
        0
    } else {
        counted_uses(rs.drop_last()) + if is_counted(rs.last()) {
            1nat
        } else {
            0nat
        }
    }
}

/// Replacing one resolution changes the number of counted uses by that
/// resolution's part in it.
pub proof fn counted_uses_update(rs: Seq<ResolveView>, j: int, r: ResolveView)
    requires
        0 <= j < rs.len(),
    ensures
        counted_uses(rs.update(j, r)) + (if is_counted(rs[j]) {
            1nat
        } else {
            0nat
        }) == counted_uses(rs) + (if is_counted(r) {
            1nat
        } else {
            0nat
        }),
    decreases rs.len(),
{
    if j == rs.len() - 1 {
        assert(rs.update(j, r).drop_last() == rs.drop_last());
    } else {
        counted_uses_update(rs.drop_last(), j, r);
        assert(rs.update(j, r).drop_last() == rs.drop_last().update(j, r));
    }
}

/// The number of counted uses lies between nothing and all, and reaches
/// those ends when none, or each, of the resolutions was counted.
pub proof fn counted_uses_bounds(rs: Seq<ResolveView>)
    ensures
        counted_uses(rs) <= rs.len(),
        (forall|j: int| 0 <= j < rs.len() ==> !is_counted(#[trigger] rs[j])) ==> counted_uses(rs)
            == 0,
        (forall|j: int| 0 <= j < rs.len() ==> is_counted(#[trigger] rs[j])) ==> counted_uses(rs)
            == rs.len(),
    decreases rs.len(),
{
    if rs.len() > 0 {
        counted_uses_bounds(rs.drop_last());
        assert forall|j: int| 0 <= j < rs.drop_last().len() implies rs.drop_last()[j]
            == rs[j] by {}
        if forall|j: int| 0 <= j < rs.len() ==> !is_counted(#[trigger] rs[j]) {
            assert forall|j: int| 0 <= j < rs.drop_last().len() implies !is_counted(
                #[trigger] rs.drop_last()[j],
            ) by {
                assert(rs.drop_last()[j] == rs[j]);
            }
        }
        if forall|j: int| 0 <= j < rs.len() ==> is_counted(#[trigger] rs[j]) {
            assert forall|j: int| 0 <= j < rs.drop_last().len() implies is_counted(
                #[trigger] rs.drop_last()[j],
            ) by {
                assert(rs.drop_last()[j] == rs[j]);
            }
        }
    }
}

/// Whether every resolution of `w` is at its start and follows `slug`.
pub open spec fn all_follow(w: World, slug: Seq<char>) -> bool {
    forall|j: int| 0 <= j < w.resolves.len() ==> #[trigger] w.resolves[j] == resolve_begin(slug)
}

/// Where the resolutions of `slug` stand, some moves after `start`. With
/// `served`, the store was in order at each of their moves.
spec fn tally(start: World, w: World, slug: Seq<char>, served: bool) -> bool {
    &&& table_ok(w.table)
    &&& start.table.contains_key(slug)
    &&& w.table.contains_key(slug)
    &&& w.resolves.len() == start.resolves.len()
    &&& w.table[slug].url == start.table[slug].url
    &&& w.table[slug].usage_count == start.table[slug].usage_count + counted_uses(w.resolves)
    &&& forall|j: int|
        0 <= j < w.resolves.len() ==> match #[trigger] w.resolves[j] {
            ResolveView::Looking { slug: sought } => sought == slug,
            ResolveView::Counting { slug: sought, url } => sought == slug && url
                == start.table[slug].url,
            ResolveView::Finished { outcome, counted } => served ==> counted && outcome == Ok::<
                Seq<char>,
                UrlErr,
            >(start.table[slug].url),
        }
}

/// One move keeps the tally.
proof fn move_keeps_tally(start: World, w: World, m: Move, slug: Seq<char>, served: bool)
    requires
        tally(start, w, slug, served),
        served && m is Resolve ==> m->Resolve_up,
    ensures
        tally(start, after(w, m), slug, served),
{
    let w2 = after(w, m);
    move_keeps(w, m);
    match m {
        Move::Create { who, up, candidate } => {},
        Move::Resolve { who, up } => {
            if 0 <= who < w.resolves.len() && resolve_query(w.resolves[who]).is_some() {
                let served_reply = serve(w.table, resolve_query(w.resolves[who]).unwrap(), up).1;
                counted_uses_update(
                    w.resolves,
                    who,
                    resolve_advance(w.resolves[who], served_reply),
                );
            }
        },
    }
}

/// Every run keeps the tally.
proof fn run_keeps_tally(w: World, moves: Seq<Move>, slug: Seq<char>, served: bool)
    requires
        table_ok(w.table),
        w.table.contains_key(slug),
        all_follow(w, slug),
        served ==> resolves_served(moves),
    ensures
        tally(w, run(w, moves), slug, served),
    decreases moves.len(),
{
    if moves.len() > 0 {
        run_keeps_tally(w, moves.drop_last(), slug, served);
        move_keeps_tally(w, run(w, moves.drop_last()), moves.last(), slug, served);
    } else {
        counted_uses_bounds(w.resolves);
    }
}

/// No use is lost and none is counted twice. Let any number of
/// resolutions follow the same slug, side by side in any interleaving,
/// among any allocations, the store failing whenever it does. At every
/// point of the run the mapping's usage count has grown by exactly the
/// number of resolutions that ended with their use counted.
pub proof fn uses_add_up(w: World, moves: Seq<Move>, slug: Seq<char>)
    requires
        table_ok(w.table),
        w.table.contains_key(slug),
        all_follow(w, slug),
    ensures
        run(w, moves).table.contains_key(slug),
        run(w, moves).table[slug].usage_count == w.table[slug].usage_count + counted_uses(
            run(w, moves).resolves,
        ),
{
    run_keeps_tally(w, moves, slug, false);
}

/// With the store in order, every use counts. Let `n` resolutions follow
/// the same slug, side by side in any interleaving, among any
/// allocations, with the store in order whenever one of them moves. Once
/// all are over, each has ended with the mapping's destination, and the
/// usage count has grown by exactly `n`.
pub proof fn every_use_counts(w: World, moves: Seq<Move>, slug: Seq<char>)
    requires
        table_ok(w.table),
        w.table.contains_key(slug),
        all_follow(w, slug),
        resolves_served(moves),
        resolves_over(run(w, moves)),
    ensures
        run(w, moves).resolves.len() == w.resolves.len(),
        run(w, moves).table.contains_key(slug),
        run(w, moves).table[slug].usage_count == w.table[slug].usage_count + w.resolves.len(),
        forall|j: int|
            0 <= j < w.resolves.len() ==> #[trigger] run(w, moves).resolves[j]
                == (ResolveView::Finished { outcome: Ok(w.table[slug].url), counted: true }),
{
    run_keeps_tally(w, moves, slug, true);
    let end = run(w, moves);
    assert forall|j: int| 0 <= j < w.resolves.len() implies #[trigger] end.resolves[j]
        == (ResolveView::Finished { outcome: Ok(w.table[slug].url), counted: true }) by {
        assert(end.resolves[j] is Finished);
    }
    counted_uses_bounds(end.resolves);
}

/// The world after the first allocation has moved `n` times, with the
/// store in order.
pub open spec fn create_moves(w: World, n: nat, candidate: Seq<char>) -> World
    decreases n,
{
    if n == 0 {
        w
    } else {
        after(
            create_moves(w, (n - 1) as nat, candidate),
            Move::Create { who: 0, up: true, candidate },
        )
    }
}

/// The world after the first resolution has moved `n` times, with the
/// store in order.
pub open spec fn resolve_moves(w: World, n: nat) -> World
    decreases n,
{
    if n == 0 {
        w
    } else {
        after(resolve_moves(w, (n - 1) as nat), Move::Resolve { who: 0, up: true })
    }
}

/// What was created is found. With the store in order, an allocation of
/// a free slug, asked for or made up, ends after three queries with the
/// mapping as the store holds it: the slug, the destination, the creator
/// address, and no use yet. A resolution of that slug then ends after two
/// queries with that destination, and the mapping has one use.
pub proof fn created_is_found(
    t: Table,
    url: Seq<char>,
    slug: Option<Seq<char>>,
    author_ip: Seq<char>,
    candidate: Seq<char>,
)
    requires
        !t.contains_key(
            match slug {
                Some(asked) => asked,
                None => candidate,
            },
        ),
    ensures
        ({
            let held = match slug {
                Some(asked) => asked,
                None => candidate,
            };
            let w = World {
                table: t,
                creates: seq![alloc_begin(url, slug, author_ip, candidate)],
                resolves: seq![resolve_begin(held)],
            };
            let created = create_moves(w, 3, candidate);
            let found = resolve_moves(created, 2);
            &&& created.table == t.insert(held, fresh_row(held, url, author_ip))
            &&& created.creates[0] == AllocView::Finished(Ok(fresh_row(held, url, author_ip)))
            &&& found.table == t.insert(held, used_once(fresh_row(held, url, author_ip)))
            &&& found.resolves[0] == (ResolveView::Finished { outcome: Ok(url), counted: true })
        }),
{
    let held = match slug {
        Some(asked) => asked,
        None => candidate,
    };
    let row = fresh_row(held, url, author_ip);
    let w = World {
        table: t,
        creates: seq![alloc_begin(url, slug, author_ip, candidate)],
        resolves: seq![resolve_begin(held)],
    };
    reveal_with_fuel(create_moves, 4);
    reveal_with_fuel(resolve_moves, 3);
    let w1 = create_moves(w, 1, candidate);
    assert(w1.creates[0] is Writing);
    let w2 = create_moves(w, 2, candidate);
    assert(w2.creates[0] == AllocView::Reading(held));
    assert(w2.table == t.insert(held, row));
    let w3 = create_moves(w, 3, candidate);
    assert(w3.table == w2.table);
    assert(w3.creates[0] == AllocView::Finished(Ok(row)));
    assert(w3.resolves[0] == resolve_begin(held));
    let w4 = resolve_moves(w3, 1);
    assert(w4.resolves[0] == (ResolveView::Counting { slug: held, url }));
    let w5 = resolve_moves(w3, 2);
    assert(w5.table =~= t.insert(held, used_once(row)));
}

/// The world of one allocation at the table `t`, with no other request.
pub open spec fn alone(t: Table, a: AllocView) -> World {
    World { table: t, creates: seq![a], resolves: Seq::empty() }
}

/// Whether the table `later` is the table `t` with the mapping of `p`
/// added under `slug`, a slug that `t` did not hold.
pub open spec fn added(t: Table, later: Table, slug: Seq<char>, p: ProposalView) -> bool {
    &&& !t.contains_key(slug)
    &&& later == t.insert(slug, fresh_row(slug, p.url, p.author_ip))
}

/// What one allocation, alone at the table `t` and begun as the proposal
/// `p`, has made of the table when it stands at `a`.
pub open spec fn left_behind(t: Table, p: ProposalView, a: AllocView, later: Table) -> bool {
    match a {
        AllocView::Probing(q) => later == t && q.url == p.url && q.author_ip == p.author_ip,
        AllocView::Writing(q) => later == t && q.url == p.url && q.author_ip == p.author_ip,
        AllocView::Reading(slug) => added(t, later, slug, p),
        AllocView::Finished(Ok(row)) => added(t, later, row.slug, p) && row == fresh_row(
            row.slug,
            p.url,
            p.author_ip,
        ),
        AllocView::Finished(Err(UrlErr::SlugOccupied)) => later == t,
        AllocView::Finished(Err(UrlErr::SlugTooManyTries)) => later == t,
        AllocView::Finished(Err(_)) => later == t || exists|slug: Seq<char>|
            #[trigger] added(t, later, slug, p),
    }
}

/// One allocation adds one mapping at most, and none when it is refused.
/// Alone at a table, whatever the store's failures and whatever slugs
/// chance holds ready, it leaves the table as it was until its insert is
/// carried out, and as it was for good when it ends with `SlugOccupied`
/// or `SlugTooManyTries`. When it ends well, the table has gained exactly
/// the mapping it returns: the slug, the destination and creator address
/// it was begun with, and no use. After a store failure the table is as
/// it was or has gained that one mapping.
pub proof fn lone_allocation(t: Table, p: ProposalView, moves: Seq<Move>)
    ensures
        run(alone(t, AllocView::Probing(p)), moves).creates.len() == 1,
        left_behind(
            t,
            p,
            run(alone(t, AllocView::Probing(p)), moves).creates[0],
            run(alone(t, AllocView::Probing(p)), moves).table,
        ),
    decreases moves.len(),
{
    let w = alone(t, AllocView::Probing(p));
    if moves.len() > 0 {
        lone_allocation(t, p, moves.drop_last());
        let before = run(w, moves.drop_last());
        let end = after(before, moves.last());
        assert(end == run(w, moves));
        assert(before.resolves.len() == 0) by {
            lone_has_no_resolution(t, p, moves.drop_last());
        }
        match before.creates[0] {
            AllocView::Reading(slug) => {
                assert(before.table.contains_key(slug));
                assert(before.table[slug] == fresh_row(slug, p.url, p.author_ip));
            },
            AllocView::Finished(Err(_)) => {
                if before.table != t {
                    let slug = choose|slug: Seq<char>| #[trigger] added(t, before.table, slug, p);
                    assert(added(t, end.table, slug, p));
                }
            },
            _ => {},
        }
    }
}

/// A world without resolutions stays without them.
proof fn lone_has_no_resolution(t: Table, p: ProposalView, moves: Seq<Move>)
    ensures
        run(alone(t, AllocView::Probing(p)), moves).resolves.len() == 0,
    decreases moves.len(),
{
    if moves.len() > 0 {
        lone_has_no_resolution(t, p, moves.drop_last());
    }
}

} // verus!
