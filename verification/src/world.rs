//! Many requests at one store.
//!
//! A [`World`] is a table and the requests that are under way. Requests run
//! side by side: at each [`Move`] one of them, any one, has its pending
//! query answered by the store and takes the reply. A run is any sequence
//! of moves, so what holds of every run holds however the requests are
//! interleaved.

use vstd::prelude::*;
use crate::create::{alloc_advance, alloc_query, AllocView};
use crate::redirect::{resolve_advance, resolve_query, ResolveView};
use crate::store::{serve, Table};

verus! {

/// The store and the requests under way.
pub struct World {
    pub table: Table,
    pub creates: Seq<AllocView>,
    pub resolves: Seq<ResolveView>,
}

/// One request has its query answered. `up` tells whether the store is in
/// order at that moment; `candidate` is the slug that chance holds ready
/// for an allocation that needs a new one.
pub enum Move {
    Create { who: int, up: bool, candidate: Seq<char> },
    Resolve { who: int, up: bool },
}

/// The world after one move. A move of a request that is over, or that
/// does not exist, changes nothing.
pub open spec fn after(w: World, m: Move) -> World {
    match m {
        Move::Create { who, up, candidate } => {
            if 0 <= who < w.creates.len() && alloc_query(w.creates[who]).is_some() {
                let served = serve(w.table, alloc_query(w.creates[who]).unwrap(), up);
                World {
                    table: served.0,
                    creates: w.creates.update(
                        who,
                        alloc_advance(w.creates[who], served.1, candidate),
                    ),
                    resolves: w.resolves,
                }
            } else {
                w
            }
        },
        Move::Resolve { who, up } => {
            if 0 <= who < w.resolves.len() && resolve_query(w.resolves[who]).is_some() {
                let served = serve(w.table, resolve_query(w.resolves[who]).unwrap(), up);
                World {
                    table: served.0,
                    creates: w.creates,
                    resolves: w.resolves.update(who, resolve_advance(w.resolves[who], served.1)),
                }
            } else {
                w
            }
        },
    }
}

/// The world after a sequence of moves.
pub open spec fn run(w: World, moves: Seq<Move>) -> World
    decreases moves.len(),
{
    if moves.len() == 0 {
        w
    } else {
        after(run(w, moves.drop_last()), moves.last())
    }
}

/// Whether the store is in order at every move of an allocation.
pub open spec fn creates_served(moves: Seq<Move>) -> bool {
    forall|k: int| 0 <= k < moves.len() && (#[trigger] moves[k]) is Create ==> moves[k]->Create_up
}

/// Whether the store is in order at every move of a resolution.
pub open spec fn resolves_served(moves: Seq<Move>) -> bool {
    forall|k: int| 0 <= k < moves.len() && (#[trigger] moves[k]) is Resolve ==> moves[k]->Resolve_up
}

/// Whether every allocation is over.
pub open spec fn creates_over(w: World) -> bool {
    forall|i: int| 0 <= i < w.creates.len() ==> (#[trigger] w.creates[i]) is Finished
}

/// Whether every resolution is over.
pub open spec fn resolves_over(w: World) -> bool {
    forall|j: int| 0 <= j < w.resolves.len() ==> (#[trigger] w.resolves[j]) is Finished
}

} // verus!
