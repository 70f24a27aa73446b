pub mod messages;

use vstd::prelude::*;

use crate::orchestrator::domain::session::{Session, SessionState};
use crate::orchestrator::domain::state::RuntimeState;

verus! {

broadcast use vstd::std_specs::hash::group_hash_axioms;

/// The (session id, state) pairs of every registered session, each exactly
/// once, in the map's iteration order.
pub fn on_session_collection(state: &RuntimeState) -> (sessions: Vec<(u64, SessionState)>)
    ensures
        sessions@.len() == state.session_map().len(),
        forall|i: int|
            0 <= i < sessions@.len() ==> state.session_map().contains_key(#[trigger] sessions@[i].0)
                && state.session_map()[sessions@[i].0].state == sessions@[i].1,
        forall|id: u64|
            #[trigger] state.session_map().contains_key(id) ==> exists|i: int|
                0 <= i < sessions@.len() && #[trigger] sessions@[i].0 == id,
        forall|i: int, j: int|
            0 <= i < j < sessions@.len() ==> #[trigger] sessions@[i].0 != #[trigger] sessions@[j].0,
{
    let table = state.session_table();
    let mut sessions: Vec<(u64, SessionState)> = Vec::new();
    let entries = table.iter();
    let ghost pairs = vstd::std_specs::iter::IteratorSpec::remaining(&entries);
    proof {
        assert(pairs == vstd::std_specs::iter::IteratorSpec::remaining(&vstd::std_specs::hash::spec_hash_map_iter(table)));
    }
    for entry in it: entries
        invariant
            it.seq() == pairs,
            sessions@.len() == it.index(),
            forall|i: int|
                0 <= i < it.index() ==> #[trigger] sessions@[i] == (*it.seq()[i].0, it.seq()[i].1.state),
    {
        let (id, session) = entry;
        sessions.push((*id, session.state));
    }
    let ghost m = table@;
    assert forall|id: u64| #[trigger] m.contains_key(id) implies exists|i: int|
        0 <= i < sessions@.len() && #[trigger] sessions@[i].0 == id by {
        assert(pairs.contains((&id, &m[id])));
        let j = choose|j: int| 0 <= j < pairs.len() && pairs[j] == (&id, &m[id]);
        assert(sessions@[j].0 == id);
    }
    assert forall|i: int, j: int| 0 <= i < j < sessions@.len() implies #[trigger] sessions@[i].0
        != #[trigger] sessions@[j].0 by {
        if sessions@[i].0 == sessions@[j].0 {
            assert(m.contains_key(*pairs[i].0));
            assert(m.contains_key(*pairs[j].0));
            assert(pairs[i] == pairs[j]);
        }
    }
    sessions
}

} // verus!
