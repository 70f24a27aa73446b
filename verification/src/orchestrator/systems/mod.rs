pub mod diagnostic;

use vstd::prelude::*;

use crate::orchestrator::domain::state::RuntimeState;

verus! {

/// A unit of work of the orchestrator's main loop: it first observes the
/// runtime state, then may change it.
pub trait System {
    fn observe(&mut self, state: &RuntimeState);

    fn affect(&mut self, state: &mut RuntimeState);
}

} // verus!
