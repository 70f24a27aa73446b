use vstd::prelude::*;

verus! {

/// Progress of a mission handed to an agent.
#[derive(PartialEq, Eq, Structural, Copy, Clone, Debug)]
pub enum MissionState {
    PROPOSED,
    ONGOING,
    FINISHED,
}

} // verus!
