use vstd::prelude::*;

verus! {

pub type SessionID = u64;

#[derive(Clone, Copy, Debug, PartialEq, Eq, Structural)]
pub enum SessionState {
    IDLE,
}

/// One agent session known to the runtime state.
#[derive(Clone, Copy, Debug, PartialEq, Eq, Structural)]
pub struct Session {
    pub session_id: SessionID,
    pub state: SessionState,
}

} // verus!
