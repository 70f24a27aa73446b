pub mod session;
pub mod state;

use vstd::prelude::*;

verus! {

pub type AgentID = u32;

pub type SessionID = u32;

/// MAVLink system id of an agent; 0 is the ground control station itself.
pub type SystemID = u8;

/// `std::time::Instant` is carried through the library unchanged: nothing in
/// the verified code reads the time it holds.
#[verifier::external_type_specification]
#[verifier::external_body]
pub struct ExInstant(std::time::Instant);

/// Life-cycle of the orchestrator process.
#[derive(Debug, Clone, Copy, PartialEq, Eq, Structural)]
pub enum OrchestratorState {
    Booting,
    Running,
    Stopping,
}

pub open spec fn orchestrator_state_text(state: OrchestratorState) -> Seq<char> {
    match state {
        OrchestratorState::Booting => "BOOTING"@,
        OrchestratorState::Running => "RUNNING"@,
        OrchestratorState::Stopping => "STOPPING"@,
    }
}

impl OrchestratorState {
    /// Upper-case name shown by the diagnostic interface.
    pub fn to_string(&self) -> (text: String)
        ensures
            text@ == orchestrator_state_text(*self),
    {
        match self {
            OrchestratorState::Booting => "BOOTING".to_owned(),
            OrchestratorState::Running => "RUNNING".to_owned(),
            OrchestratorState::Stopping => "STOPPING".to_owned(),
        }
    }
}

impl Default for OrchestratorState {
    /// A freshly started orchestrator is booting.
    fn default() -> (state: Self)
        ensures
            state == OrchestratorState::Booting,
    {
        OrchestratorState::Booting
    }
}

/// What a registered agent is currently doing.
#[derive(Debug, Clone, Copy, PartialEq, Eq, Structural)]
pub enum SessionStatus {
    Idle,
}

pub open spec fn session_status_text(status: SessionStatus) -> Seq<char> {
    match status {
        SessionStatus::Idle => "IDLE"@,
    }
}

impl SessionStatus {
    /// Upper-case name shown by the diagnostic interface.
    pub fn to_string(&self) -> (text: String)
        ensures
            text@ == session_status_text(*self),
    {
        match self {
            SessionStatus::Idle => "IDLE".to_owned(),
        }
    }
}

impl Default for SessionStatus {
    fn default() -> (status: Self)
        ensures
            status == SessionStatus::Idle,
    {
        SessionStatus::Idle
    }
}

/// Identity of the agent behind one registered session.
#[derive(Debug, Clone, Copy, PartialEq, Eq, Structural)]
pub struct SessionInformation {
    pub session_id: SessionID,
    pub agent_id: AgentID,
    pub session_status: SessionStatus,
}

impl Default for SessionInformation {
    fn default() -> (info: Self)
        ensures
            info.session_id == 0,
            info.agent_id == 0,
            info.session_status == SessionStatus::Idle,
    {
        SessionInformation { session_id: 0, agent_id: 0, session_status: SessionStatus::Idle }
    }
}

/// Process-wide facts reported by the diagnostic interface.
pub struct GenericResource {
    pub version: String,
    pub state: OrchestratorState,
    pub start_time: std::time::Instant,
}

} // verus!
