use vstd::prelude::*;

verus! {

/// Proof that a request comes from a registered session.
pub struct SessionAuthorization {
    pub session_id: u64,
}

/// Requests an agent can make of the orchestrator.
pub enum CommunicationRequests {
    Register { drone_id: u64 },
    Unregister { auth: SessionAuthorization },
    Heartbeat { auth: SessionAuthorization },
}

pub enum CommunicationResponses {
    Acknowledge,
}

/// Messages the orchestrator sends to agents.
pub enum OutgoingMessages {
    Check,
}

/// Messages the orchestrator receives from agents.
pub enum IncomingMessages {
    Acknowledge,
}

} // verus!
