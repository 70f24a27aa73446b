pub mod messages;

use vstd::prelude::*;

use self::messages::{
    Heartbeat, HeartbeatAck, MissionAccept, MissionAcceptAck, MissionFinished, MissionFinishedAck,
    MissionRequest, MissionUpdate, Register, RegisterAck, Unregister, UnregisterAck,
};

verus! {

/// The messages of the Serpe MAVLink dialect exchanged between the
/// orchestrator (ground control station) and the agents (drones).
#[derive(Clone, Copy, Debug, PartialEq, Eq, Structural)]
pub enum SerpeDialect {
    Register(Register),
    RegisterAck(RegisterAck),
    Unregister(Unregister),
    UnregisterAck(UnregisterAck),
    Heartbeat(Heartbeat),
    HeartbeatAck(HeartbeatAck),
    MissionRequest(MissionRequest),
    MissionAccept(MissionAccept),
    MissionAcceptAck(MissionAcceptAck),
    MissionUpdate(MissionUpdate),
    MissionFinished(MissionFinished),
    MissionFinishedAck(MissionFinishedAck),
}

/// Messages that only an agent may originate and that the orchestrator keeps
/// in a session's snapshot for the systems of the current tick.
pub open spec fn is_agent_report(m: SerpeDialect) -> bool {
    ||| m is Heartbeat
    ||| m is MissionAccept
    ||| m is MissionUpdate
    ||| m is MissionFinished
}

} // verus!
