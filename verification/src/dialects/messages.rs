use vstd::prelude::*;

verus! {

/// First message of every connection: an agent asks to join the network.
/// Coordinates travel as the bit pattern of IEEE-754 single-precision degrees.
#[derive(Clone, Copy, Debug, PartialEq, Eq, Structural)]
pub struct Register {
    pub agent_id: u32,
    pub longitude: u32,
    pub latitude: u32,
}

/// Answer to `Register`, carrying the MAVLink system id given to the agent.
#[derive(Clone, Copy, Debug, PartialEq, Eq, Structural)]
pub struct RegisterAck {
    pub system_id: u8,
}

#[derive(Clone, Copy, Debug, PartialEq, Eq, Structural)]
pub struct Unregister {}

#[derive(Clone, Copy, Debug, PartialEq, Eq, Structural)]
pub struct UnregisterAck {}

/// Periodic position report of an agent (bit patterns of `f32` degrees).
#[derive(Clone, Copy, Debug, PartialEq, Eq, Structural)]
pub struct Heartbeat {
    pub longitude: u32,
    pub latitude: u32,
}

#[derive(Clone, Copy, Debug, PartialEq, Eq, Structural)]
pub struct HeartbeatAck {}

#[derive(Clone, Copy, Debug, PartialEq, Eq, Structural)]
pub struct MissionRequest {}

#[derive(Clone, Copy, Debug, PartialEq, Eq, Structural)]
pub struct MissionAccept {}

#[derive(Clone, Copy, Debug, PartialEq, Eq, Structural)]
pub struct MissionAcceptAck {}

#[derive(Clone, Copy, Debug, PartialEq, Eq, Structural)]
pub struct MissionUpdate {}

#[derive(Clone, Copy, Debug, PartialEq, Eq, Structural)]
pub struct MissionFinished {}

#[derive(Clone, Copy, Debug, PartialEq, Eq, Structural)]
pub struct MissionFinishedAck {}

} // verus!
