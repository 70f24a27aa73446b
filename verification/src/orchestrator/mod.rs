pub mod communication;
pub mod diagnostic;
pub mod domain;
pub mod heartbeat;
pub mod misc;
pub mod mission;
pub mod systems;
