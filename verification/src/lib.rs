//! Verified core of the Serpe drone orchestrator: session bookkeeping,
//! MAVLink system-id allocation, per-connection message handling and the
//! small decision procedures that the server's scheduling loop runs.
pub mod channel;
pub mod config;
pub mod orchestrator;
pub mod dialects;
pub mod io;
