use vstd::prelude::*;

verus! {

/// Settings of the agents' TCP endpoint.
#[derive(Copy, Clone, Debug)]
pub struct CommunicationConfiguration {
    pub port: u16,
}

/// Settings of the diagnostic HTTP interface.
#[derive(Clone, Debug)]
pub struct DiagnosticConfiguration {
    pub enabled: bool,
    pub port: u16,
    pub host: String,
    pub use_permissive_cors: bool,
    pub concurrent_requests: usize,
    pub buffer_size: usize,
    pub rate_limit: u64,
}

} // verus!
