use vstd::prelude::*;

verus! {

/// Questions the diagnostic HTTP interface asks of the orchestrator.
#[derive(Clone, Copy, Debug, PartialEq, Eq, Structural)]
pub enum DiagnosticRequest {
    ServerInformation,
    Environment,
    SessionCollection,
}

} // verus!
