use vstd::prelude::*;

verus! {

/// Questions the diagnostic interface asks of the runtime state.
#[derive(Clone, Copy, Debug, PartialEq, Eq, Structural)]
pub enum DiagnosticRequest {
    ServerInformation,
    GetSessionCollection,
}

} // verus!
