//! Errors of an IPP client.
use vstd::prelude::*;

verus! {

/// What went wrong in an IPP client.
#[derive(Debug, PartialEq, Eq)]
pub enum IPPClientError {
    /// The client could not be set up (for instance, a bad printer URL).
    SetupError(String),
    /// A value could not be turned into bytes.
    ByteParsingError(String),
    /// A Print-Job request could not be prepared or sent.
    SendPrintJobError(String),
}

} // verus!
