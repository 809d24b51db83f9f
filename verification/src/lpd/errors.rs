//! Errors of an LPD client.
use vstd::prelude::*;

verus! {

/// What went wrong while talking to a line printer daemon.
#[derive(Debug, PartialEq, Eq)]
pub enum LPDPClientError {
    /// The daemon could not be reached.
    UnreachableServer(String),
    /// Writing to the connection failed.
    FailedWrite(String),
    /// The document to print could not be read.
    FileReadError(String),
    /// The host name or user name could not be found.
    SystemDetailsError(String),
    /// Reading from the connection failed.
    FailedRead(String),
    /// The daemon did not acknowledge a message with a single zero byte.
    NotAcknowledged(String),
}

} // verus!
