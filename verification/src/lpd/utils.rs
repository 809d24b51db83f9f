//! Command codes of the LPD protocol (RFC 1179).
use vstd::prelude::*;

verus! {

/// The commands that a client sends to a line printer daemon. Each is one
/// byte, followed by its operands and a line feed.
#[derive(Debug, Clone, Copy, PartialEq, Eq, Structural)]
pub enum DaemonCommand {
    /// `01 Queue LF`: print any waiting jobs of the queue.
    PrintRemainingJobs,
    /// `02 Queue LF`: receive a printer job into the queue.
    ReceivePrinterJob,
    /// `03 Queue SP List LF`: send the queue state, short form.
    SendQueueStateJobShort,
    /// `04 Queue SP List LF`: send the queue state, long form.
    SendQueueStateJobLong,
    /// `05 Queue SP Agent SP List LF`: remove jobs.
    RemoveJobs,
}

impl DaemonCommand {
    /// The command's byte on the wire.
    pub open spec fn wire_code(self) -> u8 {
        match self {
            DaemonCommand::PrintRemainingJobs => 0x01,
            DaemonCommand::ReceivePrinterJob => 0x02,
            DaemonCommand::SendQueueStateJobShort => 0x03,
            DaemonCommand::SendQueueStateJobLong => 0x04,
            DaemonCommand::RemoveJobs => 0x05,
        }
    }

    /// The command's byte on the wire.
    pub fn code(&self) -> (r: u8)
        ensures
            r == self.wire_code(),
    {
        match self {
            DaemonCommand::PrintRemainingJobs => 0x01,
            DaemonCommand::ReceivePrinterJob => 0x02,
            DaemonCommand::SendQueueStateJobShort => 0x03,
            DaemonCommand::SendQueueStateJobLong => 0x04,
            DaemonCommand::RemoveJobs => 0x05,
        }
    }
}

/// The subcommands of the "receive job" command.
#[derive(Debug, Clone, Copy, PartialEq, Eq, Structural)]
pub enum ReceiveJobSubCommand {
    /// `01 LF`: abort the job being received.
    Abort,
    /// `02 Count SP Name LF`: a control file of `Count` bytes follows.
    ReceiveControlFile,
    /// `03 Count SP Name LF`: a data file of `Count` bytes follows.
    ReceiveDataFile,
}

impl ReceiveJobSubCommand {
    /// The subcommand's byte on the wire.
    pub open spec fn wire_code(self) -> u8 {
        match self {
            ReceiveJobSubCommand::Abort => 0x01,
            ReceiveJobSubCommand::ReceiveControlFile => 0x02,
            ReceiveJobSubCommand::ReceiveDataFile => 0x03,
        }
    }

    /// The subcommand's byte on the wire.
    pub fn code(&self) -> (r: u8)
        ensures
            r == self.wire_code(),
    {
        match self {
            ReceiveJobSubCommand::Abort => 0x01,
            ReceiveJobSubCommand::ReceiveControlFile => 0x02,
            ReceiveJobSubCommand::ReceiveDataFile => 0x03,
        }
    }
}

} // verus!
