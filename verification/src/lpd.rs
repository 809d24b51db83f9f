//! The Line Printer Daemon protocol: command codes, message framing, control
//! files and the acknowledged exchanges of a print job.
pub mod commands;
pub mod errors;
pub mod session;
pub mod utils;
