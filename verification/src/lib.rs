//! Wire formats and protocol logic for two printing protocols: the Line
//! Printer Daemon protocol (LPD, RFC 1179) and the Internet Printing Protocol
//! (IPP, RFC 8010/8011).
pub mod bytes;
pub mod digits;
pub mod lpd;
pub mod ipp;
