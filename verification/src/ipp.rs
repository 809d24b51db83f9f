//! The Internet Printing Protocol: tags, status codes, operation encoding and
//! the printer URL.
pub mod tags;
pub mod status;
pub mod utils;
pub mod client;
pub mod errors;
pub mod parsed_url;
