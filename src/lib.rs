//! Handle-based registry of local socket connections, with the request
//! decisions and the tagged response encoding of an IPC bridge.
//!
//! The registry is generic over the connection type: the socket I/O itself
//! happens outside, and its outcomes are handed to the functions here.
pub mod registry;
pub mod response;
pub mod args;
pub mod ops;
pub mod requests;
pub mod laws;
