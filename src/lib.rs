//! Host-side client for the agent that runs inside a micro-VM sandbox.
//!
//! The library holds the protocol logic: the wire codec, the framing of the
//! byte stream, and the session state that pairs each command with its reply
//! while keeping unsolicited notifications in the order they arrived. Sockets,
//! threads and waiting belong to the program that drives a `Session`.
pub mod wire;
pub mod command;
pub mod message;
pub mod frame;
pub mod session;
pub mod connect;
