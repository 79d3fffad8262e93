//! A network-agnostic engine for the Trivial File Transfer Protocol (RFC 1350).
//!
//! The library turns received datagrams into state transitions and produces the
//! next outgoing datagram. It never touches sockets, timers or files: the caller
//! moves bytes between the network and the buffers handed to the engine.

pub mod constants;
pub mod errors;
pub mod machine;
pub mod serial;
