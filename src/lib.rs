//! The decisions of a WebSocket-to-TCP proxy: what each of a connection's two
//! byte pumps does with what it reads, how a connection's supervisor moves from
//! handshake to teardown, and how the command line is read. The sockets
//! themselves are driven by the caller, which hands each outcome to these
//! functions and carries out the step they return.
use vstd::prelude::*;

pub mod cli;
pub mod clock;
pub mod error;
pub mod message;
pub mod pump;
pub mod session;

verus! {

/// Number of bytes read from the upstream socket per chunk.
pub const READ_CHUNK_LEN: usize = 1024;

} // verus!
