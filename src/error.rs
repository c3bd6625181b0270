use vstd::prelude::*;

verus! {

/// What went wrong on one proxied connection.
#[derive(Clone, Copy, Debug, PartialEq, Eq, Structural)]
pub enum RelayError {
    /// The WebSocket upgrade of the inbound socket failed.
    Handshake,
    /// The outbound TCP connection to the target could not be opened.
    Connect,
    /// A read or write on one of the two sockets failed.
    Io,
    /// The WebSocket peer broke the protocol.
    Protocol,
}

} // verus!
