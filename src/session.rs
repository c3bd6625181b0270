use vstd::prelude::*;

use crate::clock::{elapsed_between, elapsed_ms};
use crate::error::RelayError;

verus! {

/// Where a proxied connection stands in its life.
#[derive(Clone, Copy, Debug, PartialEq, Eq, Structural)]
pub enum Phase {
    /// Waiting for the WebSocket upgrade of the inbound socket.
    Handshaking,
    /// Upgraded; waiting for the outbound TCP connection.
    Connecting,
    /// Both pumps started; waiting for both to end.
    Relaying,
    /// Torn down.
    Closed,
}

/// One of the two pumps of a connection.
#[derive(Clone, Copy, Debug, PartialEq, Eq, Structural)]
pub enum Direction {
    WsToTcp,
    TcpToWs,
}

/// What the connection's driver does next.
#[derive(Clone, Copy, Debug, PartialEq, Eq)]
pub enum Action {
    /// Open the TCP connection to the target.
    ConnectUpstream,
    /// Split both sessions and start the two pumps.
    StartPumps,
    /// Keep waiting for the other pump.
    Wait,
    /// Drop the connection before relaying anything, reporting this error.
    Abort(RelayError),
    /// Both pumps ended: release the sockets and report the outcome and the
    /// connection's lifetime since the handshake.
    Finished(Result<(), RelayError>, u128),
    /// The event does not apply in the current phase; nothing changes.
    Ignore,
}

/// The state of one connection's supervisor.
#[derive(Clone, Copy, Debug, PartialEq, Eq)]
pub struct ConnState {
    pub phase: Phase,
    /// Wall-clock milliseconds at which the handshake completed.
    pub started_ms: u128,
    /// How the WebSocket-to-TCP pump ended, once it has.
    pub ws_to_tcp: Option<Result<(), RelayError>>,
    /// How the TCP-to-WebSocket pump ended, once it has.
    pub tcp_to_ws: Option<Result<(), RelayError>>,
    /// The first error that either pump reported.
    pub first_error: Option<RelayError>,
}

pub open spec fn error_of(r: Option<Result<(), RelayError>>) -> Option<RelayError> {
    match r {
        Some(Err(e)) => Some(e),
        _ => None,
    }
}

impl ConnState {
    pub open spec fn initial() -> ConnState {
        ConnState {
            phase: Phase::Handshaking,
            started_ms: 0,
            ws_to_tcp: None,
            tcp_to_ws: None,
            first_error: None,
        }
    }

    /// Pumps run only while relaying or after; the first error is one that a pump
    /// reported; a relaying connection has at least one pump still running.
    pub open spec fn wf(self) -> bool {
        &&& (self.phase is Handshaking || self.phase is Connecting) ==> (self.ws_to_tcp is None
            && self.tcp_to_ws is None)
        &&& self.phase is Relaying ==> !(self.ws_to_tcp is Some && self.tcp_to_ws is Some)
        &&& (self.first_error is None <==> (error_of(self.ws_to_tcp) is None && error_of(
            self.tcp_to_ws,
        ) is None))
        &&& self.first_error matches Some(e) ==> (error_of(self.ws_to_tcp) == Some(e) || error_of(
            self.tcp_to_ws,
        ) == Some(e))
    }

    pub open spec fn pump_result(self, d: Direction) -> Option<Result<(), RelayError>> {
        match d {
            Direction::WsToTcp => self.ws_to_tcp,
            Direction::TcpToWs => self.tcp_to_ws,
        }
    }

    pub open spec fn after_handshake(self, r: Result<(), RelayError>, now_ms: u128) -> (
        ConnState,
        Action,
    ) {
        if !(self.phase is Handshaking) {
            (self, Action::Ignore)
        } else {
            match r {
                Ok(()) => (
                    ConnState { phase: Phase::Connecting, started_ms: now_ms, ..self },
                    Action::ConnectUpstream,
                ),
                Err(e) => (ConnState { phase: Phase::Closed, ..self }, Action::Abort(e)),
            }
        }
    }

    pub open spec fn after_connect(self, r: Result<(), RelayError>) -> (ConnState, Action) {
        if !(self.phase is Connecting) {
            (self, Action::Ignore)
        } else {
            match r {
                Ok(()) => (ConnState { phase: Phase::Relaying, ..self }, Action::StartPumps),
                Err(e) => (ConnState { phase: Phase::Closed, ..self }, Action::Abort(e)),
            }
        }
    }

    pub open spec fn after_pump(self, d: Direction, r: Result<(), RelayError>, now_ms: u128) -> (
        ConnState,
        Action,
    ) {
        if !(self.phase is Relaying) || self.pump_result(d) is Some {
            (self, Action::Ignore)
        } else {
            let first_error = match (self.first_error, r) {
                (None, Err(e)) => Some(e),
                _ => self.first_error,
            };
            let recorded = match d {
                Direction::WsToTcp => ConnState { ws_to_tcp: Some(r), first_error, ..self },
                Direction::TcpToWs => ConnState { tcp_to_ws: Some(r), first_error, ..self },
            };
            if recorded.ws_to_tcp is Some && recorded.tcp_to_ws is Some {
                let outcome = match first_error {
                    Some(e) => Err(e),
                    None => Ok(()),
                };
                (
                    ConnState { phase: Phase::Closed, ..recorded },
                    Action::Finished(outcome, elapsed_between(self.started_ms, now_ms)),
                )
            } else {
                (recorded, Action::Wait)
            }
        }
    }
}

/// The supervisor of one proxied connection: it takes the outcome of each step
/// (handshake, upstream connect, each pump's end) and says what to do next.
pub struct Connection {
    state: ConnState,
}

impl View for Connection {
    type V = ConnState;

    closed spec fn view(&self) -> ConnState {
        self.state
    }
}

impl Connection {
    pub fn new() -> (r: Connection)
        ensures
            r@ == ConnState::initial(),
            r@.wf(),
    {
        Connection {
            state: ConnState {
                phase: Phase::Handshaking,
                started_ms: 0,
                ws_to_tcp: None,
                tcp_to_ws: None,
                first_error: None,
            },
        }
    }

    pub fn phase(&self) -> (r: Phase)
        ensures
            r == self@.phase,
    {
        self.state.phase
    }

    pub fn started_ms(&self) -> (r: u128)
        ensures
            r == self@.started_ms,
    {
        self.state.started_ms
    }

    /// Records the outcome of the WebSocket upgrade, completed at `now_ms`.
    pub fn handshake_done(&mut self, r: Result<(), RelayError>, now_ms: u128) -> (a: Action)
        requires
            old(self)@.wf(),
        ensures
            (final(self)@, a) == old(self)@.after_handshake(r, now_ms),
            final(self)@.wf(),
    {
        if self.state.phase != Phase::Handshaking {
            return Action::Ignore;
        }
        match r {
            Ok(()) => {
                self.state.phase = Phase::Connecting;
                self.state.started_ms = now_ms;
                Action::ConnectUpstream
            },
            Err(e) => {
                self.state.phase = Phase::Closed;
                Action::Abort(e)
            },
        }
    }

    /// Records the outcome of the connection to the target.
    pub fn upstream_connected(&mut self, r: Result<(), RelayError>) -> (a: Action)
        requires
            old(self)@.wf(),
        ensures
            (final(self)@, a) == old(self)@.after_connect(r),
            final(self)@.wf(),
    {
        if self.state.phase != Phase::Connecting {
            return Action::Ignore;
        }
        match r {
            Ok(()) => {
                self.state.phase = Phase::Relaying;
                Action::StartPumps
            },
            Err(e) => {
                self.state.phase = Phase::Closed;
                Action::Abort(e)
            },
        }
    }

    /// Records that the pump `d` ended with `r` at `now_ms`.
    pub fn pump_finished(&mut self, d: Direction, r: Result<(), RelayError>, now_ms: u128) -> (a:
        Action)
        requires
            old(self)@.wf(),
        ensures
            (final(self)@, a) == old(self)@.after_pump(d, r, now_ms),
            final(self)@.wf(),
    {
        if self.state.phase != Phase::Relaying {
            return Action::Ignore;
        }
        let already = match d {
            Direction::WsToTcp => self.state.ws_to_tcp.is_some(),
            Direction::TcpToWs => self.state.tcp_to_ws.is_some(),
        };
        if already {
            return Action::Ignore;
        }
        if self.state.first_error.is_none() {
            if let Err(e) = r {
                self.state.first_error = Some(e);
            }
        }
        match d {
            Direction::WsToTcp => self.state.ws_to_tcp = Some(r),
            Direction::TcpToWs => self.state.tcp_to_ws = Some(r),
        }
        if self.state.ws_to_tcp.is_some() && self.state.tcp_to_ws.is_some() {
            self.state.phase = Phase::Closed;
            let outcome = match self.state.first_error {
                Some(e) => Err(e),
                None => Ok(()),
            };
            Action::Finished(outcome, elapsed_ms(self.state.started_ms, now_ms))
        } else {
            Action::Wait
        }
    }
}

/// When the upstream peer closes while the WebSocket side is still active, the
/// TCP-to-WebSocket pump's orderly end leaves the connection relaying: it is not
/// torn down, and nothing is reported, until the other pump ends on its own;
/// when that one then ends cleanly, the connection finishes without error.
pub proof fn lemma_orderly_upstream_close(
    s: ConnState,
    close_ms: u128,
    r: Result<(), RelayError>,
    end_ms: u128,
)
    requires
        s.wf(),
        s.phase is Relaying,
        s.ws_to_tcp is None,
        s.tcp_to_ws is None,
    ensures
        ({
            let (t, a) = s.after_pump(Direction::TcpToWs, Ok(()), close_ms);
            &&& t.phase is Relaying
            &&& a == Action::Wait
            &&& t.tcp_to_ws == Some(Ok::<(), RelayError>(()))
            &&& t.first_error == s.first_error
            &&& {
                let (u, b) = t.after_pump(Direction::WsToTcp, r, end_ms);
                &&& u.phase is Closed
                &&& r is Ok ==> b == Action::Finished(
                    Ok(()),
                    elapsed_between(s.started_ms, end_ms),
                )
            }
        }),
{
}

/// From any relaying state, a pump's end closes the connection exactly when both
/// pumps have then ended, and only a close reports the outcome.
pub proof fn lemma_teardown_waits_for_both(
    s: ConnState,
    d: Direction,
    r: Result<(), RelayError>,
    now_ms: u128,
)
    requires
        s.wf(),
        s.phase is Relaying,
    ensures
        ({
            let (t, a) = s.after_pump(d, r, now_ms);
            &&& t.phase is Closed <==> (t.ws_to_tcp is Some && t.tcp_to_ws is Some)
            &&& a is Finished <==> t.phase is Closed
        }),
{
}

/// The outcome of a connection is the first error that either pump reported,
/// whatever the other pump reports after it.
pub proof fn lemma_first_error_reported(
    s: ConnState,
    d: Direction,
    e: RelayError,
    t_ms: u128,
    r: Result<(), RelayError>,
    end_ms: u128,
)
    requires
        s.wf(),
        s.phase is Relaying,
        s.ws_to_tcp is None,
        s.tcp_to_ws is None,
    ensures
        ({
            let (t, a) = s.after_pump(d, Err(e), t_ms);
            let other = match d {
                Direction::WsToTcp => Direction::TcpToWs,
                Direction::TcpToWs => Direction::WsToTcp,
            };
            let (u, b) = t.after_pump(other, r, end_ms);
            &&& a == Action::Wait
            &&& b == Action::Finished(Err(e), elapsed_between(s.started_ms, end_ms))
        }),
{
}

} // verus!
