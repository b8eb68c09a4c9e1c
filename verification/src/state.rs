//! The connection lifecycle: the four ready states a connection handle moves
//! through, the transition functions for consumer commands and transport
//! events, and the path along which every transition must run.

use vstd::prelude::*;

verus! {

/// The lifecycle phase of one connection handle.
///
/// A handle begins in `Connecting`, becomes `Open` once the handshake
/// completes, moves to `Closing` when teardown is requested, and ends in
/// `Closed`. `Closed` is terminal for the handle: reconnecting means creating
/// a new handle, which re-enters `Connecting`.
#[derive(Clone, Copy, Debug, PartialEq, Eq, Structural)]
pub enum ConnectionState {
    Connecting,
    Open,
    Closing,
    Closed,
}

/// A connection is usable for sending exactly when it is `Open`.
pub open spec fn spec_is_connected(s: ConnectionState) -> bool {
    s is Open
}

/// The lifecycle path: a state may stay where it is, move forward along
/// `Connecting -> Open -> Closing -> Closed` (forward skips are allowed, for
/// a close or an error that arrives before the handshake finishes), or leave
/// `Closed` for `Connecting` when a new handle is created.
pub open spec fn allowed_step(from: ConnectionState, to: ConnectionState) -> bool {
    ||| from == to
    ||| (from is Connecting && (to is Open || to is Closing || to is Closed))
    ||| (from is Open && (to is Closing || to is Closed))
    ||| (from is Closing && to is Closed)
    ||| (from is Closed && to is Connecting)
}

/// Where an `open` command leads: a new handle is created only when no live
/// handle exists (`Closed`); in every other state the command is a no-op.
pub open spec fn open_next(s: ConnectionState) -> ConnectionState {
    if s is Closed {
        ConnectionState::Connecting
    } else {
        s
    }
}

/// Where a `close` command leads: teardown is requested only from
/// `Connecting` or `Open`; while already `Closing` or `Closed` the command is
/// a no-op.
pub open spec fn close_next(s: ConnectionState) -> ConnectionState {
    if s is Connecting || s is Open {
        ConnectionState::Closing
    } else {
        s
    }
}

/// Where the transport's "handshake complete" event leads: it opens a
/// connection that was `Connecting`; in any other state it is stale and
/// ignored.
pub open spec fn opened_next(s: ConnectionState) -> ConnectionState {
    if s is Connecting {
        ConnectionState::Open
    } else {
        s
    }
}

/// Where the transport's "connection closed" event leads: any live handle
/// (`Connecting`, `Open` or `Closing`) ends in `Closed`.
pub open spec fn closed_next(s: ConnectionState) -> ConnectionState {
    ConnectionState::Closed
}

/// Where a transport error leads: it forces a connection that was
/// `Connecting` or `Open` to `Closed`; in other states it is ignored.
pub open spec fn error_next(s: ConnectionState) -> ConnectionState {
    if s is Connecting || s is Open {
        ConnectionState::Closed
    } else {
        s
    }
}

impl ConnectionState {
    /// Whether sends are permitted in this state.
    pub fn is_connected(&self) -> (connected: bool)
        ensures
            connected == spec_is_connected(*self),
    {
        matches!(*self, ConnectionState::Open)
    }

    /// A human-readable name for this state, for on-screen display.
    pub fn describe(&self) -> (name: String)
        ensures
            name@ == spec_describe(*self),
    {
        match *self {
            ConnectionState::Connecting => String::from_str("Connecting"),
            ConnectionState::Open => String::from_str("Open"),
            ConnectionState::Closing => String::from_str("Closing"),
            ConnectionState::Closed => String::from_str("Closed"),
        }
    }
}

/// The display name of each state.
pub open spec fn spec_describe(s: ConnectionState) -> Seq<char> {
    match s {
        ConnectionState::Connecting => "Connecting"@,
        ConnectionState::Open => "Open"@,
        ConnectionState::Closing => "Closing"@,
        ConnectionState::Closed => "Closed"@,
    }
}

} // verus!
