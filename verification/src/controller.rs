//! The reactive connection controller: it owns one connection handle's
//! lifecycle, keeps the observable values (ready state, last received text
//! frame, last received binary frame), appends to a human-readable event
//! log, and records a notification for every observable change.
//!
//! The controller itself performs no network work. Consumer commands
//! (`open`, `close`, `send_text`, `send_bytes`) return an [`Action`] that
//! the surrounding runtime performs on the real transport, and the
//! transport's own events are handed back through the `handle_*` methods.
//! Every mutation is stated exactly, as a function of the previous
//! [`Model`], so observers never see a torn update.

use vstd::prelude::*;

use crate::address::{valid_address, ConfigurationError};
use crate::state::{close_next, error_next, open_next, opened_next, ConnectionState};

verus! {

/// A send was attempted while the connection was not `Open`; the operation
/// was rejected locally and nothing was transmitted.
#[derive(Clone, Copy, Debug, PartialEq, Eq, Structural)]
pub enum SendError {
    NotConnected,
}

/// What the surrounding runtime must do to the real transport after a
/// command: nothing, start the handshake of a fresh handle, tear the current
/// handle down, or transmit one frame.
#[derive(Debug, PartialEq, Eq)]
pub enum Action {
    Nothing,
    StartHandshake,
    Teardown,
    TransmitText(String),
    TransmitBytes(Vec<u8>),
}

/// The mathematical value of an [`Action`].
pub enum ActionSpec {
    Nothing,
    StartHandshake,
    Teardown,
    TransmitText(Seq<char>),
    TransmitBytes(Seq<u8>),
}

impl View for Action {
    type V = ActionSpec;

    open spec fn view(&self) -> ActionSpec {
        match self {
            Action::Nothing => ActionSpec::Nothing,
            Action::StartHandshake => ActionSpec::StartHandshake,
            Action::Teardown => ActionSpec::Teardown,
            Action::TransmitText(payload) => ActionSpec::TransmitText(payload@),
            Action::TransmitBytes(payload) => ActionSpec::TransmitBytes(payload@),
        }
    }
}

/// One observable change, in the order it happened: a ready-state change
/// carrying the previous and the current state, an inbound frame carrying
/// its payload, or a transport error carrying an opaque diagnostic.
#[derive(Debug, PartialEq, Eq)]
pub enum Notification {
    StateChanged(ConnectionState, ConnectionState),
    TextMessage(String),
    BinaryMessage(Vec<u8>),
    TransportError(String),
}

/// The mathematical value of a [`Notification`].
pub enum Notice {
    StateChanged { previous: ConnectionState, current: ConnectionState },
    TextMessage { text: Seq<char> },
    BinaryMessage { bytes: Seq<u8> },
    TransportError { diagnostic: Seq<char> },
}

impl View for Notification {
    type V = Notice;

    open spec fn view(&self) -> Notice {
        match self {
            Notification::StateChanged(previous, current) => Notice::StateChanged {
                previous: *previous,
                current: *current,
            },
            Notification::TextMessage(payload) => Notice::TextMessage { text: payload@ },
            Notification::BinaryMessage(payload) => Notice::BinaryMessage { bytes: payload@ },
            Notification::TransportError(diagnostic) => Notice::TransportError {
                diagnostic: diagnostic@,
            },
        }
    }
}

/// The abstract value of a controller: everything a consumer can observe.
///
/// `log` and `notifications` are append-only: every operation either leaves
/// them unchanged or extends them at the end.
#[verifier::ext_equal]
pub struct Model {
    pub address: Seq<char>,
    pub state: ConnectionState,
    pub last_text: Option<Seq<char>>,
    pub last_binary: Option<Seq<u8>>,
    pub log: Seq<Seq<char>>,
    pub notifications: Seq<Notice>,
}

/// The controller as first constructed: no live handle (`Closed`), no
/// message received yet, an empty log and no notification.
pub open spec fn initial_model(address: Seq<char>) -> Model {
    Model {
        address: address,
        state: ConnectionState::Closed,
        last_text: None,
        last_binary: None,
        log: Seq::empty(),
        notifications: Seq::empty(),
    }
}

/// The effect of an `open` command: from `Closed` it creates a fresh handle,
/// enters `Connecting`, logs the command and notifies the state change; in
/// every other state it changes nothing.
pub open spec fn open_effect(m: Model) -> Model {
    if m.state is Closed {
        Model {
            address: m.address,
            state: ConnectionState::Connecting,
            last_text: m.last_text,
            last_binary: m.last_binary,
            log: m.log.push("open: starting handshake"@),
            notifications: m.notifications.push(
                Notice::StateChanged {
                    previous: m.state,
                    current: ConnectionState::Connecting,
                },
            ),
        }
    } else {
        m
    }
}

/// What an `open` command asks of the runtime.
pub open spec fn open_action(s: ConnectionState) -> ActionSpec {
    if s is Closed {
        ActionSpec::StartHandshake
    } else {
        ActionSpec::Nothing
    }
}

/// The effect of a `close` command: from `Connecting` or `Open` it requests
/// teardown, enters `Closing`, logs the command and notifies the state
/// change; while already `Closing` or `Closed` it changes nothing.
pub open spec fn close_effect(m: Model) -> Model {
    if m.state is Connecting || m.state is Open {
        Model {
            address: m.address,
            state: ConnectionState::Closing,
            last_text: m.last_text,
            last_binary: m.last_binary,
            log: m.log.push("close: tearing down"@),
            notifications: m.notifications.push(
                Notice::StateChanged { previous: m.state, current: ConnectionState::Closing },
            ),
        }
    } else {
        m
    }
}

/// What a `close` command asks of the runtime.
pub open spec fn close_action(s: ConnectionState) -> ActionSpec {
    if s is Connecting || s is Open {
        ActionSpec::Teardown
    } else {
        ActionSpec::Nothing
    }
}

/// The effect of a `send_text` command: while `Open` the payload is handed
/// to the transport and only the log grows; in every other state the send is
/// rejected and only the rejection is logged. The ready state, the received
/// messages and the notifications never change.
pub open spec fn send_text_effect(m: Model, payload: Seq<char>) -> Model {
    Model {
        address: m.address,
        state: m.state,
        last_text: m.last_text,
        last_binary: m.last_binary,
        log: if m.state is Open {
            m.log.push("send text: "@ + payload)
        } else {
            m.log.push("send text rejected: not connected"@)
        },
        notifications: m.notifications,
    }
}

/// The effect of a `send_bytes` command, exactly as for text frames.
pub open spec fn send_bytes_effect(m: Model) -> Model {
    Model {
        address: m.address,
        state: m.state,
        last_text: m.last_text,
        last_binary: m.last_binary,
        log: if m.state is Open {
            m.log.push("send binary frame"@)
        } else {
            m.log.push("send binary rejected: not connected"@)
        },
        notifications: m.notifications,
    }
}

/// The effect of the transport reporting a completed handshake: a
/// `Connecting` controller becomes `Open`, logs the event and notifies the
/// state change; in any other state the event is stale and ignored.
pub open spec fn opened_effect(m: Model) -> Model {
    if m.state is Connecting {
        Model {
            address: m.address,
            state: ConnectionState::Open,
            last_text: m.last_text,
            last_binary: m.last_binary,
            log: m.log.push("connection open"@),
            notifications: m.notifications.push(
                Notice::StateChanged { previous: m.state, current: ConnectionState::Open },
            ),
        }
    } else {
        m
    }
}

/// The effect of an inbound text frame while `Open`: `last_text` becomes the
/// payload, `last_binary` is untouched, the frame is logged and notified.
/// A frame outside `Open` comes from a stale handle and is ignored.
pub open spec fn text_effect(m: Model, payload: Seq<char>) -> Model {
    if m.state is Open {
        Model {
            address: m.address,
            state: m.state,
            last_text: Some(payload),
            last_binary: m.last_binary,
            log: m.log.push("text frame received: "@ + payload),
            notifications: m.notifications.push(Notice::TextMessage { text: payload }),
        }
    } else {
        m
    }
}

/// The effect of an inbound binary frame while `Open`: `last_binary` becomes
/// the payload, `last_text` is untouched, the frame is logged and notified.
/// A frame outside `Open` comes from a stale handle and is ignored.
pub open spec fn binary_effect(m: Model, payload: Seq<u8>) -> Model {
    if m.state is Open {
        Model {
            address: m.address,
            state: m.state,
            last_text: m.last_text,
            last_binary: Some(payload),
            log: m.log.push("binary frame received"@),
            notifications: m.notifications.push(Notice::BinaryMessage { bytes: payload }),
        }
    } else {
        m
    }
}

/// The effect of a transport error while `Connecting` or `Open`: the state
/// is forced to `Closed`, the state change and then the error notification
/// fire, and the diagnostic is logged. In other states the error is ignored.
/// It is never raised to the consumer.
pub open spec fn error_effect(m: Model, diagnostic: Seq<char>) -> Model {
    if m.state is Connecting || m.state is Open {
        Model {
            address: m.address,
            state: ConnectionState::Closed,
            last_text: m.last_text,
            last_binary: m.last_binary,
            log: m.log.push("transport error: "@ + diagnostic),
            notifications: m.notifications.push(
                Notice::StateChanged { previous: m.state, current: ConnectionState::Closed },
            ).push(Notice::TransportError { diagnostic: diagnostic }),
        }
    } else {
        m
    }
}

/// The effect of the transport confirming teardown (or closing on its own):
/// any live handle ends in `Closed`, with the state change logged and
/// notified; a controller already `Closed` ignores the event.
pub open spec fn closed_effect(m: Model) -> Model {
    if m.state is Closed {
        m
    } else {
        Model {
            address: m.address,
            state: ConnectionState::Closed,
            last_text: m.last_text,
            last_binary: m.last_binary,
            log: m.log.push("connection closed"@),
            notifications: m.notifications.push(
                Notice::StateChanged { previous: m.state, current: ConnectionState::Closed },
            ),
        }
    }
}

/// The reactive connection controller. See the module documentation.
pub struct Controller {
    address: String,
    state: ConnectionState,
    last_text: Option<String>,
    last_binary: Option<Vec<u8>>,
    log: Vec<String>,
    notifications: Vec<Notification>,
}

impl View for Controller {
    type V = Model;

    closed spec fn view(&self) -> Model {
        Model {
            address: self.address@,
            state: self.state,
            last_text: match self.last_text {
                Some(payload) => Some(payload@),
                None => None,
            },
            last_binary: match self.last_binary {
                Some(payload) => Some(payload@),
                None => None,
            },
            log: self.log@.map_values(|entry: String| entry@),
            notifications: self.notifications@.map_values(|n: Notification| n@),
        }
    }
}

impl Controller {
    /// Creates a controller for `address`. A malformed address fails fast
    /// with a `ConfigurationError`: no controller and no handle are created
    /// and no network activity is requested. With `auto_connect` the
    /// controller immediately issues its own `open` command and comes back
    /// `Connecting`, together with the handshake action for the runtime;
    /// otherwise it comes back idle, with nothing to do.
    pub fn create(address: &str, auto_connect: bool) -> (result: Result<
        (Controller, Action),
        ConfigurationError,
    >)
        ensures
            result is Ok <==> valid_address(address@),
            result matches Ok((controller, action)) ==> {
                &&& controller@ == (if auto_connect {
                    open_effect(initial_model(address@))
                } else {
                    initial_model(address@)
                })
                &&& action@ == (if auto_connect {
                    ActionSpec::StartHandshake
                } else {
                    ActionSpec::Nothing
                })
            },
            result is Err ==> result == Result::<(Controller, Action), ConfigurationError>::Err(
                ConfigurationError,
            ),
    {
        if !crate::address::validate_address(address) {
            return Err(ConfigurationError);
        }
        let mut controller = Controller {
            address: String::from_str(address),
            state: ConnectionState::Closed,
            last_text: None,
            last_binary: None,
            log: Vec::new(),
            notifications: Vec::new(),
        };
        proof {
            assert(controller@ =~~= initial_model(address@));
        }
        let action = if auto_connect {
            controller.open()
        } else {
            Action::Nothing
        };
        Ok((controller, action))
    }

    /// The current ready state.
    pub fn ready_state(&self) -> (s: ConnectionState)
        ensures
            s == self@.state,
    {
        self.state
    }

    /// Whether sends are currently permitted, i.e. the state is `Open`.
    pub fn is_connected(&self) -> (connected: bool)
        ensures
            connected == (self@.state is Open),
    {
        self.state.is_connected()
    }

    /// The address this controller was created with.
    pub fn address(&self) -> (a: &String)
        ensures
            a@ == self@.address,
    {
        &self.address
    }

    /// The most recently received text frame, absent until the first one.
    pub fn last_text_message(&self) -> (r: Option<&String>)
        ensures
            match r {
                Some(payload) => self@.last_text == Some(payload@),
                None => self@.last_text is None,
            },
    {
        self.last_text.as_ref()
    }

    /// The most recently received binary frame, absent until the first one.
    pub fn last_binary_message(&self) -> (r: Option<&Vec<u8>>)
        ensures
            match r {
                Some(payload) => self@.last_binary == Some(payload@),
                None => self@.last_binary is None,
            },
    {
        self.last_binary.as_ref()
    }

    /// The append-only event log, oldest entry first.
    pub fn log(&self) -> (entries: &Vec<String>)
        ensures
            entries@.map_values(|entry: String| entry@) == self@.log,
    {
        &self.log
    }

    /// Every notification fired so far, oldest first.
    pub fn notifications(&self) -> (fired: &Vec<Notification>)
        ensures
            fired@.map_values(|n: Notification| n@) == self@.notifications,
    {
        &self.notifications
    }

    /// How many notifications have fired so far.
    pub fn notification_count(&self) -> (count: usize)
        ensures
            count == self@.notifications.len(),
    {
        self.notifications.len()
    }

    /// Requests that the connection be opened. Creates a fresh handle only
    /// when none is live (state `Closed`); while `Connecting`, `Open` or
    /// `Closing` the call is a no-op that observes nothing and fires no
    /// notification.
    pub fn open(&mut self) -> (action: Action)
        ensures
            final(self)@ == open_effect(old(self)@),
            action@ == open_action(old(self)@.state),
            final(self)@.state == open_next(old(self)@.state),
    {
        match self.state {
            ConnectionState::Closed => {
                let previous = self.state;
                self.state = ConnectionState::Connecting;
                self.notifications.push(
                    Notification::StateChanged(previous, ConnectionState::Connecting),
                );
                self.log.push(String::from_str("open: starting handshake"));
                proof {
                    assert(self@ =~~= open_effect(old(self)@));
                }
                Action::StartHandshake
            },
            _ => Action::Nothing,
        }
    }

    /// Requests that the connection be closed. Safe in any state: from
    /// `Connecting` or `Open` it requests teardown and enters `Closing`;
    /// while already `Closing` or `Closed` it is a no-op that changes
    /// nothing and fires no further notification.
    pub fn close(&mut self) -> (action: Action)
        ensures
            final(self)@ == close_effect(old(self)@),
            action@ == close_action(old(self)@.state),
            final(self)@.state == close_next(old(self)@.state),
    {
        match self.state {
            ConnectionState::Connecting | ConnectionState::Open => {
                let previous = self.state;
                self.state = ConnectionState::Closing;
                self.notifications.push(
                    Notification::StateChanged(previous, ConnectionState::Closing),
                );
                self.log.push(String::from_str("close: tearing down"));
                proof {
                    assert(self@ =~~= close_effect(old(self)@));
                }
                Action::Teardown
            },
            _ => Action::Nothing,
        }
    }

    /// Sends a text frame. While `Open` the payload is handed out for
    /// transmission; in every other state the send is rejected with
    /// `NotConnected`, nothing is transmitted, and no state, message or
    /// notification changes — only the rejection itself is logged.
    pub fn send_text(&mut self, payload: &str) -> (result: Result<Action, SendError>)
        ensures
            final(self)@ == send_text_effect(old(self)@, payload@),
            old(self)@.state is Open ==> (result matches Ok(action) && action@
                == ActionSpec::TransmitText(payload@)),
            !(old(self)@.state is Open) ==> result == Result::<Action, SendError>::Err(
                SendError::NotConnected,
            ),
    {
        match self.state {
            ConnectionState::Open => {
                let mut entry = String::from_str("send text: ");
                entry.append(payload);
                self.log.push(entry);
                proof {
                    assert(self@ =~~= send_text_effect(old(self)@, payload@));
                }
                Ok(Action::TransmitText(String::from_str(payload)))
            },
            _ => {
                self.log.push(String::from_str("send text rejected: not connected"));
                proof {
                    assert(self@ =~~= send_text_effect(old(self)@, payload@));
                }
                Err(SendError::NotConnected)
            },
        }
    }

    /// Sends a binary frame, under the same contract as `send_text`.
    pub fn send_bytes(&mut self, payload: Vec<u8>) -> (result: Result<Action, SendError>)
        ensures
            final(self)@ == send_bytes_effect(old(self)@),
            old(self)@.state is Open ==> (result matches Ok(action) && action@
                == ActionSpec::TransmitBytes(payload@)),
            !(old(self)@.state is Open) ==> result == Result::<Action, SendError>::Err(
                SendError::NotConnected,
            ),
    {
        match self.state {
            ConnectionState::Open => {
                self.log.push(String::from_str("send binary frame"));
                proof {
                    assert(self@ =~~= send_bytes_effect(old(self)@));
                }
                Ok(Action::TransmitBytes(payload))
            },
            _ => {
                self.log.push(String::from_str("send binary rejected: not connected"));
                proof {
                    assert(self@ =~~= send_bytes_effect(old(self)@));
                }
                Err(SendError::NotConnected)
            },
        }
    }

    /// The transport reports a completed handshake: `Connecting` becomes
    /// `Open`; in any other state the event is stale and ignored.
    pub fn handle_opened(&mut self)
        ensures
            final(self)@ == opened_effect(old(self)@),
            final(self)@.state == opened_next(old(self)@.state),
    {
        match self.state {
            ConnectionState::Connecting => {
                let previous = self.state;
                self.state = ConnectionState::Open;
                self.notifications.push(
                    Notification::StateChanged(previous, ConnectionState::Open),
                );
                self.log.push(String::from_str("connection open"));
                proof {
                    assert(self@ =~~= opened_effect(old(self)@));
                }
            },
            _ => {},
        }
    }

    /// The transport reports an inbound text frame: while `Open` it becomes
    /// the last text message; the last binary message is never touched.
    pub fn handle_text(&mut self, payload: &str)
        ensures
            final(self)@ == text_effect(old(self)@, payload@),
            final(self)@.last_binary == old(self)@.last_binary,
            final(self)@.state == old(self)@.state,
    {
        match self.state {
            ConnectionState::Open => {
                self.last_text = Some(String::from_str(payload));
                self.notifications.push(Notification::TextMessage(String::from_str(payload)));
                let mut entry = String::from_str("text frame received: ");
                entry.append(payload);
                self.log.push(entry);
                proof {
                    assert(self@ =~~= text_effect(old(self)@, payload@));
                }
            },
            _ => {},
        }
    }

    /// The transport reports an inbound binary frame: while `Open` it
    /// becomes the last binary message; the last text message is never
    /// touched.
    pub fn handle_binary(&mut self, payload: Vec<u8>)
        ensures
            final(self)@ == binary_effect(old(self)@, payload@),
            final(self)@.last_text == old(self)@.last_text,
            final(self)@.state == old(self)@.state,
    {
        match self.state {
            ConnectionState::Open => {
                self.notifications.push(Notification::BinaryMessage(clone_bytes(&payload)));
                self.last_binary = Some(payload);
                self.log.push(String::from_str("binary frame received"));
                proof {
                    assert(self@ =~~= binary_effect(old(self)@, payload@));
                }
            },
            _ => {},
        }
    }

    /// The transport reports a failure: while `Connecting` or `Open` the
    /// state is forced to `Closed` and the diagnostic is surfaced as a
    /// notification, never as a raised error; otherwise the event is
    /// ignored.
    pub fn handle_error(&mut self, diagnostic: &str)
        ensures
            final(self)@ == error_effect(old(self)@, diagnostic@),
            final(self)@.state == error_next(old(self)@.state),
    {
        match self.state {
            ConnectionState::Connecting | ConnectionState::Open => {
                let previous = self.state;
                self.state = ConnectionState::Closed;
                self.notifications.push(
                    Notification::StateChanged(previous, ConnectionState::Closed),
                );
                self.notifications.push(
                    Notification::TransportError(String::from_str(diagnostic)),
                );
                let mut entry = String::from_str("transport error: ");
                entry.append(diagnostic);
                self.log.push(entry);
                proof {
                    assert(self@ =~~= error_effect(old(self)@, diagnostic@));
                }
            },
            _ => {},
        }
    }

    /// The transport confirms that the connection is gone: any live handle
    /// ends in `Closed`; a controller already `Closed` ignores the event.
    pub fn handle_closed(&mut self)
        ensures
            final(self)@ == closed_effect(old(self)@),
            final(self)@.state is Closed,
    {
        match self.state {
            ConnectionState::Closed => {},
            _ => {
                let previous = self.state;
                self.state = ConnectionState::Closed;
                self.notifications.push(
                    Notification::StateChanged(previous, ConnectionState::Closed),
                );
                self.log.push(String::from_str("connection closed"));
                proof {
                    assert(self@ =~~= closed_effect(old(self)@));
                }
            },
        }
    }
}

/// Copies a byte payload so that the notification and the stored last
/// message each own one.
fn clone_bytes(payload: &Vec<u8>) -> (copy: Vec<u8>)
    ensures
        copy@ == payload@,
{
    let mut copy: Vec<u8> = Vec::new();
    let mut i: usize = 0;
    while i < payload.len()
        invariant
            i <= payload@.len(),
            copy@ == payload@.subrange(0, i as int),
        decreases payload@.len() - i,
    {
        copy.push(payload[i]);
        proof {
            assert(copy@ =~= payload@.subrange(0, i + 1 as int));
        }
        i = i + 1;
    }
    proof {
        assert(copy@ =~= payload@);
    }
    copy
}

} // verus!
