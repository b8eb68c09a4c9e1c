use reactive_ws::controller::{Action, Controller, Notification, SendError};
use reactive_ws::state::ConnectionState;

const URL: &str = "ws://localhost:3000/ws/";

fn open_controller() -> Controller {
    let (mut c, action) = Controller::create(URL, true).unwrap();
    assert_eq!(action, Action::StartHandshake);
    c.handle_opened();
    assert_eq!(c.ready_state(), ConnectionState::Open);
    c
}

#[test]
fn malformed_address_fails_fast() {
    // No controller comes back, so no handle exists and no transport work
    // was requested.
    let result = Controller::create("not a url", true);
    assert!(result.is_err());
}

#[test]
fn create_without_auto_connect_is_idle() {
    let (c, action) = Controller::create(URL, false).unwrap();
    assert_eq!(action, Action::Nothing);
    assert_eq!(c.ready_state(), ConnectionState::Closed);
    assert_eq!(c.last_text_message(), None);
    assert_eq!(c.last_binary_message(), None);
    assert_eq!(c.notification_count(), 0);
    assert!(c.log().is_empty());
    assert_eq!(c.address().as_str(), URL);
}

#[test]
fn create_with_auto_connect_starts_connecting() {
    let (c, action) = Controller::create(URL, true).unwrap();
    assert_eq!(action, Action::StartHandshake);
    assert_eq!(c.ready_state(), ConnectionState::Connecting);
    assert_eq!(
        c.notifications().as_slice(),
        &[Notification::StateChanged(
            ConnectionState::Closed,
            ConnectionState::Connecting
        )]
    );
}

#[test]
fn lifecycle_follows_allowed_path() {
    let (mut c, _) = Controller::create(URL, false).unwrap();
    assert_eq!(c.ready_state(), ConnectionState::Closed);

    assert_eq!(c.open(), Action::StartHandshake);
    assert_eq!(c.ready_state(), ConnectionState::Connecting);

    c.handle_opened();
    assert_eq!(c.ready_state(), ConnectionState::Open);

    // Closing from Open never skips the Closing state.
    assert_eq!(c.close(), Action::Teardown);
    assert_eq!(c.ready_state(), ConnectionState::Closing);

    c.handle_closed();
    assert_eq!(c.ready_state(), ConnectionState::Closed);

    assert_eq!(
        c.notifications().as_slice(),
        &[
            Notification::StateChanged(ConnectionState::Closed, ConnectionState::Connecting),
            Notification::StateChanged(ConnectionState::Connecting, ConnectionState::Open),
            Notification::StateChanged(ConnectionState::Open, ConnectionState::Closing),
            Notification::StateChanged(ConnectionState::Closing, ConnectionState::Closed),
        ]
    );
}

#[test]
fn open_is_a_no_op_unless_closed() {
    let (mut c, _) = Controller::create(URL, true).unwrap();
    let count = c.notification_count();
    assert_eq!(c.open(), Action::Nothing);
    assert_eq!(c.ready_state(), ConnectionState::Connecting);
    c.handle_opened();
    assert_eq!(c.open(), Action::Nothing);
    assert_eq!(c.ready_state(), ConnectionState::Open);
    assert_eq!(c.notification_count(), count + 1);
}

#[test]
fn reopening_after_close_creates_a_new_handle() {
    let mut c = open_controller();
    c.close();
    c.handle_closed();
    assert_eq!(c.ready_state(), ConnectionState::Closed);
    assert_eq!(c.open(), Action::StartHandshake);
    assert_eq!(c.ready_state(), ConnectionState::Connecting);
}

#[test]
fn send_text_rejected_while_not_open() {
    let (mut c, _) = Controller::create(URL, false).unwrap();
    let notifications_before = c.notification_count();
    let log_before = c.log().len();

    assert_eq!(c.send_text("ping"), Err(SendError::NotConnected));

    // No transmission, no state change, no notification; only the rejection
    // itself is logged.
    assert_eq!(c.ready_state(), ConnectionState::Closed);
    assert_eq!(c.last_text_message(), None);
    assert_eq!(c.notification_count(), notifications_before);
    assert_eq!(c.log().len(), log_before + 1);
    assert_eq!(c.log().last().unwrap().as_str(), "send text rejected: not connected");
}

#[test]
fn send_bytes_rejected_while_not_open() {
    let mut c = open_controller();
    c.close();
    assert_eq!(c.ready_state(), ConnectionState::Closing);
    let notifications_before = c.notification_count();
    let log_before = c.log().len();

    assert_eq!(c.send_bytes(vec![1, 2, 3]), Err(SendError::NotConnected));

    assert_eq!(c.ready_state(), ConnectionState::Closing);
    assert_eq!(c.notification_count(), notifications_before);
    assert_eq!(c.log().len(), log_before + 1);
    assert_eq!(
        c.log().last().unwrap().as_str(),
        "send binary rejected: not connected"
    );
}

#[test]
fn send_text_while_open_hands_out_the_frame() {
    let mut c = open_controller();
    assert_eq!(
        c.send_text("ping"),
        Ok(Action::TransmitText("ping".to_string()))
    );
    assert_eq!(c.ready_state(), ConnectionState::Open);
    assert_eq!(c.log().last().unwrap().as_str(), "send text: ping");
    // Sending never updates the received-message values.
    assert_eq!(c.last_text_message(), None);
}

#[test]
fn send_bytes_while_open_hands_out_the_frame() {
    let mut c = open_controller();
    assert_eq!(
        c.send_bytes(b"Hello, world!\r\n".to_vec()),
        Ok(Action::TransmitBytes(b"Hello, world!\r\n".to_vec()))
    );
    assert_eq!(c.last_binary_message(), None);
}

#[test]
fn text_frame_updates_only_last_text() {
    let mut c = open_controller();
    c.handle_binary(vec![1, 2]);
    let binary_before = c.last_binary_message().cloned();

    c.handle_text("Hello, world!");

    assert_eq!(c.last_text_message().unwrap().as_str(), "Hello, world!");
    assert_eq!(c.last_binary_message().cloned(), binary_before);
    assert_eq!(
        c.notifications().last().unwrap(),
        &Notification::TextMessage("Hello, world!".to_string())
    );
    assert_eq!(c.log().last().unwrap().as_str(), "text frame received: Hello, world!");
}

#[test]
fn binary_frame_updates_only_last_binary() {
    let mut c = open_controller();
    c.handle_text("hi");

    c.handle_binary(vec![0x48, 0x65, 0x6C, 0x6C, 0x6F, 0x0D, 0x0A]);

    assert_eq!(
        c.last_binary_message().unwrap(),
        &vec![0x48, 0x65, 0x6C, 0x6C, 0x6F, 0x0D, 0x0A]
    );
    assert_eq!(c.last_text_message().unwrap().as_str(), "hi");
    assert_eq!(
        c.notifications().last().unwrap(),
        &Notification::BinaryMessage(vec![0x48, 0x65, 0x6C, 0x6C, 0x6F, 0x0D, 0x0A])
    );
}

#[test]
fn close_twice_is_idempotent() {
    let mut c = open_controller();
    assert_eq!(c.close(), Action::Teardown);
    c.handle_closed();
    assert_eq!(c.ready_state(), ConnectionState::Closed);

    let notifications_before = c.notification_count();
    let log_before = c.log().len();

    // The second close: no error, no state change, no further notification.
    assert_eq!(c.close(), Action::Nothing);
    assert_eq!(c.ready_state(), ConnectionState::Closed);
    assert_eq!(c.notification_count(), notifications_before);
    assert_eq!(c.log().len(), log_before);
}

#[test]
fn transport_error_forces_closed() {
    let (mut c, _) = Controller::create(URL, true).unwrap();
    assert_eq!(c.ready_state(), ConnectionState::Connecting);

    c.handle_error("handshake failed");

    assert_eq!(c.ready_state(), ConnectionState::Closed);
    let n = c.notifications();
    assert_eq!(
        &n[n.len() - 2],
        &Notification::StateChanged(ConnectionState::Connecting, ConnectionState::Closed)
    );
    assert_eq!(
        &n[n.len() - 1],
        &Notification::TransportError("handshake failed".to_string())
    );
    // After the error, sends reject locally instead of raising anything.
    assert_eq!(c.send_text("ping"), Err(SendError::NotConnected));
}

#[test]
fn stale_events_are_ignored() {
    let (mut c, _) = Controller::create(URL, false).unwrap();
    let notifications_before = c.notification_count();
    c.handle_opened();
    c.handle_text("late");
    c.handle_binary(vec![9]);
    c.handle_error("late error");
    c.handle_closed();
    assert_eq!(c.ready_state(), ConnectionState::Closed);
    assert_eq!(c.last_text_message(), None);
    assert_eq!(c.last_binary_message(), None);
    assert_eq!(c.notification_count(), notifications_before);
}

#[test]
fn echo_round_trip_end_to_end() {
    // A loopback echo endpoint: every frame handed out comes back as an
    // inbound frame with the same payload.
    let (mut c, action) = Controller::create(URL, true).unwrap();
    assert_eq!(c.ready_state(), ConnectionState::Connecting);
    assert_eq!(action, Action::StartHandshake);

    c.handle_opened();
    assert_eq!(c.ready_state(), ConnectionState::Open);

    match c.send_text("ping") {
        Ok(Action::TransmitText(payload)) => {
            // The echo returns the transmitted payload.
            c.handle_text(&payload);
        }
        other => panic!("unexpected send outcome: {:?}", other),
    }
    assert_eq!(c.last_text_message().unwrap().as_str(), "ping");

    assert_eq!(c.close(), Action::Teardown);
    assert_eq!(c.ready_state(), ConnectionState::Closing);
    c.handle_closed();
    assert_eq!(c.ready_state(), ConnectionState::Closed);

    assert_eq!(
        c.notifications().as_slice(),
        &[
            Notification::StateChanged(ConnectionState::Closed, ConnectionState::Connecting),
            Notification::StateChanged(ConnectionState::Connecting, ConnectionState::Open),
            Notification::TextMessage("ping".to_string()),
            Notification::StateChanged(ConnectionState::Open, ConnectionState::Closing),
            Notification::StateChanged(ConnectionState::Closing, ConnectionState::Closed),
        ]
    );
}
