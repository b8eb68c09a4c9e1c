//! The library's laws: facts that relate several operations, stated over
//! the same spec functions that the operations' own contracts use.

use vstd::prelude::*;
use vstd::seq_lib::*;

use crate::address::{starts_with_localhost, url_for, valid_address};
use crate::controller::{
    binary_effect, close_effect, closed_effect, error_effect, open_effect, opened_effect,
    send_bytes_effect, send_text_effect, text_effect, Model,
};
use crate::state::{
    allowed_step, close_next, closed_next, error_next, open_next, opened_next, ConnectionState,
};

verus! {

/// A consumer command, as the lifecycle laws speak of it.
#[derive(Clone, Copy, Debug, PartialEq, Eq, Structural)]
pub enum Command {
    OpenRequest,
    CloseRequest,
}

/// The ready state after one command.
pub open spec fn command_next(s: ConnectionState, c: Command) -> ConnectionState {
    match c {
        Command::OpenRequest => open_next(s),
        Command::CloseRequest => close_next(s),
    }
}

/// The ready state after a whole sequence of commands, applied in order.
pub open spec fn run_commands(s: ConnectionState, commands: Seq<Command>) -> ConnectionState
    decreases commands.len(),
{
    if commands.len() == 0 {
        s
    } else {
        run_commands(command_next(s, commands[0]), commands.drop_first())
    }
}

/// Law: one `open` or `close` command moves the ready state only along the
/// allowed lifecycle path, and a `close` issued while `Open` always passes
/// through `Closing` — it never reaches `Closed` directly.
pub proof fn lemma_command_step_follows_path(s: ConnectionState, c: Command)
    ensures
        allowed_step(s, command_next(s, c)),
        s is Open && c is CloseRequest ==> command_next(s, c) is Closing,
{
}

/// Law: each transport event (handshake completed, connection closed,
/// transport error) moves the ready state only along the allowed lifecycle
/// path.
pub proof fn lemma_event_step_follows_path(s: ConnectionState)
    ensures
        allowed_step(s, opened_next(s)),
        allowed_step(s, closed_next(s)),
        allowed_step(s, error_next(s)),
{
}

/// Running a sequence with one more command at its end first runs the
/// sequence, then that command.
proof fn lemma_run_commands_snoc(s: ConnectionState, commands: Seq<Command>, c: Command)
    ensures
        run_commands(s, commands.push(c)) == command_next(run_commands(s, commands), c),
    decreases commands.len(),
{
    reveal_with_fuel(run_commands, 2);
    if commands.len() == 0 {
        assert(commands.push(c)[0] == c);
        assert(commands.push(c).drop_first() =~= Seq::<Command>::empty());
    } else {
        assert(commands.push(c)[0] == commands[0]);
        assert(commands.push(c).drop_first() =~= commands.drop_first().push(c));
        lemma_run_commands_snoc(command_next(s, commands[0]), commands.drop_first(), c);
    }
}

/// Law: under any sequence of `open`/`close` commands, every consecutive
/// pair of ready states is an allowed lifecycle step, and wherever the state
/// was `Open` and the next command a close, the next state is `Closing`.
pub proof fn lemma_command_sequence_follows_path(
    start: ConnectionState,
    commands: Seq<Command>,
    i: int,
)
    requires
        0 <= i < commands.len(),
    ensures
        allowed_step(
            run_commands(start, commands.take(i)),
            run_commands(start, commands.take(i + 1)),
        ),
        run_commands(start, commands.take(i)) is Open && commands[i] is CloseRequest
            ==> run_commands(start, commands.take(i + 1)) is Closing,
{
    assert(commands.take(i + 1) =~= commands.take(i).push(commands[i]));
    lemma_run_commands_snoc(start, commands.take(i), commands[i]);
    lemma_command_step_follows_path(run_commands(start, commands.take(i)), commands[i]);
}

/// Law: `close` is idempotent on the whole observable model. In particular,
/// a second `close` issued once the state is already `Closing` or `Closed`
/// changes nothing: no error, no state change, no further notification and
/// no further log entry.
pub proof fn lemma_close_idempotent(m: Model)
    ensures
        close_effect(close_effect(m)) == close_effect(m),
        !(m.state is Connecting) && !(m.state is Open) ==> close_effect(m) == m,
{
}

/// Law: an inbound text frame never touches the last binary message, and an
/// inbound binary frame never touches the last text message — the two
/// observable values are independent.
pub proof fn lemma_last_messages_independent(m: Model, text: Seq<char>, bytes: Seq<u8>)
    ensures
        text_effect(m, text).last_binary == m.last_binary,
        binary_effect(m, bytes).last_text == m.last_text,
        send_text_effect(m, text).last_binary == m.last_binary,
        send_bytes_effect(m).last_text == m.last_text,
{
}

/// Law: the event log is append-only — every operation of the controller
/// leaves the previous log a prefix of the new one.
pub proof fn lemma_log_append_only(m: Model, text: Seq<char>, bytes: Seq<u8>, diag: Seq<char>)
    ensures
        m.log.is_prefix_of(open_effect(m).log),
        m.log.is_prefix_of(close_effect(m).log),
        m.log.is_prefix_of(send_text_effect(m, text).log),
        m.log.is_prefix_of(send_bytes_effect(m).log),
        m.log.is_prefix_of(opened_effect(m).log),
        m.log.is_prefix_of(text_effect(m, text).log),
        m.log.is_prefix_of(binary_effect(m, bytes).log),
        m.log.is_prefix_of(error_effect(m, diag).log),
        m.log.is_prefix_of(closed_effect(m).log),
{
}

/// Law: notifications are append-only in the same way.
pub proof fn lemma_notifications_append_only(
    m: Model,
    text: Seq<char>,
    bytes: Seq<u8>,
    diag: Seq<char>,
)
    ensures
        m.notifications.is_prefix_of(open_effect(m).notifications),
        m.notifications.is_prefix_of(close_effect(m).notifications),
        m.notifications.is_prefix_of(send_text_effect(m, text).notifications),
        m.notifications.is_prefix_of(send_bytes_effect(m).notifications),
        m.notifications.is_prefix_of(opened_effect(m).notifications),
        m.notifications.is_prefix_of(text_effect(m, text).notifications),
        m.notifications.is_prefix_of(binary_effect(m, bytes).notifications),
        m.notifications.is_prefix_of(error_effect(m, diag).notifications),
        m.notifications.is_prefix_of(closed_effect(m).notifications),
{
}

/// Law: a send in any state other than `Open` changes nothing observable
/// but the one rejection entry at the end of the log.
pub proof fn lemma_rejected_send_changes_nothing(m: Model, text: Seq<char>)
    requires
        !(m.state is Open),
    ensures
        send_text_effect(m, text).state == m.state,
        send_text_effect(m, text).last_text == m.last_text,
        send_text_effect(m, text).last_binary == m.last_binary,
        send_text_effect(m, text).notifications == m.notifications,
        send_text_effect(m, text).log == m.log.push("send text rejected: not connected"@),
        send_bytes_effect(m).state == m.state,
        send_bytes_effect(m).last_text == m.last_text,
        send_bytes_effect(m).last_binary == m.last_binary,
        send_bytes_effect(m).notifications == m.notifications,
        send_bytes_effect(m).log == m.log.push("send binary rejected: not connected"@),
{
}

/// Law: a URL built from a non-empty host that neither begins with `/` nor
/// contains a space is a valid connection address, so constructing a
/// controller from it cannot fail.
pub proof fn lemma_built_url_is_valid(host: Seq<char>)
    requires
        host.len() > 0,
        host[0] != '/',
        forall|i: int| 0 <= i < host.len() ==> host[i] != ' ',
    ensures
        valid_address(url_for(host)),
{
    reveal_strlit("ws://");
    reveal_strlit("wss://");
    reveal_strlit("/ws/");
    let url = url_for(host);
    if starts_with_localhost(host) {
        assert(url =~= "ws://"@ + host + "/ws/"@);
        assert(url[0] == 'w' && url[1] == 's' && url[2] == ':' && url[3] == '/' && url[4] == '/');
        assert(url[5] == host[0]);
        assert forall|i: int| 5 <= i < url.len() implies url[i] != ' ' by {
            if i < 5 + host.len() {
                assert(url[i] == host[i - 5]);
            } else {
                assert(url[i] == "/ws/"@[i - 5 - host.len()]);
            }
        }
    } else {
        assert(url =~= "wss://"@ + host + "/ws/"@);
        assert(url[0] == 'w' && url[1] == 's' && url[2] == 's' && url[3] == ':' && url[4] == '/'
            && url[5] == '/');
        assert(url[6] == host[0]);
        assert(!crate::address::has_ws_scheme(url));
        assert forall|i: int| 6 <= i < url.len() implies url[i] != ' ' by {
            if i < 6 + host.len() {
                assert(url[i] == host[i - 6]);
            } else {
                assert(url[i] == "/ws/"@[i - 6 - host.len()]);
            }
        }
    }
}

} // verus!
