//! The datagram command listener: decodes the last byte of each received
//! payload into a drive command and dispatches it to the drive controller.
//!
//! The surrounding program owns the socket: it binds the fixed port, waits
//! for each datagram, hands the payload (and an opaque identifier of the
//! sender) to `CommandListener::on_datagram`, and keeps receiving until
//! the listener reports that the session has ended.

use vstd::prelude::*;

use crate::motors::Motors;
use crate::motors::spec_backward;
use crate::motors::spec_forward;
use crate::motors::spec_left;
use crate::motors::spec_right;
use crate::motors::spec_stop;

verus! {

/// A drive command carried by the wire protocol.
#[derive(Clone, Copy, Debug, PartialEq, Eq, Structural)]
pub enum Command {
    Forward,
    Backward,
    Left,
    Right,
    Stop,
    Quit,
}

/// What a received datagram decodes to.
#[derive(Clone, Copy, Debug, PartialEq, Eq, Structural)]
pub enum Decoded {
    /// The payload had no bytes: logged and ignored.
    Empty,
    /// The last byte is not a command byte: logged and ignored.
    Unknown(u8),
    /// The last byte named this drive command.
    Drive(Command),
}

/// ASCII `F`: drive forward.
pub const FORWARD_BYTE: u8 = 70;

/// ASCII `B`: drive backward.
pub const BACKWARD_BYTE: u8 = 66;

/// ASCII `L`: pivot left.
pub const LEFT_BYTE: u8 = 76;

/// ASCII `R`: pivot right.
pub const RIGHT_BYTE: u8 = 82;

/// ASCII `N`: stop.
pub const STOP_BYTE: u8 = 78;

/// ASCII `Q`: stop, then end the session.
pub const QUIT_BYTE: u8 = 81;

/// The command a single byte stands for, if any.
pub open spec fn spec_command_of_byte(b: u8) -> Option<Command> {
    if b == FORWARD_BYTE {
        Some(Command::Forward)
    } else if b == BACKWARD_BYTE {
        Some(Command::Backward)
    } else if b == LEFT_BYTE {
        Some(Command::Left)
    } else if b == RIGHT_BYTE {
        Some(Command::Right)
    } else if b == STOP_BYTE {
        Some(Command::Stop)
    } else if b == QUIT_BYTE {
        Some(Command::Quit)
    } else {
        None
    }
}

/// Decoding a payload: the last byte decides; an empty payload and an
/// unrecognized last byte are anomalies that the listener ignores.
pub open spec fn spec_decode(payload: Seq<u8>) -> Decoded {
    if payload.len() == 0 {
        Decoded::Empty
    } else {
        match spec_command_of_byte(payload[payload.len() - 1]) {
            Some(c) => Decoded::Drive(c),
            None => Decoded::Unknown(payload[payload.len() - 1]),
        }
    }
}

/// The controller after one command is dispatched; Quit stops the rover.
pub open spec fn spec_apply_command(m: Motors, c: Command) -> Motors {
    match c {
        Command::Forward => spec_forward(m),
        Command::Backward => spec_backward(m),
        Command::Left => spec_left(m),
        Command::Right => spec_right(m),
        Command::Stop => spec_stop(m),
        Command::Quit => spec_stop(m),
    }
}

/// One full receive step on the controller: the new controller value and
/// whether the session ends. Anomalies leave the controller unchanged.
pub open spec fn spec_handle(m: Motors, payload: Seq<u8>) -> (Motors, bool) {
    match spec_decode(payload) {
        Decoded::Empty => (m, false),
        Decoded::Unknown(_) => (m, false),
        Decoded::Drive(c) => (spec_apply_command(m, c), c == Command::Quit),
    }
}

/// Maps a byte to the command it stands for.
pub fn command_of_byte(b: u8) -> (c: Option<Command>)
    ensures
        c == spec_command_of_byte(b),
{
    if b == FORWARD_BYTE {
        Some(Command::Forward)
    } else if b == BACKWARD_BYTE {
        Some(Command::Backward)
    } else if b == LEFT_BYTE {
        Some(Command::Left)
    } else if b == RIGHT_BYTE {
        Some(Command::Right)
    } else if b == STOP_BYTE {
        Some(Command::Stop)
    } else if b == QUIT_BYTE {
        Some(Command::Quit)
    } else {
        None
    }
}

/// Decodes a datagram payload. The command is the last byte of the
/// payload, not the first: that is the wire contract.
pub fn decode_datagram(payload: &[u8]) -> (d: Decoded)
    ensures
        d == spec_decode(payload@),
{
    let n = payload.len();
    if n == 0 {
        Decoded::Empty
    } else {
        let b = *vstd::slice::slice_index_get(payload, n - 1);
        match command_of_byte(b) {
            Some(c) => Decoded::Drive(c),
            None => Decoded::Unknown(b),
        }
    }
}

/// Dispatches one decoded command to the controller; returns whether the
/// command ends the session.
pub fn apply_command(motors: &mut Motors, c: Command) -> (quit: bool)
    ensures
        *final(motors) == spec_apply_command(*old(motors), c),
        quit == (c == Command::Quit),
{
    match c {
        Command::Forward => {
            motors.forward();
            false
        },
        Command::Backward => {
            motors.backward();
            false
        },
        Command::Left => {
            motors.left();
            false
        },
        Command::Right => {
            motors.right();
            false
        },
        Command::Stop => {
            motors.stop();
            false
        },
        Command::Quit => {
            motors.stop();
            true
        },
    }
}

/// Handles one received datagram against the controller; returns whether
/// the session ends. Empty payloads and unknown command bytes leave the
/// controller unchanged and keep the session alive.
pub fn handle_datagram(motors: &mut Motors, payload: &[u8]) -> (quit: bool)
    ensures
        *final(motors) == spec_handle(*old(motors), payload@).0,
        quit == spec_handle(*old(motors), payload@).1,
{
    match decode_datagram(payload) {
        Decoded::Empty => false,
        Decoded::Unknown(_) => false,
        Decoded::Drive(c) => apply_command(motors, c),
    }
}

/// The receive-loop state: the drive controller it owns, the most recent
/// sender (any host may issue commands; senders are not validated), and
/// whether the session has ended.
#[derive(Clone, Copy, Debug, PartialEq, Eq, Structural)]
pub struct CommandListener {
    pub motors: Motors,
    pub last_sender: Option<u64>,
    pub done: bool,
}

/// The listener after one datagram arrives: nothing changes once the
/// session has ended; otherwise the sender is recorded and the payload is
/// handled as `spec_handle` says.
pub open spec fn spec_on_datagram(l: CommandListener, sender: u64, payload: Seq<u8>) -> CommandListener {
    if l.done {
        l
    } else {
        CommandListener {
            motors: spec_handle(l.motors, payload).0,
            last_sender: Some(sender),
            done: spec_handle(l.motors, payload).1,
        }
    }
}

impl CommandListener {
    /// Starts a session around a drive controller.
    pub fn new(motors: Motors) -> (l: CommandListener)
        ensures
            l.motors == motors,
            l.last_sender is None,
            !l.done,
    {
        CommandListener { motors, last_sender: None, done: false }
    }

    /// Feeds one received datagram to the session; `sender` is an opaque
    /// identifier of the sending host. Returns whether the session has
    /// ended (after a quit command, once and for all).
    pub fn on_datagram(&mut self, sender: u64, payload: &[u8]) -> (done: bool)
        ensures
            *final(self) == spec_on_datagram(*old(self), sender, payload@),
            done == final(self).done,
    {
        if self.done {
            return true;
        }
        let quit = handle_datagram(&mut self.motors, payload);
        self.last_sender = Some(sender);
        self.done = quit;
        quit
    }
}

/// Empty-datagram resilience: a zero-length payload leaves the controller
/// unchanged and keeps the session alive.
pub proof fn lemma_empty_ignored(m: Motors, payload: Seq<u8>)
    requires
        payload.len() == 0,
    ensures
        spec_handle(m, payload).0 == m,
        !spec_handle(m, payload).1,
{
}

/// Unknown-command resilience: a payload whose last byte names no command
/// leaves the controller unchanged and keeps the session alive.
pub proof fn lemma_unknown_ignored(m: Motors, payload: Seq<u8>)
    requires
        payload.len() > 0,
        spec_command_of_byte(payload[payload.len() - 1]) is None,
    ensures
        spec_handle(m, payload).0 == m,
        !spec_handle(m, payload).1,
{
}

/// Termination: a payload whose last byte is the quit byte stops the
/// rover and ends the session.
pub proof fn lemma_quit_stops_and_ends(l: CommandListener, sender: u64, payload: Seq<u8>)
    requires
        !l.done,
        payload.len() > 0,
        payload[payload.len() - 1] == QUIT_BYTE,
    ensures
        spec_on_datagram(l, sender, payload).done,
        spec_on_datagram(l, sender, payload).motors == spec_stop(l.motors),
{
}

/// The session ends exactly once: after it has ended, further datagrams
/// change nothing — no motor write, no new sender, no second ending.
pub proof fn lemma_done_is_final(l: CommandListener, sender: u64, payload: Seq<u8>)
    requires
        l.done,
    ensures
        spec_on_datagram(l, sender, payload) == l,
{
}

/// Every handled datagram preserves the controller's well-formedness, so
/// the listener keeps the electrical invariants of the drive layer.
pub proof fn lemma_handle_preserves_wf(m: Motors, payload: Seq<u8>)
    requires
        m.wf(),
    ensures
        spec_handle(m, payload).0.wf(),
{
    crate::motors::lemma_motors_ops_preserve_wf(m);
}

} // verus!
