//! The connection context: serials, the wake slot, and the receive loop's
//! state machine, from event to next state and the actions to perform.

use vstd::prelude::*;
use crate::handshake::{check_handshake, handshake_error_is, handshake_ok, ConnectError, Opening};
use crate::wire::{
    client_version, command_json, compiled_version, decode_event, encode_command, server_event,
    texts, CloseData, Command, CommandKind, Frame, Inbound, ServerEvent,
};

verus! {

/// Where the receive loop stands.
#[derive(Clone, Copy, PartialEq, Eq, Debug, Structural)]
pub enum Phase {
    /// Waiting for the wake that follows a handshake.
    WaitInit,
    /// Reading frames of an established connection.
    Active,
    /// Stopped for good.
    Terminated,
}

/// What the receive loop is handed, in order of arrival.
pub enum Event {
    /// The wake slot was taken.
    Woken,
    /// A frame came from the socket.
    Frame(Frame),
    /// Reading the socket failed.
    ReadFailed(String),
}

/// An effect the caller carries out, in the order given.
pub enum Action {
    /// Write this frame through the write half, then flush.
    Write(Frame),
    /// Report this message to the view as a global error.
    GlobalError(String),
    /// Hand the server's close payload to the view.
    ServerClose(Option<CloseData>),
    /// Hand this event text to the view.
    Forward(String),
    /// A frame of a kind the protocol never sends arrived.
    ProtocolViolation,
    /// Drop the socket: the epoch is over.
    ClearSocket,
}

/// The state of one connection context over the process lifetime.
pub struct RpcContext {
    /// Where the receive loop stands.
    pub phase: Phase,
    /// Whether a handshake-validated socket is stored.
    pub connected: bool,
    /// Whether a wake sits in the single slot, not yet taken.
    pub wake_pending: bool,
    /// The next serial to hand out.
    pub serial: u64,
}

/// `a` is what sending a command of this kind, serial and ids comes to: its
/// text frame where it encodes, a global error where it does not.
pub open spec fn sends(a: Action, kind: CommandKind, serial: u64, ids: Seq<Seq<char>>) -> bool {
    match command_json(kind, serial, ids) {
        Some(j) => match a {
            Action::Write(Frame::Text(t)) => t@ == j,
            _ => false,
        },
        None => a is GlobalError,
    }
}

impl RpcContext {
    /// A socket is stored whenever a connection is being read.
    pub open spec fn wf(&self) -> bool {
        self.phase == Phase::Active ==> self.connected
    }

    /// `next` is how an epoch ends from `self`: with shutdown requested the
    /// loop stops for good, else the socket is dropped and the loop waits.
    pub open spec fn epoch_ended(self, next: Self, shutdown: bool, tail: Seq<Action>) -> bool {
        &&& next.wake_pending == self.wake_pending
        &&& next.serial == self.serial
        &&& if shutdown {
            &&& next.phase == Phase::Terminated
            &&& next.connected == self.connected
            &&& tail.len() == 0
        } else {
            &&& next.phase == Phase::WaitInit
            &&& !next.connected
            &&& tail.len() == 1
            &&& tail[0] is ClearSocket
        }
    }

    /// What handling a text frame `t` of an active connection does.
    pub open spec fn text_handled(self, next: Self, t: String, r: Seq<Action>) -> bool {
        &&& next.phase == self.phase
        &&& next.connected == self.connected
        &&& next.wake_pending == self.wake_pending
        &&& match server_event(t@) {
            None => next.serial == self.serial && r.len() == 1 && r[0] is GlobalError,
            Some(ServerEvent::Extant(ids)) => {
                &&& next.serial == self.serial + 1
                &&& r.len() == 1
                &&& sends(r[0], CommandKind::Subscribe, self.serial, ids)
            },
            Some(ServerEvent::Removed(ids)) => {
                &&& next.serial == self.serial + 1
                &&& r.len() == 2
                &&& sends(r[0], CommandKind::Unsubscribe, self.serial, ids)
                &&& r[1] == Action::Forward(t)
            },
            Some(ServerEvent::Other) => next.serial == self.serial && r == seq![Action::Forward(t)],
        }
    }

    /// What handling `ev` does, from `self` to `next`, with actions `r`.
    pub open spec fn stepped(self, next: Self, ev: Event, shutdown: bool, r: Seq<Action>) -> bool {
        match self.phase {
            Phase::WaitInit => {
                &&& ev is Woken
                &&& !next.wake_pending
                &&& next.serial == self.serial
                &&& next.connected == self.connected
                &&& r.len() == 0
                &&& next.phase == if shutdown || !self.connected {
                    Phase::Terminated
                } else {
                    Phase::Active
                }
            },
            Phase::Active => match ev {
                Event::Woken => {
                    let woke = RpcContext { wake_pending: false, ..self };
                    woke.epoch_ended(next, shutdown, r)
                },
                Event::ReadFailed(m) => {
                    &&& r.len() >= 1
                    &&& r[0] == Action::GlobalError(m)
                    &&& self.epoch_ended(next, shutdown, r.drop_first())
                },
                Event::Frame(Frame::Close(d)) => {
                    &&& r.len() >= 1
                    &&& r[0] == Action::ServerClose(d)
                    &&& self.epoch_ended(next, shutdown, r.drop_first())
                },
                Event::Frame(Frame::Ping(p)) => next == self && r == seq![Action::Write(Frame::Pong(p))],
                Event::Frame(Frame::Text(t)) => self.text_handled(next, t, r),
                Event::Frame(_) => {
                    &&& r.len() >= 1
                    &&& r[0] is ProtocolViolation
                    &&& self.epoch_ended(next, shutdown, r.drop_first())
                },
            },
            Phase::Terminated => false,
        }
    }

    /// A fresh context: no socket, no wake pending, serials from 0.
    pub fn new() -> (r: Self)
        ensures
            r.wf(),
            r.phase == Phase::WaitInit,
            !r.connected,
            !r.wake_pending,
            r.serial == 0,
    {
        RpcContext { phase: Phase::WaitInit, connected: false, wake_pending: false, serial: 0 }
    }

    /// Puts a wake into the single slot; a second wake before the first is
    /// taken is a programming error, so the slot must be empty.
    pub fn wake(&mut self)
        requires
            !old(self).wake_pending,
        ensures
            *final(self) == (RpcContext { wake_pending: true, ..*old(self) }),
    {
        self.wake_pending = true;
    }

    /// Hands out the next serial: the counter before the increment.
    pub fn next_serial(&mut self) -> (r: u64)
        requires
            old(self).serial < u64::MAX,
        ensures
            r == old(self).serial,
            *final(self) == (RpcContext { serial: (old(self).serial + 1) as u64, ..*old(self) }),
    {
        let r = self.serial;
        self.serial = self.serial + 1;
        r
    }
    /// What becomes of an encoded command: its text frame is written, or
    /// the encoding error is reported to the view and the command dropped.
    pub fn outcome_of_encoding(encoded: Result<String, String>) -> (r: Action)
        ensures
            match encoded {
                Ok(t) => r == Action::Write(Frame::Text(t)),
                Err(e) => r == Action::GlobalError(e),
            },
    {
        match encoded {
            Ok(t) => Action::Write(Frame::Text(t)),
            Err(e) => Action::GlobalError(e),
        }
    }

    /// Frames a command for the write half.
    pub fn send(&self, cmd: &Command) -> (r: Action)
        ensures
            sends(r, cmd.kind, cmd.serial, texts(cmd.ids@)),
    {
        Self::outcome_of_encoding(encode_command(cmd))
    }

    /// Completes a connect: on an accepted handshake the socket counts as
    /// stored and the receive loop is woken; on any error nothing changes.
    pub fn init(&mut self, opening: Opening) -> (r: Result<(), ConnectError>)
        requires
            !old(self).connected,
            !old(self).wake_pending,
        ensures
            r is Ok <==> handshake_ok(opening, compiled_version()),
            match r {
                Ok(_) => *final(self) == (RpcContext {
                    connected: true,
                    wake_pending: true,
                    ..*old(self)
                }),
                Err(e) => {
                    &&& *final(self) == *old(self)
                    &&& handshake_error_is(opening, compiled_version(), e)
                },
            },
    {
        let (major, minor) = client_version();
        let r = check_handshake(opening, major, minor);
        if r.is_ok() {
            self.connected = true;
            self.wake();
        }
        r
    }

    /// Ends the current epoch, after the actions already in `out`.
    fn end_epoch(&mut self, shutdown: bool, out: &mut Vec<Action>)
        ensures
            old(self).epoch_ended(*final(self), shutdown, final(out)@.skip(old(out)@.len() as int)),
            final(out)@.len() >= old(out)@.len(),
            final(out)@.take(old(out)@.len() as int) == old(out)@,
    {
        if shutdown {
            self.phase = Phase::Terminated;
        } else {
            self.phase = Phase::WaitInit;
            self.connected = false;
            out.push(Action::ClearSocket);
        }
    }

    /// Handles a text frame of an active connection.
    fn on_text(&mut self, t: String) -> (r: Vec<Action>)
        requires
            old(self).serial < u64::MAX,
        ensures
            old(self).text_handled(*final(self), t, r@),
    {
        let mut out: Vec<Action> = Vec::new();
        match decode_event(t.as_str()) {
            Err(e) => out.push(Action::GlobalError(e)),
            Ok(Inbound::Extant(ids)) => {
                let serial = self.next_serial();
                out.push(self.send(&Command { kind: CommandKind::Subscribe, serial, ids }));
            },
            Ok(Inbound::Removed(ids)) => {
                let serial = self.next_serial();
                out.push(self.send(&Command { kind: CommandKind::Unsubscribe, serial, ids }));
                out.push(Action::Forward(t));
            },
            Ok(Inbound::Other) => out.push(Action::Forward(t)),
        }
        out
    }

    /// One step of the receive loop: takes the next event, moves to the next
    /// phase and returns the actions to carry out, in order. `shutdown` is
    /// the process-wide flag, consulted only where an epoch ends.
    pub fn on_event(&mut self, ev: Event, shutdown: bool) -> (r: Vec<Action>)
        requires
            old(self).wf(),
            old(self).phase != Phase::Terminated,
            old(self).phase == Phase::WaitInit ==> ev is Woken,
            ev is Woken ==> old(self).wake_pending,
            old(self).serial < u64::MAX,
        ensures
            final(self).wf(),
            old(self).stepped(*final(self), ev, shutdown, r@),
    {
        let mut out: Vec<Action> = Vec::new();
        if self.phase == Phase::WaitInit {
            self.wake_pending = false;
            if shutdown || !self.connected {
                self.phase = Phase::Terminated;
            } else {
                self.phase = Phase::Active;
            }
            return out;
        }
        match ev {
            Event::Woken => {
                self.wake_pending = false;
                self.end_epoch(shutdown, &mut out);
                assert(out@ =~= out@.skip(0));
            },
            Event::ReadFailed(m) => {
                out.push(Action::GlobalError(m));
                self.end_epoch(shutdown, &mut out);
                assert(out@.drop_first() =~= out@.skip(1));
                assert(out@[0] == out@.take(1)[0]);
            },
            Event::Frame(Frame::Close(d)) => {
                out.push(Action::ServerClose(d));
                self.end_epoch(shutdown, &mut out);
                assert(out@.drop_first() =~= out@.skip(1));
                assert(out@[0] == out@.take(1)[0]);
            },
            Event::Frame(Frame::Ping(p)) => out.push(Action::Write(Frame::Pong(p))),
            Event::Frame(Frame::Text(t)) => {
                out = self.on_text(t);
            },
            Event::Frame(_) => {
                out.push(Action::ProtocolViolation);
                self.end_epoch(shutdown, &mut out);
                assert(out@.drop_first() =~= out@.skip(1));
                assert(out@[0] == out@.take(1)[0]);
            },
        }
        out
    }
}


/// Serials handed out one after another from a fresh context are exactly
/// `0, 1, ..., n-1`, in order, with no gap and no repeat: `states` are the
/// contexts before and after each call, `returned` what each call gave.
pub proof fn serials_are_consecutive(states: Seq<RpcContext>, returned: Seq<u64>)
    requires
        states.len() == returned.len() + 1,
        states[0].serial == 0,
        forall|i: int|
            0 <= i < returned.len() ==> returned[i] == states[i].serial && states[i
                + 1].serial == states[i].serial + 1,
    ensures
        forall|i: int| 0 <= i < returned.len() ==> returned[i] == i,
        forall|i: int, j: int| 0 <= i < j < returned.len() ==> returned[i] < returned[j],
{
    assert forall|i: int| 0 <= i < returned.len() implies returned[i] == i by {
        serial_count(states, returned, i);
    }
}

proof fn serial_count(states: Seq<RpcContext>, returned: Seq<u64>, i: int)
    requires
        states.len() == returned.len() + 1,
        states[0].serial == 0,
        forall|i: int|
            0 <= i < returned.len() ==> returned[i] == states[i].serial && states[i
                + 1].serial == states[i].serial + 1,
        0 <= i <= returned.len(),
    ensures
        states[i].serial == i,
    decreases i,
{
    if i > 0 {
        serial_count(states, returned, i - 1);
        assert(returned[i - 1] == states[i - 1].serial);
    }
}

/// An epoch that ends by a wake, a read error or a close frame stops the
/// receive loop for good when shutdown is requested; otherwise the socket
/// is dropped and the loop waits for the next connect.
pub proof fn epoch_end_follows_shutdown(
    c: RpcContext,
    next: RpcContext,
    ev: Event,
    shutdown: bool,
    r: Seq<Action>,
)
    requires
        c.phase == Phase::Active,
        ev is Woken || ev is ReadFailed || (ev is Frame && ev->Frame_0 is Close),
        c.stepped(next, ev, shutdown, r),
    ensures
        shutdown ==> next.phase == Phase::Terminated,
        !shutdown ==> next.phase == Phase::WaitInit && !next.connected && r.last() is ClearSocket,
{
}

/// A stopped receive loop has no next step: once terminated it never
/// reconnects.
pub proof fn terminated_is_final(c: RpcContext, next: RpcContext, ev: Event, shutdown: bool, r: Seq<Action>)
    requires
        c.phase == Phase::Terminated,
    ensures
        !c.stepped(next, ev, shutdown, r),
{
}

} // verus!
