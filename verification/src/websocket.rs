//! The decisions of a websocket session: how it answers timer ticks,
//! commands, incoming frames and stream failures. The caller owns the
//! socket and the timers, feeds each happening to `WsSession::step`, and
//! performs the action that comes back.
use vstd::prelude::*;

use crate::client::ConnectionState;

verus! {

/// A command for the websocket session.
#[derive(Debug, Clone)]
pub enum WebSocketCommand {
    /// Send a text message.
    Send(String),
    /// Close the connection.
    Close,
}

/// A frame received from the socket, as far as the session tells frames apart.
#[derive(Debug, Clone)]
pub enum Frame {
    Text(String),
    Binary,
    Ping,
    Pong,
    Close,
    Other,
}

/// Something that happened to a running session.
#[derive(Debug, Clone)]
pub enum SessionInput {
    /// The ping interval elapsed.
    PingTick,
    /// Sending a ping failed.
    PingSendFailed,
    /// A command arrived.
    Command(WebSocketCommand),
    /// A frame arrived.
    Received(Frame),
    /// Reading from the socket failed.
    StreamError,
    /// The socket was closed by the other side.
    StreamEnded,
    /// The pong timer ran out.
    PongTimeout,
}

/// What the caller must do after a step.
#[derive(Debug, Clone)]
pub enum SessionAction {
    /// Send a ping and start the pong timer.
    SendPing,
    /// Send a text message (a failure is only logged).
    SendText(String),
    /// Answer a ping with a pong.
    SendPong,
    /// Read the text as an event and hand it to the event handlers.
    Deliver(String),
    /// Close the socket; the session has ended.
    CloseSocket,
    /// The connection was lost: the session has ended; drop the socket and
    /// reconnect.
    ConnectionLost,
    /// Nothing to do.
    Ignore,
}

/// The next pong flag, whether the session keeps running, and the action,
/// for a session whose pong flag is `waiting` when `input` happens.
pub open spec fn session_next(waiting: bool, input: SessionInput) -> (bool, bool, SessionAction) {
    match input {
        SessionInput::PingTick => (true, true, SessionAction::SendPing),
        SessionInput::PingSendFailed => (waiting, false, SessionAction::ConnectionLost),
        SessionInput::Command(WebSocketCommand::Send(msg)) => (
            waiting,
            true,
            SessionAction::SendText(msg),
        ),
        SessionInput::Command(WebSocketCommand::Close) => (
            waiting,
            false,
            SessionAction::CloseSocket,
        ),
        SessionInput::Received(frame) => match frame {
            Frame::Text(t) => (waiting, true, SessionAction::Deliver(t)),
            Frame::Ping => (waiting, true, SessionAction::SendPong),
            Frame::Pong => (false, true, SessionAction::Ignore),
            Frame::Close => (waiting, false, SessionAction::ConnectionLost),
            Frame::Binary => (waiting, true, SessionAction::Ignore),
            Frame::Other => (waiting, true, SessionAction::Ignore),
        },
        SessionInput::StreamError => (waiting, false, SessionAction::ConnectionLost),
        SessionInput::StreamEnded => (waiting, false, SessionAction::ConnectionLost),
        SessionInput::PongTimeout => if waiting {
            (waiting, false, SessionAction::ConnectionLost)
        } else {
            (waiting, true, SessionAction::Ignore)
        },
    }
}

/// Seconds between two pings.
pub const PING_INTERVAL_SECS: u64 = 30;

/// Seconds that a pong may take before the connection counts as lost.
pub const PONG_TIMEOUT_SECS: u64 = 10;

/// A websocket session: whether a pong is awaited, whether it runs, and
/// whether it ended because the connection was lost.
pub struct WsSession {
    waiting_for_pong: bool,
    running: bool,
    lost: bool,
}

impl WsSession {
    /// A session that still runs has not lost its connection.
    #[verifier::type_invariant]
    closed spec fn well_formed(self) -> bool {
        self.running ==> !self.lost
    }

    /// Whether a pong is awaited.
    pub closed spec fn waiting_view(&self) -> bool {
        self.waiting_for_pong
    }

    /// Whether the session still runs.
    pub closed spec fn running_view(&self) -> bool {
        self.running
    }

    /// Whether the session ended because the connection was lost.
    pub closed spec fn lost_view(&self) -> bool {
        self.lost
    }

    /// A session that has just connected: running, no pong awaited.
    pub fn new() -> (s: Self)
        ensures
            s.running_view(),
            !s.waiting_view(),
            !s.lost_view(),
    {
        WsSession { waiting_for_pong: false, running: true, lost: false }
    }

    /// Whether the session still runs.
    pub fn is_running(&self) -> (b: bool)
        ensures
            b == self.running_view(),
    {
        self.running
    }

    /// Whether a pong is awaited, so that the pong timer matters.
    pub fn is_waiting_for_pong(&self) -> (b: bool)
        ensures
            b == self.waiting_view(),
    {
        self.waiting_for_pong
    }

    /// Whether the session ended because the connection was lost, so that
    /// the caller reconnects.
    pub fn is_lost(&self) -> (b: bool)
        ensures
            b == self.lost_view(),
    {
        self.lost
    }

    /// The connection state that the session stands for: `Connected` while
    /// it runs, `Reconnecting` once the connection was lost, and
    /// `Disconnected` once it was closed on command.
    pub fn connection_state(&self) -> (c: ConnectionState)
        ensures
            c == (if self.running_view() {
                ConnectionState::Connected
            } else if self.lost_view() {
                ConnectionState::Reconnecting
            } else {
                ConnectionState::Disconnected
            }),
    {
        if self.running {
            ConnectionState::Connected
        } else if self.lost {
            ConnectionState::Reconnecting
        } else {
            ConnectionState::Disconnected
        }
    }

    /// Reacts to one happening.
    pub fn step(&mut self, input: SessionInput) -> (a: SessionAction)
        requires
            old(self).running_view(),
        ensures
            (final(self).waiting_view(), final(self).running_view(), a) == session_next(
                old(self).waiting_view(),
                input,
            ),
            final(self).lost_view() == (a is ConnectionLost),
    {
        proof {
            use_type_invariant(&*self);
        }
        match input {
            SessionInput::PingTick => {
                self.waiting_for_pong = true;
                SessionAction::SendPing
            },
            SessionInput::PingSendFailed => {
                self.running = false;
                self.lost = true;
                SessionAction::ConnectionLost
            },
            SessionInput::Command(WebSocketCommand::Send(msg)) => SessionAction::SendText(msg),
            SessionInput::Command(WebSocketCommand::Close) => {
                self.running = false;
                SessionAction::CloseSocket
            },
            SessionInput::Received(frame) => match frame {
                Frame::Text(t) => SessionAction::Deliver(t),
                Frame::Ping => SessionAction::SendPong,
                Frame::Pong => {
                    self.waiting_for_pong = false;
                    SessionAction::Ignore
                },
                Frame::Close => {
                    self.running = false;
                    self.lost = true;
                    SessionAction::ConnectionLost
                },
                Frame::Binary => SessionAction::Ignore,
                Frame::Other => SessionAction::Ignore,
            },
            SessionInput::StreamError => {
                self.running = false;
                self.lost = true;
                SessionAction::ConnectionLost
            },
            SessionInput::StreamEnded => {
                self.running = false;
                self.lost = true;
                SessionAction::ConnectionLost
            },
            SessionInput::PongTimeout => {
                if self.waiting_for_pong {
                    self.running = false;
                    self.lost = true;
                    SessionAction::ConnectionLost
                } else {
                    SessionAction::Ignore
                }
            },
        }
    }
}


/// `base` doubled `times` times: `base * 2^times`.
pub open spec fn doubled(base: nat, times: nat) -> nat
    decreases times,
{
    if times == 0 {
        base
    } else {
        2 * doubled(base, (times - 1) as nat)
    }
}

/// The wait before reconnection attempt `attempt` (counting from 0), in
/// milliseconds: the backoff interval doubled `attempt` times, capped at the
/// largest `u64`.
pub open spec fn backoff_delay(backoff_ms: u64, attempt: nat) -> u64 {
    if doubled(backoff_ms as nat, attempt) <= u64::MAX {
        doubled(backoff_ms as nat, attempt) as u64
    } else {
        u64::MAX
    }
}

/// What to do about a lost connection.
#[derive(Debug, Clone, Copy, PartialEq, Eq, Structural)]
pub enum ReconnectStep {
    /// Wait this many milliseconds, then try to connect again.
    Wait(u64),
    /// Every attempt has been used: give up.
    GiveUp,
}

/// The step that follows `attempts` attempts already made, out of at most
/// `max_attempts`.
pub open spec fn reconnect_step(attempts: nat, max_attempts: nat, backoff_ms: u64) -> ReconnectStep {
    if attempts < max_attempts {
        ReconnectStep::Wait(backoff_delay(backoff_ms, attempts))
    } else {
        ReconnectStep::GiveUp
    }
}

/// The connection state while a step is carried out: `Reconnecting` while
/// waiting for another attempt, `Failed` once the client gives up.
pub open spec fn state_for_step(step: ReconnectStep) -> ConnectionState {
    match step {
        ReconnectStep::Wait(_) => ConnectionState::Reconnecting,
        ReconnectStep::GiveUp => ConnectionState::Failed,
    }
}

/// The connection state while `step` is carried out.
pub fn state_for(step: ReconnectStep) -> (c: ConnectionState)
    ensures
        c == state_for_step(step),
{
    match step {
        ReconnectStep::Wait(_) => ConnectionState::Reconnecting,
        ReconnectStep::GiveUp => ConnectionState::Failed,
    }
}

/// `backoff_ms` doubled `times` times, capped at the largest `u64`.
fn capped_doubling(backoff_ms: u64, times: u32) -> (d: u64)
    ensures
        d == backoff_delay(backoff_ms, times as nat),
{
    let mut d: u64 = backoff_ms;
    let mut i: u32 = 0;
    while i < times
        invariant
            i <= times,
            d == backoff_delay(backoff_ms, i as nat),
        decreases times - i,
    {
        proof {
            let b = backoff_ms as nat;
            assert(doubled(b, (i + 1) as nat) == 2 * doubled(b, i as nat));
        }
        if d > u64::MAX / 2 {
            d = u64::MAX;
        } else {
            d = d * 2;
        }
        i = i + 1;
    }
    d
}

/// The attempts counted after `steps` calls of `Reconnector::next_attempt`
/// on a fresh reconnector allowing `max_attempts`: each call that waits
/// counts one more attempt, and a call that gives up counts none.
pub open spec fn attempts_after(steps: nat, max_attempts: nat) -> nat
    decreases steps,
{
    if steps == 0 {
        0
    } else {
        let a = attempts_after((steps - 1) as nat, max_attempts);
        if a < max_attempts {
            a + 1
        } else {
            a
        }
    }
}

/// Reconnection with exponential backoff: how many attempts have been made
/// since the connection was lost, at most how many may be made, and the
/// backoff interval in milliseconds.
pub struct Reconnector {
    attempts: u32,
    max_attempts: u32,
    backoff_ms: u64,
}

impl Reconnector {
    /// Attempts made so far.
    pub closed spec fn attempts_view(&self) -> nat {
        self.attempts as nat
    }

    /// Attempts allowed.
    pub closed spec fn max_view(&self) -> nat {
        self.max_attempts as nat
    }

    /// The backoff interval in milliseconds.
    pub closed spec fn backoff_view(&self) -> u64 {
        self.backoff_ms
    }

    /// A reconnector that has made no attempt yet.
    pub fn new(max_attempts: u32, backoff_ms: u64) -> (r: Self)
        ensures
            r.attempts_view() == 0,
            r.max_view() == max_attempts,
            r.backoff_view() == backoff_ms,
    {
        Reconnector { attempts: 0, max_attempts, backoff_ms }
    }

    /// The next step: wait `backoff_ms * 2^k` (capped) before attempt `k`
    /// while fewer than `max_attempts` attempts have been made, else give up.
    pub fn next_attempt(&mut self) -> (step: ReconnectStep)
        ensures
            step == reconnect_step(old(self).attempts_view(), old(self).max_view(), old(self).backoff_view()),
            final(self).attempts_view() == (if step is Wait {
                old(self).attempts_view() + 1
            } else {
                old(self).attempts_view()
            }),
            final(self).max_view() == old(self).max_view(),
            final(self).backoff_view() == old(self).backoff_view(),
    {
        if self.attempts < self.max_attempts {
            let d = capped_doubling(self.backoff_ms, self.attempts);
            self.attempts = self.attempts + 1;
            ReconnectStep::Wait(d)
        } else {
            ReconnectStep::GiveUp
        }
    }

    /// Starts counting afresh after a successful reconnection.
    pub fn reset(&mut self)
        ensures
            final(self).attempts_view() == 0,
            final(self).max_view() == old(self).max_view(),
            final(self).backoff_view() == old(self).backoff_view(),
    {
        self.attempts = 0;
    }
}

} // verus!
