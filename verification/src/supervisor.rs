//! The connection supervisor: the state machine that keeps one MQTT session
//! alive over an unreliable transport.
//!
//! The supervisor owns every state transition; the surrounding runtime only
//! performs the returned action (open the transport, write a frame, read a
//! chunk, wait the retry delay, stop) and reports what happened as the next
//! event. Connect and handshake failures are recovered locally by waiting a
//! fixed delay and retrying; failures in the steady read state tear the
//! connection down and re-enter the same retry cycle; only an explicit
//! shutdown request ends the machine.

use vstd::prelude::*;

use crate::packets::{parse_connack, spec_connack_accepted};
use crate::read_loop::ReadLoopResult;

verus! {

/// Seconds to wait between two connection attempts.
pub const RETRY_DELAY_SECS: u64 = 5;

/// The connection lifecycle. `Disconnected` is also the state in which the
/// supervisor sits out the retry delay before the next attempt.
#[derive(Debug, PartialEq, Eq, Structural, Clone, Copy)]
pub enum ConnectionState {
    Disconnected,
    Connecting,
    Handshaking,
    Connected,
    Stopped,
}

/// What the runtime observed while performing the last action.
///
/// `ConnackReceived` carries the four handshake bytes; `ChunkHandled`
/// carries the dispatcher's classification of one inbound chunk.
#[derive(Debug)]
pub enum SupervisorEvent {
    DelayElapsed,
    ShutdownRequested,
    ConnectSucceeded,
    ConnectFailed,
    ConnectSendFailed,
    ConnackReceived(Vec<u8>),
    ConnackReadFailed,
    SubscribeSent,
    SubscribeFailed,
    ReadySignaled,
    ChunkHandled(ReadLoopResult),
    ReadEof,
    ReadFailed,
    DispatchFailed,
}

/// What the runtime must do next.
///
/// `Connect` opens the transport; `SendConnect` writes the CONNECT frame
/// and reads exactly four bytes; `StartSession` splits the transport,
/// stores the write half and issues the default subscription;
/// `SignalReady` wakes the waiters of the one-shot readiness signal;
/// `ReadNext` reads one chunk and dispatches it; `Wait` sits out the retry
/// delay, interruptible by shutdown; `Stop` terminates.
#[derive(Debug, PartialEq, Eq, Structural, Clone, Copy)]
pub enum SupervisorAction {
    Connect,
    SendConnect,
    StartSession,
    SignalReady,
    ReadNext,
    Wait,
    Stop,
}

/// Which events may be reported in which state. Shutdown may arrive at any
/// wait point; every other event answers the action of its state.
pub open spec fn spec_admissible(s: ConnectionState, e: SupervisorEvent) -> bool {
    ||| s is Stopped
    ||| e is ShutdownRequested
    ||| match s {
        ConnectionState::Disconnected => e is DelayElapsed,
        ConnectionState::Connecting => e is ConnectSucceeded || e is ConnectFailed,
        ConnectionState::Handshaking => e is ConnectSendFailed || e is ConnackReceived
            || e is ConnackReadFailed,
        ConnectionState::Connected => e is SubscribeSent || e is SubscribeFailed
            || e is ReadySignaled || e is ChunkHandled || e is ReadEof || e is ReadFailed
            || e is DispatchFailed,
        ConnectionState::Stopped => true,
    }
}

/// The transition table's next state.
pub open spec fn spec_next_state(s: ConnectionState, e: SupervisorEvent) -> ConnectionState {
    if s is Stopped {
        ConnectionState::Stopped
    } else if e is ShutdownRequested {
        ConnectionState::Stopped
    } else {
        match (s, e) {
            (ConnectionState::Disconnected, SupervisorEvent::DelayElapsed) => ConnectionState::Connecting,
            (ConnectionState::Connecting, SupervisorEvent::ConnectSucceeded) => ConnectionState::Handshaking,
            (ConnectionState::Connecting, SupervisorEvent::ConnectFailed) => ConnectionState::Disconnected,
            (ConnectionState::Handshaking, SupervisorEvent::ConnectSendFailed) => ConnectionState::Disconnected,
            (ConnectionState::Handshaking, SupervisorEvent::ConnackReadFailed) => ConnectionState::Disconnected,
            (
                ConnectionState::Handshaking,
                SupervisorEvent::ConnackReceived(b),
            ) => if spec_connack_accepted(b@) {
                ConnectionState::Connected
            } else {
                ConnectionState::Disconnected
            },
            (ConnectionState::Connected, SupervisorEvent::SubscribeSent) => ConnectionState::Connected,
            (ConnectionState::Connected, SupervisorEvent::SubscribeFailed) => ConnectionState::Disconnected,
            (ConnectionState::Connected, SupervisorEvent::ReadySignaled) => ConnectionState::Connected,
            (ConnectionState::Connected, SupervisorEvent::ChunkHandled(_)) => ConnectionState::Connected,
            (ConnectionState::Connected, SupervisorEvent::ReadEof) => ConnectionState::Disconnected,
            (ConnectionState::Connected, SupervisorEvent::ReadFailed) => ConnectionState::Disconnected,
            (ConnectionState::Connected, SupervisorEvent::DispatchFailed) => ConnectionState::Disconnected,
            (other, _) => other,
        }
    }
}

/// The transition table's next action.
pub open spec fn spec_next_action(s: ConnectionState, e: SupervisorEvent) -> SupervisorAction {
    if s is Stopped {
        SupervisorAction::Stop
    } else if e is ShutdownRequested {
        SupervisorAction::Stop
    } else {
        match (s, e) {
            (ConnectionState::Disconnected, SupervisorEvent::DelayElapsed) => SupervisorAction::Connect,
            (ConnectionState::Connecting, SupervisorEvent::ConnectSucceeded) => SupervisorAction::SendConnect,
            (ConnectionState::Connecting, SupervisorEvent::ConnectFailed) => SupervisorAction::Wait,
            (ConnectionState::Handshaking, SupervisorEvent::ConnectSendFailed) => SupervisorAction::Wait,
            (ConnectionState::Handshaking, SupervisorEvent::ConnackReadFailed) => SupervisorAction::Wait,
            (
                ConnectionState::Handshaking,
                SupervisorEvent::ConnackReceived(b),
            ) => if spec_connack_accepted(b@) {
                SupervisorAction::StartSession
            } else {
                SupervisorAction::Wait
            },
            (ConnectionState::Connected, SupervisorEvent::SubscribeSent) => SupervisorAction::SignalReady,
            (ConnectionState::Connected, SupervisorEvent::SubscribeFailed) => SupervisorAction::Wait,
            (ConnectionState::Connected, SupervisorEvent::ReadySignaled) => SupervisorAction::ReadNext,
            (ConnectionState::Connected, SupervisorEvent::ChunkHandled(_)) => SupervisorAction::ReadNext,
            (ConnectionState::Connected, SupervisorEvent::ReadEof) => SupervisorAction::Wait,
            (ConnectionState::Connected, SupervisorEvent::ReadFailed) => SupervisorAction::Wait,
            (ConnectionState::Connected, SupervisorEvent::DispatchFailed) => SupervisorAction::Wait,
            (_, _) => SupervisorAction::Wait,
        }
    }
}

/// The supervisor. No external actor sets the state directly: it moves only
/// through [`Supervisor::step`].
pub struct Supervisor {
    state: ConnectionState,
}

impl Supervisor {
    /// The current lifecycle state.
    pub closed spec fn state(&self) -> ConnectionState {
        self.state
    }

    /// A fresh supervisor, disconnected and ready for its first (immediate)
    /// connection attempt.
    pub fn new() -> (s: Supervisor)
        ensures
            s.state() == ConnectionState::Disconnected,
    {
        Supervisor { state: ConnectionState::Disconnected }
    }

    /// Reads the current state.
    pub fn current_state(&self) -> (c: ConnectionState)
        ensures
            c == self.state(),
    {
        self.state
    }

    /// Feeds one observed event and returns the next action. The caller
    /// reports only events that answer the pending action (or a shutdown
    /// request).
    pub fn step(&mut self, event: SupervisorEvent) -> (a: SupervisorAction)
        requires
            spec_admissible(old(self).state(), event),
        ensures
            final(self).state() == spec_next_state(old(self).state(), event),
            a == spec_next_action(old(self).state(), event),
    {
        match event {
            SupervisorEvent::ShutdownRequested => {
                self.state = ConnectionState::Stopped;
                SupervisorAction::Stop
            },
            SupervisorEvent::ConnackReceived(b) => {
                if self.state == ConnectionState::Stopped {
                    SupervisorAction::Stop
                } else if self.state == ConnectionState::Handshaking {
                    if parse_connack(b.as_slice()) {
                        self.state = ConnectionState::Connected;
                        SupervisorAction::StartSession
                    } else {
                        self.state = ConnectionState::Disconnected;
                        SupervisorAction::Wait
                    }
                } else {
                    SupervisorAction::Wait
                }
            },
            other_event => {
                if self.state == ConnectionState::Stopped {
                    return SupervisorAction::Stop;
                }
                match (self.state, other_event) {
                    (ConnectionState::Disconnected, SupervisorEvent::DelayElapsed) => {
                        self.state = ConnectionState::Connecting;
                        SupervisorAction::Connect
                    },
                    (ConnectionState::Connecting, SupervisorEvent::ConnectSucceeded) => {
                        self.state = ConnectionState::Handshaking;
                        SupervisorAction::SendConnect
                    },
                    (ConnectionState::Connecting, SupervisorEvent::ConnectFailed) => {
                        self.state = ConnectionState::Disconnected;
                        SupervisorAction::Wait
                    },
                    (ConnectionState::Handshaking, SupervisorEvent::ConnectSendFailed) => {
                        self.state = ConnectionState::Disconnected;
                        SupervisorAction::Wait
                    },
                    (ConnectionState::Handshaking, SupervisorEvent::ConnackReadFailed) => {
                        self.state = ConnectionState::Disconnected;
                        SupervisorAction::Wait
                    },
                    (ConnectionState::Connected, SupervisorEvent::SubscribeSent) => {
                        SupervisorAction::SignalReady
                    },
                    (ConnectionState::Connected, SupervisorEvent::SubscribeFailed) => {
                        self.state = ConnectionState::Disconnected;
                        SupervisorAction::Wait
                    },
                    (ConnectionState::Connected, SupervisorEvent::ReadySignaled) => {
                        SupervisorAction::ReadNext
                    },
                    (ConnectionState::Connected, SupervisorEvent::ChunkHandled(_)) => {
                        SupervisorAction::ReadNext
                    },
                    (ConnectionState::Connected, SupervisorEvent::ReadEof) => {
                        self.state = ConnectionState::Disconnected;
                        SupervisorAction::Wait
                    },
                    (ConnectionState::Connected, SupervisorEvent::ReadFailed) => {
                        self.state = ConnectionState::Disconnected;
                        SupervisorAction::Wait
                    },
                    (ConnectionState::Connected, SupervisorEvent::DispatchFailed) => {
                        self.state = ConnectionState::Disconnected;
                        SupervisorAction::Wait
                    },
                    (_, _) => SupervisorAction::Wait,
                }
            },
        }
    }
}

/// A failure event of the connect, handshake or read phase.
pub open spec fn spec_is_failure_event(e: SupervisorEvent) -> bool {
    ||| e is ConnectFailed
    ||| e is ConnectSendFailed
    ||| e is ConnackReadFailed
    ||| e is SubscribeFailed
    ||| e is ReadEof
    ||| e is ReadFailed
    ||| e is DispatchFailed
}

/// Law: every transport, handshake or dispatch failure — including a
/// rejected CONNACK — sends the supervisor into the retry delay, never into
/// termination, and once the delay elapses the next action is a fresh
/// connection attempt.
pub proof fn lemma_failure_retries(s: ConnectionState, e: SupervisorEvent)
    requires
        spec_admissible(s, e),
        !(s is Stopped),
        spec_is_failure_event(e) || (e matches SupervisorEvent::ConnackReceived(b)
            && !spec_connack_accepted(b@)),
    ensures
        spec_next_state(s, e) == ConnectionState::Disconnected,
        spec_next_action(s, e) == SupervisorAction::Wait,
        spec_next_state(ConnectionState::Disconnected, SupervisorEvent::DelayElapsed)
            == ConnectionState::Connecting,
        spec_next_action(ConnectionState::Disconnected, SupervisorEvent::DelayElapsed)
            == SupervisorAction::Connect,
{
}

/// Law: a shutdown request terminates the supervisor from every state —
/// in particular during the retry delay — and the stopped state is
/// absorbing: no later event yields any action but `Stop`, so no further
/// connection attempt is ever issued.
pub proof fn lemma_shutdown_is_final(s: ConnectionState, e: SupervisorEvent)
    ensures
        spec_next_state(s, SupervisorEvent::ShutdownRequested) == ConnectionState::Stopped,
        spec_next_action(s, SupervisorEvent::ShutdownRequested) == SupervisorAction::Stop,
        spec_next_state(ConnectionState::Stopped, e) == ConnectionState::Stopped,
        spec_next_action(ConnectionState::Stopped, e) == SupervisorAction::Stop,
{
}

/// Law: nothing but a shutdown request reaches the stopped state.
pub proof fn lemma_only_shutdown_stops(s: ConnectionState, e: SupervisorEvent)
    requires
        !(s is Stopped),
        !(e is ShutdownRequested),
    ensures
        spec_next_state(s, e) != ConnectionState::Stopped,
{
}

} // verus!
