//! The connection actor: one entry's state machine, outbound queue and
//! cancellation flag.
//!
//! The actor's two I/O loops (send and receive) run outside this crate; they
//! feed every observation back as an [`ActorEvent`] and perform the
//! [`ActorAction`] the step function returns. The step function itself is the
//! whole decision logic of one connection's lifetime.

use vstd::prelude::*;
use crate::config::WebSocketConfig;
use crate::info::{ConnState, ConnectionInfo};

verus! {

/// Fixed backoff before the single reconnect attempt, in milliseconds.
pub const RECONNECT_BACKOFF_MS: u64 = 1000;

/// Everything the outside loops can observe about one connection.
pub enum ActorEvent {
    /// An inbound frame arrived at `now` (epoch seconds).
    FrameReceived { now: i64 },
    /// An outbound frame was written at `now` (epoch seconds).
    SendSucceeded { now: i64 },
    /// Writing an outbound frame failed.
    SendFailed { error: String },
    /// Reading from the socket failed.
    TransportError { error: String },
    /// The peer closed the connection cleanly.
    PeerClosed,
    /// A caller asked this connection to stop.
    CancelRequested,
    /// The reconnect backoff delay has elapsed.
    BackoffElapsed,
    /// A reconnect handshake succeeded at `now` (epoch seconds).
    HandshakeOk { now: i64 },
    /// A reconnect handshake failed.
    HandshakeFailed { error: String },
}

/// What the outside loops must do after a step.
#[derive(Clone, Copy, PartialEq, Eq, Structural, Debug)]
pub enum ActorAction {
    /// Keep both loops running.
    Continue,
    /// Cancel both loops and release the socket once; the actor is done.
    StopLoops,
    /// Cancel both loops, release the socket once, sleep `millis`, then
    /// report `BackoffElapsed`.
    Backoff { millis: u64 },
    /// Attempt the handshake, then report `HandshakeOk` or `HandshakeFailed`.
    StartHandshake,
}

/// One connection's live handle: its health record, the outbound queue
/// (front is written next), the cancellation flag, and whether the single
/// reconnect attempt has been spent.
pub struct ConnectionActor {
    pub info: ConnectionInfo,
    pub pending: Vec<String>,
    pub cancel_requested: bool,
    pub reconnect_used: bool,
}

impl ConnectionActor {
    /// A fresh actor for a configuration, about to attempt its handshake:
    /// empty queue, no flags set, record in `Connecting`.
    pub fn new(config: WebSocketConfig) -> (a: ConnectionActor)
        ensures
            a.wf(),
            a.id() == config.id@,
            a.info.config == config,
            a.info.state == ConnState::Connecting,
            a.info.connection_time is None,
            a.info.last_message_time is None,
            a.info.message_count == 0,
            a.info.error_count == 0,
            a.info.last_error is None,
            a.pending@ == Seq::<String>::empty(),
            !a.cancel_requested,
            !a.reconnect_used,
    {
        let mut info = ConnectionInfo::new(config);
        info.state = ConnState::Connecting;
        ConnectionActor { info, pending: Vec::new(), cancel_requested: false, reconnect_used: false }
    }

    /// The identifier this actor serves.
    pub open spec fn id(self) -> Seq<char> {
        self.info.config.id@
    }

    /// The actor's invariant: its health record's invariant, and a connected
    /// actor always has its single reconnect attempt unspent — every
    /// transition into `Connected` (a fresh connect as much as a successful
    /// reconnect handshake) restores the budget.
    pub open spec fn wf(self) -> bool {
        &&& self.info.wf()
        &&& self.info.state == ConnState::Connected ==> !self.reconnect_used
    }

    /// Whether both counters can still be incremented.
    pub open spec fn counters_have_room(self) -> bool {
        &&& self.info.message_count < i64::MAX
        &&& self.info.error_count < i64::MAX
    }

    /// A failure step: the error is counted and kept, and the actor either
    /// schedules its one reconnect attempt or gives up.
    pub open spec fn fail_step(self, error: String) -> (ConnectionActor, ActorAction) {
        let counted = ConnectionInfo {
            error_count: (self.info.error_count + 1) as i64,
            last_error: Some(error),
            ..self.info
        };
        if self.info.config.auto_reconnect && !self.reconnect_used {
            (
                ConnectionActor {
                    info: (ConnectionInfo { state: ConnState::ReconnectPending, ..counted }),
                    ..self
                },
                ActorAction::Backoff { millis: RECONNECT_BACKOFF_MS },
            )
        } else {
            (
                ConnectionActor {
                    info: (ConnectionInfo { state: ConnState::Error, ..counted }),
                    ..self
                },
                ActorAction::StopLoops,
            )
        }
    }

    /// A frame was carried at `now`: count it and remember the time.
    pub open spec fn traffic_step(self, now: i64) -> (ConnectionActor, ActorAction) {
        (
            ConnectionActor {
                info: (ConnectionInfo {
                    message_count: (self.info.message_count + 1) as i64,
                    last_message_time: Some(now),
                    ..self.info
                }),
                ..self
            },
            ActorAction::Continue,
        )
    }

    /// A cancellation step: the flag is set, the state becomes terminal.
    pub open spec fn cancel_step(self) -> (ConnectionActor, ActorAction) {
        (
            ConnectionActor {
                info: (ConnectionInfo { state: ConnState::Disconnected, ..self.info }),
                cancel_requested: true,
                ..self
            },
            ActorAction::StopLoops,
        )
    }

    /// The transition relation of one connection: from the current state and
    /// an observed event to the next state and the loops' next duty.
    ///
    /// Unexpected events leave the actor unchanged; in a terminal state the
    /// loops are told to stop whatever arrives.
    pub open spec fn step(self, ev: ActorEvent) -> (ConnectionActor, ActorAction) {
        match self.info.state {
            ConnState::Connected => match ev {
                ActorEvent::FrameReceived { now } => self.traffic_step(now),
                ActorEvent::SendSucceeded { now } => self.traffic_step(now),
                ActorEvent::SendFailed { error } => self.fail_step(error),
                ActorEvent::TransportError { error } => self.fail_step(error),
                ActorEvent::PeerClosed => (
                    ConnectionActor {
                        info: (ConnectionInfo { state: ConnState::Disconnected, ..self.info }),
                        ..self
                    },
                    ActorAction::StopLoops,
                ),
                ActorEvent::CancelRequested => self.cancel_step(),
                _ => (self, ActorAction::Continue),
            },
            ConnState::ReconnectPending => match ev {
                ActorEvent::BackoffElapsed => (
                    ConnectionActor {
                        info: (ConnectionInfo { state: ConnState::Connecting, ..self.info }),
                        reconnect_used: true,
                        ..self
                    },
                    ActorAction::StartHandshake,
                ),
                ActorEvent::CancelRequested => self.cancel_step(),
                _ => (self, ActorAction::Continue),
            },
            ConnState::Connecting => match ev {
                ActorEvent::HandshakeOk { now } => (
                    ConnectionActor {
                        info: (ConnectionInfo {
                            state: ConnState::Connected,
                            connection_time: Some(now),
                            ..self.info
                        }),
                        reconnect_used: false,
                        ..self
                    },
                    ActorAction::Continue,
                ),
                ActorEvent::HandshakeFailed { error } => self.fail_step(error),
                ActorEvent::CancelRequested => self.cancel_step(),
                _ => (self, ActorAction::Continue),
            },
            ConnState::Disconnected => match ev {
                ActorEvent::CancelRequested => self.cancel_step(),
                _ => (self, ActorAction::StopLoops),
            },
            ConnState::Error => match ev {
                ActorEvent::CancelRequested => (
                    ConnectionActor {
                        info: (ConnectionInfo { state: ConnState::Error, ..self.info }),
                        cancel_requested: true,
                        ..self
                    },
                    ActorAction::StopLoops,
                ),
                _ => (self, ActorAction::StopLoops),
            },
        }
    }

    /// Takes one step of the state machine.
    pub fn on_event(&mut self, ev: ActorEvent) -> (a: ActorAction)
        requires
            old(self).wf(),
            old(self).counters_have_room(),
        ensures
            *final(self) == (*old(self)).step(ev).0,
            a == (*old(self)).step(ev).1,
            final(self).wf(),
            final(self).id() == old(self).id(),
            final(self).pending == old(self).pending,
    {
        match self.info.state {
            ConnState::Connected => match ev {
                ActorEvent::FrameReceived { now } => self.do_traffic(now),
                ActorEvent::SendSucceeded { now } => self.do_traffic(now),
                ActorEvent::SendFailed { error } => self.do_fail(error),
                ActorEvent::TransportError { error } => self.do_fail(error),
                ActorEvent::PeerClosed => {
                    self.info.state = ConnState::Disconnected;
                    ActorAction::StopLoops
                },
                ActorEvent::CancelRequested => self.do_cancel(),
                _ => ActorAction::Continue,
            },
            ConnState::ReconnectPending => match ev {
                ActorEvent::BackoffElapsed => {
                    self.info.state = ConnState::Connecting;
                    self.reconnect_used = true;
                    ActorAction::StartHandshake
                },
                ActorEvent::CancelRequested => self.do_cancel(),
                _ => ActorAction::Continue,
            },
            ConnState::Connecting => match ev {
                ActorEvent::HandshakeOk { now } => {
                    self.info.state = ConnState::Connected;
                    self.info.connection_time = Some(now);
                    self.reconnect_used = false;
                    ActorAction::Continue
                },
                ActorEvent::HandshakeFailed { error } => self.do_fail(error),
                ActorEvent::CancelRequested => self.do_cancel(),
                _ => ActorAction::Continue,
            },
            ConnState::Disconnected => match ev {
                ActorEvent::CancelRequested => self.do_cancel(),
                _ => ActorAction::StopLoops,
            },
            ConnState::Error => match ev {
                ActorEvent::CancelRequested => {
                    self.cancel_requested = true;
                    ActorAction::StopLoops
                },
                _ => ActorAction::StopLoops,
            },
        }
    }

    /// Counts an error, keeps its text, and decides between the single
    /// reconnect attempt and giving up.
    fn do_fail(&mut self, error: String) -> (a: ActorAction)
        requires
            old(self).wf(),
            old(self).info.error_count < i64::MAX,
        ensures
            *final(self) == (*old(self)).fail_step(error).0,
            a == (*old(self)).fail_step(error).1,
    {
        self.info.error_count = self.info.error_count + 1;
        self.info.last_error = Some(error);
        if self.info.config.auto_reconnect && !self.reconnect_used {
            self.info.state = ConnState::ReconnectPending;
            ActorAction::Backoff { millis: RECONNECT_BACKOFF_MS }
        } else {
            self.info.state = ConnState::Error;
            ActorAction::StopLoops
        }
    }

    /// Counts one carried frame and remembers its time.
    fn do_traffic(&mut self, now: i64) -> (a: ActorAction)
        requires
            old(self).wf(),
            old(self).info.message_count < i64::MAX,
        ensures
            *final(self) == (*old(self)).traffic_step(now).0,
            a == (*old(self)).traffic_step(now).1,
    {
        self.info.message_count = self.info.message_count + 1;
        self.info.last_message_time = Some(now);
        ActorAction::Continue
    }

    /// Sets the cancellation flag and moves to the terminal state.
    fn do_cancel(&mut self) -> (a: ActorAction)
        ensures
            *final(self) == (*old(self)).cancel_step().0,
            a == (*old(self)).cancel_step().1,
    {
        self.info.state = ConnState::Disconnected;
        self.cancel_requested = true;
        ActorAction::StopLoops
    }
}

/// A mid-life transport error on an auto-reconnect-enabled connection heals
/// without registry intervention: the actor alone steps `Connected` to
/// `ReconnectPending` (asking only for a backoff sleep), then to
/// `Connecting` (asking for a handshake), and a successful handshake brings
/// it back to `Connected` — with the error counted exactly once over the
/// whole cycle, and its text kept. Well-formedness already gives every
/// connected actor an unspent reconnect attempt, so the cycle needs only the
/// machine limit on the error counter.
pub proof fn lemma_auto_reconnect_cycle(a: ConnectionActor, error: String, t: i64)
    requires
        a.wf(),
        a.info.state == ConnState::Connected,
        a.info.config.auto_reconnect,
        a.info.error_count < i64::MAX,
    ensures
        ({
            let (a1, act1) = a.step(ActorEvent::TransportError { error });
            let (a2, act2) = a1.step(ActorEvent::BackoffElapsed);
            let (a3, act3) = a2.step(ActorEvent::HandshakeOk { now: t });
            &&& a1.info.state == ConnState::ReconnectPending
            &&& act1 == (ActorAction::Backoff { millis: RECONNECT_BACKOFF_MS })
            &&& a1.info.error_count == a.info.error_count + 1
            &&& a1.info.last_error == Some(error)
            &&& a2.info.state == ConnState::Connecting
            &&& act2 == ActorAction::StartHandshake
            &&& a3.info.state == ConnState::Connected
            &&& act3 == ActorAction::Continue
            &&& a3.info.error_count == a.info.error_count + 1
            &&& a3.info.connection_time == Some(t)
        }),
{
}

} // verus!
