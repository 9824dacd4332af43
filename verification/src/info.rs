//! Per-connection health record and its state machine states.

use vstd::prelude::*;
use crate::config::{clone_opt_string, WebSocketConfig};

verus! {

/// The states one connection actor moves through.
///
/// `Disconnected` doubles as the start state and the terminal state after a
/// clean close or an explicit disconnect; `Error` is terminal after a failure
/// the actor does not recover from. `ReconnectPending` holds between an
/// unexpected failure and the backed-off reconnect attempt.
#[derive(Clone, Copy, PartialEq, Eq, Structural, Debug)]
pub enum ConnState {
    Disconnected,
    Connecting,
    Connected,
    ReconnectPending,
    Error,
}

/// Health and metrics snapshot of one connection, owned by its actor and
/// exposed to callers by copy.
pub struct ConnectionInfo {
    pub config: WebSocketConfig,
    pub state: ConnState,
    /// When the current connection was established (epoch seconds).
    pub connection_time: Option<i64>,
    /// When the last frame arrived or was written (epoch seconds).
    pub last_message_time: Option<i64>,
    /// Frames sent plus frames received over this entry's lifetime.
    pub message_count: i64,
    /// Failures recorded over this entry's lifetime.
    pub error_count: i64,
    pub last_error: Option<String>,
}

impl ConnectionInfo {
    /// The record's invariant: counters never go negative, a connected record
    /// knows when it connected, and a counted error keeps its text.
    pub open spec fn wf(self) -> bool {
        &&& self.message_count >= 0
        &&& self.error_count >= 0
        &&& self.state == ConnState::Connected ==> self.connection_time is Some
        &&& self.error_count > 0 ==> self.last_error is Some
    }

    /// A fresh record for a configuration: disconnected, all counters zero.
    pub fn new(config: WebSocketConfig) -> (r: ConnectionInfo)
        ensures
            r.wf(),
            r.config == config,
            r.state == ConnState::Disconnected,
            r.connection_time is None,
            r.last_message_time is None,
            r.message_count == 0,
            r.error_count == 0,
            r.last_error is None,
    {
        ConnectionInfo {
            config,
            state: ConnState::Disconnected,
            connection_time: None,
            last_message_time: None,
            message_count: 0,
            error_count: 0,
            last_error: None,
        }
    }

    /// Whether the record currently reports a live connection.
    pub open spec fn spec_is_connected(self) -> bool {
        self.state == ConnState::Connected
    }

    /// Whether the record currently reports a live connection.
    pub fn is_connected(&self) -> (r: bool)
        ensures
            r == self.spec_is_connected(),
    {
        match self.state {
            ConnState::Connected => true,
            _ => false,
        }
    }
}

impl Clone for ConnectionInfo {
    fn clone(&self) -> (r: Self)
        ensures
            r == *self,
    {
        ConnectionInfo {
            config: self.config.clone(),
            state: self.state,
            connection_time: self.connection_time,
            last_message_time: self.last_message_time,
            message_count: self.message_count,
            error_count: self.error_count,
            last_error: clone_opt_string(&self.last_error),
        }
    }
}

} // verus!
