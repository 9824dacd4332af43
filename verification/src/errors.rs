//! The error taxonomy of the connection manager.

use vstd::prelude::*;

verus! {

/// The manager's failure taxonomy.
///
/// `ConnectFailed` covers a refused or timed-out handshake; `NotConnected`, an
/// operation against an identifier with no live entry; `WrongConnectionKind`,
/// a send to a non-sender or a subscribe to a non-subscriber; `TransportError`
/// carries a mid-life read or write failure; `Timeout` is an exceeded wait —
/// the probe, whose reply wait is the one bounded wait here, folds it into
/// its response as a note rather than a failure.
#[derive(Debug)]
pub enum WsError {
    ConnectFailed(String),
    NotConnected,
    WrongConnectionKind,
    TransportError(String),
    Timeout,
}

} // verus!
