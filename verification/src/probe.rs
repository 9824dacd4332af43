//! The one-shot connectivity probe: connect, optionally send one test
//! message and wait briefly, report, release the socket.
//!
//! The probe never touches the registry. The boundary performs the handshake
//! and the bounded wait; [`probe_outcome`] is the whole decision of what the
//! probe reports for each thing the boundary observed.

use vstd::prelude::*;
use vstd::string::StringExecFns;

verus! {

/// How long the probe waits for one inbound frame after sending its test
/// message, in milliseconds. A silent peer within this wait still counts as
/// a pass: the handshake alone proved connectivity.
pub const PROBE_REPLY_TIMEOUT_MS: u64 = 5000;

/// What followed after the probe sent its test message.
pub enum ProbeWait {
    /// Writing the test message failed.
    SendFailed(String),
    /// A text frame came back.
    TextReply(String),
    /// A non-text frame came back.
    NonTextReply,
    /// Reading the reply failed.
    Failed(String),
    /// The peer closed the stream before any reply.
    Closed,
    /// No frame arrived within the reply timeout.
    TimedOut,
}

/// The probe's report to the boundary caller.
pub struct TestConnectionResponse {
    pub success: bool,
    pub message: String,
    pub response_time_ms: Option<u64>,
    pub received_data: Option<String>,
}

/// Whether a probe whose handshake succeeded passes, given what followed.
///
/// A reply, any reply, passes; so does silence until the timeout — the
/// handshake alone is the pass. Only a failed send, a failed read or a
/// closed stream fail.
pub open spec fn probe_success(wait: Option<ProbeWait>) -> bool {
    match wait {
        None => true,
        Some(ProbeWait::SendFailed(_)) => false,
        Some(ProbeWait::TextReply(_)) => true,
        Some(ProbeWait::NonTextReply) => true,
        Some(ProbeWait::Failed(_)) => false,
        Some(ProbeWait::Closed) => false,
        Some(ProbeWait::TimedOut) => true,
    }
}

/// The report text of a probe whose handshake succeeded.
pub open spec fn probe_message(wait: Option<ProbeWait>) -> Seq<char> {
    match wait {
        None => "Connection successful"@,
        Some(ProbeWait::SendFailed(e)) => "Failed to send test message: "@ + e@,
        Some(ProbeWait::TextReply(t)) => "Connection successful, received: "@ + t@,
        Some(ProbeWait::NonTextReply) => "Connection successful, received non-text message"@,
        Some(ProbeWait::Failed(e)) => "Connection error: "@ + e@,
        Some(ProbeWait::Closed) => "Connection closed unexpectedly"@,
        Some(ProbeWait::TimedOut) => "Connection successful, no response within timeout"@,
    }
}

/// The probe's report: from the handshake outcome, the measured handshake
/// time, and what followed the optional test message (`None` when none was
/// sent), to exactly what the caller sees. The elapsed time is always
/// reported.
pub fn probe_outcome(
    handshake: Result<(), String>,
    elapsed_ms: u64,
    wait: Option<ProbeWait>,
) -> (r: TestConnectionResponse)
    ensures
        r.response_time_ms == Some(elapsed_ms),
        r.received_data is None,
        match handshake {
            Ok(()) => r.success == probe_success(wait) && r.message@ == probe_message(wait),
            Err(e) => !r.success && r.message@ == "Connection failed: "@ + e@,
        },
{
    match handshake {
        Ok(()) => {
            let (success, message): (bool, String) = match wait {
                None => (true, "Connection successful".to_owned()),
                Some(ProbeWait::SendFailed(e)) => (
                    false,
                    "Failed to send test message: ".to_owned().concat(e.as_str()),
                ),
                Some(ProbeWait::TextReply(t)) => (
                    true,
                    "Connection successful, received: ".to_owned().concat(t.as_str()),
                ),
                Some(ProbeWait::NonTextReply) => (
                    true,
                    "Connection successful, received non-text message".to_owned(),
                ),
                Some(ProbeWait::Failed(e)) => (
                    false,
                    "Connection error: ".to_owned().concat(e.as_str()),
                ),
                Some(ProbeWait::Closed) => (false, "Connection closed unexpectedly".to_owned()),
                Some(ProbeWait::TimedOut) => (
                    true,
                    "Connection successful, no response within timeout".to_owned(),
                ),
            };
            TestConnectionResponse {
                success,
                message,
                response_time_ms: Some(elapsed_ms),
                received_data: None,
            }
        },
        Err(e) => TestConnectionResponse {
            success: false,
            message: "Connection failed: ".to_owned().concat(e.as_str()),
            response_time_ms: Some(elapsed_ms),
            received_data: None,
        },
    }
}

} // verus!
