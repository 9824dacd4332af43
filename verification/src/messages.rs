//! Boundary request shapes, status views, and the records handed to the
//! message-persistence sink.

use vstd::prelude::*;
use crate::config::clone_opt_string;
use crate::info::ConnectionInfo;

verus! {

/// One persisted frame: what the sink records for every sent or received
/// message.
pub struct WebSocketMessage {
    pub id: String,
    pub config_id: String,
    /// "sent" or "received".
    pub message_type: String,
    pub content: String,
    pub timestamp: i64,
    /// "success" or "failed".
    pub status: String,
    pub error_message: Option<String>,
}

/// A request to send one message over a sender-type connection.
pub struct SendMessageRequest {
    pub config_id: String,
    pub message: String,
    /// Optional extra headers, as JSON text.
    pub custom_headers: Option<String>,
}

/// A request to subscribe to a subscriber-type connection.
pub struct SubscribeRequest {
    pub config_id: String,
    /// Optional message filters, as JSON text.
    pub filters: Option<String>,
}

/// A request to probe an endpoint once, outside the registry.
pub struct TestConnectionRequest {
    pub ws_url: String,
    /// Optional headers, as JSON text.
    pub headers: Option<String>,
    pub auth_token: Option<String>,
    pub test_message: Option<String>,
}

/// One connection's health, shaped for boundary callers.
pub struct WebSocketStatus {
    pub config_id: String,
    pub is_connected: bool,
    pub connection_time: Option<i64>,
    pub last_message_time: Option<i64>,
    pub message_count: i64,
    pub error_count: i64,
    pub last_error: Option<String>,
}

/// The record the sink gets for an outbound message: status "success" when
/// the enqueue succeeded, "failed" with the error kept otherwise.
pub fn sent_record(
    id: String,
    config_id: String,
    content: String,
    timestamp: i64,
    error: Option<String>,
) -> (m: WebSocketMessage)
    ensures
        m.id == id,
        m.config_id == config_id,
        m.message_type@ == "sent"@,
        m.content == content,
        m.timestamp == timestamp,
        error is Some ==> m.status@ == "failed"@ && m.error_message == error,
        error is None ==> m.status@ == "success"@ && m.error_message is None,
{
    match error {
        Some(e) => WebSocketMessage {
            id,
            config_id,
            message_type: "sent".to_owned(),
            content,
            timestamp,
            status: "failed".to_owned(),
            error_message: Some(e),
        },
        None => WebSocketMessage {
            id,
            config_id,
            message_type: "sent".to_owned(),
            content,
            timestamp,
            status: "success".to_owned(),
            error_message: None,
        },
    }
}

/// The record the sink gets for an inbound frame.
pub fn received_record(id: String, config_id: String, content: String, timestamp: i64) -> (m:
    WebSocketMessage)
    ensures
        m.id == id,
        m.config_id == config_id,
        m.message_type@ == "received"@,
        m.content == content,
        m.timestamp == timestamp,
        m.status@ == "success"@,
        m.error_message is None,
{
    WebSocketMessage {
        id,
        config_id,
        message_type: "received".to_owned(),
        content,
        timestamp,
        status: "success".to_owned(),
        error_message: None,
    }
}

/// Whether a text parses as JSON. This names the verdict of serde_json's
/// parser, a function of the text alone; nothing here says which texts pass.
pub uninterp spec fn json_ok(s: Seq<char>) -> bool;

/// Relies on `serde_json::from_str::<serde_json::Value>`: it accepts or
/// rejects a text as JSON as a function of the text alone, so its verdict
/// is named `json_ok`.
#[verifier::external_body]
pub(crate) fn json_is_valid(text: &str) -> (r: bool)
    ensures
        r == json_ok(text@),
{
    serde_json::from_str::<serde_json::Value>(text).is_ok()
}

/// What the receive loop does with one inbound text frame carried at `now`:
/// the record for the persistence sink, and whether the frame parsed as
/// JSON — the note the receive hook makes of each frame.
pub fn inbound_frame_report(
    record_id: String,
    config_id: String,
    content: String,
    now: i64,
) -> (r: (WebSocketMessage, bool))
    ensures
        r.0.id == record_id,
        r.0.config_id == config_id,
        r.0.message_type@ == "received"@,
        r.0.content == content,
        r.0.timestamp == now,
        r.0.status@ == "success"@,
        r.0.error_message is None,
        r.1 == json_ok(content@),
{
    let is_json = json_is_valid(content.as_str());
    let record = received_record(record_id, config_id, content, now);
    (record, is_json)
}

/// The boundary's view of one health record, field for field.
pub fn to_status(info: &ConnectionInfo) -> (s: WebSocketStatus)
    ensures
        s.config_id == info.config.id,
        s.is_connected == info.spec_is_connected(),
        s.connection_time == info.connection_time,
        s.last_message_time == info.last_message_time,
        s.message_count == info.message_count,
        s.error_count == info.error_count,
        s.last_error == info.last_error,
{
    WebSocketStatus {
        config_id: info.config.id.clone(),
        is_connected: info.is_connected(),
        connection_time: info.connection_time,
        last_message_time: info.last_message_time,
        message_count: info.message_count,
        error_count: info.error_count,
        last_error: clone_opt_string(&info.last_error),
    }
}

} // verus!
