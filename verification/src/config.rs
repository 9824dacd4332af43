//! Connection configuration records and the connection kind they encode.

use vstd::prelude::*;
use crate::text::str_eq;

verus! {

/// The two configured connection kinds: outbound-message-capable, or
/// inbound-stream-only.
#[derive(Clone, Copy, PartialEq, Eq, Structural, Debug)]
pub enum ConnectionKind {
    Sender,
    Subscriber,
}

/// Stored configuration of one outbound connection, immutable once handed to
/// an actor for a connection attempt.
pub struct WebSocketConfig {
    pub id: String,
    pub name: String,
    pub description: Option<String>,
    pub ws_url: String,
    /// "sender" or "subscriber"; anything else encodes no kind.
    pub config_type: String,
    /// Optional headers, as JSON text.
    pub headers: Option<String>,
    pub auth_token: Option<String>,
    /// Outbound message template, for sender-type connections.
    pub message_template: Option<String>,
    pub auto_reconnect: bool,
    /// "active", "inactive" or "error".
    pub status: String,
    pub created_at: i64,
    pub updated_at: i64,
}

/// Whether a text parses as a URI. This names the verdict of http's URI
/// parser, a function of the text alone; nothing here says which texts pass.
pub uninterp spec fn uri_ok(s: Seq<char>) -> bool;

/// Relies on `http::Uri`'s `FromStr` impl: it accepts or rejects a URI text
/// as a function of the text alone, so its verdict is named `uri_ok`. On
/// rejection the parser's error display text is handed back.
#[verifier::external_body]
pub(crate) fn uri_check(url: &str) -> (r: Result<(), String>)
    ensures
        r is Ok <==> uri_ok(url@),
{
    match url.parse::<http::Uri>() {
        Ok(_) => Ok(()),
        Err(e) => Err(e.to_string()),
    }
}

/// The kind a `config_type` text encodes, if any.
pub open spec fn spec_kind_of(s: Seq<char>) -> Option<ConnectionKind> {
    if s == "sender"@ {
        Some(ConnectionKind::Sender)
    } else if s == "subscriber"@ {
        Some(ConnectionKind::Subscriber)
    } else {
        None
    }
}

/// Parses a connection-kind text: "sender" or "subscriber".
pub fn kind_of(s: &str) -> (r: Option<ConnectionKind>)
    ensures
        r == spec_kind_of(s@),
{
    if str_eq(s, "sender") {
        Some(ConnectionKind::Sender)
    } else if str_eq(s, "subscriber") {
        Some(ConnectionKind::Subscriber)
    } else {
        None
    }
}

impl WebSocketConfig {
    /// The kind this configuration encodes, if any.
    pub open spec fn kind(self) -> Option<ConnectionKind> {
        spec_kind_of(self.config_type@)
    }

    /// Parses this configuration's kind.
    pub fn parse_kind(&self) -> (r: Option<ConnectionKind>)
        ensures
            r == self.kind(),
    {
        kind_of(self.config_type.as_str())
    }
}

impl Clone for WebSocketConfig {
    fn clone(&self) -> (r: Self)
        ensures
            r == *self,
    {
        WebSocketConfig {
            id: self.id.clone(),
            name: self.name.clone(),
            description: clone_opt_string(&self.description),
            ws_url: self.ws_url.clone(),
            config_type: self.config_type.clone(),
            headers: clone_opt_string(&self.headers),
            auth_token: clone_opt_string(&self.auth_token),
            message_template: clone_opt_string(&self.message_template),
            auto_reconnect: self.auto_reconnect,
            status: self.status.clone(),
            created_at: self.created_at,
            updated_at: self.updated_at,
        }
    }
}

/// Clones an optional string, keeping the value exactly.
pub fn clone_opt_string(o: &Option<String>) -> (r: Option<String>)
    ensures
        r == *o,
{
    match o {
        Some(s) => Some(s.clone()),
        None => None,
    }
}

/// A new configuration as the boundary submits it, before the service assigns
/// identifier, status and timestamps.
pub struct NewWebSocketConfig {
    pub name: String,
    pub description: Option<String>,
    pub ws_url: String,
    pub config_type: String,
    pub headers: Option<String>,
    pub auth_token: Option<String>,
    pub message_template: Option<String>,
    pub auto_reconnect: Option<bool>,
}

/// A partial update to a stored configuration.
pub struct UpdateWebSocketConfig {
    pub name: Option<String>,
    pub description: Option<String>,
    pub ws_url: Option<String>,
    pub config_type: Option<String>,
    pub headers: Option<String>,
    pub auth_token: Option<String>,
    pub message_template: Option<String>,
    pub auto_reconnect: Option<bool>,
    pub status: Option<String>,
}

/// Builds the stored configuration for a newly submitted one: the caller
/// supplies the fresh identifier and the current time; auto-reconnect
/// defaults to on, and the record starts inactive.
pub fn build_config(payload: NewWebSocketConfig, id: String, now: i64) -> (c: WebSocketConfig)
    ensures
        c.id == id,
        c.name == payload.name,
        c.description == payload.description,
        c.ws_url == payload.ws_url,
        c.config_type == payload.config_type,
        c.headers == payload.headers,
        c.auth_token == payload.auth_token,
        c.message_template == payload.message_template,
        c.auto_reconnect == payload.auto_reconnect.unwrap_or(true),
        c.status@ == "inactive"@,
        c.created_at == now,
        c.updated_at == now,
{
    WebSocketConfig {
        id,
        name: payload.name,
        description: payload.description,
        ws_url: payload.ws_url,
        config_type: payload.config_type,
        headers: payload.headers,
        auth_token: payload.auth_token,
        message_template: payload.message_template,
        auto_reconnect: payload.auto_reconnect.unwrap_or(true),
        status: "inactive".to_owned(),
        created_at: now,
        updated_at: now,
    }
}

impl WebSocketConfig {
    /// The stored record after an update request: only the update timestamp
    /// moves.
    pub fn touched(self, now: i64) -> (c: WebSocketConfig)
        ensures
            c == (WebSocketConfig { updated_at: now, ..self }),
    {
        WebSocketConfig { updated_at: now, ..self }
    }
}

} // verus!
