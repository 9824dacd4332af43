use wstool_api::actor::{ActorAction, ActorEvent, RECONNECT_BACKOFF_MS};
use wstool_api::config::WebSocketConfig;
use wstool_api::info::ConnState;
use wstool_api::probe::{probe_outcome, ProbeWait, PROBE_REPLY_TIMEOUT_MS};
use wstool_api::registry::{ConnectionRegistry, ConnectStart};

fn cfg(id: &str, auto_reconnect: bool) -> WebSocketConfig {
    WebSocketConfig {
        id: id.to_owned(),
        name: "conn".to_owned(),
        description: None,
        ws_url: "ws://example.invalid/feed".to_owned(),
        config_type: "subscriber".to_owned(),
        headers: None,
        auth_token: None,
        message_template: None,
        auto_reconnect,
        status: "inactive".to_owned(),
        created_at: 0,
        updated_at: 0,
    }
}

fn connected(auto_reconnect: bool) -> ConnectionRegistry {
    let mut r = ConnectionRegistry::new();
    let start = r.connect_begin(cfg("c1", auto_reconnect));
    assert!(matches!(start, Ok(ConnectStart::Handshake)));
    r.connect_finish("c1", Ok(100)).unwrap();
    r
}

#[test]
fn transport_error_heals_through_reconnect_pending() {
    let mut r = connected(true);
    let act = r.actor_event("c1", ActorEvent::TransportError { error: "reset".to_owned() });
    assert_eq!(act, ActorAction::Backoff { millis: RECONNECT_BACKOFF_MS });
    let info = r.status("c1").unwrap();
    assert_eq!(info.state, ConnState::ReconnectPending);
    assert_eq!(info.error_count, 1);
    assert_eq!(info.last_error.as_deref(), Some("reset"));

    let act2 = r.actor_event("c1", ActorEvent::BackoffElapsed);
    assert_eq!(act2, ActorAction::StartHandshake);
    assert_eq!(r.status("c1").unwrap().state, ConnState::Connecting);

    let act3 = r.actor_event("c1", ActorEvent::HandshakeOk { now: 160 });
    assert_eq!(act3, ActorAction::Continue);
    let healed = r.status("c1").unwrap();
    assert_eq!(healed.state, ConnState::Connected);
    assert_eq!(healed.connection_time, Some(160));
    // the error was counted exactly once over the whole cycle
    assert_eq!(healed.error_count, 1);
}

#[test]
fn each_failure_counts_once() {
    let mut r = connected(true);
    r.actor_event("c1", ActorEvent::TransportError { error: "one".to_owned() });
    r.actor_event("c1", ActorEvent::BackoffElapsed);
    r.actor_event("c1", ActorEvent::HandshakeOk { now: 160 });
    // the successful reconnect restored the single-attempt budget
    let act = r.actor_event("c1", ActorEvent::TransportError { error: "two".to_owned() });
    assert_eq!(act, ActorAction::Backoff { millis: RECONNECT_BACKOFF_MS });
    let info = r.status("c1").unwrap();
    assert_eq!(info.error_count, 2);
    assert_eq!(info.last_error.as_deref(), Some("two"));
}

#[test]
fn failed_reconnect_handshake_gives_up() {
    let mut r = connected(true);
    r.actor_event("c1", ActorEvent::TransportError { error: "reset".to_owned() });
    r.actor_event("c1", ActorEvent::BackoffElapsed);
    let act = r.actor_event("c1", ActorEvent::HandshakeFailed { error: "refused".to_owned() });
    assert_eq!(act, ActorAction::StopLoops);
    let info = r.status("c1").unwrap();
    assert_eq!(info.state, ConnState::Error);
    assert_eq!(info.error_count, 2);
    assert_eq!(info.last_error.as_deref(), Some("refused"));
}

#[test]
fn transport_error_without_auto_reconnect_is_terminal() {
    let mut r = connected(false);
    let act = r.actor_event("c1", ActorEvent::TransportError { error: "reset".to_owned() });
    assert_eq!(act, ActorAction::StopLoops);
    let info = r.status("c1").unwrap();
    assert_eq!(info.state, ConnState::Error);
    assert_eq!(info.error_count, 1);
}

#[test]
fn clean_close_records_no_error() {
    let mut r = connected(true);
    let act = r.actor_event("c1", ActorEvent::PeerClosed);
    assert_eq!(act, ActorAction::StopLoops);
    let info = r.status("c1").unwrap();
    assert_eq!(info.state, ConnState::Disconnected);
    assert_eq!(info.error_count, 0);
    assert_eq!(info.last_error, None);
}

#[test]
fn inbound_frames_are_counted_in_arrival_order() {
    let mut r = connected(true);
    r.actor_event("c1", ActorEvent::FrameReceived { now: 110 });
    r.actor_event("c1", ActorEvent::FrameReceived { now: 120 });
    let info = r.status("c1").unwrap();
    assert_eq!(info.message_count, 2);
    assert_eq!(info.last_message_time, Some(120));
}

#[test]
fn queued_messages_survive_a_reconnect_cycle() {
    let mut r = ConnectionRegistry::new();
    let mut sender_cfg = cfg("c1", true);
    sender_cfg.config_type = "sender".to_owned();
    assert!(matches!(r.connect_begin(sender_cfg), Ok(ConnectStart::Handshake)));
    r.connect_finish("c1", Ok(100)).unwrap();
    r.send("c1", "m1".to_owned()).unwrap();
    r.send("c1", "m2".to_owned()).unwrap();
    // a failure and recovery leave the outbound queue untouched and ordered
    r.actor_event("c1", ActorEvent::TransportError { error: "reset".to_owned() });
    r.actor_event("c1", ActorEvent::BackoffElapsed);
    r.actor_event("c1", ActorEvent::HandshakeOk { now: 160 });
    assert_eq!(r.next_outbound("c1").as_deref(), Some("m1"));
    assert_eq!(r.next_outbound("c1").as_deref(), Some("m2"));
    assert_eq!(r.next_outbound("c1"), None);
}

#[test]
fn events_for_a_gone_entry_stop_the_loops() {
    let mut r = ConnectionRegistry::new();
    let act = r.actor_event("ghost", ActorEvent::FrameReceived { now: 1 });
    assert_eq!(act, ActorAction::StopLoops);
}

#[test]
fn probe_without_test_message_passes_on_handshake_alone() {
    let resp = probe_outcome(Ok(()), 42, None);
    assert!(resp.success);
    assert_eq!(resp.message, "Connection successful");
    assert_eq!(resp.response_time_ms, Some(42));
    assert_eq!(resp.received_data, None);
}

#[test]
fn probe_timeout_still_passes_with_the_no_response_note() {
    assert_eq!(PROBE_REPLY_TIMEOUT_MS, 5000);
    let resp = probe_outcome(Ok(()), 8, Some(ProbeWait::TimedOut));
    assert!(resp.success);
    assert_eq!(resp.message, "Connection successful, no response within timeout");
    assert_eq!(resp.response_time_ms, Some(8));
}

#[test]
fn probe_reports_each_reply_shape() {
    let text = probe_outcome(Ok(()), 5, Some(ProbeWait::TextReply("pong".to_owned())));
    assert!(text.success);
    assert_eq!(text.message, "Connection successful, received: pong");

    let non_text = probe_outcome(Ok(()), 5, Some(ProbeWait::NonTextReply));
    assert!(non_text.success);
    assert_eq!(non_text.message, "Connection successful, received non-text message");

    let failed = probe_outcome(Ok(()), 5, Some(ProbeWait::Failed("broken pipe".to_owned())));
    assert!(!failed.success);
    assert_eq!(failed.message, "Connection error: broken pipe");

    let closed = probe_outcome(Ok(()), 5, Some(ProbeWait::Closed));
    assert!(!closed.success);
    assert_eq!(closed.message, "Connection closed unexpectedly");

    let send_failed = probe_outcome(Ok(()), 5, Some(ProbeWait::SendFailed("oops".to_owned())));
    assert!(!send_failed.success);
    assert_eq!(send_failed.message, "Failed to send test message: oops");
}

#[test]
fn probe_handshake_failure_reports_elapsed_time() {
    let resp = probe_outcome(Err("connection refused".to_owned()), 77, None);
    assert!(!resp.success);
    assert_eq!(resp.message, "Connection failed: connection refused");
    assert_eq!(resp.response_time_ms, Some(77));
}
