use wstool_api::config::{build_config, kind_of, ConnectionKind, NewWebSocketConfig};
use wstool_api::feed::{apply_item_update, make_cex_item, CexItemMsg, Item, UpdateItem};
use wstool_api::messages::{inbound_frame_report, received_record, sent_record, to_status};
use wstool_api::paging::{binlog_window, config_page, message_window, ListQuery, PageParams};
use wstool_api::registry::{ConnectionRegistry, ConnectStart};
use wstool_api::response::ApiResponse;
use wstool_api::time::now_secs;

fn new_config(auto_reconnect: Option<bool>) -> NewWebSocketConfig {
    NewWebSocketConfig {
        name: "feed".to_owned(),
        description: Some("desc".to_owned()),
        ws_url: "wss://example.invalid/stream".to_owned(),
        config_type: "subscriber".to_owned(),
        headers: None,
        auth_token: Some("token".to_owned()),
        message_template: None,
        auto_reconnect,
    }
}

#[test]
fn api_response_ok_and_err() {
    let ok: ApiResponse<i64> = ApiResponse::ok(7);
    assert!(ok.success);
    assert_eq!(ok.data, Some(7));
    assert_eq!(ok.message, None);

    let err: ApiResponse<i64> = ApiResponse::err("nope".to_owned());
    assert!(!err.success);
    assert_eq!(err.data, None);
    assert_eq!(err.message.as_deref(), Some("nope"));
}

#[test]
fn kind_parsing() {
    assert_eq!(kind_of("sender"), Some(ConnectionKind::Sender));
    assert_eq!(kind_of("subscriber"), Some(ConnectionKind::Subscriber));
    assert_eq!(kind_of("broadcast"), None);
    assert_eq!(kind_of(""), None);
}

#[test]
fn build_config_fills_defaults() {
    let c = build_config(new_config(None), "id-1".to_owned(), 1700000000);
    assert_eq!(c.id, "id-1");
    assert_eq!(c.name, "feed");
    assert!(c.auto_reconnect);
    assert_eq!(c.status, "inactive");
    assert_eq!(c.created_at, 1700000000);
    assert_eq!(c.updated_at, 1700000000);

    let c2 = build_config(new_config(Some(false)), "id-2".to_owned(), 5);
    assert!(!c2.auto_reconnect);
}

#[test]
fn touched_only_moves_the_update_time() {
    let c = build_config(new_config(None), "id-1".to_owned(), 10);
    let t = c.touched(99);
    assert_eq!(t.id, "id-1");
    assert_eq!(t.created_at, 10);
    assert_eq!(t.updated_at, 99);
}

#[test]
fn sent_record_statuses() {
    let ok = sent_record("m1".to_owned(), "c1".to_owned(), "hello".to_owned(), 4, None);
    assert_eq!(ok.message_type, "sent");
    assert_eq!(ok.status, "success");
    assert_eq!(ok.error_message, None);
    assert_eq!(ok.content, "hello");
    assert_eq!(ok.timestamp, 4);

    let bad = sent_record(
        "m2".to_owned(),
        "c1".to_owned(),
        "hello".to_owned(),
        5,
        Some("queue gone".to_owned()),
    );
    assert_eq!(bad.status, "failed");
    assert_eq!(bad.error_message.as_deref(), Some("queue gone"));
}

#[test]
fn received_record_shape() {
    let m = received_record("m1".to_owned(), "c1".to_owned(), "tick".to_owned(), 9);
    assert_eq!(m.message_type, "received");
    assert_eq!(m.status, "success");
    assert_eq!(m.error_message, None);
}

#[test]
fn inbound_report_notes_json() {
    let (rec, is_json) = inbound_frame_report(
        "m1".to_owned(),
        "c1".to_owned(),
        "{\"price\": 3}".to_owned(),
        11,
    );
    assert!(is_json);
    assert_eq!(rec.content, "{\"price\": 3}");
    assert_eq!(rec.timestamp, 11);

    let (_, not_json) = inbound_frame_report(
        "m2".to_owned(),
        "c1".to_owned(),
        "plain tick".to_owned(),
        12,
    );
    assert!(!not_json);
}

#[test]
fn status_view_copies_the_record() {
    let mut r = ConnectionRegistry::new();
    let cfg = build_config(new_config(None), "c1".to_owned(), 0);
    assert!(matches!(r.connect_begin(cfg), Ok(ConnectStart::Handshake)));
    r.connect_finish("c1", Ok(50)).unwrap();
    let info = r.status("c1").unwrap();
    let s = to_status(&info);
    assert_eq!(s.config_id, "c1");
    assert!(s.is_connected);
    assert_eq!(s.connection_time, Some(50));
    assert_eq!(s.message_count, 0);
    assert_eq!(s.error_count, 0);
    assert_eq!(s.last_error, None);
}

#[test]
fn binlog_window_defaults() {
    let d = binlog_window(&PageParams { limit: None, offset: None });
    assert_eq!(d, (50, 0));
    let e = binlog_window(&PageParams { limit: Some(10), offset: Some(30) });
    assert_eq!(e, (10, 30));
}

#[test]
fn config_page_clamps() {
    let q = ListQuery { config_type: None, status: None, page: None, limit: None };
    assert_eq!(config_page(&q), (1, 20));
    let q2 = ListQuery { config_type: None, status: None, page: Some(0), limit: Some(1000) };
    assert_eq!(config_page(&q2), (1, 100));
    let q3 = ListQuery { config_type: None, status: None, page: Some(4), limit: Some(25) };
    assert_eq!(config_page(&q3), (4, 25));
}

#[test]
fn message_window_offsets() {
    assert_eq!(message_window(None, None), (1, 50, 0));
    assert_eq!(message_window(Some(3), Some(50)), (3, 50, 100));
    assert_eq!(message_window(Some(-2), Some(200)), (1, 100, 0));
}

#[test]
fn cex_item_fills_missing_texts() {
    let msgs = vec![CexItemMsg { title: "listing".to_owned(), created: 1, href: "h".to_owned() }];
    let c = make_cex_item(3, "ex".to_owned(), None, Some("#fff".to_owned()), msgs);
    assert_eq!(c.id, 3);
    assert_eq!(c.icon, "");
    assert_eq!(c.bg_color, "#fff");
    assert_eq!(c.messages.len(), 1);
}

#[test]
fn item_update_merges() {
    let item = Item {
        id: 1,
        name: "old".to_owned(),
        description: None,
        created_at: "2024-01-01".to_owned(),
    };
    let merged = apply_item_update(
        item,
        UpdateItem { name: Some("new".to_owned()), description: None },
    );
    assert_eq!(merged.name, "new");
    assert_eq!(merged.description, None);
    assert_eq!(merged.created_at, "2024-01-01");

    let item2 = Item {
        id: 1,
        name: "old".to_owned(),
        description: Some("keep".to_owned()),
        created_at: "2024-01-01".to_owned(),
    };
    let merged2 = apply_item_update(item2, UpdateItem { name: None, description: None });
    assert_eq!(merged2.name, "old");
    assert_eq!(merged2.description.as_deref(), Some("keep"));
}

#[test]
fn clock_reads_non_negative_seconds() {
    let t = now_secs();
    assert!(t >= 0);
}
