use serde_json::Value;
use switchboard::classifier::{classify, classify_fields};
use switchboard::status::BridgeStatus;

fn message(text: &str) -> Value {
    serde_json::from_str(text).unwrap()
}

#[test]
fn auth_qr_with_empty_data_needs_auth() {
    assert_eq!(
        classify(&message("{\"type\":\"auth.qr\",\"data\":{}}")),
        Some(BridgeStatus::AuthNeeded)
    );
}

#[test]
fn status_message_reports_connected() {
    assert_eq!(
        classify(&message("{\"type\":\"status\",\"data\":{\"status\":\"connected\"}}")),
        Some(BridgeStatus::Connected)
    );
}

#[test]
fn ping_dictates_nothing() {
    assert_eq!(classify(&message("{\"type\":\"ping\"}")), None);
}

#[test]
fn auth_success_connects() {
    assert_eq!(
        classify(&message("{\"type\":\"auth.success\"}")),
        Some(BridgeStatus::Connected)
    );
}

#[test]
fn every_auth_request_needs_auth() {
    for kind in ["auth.qr", "auth.code_needed", "auth.phone_needed"] {
        let text = format!("{{\"type\":\"{}\"}}", kind);
        assert_eq!(classify(&message(&text)), Some(BridgeStatus::AuthNeeded));
    }
}

#[test]
fn status_message_reports_each_status() {
    for status in [
        BridgeStatus::AuthNeeded,
        BridgeStatus::Connected,
        BridgeStatus::Disconnected,
    ] {
        let text = format!(
            "{{\"type\":\"status\",\"data\":{{\"status\":\"{}\"}}}}",
            status.as_str()
        );
        assert_eq!(classify(&message(&text)), Some(status));
    }
}

#[test]
fn status_message_with_unknown_status_dictates_nothing() {
    assert_eq!(
        classify(&message("{\"type\":\"status\",\"data\":{\"status\":\"syncing\"}}")),
        None
    );
    assert_eq!(
        classify(&message("{\"type\":\"status\",\"data\":{\"status\":\"CONNECTED\"}}")),
        None
    );
}

#[test]
fn status_message_without_a_readable_status_dictates_nothing() {
    assert_eq!(classify(&message("{\"type\":\"status\"}")), None);
    assert_eq!(classify(&message("{\"type\":\"status\",\"data\":{}}")), None);
    assert_eq!(classify(&message("{\"type\":\"status\",\"data\":null}")), None);
    assert_eq!(
        classify(&message("{\"type\":\"status\",\"data\":\"connected\"}")),
        None
    );
    assert_eq!(
        classify(&message("{\"type\":\"status\",\"data\":[\"connected\"]}")),
        None
    );
    assert_eq!(
        classify(&message("{\"type\":\"status\",\"data\":{\"status\":1}}")),
        None
    );
    assert_eq!(
        classify(&message("{\"type\":\"status\",\"status\":\"connected\"}")),
        None
    );
}

#[test]
fn missing_or_unreadable_type_dictates_nothing() {
    assert_eq!(classify(&message("{}")), None);
    assert_eq!(
        classify(&message("{\"data\":{\"status\":\"connected\"}}")),
        None
    );
    assert_eq!(classify(&message("{\"type\":7}")), None);
    assert_eq!(classify(&message("{\"type\":null}")), None);
    assert_eq!(classify(&message("{\"type\":[\"auth.success\"]}")), None);
    assert_eq!(classify(&message("{\"Type\":\"auth.success\"}")), None);
}

#[test]
fn values_that_are_no_objects_dictate_nothing() {
    assert_eq!(classify(&message("null")), None);
    assert_eq!(classify(&message("true")), None);
    assert_eq!(classify(&message("12.5")), None);
    assert_eq!(classify(&message("\"auth.success\"")), None);
    assert_eq!(classify(&message("[{\"type\":\"auth.success\"}]")), None);
}

#[test]
fn types_are_matched_exactly() {
    assert_eq!(classify(&message("{\"type\":\"auth.success \"}")), None);
    assert_eq!(classify(&message("{\"type\":\"AUTH.SUCCESS\"}")), None);
    assert_eq!(classify(&message("{\"type\":\"auth\"}")), None);
    assert_eq!(classify(&message("{\"type\":\"auth.qr.refresh\"}")), None);
    assert_eq!(classify(&message("{\"type\":\"\"}")), None);
}

#[test]
fn reported_status_counts_only_for_status_messages() {
    assert_eq!(
        classify(&message("{\"type\":\"ping\",\"data\":{\"status\":\"connected\"}}")),
        None
    );
    assert_eq!(
        classify(&message(
            "{\"type\":\"auth.success\",\"data\":{\"status\":\"disconnected\"}}"
        )),
        Some(BridgeStatus::Connected)
    );
    assert_eq!(
        classify(&message("{\"type\":\"auth.qr\",\"data\":{\"status\":\"connected\"}}")),
        Some(BridgeStatus::AuthNeeded)
    );
}

#[test]
fn extra_members_do_not_matter() {
    assert_eq!(
        classify(&message(
            "{\"id\":4,\"type\":\"status\",\"data\":{\"since\":10,\"status\":\"auth_needed\"}}"
        )),
        Some(BridgeStatus::AuthNeeded)
    );
}

#[test]
fn fields_are_classified_like_messages() {
    assert_eq!(
        classify_fields(Some("auth.success"), None),
        Some(BridgeStatus::Connected)
    );
    assert_eq!(
        classify_fields(Some("auth.qr"), None),
        Some(BridgeStatus::AuthNeeded)
    );
    assert_eq!(
        classify_fields(Some("auth.code_needed"), Some("connected")),
        Some(BridgeStatus::AuthNeeded)
    );
    assert_eq!(
        classify_fields(Some("auth.phone_needed"), None),
        Some(BridgeStatus::AuthNeeded)
    );
    assert_eq!(
        classify_fields(Some("status"), Some("disconnected")),
        Some(BridgeStatus::Disconnected)
    );
    assert_eq!(classify_fields(Some("status"), Some("gone")), None);
    assert_eq!(classify_fields(Some("status"), None), None);
    assert_eq!(classify_fields(Some("ping"), Some("connected")), None);
    assert_eq!(classify_fields(None, Some("connected")), None);
    assert_eq!(classify_fields(None, None), None);
}
