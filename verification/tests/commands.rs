use mini_mqtt_client::commands::{
    check_message_limit, check_mqtt_packet_size_limit, new_subscription, plan_publish,
    plan_subscription_update, publish_outcome_record, toggle_action, validate_payload_format,
    ToggleAction,
};
use mini_mqtt_client::models::{PublishPayload, Subscription, UpdateSubscriptionRequest};
use mini_mqtt_client::publish::{PublishOperationResult, PublishRuntimeStatus};
use mini_mqtt_client::text::trim;

#[test]
fn accepts_supported_payload_formats() {
    for format in ["text", "json", "hex", "base64"] {
        assert_eq!(validate_payload_format(format), Ok(()));
    }
}

#[test]
fn rejects_unknown_payload_formats() {
    assert_eq!(
        validate_payload_format("cbor"),
        Err("Unsupported payload format: cbor".to_string())
    );
}

fn payload(operation_id: &str, qos: i32, format: &str) -> PublishPayload {
    PublishPayload {
        operation_id: operation_id.to_string(),
        topic: "sensors/temp".to_string(),
        payload: "21.5".to_string(),
        payload_bytes: b"21.5".to_vec(),
        format: format.to_string(),
        qos,
        retain: true,
    }
}

#[test]
fn publish_plan_records_a_pending_history_row() {
    let plan = plan_publish(3, payload("  op-7 ", 1, "text")).unwrap();
    assert_eq!(plan.operation_id, "op-7");
    assert_eq!(plan.topic, "sensors/temp");
    assert_eq!(plan.payload_bytes, b"21.5".to_vec());
    assert_eq!(plan.qos, 1);
    assert!(plan.retain);
    let h = plan.history;
    assert_eq!(h.id, None);
    assert_eq!(h.server_id, 3);
    assert_eq!(h.direction, "publish");
    assert_eq!(h.payload.as_deref(), Some("21.5"));
    assert_eq!(h.payload_format.as_deref(), Some("text"));
    assert_eq!(h.operation_id.as_deref(), Some("op-7"));
    assert_eq!(h.publish_status.as_deref(), Some("pending"));
    assert_eq!(h.created_at, None);
}

#[test]
fn publish_refusals_come_in_order() {
    assert_eq!(
        plan_publish(3, payload("   ", 7, "cbor")).unwrap_err(),
        "Publish operation ID is required"
    );
    assert_eq!(plan_publish(3, payload("op", 3, "cbor")).unwrap_err(), "Invalid QoS");
    assert_eq!(plan_publish(3, payload("op", -1, "text")).unwrap_err(), "Invalid QoS");
    assert_eq!(
        plan_publish(3, payload("op", 2, "cbor")).unwrap_err(),
        "Unsupported payload format: cbor"
    );
}

#[test]
fn publish_outcome_is_recorded_by_status() {
    let ok: Result<PublishOperationResult, String> = Ok(PublishOperationResult {
        operation_id: "op".to_string(),
        status: PublishRuntimeStatus::Confirmed,
        packet_id: Some(9),
    });
    assert_eq!(publish_outcome_record(&ok), ("confirmed", Some(9), None));
    let failed: Result<PublishOperationResult, String> = Err("timed out".to_string());
    assert_eq!(
        publish_outcome_record(&failed),
        ("failed", None, Some("timed out".to_string()))
    );
}

#[test]
fn settings_limits_are_checked_inclusively() {
    assert_eq!(check_message_limit(100), Ok(()));
    assert_eq!(check_message_limit(10_000), Ok(()));
    assert_eq!(
        check_message_limit(99),
        Err("Message limit must be between 100 and 10000".to_string())
    );
    assert_eq!(check_mqtt_packet_size_limit(10), Ok(()));
    assert_eq!(check_mqtt_packet_size_limit(102_400), Ok(()));
    assert_eq!(
        check_mqtt_packet_size_limit(102_401),
        Err("MQTT packet size limit must be between 10 KB and 102400 KB".to_string())
    );
}

fn sub(id: i64, topic: &str, qos: i32, is_active: bool) -> Subscription {
    Subscription {
        id: Some(id),
        server_id: 1,
        topic: topic.to_string(),
        qos,
        is_active,
        color: None,
        created_at: None,
    }
}

#[test]
fn subscription_update_plan_follows_the_stored_subscription() {
    let subs = vec![sub(1, "a/b", 0, true), sub(2, "c/d", 1, false)];
    let request = UpdateSubscriptionRequest {
        id: 1,
        topic: Some("a/c".to_string()),
        qos: Some(0),
        color: None,
    };
    let plan = plan_subscription_update(&subs, "a/b", &request, true).unwrap();
    assert!(plan.topic_changed);
    assert!(!plan.qos_changed);
    assert!(plan.subscribed);
    assert!(plan.unsubscribe_first());
    assert!(plan.resubscribe_after());

    let qos_only = UpdateSubscriptionRequest { id: 2, topic: None, qos: Some(2), color: None };
    let plan = plan_subscription_update(&subs, "c/d", &qos_only, true).unwrap();
    assert!(!plan.topic_changed);
    assert!(plan.qos_changed);
    assert!(!plan.subscribed);
    assert!(!plan.resubscribe_after());

    assert_eq!(
        plan_subscription_update(&subs, "x", &request, true).unwrap_err(),
        "Subscription changed; reload before editing"
    );
    let missing = UpdateSubscriptionRequest { id: 9, topic: None, qos: None, color: None };
    assert_eq!(
        plan_subscription_update(&subs, "a/b", &missing, true).unwrap_err(),
        "Subscription not found"
    );
}

#[test]
fn toggling_acts_only_when_connected() {
    assert_eq!(toggle_action(false, true), ToggleAction::Nothing);
    assert_eq!(toggle_action(true, true), ToggleAction::Subscribe);
    assert_eq!(toggle_action(true, false), ToggleAction::Unsubscribe);
}

#[test]
fn new_subscriptions_start_active() {
    let s = new_subscription(5, "t".to_string(), 2);
    assert_eq!(s.id, None);
    assert!(s.is_active);
    assert_eq!(s.qos, 2);
}

#[test]
fn trimming_removes_unicode_white_space_at_both_ends_only() {
    assert_eq!(trim("\u{3000} \t a b\u{2009}c \n\u{85}"), "a b\u{2009}c");
    assert_eq!(trim(" \u{A0}\u{205F} "), "");
    assert_eq!(trim(""), "");
    assert_eq!(trim("x"), "x");
    assert_eq!(trim("\u{200B}x\u{200B}"), "\u{200B}x\u{200B}");
}
