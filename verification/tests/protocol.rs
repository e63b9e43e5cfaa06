use std::time::Duration;

use mini_mqtt_client::protocol::{
    qos_level, ConnectionState, MqttCapability, MqttProtocolVersion, QosLevel, ReconnectPolicy,
};

#[test]
fn mqtt_5_capabilities_are_not_enabled_for_mqtt_311() {
    for capability in [
        MqttCapability::PublishProperties,
        MqttCapability::SessionExpiry,
        MqttCapability::TopicAlias,
    ] {
        assert!(MqttProtocolVersion::V5_0.supports(capability));
        assert!(!MqttProtocolVersion::V3_1_1.supports(capability));
    }
}

#[test]
fn reconnect_backoff_is_capped_and_jittered() {
    let policy = ReconnectPolicy::default();

    assert_eq!(Duration::from_millis(policy.delay(1, 0)), Duration::from_millis(250));
    assert_eq!(Duration::from_millis(policy.delay(2, 500)), Duration::from_millis(1_000));
    assert_eq!(Duration::from_millis(policy.delay(20, 0)), Duration::from_secs(15));
    assert_eq!(Duration::from_millis(policy.delay(20, 15_000)), Duration::from_secs(30));
}

#[test]
fn connection_state_reports_actual_protocol_version() {
    let state = ConnectionState::new(1, "connected", None, Some(MqttProtocolVersion::V5_0));

    assert_eq!(state.protocol_version.map(|v| v.as_str()), Some("5.0"));
    let names: Vec<&str> = state.capabilities.iter().map(|c| c.as_str()).collect();
    assert_eq!(names, vec!["publish_properties", "session_expiry", "topic_alias"]);
}

#[test]
fn reconnecting_state_reports_attempt_error_and_delay() {
    let state = ConnectionState::reconnecting(
        1,
        "network unavailable".to_string(),
        MqttProtocolVersion::V3_1_1,
        3,
        Duration::from_millis(1_750).as_millis() as u64,
    );

    assert_eq!(state.status, "reconnecting");
    assert_eq!(state.error.as_deref(), Some("network unavailable"));
    assert_eq!(state.reconnect_attempt, Some(3));
    assert_eq!(state.retry_in_ms, Some(1_750));
}

#[test]
fn mqtt_311_reports_no_capabilities() {
    let state = ConnectionState::new(4, "connected", None, Some(MqttProtocolVersion::V3_1_1));
    assert!(state.capabilities.is_empty());
    assert_eq!(MqttProtocolVersion::V3_1_1.capabilities(), Vec::<MqttCapability>::new());
    let unknown = ConnectionState::new(4, "disconnected", Some("bye".to_string()), None);
    assert!(unknown.capabilities.is_empty());
    assert_eq!(unknown.protocol_version, None);
}

#[test]
fn protocol_version_names_round_trip() {
    for version in [MqttProtocolVersion::V3_1_1, MqttProtocolVersion::V5_0] {
        assert_eq!(MqttProtocolVersion::try_from(version.as_str()), Ok(version));
    }
    assert_eq!(
        MqttProtocolVersion::try_from("3.1"),
        Err("Unsupported MQTT protocol version: 3.1. Supported versions: 3.1.1, 5.0".to_string())
    );
}

#[test]
fn backoff_first_attempt_and_cap_values() {
    let policy = ReconnectPolicy::default();
    assert_eq!(policy.delay(0, 0), 250);
    assert_eq!(policy.delay(1, 251), 250);
    assert_eq!(policy.delay(1, 250), 500);
    assert_eq!(policy.delay(1, 500), 499);
    assert_eq!(policy.delay(3, 0), 1_000);
    assert_eq!(policy.delay(3, 1_999), 1_998);
    assert_eq!(policy.delay(u32::MAX, u64::MAX), 15_000 + u64::MAX % 15_001);
    for attempt in 1..40u32 {
        for seed in [0u64, 7, 999, 123_456, u64::MAX] {
            let d = policy.delay(attempt, seed);
            assert!(d <= 30_000);
            assert!(d >= 250);
        }
    }
}

#[test]
fn qos_levels_are_zero_one_and_two() {
    assert_eq!(qos_level(0), Ok(QosLevel::AtMostOnce));
    assert_eq!(qos_level(1), Ok(QosLevel::AtLeastOnce));
    assert_eq!(qos_level(2), Ok(QosLevel::ExactlyOnce));
    assert_eq!(qos_level(3), Err("Invalid QoS".to_string()));
}
