use mini_mqtt_client::events::ProtocolEvent;
use mini_mqtt_client::models::Subscription;
use mini_mqtt_client::protocol::MqttProtocolVersion;
use mini_mqtt_client::supervisor::{
    restore_step, subscriptions_to_restore, ConnectionSupervisor, RestoreStep, SupervisorAction,
};

fn sub(id: Option<i64>, topic: &str, qos: i32, is_active: bool) -> Subscription {
    Subscription {
        id,
        server_id: 1,
        topic: topic.to_string(),
        qos,
        is_active,
        color: None,
        created_at: None,
    }
}

#[test]
fn fresh_sessions_restore_and_resumed_ones_do_not() {
    let mut s = ConnectionSupervisor::new(1, MqttProtocolVersion::V5_0, 0);
    match s.on_event(Ok(ProtocolEvent::Connected { session_present: false })) {
        SupervisorAction::Connected { state, restore_subscriptions } => {
            assert!(restore_subscriptions);
            assert_eq!(state.status, "connected");
        }
        other => panic!("unexpected {:?}", other),
    }
    match s.on_event(Ok(ProtocolEvent::Connected { session_present: true })) {
        SupervisorAction::Connected { restore_subscriptions, .. } => assert!(!restore_subscriptions),
        other => panic!("unexpected {:?}", other),
    }
}

#[test]
fn lost_connections_back_off_and_a_connection_resets_the_count() {
    let mut s = ConnectionSupervisor::new(1, MqttProtocolVersion::V3_1_1, 0);
    match s.on_event(Err("refused".to_string())) {
        SupervisorAction::ConnectionLost(e) => assert_eq!(e, "Failed to connect: refused"),
        other => panic!("unexpected {:?}", other),
    }
    let first = s.plan_reconnect("refused".to_string());
    assert_eq!(first.attempt, 1);
    assert_eq!(first.delay_ms, 250 + 1 % 251);
    assert_eq!(first.state.status, "reconnecting");
    assert_eq!(first.state.reconnect_attempt, Some(1));
    assert_eq!(first.operation_error, "Connection closed before acknowledgement: refused");
    let second = s.plan_reconnect("refused".to_string());
    assert_eq!(second.attempt, 2);
    s.on_event(Ok(ProtocolEvent::Connected { session_present: false }));
    match s.on_event(Err("reset".to_string())) {
        SupervisorAction::ConnectionLost(e) => assert_eq!(e, "Connection error: reset"),
        other => panic!("unexpected {:?}", other),
    }
    assert_eq!(s.plan_reconnect("reset".to_string()).attempt, 1);
}

#[test]
fn restore_rechecks_what_is_stored_now() {
    let stored = vec![
        sub(Some(1), "a", 1, true),
        sub(Some(2), "b", 0, false),
        sub(None, "c", 2, true),
    ];
    let wanted = subscriptions_to_restore(&stored);
    assert_eq!(wanted.len(), 2);

    let now = vec![sub(Some(1), "a2", 2, true), sub(None, "c", 1, false)];
    match restore_step(true, &now, &wanted[0]) {
        RestoreStep::Subscribe { topic, qos } => {
            assert_eq!(topic, "a2");
            assert_eq!(qos, 2);
        }
        other => panic!("unexpected {:?}", other),
    }
    assert!(matches!(restore_step(true, &now, &wanted[1]), RestoreStep::Skip));
    assert!(matches!(restore_step(false, &now, &wanted[0]), RestoreStep::Stop));
}
