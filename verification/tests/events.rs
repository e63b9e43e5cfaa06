use mini_mqtt_client::events::{
    map_v3_event, map_v5_event, ProtocolEvent, V3Event, V3SubscribeCode, V5AckReason, V5Event,
    V5SubscribeCode, V5UnsubscribeReason,
};
use mini_mqtt_client::publish::{PublishAckOutcome, PublishAckPhase};
use mini_mqtt_client::subscription::SubscriptionOperation;

#[test]
fn successful_connack_preserves_session_present() {
    let resumed = map_v3_event(V3Event::ConnAck {
        accepted: true,
        code: "Success".to_string(),
        session_present: true,
    })
    .unwrap();

    assert!(matches!(
        resumed,
        ProtocolEvent::Connected {
            session_present: true
        }
    ));
}

#[test]
fn mqtt_311_suback_exposes_packet_id_and_granted_qos() {
    let event = map_v3_event(V3Event::SubAck {
        packet_id: 41,
        return_codes: vec![V3SubscribeCode::Success(1)],
        return_codes_text: "[Success(AtLeastOnce)]".to_string(),
    })
    .unwrap();

    assert!(matches!(
        event,
        ProtocolEvent::SubscriptionAcknowledged {
            operation: SubscriptionOperation::Subscribe,
            packet_id: 41,
            granted_qos: Some(1),
        }
    ));
}

#[test]
fn mqtt_311_publish_events_expose_packet_ids() {
    let sent = map_v3_event(V3Event::OutgoingPublish { packet_id: 41 }).unwrap();
    assert!(matches!(
        sent,
        ProtocolEvent::PublishRequestSent { packet_id: 41 }
    ));

    let acknowledged = map_v3_event(V3Event::PubAck { packet_id: 41 }).unwrap();
    assert!(matches!(
        acknowledged,
        ProtocolEvent::PublishAcknowledged {
            phase: PublishAckPhase::PubAck,
            packet_id: 41,
            outcome: PublishAckOutcome::Success,
        }
    ));
}

#[test]
fn mqtt_5_publish_rejection_preserves_reason() {
    let event = map_v5_event(V5Event::PubAck {
        packet_id: 23,
        reason: V5AckReason::Other("NotAuthorized".to_string()),
    })
    .unwrap();

    assert!(matches!(
        event,
        ProtocolEvent::PublishAcknowledged {
            phase: PublishAckPhase::PubAck,
            packet_id: 23,
            outcome: PublishAckOutcome::Rejected(error),
        } if error.contains("NotAuthorized")
    ));
}

#[test]
fn mqtt_5_suback_exposes_packet_id_and_granted_qos() {
    let event = map_v5_event(V5Event::SubAck {
        packet_id: 17,
        return_codes: vec![V5SubscribeCode::Success(0)],
        return_codes_text: "[Success(AtMostOnce)]".to_string(),
    })
    .unwrap();

    assert!(matches!(
        event,
        ProtocolEvent::SubscriptionAcknowledged {
            operation: SubscriptionOperation::Subscribe,
            packet_id: 17,
            granted_qos: Some(0),
        }
    ));
}

#[test]
fn mqtt_5_rejection_is_classified_as_subscription_failure() {
    let event = map_v5_event(V5Event::SubAck {
        packet_id: 23,
        return_codes: vec![V5SubscribeCode::Refused("NotAuthorized".to_string())],
        return_codes_text: "[NotAuthorized]".to_string(),
    })
    .unwrap();

    assert!(matches!(
        event,
        ProtocolEvent::SubscriptionRejected {
            operation: SubscriptionOperation::Subscribe,
            packet_id: 23,
            error,
        } if error.contains("NotAuthorized")
    ));
}

#[test]
fn mqtt_5_missing_subscription_is_a_successful_unsubscribe() {
    let event = map_v5_event(V5Event::UnsubAck {
        packet_id: 29,
        reasons: vec![V5UnsubscribeReason::NoSubscriptionExisted],
        reasons_text: "[NoSubscriptionExisted]".to_string(),
    })
    .unwrap();

    assert!(matches!(
        event,
        ProtocolEvent::SubscriptionAcknowledged {
            operation: SubscriptionOperation::Unsubscribe,
            packet_id: 29,
            granted_qos: None,
        }
    ));
}

#[test]
fn refused_connections_and_failed_suback_codes() {
    assert_eq!(
        map_v3_event(V3Event::ConnAck {
            accepted: false,
            code: "BadUserNamePassword".to_string(),
            session_present: false,
        }),
        Ok(ProtocolEvent::ConnectionRefused("BadUserNamePassword".to_string()))
    );
    assert_eq!(
        map_v3_event(V3Event::SubAck {
            packet_id: 5,
            return_codes: vec![V3SubscribeCode::Failure],
            return_codes_text: "[Failure]".to_string(),
        }),
        Ok(ProtocolEvent::SubscriptionRejected {
            operation: SubscriptionOperation::Subscribe,
            packet_id: 5,
            error: "Broker rejected subscription".to_string(),
        })
    );
    assert_eq!(
        map_v3_event(V3Event::SubAck {
            packet_id: 6,
            return_codes: vec![],
            return_codes_text: "[]".to_string(),
        }),
        Ok(ProtocolEvent::SubscriptionRejected {
            operation: SubscriptionOperation::Subscribe,
            packet_id: 6,
            error: "Unexpected SUBACK return codes: []".to_string(),
        })
    );
}

#[test]
fn mqtt_5_acknowledgement_reasons() {
    assert_eq!(
        map_v5_event(V5Event::PubRec {
            packet_id: 3,
            reason: V5AckReason::NoMatchingSubscribers,
        }),
        Ok(ProtocolEvent::PublishAcknowledged {
            phase: PublishAckPhase::PubRec,
            packet_id: 3,
            outcome: PublishAckOutcome::Success,
        })
    );
    assert_eq!(
        map_v5_event(V5Event::PubComp {
            packet_id: 3,
            reason: V5AckReason::NoMatchingSubscribers,
        }),
        Ok(ProtocolEvent::PublishAcknowledged {
            phase: PublishAckPhase::PubComp,
            packet_id: 3,
            outcome: PublishAckOutcome::Rejected(
                "Broker failed to complete QoS 2 publish: NoMatchingSubscribers".to_string()
            ),
        })
    );
    assert_eq!(
        map_v5_event(V5Event::UnsubAck {
            packet_id: 8,
            reasons: vec![V5UnsubscribeReason::Refused("NotAuthorized".to_string())],
            reasons_text: "[NotAuthorized]".to_string(),
        }),
        Ok(ProtocolEvent::SubscriptionRejected {
            operation: SubscriptionOperation::Unsubscribe,
            packet_id: 8,
            error: "Broker rejected unsubscription: [NotAuthorized]".to_string(),
        })
    );
}

#[test]
fn mqtt_5_topics_must_be_utf8() {
    assert_eq!(
        map_v5_event(V5Event::Publish {
            topic: b"a/b".to_vec(),
            payload: vec![1, 2],
            qos: 1,
            retain: false,
        }),
        Ok(ProtocolEvent::Publish {
            topic: "a/b".to_string(),
            payload: vec![1, 2],
            qos: 1,
            retain: false,
        })
    );
    let error = map_v5_event(V5Event::Publish {
        topic: vec![0xff, 0xfe],
        payload: vec![],
        qos: 0,
        retain: false,
    })
    .unwrap_err();
    assert!(error.starts_with("Invalid MQTT 5.0 topic: "));
}
