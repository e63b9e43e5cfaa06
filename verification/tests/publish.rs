use mini_mqtt_client::publish::{
    PublishAckOutcome, PublishCompletion, PublishOperationResult, PublishOperationTracker,
    PublishRuntimeStatus,
};
use mini_mqtt_client::subscription::WaitOutcome;

/// The outcome delivered so far for an operation, if any; delivered
/// outcomes are collected in `inbox`.
fn outcome(
    tracker: &mut PublishOperationTracker,
    inbox: &mut Vec<PublishCompletion>,
    operation_id: &str,
) -> Option<Result<PublishOperationResult, String>> {
    inbox.extend(tracker.take_completions());
    let found: Vec<&PublishCompletion> =
        inbox.iter().filter(|c| c.operation_id == operation_id).collect();
    assert!(found.len() <= 1, "an operation completes at most once");
    found.first().map(|c| c.outcome.clone())
}

#[test]
fn qos0_completes_as_sent_only_after_outgoing_publish() {
    let mut tracker = PublishOperationTracker::default();
    let mut inbox = Vec::new();
    let started = tracker.start(7, 0, "op-qos0".to_string()).unwrap();

    assert_eq!(started.status, PublishRuntimeStatus::Pending);
    assert!(outcome(&mut tracker, &mut inbox, "op-qos0").is_none());

    let state = tracker.on_outgoing_publish(0).unwrap();
    let result = outcome(&mut tracker, &mut inbox, "op-qos0").unwrap().unwrap();

    assert_eq!(state.status, PublishRuntimeStatus::Sent);
    assert_eq!(state.packet_id, None);
    assert_eq!(result.operation_id, "op-qos0");
    assert_eq!(result.status, PublishRuntimeStatus::Sent);
    assert_eq!(result.packet_id, None);
}

#[test]
fn qos1_remains_sent_until_matching_puback() {
    let mut tracker = PublishOperationTracker::default();
    let mut inbox = Vec::new();
    tracker.start(7, 1, "op-qos1".to_string()).unwrap();

    let sent = tracker.on_outgoing_publish(41).unwrap();
    assert_eq!(sent.status, PublishRuntimeStatus::Sent);
    assert_eq!(sent.packet_id, Some(41));
    assert!(outcome(&mut tracker, &mut inbox, "op-qos1").is_none());
    assert!(tracker.on_puback(42, PublishAckOutcome::Success).is_none());

    let confirmed = tracker.on_puback(41, PublishAckOutcome::Success).unwrap();
    let result = outcome(&mut tracker, &mut inbox, "op-qos1").unwrap().unwrap();

    assert_eq!(confirmed.status, PublishRuntimeStatus::Confirmed);
    assert_eq!(result.operation_id, "op-qos1");
    assert_eq!(result.status, PublishRuntimeStatus::Confirmed);
    assert_eq!(result.packet_id, Some(41));
}

#[test]
fn qos2_confirms_only_after_pubcomp() {
    let mut tracker = PublishOperationTracker::default();
    let mut inbox = Vec::new();
    tracker.start(7, 2, "op-qos2".to_string()).unwrap();

    let sent = tracker.on_outgoing_publish(51).unwrap();
    assert_eq!(sent.status, PublishRuntimeStatus::Sent);

    let pubrec = tracker.on_pubrec(51, PublishAckOutcome::Success).unwrap();
    assert_eq!(pubrec.status, PublishRuntimeStatus::Sent);
    assert!(outcome(&mut tracker, &mut inbox, "op-qos2").is_none());

    let confirmed = tracker.on_pubcomp(51, PublishAckOutcome::Success).unwrap();
    let result = outcome(&mut tracker, &mut inbox, "op-qos2").unwrap().unwrap();

    assert_eq!(confirmed.status, PublishRuntimeStatus::Confirmed);
    assert_eq!(result.operation_id, "op-qos2");
    assert_eq!(result.status, PublishRuntimeStatus::Confirmed);
    assert_eq!(result.packet_id, Some(51));
}

#[test]
fn timeout_before_outgoing_keeps_fifo_alignment() {
    let mut tracker = PublishOperationTracker::default();
    let mut inbox = Vec::new();
    tracker.start(7, 1, "op-first".to_string()).unwrap();
    tracker.start(7, 1, "op-second".to_string()).unwrap();

    let failed = tracker
        .fail_operation("op-first", "Publish acknowledgement timed out".to_string())
        .unwrap();
    assert_eq!(failed.status, PublishRuntimeStatus::Failed);
    assert_eq!(
        outcome(&mut tracker, &mut inbox, "op-first").unwrap().unwrap_err(),
        "Publish acknowledgement timed out"
    );

    assert!(tracker.on_outgoing_publish(61).is_none());
    let sent = tracker.on_outgoing_publish(62).unwrap();
    assert_eq!(sent.operation_id, "op-second");
    assert_eq!(sent.packet_id, Some(62));

    tracker.on_puback(62, PublishAckOutcome::Success).unwrap();
    assert_eq!(
        outcome(&mut tracker, &mut inbox, "op-second").unwrap().unwrap().operation_id,
        "op-second"
    );
}

#[test]
fn disconnect_fails_all_awaiting_and_sent_operations() {
    let mut tracker = PublishOperationTracker::default();
    let mut inbox = Vec::new();
    tracker.start(7, 1, "op-awaiting".to_string()).unwrap();
    tracker.start(7, 2, "op-sent".to_string()).unwrap();
    tracker.on_outgoing_publish(71).unwrap();

    let states = tracker.fail_all("Connection closed before acknowledgement".to_string());

    assert_eq!(states.len(), 2);
    assert!(states
        .iter()
        .all(|state| state.status == PublishRuntimeStatus::Failed));
    assert_eq!(
        outcome(&mut tracker, &mut inbox, "op-awaiting").unwrap().unwrap_err(),
        "Connection closed before acknowledgement"
    );
    assert_eq!(
        outcome(&mut tracker, &mut inbox, "op-sent").unwrap().unwrap_err(),
        "Connection closed before acknowledgement"
    );
    assert!(tracker.on_outgoing_publish(72).is_none());
    assert!(tracker.on_pubcomp(71, PublishAckOutcome::Success).is_none());
}

#[test]
fn enqueue_failure_removes_only_the_unsent_operation() {
    let mut tracker = PublishOperationTracker::default();
    let mut inbox = Vec::new();
    tracker.start(7, 1, "op-first".to_string()).unwrap();
    tracker.start(7, 1, "op-second".to_string()).unwrap();

    let failed = tracker
        .mark_enqueue_failed("op-first", "request channel closed".to_string())
        .unwrap();
    assert_eq!(failed.status, PublishRuntimeStatus::Failed);
    assert_eq!(
        outcome(&mut tracker, &mut inbox, "op-first").unwrap().unwrap_err(),
        "request channel closed"
    );

    let sent = tracker.on_outgoing_publish(81).unwrap();
    assert_eq!(sent.operation_id, "op-second");
    tracker.on_puback(81, PublishAckOutcome::Success).unwrap();
    assert_eq!(
        outcome(&mut tracker, &mut inbox, "op-second").unwrap().unwrap().operation_id,
        "op-second"
    );
}

#[test]
fn concurrent_publishes_bind_fifo_and_complete_by_packet_id() {
    let mut tracker = PublishOperationTracker::default();
    let mut inbox = Vec::new();
    tracker.start(7, 1, "op-first".to_string()).unwrap();
    tracker.start(7, 1, "op-second".to_string()).unwrap();

    assert_eq!(
        tracker.on_outgoing_publish(91).unwrap().operation_id,
        "op-first"
    );
    assert_eq!(
        tracker.on_outgoing_publish(92).unwrap().operation_id,
        "op-second"
    );

    tracker.on_puback(92, PublishAckOutcome::Success).unwrap();
    tracker.on_puback(91, PublishAckOutcome::Success).unwrap();
    assert_eq!(
        outcome(&mut tracker, &mut inbox, "op-first").unwrap().unwrap().packet_id,
        Some(91)
    );
    assert_eq!(
        outcome(&mut tracker, &mut inbox, "op-second").unwrap().unwrap().packet_id,
        Some(92)
    );
}

#[test]
fn unknown_duplicate_and_wrong_phase_ack_do_not_complete_another_publish() {
    let mut tracker = PublishOperationTracker::default();
    let mut inbox = Vec::new();
    tracker.start(7, 1, "op-first".to_string()).unwrap();
    tracker.start(7, 2, "op-second".to_string()).unwrap();
    tracker.on_outgoing_publish(101).unwrap();
    tracker.on_outgoing_publish(102).unwrap();

    assert!(tracker.on_puback(999, PublishAckOutcome::Success).is_none());
    assert!(tracker
        .on_pubcomp(101, PublishAckOutcome::Success)
        .is_none());
    assert!(outcome(&mut tracker, &mut inbox, "op-first").is_none());
    assert!(outcome(&mut tracker, &mut inbox, "op-second").is_none());

    tracker.on_puback(101, PublishAckOutcome::Success).unwrap();
    assert!(tracker.on_puback(101, PublishAckOutcome::Success).is_none());
    assert!(outcome(&mut tracker, &mut inbox, "op-second").is_none());

    tracker.on_pubrec(102, PublishAckOutcome::Success).unwrap();
    tracker.on_pubcomp(102, PublishAckOutcome::Success).unwrap();
    assert_eq!(
        outcome(&mut tracker, &mut inbox, "op-first").unwrap().unwrap().packet_id,
        Some(101)
    );
    assert_eq!(
        outcome(&mut tracker, &mut inbox, "op-second").unwrap().unwrap().packet_id,
        Some(102)
    );
}

#[test]
fn qos2_rejection_preserves_broker_reason() {
    let mut tracker = PublishOperationTracker::default();
    let mut inbox = Vec::new();
    tracker.start(7, 2, "op-qos2".to_string()).unwrap();
    tracker.on_outgoing_publish(111).unwrap();

    let state = tracker
        .on_pubrec(
            111,
            PublishAckOutcome::Rejected("NotAuthorized".to_string()),
        )
        .unwrap();

    assert_eq!(state.status, PublishRuntimeStatus::Failed);
    assert_eq!(state.error.as_deref(), Some("NotAuthorized"));
    assert_eq!(
        outcome(&mut tracker, &mut inbox, "op-qos2").unwrap().unwrap_err(),
        "NotAuthorized"
    );
}

#[test]
fn duplicate_operation_ids_and_invalid_qos_are_refused() {
    let mut tracker = PublishOperationTracker::new();
    tracker.start(7, 1, "op".to_string()).unwrap();
    assert!(tracker.start(7, 1, "op".to_string()).is_err());
    assert!(tracker.start(7, 3, "other".to_string()).is_err());
}

#[test]
fn waiting_past_the_deadline_fails_the_operation() {
    let mut tracker = PublishOperationTracker::default();
    let mut inbox = Vec::new();
    tracker.start(7, 1, "op".to_string()).unwrap();
    let (result, state) = tracker.settle_wait("op", WaitOutcome::TimedOut);
    assert_eq!(result.unwrap_err(), "Publish acknowledgement timed out");
    assert_eq!(state.unwrap().status, PublishRuntimeStatus::Failed);
    assert_eq!(
        outcome(&mut tracker, &mut inbox, "op").unwrap().unwrap_err(),
        "Publish acknowledgement timed out"
    );

    let (result, state) = tracker.settle_wait("op", WaitOutcome::Interrupted);
    assert_eq!(result.unwrap_err(), "Publish operation was interrupted");
    assert!(state.is_none());

    let done = Ok(PublishOperationResult {
        operation_id: "x".to_string(),
        status: PublishRuntimeStatus::Confirmed,
        packet_id: Some(4),
    });
    let (result, state) = tracker.settle_wait("x", WaitOutcome::Completed(done.clone()));
    assert_eq!(result, done);
    assert!(state.is_none());
}

#[test]
fn outgoing_packets_follow_start_order_and_skip_nothing() {
    let mut tracker = PublishOperationTracker::default();
    let mut inbox = Vec::new();
    assert!(tracker.on_outgoing_publish(5).is_none());

    tracker.start(7, 1, "op-a".to_string()).unwrap();
    tracker.start(7, 0, "op-b".to_string()).unwrap();
    tracker.start(7, 2, "op-c".to_string()).unwrap();
    tracker.mark_enqueue_failed("op-b", "queue full".to_string()).unwrap();

    let a = tracker.on_outgoing_publish(11).unwrap();
    let c = tracker.on_outgoing_publish(12).unwrap();
    assert_eq!(a.operation_id, "op-a");
    assert_eq!(a.packet_id, Some(11));
    assert_eq!(c.operation_id, "op-c");
    assert_eq!(c.packet_id, Some(12));
    assert!(tracker.on_outgoing_publish(13).is_none());

    let failed = outcome(&mut tracker, &mut inbox, "op-b").unwrap();
    assert_eq!(failed.unwrap_err(), "queue full");
    tracker.on_pubcomp(12, PublishAckOutcome::Success).unwrap();
    assert_eq!(
        outcome(&mut tracker, &mut inbox, "op-c").unwrap().unwrap().status,
        PublishRuntimeStatus::Confirmed
    );
}
