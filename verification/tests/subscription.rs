use mini_mqtt_client::subscription::{
    SubscriptionCompletion, SubscriptionOperation, SubscriptionOperationResult,
    SubscriptionOperationTracker, SubscriptionRequest, SubscriptionRuntimeStatus, WaitOutcome,
};

fn outcome(
    tracker: &mut SubscriptionOperationTracker,
    inbox: &mut Vec<SubscriptionCompletion>,
    operation_id: &str,
) -> Option<Result<SubscriptionOperationResult, String>> {
    inbox.extend(tracker.take_completions());
    let found: Vec<&SubscriptionCompletion> =
        inbox.iter().filter(|c| c.operation_id == operation_id).collect();
    assert!(found.len() <= 1, "an operation completes at most once");
    found.first().map(|c| c.outcome.clone())
}

#[test]
fn subscribe_completes_only_after_matching_ack() {
    let mut tracker = SubscriptionOperationTracker::default();
    let mut inbox = Vec::new();
    let started = tracker
        .start(
            7,
            "sensor/+".to_string(),
            SubscriptionRequest::Subscribe { requested_qos: 2 },
        )
        .unwrap();

    assert_eq!(started.status, SubscriptionRuntimeStatus::Pending);
    assert!(outcome(&mut tracker, &mut inbox, &started.operation_id).is_none());
    assert!(tracker.mark_sent(SubscriptionOperation::Subscribe, 41));
    assert!(tracker
        .complete(SubscriptionOperation::Subscribe, 42, Some(1))
        .is_none());

    let state = tracker
        .complete(SubscriptionOperation::Subscribe, 41, Some(1))
        .unwrap();
    let result = outcome(&mut tracker, &mut inbox, &started.operation_id)
        .unwrap()
        .unwrap();

    assert_eq!(state.status, SubscriptionRuntimeStatus::Active);
    assert_eq!(state.granted_qos, Some(1));
    assert_eq!(result.operation_id, state.operation_id);
    assert_eq!(result.granted_qos, Some(1));
}

#[test]
fn failure_releases_pending_operation_and_reports_reason() {
    let mut tracker = SubscriptionOperationTracker::default();
    let mut inbox = Vec::new();
    let started = tracker
        .start(
            7,
            "sensor/+".to_string(),
            SubscriptionRequest::Subscribe { requested_qos: 1 },
        )
        .unwrap();

    assert!(tracker
        .start(
            7,
            "other/topic".to_string(),
            SubscriptionRequest::Subscribe { requested_qos: 0 },
        )
        .is_err());

    let state = tracker
        .fail_current("Broker rejected subscription".to_string())
        .unwrap();
    let result = outcome(&mut tracker, &mut inbox, &started.operation_id).unwrap();

    assert_eq!(state.status, SubscriptionRuntimeStatus::Failed);
    assert_eq!(state.error.as_deref(), Some("Broker rejected subscription"));
    assert_eq!(result.unwrap_err(), "Broker rejected subscription");
    assert!(tracker
        .start(
            7,
            "other/topic".to_string(),
            SubscriptionRequest::Subscribe { requested_qos: 0 },
        )
        .is_ok());
}

#[test]
fn unsubscribe_completes_as_disabled_only_after_unsuback() {
    let mut tracker = SubscriptionOperationTracker::default();
    let mut inbox = Vec::new();
    let started = tracker
        .start(7, "sensor/+".to_string(), SubscriptionRequest::Unsubscribe)
        .unwrap();

    assert!(tracker.mark_sent(SubscriptionOperation::Unsubscribe, 12));
    assert!(outcome(&mut tracker, &mut inbox, &started.operation_id).is_none());
    let state = tracker
        .complete(SubscriptionOperation::Unsubscribe, 12, None)
        .unwrap();
    let result = outcome(&mut tracker, &mut inbox, &started.operation_id)
        .unwrap()
        .unwrap();

    assert_eq!(state.status, SubscriptionRuntimeStatus::Disabled);
    assert_eq!(result.granted_qos, None);
}

#[test]
fn disconnect_before_ack_marks_operation_failed() {
    let mut tracker = SubscriptionOperationTracker::default();
    let mut inbox = Vec::new();
    let started = tracker
        .start(
            7,
            "sensor/+".to_string(),
            SubscriptionRequest::Subscribe { requested_qos: 1 },
        )
        .unwrap();
    assert!(tracker.mark_sent(SubscriptionOperation::Subscribe, 8));

    let state = tracker
        .fail_current("Connection closed before acknowledgement".to_string())
        .unwrap();
    let result = outcome(&mut tracker, &mut inbox, &started.operation_id).unwrap();

    assert_eq!(state.status, SubscriptionRuntimeStatus::Failed);
    assert_eq!(
        state.error.as_deref(),
        Some("Connection closed before acknowledgement")
    );
    assert_eq!(
        result.unwrap_err(),
        "Connection closed before acknowledgement"
    );
}

#[test]
fn timeout_marks_operation_failed_and_allows_retry() {
    let mut tracker = SubscriptionOperationTracker::default();
    let mut inbox = Vec::new();
    let started = tracker
        .start(
            7,
            "sensor/+".to_string(),
            SubscriptionRequest::Subscribe { requested_qos: 2 },
        )
        .unwrap();

    let state = tracker
        .fail_current("Subscription acknowledgement timed out".to_string())
        .unwrap();
    let result = outcome(&mut tracker, &mut inbox, &started.operation_id).unwrap();

    assert_eq!(state.status, SubscriptionRuntimeStatus::Failed);
    assert_eq!(
        result.unwrap_err(),
        "Subscription acknowledgement timed out"
    );
    assert!(tracker
        .start(
            7,
            "sensor/+".to_string(),
            SubscriptionRequest::Subscribe { requested_qos: 2 },
        )
        .is_ok());
}

#[test]
fn acknowledgements_of_another_kind_or_packet_are_ignored() {
    let mut tracker = SubscriptionOperationTracker::new();
    tracker
        .start_with_operation_id(
            3,
            "a".to_string(),
            SubscriptionRequest::Subscribe { requested_qos: 0 },
            "op-1".to_string(),
        )
        .unwrap();
    assert!(tracker
        .complete(SubscriptionOperation::Subscribe, 5, Some(0))
        .is_none());
    assert!(!tracker.mark_sent(SubscriptionOperation::Unsubscribe, 5));
    assert!(tracker.mark_sent(SubscriptionOperation::Subscribe, 5));
    assert!(!tracker.mark_sent(SubscriptionOperation::Subscribe, 6));
    assert!(tracker
        .reject(SubscriptionOperation::Subscribe, 6, "no".to_string())
        .is_none());
    let rejected = tracker
        .reject(SubscriptionOperation::Subscribe, 5, "NotAuthorized".to_string())
        .unwrap();
    assert_eq!(rejected.status, SubscriptionRuntimeStatus::Failed);
    assert_eq!(rejected.operation_id, "op-1");
    assert_eq!(tracker.take_completions().len(), 1);
    assert!(tracker.take_completions().is_empty());
}

#[test]
fn waiting_past_the_deadline_fails_the_subscription() {
    let mut tracker = SubscriptionOperationTracker::default();
    tracker
        .start(1, "t".to_string(), SubscriptionRequest::Unsubscribe)
        .unwrap();
    let (result, state) = tracker.settle_wait(WaitOutcome::TimedOut);
    assert_eq!(result.unwrap_err(), "Subscription acknowledgement timed out");
    assert_eq!(state.unwrap().status, SubscriptionRuntimeStatus::Failed);
    let (result, state) = tracker.settle_wait(WaitOutcome::Interrupted);
    assert_eq!(result.unwrap_err(), "Subscription operation was interrupted");
    assert!(state.is_none());
}

#[test]
fn request_kinds_and_names() {
    let sub = SubscriptionRequest::Subscribe { requested_qos: 1 };
    assert_eq!(sub.operation(), SubscriptionOperation::Subscribe);
    assert_eq!(sub.requested_qos(), Some(1));
    assert_eq!(SubscriptionRequest::Unsubscribe.operation(), SubscriptionOperation::Unsubscribe);
    assert_eq!(SubscriptionRequest::Unsubscribe.requested_qos(), None);
    assert_eq!(SubscriptionOperation::Subscribe.as_str(), "subscribe");
    assert_eq!(SubscriptionRuntimeStatus::Active.as_str(), "active");
}
