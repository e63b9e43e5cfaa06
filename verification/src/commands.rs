//! The checks and decisions of the commands the user interface invokes:
//! publishing, settings, and editing subscriptions.
use vstd::prelude::*;
use crate::models::{MessageHistory, PublishPayload, Subscription, UpdateSubscriptionRequest};
use crate::publish::{PublishOperationResult, PublishRuntimeStatus};
use crate::storage::{MAX_MESSAGE_LIMIT, MAX_MQTT_PACKET_SIZE_LIMIT_KB, MIN_MESSAGE_LIMIT, MIN_MQTT_PACKET_SIZE_LIMIT_KB};
use crate::text::{join2, str_equals, string_equals, trim, trimmed};

verus! {

/// The payload formats a publish may use.
pub open spec fn is_supported_format(format: Seq<char>) -> bool {
    format == "text"@ || format == "json"@ || format == "hex"@ || format == "base64"@
}

pub fn validate_payload_format(format: &str) -> (r: Result<(), String>)
    ensures
        r is Ok <==> is_supported_format(format@),
        r matches Err(e) ==> e@ == "Unsupported payload format: "@ + format@,
{
    if str_equals(format, "text") || str_equals(format, "json") || str_equals(format, "hex") || str_equals(
        format,
        "base64",
    ) {
        Ok(())
    } else {
        Err(join2("Unsupported payload format: ", format))
    }
}

/// What `publish_message` records and sends for an accepted request.
#[derive(Debug)]
pub struct PublishPlan {
    pub operation_id: String,
    pub history: MessageHistory,
    pub topic: String,
    pub payload_bytes: Vec<u8>,
    pub qos: u8,
    pub retain: bool,
}

/// The reason a publish request is refused, if it is.
pub open spec fn publish_refusal(message: PublishPayload) -> Option<Seq<char>> {
    if trimmed(message.operation_id@).len() == 0 {
        Some("Publish operation ID is required"@)
    } else if !(0 <= message.qos <= 2) {
        Some("Invalid QoS"@)
    } else if !is_supported_format(message.format@) {
        Some("Unsupported payload format: "@ + message.format@)
    } else {
        None
    }
}

/// A publish request is accepted exactly when its operation ID is not blank,
/// its QoS is 0, 1 or 2 and its payload format is text, JSON, hex or
/// base64; a refusal names the first of these that fails, in that order.
pub proof fn law_publish_acceptance(message: PublishPayload)
    ensures
        publish_refusal(message) is None <==> (trimmed(message.operation_id@).len() > 0 && 0 <= message.qos <= 2 && (
        message.format@ == "text"@ || message.format@ == "json"@ || message.format@ == "hex"@ || message.format@
            == "base64"@)),
        trimmed(message.operation_id@).len() == 0 ==> publish_refusal(message) == Some("Publish operation ID is required"@),
        trimmed(message.operation_id@).len() > 0 && !(0 <= message.qos <= 2) ==> publish_refusal(message) == Some(
            "Invalid QoS"@,
        ),
        trimmed(message.operation_id@).len() > 0 && 0 <= message.qos <= 2 && !(message.format@ == "text"@
            || message.format@ == "json"@ || message.format@ == "hex"@ || message.format@ == "base64"@)
            ==> publish_refusal(message) == Some("Unsupported payload format: "@ + message.format@),
{
}

/// Checks a publish request and prepares the pending history row and the
/// publish to hand to the client.
pub fn plan_publish(server_id: i64, message: PublishPayload) -> (r: Result<PublishPlan, String>)
    ensures
        publish_refusal(message) matches Some(reason) ==> r is Err && r->Err_0@ == reason,
        publish_refusal(message) is None ==> r is Ok && ({
            let p = r->Ok_0;
            let h = p.history;
            &&& p.operation_id@ == trimmed(message.operation_id@)
            &&& p.topic == message.topic
            &&& p.payload_bytes == message.payload_bytes
            &&& p.qos as int == message.qos
            &&& p.retain == message.retain
            &&& h.id is None
            &&& h.server_id == server_id
            &&& h.topic == message.topic
            &&& h.payload == Some(message.payload)
            &&& h.payload_format == Some(message.format)
            &&& h.direction@ == "publish"@
            &&& h.qos == message.qos
            &&& h.retain == message.retain
            &&& h.created_at is None
            &&& h.operation_id is Some && h.operation_id->0@ == trimmed(message.operation_id@)
            &&& h.publish_status is Some && h.publish_status->0@ == PublishRuntimeStatus::Pending.name()
            &&& h.packet_id is None
            &&& h.publish_error is None
            &&& h.sent_at is None
            &&& h.confirmed_at is None
        }),
{
    let operation_id = String::from_str(trim(message.operation_id.as_str()));
    if operation_id.as_str().is_empty() {
        return Err(String::from_str("Publish operation ID is required"));
    }
    if !(0 <= message.qos && message.qos <= 2) {
        return Err(String::from_str("Invalid QoS"));
    }
    match validate_payload_format(message.format.as_str()) {
        Ok(()) => {},
        Err(e) => {
            return Err(e);
        },
    }
    let history = MessageHistory {
        id: None,
        server_id,
        topic: message.topic.clone(),
        payload: Some(message.payload),
        payload_format: Some(message.format),
        direction: String::from_str("publish"),
        qos: message.qos,
        retain: message.retain,
        created_at: None,
        operation_id: Some(operation_id.clone()),
        publish_status: Some(String::from_str(PublishRuntimeStatus::Pending.as_str())),
        packet_id: None,
        publish_error: None,
        sent_at: None,
        confirmed_at: None,
    };
    Ok(PublishPlan {
        operation_id,
        history,
        topic: message.topic,
        payload_bytes: message.payload_bytes,
        qos: message.qos as u8,
        retain: message.retain,
    })
}

/// The status, packet ID and error to persist for a finished publish.
pub fn publish_outcome_record(result: &Result<PublishOperationResult, String>) -> (r: (&'static str, Option<u16>, Option<String>))
    ensures
        result matches Ok(res) ==> r.0@ == res.status.name() && r.1 == res.packet_id && r.2 is None,
        result matches Err(e) ==> r.0@ == PublishRuntimeStatus::Failed.name() && r.1 is None && r.2 == Some(*e),
{
    match result {
        Ok(res) => (res.status.as_str(), res.packet_id, None),
        Err(e) => (PublishRuntimeStatus::Failed.as_str(), None, Some(e.clone())),
    }
}

/// The settings shown to the user.
#[derive(Debug, Clone, Copy, PartialEq, Eq, Structural)]
pub struct AppSettings {
    pub message_limit: usize,
    pub mqtt_packet_size_limit_kb: usize,
}

/// Refuses a message limit outside the allowed range.
pub fn check_message_limit(message_limit: usize) -> (r: Result<(), String>)
    ensures
        r is Ok <==> MIN_MESSAGE_LIMIT <= message_limit <= MAX_MESSAGE_LIMIT,
        r matches Err(e) ==> e@ == "Message limit must be between 100 and 10000"@,
{
    if !(MIN_MESSAGE_LIMIT <= message_limit && message_limit <= MAX_MESSAGE_LIMIT) {
        return Err(String::from_str("Message limit must be between 100 and 10000"));
    }
    Ok(())
}

/// Refuses a packet size limit outside the allowed range.
pub fn check_mqtt_packet_size_limit(mqtt_packet_size_limit_kb: usize) -> (r: Result<(), String>)
    ensures
        r is Ok <==> MIN_MQTT_PACKET_SIZE_LIMIT_KB <= mqtt_packet_size_limit_kb <= MAX_MQTT_PACKET_SIZE_LIMIT_KB,
        r matches Err(e) ==> e@ == "MQTT packet size limit must be between 10 KB and 102400 KB"@,
{
    if !(MIN_MQTT_PACKET_SIZE_LIMIT_KB <= mqtt_packet_size_limit_kb && mqtt_packet_size_limit_kb
        <= MAX_MQTT_PACKET_SIZE_LIMIT_KB) {
        return Err(String::from_str("MQTT packet size limit must be between 10 KB and 102400 KB"));
    }
    Ok(())
}

/// The subscription `add_subscription` stores: active, with no ID, colour or date yet.
pub fn new_subscription(server_id: i64, topic: String, qos: i32) -> (r: Subscription)
    ensures
        r == (Subscription { id: None, server_id, topic, qos, is_active: true, color: None, created_at: None }),
{
    Subscription { id: None, server_id, topic, qos, is_active: true, color: None, created_at: None }
}

/// How `update_subscription` proceeds once the request is accepted.
#[derive(Debug)]
pub struct SubscriptionUpdatePlan {
    /// The stored subscription before the change.
    pub existing: Subscription,
    pub topic_changed: bool,
    pub qos_changed: bool,
    /// Whether the broker currently holds the subscription (connected and active).
    pub subscribed: bool,
}

impl SubscriptionUpdatePlan {
    /// Unsubscribe the old topic before storing the change.
    pub open spec fn spec_unsubscribe_first(self) -> bool {
        self.subscribed && self.topic_changed
    }

    /// Subscribe again after storing the change.
    pub open spec fn spec_resubscribe_after(self) -> bool {
        self.subscribed && (self.topic_changed || self.qos_changed)
    }

    pub fn unsubscribe_first(&self) -> (r: bool)
        ensures
            r == self.spec_unsubscribe_first(),
            r == (self.subscribed && self.topic_changed),
    {
        self.subscribed && self.topic_changed
    }

    pub fn resubscribe_after(&self) -> (r: bool)
        ensures
            r == self.spec_resubscribe_after(),
            r == (self.subscribed && (self.topic_changed || self.qos_changed)),
    {
        self.subscribed && (self.topic_changed || self.qos_changed)
    }
}

/// Editing a subscription the broker holds (connected and active) goes to
/// the broker when anything it knows changes: a new topic is unsubscribed
/// from the old one first and subscribed after; a new QoS alone is
/// subscribed again after. Nothing goes to the broker for a subscription it
/// does not hold, or when neither topic nor QoS changes.
pub proof fn law_broker_follows_subscription_edits(p: SubscriptionUpdatePlan)
    ensures
        p.subscribed && p.topic_changed ==> p.spec_unsubscribe_first() && p.spec_resubscribe_after(),
        p.subscribed && p.qos_changed ==> p.spec_resubscribe_after(),
        !p.topic_changed ==> !p.spec_unsubscribe_first(),
        !p.subscribed ==> !p.spec_unsubscribe_first() && !p.spec_resubscribe_after(),
        !p.topic_changed && !p.qos_changed ==> !p.spec_resubscribe_after(),
        p.spec_unsubscribe_first() ==> p.spec_resubscribe_after(),
{
}

/// Whether some subscription in `subs` has ID `id`.
pub open spec fn has_subscription(subs: Seq<Subscription>, id: i64) -> bool {
    exists|i: int| 0 <= i < subs.len() && subs[i].id == Some(id)
}

/// The first subscription in `subs` with ID `id`.
pub open spec fn index_of_subscription(subs: Seq<Subscription>, id: i64) -> int {
    choose|i: int|
        0 <= i < subs.len() && subs[i].id == Some(id) && forall|j: int| 0 <= j < i ==> subs[j].id != Some(id)
}

/// Decides how to update a subscription: the request must name a stored
/// subscription of the broker whose topic is still `old_topic`.
pub fn plan_subscription_update(
    subscriptions: &Vec<Subscription>,
    old_topic: &str,
    request: &UpdateSubscriptionRequest,
    connected: bool,
) -> (r: Result<SubscriptionUpdatePlan, String>)
    ensures
        !has_subscription(subscriptions@, request.id) ==> r is Err && r->Err_0@ == "Subscription not found"@,
        has_subscription(subscriptions@, request.id) ==> ({
            let e = subscriptions@[index_of_subscription(subscriptions@, request.id)];
            let next_topic = match request.topic {
                Some(t) => t@,
                None => e.topic@,
            };
            &&& old_topic@ != e.topic@ ==> r is Err && r->Err_0@ == "Subscription changed; reload before editing"@
            &&& old_topic@ == e.topic@ ==> r is Ok && ({
                let p = r->Ok_0;
                &&& p.existing == e
                &&& p.topic_changed == (next_topic != e.topic@)
                &&& p.qos_changed == (request.qos matches Some(q) && q != e.qos)
                &&& p.subscribed == (connected && e.is_active)
            })
        }),
{
    let mut found: Option<usize> = None;
    let mut i: usize = 0;
    while i < subscriptions.len()
        invariant
            i <= subscriptions.len(),
            found is None ==> forall|j: int| 0 <= j < i ==> subscriptions@[j].id != Some(request.id),
            found matches Some(k) ==> k < subscriptions.len() && subscriptions@[k as int].id == Some(request.id)
                && forall|j: int| 0 <= j < k ==> subscriptions@[j].id != Some(request.id),
        decreases subscriptions.len() - i,
    {
        if found.is_none() && subscriptions[i].id == Some(request.id) {
            found = Some(i);
        }
        i = i + 1;
    }
    let k = match found {
        Some(k) => k,
        None => {
            return Err(String::from_str("Subscription not found"));
        },
    };
    proof {
        let c = index_of_subscription(subscriptions@, request.id);
        assert(0 <= k < subscriptions@.len() && subscriptions@[k as int].id == Some(request.id)
            && forall|j: int| 0 <= j < k ==> subscriptions@[j].id != Some(request.id));
        assert(c == k as int) by {
            if c < k as int {
            } else if c > k as int {
            }
        }
    }
    let existing = subscriptions[k].duplicate();
    if !str_equals(old_topic, existing.topic.as_str()) {
        return Err(String::from_str("Subscription changed; reload before editing"));
    }
    let topic_changed = match &request.topic {
        Some(t) => !string_equals(t, &existing.topic),
        None => false,
    };
    let qos_changed = match request.qos {
        Some(q) => q != existing.qos,
        None => false,
    };
    let subscribed = connected && existing.is_active;
    Ok(SubscriptionUpdatePlan { existing, topic_changed, qos_changed, subscribed })
}

/// The user asked to (de)activate a subscription: subscribe or unsubscribe
/// when connected, nothing otherwise.
#[derive(Debug, Clone, Copy, PartialEq, Eq, Structural)]
pub enum ToggleAction {
    Subscribe,
    Unsubscribe,
    Nothing,
}

pub fn toggle_action(connected: bool, is_active: bool) -> (r: ToggleAction)
    ensures
        !connected ==> r == ToggleAction::Nothing,
        connected && is_active ==> r == ToggleAction::Subscribe,
        connected && !is_active ==> r == ToggleAction::Unsubscribe,
{
    if !connected {
        ToggleAction::Nothing
    } else if is_active {
        ToggleAction::Subscribe
    } else {
        ToggleAction::Unsubscribe
    }
}

/// The history row of a message received from the broker.
pub fn received_history(
    server_id: i64,
    topic: String,
    payload: String,
    payload_format: String,
    qos: i32,
    retain: bool,
    timestamp: Option<String>,
) -> (r: MessageHistory)
    ensures
        r.id is None && r.server_id == server_id && r.topic == topic && r.payload == Some(payload)
            && r.payload_format == Some(payload_format) && r.direction@ == "receive"@ && r.qos == qos && r.retain
            == retain && r.created_at == timestamp,
        r.operation_id is None && r.publish_status is None && r.packet_id is None && r.publish_error is None
            && r.sent_at is None && r.confirmed_at is None,
{
    MessageHistory {
        id: None,
        server_id,
        topic,
        payload: Some(payload),
        payload_format: Some(payload_format),
        direction: String::from_str("receive"),
        qos,
        retain,
        created_at: timestamp,
        operation_id: None,
        publish_status: None,
        packet_id: None,
        publish_error: None,
        sent_at: None,
        confirmed_at: None,
    }
}

} // verus!
