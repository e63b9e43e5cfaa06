//! Classification of the MQTT client's event-loop events into the events
//! the connection supervisor acts on. The packets are given as plain values:
//! reason codes the library does not distinguish carry their name, and the
//! code lists carry their printed form for error messages.
use vstd::prelude::*;
use vstd::utf8::{valid_utf8, decode_utf8};
use crate::publish::{PublishAckOutcome, PublishAckPhase, AckOutcomeView};
use crate::subscription::SubscriptionOperation;
use crate::text::join2;

verus! {

/// The result of a SUBSCRIBE in an MQTT 3.1.1 SUBACK.
#[derive(Debug, Clone, Copy, PartialEq, Eq, Structural)]
pub enum V3SubscribeCode {
    Success(u8),
    Failure,
}

/// An MQTT 3.1.1 event of the client's event loop.
#[derive(Debug, Clone, PartialEq, Eq)]
pub enum V3Event {
    /// CONNACK; `code` is the name of the return code.
    ConnAck { accepted: bool, code: String, session_present: bool },
    Publish { topic: String, payload: Vec<u8>, qos: u8, retain: bool },
    OutgoingPublish { packet_id: u16 },
    PubAck { packet_id: u16 },
    PubRec { packet_id: u16 },
    PubComp { packet_id: u16 },
    OutgoingSubscribe { packet_id: u16 },
    OutgoingUnsubscribe { packet_id: u16 },
    /// SUBACK; `return_codes_text` is the printed list of return codes.
    SubAck { packet_id: u16, return_codes: Vec<V3SubscribeCode>, return_codes_text: String },
    UnsubAck { packet_id: u16 },
    Other,
}

/// The reason code of an MQTT 5.0 PUBACK, PUBREC or PUBCOMP.
#[derive(Debug, Clone, PartialEq, Eq)]
pub enum V5AckReason {
    Success,
    NoMatchingSubscribers,
    /// Any other reason, by name.
    Other(String),
}

/// The reason code of a SUBSCRIBE in an MQTT 5.0 SUBACK.
#[derive(Debug, Clone, PartialEq, Eq)]
pub enum V5SubscribeCode {
    Success(u8),
    /// Any refusal, by name.
    Refused(String),
}

/// The reason code of an UNSUBSCRIBE in an MQTT 5.0 UNSUBACK.
#[derive(Debug, Clone, PartialEq, Eq)]
pub enum V5UnsubscribeReason {
    Success,
    NoSubscriptionExisted,
    /// Any refusal, by name.
    Refused(String),
}

/// An MQTT 5.0 event of the client's event loop.
#[derive(Debug, Clone, PartialEq, Eq)]
pub enum V5Event {
    /// CONNACK; `code` is the name of the return code.
    ConnAck { accepted: bool, code: String, session_present: bool },
    /// PUBLISH; the topic as the bytes received.
    Publish { topic: Vec<u8>, payload: Vec<u8>, qos: u8, retain: bool },
    OutgoingPublish { packet_id: u16 },
    PubAck { packet_id: u16, reason: V5AckReason },
    PubRec { packet_id: u16, reason: V5AckReason },
    PubComp { packet_id: u16, reason: V5AckReason },
    OutgoingSubscribe { packet_id: u16 },
    OutgoingUnsubscribe { packet_id: u16 },
    /// SUBACK; `return_codes_text` is the printed list of reason codes.
    SubAck { packet_id: u16, return_codes: Vec<V5SubscribeCode>, return_codes_text: String },
    /// UNSUBACK; `reasons_text` is the printed list of reason codes.
    UnsubAck { packet_id: u16, reasons: Vec<V5UnsubscribeReason>, reasons_text: String },
    Other,
}

/// An event the connection supervisor acts on.
#[derive(Debug, Clone, PartialEq, Eq)]
pub enum ProtocolEvent {
    Connected { session_present: bool },
    ConnectionRefused(String),
    Publish { topic: String, payload: Vec<u8>, qos: u8, retain: bool },
    PublishRequestSent { packet_id: u16 },
    PublishAcknowledged { phase: PublishAckPhase, packet_id: u16, outcome: PublishAckOutcome },
    SubscriptionRequestSent { operation: SubscriptionOperation, packet_id: u16 },
    SubscriptionAcknowledged { operation: SubscriptionOperation, packet_id: u16, granted_qos: Option<u8> },
    SubscriptionRejected { operation: SubscriptionOperation, packet_id: u16, error: String },
    Other,
}

pub enum ProtocolEventView {
    Connected { session_present: bool },
    ConnectionRefused(Seq<char>),
    Publish { topic: Seq<char>, payload: Seq<u8>, qos: u8, retain: bool },
    PublishRequestSent { packet_id: u16 },
    PublishAcknowledged { phase: PublishAckPhase, packet_id: u16, outcome: AckOutcomeView },
    SubscriptionRequestSent { operation: SubscriptionOperation, packet_id: u16 },
    SubscriptionAcknowledged { operation: SubscriptionOperation, packet_id: u16, granted_qos: Option<u8> },
    SubscriptionRejected { operation: SubscriptionOperation, packet_id: u16, error: Seq<char> },
    Other,
}

impl View for ProtocolEvent {
    type V = ProtocolEventView;

    open spec fn view(&self) -> ProtocolEventView {
        match self {
            ProtocolEvent::Connected { session_present } => ProtocolEventView::Connected { session_present: *session_present },
            ProtocolEvent::ConnectionRefused(c) => ProtocolEventView::ConnectionRefused(c@),
            ProtocolEvent::Publish { topic, payload, qos, retain } => ProtocolEventView::Publish {
                topic: topic@,
                payload: payload@,
                qos: *qos,
                retain: *retain,
            },
            ProtocolEvent::PublishRequestSent { packet_id } => ProtocolEventView::PublishRequestSent { packet_id: *packet_id },
            ProtocolEvent::PublishAcknowledged { phase, packet_id, outcome } => ProtocolEventView::PublishAcknowledged {
                phase: *phase,
                packet_id: *packet_id,
                outcome: outcome@,
            },
            ProtocolEvent::SubscriptionRequestSent { operation, packet_id } => ProtocolEventView::SubscriptionRequestSent {
                operation: *operation,
                packet_id: *packet_id,
            },
            ProtocolEvent::SubscriptionAcknowledged { operation, packet_id, granted_qos } =>
                ProtocolEventView::SubscriptionAcknowledged {
                operation: *operation,
                packet_id: *packet_id,
                granted_qos: *granted_qos,
            },
            ProtocolEvent::SubscriptionRejected { operation, packet_id, error } => ProtocolEventView::SubscriptionRejected {
                operation: *operation,
                packet_id: *packet_id,
                error: error@,
            },
            ProtocolEvent::Other => ProtocolEventView::Other,
        }
    }
}

pub open spec fn event_result_view(r: Result<ProtocolEvent, String>) -> Result<ProtocolEventView, Seq<char>> {
    match r {
        Ok(e) => Ok(e@),
        Err(e) => Err(e@),
    }
}

/// The meaning of an MQTT 3.1.1 event.
pub open spec fn v3_meaning(event: V3Event) -> ProtocolEventView {
    match event {
        V3Event::ConnAck { accepted, code, session_present } => if accepted {
            ProtocolEventView::Connected { session_present }
        } else {
            ProtocolEventView::ConnectionRefused(code@)
        },
        V3Event::Publish { topic, payload, qos, retain } => ProtocolEventView::Publish {
            topic: topic@,
            payload: payload@,
            qos,
            retain,
        },
        V3Event::OutgoingPublish { packet_id } => ProtocolEventView::PublishRequestSent { packet_id },
        V3Event::PubAck { packet_id } => ProtocolEventView::PublishAcknowledged {
            phase: PublishAckPhase::PubAck,
            packet_id,
            outcome: AckOutcomeView::Success,
        },
        V3Event::PubRec { packet_id } => ProtocolEventView::PublishAcknowledged {
            phase: PublishAckPhase::PubRec,
            packet_id,
            outcome: AckOutcomeView::Success,
        },
        V3Event::PubComp { packet_id } => ProtocolEventView::PublishAcknowledged {
            phase: PublishAckPhase::PubComp,
            packet_id,
            outcome: AckOutcomeView::Success,
        },
        V3Event::OutgoingSubscribe { packet_id } => ProtocolEventView::SubscriptionRequestSent {
            operation: SubscriptionOperation::Subscribe,
            packet_id,
        },
        V3Event::OutgoingUnsubscribe { packet_id } => ProtocolEventView::SubscriptionRequestSent {
            operation: SubscriptionOperation::Unsubscribe,
            packet_id,
        },
        V3Event::SubAck { packet_id, return_codes, return_codes_text } => if return_codes@.len() == 1
            && return_codes@[0] is Success {
            ProtocolEventView::SubscriptionAcknowledged {
                operation: SubscriptionOperation::Subscribe,
                packet_id,
                granted_qos: Some(return_codes@[0]->Success_0),
            }
        } else if return_codes@.len() == 1 {
            ProtocolEventView::SubscriptionRejected {
                operation: SubscriptionOperation::Subscribe,
                packet_id,
                error: "Broker rejected subscription"@,
            }
        } else {
            ProtocolEventView::SubscriptionRejected {
                operation: SubscriptionOperation::Subscribe,
                packet_id,
                error: "Unexpected SUBACK return codes: "@ + return_codes_text@,
            }
        },
        V3Event::UnsubAck { packet_id } => ProtocolEventView::SubscriptionAcknowledged {
            operation: SubscriptionOperation::Unsubscribe,
            packet_id,
            granted_qos: None,
        },
        V3Event::Other => ProtocolEventView::Other,
    }
}

/// The name of an MQTT 5.0 acknowledgement reason.
pub open spec fn reason_name(reason: V5AckReason) -> Seq<char> {
    match reason {
        V5AckReason::Success => "Success"@,
        V5AckReason::NoMatchingSubscribers => "NoMatchingSubscribers"@,
        V5AckReason::Other(name) => name@,
    }
}

/// The outcome of a QoS 1 PUBACK or QoS 2 PUBREC: success unless refused.
pub open spec fn publish_ack_outcome(reason: V5AckReason, prefix: Seq<char>) -> AckOutcomeView {
    match reason {
        V5AckReason::Success | V5AckReason::NoMatchingSubscribers => AckOutcomeView::Success,
        V5AckReason::Other(name) => AckOutcomeView::Rejected(prefix + name@),
    }
}

/// The outcome of a PUBCOMP: only `Success` completes the publish.
pub open spec fn pubcomp_outcome(reason: V5AckReason) -> AckOutcomeView {
    match reason {
        V5AckReason::Success => AckOutcomeView::Success,
        _ => AckOutcomeView::Rejected("Broker failed to complete QoS 2 publish: "@ + reason_name(reason)),
    }
}

/// The text that `String::from_utf8` reports for bytes that are not UTF-8.
pub uninterp spec fn utf8_error_text(bytes: Seq<u8>) -> Seq<char>;

/// The meaning of an MQTT 5.0 event; a topic that is not UTF-8 is an error.
pub open spec fn v5_meaning(event: V5Event) -> Result<ProtocolEventView, Seq<char>> {
    match event {
        V5Event::ConnAck { accepted, code, session_present } => Ok(
            if accepted {
                ProtocolEventView::Connected { session_present }
            } else {
                ProtocolEventView::ConnectionRefused(code@)
            },
        ),
        V5Event::Publish { topic, payload, qos, retain } => if valid_utf8(topic@) {
            Ok(ProtocolEventView::Publish { topic: decode_utf8(topic@), payload: payload@, qos, retain })
        } else {
            Err("Invalid MQTT 5.0 topic: "@ + utf8_error_text(topic@))
        },
        V5Event::OutgoingPublish { packet_id } => Ok(ProtocolEventView::PublishRequestSent { packet_id }),
        V5Event::PubAck { packet_id, reason } => Ok(
            ProtocolEventView::PublishAcknowledged {
                phase: PublishAckPhase::PubAck,
                packet_id,
                outcome: publish_ack_outcome(reason, "Broker rejected QoS 1 publish: "@),
            },
        ),
        V5Event::PubRec { packet_id, reason } => Ok(
            ProtocolEventView::PublishAcknowledged {
                phase: PublishAckPhase::PubRec,
                packet_id,
                outcome: publish_ack_outcome(reason, "Broker rejected QoS 2 publish: "@),
            },
        ),
        V5Event::PubComp { packet_id, reason } => Ok(
            ProtocolEventView::PublishAcknowledged {
                phase: PublishAckPhase::PubComp,
                packet_id,
                outcome: pubcomp_outcome(reason),
            },
        ),
        V5Event::OutgoingSubscribe { packet_id } => Ok(
            ProtocolEventView::SubscriptionRequestSent { operation: SubscriptionOperation::Subscribe, packet_id },
        ),
        V5Event::OutgoingUnsubscribe { packet_id } => Ok(
            ProtocolEventView::SubscriptionRequestSent { operation: SubscriptionOperation::Unsubscribe, packet_id },
        ),
        V5Event::SubAck { packet_id, return_codes, return_codes_text } => Ok(
            if return_codes@.len() == 1 && return_codes@[0] is Success {
                ProtocolEventView::SubscriptionAcknowledged {
                    operation: SubscriptionOperation::Subscribe,
                    packet_id,
                    granted_qos: Some(return_codes@[0]->Success_0),
                }
            } else {
                ProtocolEventView::SubscriptionRejected {
                    operation: SubscriptionOperation::Subscribe,
                    packet_id,
                    error: "Broker rejected subscription: "@ + return_codes_text@,
                }
            },
        ),
        V5Event::UnsubAck { packet_id, reasons, reasons_text } => Ok(
            if reasons@.len() == 1 && !(reasons@[0] is Refused) {
                ProtocolEventView::SubscriptionAcknowledged {
                    operation: SubscriptionOperation::Unsubscribe,
                    packet_id,
                    granted_qos: None,
                }
            } else {
                ProtocolEventView::SubscriptionRejected {
                    operation: SubscriptionOperation::Unsubscribe,
                    packet_id,
                    error: "Broker rejected unsubscription: "@ + reasons_text@,
                }
            },
        ),
        V5Event::Other => Ok(ProtocolEventView::Other),
    }
}

/// The acknowledgement event for `phase`, `packet_id` and `outcome`.
pub open spec fn acknowledged(phase: PublishAckPhase, packet_id: u16, outcome: AckOutcomeView) -> Result<ProtocolEventView, Seq<char>> {
    Ok(ProtocolEventView::PublishAcknowledged { phase, packet_id, outcome })
}

/// What the broker's reason in an MQTT 5.0 acknowledgement means for the
/// publish. A PUBACK or PUBREC accepts it with `Success` and with
/// `NoMatchingSubscribers` (the message was taken, nobody listens) and
/// refuses it with any other reason, named in the error; a PUBCOMP completes
/// it only with `Success`. An MQTT 3.1.1 acknowledgement always accepts.
pub proof fn law_acknowledgement_reasons(packet_id: u16, reason: V5AckReason)
    ensures
        reason is Success || reason is NoMatchingSubscribers ==> v5_meaning(V5Event::PubAck { packet_id, reason })
            == acknowledged(PublishAckPhase::PubAck, packet_id, AckOutcomeView::Success),
        reason is Success || reason is NoMatchingSubscribers ==> v5_meaning(V5Event::PubRec { packet_id, reason })
            == acknowledged(PublishAckPhase::PubRec, packet_id, AckOutcomeView::Success),
        reason matches V5AckReason::Other(name) ==> v5_meaning(V5Event::PubAck { packet_id, reason }) == acknowledged(
            PublishAckPhase::PubAck,
            packet_id,
            AckOutcomeView::Rejected("Broker rejected QoS 1 publish: "@ + name@),
        ),
        reason matches V5AckReason::Other(name) ==> v5_meaning(V5Event::PubRec { packet_id, reason }) == acknowledged(
            PublishAckPhase::PubRec,
            packet_id,
            AckOutcomeView::Rejected("Broker rejected QoS 2 publish: "@ + name@),
        ),
        reason is Success ==> v5_meaning(V5Event::PubComp { packet_id, reason }) == acknowledged(
            PublishAckPhase::PubComp,
            packet_id,
            AckOutcomeView::Success,
        ),
        reason is NoMatchingSubscribers ==> v5_meaning(V5Event::PubComp { packet_id, reason }) == acknowledged(
            PublishAckPhase::PubComp,
            packet_id,
            AckOutcomeView::Rejected("Broker failed to complete QoS 2 publish: "@ + "NoMatchingSubscribers"@),
        ),
        reason matches V5AckReason::Other(name) ==> v5_meaning(V5Event::PubComp { packet_id, reason }) == acknowledged(
            PublishAckPhase::PubComp,
            packet_id,
            AckOutcomeView::Rejected("Broker failed to complete QoS 2 publish: "@ + name@),
        ),
        Ok::<ProtocolEventView, Seq<char>>(v3_meaning(V3Event::PubAck { packet_id })) == acknowledged(
            PublishAckPhase::PubAck,
            packet_id,
            AckOutcomeView::Success,
        ),
        Ok::<ProtocolEventView, Seq<char>>(v3_meaning(V3Event::PubRec { packet_id })) == acknowledged(
            PublishAckPhase::PubRec,
            packet_id,
            AckOutcomeView::Success,
        ),
        Ok::<ProtocolEventView, Seq<char>>(v3_meaning(V3Event::PubComp { packet_id })) == acknowledged(
            PublishAckPhase::PubComp,
            packet_id,
            AckOutcomeView::Success,
        ),
{
}

/// A CONNACK connects, with the broker's session flag, exactly when the
/// broker accepted; otherwise it refuses with the broker's code. A received
/// PUBLISH carries its topic, payload, QoS and retain flag unchanged (an
/// MQTT 5.0 topic decoded from UTF-8; one that is not UTF-8 is an error).
/// The client's own outgoing packets report their packet IDs.
pub proof fn law_connections_and_messages(
    accepted: bool,
    code: String,
    session_present: bool,
    topic3: String,
    topic5: Vec<u8>,
    payload: Vec<u8>,
    qos: u8,
    retain: bool,
    packet_id: u16,
)
    ensures
        accepted ==> v3_meaning(V3Event::ConnAck { accepted, code, session_present })
            == (ProtocolEventView::Connected { session_present }),
        !accepted ==> v3_meaning(V3Event::ConnAck { accepted, code, session_present })
            == ProtocolEventView::ConnectionRefused(code@),
        accepted ==> v5_meaning(V5Event::ConnAck { accepted, code, session_present })
            == Ok::<ProtocolEventView, Seq<char>>(ProtocolEventView::Connected { session_present }),
        !accepted ==> v5_meaning(V5Event::ConnAck { accepted, code, session_present })
            == Ok::<ProtocolEventView, Seq<char>>(ProtocolEventView::ConnectionRefused(code@)),
        v3_meaning(V3Event::Publish { topic: topic3, payload, qos, retain }) == (ProtocolEventView::Publish {
            topic: topic3@,
            payload: payload@,
            qos,
            retain,
        }),
        valid_utf8(topic5@) ==> v5_meaning(V5Event::Publish { topic: topic5, payload, qos, retain })
            == Ok::<ProtocolEventView, Seq<char>>(ProtocolEventView::Publish {
            topic: decode_utf8(topic5@),
            payload: payload@,
            qos,
            retain,
        }),
        !valid_utf8(topic5@) ==> (v5_meaning(V5Event::Publish { topic: topic5, payload, qos, retain }) matches Err(e)
            && e.len() >= 24 && e.take(24) == "Invalid MQTT 5.0 topic: "@),
        v3_meaning(V3Event::OutgoingPublish { packet_id }) == (ProtocolEventView::PublishRequestSent { packet_id }),
        v5_meaning(V5Event::OutgoingPublish { packet_id }) == Ok::<ProtocolEventView, Seq<char>>(
            ProtocolEventView::PublishRequestSent { packet_id },
        ),
        v3_meaning(V3Event::OutgoingSubscribe { packet_id }) == (ProtocolEventView::SubscriptionRequestSent {
            operation: SubscriptionOperation::Subscribe,
            packet_id,
        }),
        v3_meaning(V3Event::OutgoingUnsubscribe { packet_id }) == (ProtocolEventView::SubscriptionRequestSent {
            operation: SubscriptionOperation::Unsubscribe,
            packet_id,
        }),
        v5_meaning(V5Event::OutgoingSubscribe { packet_id }) == Ok::<ProtocolEventView, Seq<char>>(
            ProtocolEventView::SubscriptionRequestSent { operation: SubscriptionOperation::Subscribe, packet_id },
        ),
        v5_meaning(V5Event::OutgoingUnsubscribe { packet_id }) == Ok::<ProtocolEventView, Seq<char>>(
            ProtocolEventView::SubscriptionRequestSent { operation: SubscriptionOperation::Unsubscribe, packet_id },
        ),
{
    reveal_strlit("Invalid MQTT 5.0 topic: ");
    if !valid_utf8(topic5@) {
        let e = "Invalid MQTT 5.0 topic: "@ + utf8_error_text(topic5@);
        assert(e.take(24) =~= "Invalid MQTT 5.0 topic: "@);
    }
}

/// A SUBACK grants a subscription exactly when it carries one reason code
/// and that code grants a QoS, which is then the granted QoS; otherwise the
/// subscription is refused. An MQTT 5.0 UNSUBACK confirms exactly when it
/// carries one reason code that is no refusal; an MQTT 3.1.1 UNSUBACK always
/// confirms.
pub proof fn law_subscription_acknowledgements(
    packet_id: u16,
    v3_codes: Vec<V3SubscribeCode>,
    v5_codes: Vec<V5SubscribeCode>,
    unsub_reasons: Vec<V5UnsubscribeReason>,
    text: String,
)
    ensures
        ({
            let m = v3_meaning(V3Event::SubAck { packet_id, return_codes: v3_codes, return_codes_text: text });
            &&& (v3_codes@.len() == 1 && v3_codes@[0] is Success) ==> m
                == (ProtocolEventView::SubscriptionAcknowledged {
                operation: SubscriptionOperation::Subscribe,
                packet_id,
                granted_qos: Some(v3_codes@[0]->Success_0),
            })
            &&& !(v3_codes@.len() == 1 && v3_codes@[0] is Success) ==> (m matches ProtocolEventView::SubscriptionRejected {
                operation,
                packet_id: p,
                ..
            } && operation == SubscriptionOperation::Subscribe && p == packet_id)
        }),
        ({
            let m = v5_meaning(V5Event::SubAck { packet_id, return_codes: v5_codes, return_codes_text: text });
            &&& (v5_codes@.len() == 1 && v5_codes@[0] is Success) ==> m
                == Ok::<ProtocolEventView, Seq<char>>(ProtocolEventView::SubscriptionAcknowledged {
                operation: SubscriptionOperation::Subscribe,
                packet_id,
                granted_qos: Some(v5_codes@[0]->Success_0),
            })
            &&& !(v5_codes@.len() == 1 && v5_codes@[0] is Success) ==> m == Ok::<ProtocolEventView, Seq<char>>(
                ProtocolEventView::SubscriptionRejected {
                    operation: SubscriptionOperation::Subscribe,
                    packet_id,
                    error: "Broker rejected subscription: "@ + text@,
                },
            )
        }),
        ({
            let m = v5_meaning(V5Event::UnsubAck { packet_id, reasons: unsub_reasons, reasons_text: text });
            &&& (unsub_reasons@.len() == 1 && !(unsub_reasons@[0] is Refused)) ==> m == Ok::<ProtocolEventView, Seq<char>>(
                ProtocolEventView::SubscriptionAcknowledged {
                    operation: SubscriptionOperation::Unsubscribe,
                    packet_id,
                    granted_qos: None,
                },
            )
            &&& !(unsub_reasons@.len() == 1 && !(unsub_reasons@[0] is Refused)) ==> m == Ok::<ProtocolEventView, Seq<char>>(
                ProtocolEventView::SubscriptionRejected {
                    operation: SubscriptionOperation::Unsubscribe,
                    packet_id,
                    error: "Broker rejected unsubscription: "@ + text@,
                },
            )
        }),
        v3_meaning(V3Event::UnsubAck { packet_id }) == (ProtocolEventView::SubscriptionAcknowledged {
            operation: SubscriptionOperation::Unsubscribe,
            packet_id,
            granted_qos: None,
        }),
{
}

/// `String::from_utf8`: the documentation of std says that it returns the
/// string when the bytes are UTF-8 and an error otherwise. The contract claims
/// that, with vstd's model of UTF-8; the error's printed text is left as the
/// name `utf8_error_text`, a function of the bytes.
#[verifier::external_body]
fn string_from_utf8(bytes: Vec<u8>) -> (r: Result<String, String>)
    ensures
        match r {
            Ok(s) => valid_utf8(bytes@) && s@ == decode_utf8(bytes@),
            Err(e) => !valid_utf8(bytes@) && e@ == utf8_error_text(bytes@),
        },
{
    String::from_utf8(bytes).map_err(|error| error.to_string())
}

/// Classifies an MQTT 3.1.1 event.
pub fn map_v3_event(event: V3Event) -> (r: Result<ProtocolEvent, String>)
    ensures
        event_result_view(r) == Ok::<ProtocolEventView, Seq<char>>(v3_meaning(event)),
{
    let mapped = match event {
        V3Event::ConnAck { accepted, code, session_present } => {
            if accepted {
                ProtocolEvent::Connected { session_present }
            } else {
                ProtocolEvent::ConnectionRefused(code)
            }
        },
        V3Event::Publish { topic, payload, qos, retain } => ProtocolEvent::Publish { topic, payload, qos, retain },
        V3Event::OutgoingPublish { packet_id } => ProtocolEvent::PublishRequestSent { packet_id },
        V3Event::PubAck { packet_id } => ProtocolEvent::PublishAcknowledged {
            phase: PublishAckPhase::PubAck,
            packet_id,
            outcome: PublishAckOutcome::Success,
        },
        V3Event::PubRec { packet_id } => ProtocolEvent::PublishAcknowledged {
            phase: PublishAckPhase::PubRec,
            packet_id,
            outcome: PublishAckOutcome::Success,
        },
        V3Event::PubComp { packet_id } => ProtocolEvent::PublishAcknowledged {
            phase: PublishAckPhase::PubComp,
            packet_id,
            outcome: PublishAckOutcome::Success,
        },
        V3Event::OutgoingSubscribe { packet_id } => ProtocolEvent::SubscriptionRequestSent {
            operation: SubscriptionOperation::Subscribe,
            packet_id,
        },
        V3Event::OutgoingUnsubscribe { packet_id } => ProtocolEvent::SubscriptionRequestSent {
            operation: SubscriptionOperation::Unsubscribe,
            packet_id,
        },
        V3Event::SubAck { packet_id, return_codes, return_codes_text } => {
            if return_codes.len() == 1 {
                match return_codes[0] {
                    V3SubscribeCode::Success(qos) => ProtocolEvent::SubscriptionAcknowledged {
                        operation: SubscriptionOperation::Subscribe,
                        packet_id,
                        granted_qos: Some(qos),
                    },
                    V3SubscribeCode::Failure => ProtocolEvent::SubscriptionRejected {
                        operation: SubscriptionOperation::Subscribe,
                        packet_id,
                        error: String::from_str("Broker rejected subscription"),
                    },
                }
            } else {
                ProtocolEvent::SubscriptionRejected {
                    operation: SubscriptionOperation::Subscribe,
                    packet_id,
                    error: join2("Unexpected SUBACK return codes: ", return_codes_text.as_str()),
                }
            }
        },
        V3Event::UnsubAck { packet_id } => ProtocolEvent::SubscriptionAcknowledged {
            operation: SubscriptionOperation::Unsubscribe,
            packet_id,
            granted_qos: None,
        },
        V3Event::Other => ProtocolEvent::Other,
    };
    Ok(mapped)
}

fn reason_text(reason: &V5AckReason) -> (r: String)
    ensures
        r@ == reason_name(*reason),
{
    match reason {
        V5AckReason::Success => String::from_str("Success"),
        V5AckReason::NoMatchingSubscribers => String::from_str("NoMatchingSubscribers"),
        V5AckReason::Other(name) => name.clone(),
    }
}

fn ack_outcome(reason: V5AckReason, prefix: &str) -> (r: PublishAckOutcome)
    ensures
        r@ == publish_ack_outcome(reason, prefix@),
{
    match reason {
        V5AckReason::Success | V5AckReason::NoMatchingSubscribers => PublishAckOutcome::Success,
        V5AckReason::Other(name) => PublishAckOutcome::Rejected(join2(prefix, name.as_str())),
    }
}

/// Classifies an MQTT 5.0 event.
pub fn map_v5_event(event: V5Event) -> (r: Result<ProtocolEvent, String>)
    ensures
        event_result_view(r) == v5_meaning(event),
{
    let mapped = match event {
        V5Event::ConnAck { accepted, code, session_present } => {
            if accepted {
                ProtocolEvent::Connected { session_present }
            } else {
                ProtocolEvent::ConnectionRefused(code)
            }
        },
        V5Event::Publish { topic, payload, qos, retain } => {
            let topic = match string_from_utf8(topic) {
                Ok(t) => t,
                Err(error) => {
                    return Err(join2("Invalid MQTT 5.0 topic: ", error.as_str()));
                },
            };
            ProtocolEvent::Publish { topic, payload, qos, retain }
        },
        V5Event::OutgoingPublish { packet_id } => ProtocolEvent::PublishRequestSent { packet_id },
        V5Event::PubAck { packet_id, reason } => ProtocolEvent::PublishAcknowledged {
            phase: PublishAckPhase::PubAck,
            packet_id,
            outcome: ack_outcome(reason, "Broker rejected QoS 1 publish: "),
        },
        V5Event::PubRec { packet_id, reason } => ProtocolEvent::PublishAcknowledged {
            phase: PublishAckPhase::PubRec,
            packet_id,
            outcome: ack_outcome(reason, "Broker rejected QoS 2 publish: "),
        },
        V5Event::PubComp { packet_id, reason } => {
            let outcome = match reason {
                V5AckReason::Success => PublishAckOutcome::Success,
                _ => PublishAckOutcome::Rejected(
                    join2("Broker failed to complete QoS 2 publish: ", reason_text(&reason).as_str()),
                ),
            };
            ProtocolEvent::PublishAcknowledged { phase: PublishAckPhase::PubComp, packet_id, outcome }
        },
        V5Event::OutgoingSubscribe { packet_id } => ProtocolEvent::SubscriptionRequestSent {
            operation: SubscriptionOperation::Subscribe,
            packet_id,
        },
        V5Event::OutgoingUnsubscribe { packet_id } => ProtocolEvent::SubscriptionRequestSent {
            operation: SubscriptionOperation::Unsubscribe,
            packet_id,
        },
        V5Event::SubAck { packet_id, return_codes, return_codes_text } => {
            let granted = if return_codes.len() == 1 {
                match &return_codes[0] {
                    V5SubscribeCode::Success(qos) => Some(*qos),
                    V5SubscribeCode::Refused(_) => None,
                }
            } else {
                None
            };
            match granted {
                Some(qos) => ProtocolEvent::SubscriptionAcknowledged {
                    operation: SubscriptionOperation::Subscribe,
                    packet_id,
                    granted_qos: Some(qos),
                },
                None => ProtocolEvent::SubscriptionRejected {
                    operation: SubscriptionOperation::Subscribe,
                    packet_id,
                    error: join2("Broker rejected subscription: ", return_codes_text.as_str()),
                },
            }
        },
        V5Event::UnsubAck { packet_id, reasons, reasons_text } => {
            let accepted = if reasons.len() == 1 {
                match &reasons[0] {
                    V5UnsubscribeReason::Refused(_) => false,
                    _ => true,
                }
            } else {
                false
            };
            if accepted {
                ProtocolEvent::SubscriptionAcknowledged {
                    operation: SubscriptionOperation::Unsubscribe,
                    packet_id,
                    granted_qos: None,
                }
            } else {
                ProtocolEvent::SubscriptionRejected {
                    operation: SubscriptionOperation::Unsubscribe,
                    packet_id,
                    error: join2("Broker rejected unsubscription: ", reasons_text.as_str()),
                }
            }
        },
        V5Event::Other => ProtocolEvent::Other,
    };
    Ok(mapped)
}

} // verus!
