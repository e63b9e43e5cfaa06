//! The decisions of a connection's supervisor: what to do with each event
//! of the client's event loop, and how to wait before reconnecting after the
//! connection is lost. The caller runs the loop and performs the actions.
use vstd::prelude::*;
use crate::events::ProtocolEvent;
use crate::protocol::{
    ConnectionState, MqttProtocolVersion, ReconnectPolicy, backoff_delay, plain_state, reconnecting_state,
    backoff_cap, law_backoff_is_capped_and_jittered,
};
use crate::publish::{PublishAckOutcome, PublishAckPhase};
use crate::stamps::now_rfc3339;
use crate::subscription::SubscriptionOperation;
use crate::keyed::lemma_filter_take_step;
use crate::models::Subscription;
use crate::text::{join2, string_equals};

verus! {

/// A message received from the broker.
#[derive(Debug, Clone)]
pub struct ReceivedMessage {
    pub server_id: i64,
    pub topic: String,
    pub payload: Vec<u8>,
    pub qos: u8,
    pub retain: bool,
    pub timestamp: String,
}

/// What the supervisor's caller does next.
#[derive(Debug)]
pub enum SupervisorAction {
    /// The broker accepted the connection: mark it connected, report `state`,
    /// and restore the enabled subscriptions when the session was not resumed.
    Connected { state: ConnectionState, restore_subscriptions: bool },
    /// Hand a received message to the user interface.
    Deliver(ReceivedMessage),
    /// Tell the publish tracker that a publish left with `packet_id`.
    PublishSent { packet_id: u16 },
    /// Tell the publish tracker of an acknowledgement.
    PublishAcknowledged { phase: PublishAckPhase, packet_id: u16, outcome: PublishAckOutcome },
    /// Tell the subscription tracker that its request left with `packet_id`.
    SubscriptionSent { operation: SubscriptionOperation, packet_id: u16 },
    /// Tell the subscription tracker of an acknowledgement.
    SubscriptionAcknowledged { operation: SubscriptionOperation, packet_id: u16, granted_qos: Option<u8> },
    /// Tell the subscription tracker of a refusal.
    SubscriptionRejected { operation: SubscriptionOperation, packet_id: u16, error: String },
    /// The connection is lost with this error; plan a reconnect.
    ConnectionLost(String),
    /// Nothing to do.
    Ignore,
}

/// How to go on after a lost connection.
#[derive(Debug)]
pub struct ReconnectPlan {
    /// The error with which the outstanding operations fail.
    pub operation_error: String,
    /// The number of the reconnect attempt.
    pub attempt: u32,
    /// How long to wait before it, in milliseconds.
    pub delay_ms: u64,
    /// The state to report while waiting.
    pub state: ConnectionState,
}

/// The per-connection state of the supervisor.
pub struct ConnectionSupervisor {
    pub server_id: i64,
    pub protocol_version: MqttProtocolVersion,
    pub policy: ReconnectPolicy,
    pub jitter_seed: u64,
    /// Consecutive lost connections since the broker last accepted one.
    pub reconnect_attempt: u32,
    /// Whether the broker accepted the current connection attempt.
    pub connected: bool,
}

/// The seed of the jitter for an attempt: the connection's seed plus the
/// attempt number, wrapping.
pub open spec fn attempt_seed(seed: u64, attempt: u32) -> u64 {
    ((seed as int + attempt as int) % 0x1_0000_0000_0000_0000) as u64
}

/// The attempt number after one more lost connection, saturating.
pub open spec fn next_attempt(attempt: u32) -> u32 {
    if attempt == u32::MAX {
        attempt
    } else {
        (attempt + 1) as u32
    }
}

impl ConnectionSupervisor {
    pub fn new(server_id: i64, protocol_version: MqttProtocolVersion, jitter_seed: u64) -> (s: ConnectionSupervisor)
        ensures
            s.server_id == server_id,
            s.protocol_version == protocol_version,
            s.policy == ReconnectPolicy::spec_default(),
            s.jitter_seed == jitter_seed,
            s.reconnect_attempt == 0,
            !s.connected,
    {
        ConnectionSupervisor {
            server_id,
            protocol_version,
            policy: ReconnectPolicy::default(),
            jitter_seed,
            reconnect_attempt: 0,
            connected: false,
        }
    }

    /// A new connection attempt begins; it is not connected until the broker accepts.
    pub fn begin_attempt(&mut self)
        ensures
            *final(self) == (ConnectionSupervisor { connected: false, ..*old(self) }),
    {
        self.connected = false;
    }

    /// Decides what to do with an event (or a failure) of the event loop.
    pub fn on_event(&mut self, event: Result<ProtocolEvent, String>) -> (r: SupervisorAction)
        ensures
            final(self).server_id == old(self).server_id,
            final(self).protocol_version == old(self).protocol_version,
            final(self).policy == old(self).policy,
            final(self).jitter_seed == old(self).jitter_seed,
            event matches Ok(ProtocolEvent::Connected { session_present }) ==> {
                &&& final(self).connected
                &&& final(self).reconnect_attempt == 0
                &&& r matches SupervisorAction::Connected { state, restore_subscriptions }
                &&& state@ == plain_state(old(self).server_id, "connected"@, None, Some(old(self).protocol_version))
                &&& restore_subscriptions == !session_present
            },
            !(event matches Ok(ProtocolEvent::Connected { .. })) ==> {
                &&& final(self).connected == old(self).connected
                &&& final(self).reconnect_attempt == old(self).reconnect_attempt
            },
            event matches Ok(ProtocolEvent::ConnectionRefused(code)) ==> (r matches SupervisorAction::ConnectionLost(m)
                && m@ == "Connection refused: "@ + code@),
            event matches Err(e) ==> (r matches SupervisorAction::ConnectionLost(m) && m@ == (if old(self).connected {
                "Connection error: "@
            } else {
                "Failed to connect: "@
            }) + e@),
            event matches Ok(ProtocolEvent::Publish { topic, payload, qos, retain }) ==> (
            r matches SupervisorAction::Deliver(m) && m.server_id == old(self).server_id && m.topic@ == topic@
                && m.payload@ == payload@ && m.qos == qos && m.retain == retain),
            event matches Ok(ProtocolEvent::PublishRequestSent { packet_id }) ==> (
            r matches SupervisorAction::PublishSent { packet_id: p } && p == packet_id),
            event matches Ok(ProtocolEvent::PublishAcknowledged { phase, packet_id, outcome }) ==> (
            r matches SupervisorAction::PublishAcknowledged { phase: f, packet_id: p, outcome: o } && f == phase && p
                == packet_id && o@ == outcome@),
            event matches Ok(ProtocolEvent::SubscriptionRequestSent { operation, packet_id }) ==> (
            r matches SupervisorAction::SubscriptionSent { operation: op, packet_id: p } && op == operation && p
                == packet_id),
            event matches Ok(ProtocolEvent::SubscriptionAcknowledged { operation, packet_id, granted_qos }) ==> (
            r matches SupervisorAction::SubscriptionAcknowledged { operation: op, packet_id: p, granted_qos: g } && op
                == operation && p == packet_id && g == granted_qos),
            event matches Ok(ProtocolEvent::SubscriptionRejected { operation, packet_id, error }) ==> (
            r matches SupervisorAction::SubscriptionRejected { operation: op, packet_id: p, error: e } && op
                == operation && p == packet_id && e@ == error@),
            event matches Ok(ProtocolEvent::Other) ==> r is Ignore,
    {
        match event {
            Ok(ProtocolEvent::Connected { session_present }) => {
                self.connected = true;
                self.reconnect_attempt = 0;
                let state = ConnectionState::new(self.server_id, "connected", None, Some(self.protocol_version));
                SupervisorAction::Connected { state, restore_subscriptions: !session_present }
            },
            Ok(ProtocolEvent::ConnectionRefused(code)) => SupervisorAction::ConnectionLost(
                join2("Connection refused: ", code.as_str()),
            ),
            Ok(ProtocolEvent::Publish { topic, payload, qos, retain }) => {
                let message = ReceivedMessage {
                    server_id: self.server_id,
                    topic,
                    payload,
                    qos,
                    retain,
                    timestamp: now_rfc3339(),
                };
                SupervisorAction::Deliver(message)
            },
            Ok(ProtocolEvent::PublishRequestSent { packet_id }) => SupervisorAction::PublishSent { packet_id },
            Ok(ProtocolEvent::PublishAcknowledged { phase, packet_id, outcome }) => SupervisorAction::PublishAcknowledged {
                phase,
                packet_id,
                outcome,
            },
            Ok(ProtocolEvent::SubscriptionRequestSent { operation, packet_id }) => SupervisorAction::SubscriptionSent {
                operation,
                packet_id,
            },
            Ok(ProtocolEvent::SubscriptionAcknowledged { operation, packet_id, granted_qos }) =>
                SupervisorAction::SubscriptionAcknowledged { operation, packet_id, granted_qos },
            Ok(ProtocolEvent::SubscriptionRejected { operation, packet_id, error }) =>
                SupervisorAction::SubscriptionRejected { operation, packet_id, error },
            Ok(ProtocolEvent::Other) => SupervisorAction::Ignore,
            Err(e) => {
                if self.connected {
                    SupervisorAction::ConnectionLost(join2("Connection error: ", e.as_str()))
                } else {
                    SupervisorAction::ConnectionLost(join2("Failed to connect: ", e.as_str()))
                }
            },
        }
    }

    /// The connection was lost with `error`: counts the attempt and plans the
    /// wait before reconnecting.
    pub fn plan_reconnect(&mut self, error: String) -> (r: ReconnectPlan)
        ensures
            *final(self) == (ConnectionSupervisor {
                reconnect_attempt: next_attempt(old(self).reconnect_attempt),
                ..*old(self)
            }),
            r.attempt == next_attempt(old(self).reconnect_attempt),
            r.delay_ms == backoff_delay(old(self).policy, r.attempt, attempt_seed(old(self).jitter_seed, r.attempt)),
            r.operation_error@ == "Connection closed before acknowledgement: "@ + error@,
            r.state@ == reconnecting_state(old(self).server_id, error@, old(self).protocol_version, r.attempt, r.delay_ms),
    {
        self.reconnect_attempt = self.reconnect_attempt.saturating_add(1);
        let attempt = self.reconnect_attempt;
        let seed = self.jitter_seed.wrapping_add(attempt as u64);
        proof {
            assert(seed == attempt_seed(old(self).jitter_seed, attempt));
        }
        let delay_ms = self.policy.delay(attempt, seed);
        let operation_error = join2("Connection closed before acknowledgement: ", error.as_str());
        let state = ConnectionState::reconnecting(self.server_id, error, self.protocol_version, attempt, delay_ms);
        ReconnectPlan { operation_error, attempt, delay_ms, state }
    }
}

/// A successful connection resets the back-off: whatever the earlier
/// failures, the next lost connection is attempt 1 and waits at most the
/// smaller of the base delay and the maximum.
pub proof fn law_connection_resets_backoff(s: ConnectionSupervisor, session_present: bool)
    ensures
        next_attempt(0) == 1,
        backoff_cap(s.policy, 1) == (if s.policy.base_delay_ms < s.policy.max_delay_ms {
            s.policy.base_delay_ms as int
        } else {
            s.policy.max_delay_ms as int
        }),
        forall|seed: u64| #![trigger backoff_delay(s.policy, 1, seed)]
            backoff_delay(s.policy, 1, seed) <= backoff_cap(s.policy, 1),
{
    vstd::arithmetic::power2::lemma2_to64();
    assert(crate::protocol::backoff_exponent(1) == 0);
    assert(s.policy.base_delay_ms * vstd::arithmetic::power2::pow2(0) == s.policy.base_delay_ms);
    assert forall|seed: u64| #![trigger backoff_delay(s.policy, 1, seed)]
        backoff_delay(s.policy, 1, seed) <= backoff_cap(s.policy, 1) by {
        law_backoff_is_capped_and_jittered(s.policy, 1, seed);
    }
}

/// The subscriptions to restore when the broker starts a fresh session.
pub open spec fn is_active_subscription() -> spec_fn(Subscription) -> bool {
    |s: Subscription| s.is_active
}

/// The active subscriptions, in order: what a fresh session restores.
pub fn subscriptions_to_restore(subs: &Vec<Subscription>) -> (r: Vec<Subscription>)
    ensures
        r@ == subs@.filter(is_active_subscription()),
{
    let mut r: Vec<Subscription> = Vec::new();
    let mut i: usize = 0;
    while i < subs.len()
        invariant
            i <= subs@.len(),
            r@ == subs@.take(i as int).filter(is_active_subscription()),
        decreases subs@.len() - i,
    {
        proof {
            lemma_filter_take_step(subs@, is_active_subscription(), i as int);
        }
        if subs[i].is_active {
            r.push(subs[i].duplicate());
        }
        i = i + 1;
    }
    proof {
        assert(subs@.take(i as int) =~= subs@);
    }
    r
}

/// Whether a stored subscription still stands for `wanted`: it is active and
/// has its ID, or, when `wanted` has none, its topic.
pub open spec fn stands_for(current: Subscription, wanted: Subscription) -> bool {
    current.is_active && match wanted.id {
        Some(id) => current.id == Some(id),
        None => current.topic@ == wanted.topic@,
    }
}

/// A fresh session restores exactly the active subscriptions, in their
/// stored order; a stored subscription stands for a wanted one only while it
/// is active, matched by ID when the wanted one has an ID and by topic
/// otherwise. Each lost connection counts one more attempt, up to `u32::MAX`.
pub proof fn law_what_is_restored(subs: Seq<Subscription>, current: Subscription, wanted: Subscription, attempt: u32)
    ensures
        forall|i: int| 0 <= i < subs.filter(is_active_subscription()).len()
            ==> (#[trigger] subs.filter(is_active_subscription())[i]).is_active,
        forall|i: int| 0 <= i < subs.len() && (#[trigger] subs[i]).is_active ==> subs.filter(is_active_subscription()).contains(subs[i]),
        subs.filter(is_active_subscription()).len() <= subs.len(),
        (forall|i: int| 0 <= i < subs.len() ==> (#[trigger] subs[i]).is_active) ==> subs.filter(is_active_subscription()) == subs,
        !current.is_active ==> !stands_for(current, wanted),
        wanted.id matches Some(id) ==> (stands_for(current, wanted) <==> (current.is_active && current.id == Some(id))),
        wanted.id is None ==> (stands_for(current, wanted) <==> (current.is_active && current.topic@ == wanted.topic@)),
        attempt < u32::MAX ==> next_attempt(attempt) == attempt + 1,
        attempt == u32::MAX ==> next_attempt(attempt) == attempt,
{
    broadcast use vstd::seq_lib::group_filter_ensures;
    lemma_filter_all(subs);
}

/// Filtering keeps a sequence whose items all pass.
proof fn lemma_filter_all(subs: Seq<Subscription>)
    ensures
        (forall|i: int| 0 <= i < subs.len() ==> (#[trigger] subs[i]).is_active) ==> subs.filter(is_active_subscription()) == subs,
    decreases subs.len(),
{
    reveal(Seq::filter);
    if subs.len() > 0 {
        lemma_filter_all(subs.drop_last());
        if forall|i: int| 0 <= i < subs.len() ==> (#[trigger] subs[i]).is_active {
            assert forall|i: int| 0 <= i < subs.drop_last().len() implies (#[trigger] subs.drop_last()[i]).is_active by {
                assert(subs.drop_last()[i] == subs[i]);
            }
            assert(subs.drop_last().push(subs.last()) =~= subs);
        }
    }
}

/// What restoring one subscription comes to.
#[derive(Debug)]
pub enum RestoreStep {
    /// The connection is no longer the one the restore was started for.
    Stop,
    /// The user removed or deactivated the subscription meanwhile.
    Skip,
    /// Subscribe to the topic as it is stored now.
    Subscribe { topic: String, qos: u8 },
}

/// The next step of restoring `wanted`, checked against the subscriptions
/// stored now: nothing more once the connection has changed, nothing for a
/// subscription no longer wanted, else the first stored one that stands for it.
pub fn restore_step(still_current: bool, current: &Vec<Subscription>, wanted: &Subscription) -> (r: RestoreStep)
    ensures
        !still_current ==> r is Stop,
        still_current && (forall|j: int| 0 <= j < current@.len() ==> !stands_for(#[trigger] current@[j], *wanted)) ==> r is Skip,
        still_current ==> (r matches RestoreStep::Subscribe { topic, qos } ==> exists|j: int|
            0 <= j < current@.len() && stands_for(#[trigger] current@[j], *wanted) && (forall|k: int|
                0 <= k < j ==> !stands_for(#[trigger] current@[k], *wanted)) && topic@ == current@[j].topic@ && qos
                == #[verifier::truncate] (current@[j].qos as u8)),
        still_current && (exists|j: int| 0 <= j < current@.len() && stands_for(#[trigger] current@[j], *wanted)) ==> r is Subscribe,
{
    if !still_current {
        return RestoreStep::Stop;
    }
    let mut i: usize = 0;
    while i < current.len()
        invariant
            still_current,
            i <= current@.len(),
            forall|k: int| 0 <= k < i ==> !stands_for(#[trigger] current@[k], *wanted),
        decreases current@.len() - i,
    {
        let c = &current[i];
        let same = match wanted.id {
            Some(id) => c.id == Some(id),
            None => string_equals(&c.topic, &wanted.topic),
        };
        if c.is_active && same {
            proof {
                assert(stands_for(current@[i as int], *wanted));
            }
            return RestoreStep::Subscribe { topic: c.topic.clone(), qos: #[verifier::truncate] (c.qos as u8) };
        }
        i = i + 1;
    }
    RestoreStep::Skip
}

} // verus!
