//! Lifecycle of outgoing publishes: binds each operation to the packet ID the
//! client assigns to it and completes it on the broker's acknowledgement.
//!
//! QoS 0 completes as `sent` once the publish leaves; QoS 1 completes on the
//! matching PUBACK; QoS 2 on the matching PUBCOMP (a PUBREC only moves it on,
//! or fails it when the broker refuses). Operations are bound to packets in
//! the order they were started. Completions to hand to waiting callers are
//! queued and taken with `take_completions`.
use vstd::prelude::*;
use crate::keyed::{
    lemma_filter_take_step,
    has_key, index_of_key, keyed_map, lemma_keyed_empty, lemma_keyed_index, lemma_keyed_push,
    lemma_keyed_remove, lemma_keyed_update, unique_keys,
};
use crate::text::{clone_opt_string, opt_view, string_equals, trimmed, trim};
use crate::subscription::WaitOutcome;
use std::collections::{HashMap, VecDeque};

verus! {

broadcast use vstd::std_specs::hash::group_hash_axioms;

#[derive(Debug, Clone, Copy, PartialEq, Eq, Structural)]
pub enum PublishRuntimeStatus {
    Pending,
    Sent,
    Confirmed,
    Failed,
}

impl PublishRuntimeStatus {
    /// The wire name of the status.
    pub open spec fn name(self) -> Seq<char> {
        match self {
            PublishRuntimeStatus::Pending => "pending"@,
            PublishRuntimeStatus::Sent => "sent"@,
            PublishRuntimeStatus::Confirmed => "confirmed"@,
            PublishRuntimeStatus::Failed => "failed"@,
        }
    }

    pub fn as_str(self) -> (s: &'static str)
        ensures
            s@ == self.name(),
    {
        match self {
            PublishRuntimeStatus::Pending => "pending",
            PublishRuntimeStatus::Sent => "sent",
            PublishRuntimeStatus::Confirmed => "confirmed",
            PublishRuntimeStatus::Failed => "failed",
        }
    }
}

/// What the broker answered to a publish.
#[derive(Debug, Clone, PartialEq, Eq)]
pub enum PublishAckOutcome {
    Success,
    Rejected(String),
}

/// The view of an acknowledgement outcome.
pub enum AckOutcomeView {
    Success,
    Rejected(Seq<char>),
}

impl View for PublishAckOutcome {
    type V = AckOutcomeView;

    open spec fn view(&self) -> AckOutcomeView {
        match self {
            PublishAckOutcome::Success => AckOutcomeView::Success,
            PublishAckOutcome::Rejected(e) => AckOutcomeView::Rejected(e@),
        }
    }
}

#[derive(Debug, Clone, Copy, PartialEq, Eq, Structural)]
pub enum PublishAckPhase {
    PubAck,
    PubRec,
    PubComp,
}

#[derive(Debug, Clone, PartialEq, Eq)]
pub struct PublishStateEvent {
    pub operation_id: String,
    pub server_id: i64,
    pub qos: u8,
    pub status: PublishRuntimeStatus,
    pub packet_id: Option<u16>,
    pub error: Option<String>,
}

pub struct PublishStateView {
    pub operation_id: Seq<char>,
    pub server_id: i64,
    pub qos: u8,
    pub status: PublishRuntimeStatus,
    pub packet_id: Option<u16>,
    pub error: Option<Seq<char>>,
}

impl View for PublishStateEvent {
    type V = PublishStateView;

    open spec fn view(&self) -> PublishStateView {
        PublishStateView {
            operation_id: self.operation_id@,
            server_id: self.server_id,
            qos: self.qos,
            status: self.status,
            packet_id: self.packet_id,
            error: opt_view(self.error),
        }
    }
}

impl PublishStateEvent {
    /// A copy of the event.
    pub fn snapshot(&self) -> (r: PublishStateEvent)
        ensures
            r@ == self@,
    {
        PublishStateEvent {
            operation_id: self.operation_id.clone(),
            server_id: self.server_id,
            qos: self.qos,
            status: self.status,
            packet_id: self.packet_id,
            error: clone_opt_string(&self.error),
        }
    }
}

#[derive(Debug, Clone, PartialEq, Eq)]
pub struct PublishOperationResult {
    pub operation_id: String,
    pub status: PublishRuntimeStatus,
    pub packet_id: Option<u16>,
}

pub struct PublishResultView {
    pub operation_id: Seq<char>,
    pub status: PublishRuntimeStatus,
    pub packet_id: Option<u16>,
}

impl View for PublishOperationResult {
    type V = PublishResultView;

    open spec fn view(&self) -> PublishResultView {
        PublishResultView {
            operation_id: self.operation_id@,
            status: self.status,
            packet_id: self.packet_id,
        }
    }
}

/// The outcome owed to the caller that started an operation.
#[derive(Debug, PartialEq, Eq)]
pub struct PublishCompletion {
    pub operation_id: String,
    pub outcome: Result<PublishOperationResult, String>,
}

pub struct PublishCompletionView {
    pub operation_id: Seq<char>,
    pub outcome: Result<PublishResultView, Seq<char>>,
}

impl View for PublishCompletion {
    type V = PublishCompletionView;

    open spec fn view(&self) -> PublishCompletionView {
        PublishCompletionView {
            operation_id: self.operation_id@,
            outcome: match self.outcome {
                Ok(r) => Ok(r@),
                Err(e) => Err(e@),
            },
        }
    }
}

/// A tracked operation: its last state and whether its caller still awaits a completion.
pub struct PendingPublishView {
    pub state: PublishStateView,
    pub completion_open: bool,
}

/// The abstract state of the tracker.
#[verifier::ext_equal]
pub struct PublishTrackerView {
    /// Operations started but not yet bound to an outgoing packet, oldest first.
    pub awaiting: Seq<Seq<char>>,
    /// Tracked operations by operation ID.
    pub operations: Map<Seq<char>, PendingPublishView>,
    /// The operation bound to each packet ID.
    pub by_packet: Map<u16, Seq<char>>,
    /// Completions produced and not yet taken, in the order they were produced.
    pub completions: Seq<PublishCompletionView>,
}

// ---------------------------------------------------------------------------
// The model: one spec function per transition.
// ---------------------------------------------------------------------------

pub open spec fn completion_ok(id: Seq<char>, status: PublishRuntimeStatus, packet_id: Option<u16>) -> PublishCompletionView {
    PublishCompletionView {
        operation_id: id,
        outcome: Ok(PublishResultView { operation_id: id, status, packet_id }),
    }
}

pub open spec fn completion_err(id: Seq<char>, error: Seq<char>) -> PublishCompletionView {
    PublishCompletionView { operation_id: id, outcome: Err(error) }
}

/// Appends `c` to the queued completions when the caller still awaits one.
pub open spec fn owe(completions: Seq<PublishCompletionView>, open: bool, c: PublishCompletionView) -> Seq<PublishCompletionView> {
    if open {
        completions.push(c)
    } else {
        completions
    }
}

pub open spec fn with_failure(s: PublishStateView, error: Seq<char>) -> PublishStateView {
    PublishStateView { status: PublishRuntimeStatus::Failed, error: Some(error), ..s }
}

/// `start`: the error, or the new state of the tracker and the pending state.
pub open spec fn start_next(v: PublishTrackerView, server_id: i64, qos: u8, id: Seq<char>) -> (PublishTrackerView, Result<PublishStateView, Seq<char>>) {
    if qos > 2 {
        (v, Err("Invalid QoS"@))
    } else if trimmed(id).len() == 0 {
        (v, Err("Publish operation ID is required"@))
    } else if v.operations.contains_key(id) {
        (v, Err("Publish operation ID already exists"@))
    } else {
        let state = PublishStateView {
            operation_id: id,
            server_id,
            qos,
            status: PublishRuntimeStatus::Pending,
            packet_id: None,
            error: None,
        };
        (
            PublishTrackerView {
                awaiting: v.awaiting.push(id),
                operations: v.operations.insert(id, PendingPublishView { state, completion_open: true }),
                ..v
            },
            Ok(state),
        )
    }
}

/// `on_outgoing_publish`: binds the oldest awaiting operation to `packet_id`.
pub open spec fn outgoing_next(v: PublishTrackerView, packet_id: u16) -> (PublishTrackerView, Option<PublishStateView>) {
    if v.awaiting.len() == 0 {
        (v, None)
    } else {
        let id = v.awaiting[0];
        let popped = PublishTrackerView { awaiting: v.awaiting.drop_first(), ..v };
        if !v.operations.contains_key(id) {
            (popped, None)
        } else {
            let p = v.operations[id];
            if p.state.status == PublishRuntimeStatus::Failed {
                (PublishTrackerView { operations: v.operations.remove(id), ..popped }, None)
            } else {
                let sent = PublishStateView {
                    status: PublishRuntimeStatus::Sent,
                    packet_id: if packet_id != 0 { Some(packet_id) } else { None },
                    ..p.state
                };
                if p.state.qos != 0 {
                    (
                        PublishTrackerView {
                            operations: v.operations.insert(id, PendingPublishView { state: sent, ..p }),
                            by_packet: v.by_packet.insert(packet_id, id),
                            ..popped
                        },
                        Some(sent),
                    )
                } else {
                    (
                        PublishTrackerView {
                            operations: v.operations.remove(id),
                            completions: owe(
                                v.completions,
                                p.completion_open,
                                completion_ok(p.state.operation_id, PublishRuntimeStatus::Sent, None),
                            ),
                            ..popped
                        },
                        Some(sent),
                    )
                }
            }
        }
    }
}

/// Ends the operation bound to `packet_id` with the broker's outcome.
pub open spec fn finish_next(v: PublishTrackerView, packet_id: u16, outcome: AckOutcomeView) -> (PublishTrackerView, Option<PublishStateView>) {
    if !v.by_packet.contains_key(packet_id) {
        (v, None)
    } else {
        let id = v.by_packet[packet_id];
        let unbound = PublishTrackerView { by_packet: v.by_packet.remove(packet_id), ..v };
        if !v.operations.contains_key(id) {
            (unbound, None)
        } else {
            let p = v.operations[id];
            let s = PublishStateView { packet_id: Some(packet_id), ..p.state };
            match outcome {
                AckOutcomeView::Success => {
                    let done = PublishStateView { status: PublishRuntimeStatus::Confirmed, ..s };
                    (
                        PublishTrackerView {
                            operations: v.operations.remove(id),
                            completions: owe(
                                v.completions,
                                p.completion_open,
                                completion_ok(p.state.operation_id, PublishRuntimeStatus::Confirmed, Some(packet_id)),
                            ),
                            ..unbound
                        },
                        Some(done),
                    )
                },
                AckOutcomeView::Rejected(e) => {
                    let done = with_failure(s, e);
                    (
                        PublishTrackerView {
                            operations: v.operations.remove(id),
                            completions: owe(v.completions, p.completion_open, completion_err(p.state.operation_id, e)),
                            ..unbound
                        },
                        Some(done),
                    )
                },
            }
        }
    }
}

/// The QoS of the operation bound to `packet_id`, if any.
pub open spec fn bound_qos(v: PublishTrackerView, packet_id: u16) -> Option<u8> {
    if v.by_packet.contains_key(packet_id) && v.operations.contains_key(v.by_packet[packet_id]) {
        Some(v.operations[v.by_packet[packet_id]].state.qos)
    } else {
        None
    }
}

/// `on_puback`: only a QoS 1 operation is finished by a PUBACK.
pub open spec fn puback_next(v: PublishTrackerView, packet_id: u16, outcome: AckOutcomeView) -> (PublishTrackerView, Option<PublishStateView>) {
    if bound_qos(v, packet_id) == Some(1u8) {
        finish_next(v, packet_id, outcome)
    } else {
        (v, None)
    }
}

/// `on_pubrec`: a successful PUBREC leaves a QoS 2 operation sent; a refusal fails it.
pub open spec fn pubrec_next(v: PublishTrackerView, packet_id: u16, outcome: AckOutcomeView) -> (PublishTrackerView, Option<PublishStateView>) {
    if bound_qos(v, packet_id) == Some(2u8) {
        match outcome {
            AckOutcomeView::Success => (v, Some(v.operations[v.by_packet[packet_id]].state)),
            AckOutcomeView::Rejected(_) => finish_next(v, packet_id, outcome),
        }
    } else {
        (v, None)
    }
}

/// `on_pubcomp`: only a QoS 2 operation is finished by a PUBCOMP.
pub open spec fn pubcomp_next(v: PublishTrackerView, packet_id: u16, outcome: AckOutcomeView) -> (PublishTrackerView, Option<PublishStateView>) {
    if bound_qos(v, packet_id) == Some(2u8) {
        finish_next(v, packet_id, outcome)
    } else {
        (v, None)
    }
}

/// `fail_operation`: fails an unfinished operation; one that is not yet bound
/// stays as a marker so that the next outgoing packet is not bound to another.
pub open spec fn fail_operation_next(v: PublishTrackerView, id: Seq<char>, error: Seq<char>) -> (PublishTrackerView, Option<PublishStateView>) {
    if !v.operations.contains_key(id) {
        (v, None)
    } else {
        let p = v.operations[id];
        if p.state.status == PublishRuntimeStatus::Confirmed || p.state.status == PublishRuntimeStatus::Failed {
            (v, None)
        } else {
            let failed = with_failure(p.state, error);
            let completions = owe(v.completions, p.completion_open, completion_err(id, error));
            match p.state.packet_id {
                Some(pid) => (
                    PublishTrackerView {
                        operations: v.operations.remove(id),
                        by_packet: v.by_packet.remove(pid),
                        completions,
                        ..v
                    },
                    Some(failed),
                ),
                None => (
                    PublishTrackerView {
                        operations: v.operations.insert(id, PendingPublishView { state: failed, completion_open: false }),
                        completions,
                        ..v
                    },
                    Some(failed),
                ),
            }
        }
    }
}

/// The predicate that holds of every ID but `id`.
pub open spec fn other_than(id: Seq<char>) -> spec_fn(Seq<char>) -> bool {
    |q: Seq<char>| q != id
}

/// `mark_enqueue_failed`: drops an operation whose publish never reached the client.
pub open spec fn enqueue_failed_next(v: PublishTrackerView, id: Seq<char>, error: Seq<char>) -> (PublishTrackerView, Option<PublishStateView>) {
    if !v.operations.contains_key(id) || v.operations[id].state.packet_id.is_some() {
        (v, None)
    } else {
        let p = v.operations[id];
        (
            PublishTrackerView {
                awaiting: v.awaiting.filter(other_than(id)),
                operations: v.operations.remove(id),
                completions: owe(v.completions, p.completion_open, completion_err(p.state.operation_id, error)),
                ..v
            },
            Some(with_failure(p.state, error)),
        )
    }
}

pub open spec fn opt_state_view(o: Option<PublishStateEvent>) -> Option<PublishStateView> {
    match o {
        Some(s) => Some(s@),
        None => None,
    }
}

pub open spec fn result_state_view(r: Result<PublishStateEvent, String>) -> Result<PublishStateView, Seq<char>> {
    match r {
        Ok(s) => Ok(s@),
        Err(e) => Err(e@),
    }
}

/// Whether the caller of operation `id` is owed a completion in `v`.
pub open spec fn owed_in(v: PublishTrackerView) -> spec_fn(Seq<char>) -> bool {
    |id: Seq<char>| v.operations[id].completion_open
}

/// The failure completion of operation `id`.
pub open spec fn failure_of(error: Seq<char>) -> spec_fn(Seq<char>) -> PublishCompletionView {
    |id: Seq<char>| completion_err(id, error)
}

/// The operation IDs of a list of states, in order.
pub open spec fn ids_of(states: Seq<PublishStateEvent>) -> Seq<Seq<char>> {
    states.map_values(|s: PublishStateEvent| s.operation_id@)
}

// ---------------------------------------------------------------------------
// The implementation.
// ---------------------------------------------------------------------------

struct PendingPublish {
    state: PublishStateEvent,
    completion_open: bool,
}

impl View for PendingPublish {
    type V = PendingPublishView;

    closed spec fn view(&self) -> PendingPublishView {
        PendingPublishView { state: self.state@, completion_open: self.completion_open }
    }
}

spec fn pending_key() -> spec_fn(PendingPublish) -> Seq<char> {
    |p: PendingPublish| p.state.operation_id@
}

spec fn pending_val() -> spec_fn(PendingPublish) -> PendingPublishView {
    |p: PendingPublish| p@
}

pub struct PublishOperationTracker {
    awaiting_outgoing: VecDeque<String>,
    operations: Vec<PendingPublish>,
    by_packet_id: HashMap<u16, String>,
    completions: Vec<PublishCompletion>,
}

impl View for PublishOperationTracker {
    type V = PublishTrackerView;

    closed spec fn view(&self) -> PublishTrackerView {
        PublishTrackerView {
            awaiting: self.awaiting_outgoing@.map_values(|s: String| s@),
            operations: keyed_map(self.operations@, pending_key(), pending_val()),
            by_packet: self.by_packet_id@.map_values(|s: String| s@),
            completions: self.completions@.map_values(|c: PublishCompletion| c@),
        }
    }
}

/// The caller of an operation is owed a completion exactly while the
/// operation is pending or sent.
pub open spec fn completion_owed_while_unfinished(v: PublishTrackerView) -> bool {
    forall|id: Seq<char>|
        #[trigger] v.operations.contains_key(id) ==> (v.operations[id].completion_open <==> (
        v.operations[id].state.status == PublishRuntimeStatus::Pending
            || v.operations[id].state.status == PublishRuntimeStatus::Sent))
}

/// A confirmed operation is no longer tracked.
pub open spec fn confirmed_are_released(v: PublishTrackerView) -> bool {
    forall|id: Seq<char>|
        #[trigger] v.operations.contains_key(id) ==> v.operations[id].state.status != PublishRuntimeStatus::Confirmed
}

/// Each tracked operation is filed under its own operation ID.
pub open spec fn filed_by_id(v: PublishTrackerView) -> bool {
    forall|id: Seq<char>|
        #[trigger] v.operations.contains_key(id) ==> v.operations[id].state.operation_id == id
}

/// The start queue and the packet bindings agree with the tracked
/// operations: each awaiting operation is queued once, tracked and not yet
/// bound, and each bound packet ID leads to a tracked, sent operation that
/// carries that packet ID.
pub open spec fn queue_consistent(v: PublishTrackerView) -> bool {
    &&& v.awaiting.no_duplicates()
    &&& forall|k: int|
        #![trigger v.awaiting[k]]
        0 <= k < v.awaiting.len() ==> v.operations.contains_key(v.awaiting[k])
            && v.operations[v.awaiting[k]].state.packet_id is None
    &&& forall|p: u16|
        #[trigger] v.by_packet.contains_key(p) ==> v.operations.contains_key(v.by_packet[p])
            && v.operations[v.by_packet[p]].state.packet_id == Some(p)
            && v.operations[v.by_packet[p]].state.status == PublishRuntimeStatus::Sent
}

/// The outgoing packet carries a packet ID wherever the protocol gives one:
/// a QoS 1 or 2 publish at the front of the queue goes out under a nonzero ID.
pub open spec fn outgoing_carries_id(v: PublishTrackerView, packet_id: u16) -> bool {
    v.awaiting.len() > 0 && v.operations.contains_key(v.awaiting[0])
        && v.operations[v.awaiting[0]].state.qos != 0 ==> packet_id != 0
}

impl PublishOperationTracker {
    /// Internal consistency of the tracker.
    pub closed spec fn wf(&self) -> bool {
        &&& unique_keys(self.operations@, pending_key())
        &&& completion_owed_while_unfinished(self@)
        &&& confirmed_are_released(self@)
    }

    pub fn new() -> (t: PublishOperationTracker)
        ensures
            t.wf(),
            t@.awaiting.len() == 0,
            t@.operations =~= Map::<Seq<char>, PendingPublishView>::empty(),
            t@.by_packet =~= Map::<u16, Seq<char>>::empty(),
            t@.completions.len() == 0,
            queue_consistent(t@),
    {
        let t = PublishOperationTracker {
            awaiting_outgoing: VecDeque::new(),
            operations: Vec::new(),
            by_packet_id: HashMap::new(),
            completions: Vec::new(),
        };
        proof {
            lemma_keyed_empty(pending_key(), pending_val());
            assert(t@.by_packet =~= Map::<u16, Seq<char>>::empty());
        }
        t
    }

    proof fn lemma_filed(&self)
        requires
            unique_keys(self.operations@, pending_key()),
        ensures
            filed_by_id(self@),
    {
        assert forall|id: Seq<char>| #[trigger] self@.operations.contains_key(id) implies self@.operations[id].state.operation_id == id by {
            let i = index_of_key(self.operations@, pending_key(), id);
            lemma_keyed_index(self.operations@, pending_key(), pending_val(), i);
        }
    }

    /// Every tracked operation is filed under its own ID.
    pub proof fn law_operations_filed_by_id(&self)
        requires
            self.wf(),
        ensures
            filed_by_id(self@),
    {
        self.lemma_filed();
    }

    /// The start queue and the packet bindings agree with the tracked
    /// operations. Every step keeps this, and a new or emptied tracker has
    /// it; an outgoing packet keeps it where a QoS 1 or 2 publish goes out
    /// under a nonzero packet ID, as the protocol has it. The tracker accepts
    /// such a publish under packet ID 0 too, and binds it without marking it
    /// bound, so this is no part of `wf`.
    pub open spec fn consistent(&self) -> bool {
        queue_consistent(self@)
    }

    /// A completion is owed exactly while an operation is pending or sent.
    pub proof fn law_completion_owed_while_unfinished(&self)
        requires
            self.wf(),
        ensures
            completion_owed_while_unfinished(self@),
    {
    }

    fn find_operation(&self, id: &String) -> (r: Option<usize>)
        requires
            unique_keys(self.operations@, pending_key()),
        ensures
            match r {
                Some(i) => i < self.operations.len() && self.operations@[i as int].state.operation_id@ == id@
                    && self@.operations.contains_key(id@) && self@.operations[id@] == self.operations@[i as int]@,
                None => !self@.operations.contains_key(id@),
            },
    {
        let mut i: usize = 0;
        while i < self.operations.len()
            invariant
                i <= self.operations.len(),
                unique_keys(self.operations@, pending_key()),
                forall|j: int| 0 <= j < i ==> self.operations@[j].state.operation_id@ != id@,
            decreases self.operations.len() - i,
        {
            if string_equals(&self.operations[i].state.operation_id, id) {
                proof {
                    lemma_keyed_index(self.operations@, pending_key(), pending_val(), i as int);
                }
                return Some(i);
            }
            i = i + 1;
        }
        proof {
            if has_key(self.operations@, pending_key(), id@) {
                let j = choose|j: int| #![trigger self.operations@[j]] 0 <= j < self.operations@.len() && pending_key()(self.operations@[j]) == id@;
            }
        }
        None
    }

    /// The operation ID bound to `packet_id`, if any.
    fn binding(&self, packet_id: u16) -> (r: Option<String>)
        ensures
            match r {
                Some(id) => self@.by_packet.contains_key(packet_id) && self@.by_packet[packet_id] == id@,
                None => !self@.by_packet.contains_key(packet_id),
            },
    {
        match self.by_packet_id.get(&packet_id) {
            Some(id) => Some(id.clone()),
            None => None,
        }
    }
}


impl PublishOperationTracker {
    /// Registers a new operation; it is bound to the next outgoing packet after
    /// the operations started before it.
    pub fn start(&mut self, server_id: i64, qos: u8, operation_id: String) -> (r: Result<PublishStateEvent, String>)
        requires
            old(self).wf(),
        ensures
            final(self).wf(),
            (final(self)@, result_state_view(r)) == start_next(old(self)@, server_id, qos, operation_id@),
            old(self).consistent() ==> final(self).consistent(),
    {
        proof {
            if queue_consistent(self@) {
                lemma_start_keeps_queue(self@, server_id, qos, operation_id@);
            }
        }
        if qos > 2 {
            return Err(String::from_str("Invalid QoS"));
        }
        if trim(operation_id.as_str()).is_empty() {
            return Err(String::from_str("Publish operation ID is required"));
        }
        if self.find_operation(&operation_id).is_some() {
            return Err(String::from_str("Publish operation ID already exists"));
        }
        let state = PublishStateEvent {
            operation_id: operation_id.clone(),
            server_id,
            qos,
            status: PublishRuntimeStatus::Pending,
            packet_id: None,
            error: None,
        };
        let pending = PendingPublish { state: state.snapshot(), completion_open: true };
        proof {
            lemma_keyed_push(self.operations@, pending_key(), pending_val(), pending);
        }
        self.awaiting_outgoing.push_back(operation_id);
        self.operations.push(pending);
        proof {
            let v = start_next(old(self)@, server_id, qos, operation_id@).0;
            assert(self@.awaiting =~= v.awaiting);
            assert(self@.operations =~= v.operations);
            assert(self@ =~= v);
        }
        Ok(state)
    }

    fn bind(&mut self, packet_id: u16, id: String)
        ensures
            final(self)@ == (PublishTrackerView { by_packet: old(self)@.by_packet.insert(packet_id, id@), ..old(self)@ }),
            final(self).operations@ == old(self).operations@,
            final(self).awaiting_outgoing@ == old(self).awaiting_outgoing@,
            final(self).completions@ == old(self).completions@,
    {
        self.by_packet_id.insert(packet_id, id);
        proof {
            assert(self@.by_packet =~= old(self)@.by_packet.insert(packet_id, id@));
            assert(self@ =~= (PublishTrackerView { by_packet: old(self)@.by_packet.insert(packet_id, id@), ..old(self)@ }));
        }
    }

    /// The client sent a publish with `packet_id` (0 for QoS 0): the oldest
    /// awaiting operation is bound to it.
    pub fn on_outgoing_publish(&mut self, packet_id: u16) -> (r: Option<PublishStateEvent>)
        requires
            old(self).wf(),
        ensures
            final(self).wf(),
            (final(self)@, opt_state_view(r)) == outgoing_next(old(self)@, packet_id),
            old(self).consistent() && outgoing_carries_id(old(self)@, packet_id) ==> final(self).consistent(),
    {
        proof {
            if queue_consistent(self@) {
                if outgoing_carries_id(self@, packet_id) {
                    lemma_outgoing_keeps_queue(self@, packet_id);
                }
            }
        }
        let id = match self.awaiting_outgoing.pop_front() {
            Some(id) => id,
            None => {
                return None;
            },
        };
        proof {
            assert(self@.awaiting =~= old(self)@.awaiting.drop_first());
            assert(id@ == old(self)@.awaiting[0]);
        }
        let i = match self.find_operation(&id) {
            Some(i) => i,
            None => {
                proof {
                    let v = outgoing_next(old(self)@, packet_id).0;
                    assert(self@ =~= v);
                }
                return None;
            },
        };
        proof {
            self.lemma_filed();
        }
        if self.operations[i].state.status == PublishRuntimeStatus::Failed {
            proof {
                lemma_keyed_remove(self.operations@, pending_key(), pending_val(), i as int);
            }
            self.operations.remove(i);
            proof {
                let v = outgoing_next(old(self)@, packet_id).0;
                assert(self@.operations =~= v.operations);
                assert(self@ =~= v);
            }
            return None;
        }
        let open = self.operations[i].completion_open;
        let mut sent = self.operations[i].state.snapshot();
        sent.status = PublishRuntimeStatus::Sent;
        sent.packet_id = if packet_id != 0 {
            Some(packet_id)
        } else {
            None
        };
        if sent.qos != 0 {
            let updated = PendingPublish { state: sent.snapshot(), completion_open: open };
            proof {
                lemma_keyed_update(self.operations@, pending_key(), pending_val(), i as int, updated);
            }
            self.operations.set(i, updated);
            self.bind(packet_id, id);
            proof {
                let v = outgoing_next(old(self)@, packet_id).0;
                assert(self@.operations =~= v.operations);
                assert(self@.by_packet =~= v.by_packet);
                assert(self@ =~= v);
            }
            return Some(sent);
        }
        proof {
            lemma_keyed_remove(self.operations@, pending_key(), pending_val(), i as int);
        }
        self.operations.remove(i);
        if open {
            let result = PublishOperationResult {
                operation_id: sent.operation_id.clone(),
                status: PublishRuntimeStatus::Sent,
                packet_id: None,
            };
            self.completions.push(PublishCompletion { operation_id: sent.operation_id.clone(), outcome: Ok(result) });
        }
        proof {
            let v = outgoing_next(old(self)@, packet_id).0;
            assert(self@.operations =~= v.operations);
            assert(self@.completions =~= v.completions);
            assert(self@ =~= v);
        }
        Some(sent)
    }

    fn finish_packet_operation(&mut self, packet_id: u16, outcome: PublishAckOutcome) -> (r: Option<PublishStateEvent>)
        requires
            old(self).wf(),
        ensures
            final(self).wf(),
            (final(self)@, opt_state_view(r)) == finish_next(old(self)@, packet_id, outcome@),
    {
        let id = match self.by_packet_id.remove(&packet_id) {
            Some(id) => id,
            None => {
                return None;
            },
        };
        proof {
            assert(self@.by_packet =~= old(self)@.by_packet.remove(packet_id));
        }
        let i = match self.find_operation(&id) {
            Some(i) => i,
            None => {
                proof {
                    let v = finish_next(old(self)@, packet_id, outcome@).0;
                    assert(self@ =~= v);
                }
                return None;
            },
        };
        proof {
            lemma_keyed_remove(self.operations@, pending_key(), pending_val(), i as int);
        }
        let pending = self.operations.remove(i);
        let mut state = pending.state;
        state.packet_id = Some(packet_id);
        match outcome {
            PublishAckOutcome::Success => {
                state.status = PublishRuntimeStatus::Confirmed;
                if pending.completion_open {
                    let result = PublishOperationResult {
                        operation_id: state.operation_id.clone(),
                        status: PublishRuntimeStatus::Confirmed,
                        packet_id: Some(packet_id),
                    };
                    self.completions.push(PublishCompletion { operation_id: state.operation_id.clone(), outcome: Ok(result) });
                }
            },
            PublishAckOutcome::Rejected(error) => {
                state.status = PublishRuntimeStatus::Failed;
                state.error = Some(error.clone());
                if pending.completion_open {
                    self.completions.push(PublishCompletion { operation_id: state.operation_id.clone(), outcome: Err(error) });
                }
            },
        }
        proof {
            let v = finish_next(old(self)@, packet_id, outcome@).0;
            assert(self@.operations =~= v.operations);
            assert(self@.completions =~= v.completions);
            assert(self@ =~= v);
        }
        Some(state)
    }

    /// The QoS of the operation bound to `packet_id`.
    fn bound_qos(&self, packet_id: u16) -> (r: Option<u8>)
        requires
            self.wf(),
        ensures
            r == bound_qos(self@, packet_id),
    {
        match self.binding(packet_id) {
            Some(id) => match self.find_operation(&id) {
                Some(i) => Some(self.operations[i].state.qos),
                None => None,
            },
            None => None,
        }
    }

    /// A PUBACK for `packet_id`: finishes the QoS 1 operation bound to it.
    pub fn on_puback(&mut self, packet_id: u16, outcome: PublishAckOutcome) -> (r: Option<PublishStateEvent>)
        requires
            old(self).wf(),
        ensures
            final(self).wf(),
            (final(self)@, opt_state_view(r)) == puback_next(old(self)@, packet_id, outcome@),
            old(self).consistent() ==> final(self).consistent(),
    {
        proof {
            if queue_consistent(self@) {
                lemma_finish_keeps_queue(self@, packet_id, outcome@);
            }
        }
        if self.bound_qos(packet_id) != Some(1u8) {
            return None;
        }
        self.finish_packet_operation(packet_id, outcome)
    }

    /// A PUBREC for `packet_id`: a QoS 2 operation stays sent, or fails when refused.
    pub fn on_pubrec(&mut self, packet_id: u16, outcome: PublishAckOutcome) -> (r: Option<PublishStateEvent>)
        requires
            old(self).wf(),
        ensures
            final(self).wf(),
            (final(self)@, opt_state_view(r)) == pubrec_next(old(self)@, packet_id, outcome@),
            old(self).consistent() ==> final(self).consistent(),
    {
        proof {
            if queue_consistent(self@) {
                lemma_finish_keeps_queue(self@, packet_id, outcome@);
            }
        }
        if self.bound_qos(packet_id) != Some(2u8) {
            return None;
        }
        match outcome {
            PublishAckOutcome::Success => {
                let id = self.binding(packet_id).unwrap();
                let i = self.find_operation(&id).unwrap();
                Some(self.operations[i].state.snapshot())
            },
            PublishAckOutcome::Rejected(_) => self.finish_packet_operation(packet_id, outcome),
        }
    }

    /// A PUBCOMP for `packet_id`: finishes the QoS 2 operation bound to it.
    pub fn on_pubcomp(&mut self, packet_id: u16, outcome: PublishAckOutcome) -> (r: Option<PublishStateEvent>)
        requires
            old(self).wf(),
        ensures
            final(self).wf(),
            (final(self)@, opt_state_view(r)) == pubcomp_next(old(self)@, packet_id, outcome@),
            old(self).consistent() ==> final(self).consistent(),
    {
        proof {
            if queue_consistent(self@) {
                lemma_finish_keeps_queue(self@, packet_id, outcome@);
            }
        }
        if self.bound_qos(packet_id) != Some(2u8) {
            return None;
        }
        self.finish_packet_operation(packet_id, outcome)
    }
}


impl PublishOperationTracker {
    /// Fails an unfinished operation (on a timeout). One not yet bound to a
    /// packet stays as a failed marker until its outgoing packet is seen.
    pub fn fail_operation(&mut self, operation_id: &str, error: String) -> (r: Option<PublishStateEvent>)
        requires
            old(self).wf(),
        ensures
            final(self).wf(),
            (final(self)@, opt_state_view(r)) == fail_operation_next(old(self)@, operation_id@, error@),
            old(self).consistent() ==> final(self).consistent(),
    {
        proof {
            if queue_consistent(self@) {
                lemma_fail_keeps_queue(self@, operation_id@, error@);
            }
        }
        let id = String::from_str(operation_id);
        let i = match self.find_operation(&id) {
            Some(i) => i,
            None => {
                return None;
            },
        };
        let status = self.operations[i].state.status;
        if status == PublishRuntimeStatus::Confirmed || status == PublishRuntimeStatus::Failed {
            return None;
        }
        let open = self.operations[i].completion_open;
        let mut failed = self.operations[i].state.snapshot();
        failed.status = PublishRuntimeStatus::Failed;
        failed.error = Some(error.clone());
        if open {
            self.completions.push(PublishCompletion { operation_id: id.clone(), outcome: Err(error) });
        }
        match failed.packet_id {
            Some(pid) => {
                proof {
                    lemma_keyed_remove(self.operations@, pending_key(), pending_val(), i as int);
                }
                self.operations.remove(i);
                self.by_packet_id.remove(&pid);
                proof {
                    let v = fail_operation_next(old(self)@, operation_id@, error@).0;
                    assert(self@.operations =~= v.operations);
                    assert(self@.by_packet =~= v.by_packet);
                    assert(self@.completions =~= v.completions);
                    assert(self@ =~= v);
                }
            },
            None => {
                let marker = PendingPublish { state: failed.snapshot(), completion_open: false };
                proof {
                    lemma_keyed_update(self.operations@, pending_key(), pending_val(), i as int, marker);
                }
                self.operations.set(i, marker);
                proof {
                    let v = fail_operation_next(old(self)@, operation_id@, error@).0;
                    assert(self@.operations =~= v.operations);
                    assert(self@.completions =~= v.completions);
                    assert(self@ =~= v);
                }
            },
        }
        Some(failed)
    }

    /// The publish of an operation could not be handed to the client: the
    /// operation is dropped, provided it was never bound to a packet.
    pub fn mark_enqueue_failed(&mut self, operation_id: &str, error: String) -> (r: Option<PublishStateEvent>)
        requires
            old(self).wf(),
        ensures
            final(self).wf(),
            (final(self)@, opt_state_view(r)) == enqueue_failed_next(old(self)@, operation_id@, error@),
            old(self).consistent() ==> final(self).consistent(),
    {
        proof {
            if queue_consistent(self@) {
                lemma_enqueue_failed_keeps_queue(self@, operation_id@, error@);
            }
        }
        let id = String::from_str(operation_id);
        let i = match self.find_operation(&id) {
            Some(i) => i,
            None => {
                return None;
            },
        };
        if self.operations[i].state.packet_id.is_some() {
            return None;
        }
        let ghost awaiting = old(self)@.awaiting;
        let mut kept: VecDeque<String> = VecDeque::new();
        let mut k: usize = 0;
        while k < self.awaiting_outgoing.len()
            invariant
                k <= self.awaiting_outgoing.len(),
                self.awaiting_outgoing@.map_values(|s: String| s@) == awaiting,
                kept@.map_values(|s: String| s@) == awaiting.take(k as int).filter(other_than(id@)),
            decreases self.awaiting_outgoing.len() - k,
        {
            proof {
                lemma_filter_take_step(awaiting, other_than(id@), k as int);
            }
            if !string_equals(&self.awaiting_outgoing[k], &id) {
                kept.push_back(self.awaiting_outgoing[k].clone());
            }
            proof {
                assert(kept@.map_values(|s: String| s@) =~= awaiting.take(k + 1).filter(other_than(id@)));
            }
            k = k + 1;
        }
        proof {
            assert(awaiting.take(k as int) =~= awaiting);
        }
        self.awaiting_outgoing = kept;
        proof {
            lemma_keyed_remove(self.operations@, pending_key(), pending_val(), i as int);
        }
        let pending = self.operations.remove(i);
        let mut state = pending.state;
        state.status = PublishRuntimeStatus::Failed;
        state.error = Some(error.clone());
        if pending.completion_open {
            self.completions.push(PublishCompletion { operation_id: state.operation_id.clone(), outcome: Err(error) });
        }
        proof {
            let v = enqueue_failed_next(old(self)@, operation_id@, error@).0;
            assert(self@.awaiting =~= v.awaiting);
            assert(self@.operations =~= v.operations);
            assert(self@.completions =~= v.completions);
            assert(self@ =~= v);
        }
        Some(state)
    }

    /// The connection closed: every tracked operation fails with `error` and
    /// nothing stays tracked. The failed states come back one per operation.
    pub fn fail_all(&mut self, error: String) -> (r: Vec<PublishStateEvent>)
        requires
            old(self).wf(),
        ensures
            final(self).wf(),
            final(self)@.awaiting.len() == 0,
            final(self)@.operations =~= Map::<Seq<char>, PendingPublishView>::empty(),
            final(self)@.by_packet =~= Map::<u16, Seq<char>>::empty(),
            queue_consistent(final(self)@),
            forall|i: int| #![trigger r@[i]]
                0 <= i < r@.len() ==> old(self)@.operations.contains_key(r@[i]@.operation_id)
                    && r@[i]@ == with_failure(old(self)@.operations[r@[i]@.operation_id].state, error@),
            forall|id: Seq<char>| #[trigger] old(self)@.operations.contains_key(id)
                ==> ids_of(r@).contains(id),
            ids_of(r@).no_duplicates(),
            final(self)@.completions == old(self)@.completions
                + ids_of(r@).filter(owed_in(old(self)@)).map_values(failure_of(error@)),
    {
        let ghost v0 = old(self)@;
        let ghost ops = self.operations@;
        let ghost ids = ops.map_values(|p: PendingPublish| p.state.operation_id@);
        proof {
            self.lemma_filed();
        }
        let mut states: Vec<PublishStateEvent> = Vec::new();
        let n = self.operations.len();
        let mut i: usize = 0;
        while i < n
            invariant
                n == self.operations.len(),
                i <= n,
                self.operations@ == ops,
                unique_keys(ops, pending_key()),
                v0.operations == keyed_map(ops, pending_key(), pending_val()),
                ids == ops.map_values(|p: PendingPublish| p.state.operation_id@),
                states@.len() == i,
                forall|k: int| #![trigger states@[k]]
                    0 <= k < i ==> states@[k]@ == with_failure(ops[k].state@, error@),
                self.completions@.map_values(|c: PublishCompletion| c@)
                    == v0.completions + ids.take(i as int).filter(owed_in(v0)).map_values(failure_of(error@)),
            decreases n - i,
        {
            proof {
                lemma_keyed_index(ops, pending_key(), pending_val(), i as int);
                lemma_filter_take_step(ids, owed_in(v0), i as int);
                assert(ids[i as int] == ops[i as int].state.operation_id@);
                assert(v0.operations[ids[i as int]] == ops[i as int]@);
                assert(owed_in(v0)(ids[i as int]) == ops[i as int].completion_open);
            }
            let open = self.operations[i].completion_open;
            let mut failed = self.operations[i].state.snapshot();
            failed.status = PublishRuntimeStatus::Failed;
            failed.error = Some(error.clone());
            let ghost before = self.completions@;
            if open {
                let c = PublishCompletion { operation_id: failed.operation_id.clone(), outcome: Err(error.clone()) };
                proof {
                    assert(c@ == completion_err(ids[i as int], error@));
                }
                self.completions.push(c);
                proof {
                    assert(self.completions@ == before.push(c));
                    assert(self.completions@.map_values(|c: PublishCompletion| c@)
                        =~= before.map_values(|c: PublishCompletion| c@).push(completion_err(ids[i as int], error@)));
                }
            }
            states.push(failed);
            proof {
                let prev = ids.take(i as int).filter(owed_in(v0));
                if open {
                    assert(ids.take(i + 1).filter(owed_in(v0)) == prev.push(ids[i as int]));
                    assert(prev.push(ids[i as int]).map_values(failure_of(error@))
                        =~= prev.map_values(failure_of(error@)).push(completion_err(ids[i as int], error@)));
                } else {
                    assert(ids.take(i + 1).filter(owed_in(v0)) == prev);
                }
                assert(self.completions@.map_values(|c: PublishCompletion| c@)
                    =~= v0.completions + ids.take(i + 1).filter(owed_in(v0)).map_values(failure_of(error@)));
            }
            i = i + 1;
        }
        self.awaiting_outgoing = VecDeque::new();
        self.by_packet_id = HashMap::new();
        self.operations = Vec::new();
        proof {
            lemma_keyed_empty(pending_key(), pending_val());
            assert(self@.by_packet =~= Map::<u16, Seq<char>>::empty());
            assert(ids.take(n as int) =~= ids);
            assert(ids_of(states@) =~= ids);
            assert forall|k: int| #![trigger states@[k]]
                0 <= k < states@.len() implies v0.operations.contains_key(states@[k]@.operation_id)
                    && states@[k]@ == with_failure(v0.operations[states@[k]@.operation_id].state, error@) by {
                lemma_keyed_index(ops, pending_key(), pending_val(), k);
            }
            assert forall|id: Seq<char>| #[trigger] v0.operations.contains_key(id) implies ids_of(states@).contains(id) by {
                let k = index_of_key(ops, pending_key(), id);
                assert(ids[k] == id);
            }
            assert forall|a: int, b: int| 0 <= a < ids.len() && 0 <= b < ids.len() && a != b implies ids[a] != ids[b] by {
                assert(ops[a].state.operation_id@ == ids[a]);
                assert(ops[b].state.operation_id@ == ids[b]);
                assert(pending_key()(ops[a]) != pending_key()(ops[b]));
            }
        }
        states
    }

    /// Takes the completions produced so far, oldest first.
    pub fn take_completions(&mut self) -> (r: Vec<PublishCompletion>)
        requires
            old(self).wf(),
        ensures
            final(self).wf(),
            r@.map_values(|c: PublishCompletion| c@) == old(self)@.completions,
            final(self)@ == (PublishTrackerView { completions: Seq::empty(), ..old(self)@ }),
            old(self).consistent() ==> final(self).consistent(),
    {
        let mut taken: Vec<PublishCompletion> = Vec::new();
        std::mem::swap(&mut taken, &mut self.completions);
        proof {
            assert(self@ =~= (PublishTrackerView { completions: Seq::empty(), ..old(self)@ }));
        }
        taken
    }
}

impl Default for PublishOperationTracker {
    fn default() -> (t: PublishOperationTracker)
        ensures
            t.wf(),
            t@.awaiting.len() == 0,
            t@.operations =~= Map::<Seq<char>, PendingPublishView>::empty(),
            t@.by_packet =~= Map::<u16, Seq<char>>::empty(),
            t@.completions.len() == 0,
            queue_consistent(t@),
    {
        PublishOperationTracker::new()
    }
}


// ---------------------------------------------------------------------------
// Laws of the publish lifecycle.
// ---------------------------------------------------------------------------

/// Whether the caller of `id` still awaits a completion in `v`.
pub open spec fn owed(v: PublishTrackerView, id: Seq<char>) -> bool {
    v.operations.contains_key(id) && v.operations[id].completion_open
}

/// The step from `v` to `w` keeps the queued completions and appends only
/// completions owed in `v`, each for an operation no longer owed in `w`.
pub open spec fn settles_only_owed(v: PublishTrackerView, w: PublishTrackerView) -> bool {
    &&& v.completions.len() <= w.completions.len()
    &&& w.completions.subrange(0, v.completions.len() as int) == v.completions
    &&& forall|k: int|
        #![trigger w.completions[k]]
        v.completions.len() <= k < w.completions.len() ==> owed(v, w.completions[k].operation_id)
            && !owed(w, w.completions[k].operation_id)
}

/// An acknowledgement changes nothing unless it is of the phase that ends the
/// operation bound to its packet ID: PUBACK for QoS 1, PUBREC and PUBCOMP for
/// QoS 2. In particular an acknowledgement for an unknown packet ID is ignored.
pub proof fn law_ack_of_other_phase_is_ignored(v: PublishTrackerView, packet_id: u16, outcome: AckOutcomeView)
    ensures
        bound_qos(v, packet_id) != Some(1u8) ==> puback_next(v, packet_id, outcome) == (v, None::<PublishStateView>),
        bound_qos(v, packet_id) != Some(2u8) ==> pubrec_next(v, packet_id, outcome) == (v, None::<PublishStateView>),
        bound_qos(v, packet_id) != Some(2u8) ==> pubcomp_next(v, packet_id, outcome) == (v, None::<PublishStateView>),
        !v.by_packet.contains_key(packet_id) ==> bound_qos(v, packet_id) == None::<u8>,
{
}

/// Whether `packet_id` is bound to a sent operation of QoS `qos`.
pub open spec fn sent_under(v: PublishTrackerView, packet_id: u16, qos: u8) -> bool {
    &&& v.by_packet.contains_key(packet_id)
    &&& v.operations.contains_key(v.by_packet[packet_id])
    &&& v.operations[v.by_packet[packet_id]].state.qos == qos
    &&& v.operations[v.by_packet[packet_id]].state.status == PublishRuntimeStatus::Sent
}

/// An acknowledgement that matches no sent publish of its QoS changes
/// nothing and completes no publish: a PUBACK whose packet ID is unknown,
/// already completed or failed, or bound to a QoS 2 publish; a PUBREC or
/// PUBCOMP whose packet ID is not bound to a sent QoS 2 publish.
pub proof fn law_unmatched_ack_changes_nothing(v: PublishTrackerView, packet_id: u16, outcome: AckOutcomeView)
    requires
        queue_consistent(v),
    ensures
        !sent_under(v, packet_id, 1) ==> puback_next(v, packet_id, outcome) == (v, None::<PublishStateView>),
        !sent_under(v, packet_id, 2) ==> pubrec_next(v, packet_id, outcome) == (v, None::<PublishStateView>),
        !sent_under(v, packet_id, 2) ==> pubcomp_next(v, packet_id, outcome) == (v, None::<PublishStateView>),
{
}

/// How a finishing acknowledgement ends the operation bound to `packet_id`:
/// the operation and the binding go, the rest of the tracker stays, the
/// state returned is the operation's own with that packet ID and the
/// broker's verdict (confirmed, or failed with the broker's reason), and the
/// caller, when still owed one, gets exactly that verdict as its completion.
pub open spec fn ends_with(
    v: PublishTrackerView,
    packet_id: u16,
    step: (PublishTrackerView, Option<PublishStateView>),
    accepted: bool,
    reason: Seq<char>,
) -> bool {
    let id = v.by_packet[packet_id];
    let o = v.operations[id];
    let (w, r) = step;
    let verdict = if accepted {
        PublishCompletionView {
            operation_id: o.state.operation_id,
            outcome: Ok(PublishResultView {
                operation_id: o.state.operation_id,
                status: PublishRuntimeStatus::Confirmed,
                packet_id: Some(packet_id),
            }),
        }
    } else {
        PublishCompletionView { operation_id: o.state.operation_id, outcome: Err(reason) }
    };
    &&& r matches Some(s) && {
        &&& s.operation_id == o.state.operation_id
        &&& s.server_id == o.state.server_id
        &&& s.qos == o.state.qos
        &&& s.packet_id == Some(packet_id)
        &&& accepted ==> s.status == PublishRuntimeStatus::Confirmed && s.error == o.state.error
        &&& !accepted ==> s.status == PublishRuntimeStatus::Failed && s.error == Some(reason)
    }
    &&& w.awaiting == v.awaiting
    &&& w.operations == v.operations.remove(id)
    &&& w.by_packet == v.by_packet.remove(packet_id)
    &&& o.completion_open ==> w.completions == v.completions.push(verdict)
    &&& !o.completion_open ==> w.completions == v.completions
}

/// The broker's verdict on a bound publish decides it, at the phase that
/// ends it: for a QoS 1 publish a PUBACK confirms it or, refused, fails it
/// with the broker's reason; for a QoS 2 publish a refusing PUBREC fails it,
/// and a PUBCOMP confirms it or fails it with the reason. Either way the
/// operation and its binding are gone and its caller gets that verdict.
pub proof fn law_broker_verdict_decides_the_publish(v: PublishTrackerView, packet_id: u16, reason: Seq<char>)
    ensures
        bound_qos(v, packet_id) == Some(1u8) ==> ends_with(v, packet_id, puback_next(v, packet_id, AckOutcomeView::Success), true, reason),
        bound_qos(v, packet_id) == Some(1u8) ==> ends_with(
            v,
            packet_id,
            puback_next(v, packet_id, AckOutcomeView::Rejected(reason)),
            false,
            reason,
        ),
        bound_qos(v, packet_id) == Some(2u8) ==> ends_with(
            v,
            packet_id,
            pubrec_next(v, packet_id, AckOutcomeView::Rejected(reason)),
            false,
            reason,
        ),
        bound_qos(v, packet_id) == Some(2u8) ==> ends_with(v, packet_id, pubcomp_next(v, packet_id, AckOutcomeView::Success), true, reason),
        bound_qos(v, packet_id) == Some(2u8) ==> ends_with(
            v,
            packet_id,
            pubcomp_next(v, packet_id, AckOutcomeView::Rejected(reason)),
            false,
            reason,
        ),
{
}

/// Starting a publish refuses a QoS above 2, a blank operation ID and an ID
/// already tracked, in that order, changing nothing; otherwise the new
/// operation is pending, queued last for the next outgoing packet, and its
/// caller is owed a completion; nothing else changes.
pub proof fn law_start_registers_or_refuses(v: PublishTrackerView, server_id: i64, qos: u8, id: Seq<char>)
    ensures
        qos > 2 ==> start_next(v, server_id, qos, id) == (v, Err::<PublishStateView, Seq<char>>("Invalid QoS"@)),
        qos <= 2 && trimmed(id).len() == 0 ==> start_next(v, server_id, qos, id) == (v, Err::<
            PublishStateView,
            Seq<char>,
        >("Publish operation ID is required"@)),
        qos <= 2 && trimmed(id).len() > 0 && v.operations.contains_key(id) ==> start_next(v, server_id, qos, id) == (v, Err::<
            PublishStateView,
            Seq<char>,
        >("Publish operation ID already exists"@)),
        qos <= 2 && trimmed(id).len() > 0 && !v.operations.contains_key(id) ==> ({
            let (w, r) = start_next(v, server_id, qos, id);
            let s = PublishStateView {
                operation_id: id,
                server_id,
                qos,
                status: PublishRuntimeStatus::Pending,
                packet_id: None,
                error: None,
            };
            &&& r == Ok::<PublishStateView, Seq<char>>(s)
            &&& w.awaiting == v.awaiting.push(id)
            &&& w.operations == v.operations.insert(id, PendingPublishView { state: s, completion_open: true })
            &&& w.by_packet == v.by_packet
            &&& w.completions == v.completions
        }),
{
}

/// A timeout fails an unfinished publish: the state returned is its own,
/// failed with the error, and its caller, when still owed one, gets that
/// error. A publish already sent under a packet ID leaves with its binding;
/// one not yet sent stays, failed and owed nothing, so that its outgoing
/// packet is still matched to it. A finished or unknown publish is left
/// alone.
pub proof fn law_timeout_fails_the_publish(v: PublishTrackerView, id: Seq<char>, error: Seq<char>)
    ensures
        ({
            let (w, r) = fail_operation_next(v, id, error);
            let o = v.operations[id];
            let failed = PublishStateView { status: PublishRuntimeStatus::Failed, error: Some(error), ..o.state };
            let owed = if o.completion_open {
                v.completions.push(PublishCompletionView { operation_id: id, outcome: Err(error) })
            } else {
                v.completions
            };
            &&& (!v.operations.contains_key(id) || o.state.status == PublishRuntimeStatus::Confirmed
                || o.state.status == PublishRuntimeStatus::Failed) ==> w == v && r is None
            &&& (v.operations.contains_key(id) && (o.state.status == PublishRuntimeStatus::Pending
                || o.state.status == PublishRuntimeStatus::Sent)) ==> {
                &&& r == Some(failed)
                &&& w.completions == owed
                &&& w.awaiting == v.awaiting
                &&& o.state.packet_id matches Some(pid) ==> w.operations == v.operations.remove(id)
                    && w.by_packet == v.by_packet.remove(pid)
                &&& o.state.packet_id is None ==> w.operations == v.operations.insert(
                    id,
                    PendingPublishView { state: failed, completion_open: false },
                ) && w.by_packet == v.by_packet
            }
        }),
{
}

/// A publish that could not be handed to the client leaves the tracker and
/// the queue, failed with the error, and its caller, when still owed one,
/// gets that error; a publish already bound to a packet, or unknown, is left
/// alone.
pub proof fn law_enqueue_failure_drops_the_publish(v: PublishTrackerView, id: Seq<char>, error: Seq<char>)
    ensures
        ({
            let (w, r) = enqueue_failed_next(v, id, error);
            let o = v.operations[id];
            &&& (!v.operations.contains_key(id) || o.state.packet_id is Some) ==> w == v && r is None
            &&& (v.operations.contains_key(id) && o.state.packet_id is None) ==> {
                &&& r == Some(PublishStateView { status: PublishRuntimeStatus::Failed, error: Some(error), ..o.state })
                &&& !w.operations.contains_key(id)
                &&& w.operations == v.operations.remove(id)
                &&& !w.awaiting.contains(id)
                &&& forall|q: Seq<char>| q != id ==> (w.awaiting.contains(q) == v.awaiting.contains(q))
                &&& w.by_packet == v.by_packet
                &&& o.completion_open ==> w.completions == v.completions.push(
                    PublishCompletionView { operation_id: o.state.operation_id, outcome: Err(error) },
                )
                &&& !o.completion_open ==> w.completions == v.completions
            }
        }),
{
    let f = v.awaiting.filter(other_than(id));
    if v.operations.contains_key(id) && v.operations[id].state.packet_id is None {
        if f.contains(id) {
            let k = choose|k: int| 0 <= k < f.len() && f[k] == id;
            v.awaiting.lemma_filter_pred(other_than(id), k);
        }
        assert forall|q: Seq<char>| q != id implies (f.contains(q) == v.awaiting.contains(q)) by {
            if f.contains(q) {
                v.awaiting.lemma_filter_contains_rev(other_than(id), q);
            }
            if v.awaiting.contains(q) {
                let k = choose|k: int| 0 <= k < v.awaiting.len() && v.awaiting[k] == q;
                v.awaiting.lemma_filter_contains(other_than(id), k);
            }
        }
    }
}

/// A successful PUBREC does not confirm a QoS 2 publish: the tracker is left
/// as it was and no completion is produced.
pub proof fn law_pubrec_success_does_not_confirm(v: PublishTrackerView, packet_id: u16)
    ensures
        pubrec_next(v, packet_id, AckOutcomeView::Success).0 == v,
        bound_qos(v, packet_id) == Some(2u8) ==> pubrec_next(v, packet_id, AckOutcomeView::Success).1
            == Some(v.operations[v.by_packet[packet_id]].state),
{
}

/// An operation is finished only by an acknowledgement of its own packet:
/// the finished state is that of the operation bound to `packet_id`, carries
/// that packet ID, and is confirmed exactly when the broker accepted.
pub proof fn law_finished_only_by_own_packet(v: PublishTrackerView, packet_id: u16, outcome: AckOutcomeView)
    requires
        filed_by_id(v),
    ensures
        finish_next(v, packet_id, outcome).1 matches Some(s) ==> {
            &&& v.by_packet.contains_key(packet_id)
            &&& s.operation_id == v.by_packet[packet_id]
            &&& s.packet_id == Some(packet_id)
            &&& (s.status == PublishRuntimeStatus::Confirmed) == (outcome is Success)
            &&& !finish_next(v, packet_id, outcome).0.operations.contains_key(s.operation_id)
        },
{
}

/// Outgoing packets are bound in start order. With no operation awaiting,
/// the packet changes nothing. Otherwise it goes to the oldest awaiting
/// operation, which leaves the queue: a failed one is dropped and nothing is
/// sent; any other becomes sent, under the packet ID when it is nonzero, and
/// is then bound to that packet ID (QoS 1 or 2) or completed as sent (QoS 0).
pub proof fn law_outgoing_binds_in_start_order(v: PublishTrackerView, packet_id: u16)
    requires
        filed_by_id(v),
        queue_consistent(v),
    ensures
        v.awaiting.len() == 0 ==> outgoing_next(v, packet_id) == (v, None::<PublishStateView>),
        v.awaiting.len() > 0 ==> ({
            let id = v.awaiting[0];
            let p = v.operations[id];
            let (w, r) = outgoing_next(v, packet_id);
            &&& v.operations.contains_key(id)
            &&& w.awaiting == v.awaiting.drop_first()
            &&& p.state.status == PublishRuntimeStatus::Failed ==> r is None && w == (PublishTrackerView {
                awaiting: v.awaiting.drop_first(),
                operations: v.operations.remove(id),
                ..v
            })
            &&& p.state.status != PublishRuntimeStatus::Failed ==> (r matches Some(s) && {
                &&& s.operation_id == id
                &&& s.status == PublishRuntimeStatus::Sent
                &&& s.packet_id == (if packet_id != 0 { Some(packet_id) } else { None })
                &&& s.qos == p.state.qos
                &&& s.qos != 0 ==> w == (PublishTrackerView {
                    awaiting: v.awaiting.drop_first(),
                    operations: v.operations.insert(id, PendingPublishView { state: s, ..p }),
                    by_packet: v.by_packet.insert(packet_id, id),
                    completions: v.completions,
                })
                &&& s.qos == 0 ==> w == (PublishTrackerView {
                    awaiting: v.awaiting.drop_first(),
                    operations: v.operations.remove(id),
                    by_packet: v.by_packet,
                    completions: owe(v.completions, p.completion_open, completion_ok(id, PublishRuntimeStatus::Sent, None)),
                })
            })
        }),
{
    if v.awaiting.len() > 0 {
        assert(v.operations.contains_key(v.awaiting[0]));
    }
}

/// Filtering keeps a sequence free of duplicates.
proof fn lemma_filter_no_duplicates(s: Seq<Seq<char>>, pred: spec_fn(Seq<char>) -> bool)
    requires
        s.no_duplicates(),
    ensures
        s.filter(pred).no_duplicates(),
    decreases s.len(),
{
    reveal(Seq::filter);
    if s.len() > 0 {
        let t = s.drop_last();
        lemma_filter_no_duplicates(t, pred);
        if pred(s.last()) {
            if t.filter(pred).contains(s.last()) {
                t.lemma_filter_contains_rev(pred, s.last());
                let j = choose|j: int| 0 <= j < t.len() && t[j] == s.last();
                assert(s[j] == s[s.len() - 1]);
            }
        }
    }
}

/// Every step keeps the start queue and the packet bindings consistent with
/// the tracked operations, so each awaiting operation is tracked until an
/// outgoing packet or a failure to enqueue takes it off the queue. An
/// outgoing packet keeps this only where it carries an ID for a QoS 1 or 2
/// publish: one bound under packet ID 0 is not marked as bound.
pub proof fn law_queue_consistency_is_kept(
    v: PublishTrackerView,
    server_id: i64,
    qos: u8,
    id: Seq<char>,
    error: Seq<char>,
    packet_id: u16,
    outcome: AckOutcomeView,
)
    requires
        queue_consistent(v),
    ensures
        queue_consistent(start_next(v, server_id, qos, id).0),
        outgoing_carries_id(v, packet_id) ==> queue_consistent(outgoing_next(v, packet_id).0),
        queue_consistent(puback_next(v, packet_id, outcome).0),
        queue_consistent(pubrec_next(v, packet_id, outcome).0),
        queue_consistent(pubcomp_next(v, packet_id, outcome).0),
        queue_consistent(fail_operation_next(v, id, error).0),
        queue_consistent(enqueue_failed_next(v, id, error).0),
        queue_consistent(PublishTrackerView { completions: Seq::empty(), ..v }),
{
    lemma_start_keeps_queue(v, server_id, qos, id);
    if outgoing_carries_id(v, packet_id) {
        lemma_outgoing_keeps_queue(v, packet_id);
    }
    lemma_finish_keeps_queue(v, packet_id, outcome);
    lemma_fail_keeps_queue(v, id, error);
    lemma_enqueue_failed_keeps_queue(v, id, error);
}

proof fn lemma_start_keeps_queue(v: PublishTrackerView, server_id: i64, qos: u8, id: Seq<char>)
    requires
        queue_consistent(v),
    ensures
        queue_consistent(start_next(v, server_id, qos, id).0),
{
    let w = start_next(v, server_id, qos, id).0;
    if w != v {
        assert forall|k: int| 0 <= k < v.awaiting.len() implies v.awaiting[k] != id by {
            assert(v.operations.contains_key(v.awaiting[k]));
        }
        assert forall|k: int| #![trigger w.awaiting[k]] 0 <= k < w.awaiting.len() implies w.operations.contains_key(w.awaiting[k])
            && w.operations[w.awaiting[k]].state.packet_id is None by {
            if k < v.awaiting.len() {
                assert(w.awaiting[k] == v.awaiting[k]);
            }
        }
        assert forall|p: u16| #[trigger] w.by_packet.contains_key(p) implies w.operations.contains_key(w.by_packet[p])
            && w.operations[w.by_packet[p]].state.packet_id == Some(p) by {
            assert(v.operations.contains_key(v.by_packet[p]));
        }
    }
}

proof fn lemma_outgoing_keeps_queue(v: PublishTrackerView, packet_id: u16)
    requires
        queue_consistent(v),
        outgoing_carries_id(v, packet_id),
    ensures
        queue_consistent(outgoing_next(v, packet_id).0),
{
    let w = outgoing_next(v, packet_id).0;
    if v.awaiting.len() > 0 {
        let id = v.awaiting[0];
        assert(v.operations.contains_key(id));
        assert forall|k: int| #![trigger w.awaiting[k]] 0 <= k < w.awaiting.len() implies w.operations.contains_key(w.awaiting[k])
            && w.operations[w.awaiting[k]].state.packet_id is None by {
            assert(w.awaiting[k] == v.awaiting[k + 1]);
            assert(v.awaiting[k + 1] != v.awaiting[0]);
            assert(v.operations.contains_key(v.awaiting[k + 1]));
        }
        assert forall|p: u16| #[trigger] w.by_packet.contains_key(p) implies w.operations.contains_key(w.by_packet[p])
            && w.operations[w.by_packet[p]].state.packet_id == Some(p) by {
            if p != packet_id || v.operations[id].state.qos == 0 || v.operations[id].state.status == PublishRuntimeStatus::Failed {
                assert(v.by_packet.contains_key(p));
                assert(v.operations.contains_key(v.by_packet[p]));
                assert(v.by_packet[p] != id);
            }
        }
    }
}

proof fn lemma_finish_keeps_queue(v: PublishTrackerView, packet_id: u16, outcome: AckOutcomeView)
    requires
        queue_consistent(v),
    ensures
        queue_consistent(finish_next(v, packet_id, outcome).0),
        queue_consistent(puback_next(v, packet_id, outcome).0),
        queue_consistent(pubrec_next(v, packet_id, outcome).0),
        queue_consistent(pubcomp_next(v, packet_id, outcome).0),
{
    let w = finish_next(v, packet_id, outcome).0;
    if v.by_packet.contains_key(packet_id) {
        let id = v.by_packet[packet_id];
        assert(v.operations.contains_key(id));
        assert forall|k: int| #![trigger w.awaiting[k]] 0 <= k < w.awaiting.len() implies w.operations.contains_key(w.awaiting[k])
            && w.operations[w.awaiting[k]].state.packet_id is None by {
            assert(v.operations.contains_key(v.awaiting[k]));
            assert(v.awaiting[k] != id);
        }
        assert forall|p: u16| #[trigger] w.by_packet.contains_key(p) implies w.operations.contains_key(w.by_packet[p])
            && w.operations[w.by_packet[p]].state.packet_id == Some(p) by {
            assert(v.by_packet.contains_key(p));
            assert(v.operations.contains_key(v.by_packet[p]));
            assert(v.by_packet[p] != id);
        }
    }
}

proof fn lemma_fail_keeps_queue(v: PublishTrackerView, id: Seq<char>, error: Seq<char>)
    requires
        queue_consistent(v),
    ensures
        queue_consistent(fail_operation_next(v, id, error).0),
{
    let w = fail_operation_next(v, id, error).0;
    if v.operations.contains_key(id) {
        assert forall|k: int| #![trigger w.awaiting[k]] 0 <= k < w.awaiting.len() implies w.operations.contains_key(w.awaiting[k])
            && w.operations[w.awaiting[k]].state.packet_id is None by {
            assert(v.operations.contains_key(v.awaiting[k]));
        }
        assert forall|p: u16| #[trigger] w.by_packet.contains_key(p) implies w.operations.contains_key(w.by_packet[p])
            && w.operations[w.by_packet[p]].state.packet_id == Some(p) by {
            assert(v.by_packet.contains_key(p));
            assert(v.operations.contains_key(v.by_packet[p]));
        }
    }
}

proof fn lemma_enqueue_failed_keeps_queue(v: PublishTrackerView, id: Seq<char>, error: Seq<char>)
    requires
        queue_consistent(v),
    ensures
        queue_consistent(enqueue_failed_next(v, id, error).0),
{
    let w = enqueue_failed_next(v, id, error).0;
    if v.operations.contains_key(id) && v.operations[id].state.packet_id is None {
        let f = v.awaiting.filter(other_than(id));
        lemma_filter_no_duplicates(v.awaiting, other_than(id));
        assert forall|k: int| #![trigger w.awaiting[k]] 0 <= k < w.awaiting.len() implies w.operations.contains_key(w.awaiting[k])
            && w.operations[w.awaiting[k]].state.packet_id is None by {
            v.awaiting.lemma_filter_pred(other_than(id), k);
            assert(f.contains(f[k]));
            v.awaiting.lemma_filter_contains_rev(other_than(id), f[k]);
            let j = choose|j: int| 0 <= j < v.awaiting.len() && v.awaiting[j] == f[k];
            assert(v.operations.contains_key(v.awaiting[j]));
        }
        assert forall|p: u16| #[trigger] w.by_packet.contains_key(p) implies w.operations.contains_key(w.by_packet[p])
            && w.operations[w.by_packet[p]].state.packet_id == Some(p) by {
            assert(v.operations.contains_key(v.by_packet[p]));
            assert(v.by_packet[p] != id);
        }
    }
}

/// Failing a publish before it left keeps the start order aligned: the queue
/// is unchanged, and the next outgoing packet is absorbed by the failed
/// operation instead of being bound to a later one.
pub proof fn law_timeout_before_outgoing_keeps_alignment(
    v: PublishTrackerView,
    id: Seq<char>,
    error: Seq<char>,
    packet_id: u16,
)
    requires
        filed_by_id(v),
        v.operations.contains_key(id),
        v.operations[id].state.status == PublishRuntimeStatus::Pending,
        v.operations[id].state.packet_id is None,
        v.awaiting.len() > 0,
        v.awaiting[0] == id,
    ensures
        ({
            let w = fail_operation_next(v, id, error).0;
            &&& w.awaiting == v.awaiting
            &&& outgoing_next(w, packet_id) == (PublishTrackerView {
                awaiting: w.awaiting.drop_first(),
                operations: w.operations.remove(id),
                ..w
            }, None::<PublishStateView>)
        }),
{
}

/// Each completion is produced once: every step appends completions only for
/// operations whose callers were still owed one, and leaves those operations
/// no longer owed; starting an operation produces none.
pub proof fn law_completion_at_most_once(
    v: PublishTrackerView,
    server_id: i64,
    qos: u8,
    id: Seq<char>,
    error: Seq<char>,
    packet_id: u16,
    outcome: AckOutcomeView,
)
    requires
        filed_by_id(v),
        completion_owed_while_unfinished(v),
        confirmed_are_released(v),
    ensures
        settles_only_owed(v, start_next(v, server_id, qos, id).0),
        settles_only_owed(v, outgoing_next(v, packet_id).0),
        settles_only_owed(v, puback_next(v, packet_id, outcome).0),
        settles_only_owed(v, pubrec_next(v, packet_id, outcome).0),
        settles_only_owed(v, pubcomp_next(v, packet_id, outcome).0),
        settles_only_owed(v, fail_operation_next(v, id, error).0),
        settles_only_owed(v, enqueue_failed_next(v, id, error).0),
{
    assert(v.completions.subrange(0, v.completions.len() as int) =~= v.completions);
    let w = outgoing_next(v, packet_id).0;
    assert(w.completions.subrange(0, v.completions.len() as int) =~= v.completions);
    let w = finish_next(v, packet_id, outcome).0;
    assert(w.completions.subrange(0, v.completions.len() as int) =~= v.completions);
    let w = fail_operation_next(v, id, error).0;
    assert(w.completions.subrange(0, v.completions.len() as int) =~= v.completions);
    let w = enqueue_failed_next(v, id, error).0;
    assert(w.completions.subrange(0, v.completions.len() as int) =~= v.completions);
}

impl PublishOperationTracker {
    /// The answer to a caller who waited for an operation; past the deadline
    /// the operation fails.
    pub fn settle_wait(&mut self, operation_id: &str, outcome: WaitOutcome<Result<PublishOperationResult, String>>) -> (r: (
        Result<PublishOperationResult, String>,
        Option<PublishStateEvent>,
    ))
        requires
            old(self).wf(),
        ensures
            final(self).wf(),
            outcome matches WaitOutcome::Completed(x) ==> r.0 == x && r.1 is None && final(self)@ == old(self)@,
            outcome is Interrupted ==> r.0 is Err && r.0->Err_0@ == "Publish operation was interrupted"@ && r.1 is None
                && final(self)@ == old(self)@,
            outcome is TimedOut ==> r.0 is Err && r.0->Err_0@ == "Publish acknowledgement timed out"@ && (
            final(self)@,
            opt_state_view(r.1),
            ) == fail_operation_next(old(self)@, operation_id@, "Publish acknowledgement timed out"@),
            old(self).consistent() ==> final(self).consistent(),
    {
        match outcome {
            WaitOutcome::Completed(x) => (x, None),
            WaitOutcome::Interrupted => (Err(String::from_str("Publish operation was interrupted")), None),
            WaitOutcome::TimedOut => {
                let error = String::from_str("Publish acknowledgement timed out");
                let state = self.fail_operation(operation_id, error.clone());
                (Err(error), state)
            },
        }
    }
}

} // verus!
