//! Lifecycle of subscribe and unsubscribe requests. One operation is
//! outstanding at a time; it is bound to the packet ID of the request the
//! client sends and completes only on the broker's acknowledgement of that
//! packet, or fails. Completions owed to waiting callers are queued and taken
//! with `take_completions`.
use vstd::prelude::*;
use crate::stamps::fresh_uuid;
use crate::text::{opt_view, clone_opt_string};

verus! {

#[derive(Debug, Clone, Copy, PartialEq, Eq, Structural)]
pub enum SubscriptionOperation {
    Subscribe,
    Unsubscribe,
}

impl SubscriptionOperation {
    /// The wire name of the operation.
    pub open spec fn name(self) -> Seq<char> {
        match self {
            SubscriptionOperation::Subscribe => "subscribe"@,
            SubscriptionOperation::Unsubscribe => "unsubscribe"@,
        }
    }

    pub fn as_str(self) -> (s: &'static str)
        ensures
            s@ == self.name(),
    {
        match self {
            SubscriptionOperation::Subscribe => "subscribe",
            SubscriptionOperation::Unsubscribe => "unsubscribe",
        }
    }
}

#[derive(Debug, Clone, Copy, PartialEq, Eq, Structural)]
pub enum SubscriptionRequest {
    Subscribe { requested_qos: u8 },
    Unsubscribe,
}

impl SubscriptionRequest {
    pub open spec fn spec_operation(self) -> SubscriptionOperation {
        match self {
            SubscriptionRequest::Subscribe { .. } => SubscriptionOperation::Subscribe,
            SubscriptionRequest::Unsubscribe => SubscriptionOperation::Unsubscribe,
        }
    }

    pub open spec fn spec_requested_qos(self) -> Option<u8> {
        match self {
            SubscriptionRequest::Subscribe { requested_qos } => Some(requested_qos),
            SubscriptionRequest::Unsubscribe => None,
        }
    }

    pub fn operation(self) -> (r: SubscriptionOperation)
        ensures
            r == self.spec_operation(),
    {
        match self {
            SubscriptionRequest::Subscribe { .. } => SubscriptionOperation::Subscribe,
            SubscriptionRequest::Unsubscribe => SubscriptionOperation::Unsubscribe,
        }
    }

    pub fn requested_qos(self) -> (r: Option<u8>)
        ensures
            r == self.spec_requested_qos(),
    {
        match self {
            SubscriptionRequest::Subscribe { requested_qos } => Some(requested_qos),
            SubscriptionRequest::Unsubscribe => None,
        }
    }
}

#[derive(Debug, Clone, Copy, PartialEq, Eq, Structural)]
pub enum SubscriptionRuntimeStatus {
    Disabled,
    Pending,
    Active,
    Failed,
}

impl SubscriptionRuntimeStatus {
    /// The wire name of the status.
    pub open spec fn name(self) -> Seq<char> {
        match self {
            SubscriptionRuntimeStatus::Disabled => "disabled"@,
            SubscriptionRuntimeStatus::Pending => "pending"@,
            SubscriptionRuntimeStatus::Active => "active"@,
            SubscriptionRuntimeStatus::Failed => "failed"@,
        }
    }

    pub fn as_str(self) -> (s: &'static str)
        ensures
            s@ == self.name(),
    {
        match self {
            SubscriptionRuntimeStatus::Disabled => "disabled",
            SubscriptionRuntimeStatus::Pending => "pending",
            SubscriptionRuntimeStatus::Active => "active",
            SubscriptionRuntimeStatus::Failed => "failed",
        }
    }
}

#[derive(Debug, Clone, PartialEq, Eq)]
pub struct SubscriptionStateEvent {
    pub server_id: i64,
    pub topic: String,
    pub operation: SubscriptionOperation,
    pub status: SubscriptionRuntimeStatus,
    pub requested_qos: Option<u8>,
    pub granted_qos: Option<u8>,
    pub error: Option<String>,
    pub operation_id: String,
}

pub struct SubscriptionStateView {
    pub server_id: i64,
    pub topic: Seq<char>,
    pub operation: SubscriptionOperation,
    pub status: SubscriptionRuntimeStatus,
    pub requested_qos: Option<u8>,
    pub granted_qos: Option<u8>,
    pub error: Option<Seq<char>>,
    pub operation_id: Seq<char>,
}

impl View for SubscriptionStateEvent {
    type V = SubscriptionStateView;

    open spec fn view(&self) -> SubscriptionStateView {
        SubscriptionStateView {
            server_id: self.server_id,
            topic: self.topic@,
            operation: self.operation,
            status: self.status,
            requested_qos: self.requested_qos,
            granted_qos: self.granted_qos,
            error: opt_view(self.error),
            operation_id: self.operation_id@,
        }
    }
}

#[derive(Debug, Clone, PartialEq, Eq)]
pub struct SubscriptionOperationResult {
    pub operation_id: String,
    pub granted_qos: Option<u8>,
}

pub struct SubscriptionResultView {
    pub operation_id: Seq<char>,
    pub granted_qos: Option<u8>,
}

impl View for SubscriptionOperationResult {
    type V = SubscriptionResultView;

    open spec fn view(&self) -> SubscriptionResultView {
        SubscriptionResultView { operation_id: self.operation_id@, granted_qos: self.granted_qos }
    }
}

/// The outcome owed to the caller that started an operation.
#[derive(Debug, PartialEq, Eq)]
pub struct SubscriptionCompletion {
    pub operation_id: String,
    pub outcome: Result<SubscriptionOperationResult, String>,
}

pub struct SubscriptionCompletionView {
    pub operation_id: Seq<char>,
    pub outcome: Result<SubscriptionResultView, Seq<char>>,
}

impl View for SubscriptionCompletion {
    type V = SubscriptionCompletionView;

    open spec fn view(&self) -> SubscriptionCompletionView {
        SubscriptionCompletionView {
            operation_id: self.operation_id@,
            outcome: match self.outcome {
                Ok(r) => Ok(r@),
                Err(e) => Err(e@),
            },
        }
    }
}

/// The outstanding operation.
pub struct PendingSubscriptionView {
    pub operation_id: Seq<char>,
    pub server_id: i64,
    pub topic: Seq<char>,
    pub operation: SubscriptionOperation,
    pub requested_qos: Option<u8>,
    pub packet_id: Option<u16>,
}

#[verifier::ext_equal]
pub struct SubscriptionTrackerView {
    pub pending: Option<PendingSubscriptionView>,
    pub completions: Seq<SubscriptionCompletionView>,
}

pub open spec fn opt_state_view(o: Option<SubscriptionStateEvent>) -> Option<SubscriptionStateView> {
    match o {
        Some(s) => Some(s@),
        None => None,
    }
}

// ---------------------------------------------------------------------------
// The model.
// ---------------------------------------------------------------------------

/// `start` with a given operation ID: refused while another operation is outstanding.
pub open spec fn start_next(
    v: SubscriptionTrackerView,
    server_id: i64,
    topic: Seq<char>,
    request: SubscriptionRequest,
    operation_id: Seq<char>,
) -> (SubscriptionTrackerView, Result<SubscriptionStateView, Seq<char>>) {
    if v.pending is Some {
        (v, Err("Another subscription operation is already pending"@))
    } else {
        let state = SubscriptionStateView {
            server_id,
            topic,
            operation: request.spec_operation(),
            status: SubscriptionRuntimeStatus::Pending,
            requested_qos: request.spec_requested_qos(),
            granted_qos: None,
            error: None,
            operation_id,
        };
        let pending = PendingSubscriptionView {
            operation_id,
            server_id,
            topic,
            operation: request.spec_operation(),
            requested_qos: request.spec_requested_qos(),
            packet_id: None,
        };
        (SubscriptionTrackerView { pending: Some(pending), ..v }, Ok(state))
    }
}

/// `mark_sent`: binds the outstanding operation to its request's packet ID, once.
pub open spec fn mark_sent_next(v: SubscriptionTrackerView, operation: SubscriptionOperation, packet_id: u16) -> (SubscriptionTrackerView, bool) {
    match v.pending {
        Some(p) => if p.operation != operation || p.packet_id is Some {
            (v, false)
        } else {
            (SubscriptionTrackerView { pending: Some(PendingSubscriptionView { packet_id: Some(packet_id), ..p }), ..v }, true)
        },
        None => (v, false),
    }
}

/// Whether an acknowledgement of `operation` for `packet_id` answers the outstanding operation.
pub open spec fn answers_pending(v: SubscriptionTrackerView, operation: SubscriptionOperation, packet_id: u16) -> bool {
    &&& v.pending is Some
    &&& v.pending->0.operation == operation
    &&& v.pending->0.packet_id == Some(packet_id)
}

/// `complete`: the broker acknowledged the outstanding operation.
pub open spec fn complete_next(
    v: SubscriptionTrackerView,
    operation: SubscriptionOperation,
    packet_id: u16,
    granted_qos: Option<u8>,
) -> (SubscriptionTrackerView, Option<SubscriptionStateView>) {
    if !answers_pending(v, operation, packet_id) {
        (v, None)
    } else {
        let p = v.pending->0;
        let status = match operation {
            SubscriptionOperation::Subscribe => SubscriptionRuntimeStatus::Active,
            SubscriptionOperation::Unsubscribe => SubscriptionRuntimeStatus::Disabled,
        };
        let state = SubscriptionStateView {
            server_id: p.server_id,
            topic: p.topic,
            operation,
            status,
            requested_qos: p.requested_qos,
            granted_qos,
            error: None,
            operation_id: p.operation_id,
        };
        let done = SubscriptionCompletionView {
            operation_id: p.operation_id,
            outcome: Ok(SubscriptionResultView { operation_id: p.operation_id, granted_qos }),
        };
        (SubscriptionTrackerView { pending: None, completions: v.completions.push(done) }, Some(state))
    }
}

/// `fail_current`: the outstanding operation fails with `error`.
pub open spec fn fail_current_next(v: SubscriptionTrackerView, error: Seq<char>) -> (SubscriptionTrackerView, Option<SubscriptionStateView>) {
    match v.pending {
        None => (v, None),
        Some(p) => {
            let state = SubscriptionStateView {
                server_id: p.server_id,
                topic: p.topic,
                operation: p.operation,
                status: SubscriptionRuntimeStatus::Failed,
                requested_qos: p.requested_qos,
                granted_qos: None,
                error: Some(error),
                operation_id: p.operation_id,
            };
            let done = SubscriptionCompletionView { operation_id: p.operation_id, outcome: Err(error) };
            (SubscriptionTrackerView { pending: None, completions: v.completions.push(done) }, Some(state))
        },
    }
}

/// `reject`: the broker refused the outstanding operation.
pub open spec fn reject_next(
    v: SubscriptionTrackerView,
    operation: SubscriptionOperation,
    packet_id: u16,
    error: Seq<char>,
) -> (SubscriptionTrackerView, Option<SubscriptionStateView>) {
    if !answers_pending(v, operation, packet_id) {
        (v, None)
    } else {
        fail_current_next(v, error)
    }
}

// ---------------------------------------------------------------------------
// The implementation.
// ---------------------------------------------------------------------------

struct PendingSubscriptionOperation {
    operation_id: String,
    server_id: i64,
    topic: String,
    operation: SubscriptionOperation,
    requested_qos: Option<u8>,
    packet_id: Option<u16>,
}

impl View for PendingSubscriptionOperation {
    type V = PendingSubscriptionView;

    closed spec fn view(&self) -> PendingSubscriptionView {
        PendingSubscriptionView {
            operation_id: self.operation_id@,
            server_id: self.server_id,
            topic: self.topic@,
            operation: self.operation,
            requested_qos: self.requested_qos,
            packet_id: self.packet_id,
        }
    }
}

pub struct SubscriptionOperationTracker {
    pending: Option<PendingSubscriptionOperation>,
    completions: Vec<SubscriptionCompletion>,
}

impl View for SubscriptionOperationTracker {
    type V = SubscriptionTrackerView;

    closed spec fn view(&self) -> SubscriptionTrackerView {
        SubscriptionTrackerView {
            pending: match self.pending {
                Some(p) => Some(p@),
                None => None,
            },
            completions: self.completions@.map_values(|c: SubscriptionCompletion| c@),
        }
    }
}

impl SubscriptionOperationTracker {
    pub fn new() -> (t: SubscriptionOperationTracker)
        ensures
            t@.pending is None,
            t@.completions.len() == 0,
    {
        SubscriptionOperationTracker { pending: None, completions: Vec::new() }
    }

    /// Starts an operation under a fresh random operation ID; refused while
    /// another operation is outstanding.
    pub fn start(&mut self, server_id: i64, topic: String, request: SubscriptionRequest) -> (r: Result<SubscriptionStateEvent, String>)
        ensures
            old(self)@.pending is Some ==> final(self)@ == old(self)@
                && r == Err::<SubscriptionStateEvent, String>(r->Err_0)
                && r->Err_0@ == "Another subscription operation is already pending"@,
            old(self)@.pending is None ==> r is Ok && (final(self)@, Ok::<SubscriptionStateView, Seq<char>>(r->Ok_0@))
                == start_next(old(self)@, server_id, topic@, request, r->Ok_0.operation_id@),
    {
        if self.pending.is_some() {
            return Err(String::from_str("Another subscription operation is already pending"));
        }
        let operation_id = fresh_uuid();
        self.start_with_operation_id(server_id, topic, request, operation_id)
    }

    /// Starts an operation under the given operation ID; refused while another
    /// operation is outstanding.
    pub fn start_with_operation_id(
        &mut self,
        server_id: i64,
        topic: String,
        request: SubscriptionRequest,
        operation_id: String,
    ) -> (r: Result<SubscriptionStateEvent, String>)
        ensures
            (final(self)@, match r {
                Ok(s) => Ok(s@),
                Err(e) => Err(e@),
            }) == start_next(old(self)@, server_id, topic@, request, operation_id@),
    {
        if self.pending.is_some() {
            return Err(String::from_str("Another subscription operation is already pending"));
        }
        let operation = request.operation();
        let requested_qos = request.requested_qos();
        let state = SubscriptionStateEvent {
            server_id,
            topic: topic.clone(),
            operation,
            status: SubscriptionRuntimeStatus::Pending,
            requested_qos,
            granted_qos: None,
            error: None,
            operation_id: operation_id.clone(),
        };
        self.pending = Some(PendingSubscriptionOperation {
            operation_id,
            server_id,
            topic,
            operation,
            requested_qos,
            packet_id: None,
        });
        proof {
            assert(self@ =~= start_next(old(self)@, server_id, topic@, request, operation_id@).0);
        }
        Ok(state)
    }

    /// The client sent the request of `operation` with `packet_id`: binds the
    /// outstanding operation to it, unless it is of another kind or already bound.
    pub fn mark_sent(&mut self, operation: SubscriptionOperation, packet_id: u16) -> (r: bool)
        ensures
            (final(self)@, r) == mark_sent_next(old(self)@, operation, packet_id),
    {
        match &mut self.pending {
            Some(pending) => {
                if pending.operation != operation || pending.packet_id.is_some() {
                    return false;
                }
                pending.packet_id = Some(packet_id);
            },
            None => {
                return false;
            },
        }
        proof {
            assert(self@ =~= mark_sent_next(old(self)@, operation, packet_id).0);
        }
        true
    }

    fn answers(&self, operation: SubscriptionOperation, packet_id: u16) -> (r: bool)
        ensures
            r == answers_pending(self@, operation, packet_id),
    {
        match &self.pending {
            Some(pending) => pending.operation == operation && pending.packet_id == Some(packet_id),
            None => false,
        }
    }

    /// The broker acknowledged `operation` for `packet_id`: completes the
    /// outstanding operation if the acknowledgement is its own.
    pub fn complete(&mut self, operation: SubscriptionOperation, packet_id: u16, granted_qos: Option<u8>) -> (r: Option<SubscriptionStateEvent>)
        ensures
            (final(self)@, opt_state_view(r)) == complete_next(old(self)@, operation, packet_id, granted_qos),
    {
        if !self.answers(operation, packet_id) {
            return None;
        }
        let pending = self.pending.take().unwrap();
        let status = match operation {
            SubscriptionOperation::Subscribe => SubscriptionRuntimeStatus::Active,
            SubscriptionOperation::Unsubscribe => SubscriptionRuntimeStatus::Disabled,
        };
        let result = SubscriptionOperationResult { operation_id: pending.operation_id.clone(), granted_qos };
        let state = SubscriptionStateEvent {
            server_id: pending.server_id,
            topic: pending.topic,
            operation,
            status,
            requested_qos: pending.requested_qos,
            granted_qos,
            error: None,
            operation_id: pending.operation_id.clone(),
        };
        self.completions.push(SubscriptionCompletion { operation_id: pending.operation_id, outcome: Ok(result) });
        proof {
            assert(self@ =~= complete_next(old(self)@, operation, packet_id, granted_qos).0);
        }
        Some(state)
    }

    /// The outstanding operation fails with `error` (timeout, enqueue failure
    /// or closed connection).
    pub fn fail_current(&mut self, error: String) -> (r: Option<SubscriptionStateEvent>)
        ensures
            (final(self)@, opt_state_view(r)) == fail_current_next(old(self)@, error@),
    {
        let pending = match self.pending.take() {
            Some(p) => p,
            None => {
                return None;
            },
        };
        let state = SubscriptionStateEvent {
            server_id: pending.server_id,
            topic: pending.topic,
            operation: pending.operation,
            status: SubscriptionRuntimeStatus::Failed,
            requested_qos: pending.requested_qos,
            granted_qos: None,
            error: Some(error.clone()),
            operation_id: pending.operation_id.clone(),
        };
        self.completions.push(SubscriptionCompletion { operation_id: pending.operation_id, outcome: Err(error) });
        proof {
            assert(self@ =~= fail_current_next(old(self)@, error@).0);
        }
        Some(state)
    }

    /// The broker refused `operation` for `packet_id`: fails the outstanding
    /// operation if the refusal is its own.
    pub fn reject(&mut self, operation: SubscriptionOperation, packet_id: u16, error: String) -> (r: Option<SubscriptionStateEvent>)
        ensures
            (final(self)@, opt_state_view(r)) == reject_next(old(self)@, operation, packet_id, error@),
    {
        if !self.answers(operation, packet_id) {
            return None;
        }
        self.fail_current(error)
    }

    /// Takes the completions produced so far, oldest first.
    pub fn take_completions(&mut self) -> (r: Vec<SubscriptionCompletion>)
        ensures
            r@.map_values(|c: SubscriptionCompletion| c@) == old(self)@.completions,
            final(self)@ == (SubscriptionTrackerView { completions: Seq::empty(), ..old(self)@ }),
    {
        let mut taken: Vec<SubscriptionCompletion> = Vec::new();
        std::mem::swap(&mut taken, &mut self.completions);
        proof {
            assert(self@ =~= (SubscriptionTrackerView { completions: Seq::empty(), ..old(self)@ }));
        }
        taken
    }
}

impl Default for SubscriptionOperationTracker {
    fn default() -> (t: SubscriptionOperationTracker)
        ensures
            t@.pending is None,
            t@.completions.len() == 0,
    {
        SubscriptionOperationTracker::new()
    }
}

// ---------------------------------------------------------------------------
// Laws of the subscription lifecycle.
// ---------------------------------------------------------------------------

/// At most one operation is outstanding: while one is, starting another is
/// refused and changes nothing.
pub proof fn law_one_operation_at_a_time(
    v: SubscriptionTrackerView,
    server_id: i64,
    topic: Seq<char>,
    request: SubscriptionRequest,
    operation_id: Seq<char>,
)
    requires
        v.pending is Some,
    ensures
        start_next(v, server_id, topic, request, operation_id).0 == v,
        start_next(v, server_id, topic, request, operation_id).1 is Err,
{
}

/// An operation completes only on the acknowledgement of its own packet: an
/// acknowledgement of another kind, of another packet, or before the request
/// was sent changes nothing; the matching one makes a subscribe active and an
/// unsubscribe disabled.
pub proof fn law_completes_only_on_matching_ack(
    v: SubscriptionTrackerView,
    operation: SubscriptionOperation,
    packet_id: u16,
    granted_qos: Option<u8>,
    error: Seq<char>,
)
    ensures
        !answers_pending(v, operation, packet_id) ==> complete_next(v, operation, packet_id, granted_qos) == (
        v, None::<SubscriptionStateView>),
        !answers_pending(v, operation, packet_id) ==> reject_next(v, operation, packet_id, error) == (v, None::<
            SubscriptionStateView,
        >),
        answers_pending(v, operation, packet_id) ==> ({
            let r = complete_next(v, operation, packet_id, granted_qos).1;
            &&& r is Some
            &&& r->0.operation_id == v.pending->0.operation_id
            &&& r->0.granted_qos == granted_qos
            &&& r->0.status == (match operation {
                SubscriptionOperation::Subscribe => SubscriptionRuntimeStatus::Active,
                SubscriptionOperation::Unsubscribe => SubscriptionRuntimeStatus::Disabled,
            })
        }),
{
}

/// What each step records of the operation. Starting with nothing
/// outstanding makes the request outstanding as given: a subscribe with its
/// requested QoS, an unsubscribe with none, pending, not yet sent. The
/// matching acknowledgement ends it with the granted QoS and hands exactly
/// that to its caller; a refusal or a failure ends it failed with the error
/// and hands that error to its caller.
pub proof fn law_subscription_steps_record_the_operation(
    v: SubscriptionTrackerView,
    server_id: i64,
    topic: Seq<char>,
    request: SubscriptionRequest,
    operation_id: Seq<char>,
    packet_id: u16,
    granted_qos: Option<u8>,
    error: Seq<char>,
)
    ensures
        v.pending is None ==> ({
            let (w, r) = start_next(v, server_id, topic, request, operation_id);
            &&& r matches Ok(s) && s.operation_id == operation_id && s.server_id == server_id && s.topic == topic
                && s.status == SubscriptionRuntimeStatus::Pending && s.granted_qos is None && s.error is None
            &&& request matches SubscriptionRequest::Subscribe { requested_qos } ==> r->Ok_0.operation
                == SubscriptionOperation::Subscribe && r->Ok_0.requested_qos == Some(requested_qos)
            &&& request is Unsubscribe ==> r->Ok_0.operation == SubscriptionOperation::Unsubscribe
                && r->Ok_0.requested_qos is None
            &&& w.pending matches Some(p) && p.operation_id == operation_id && p.packet_id is None && p.topic == topic
                && p.server_id == server_id && p.operation == r->Ok_0.operation && p.requested_qos == r->Ok_0.requested_qos
            &&& w.completions == v.completions
        }),
        answers_pending(v, v.pending->0.operation, packet_id) ==> ({
            let p = v.pending->0;
            let (w, r) = complete_next(v, p.operation, packet_id, granted_qos);
            &&& r matches Some(s) && s.server_id == p.server_id && s.topic == p.topic && s.requested_qos
                == p.requested_qos && s.granted_qos == granted_qos && s.error is None
            &&& w.completions == v.completions.push(SubscriptionCompletionView {
                operation_id: p.operation_id,
                outcome: Ok(SubscriptionResultView { operation_id: p.operation_id, granted_qos }),
            })
        }),
        v.pending matches Some(p) ==> ({
            let (w, r) = fail_current_next(v, error);
            &&& r matches Some(s) && s.status == SubscriptionRuntimeStatus::Failed && s.error == Some(error)
                && s.operation_id == p.operation_id && s.operation == p.operation && s.topic == p.topic
                && s.server_id == p.server_id && s.granted_qos is None
            &&& w.pending is None
            &&& w.completions == v.completions.push(SubscriptionCompletionView {
                operation_id: p.operation_id,
                outcome: Err(error),
            })
        }),
{
}

/// A request is bound to its packet once: a second `mark_sent` is refused.
pub proof fn law_bound_once(v: SubscriptionTrackerView, operation: SubscriptionOperation, first: u16, second: u16)
    ensures
        mark_sent_next(v, operation, first).1 ==> mark_sent_next(mark_sent_next(v, operation, first).0, operation, second)
            == (mark_sent_next(v, operation, first).0, false),
{
}

/// Every outcome of the outstanding operation (acknowledgement, refusal,
/// failure) queues exactly one completion for it and releases it, so that the
/// next operation may start (a retry after a timeout is accepted).
pub proof fn law_outcome_releases_and_completes_once(
    v: SubscriptionTrackerView,
    operation: SubscriptionOperation,
    packet_id: u16,
    granted_qos: Option<u8>,
    error: Seq<char>,
    server_id: i64,
    topic: Seq<char>,
    request: SubscriptionRequest,
    next_id: Seq<char>,
)
    requires
        v.pending is Some,
    ensures
        ({
            let w = fail_current_next(v, error).0;
            &&& w.pending is None
            &&& w.completions == v.completions.push(SubscriptionCompletionView {
                operation_id: v.pending->0.operation_id,
                outcome: Err(error),
            })
            &&& start_next(w, server_id, topic, request, next_id).1 is Ok
        }),
        answers_pending(v, operation, packet_id) ==> ({
            let w = complete_next(v, operation, packet_id, granted_qos).0;
            &&& w.pending is None
            &&& w.completions.len() == v.completions.len() + 1
            &&& w.completions.last().operation_id == v.pending->0.operation_id
            &&& w.completions.last().outcome is Ok
            &&& start_next(w, server_id, topic, request, next_id).1 is Ok
        }),
        answers_pending(v, operation, packet_id) ==> reject_next(v, operation, packet_id, error) == fail_current_next(
            v,
            error,
        ),
{
}

/// How waiting for an acknowledgement ended: with the operation's outcome,
/// with the waiting side dropped, or past the deadline.
#[derive(Debug)]
pub enum WaitOutcome<T> {
    Completed(T),
    Interrupted,
    TimedOut,
}

impl SubscriptionOperationTracker {
    /// The answer to a caller who waited for the outstanding operation; past
    /// the deadline the operation fails.
    pub fn settle_wait(&mut self, outcome: WaitOutcome<Result<SubscriptionOperationResult, String>>) -> (r: (
        Result<SubscriptionOperationResult, String>,
        Option<SubscriptionStateEvent>,
    ))
        ensures
            outcome matches WaitOutcome::Completed(x) ==> r.0 == x && r.1 is None && final(self)@ == old(self)@,
            outcome is Interrupted ==> r.0 is Err && r.0->Err_0@ == "Subscription operation was interrupted"@ && r.1 is None
                && final(self)@ == old(self)@,
            outcome is TimedOut ==> r.0 is Err && r.0->Err_0@ == "Subscription acknowledgement timed out"@ && (
            final(self)@,
            opt_state_view(r.1),
            ) == fail_current_next(old(self)@, "Subscription acknowledgement timed out"@),
    {
        match outcome {
            WaitOutcome::Completed(x) => (x, None),
            WaitOutcome::Interrupted => (Err(String::from_str("Subscription operation was interrupted")), None),
            WaitOutcome::TimedOut => {
                let error = String::from_str("Subscription acknowledgement timed out");
                let state = self.fail_current(error.clone());
                (Err(error), state)
            },
        }
    }
}

} // verus!
