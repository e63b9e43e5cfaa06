//! MQTT protocol versions and their capabilities, the connection state
//! reported to the user interface, and the reconnect back-off policy.
use vstd::prelude::*;
use vstd::arithmetic::power2::{pow2, lemma_pow2_strictly_increases, lemma_pow2_pos, lemma2_to64};
use vstd::bits::{lemma_u64_shl_is_mul, lemma_u64_pow2_no_overflow};
use crate::text::{opt_view, str_equals, join2};

verus! {

#[derive(Debug, Clone, Copy, PartialEq, Eq, Structural)]
pub enum MqttProtocolVersion {
    V3_1_1,
    V5_0,
}

#[derive(Debug, Clone, Copy, PartialEq, Eq, Structural)]
pub enum MqttCapability {
    PublishProperties,
    SessionExpiry,
    TopicAlias,
}

impl MqttCapability {
    /// The wire name of the capability.
    pub open spec fn name(self) -> Seq<char> {
        match self {
            MqttCapability::PublishProperties => "publish_properties"@,
            MqttCapability::SessionExpiry => "session_expiry"@,
            MqttCapability::TopicAlias => "topic_alias"@,
        }
    }

    pub fn as_str(self) -> (s: &'static str)
        ensures
            s@ == self.name(),
    {
        match self {
            MqttCapability::PublishProperties => "publish_properties",
            MqttCapability::SessionExpiry => "session_expiry",
            MqttCapability::TopicAlias => "topic_alias",
        }
    }
}

/// The capabilities of a version, in their canonical order.
pub open spec fn capabilities_of(version: MqttProtocolVersion) -> Seq<MqttCapability> {
    match version {
        MqttProtocolVersion::V5_0 => seq![
            MqttCapability::PublishProperties,
            MqttCapability::SessionExpiry,
            MqttCapability::TopicAlias,
        ],
        MqttProtocolVersion::V3_1_1 => Seq::empty(),
    }
}

/// The message for a version string that is not supported.
pub open spec fn unsupported_version_message(value: Seq<char>) -> Seq<char> {
    "Unsupported MQTT protocol version: "@ + value + ". Supported versions: 3.1.1, 5.0"@
}

impl MqttProtocolVersion {
    /// The wire name of the version.
    pub open spec fn name(self) -> Seq<char> {
        match self {
            MqttProtocolVersion::V3_1_1 => "3.1.1"@,
            MqttProtocolVersion::V5_0 => "5.0"@,
        }
    }

    pub fn as_str(self) -> (s: &'static str)
        ensures
            s@ == self.name(),
    {
        match self {
            MqttProtocolVersion::V3_1_1 => "3.1.1",
            MqttProtocolVersion::V5_0 => "5.0",
        }
    }

    /// Only MQTT 5.0 has publish properties, session expiry and topic aliases.
    pub open spec fn spec_supports(self, capability: MqttCapability) -> bool {
        self == MqttProtocolVersion::V5_0
    }

    pub fn supports(self, capability: MqttCapability) -> (r: bool)
        ensures
            r == self.spec_supports(capability),
    {
        match capability {
            MqttCapability::PublishProperties | MqttCapability::SessionExpiry | MqttCapability::TopicAlias => self
                == MqttProtocolVersion::V5_0,
        }
    }

    /// The capabilities the version supports, in their canonical order.
    pub fn capabilities(self) -> (r: Vec<MqttCapability>)
        ensures
            r@ == capabilities_of(self),
            forall|i: int| 0 <= i < r@.len() ==> self.spec_supports(#[trigger] r@[i]),
    {
        let all = [MqttCapability::PublishProperties, MqttCapability::SessionExpiry, MqttCapability::TopicAlias];
        let mut r: Vec<MqttCapability> = Vec::new();
        let mut i: usize = 0;
        while i < 3
            invariant
                i <= 3,
                all@ == seq![MqttCapability::PublishProperties, MqttCapability::SessionExpiry, MqttCapability::TopicAlias],
                self == MqttProtocolVersion::V5_0 ==> r@ == all@.take(i as int),
                self == MqttProtocolVersion::V3_1_1 ==> r@.len() == 0,
            decreases 3 - i,
        {
            if self.supports(all[i]) {
                r.push(all[i]);
            }
            proof {
                if self == MqttProtocolVersion::V5_0 {
                    assert(r@ =~= all@.take(i + 1));
                }
            }
            i = i + 1;
        }
        proof {
            if self == MqttProtocolVersion::V5_0 {
                assert(r@ =~= capabilities_of(self));
            } else {
                assert(r@ =~= capabilities_of(self));
            }
        }
        r
    }

    /// Reads a version from its wire name.
    pub fn try_from(value: &str) -> (r: Result<MqttProtocolVersion, String>)
        ensures
            value@ == "3.1.1"@ ==> r == Ok::<MqttProtocolVersion, String>(MqttProtocolVersion::V3_1_1),
            value@ == "5.0"@ ==> r == Ok::<MqttProtocolVersion, String>(MqttProtocolVersion::V5_0),
            value@ != "3.1.1"@ && value@ != "5.0"@ ==> r is Err && r->Err_0@ == unsupported_version_message(value@),
            r matches Ok(v) ==> v.name() == value@,
    {
        proof {
            reveal_strlit("3.1.1");
            reveal_strlit("5.0");
            assert("3.1.1"@.len() == 5);
            assert("5.0"@.len() == 3);
            assert("3.1.1"@ != "5.0"@);
        }
        if str_equals(value, "3.1.1") {
            Ok(MqttProtocolVersion::V3_1_1)
        } else if str_equals(value, "5.0") {
            Ok(MqttProtocolVersion::V5_0)
        } else {
            let mut message = join2("Unsupported MQTT protocol version: ", value);
            message.append(". Supported versions: 3.1.1, 5.0");
            Err(message)
        }
    }
}

/// The state of a connection as reported to the user interface.
#[derive(Debug, Clone)]
pub struct ConnectionState {
    pub server_id: i64,
    pub status: String,
    pub error: Option<String>,
    pub protocol_version: Option<MqttProtocolVersion>,
    pub capabilities: Vec<MqttCapability>,
    pub reconnect_attempt: Option<u32>,
    pub retry_in_ms: Option<u64>,
}

pub struct ConnectionStateView {
    pub server_id: i64,
    pub status: Seq<char>,
    pub error: Option<Seq<char>>,
    pub protocol_version: Option<MqttProtocolVersion>,
    pub capabilities: Seq<MqttCapability>,
    pub reconnect_attempt: Option<u32>,
    pub retry_in_ms: Option<u64>,
}

impl View for ConnectionState {
    type V = ConnectionStateView;

    open spec fn view(&self) -> ConnectionStateView {
        ConnectionStateView {
            server_id: self.server_id,
            status: self.status@,
            error: opt_view(self.error),
            protocol_version: self.protocol_version,
            capabilities: self.capabilities@,
            reconnect_attempt: self.reconnect_attempt,
            retry_in_ms: self.retry_in_ms,
        }
    }
}

/// The capabilities reported for an optional version.
pub open spec fn reported_capabilities(version: Option<MqttProtocolVersion>) -> Seq<MqttCapability> {
    match version {
        Some(v) => capabilities_of(v),
        None => Seq::empty(),
    }
}

/// A state with no reconnect information.
pub open spec fn plain_state(
    server_id: i64,
    status: Seq<char>,
    error: Option<Seq<char>>,
    protocol_version: Option<MqttProtocolVersion>,
) -> ConnectionStateView {
    ConnectionStateView {
        server_id,
        status,
        error,
        protocol_version,
        capabilities: reported_capabilities(protocol_version),
        reconnect_attempt: None,
        retry_in_ms: None,
    }
}

/// The state reported while waiting to reconnect.
pub open spec fn reconnecting_state(
    server_id: i64,
    error: Seq<char>,
    protocol_version: MqttProtocolVersion,
    reconnect_attempt: u32,
    retry_delay_ms: u64,
) -> ConnectionStateView {
    ConnectionStateView {
        reconnect_attempt: Some(reconnect_attempt),
        retry_in_ms: Some(retry_delay_ms),
        ..plain_state(server_id, "reconnecting"@, Some(error), Some(protocol_version))
    }
}

impl ConnectionState {
    pub fn new(
        server_id: i64,
        status: &str,
        error: Option<String>,
        protocol_version: Option<MqttProtocolVersion>,
    ) -> (r: ConnectionState)
        ensures
            r@ == plain_state(server_id, status@, opt_view(error), protocol_version),
    {
        let capabilities = match protocol_version {
            Some(v) => v.capabilities(),
            None => Vec::new(),
        };
        proof {
            if protocol_version is None {
                assert(capabilities@ =~= reported_capabilities(protocol_version));
            }
        }
        ConnectionState {
            server_id,
            status: String::from_str(status),
            error,
            protocol_version,
            capabilities,
            reconnect_attempt: None,
            retry_in_ms: None,
        }
    }

    /// The state reported while waiting `retry_delay_ms` milliseconds before
    /// reconnect attempt `reconnect_attempt`.
    pub fn reconnecting(
        server_id: i64,
        error: String,
        protocol_version: MqttProtocolVersion,
        reconnect_attempt: u32,
        retry_delay_ms: u64,
    ) -> (r: ConnectionState)
        ensures
            r@ == reconnecting_state(server_id, error@, protocol_version, reconnect_attempt, retry_delay_ms),
    {
        let mut state = ConnectionState::new(server_id, "reconnecting", Some(error), Some(protocol_version));
        state.reconnect_attempt = Some(reconnect_attempt);
        state.retry_in_ms = Some(retry_delay_ms);
        state
    }
}

/// Exponential back-off between reconnect attempts, in milliseconds.
#[derive(Debug, Clone, Copy, PartialEq, Eq, Structural)]
pub struct ReconnectPolicy {
    pub base_delay_ms: u64,
    pub max_delay_ms: u64,
}

/// The doubling exponent for an attempt: 0 for the first, capped at 31.
pub open spec fn backoff_exponent(attempt: u32) -> nat {
    if attempt <= 1 {
        0
    } else if attempt - 1 > 31 {
        31
    } else {
        (attempt - 1) as nat
    }
}

/// The longest delay before an attempt: the base doubled per earlier
/// attempt, at most the maximum.
pub open spec fn backoff_cap(policy: ReconnectPolicy, attempt: u32) -> int {
    let grown = policy.base_delay_ms * pow2(backoff_exponent(attempt));
    if grown < policy.max_delay_ms {
        grown
    } else {
        policy.max_delay_ms as int
    }
}

/// The delay before an attempt: at least half the cap, plus a jitter drawn
/// from the seed.
pub open spec fn backoff_delay(policy: ReconnectPolicy, attempt: u32, jitter_seed: u64) -> int {
    let cap = backoff_cap(policy, attempt);
    cap / 2 + (jitter_seed as int) % (cap - cap / 2 + 1)
}

impl ReconnectPolicy {
    pub open spec fn spec_default() -> ReconnectPolicy {
        ReconnectPolicy { base_delay_ms: 500, max_delay_ms: 30000 }
    }

    /// The delay in milliseconds before reconnect attempt `attempt`.
    pub fn delay(self, attempt: u32, jitter_seed: u64) -> (r: u64)
        ensures
            r == backoff_delay(self, attempt, jitter_seed),
    {
        let shifted = attempt.saturating_sub(1);
        let exponent: u64 = if shifted > 31 {
            31
        } else {
            shifted as u64
        };
        proof {
            assert(exponent == backoff_exponent(attempt));
            lemma_u64_pow2_no_overflow(exponent as nat);
            lemma_u64_shl_is_mul(1, exponent);
            lemma_pow2_strictly_increases(exponent as nat, 32);
            lemma2_to64();
        }
        let multiplier: u64 = 1u64 << exponent;
        assert(multiplier == pow2(exponent as nat));
        let base = self.base_delay_ms as u128;
        let m = multiplier as u128;
        assert(base * m <= 0xffff_ffff_ffff_ffffu128 * 0x1_0000_0000u128) by (nonlinear_arith)
            requires
                base <= 0xffff_ffff_ffff_ffffu128,
                m <= 0x1_0000_0000u128,
        ;
        let grown: u128 = base * m;
        let capped: u64 = if grown < self.max_delay_ms as u128 {
            grown as u64
        } else {
            self.max_delay_ms
        };
        let minimum = capped / 2;
        let jitter_range = capped - minimum;
        let jitter = jitter_seed % (jitter_range + 1);
        minimum + jitter
    }
}

impl Default for ReconnectPolicy {
    fn default() -> (r: ReconnectPolicy)
        ensures
            r == ReconnectPolicy::spec_default(),
    {
        ReconnectPolicy { base_delay_ms: 500, max_delay_ms: 30000 }
    }
}

/// The reconnect delay lies between half the cap and the cap, and the cap
/// never exceeds the policy's maximum.
pub proof fn law_backoff_is_capped_and_jittered(policy: ReconnectPolicy, attempt: u32, jitter_seed: u64)
    ensures
        backoff_cap(policy, attempt) / 2 <= backoff_delay(policy, attempt, jitter_seed) <= backoff_cap(policy, attempt),
        0 <= backoff_cap(policy, attempt) <= policy.max_delay_ms,
{
    lemma_pow2_pos(backoff_exponent(attempt));
    assert(policy.base_delay_ms * pow2(backoff_exponent(attempt)) >= 0) by (nonlinear_arith)
        requires
            pow2(backoff_exponent(attempt)) > 0,
    ;
}

/// The cap grows with the attempt number: later attempts never wait for a
/// shorter cap.
pub proof fn law_backoff_cap_grows(policy: ReconnectPolicy, earlier: u32, later: u32)
    requires
        earlier <= later,
    ensures
        backoff_cap(policy, earlier) <= backoff_cap(policy, later),
{
    let a = backoff_exponent(earlier);
    let b = backoff_exponent(later);
    assert(a <= b);
    if a < b {
        lemma_pow2_strictly_increases(a, b);
    }
    assert(policy.base_delay_ms * pow2(a) <= policy.base_delay_ms * pow2(b)) by (nonlinear_arith)
        requires
            pow2(a) <= pow2(b),
    ;
}

/// The back-off starts at the base delay and doubles with each further
/// attempt until it reaches the maximum: the first attempt's cap is the
/// smaller of the base and the maximum, and each later cap (up to the 32nd
/// attempt) is twice the one before, or the maximum when that is smaller.
pub proof fn law_backoff_doubles_up_to_the_maximum(policy: ReconnectPolicy, attempt: u32)
    ensures
        backoff_cap(policy, 1) == (if policy.base_delay_ms < policy.max_delay_ms {
            policy.base_delay_ms as int
        } else {
            policy.max_delay_ms as int
        }),
        1 <= attempt <= 31 && backoff_cap(policy, attempt) < policy.max_delay_ms ==> backoff_cap(policy, (attempt + 1) as u32)
            == (if 2 * backoff_cap(policy, attempt) < policy.max_delay_ms {
            2 * backoff_cap(policy, attempt)
        } else {
            policy.max_delay_ms as int
        }),
{
    lemma2_to64();
    assert(policy.base_delay_ms * pow2(0) == policy.base_delay_ms);
    if 1 <= attempt <= 31 {
        let e = backoff_exponent(attempt);
        assert(backoff_exponent((attempt + 1) as u32) == e + 1);
        vstd::arithmetic::power2::lemma_pow2_unfold(e + 1);
        assert(policy.base_delay_ms * pow2(e + 1) == 2 * (policy.base_delay_ms * pow2(e))) by (nonlinear_arith)
            requires
                pow2(e + 1) == 2 * pow2(e),
        ;
    }
}

/// Only MQTT 5.0 has capabilities: publish properties, session expiry and
/// topic aliases, in that order; MQTT 3.1.1 has none. A connection state
/// reports the capabilities of its version, and a reconnecting state reports
/// the error, the attempt and the wait, with status `reconnecting`.
pub proof fn law_capabilities_and_states(
    version: MqttProtocolVersion,
    capability: MqttCapability,
    server_id: i64,
    error: Seq<char>,
    attempt: u32,
    delay: u64,
)
    ensures
        version.spec_supports(capability) <==> version == MqttProtocolVersion::V5_0,
        version == MqttProtocolVersion::V3_1_1 ==> capabilities_of(version).len() == 0,
        version == MqttProtocolVersion::V5_0 ==> capabilities_of(version) == seq![
            MqttCapability::PublishProperties,
            MqttCapability::SessionExpiry,
            MqttCapability::TopicAlias,
        ],
        ({
            let st = reconnecting_state(server_id, error, version, attempt, delay);
            &&& st.server_id == server_id
            &&& st.status == "reconnecting"@
            &&& st.error == Some(error)
            &&& st.protocol_version == Some(version)
            &&& st.capabilities == capabilities_of(version)
            &&& st.reconnect_attempt == Some(attempt)
            &&& st.retry_in_ms == Some(delay)
        }),
        plain_state(server_id, "connected"@, None, Some(version)).capabilities == capabilities_of(version),
        plain_state(server_id, "connected"@, None, Some(version)).reconnect_attempt is None,
        plain_state(server_id, "disconnected"@, None, None).capabilities.len() == 0,
{
}

/// An MQTT quality-of-service level.
#[derive(Debug, Clone, Copy, PartialEq, Eq, Structural)]
pub enum QosLevel {
    AtMostOnce,
    AtLeastOnce,
    ExactlyOnce,
}

/// The level a QoS number stands for, if it stands for one.
pub open spec fn qos_of(qos: u8) -> Option<QosLevel> {
    if qos == 0 {
        Some(QosLevel::AtMostOnce)
    } else if qos == 1 {
        Some(QosLevel::AtLeastOnce)
    } else if qos == 2 {
        Some(QosLevel::ExactlyOnce)
    } else {
        None
    }
}

/// QoS 0, 1 and 2 are at most once, at least once and exactly once; no
/// other number is a QoS level.
pub proof fn law_qos_levels(qos: u8)
    ensures
        qos == 0 ==> qos_of(qos) == Some(QosLevel::AtMostOnce),
        qos == 1 ==> qos_of(qos) == Some(QosLevel::AtLeastOnce),
        qos == 2 ==> qos_of(qos) == Some(QosLevel::ExactlyOnce),
        qos > 2 ==> qos_of(qos) is None,
{
}

/// The QoS level of a publish or subscribe request; 0, 1 and 2 are the only ones.
pub fn qos_level(qos: u8) -> (r: Result<QosLevel, String>)
    ensures
        qos_of(qos) matches Some(l) ==> r == Ok::<QosLevel, String>(l),
        qos_of(qos) is None ==> (r matches Err(e) && e@ == "Invalid QoS"@),
{
    if qos == 0 {
        Ok(QosLevel::AtMostOnce)
    } else if qos == 1 {
        Ok(QosLevel::AtLeastOnce)
    } else if qos == 2 {
        Ok(QosLevel::ExactlyOnce)
    } else {
        Err(String::from_str("Invalid QoS"))
    }
}

} // verus!
