//! From a stored broker to the settings of an MQTT connection: the
//! protocol version and its keep-alive rule, the transport, the broker
//! address (a URL for WebSockets), the client ID, the credentials and the
//! session and packet-size options.
use vstd::prelude::*;
use vstd::string::StrSliceExecFns;
use crate::models::MqttServer;
use crate::protocol::{unsupported_version_message, MqttProtocolVersion};
use crate::stamps::fresh_uuid;
use crate::tls::{build_tls_material, tls_material_matches, tls_refusal, TlsMaterial};
use crate::text::{join2, opt_as_str, opt_view, str_equals, trim, trim_end_ws, trim_start_ws, trimmed, unicode_white_space};

verus! {

/// The decimal digit for `d` (taken modulo ten).
pub open spec fn digit_char(d: int) -> char {
    let d = d % 10;
    if d == 0 {
        '0'
    } else if d == 1 {
        '1'
    } else if d == 2 {
        '2'
    } else if d == 3 {
        '3'
    } else if d == 4 {
        '4'
    } else if d == 5 {
        '5'
    } else if d == 6 {
        '6'
    } else if d == 7 {
        '7'
    } else if d == 8 {
        '8'
    } else {
        '9'
    }
}

/// The decimal writing of `n`, without leading zeros.
pub open spec fn decimal(n: nat) -> Seq<char>
    decreases n,
{
    if n < 10 {
        seq![digit_char(n as int)]
    } else {
        decimal(n / 10).push(digit_char((n % 10) as int))
    }
}

/// The decimal writing of `n`, with a minus sign when it is negative.
pub open spec fn signed_decimal(n: int) -> Seq<char> {
    if n < 0 {
        "-"@ + decimal((-n) as nat)
    } else {
        decimal(n as nat)
    }
}

fn digit_str(d: u64) -> (r: &'static str)
    requires
        d < 10,
    ensures
        r@ == seq![digit_char(d as int)],
{
    proof {
        reveal_strlit("0");
        reveal_strlit("1");
        reveal_strlit("2");
        reveal_strlit("3");
        reveal_strlit("4");
        reveal_strlit("5");
        reveal_strlit("6");
        reveal_strlit("7");
        reveal_strlit("8");
        reveal_strlit("9");
    }
    if d == 0 {
        "0"
    } else if d == 1 {
        "1"
    } else if d == 2 {
        "2"
    } else if d == 3 {
        "3"
    } else if d == 4 {
        "4"
    } else if d == 5 {
        "5"
    } else if d == 6 {
        "6"
    } else if d == 7 {
        "7"
    } else if d == 8 {
        "8"
    } else {
        "9"
    }
}

/// `n` written in decimal.
pub fn decimal_string(n: u64) -> (r: String)
    ensures
        r@ == decimal(n as nat),
    decreases n,
{
    if n < 10 {
        String::from_str(digit_str(n))
    } else {
        let mut s = decimal_string(n / 10);
        s.append(digit_str(n % 10));
        s
    }
}

/// `n` written in decimal, with a minus sign when it is negative.
pub fn signed_decimal_string(n: i32) -> (r: String)
    ensures
        r@ == signed_decimal(n as int),
{
    if n < 0 {
        let magnitude: i64 = 0i64 - (n as i64);
        let digits = decimal_string(magnitude as u64);
        join2("-", digits.as_str())
    } else {
        decimal_string(n as u64)
    }
}

/// The number that decimal digits stand for.
pub open spec fn digits_value(s: Seq<char>) -> int
    decreases s.len(),
{
    if s.len() == 0 {
        0
    } else {
        digits_value(s.drop_last()) * 10 + (s.last() as int - '0' as int)
    }
}

/// The decimal writing of a number reads back as that number, uses only the
/// digits `0` to `9`, and starts with `0` only for zero itself.
pub proof fn law_decimal_reads_back(n: nat)
    ensures
        digits_value(decimal(n)) == n,
        forall|i: int| 0 <= i < decimal(n).len() ==> '0' <= #[trigger] decimal(n)[i] <= '9',
        decimal(n).len() > 0,
        n > 0 ==> decimal(n)[0] != '0',
    decreases n,
{
    let last = (n % 10) as int;
    assert(digit_char(last) as int - '0' as int == last && '0' <= digit_char(last) <= '9') by {
        assert(0 <= last < 10);
        assert(last % 10 == last);
    }
    if n >= 10 {
        law_decimal_reads_back(n / 10);
        let d = decimal(n);
        assert(d.drop_last() =~= decimal(n / 10));
        assert(d[0] == decimal(n / 10)[0]);
        assert((n / 10) * 10 + n % 10 == n) by (nonlinear_arith);
        assert(d.last() == digit_char(last));
        assert(digits_value(d) == digits_value(d.drop_last()) * 10 + (d.last() as int - '0' as int));
        assert(digits_value(d) == (n / 10) * 10 + last);
    } else {
        assert(n % 10 == n);
        let d = decimal(n);
        assert(d.drop_last() =~= Seq::<char>::empty());
        assert(d.last() == digit_char(last));
        assert(digits_value(d) == digits_value(d.drop_last()) * 10 + (d.last() as int - '0' as int));
    }
}

/// The path of a WebSocket URL is the broker's path trimmed, given a leading
/// slash when it lacks one, and nothing when there is no path or only blank.
pub proof fn law_websocket_path(path: Option<Seq<char>>)
    ensures
        (path is None || trimmed(path->0).len() == 0) ==> websocket_path_part(path).len() == 0,
        path is Some && trimmed(path->0).len() > 0 ==> ({
            let p = path->0;
            let r = websocket_path_part(path);
            &&& r[0] == '/'
            &&& r == trimmed(p) || r == seq!['/'] + trimmed(p)
            &&& trimmed(p)[0] == '/' ==> r == trimmed(p)
            &&& trimmed(p)[0] != '/' ==> r.len() == trimmed(p).len() + 1
        }),
{
    reveal_strlit("/");
    assert("/"@ =~= seq!['/']);
}

/// Whether the broker is reached over WebSockets.
pub open spec fn is_websocket(protocol: Seq<char>) -> bool {
    protocol == "ws"@ || protocol == "wss"@
}

/// The path part of a WebSocket URL: the trimmed path, with a leading
/// slash added when it has none; nothing when the path is absent or blank.
pub open spec fn websocket_path_part(path: Option<Seq<char>>) -> Seq<char> {
    match path {
        Some(p) => {
            let t = trimmed(p);
            if t.len() == 0 {
                Seq::empty()
            } else if t[0] == '/' {
                t
            } else {
                "/"@ + t
            }
        },
        None => Seq::empty(),
    }
}

/// The address handed to the MQTT client: the host for TCP and TLS, a
/// `ws://` or `wss://` URL with port and path for WebSockets.
pub open spec fn broker_address(host: Seq<char>, port: i32, protocol: Seq<char>, path: Option<Seq<char>>) -> Seq<char> {
    if is_websocket(protocol) {
        protocol + "://"@ + host + ":"@ + signed_decimal(port as int) + websocket_path_part(path)
    } else {
        host
    }
}

/// The address of `server` for the transport named `protocol`.
pub fn broker_addr(server: &MqttServer, protocol: &str) -> (r: String)
    ensures
        r@ == broker_address(server.host@, server.port, protocol@, opt_view(server.websocket_path)),
{
    if !(str_equals(protocol, "ws") || str_equals(protocol, "wss")) {
        return server.host.clone();
    }
    let mut url = join2(protocol, "://");
    url.append(server.host.as_str());
    url.append(":");
    let port = signed_decimal_string(server.port);
    url.append(port.as_str());
    match &server.websocket_path {
        Some(raw) => {
            let path = trim(raw.as_str());
            let n = path.unicode_len();
            if n > 0 {
                if path.get_char(0) != '/' {
                    url.append("/");
                }
                url.append(path);
            }
        },
        None => {},
    }
    proof {
        reveal_strlit("/");
        reveal_strlit("");
    }
    url
}

/// How the client reaches the broker.
#[derive(Debug, Clone, Copy, PartialEq, Eq, Structural)]
pub enum TransportKind {
    /// Plain TCP (`mqtt`).
    Tcp,
    /// TLS over TCP (`mqtts`).
    Tls,
    /// WebSockets (`ws`).
    Ws,
    /// WebSockets over TLS (`wss`).
    Wss,
}

/// The transport a protocol name stands for, if it names one.
pub open spec fn transport_of(protocol: Seq<char>) -> Option<TransportKind> {
    if protocol == "mqtt"@ {
        Some(TransportKind::Tcp)
    } else if protocol == "mqtts"@ {
        Some(TransportKind::Tls)
    } else if protocol == "ws"@ {
        Some(TransportKind::Ws)
    } else if protocol == "wss"@ {
        Some(TransportKind::Wss)
    } else {
        None
    }
}

/// The transport named `protocol`, or the error for an unknown name.
pub fn transport_kind(protocol: &str) -> (r: Result<TransportKind, String>)
    ensures
        transport_of(protocol@) matches Some(t) ==> r == Ok::<TransportKind, String>(t),
        transport_of(protocol@) is None ==> r is Err && r->Err_0@ == "Unsupported MQTT transport protocol: "@ + protocol@,
{
    if str_equals(protocol, "mqtt") {
        Ok(TransportKind::Tcp)
    } else if str_equals(protocol, "mqtts") {
        Ok(TransportKind::Tls)
    } else if str_equals(protocol, "ws") {
        Ok(TransportKind::Ws)
    } else if str_equals(protocol, "wss") {
        Ok(TransportKind::Wss)
    } else {
        Err(join2("Unsupported MQTT transport protocol: ", protocol))
    }
}

/// `s` cut at every `sep`, as `str::split` cuts it: one piece more than
/// there are separators, empty pieces included.
pub open spec fn split_on(s: Seq<char>, sep: char) -> Seq<Seq<char>>
    decreases s.len(),
{
    if s.len() == 0 {
        seq![Seq::empty()]
    } else {
        let p = split_on(s.drop_last(), sep);
        if s.last() == sep {
            p.push(Seq::empty())
        } else {
            p.update(p.len() - 1, p.last().push(s.last()))
        }
    }
}

proof fn lemma_split_on_nonempty(s: Seq<char>, sep: char)
    ensures
        split_on(s, sep).len() >= 1,
    decreases s.len(),
{
    if s.len() > 0 {
        lemma_split_on_nonempty(s.drop_last(), sep);
    }
}

/// The pieces trimmed of white space, the blank ones left out, in order.
pub open spec fn nonblank_trimmed(pieces: Seq<Seq<char>>) -> Seq<Seq<char>>
    decreases pieces.len(),
{
    if pieces.len() == 0 {
        Seq::empty()
    } else {
        let rest = nonblank_trimmed(pieces.drop_last());
        let t = trimmed(pieces.last());
        if t.len() > 0 {
            rest.push(t)
        } else {
            rest
        }
    }
}

/// The protocol names of a comma-separated ALPN setting.
pub open spec fn alpn_names(alpn: Seq<char>) -> Seq<Seq<char>> {
    nonblank_trimmed(split_on(alpn, ','))
}

/// The ALPN protocols, as UTF-8 bytes, of an optional comma-separated
/// setting: none when the setting is absent or names none.
pub fn parse_alpn_protocols(alpn: Option<&str>) -> (r: Option<Vec<Vec<u8>>>)
    ensures
        alpn is None ==> r is None,
        alpn matches Some(s) ==> (alpn_names(s@).len() == 0 <==> r is None),
        alpn matches Some(s) ==> (r matches Some(v) ==> v@.len() == alpn_names(s@).len() && forall|k: int|
            0 <= k < v@.len() ==> (#[trigger] v@[k])@ == vstd::utf8::encode_utf8(alpn_names(s@)[k])),
{
    let s = match alpn {
        Some(s) => s,
        None => {
            return None;
        },
    };
    let n = s.unicode_len();
    let mut out: Vec<Vec<u8>> = Vec::new();
    let mut start: usize = 0;
    let mut i: usize = 0;
    proof {
        assert(s@.take(0) =~= Seq::<char>::empty());
        assert(s@.subrange(0, 0) =~= Seq::<char>::empty());
    }
    while i < n
        invariant
            n == s@.len(),
            start <= i <= n,
            split_on(s@.take(i as int), ',').len() >= 1,
            split_on(s@.take(i as int), ',').last() == s@.subrange(start as int, i as int),
            out@.len() == nonblank_trimmed(split_on(s@.take(i as int), ',').drop_last()).len(),
            forall|k: int|
                0 <= k < out@.len() ==> (#[trigger] out@[k])@ == vstd::utf8::encode_utf8(
                    nonblank_trimmed(split_on(s@.take(i as int), ',').drop_last())[k],
                ),
        decreases n - i,
    {
        let c = s.get_char(i);
        let ghost before = split_on(s@.take(i as int), ',');
        proof {
            assert(s@.take(i + 1).drop_last() =~= s@.take(i as int));
            assert(s@.take(i + 1).last() == c);
        }
        if c == ',' {
            let piece = s.substring_char(start, i);
            let t = trim(piece);
            if t.unicode_len() > 0 {
                out.push(t.as_bytes_vec());
            }
            proof {
                let after = split_on(s@.take(i + 1), ',');
                assert(after == before.push(Seq::empty()));
                assert(after.drop_last() =~= before);
                assert(before.drop_last().push(before.last()) =~= before);
            }
            start = i + 1;
        } else {
            proof {
                let after = split_on(s@.take(i + 1), ',');
                assert(after.drop_last() =~= before.drop_last());
                assert(s@.subrange(start as int, i + 1) =~= s@.subrange(start as int, i as int).push(c));
            }
        }
        i = i + 1;
    }
    proof {
        assert(s@.take(n as int) =~= s@);
    }
    let piece = s.substring_char(start, n);
    let t = trim(piece);
    if t.unicode_len() > 0 {
        out.push(t.as_bytes_vec());
    }
    proof {
        let all = split_on(s@, ',');
        assert(all.drop_last().push(all.last()) =~= all);
    }
    if out.len() == 0 {
        None
    } else {
        Some(out)
    }
}

/// The transport name of a broker: its own, or `mqtts`/`mqtt` by whether it uses TLS.
pub open spec fn protocol_name(server: MqttServer) -> Seq<char> {
    match server.protocol {
        Some(p) => p@,
        None => if server.use_tls {
            "mqtts"@
        } else {
            "mqtt"@
        },
    }
}

/// Whether the transport a protocol name stands for runs over TLS.
pub open spec fn uses_tls(protocol: Seq<char>) -> bool {
    transport_of(protocol) == Some(TransportKind::Tls) || transport_of(protocol) == Some(TransportKind::Wss)
}

/// Why the TLS material of `server` cannot be read, if it cannot.
pub open spec fn server_tls_refusal(server: MqttServer) -> Option<Seq<char>> {
    tls_refusal(
        server.certificate_type@,
        opt_view(server.ca_cert),
        opt_view(server.client_cert),
        opt_view(server.client_key),
        opt_view(server.client_key_password),
    )
}

/// Why no connection can be configured for `server`, if it cannot.
pub open spec fn connection_refusal(server: MqttServer, packet_size_limit: usize) -> Option<Seq<char>> {
    let v = server.protocol_version@;
    if v != "3.1.1"@ && v != "5.0"@ {
        Some(unsupported_version_message(v))
    } else if server.keep_alive < 0 {
        Some("MQTT keep alive cannot be negative"@)
    } else if v == "5.0"@ && server.keep_alive < 5 {
        Some("MQTT 5.0 keep alive must be at least 5 seconds"@)
    } else if transport_of(protocol_name(server)) is None {
        Some("Unsupported MQTT transport protocol: "@ + protocol_name(server))
    } else if uses_tls(protocol_name(server)) && server_tls_refusal(server) is Some {
        server_tls_refusal(server)
    } else if v == "5.0"@ && packet_size_limit > u32::MAX {
        Some("MQTT packet size limit exceeds MQTT 5.0 range"@)
    } else {
        None
    }
}

/// User name and password, sent only when both are set and the name is not empty.
pub open spec fn credentials_of(server: MqttServer) -> Option<(String, String)> {
    match (server.username, server.password) {
        (Some(u), Some(p)) => if u@.len() > 0 {
            Some((u, p))
        } else {
            None
        },
        _ => None,
    }
}

/// The options of an MQTT connection to one broker.
#[derive(Debug)]
pub struct ConnectionSettings {
    pub protocol_version: MqttProtocolVersion,
    pub transport: TransportKind,
    pub client_id: String,
    /// The host, or the URL for WebSockets.
    pub broker_addr: String,
    pub port: u16,
    pub keep_alive_secs: u64,
    /// Clean session (3.1.1) or clean start (5.0).
    pub clean_session: bool,
    /// Set for a persistent MQTT 5.0 session, which then never expires.
    pub session_expiry_interval: Option<u32>,
    /// The largest packet accepted, in bytes, in both directions.
    pub max_packet_size: usize,
    pub credentials: Option<(String, String)>,
    /// What the TLS configuration is built from, for `mqtts` and `wss`.
    pub tls: Option<TlsMaterial>,
}

/// The settings that `server` is connected with, its client ID being
/// `fallback_client_id` when it has none.
pub open spec fn settings_match(
    c: ConnectionSettings,
    server: MqttServer,
    packet_size_limit: usize,
    fallback_client_id: Seq<char>,
) -> bool {
    let v = if server.protocol_version@ == "5.0"@ {
        MqttProtocolVersion::V5_0
    } else {
        MqttProtocolVersion::V3_1_1
    };
    &&& c.protocol_version == v
    &&& Some(c.transport) == transport_of(protocol_name(server))
    &&& c.client_id@ == match server.client_id {
        Some(id) => id@,
        None => fallback_client_id,
    }
    &&& c.broker_addr@ == broker_address(server.host@, server.port, protocol_name(server), opt_view(server.websocket_path))
    &&& c.port == server.port as u16
    &&& c.keep_alive_secs == server.keep_alive as u64
    &&& c.clean_session == server.clean_session
    &&& c.session_expiry_interval == if v == MqttProtocolVersion::V5_0 && !server.clean_session {
        Some(u32::MAX)
    } else {
        None
    }
    &&& c.max_packet_size == packet_size_limit
    &&& c.credentials == credentials_of(server)
    &&& uses_tls(protocol_name(server)) ==> (c.tls matches Some(t) && tls_material_matches(
        t,
        server.ssl_secure,
        opt_view(server.alpn),
        server.certificate_type@,
        opt_view(server.ca_cert),
        opt_view(server.client_cert),
        opt_view(server.client_key),
        opt_view(server.client_key_password),
    ))
    &&& !uses_tls(protocol_name(server)) ==> c.tls is None
}

/// The settings a broker is connected with follow the broker: its MQTT
/// version; its clean-session flag, with a persistent MQTT 5.0 session (and
/// only such a session) kept by the broker for good; its keep-alive; the
/// packet size limit; its client ID or else the fallback; its credentials
/// exactly when it has a non-empty user name and a password; a transport
/// named by its protocol, TLS when none is named and TLS is on; TLS material
/// exactly for the transports over TLS; and its host as the address of a
/// TCP or TLS connection.
pub proof fn law_settings_follow_the_broker(
    c: ConnectionSettings,
    server: MqttServer,
    packet_size_limit: usize,
    fallback_client_id: Seq<char>,
)
    requires
        settings_match(c, server, packet_size_limit, fallback_client_id),
    ensures
        (c.protocol_version == MqttProtocolVersion::V5_0) == (server.protocol_version@ == "5.0"@),
        c.clean_session == server.clean_session,
        c.protocol_version == MqttProtocolVersion::V5_0 && !server.clean_session ==> c.session_expiry_interval
            == Some(u32::MAX),
        server.clean_session ==> c.session_expiry_interval is None,
        c.protocol_version == MqttProtocolVersion::V3_1_1 ==> c.session_expiry_interval is None,
        server.keep_alive >= 0 ==> c.keep_alive_secs == server.keep_alive,
        c.max_packet_size == packet_size_limit,
        server.client_id matches Some(id) ==> c.client_id@ == id@,
        server.client_id is None ==> c.client_id@ == fallback_client_id,
        c.credentials is Some <==> (server.username is Some && server.username->0@.len() > 0
            && server.password is Some),
        c.credentials matches Some(cr) ==> cr.0 == server.username->0 && cr.1 == server.password->0,
        server.protocol matches Some(p) && p@ == "mqtt"@ ==> c.transport == TransportKind::Tcp,
        server.protocol matches Some(p) && p@ == "mqtts"@ ==> c.transport == TransportKind::Tls,
        server.protocol matches Some(p) && p@ == "ws"@ ==> c.transport == TransportKind::Ws,
        server.protocol matches Some(p) && p@ == "wss"@ ==> c.transport == TransportKind::Wss,
        server.protocol is None && server.use_tls ==> c.transport == TransportKind::Tls,
        server.protocol is None && !server.use_tls ==> c.transport == TransportKind::Tcp,
        c.tls is Some <==> (c.transport == TransportKind::Tls || c.transport == TransportKind::Wss),
        c.transport == TransportKind::Tcp || c.transport == TransportKind::Tls ==> c.broker_addr@ == server.host@,
        c.port == server.port as u16,
{
    reveal_strlit("mqtt");
    reveal_strlit("mqtts");
    reveal_strlit("ws");
    reveal_strlit("wss");
    reveal_strlit("5.0");
    reveal_strlit("3.1.1");
    assert("mqtts"@.len() != "mqtt"@.len());
    assert("mqtts"@ != "mqtt"@);
    assert("wss"@ != "ws"@ && "wss"@ != "mqtt"@ && "ws"@ != "mqtt"@ && "ws"@ != "mqtts"@ && "wss"@ != "mqtts"@) by {
        assert("wss"@.len() != "ws"@.len());
        assert("wss"@[0] != "mqtt"@[0]);
        assert("ws"@[0] != "mqtt"@[0]);
        assert("ws"@[0] != "mqtts"@[0]);
        assert("wss"@[0] != "mqtts"@[0]);
    }
}

/// A broker is refused for an unknown MQTT version, a negative keep-alive,
/// an MQTT 5.0 keep-alive under five seconds, an unknown transport, TLS
/// material that cannot be read, or an MQTT 5.0 packet size limit beyond
/// `u32::MAX`, checked in that order; any other broker gets settings.
pub proof fn law_when_a_broker_is_refused(server: MqttServer, packet_size_limit: usize)
    ensures
        ({
            let v = server.protocol_version@;
            let known = v == "3.1.1"@ || v == "5.0"@;
            let r = connection_refusal(server, packet_size_limit);
            &&& !known ==> r == Some(unsupported_version_message(v))
            &&& known && server.keep_alive < 0 ==> r == Some("MQTT keep alive cannot be negative"@)
            &&& v == "5.0"@ && 0 <= server.keep_alive < 5 ==> r == Some("MQTT 5.0 keep alive must be at least 5 seconds"@)
            &&& r is None <==> (known && server.keep_alive >= 0 && (v == "5.0"@ ==> server.keep_alive >= 5)
                && transport_of(protocol_name(server)) is Some && (uses_tls(protocol_name(server))
                ==> server_tls_refusal(server) is None) && (v == "5.0"@ ==> packet_size_limit <= u32::MAX))
        }),
{
}

/// The connection settings for `server`, or why there are none; a broker
/// without a client ID gets `fallback_client_id`.
pub fn connection_settings(server: &MqttServer, packet_size_limit: usize, fallback_client_id: String) -> (r: Result<
    ConnectionSettings,
    String,
>)
    ensures
        connection_refusal(*server, packet_size_limit) matches Some(m) ==> r is Err && r->Err_0@ == m,
        connection_refusal(*server, packet_size_limit) is None ==> (r matches Ok(c) && settings_match(
            c,
            *server,
            packet_size_limit,
            fallback_client_id@,
        )),
{
    let protocol_version = MqttProtocolVersion::try_from(server.protocol_version.as_str())?;
    if server.keep_alive < 0 {
        return Err(String::from_str("MQTT keep alive cannot be negative"));
    }
    let v5 = match protocol_version {
        MqttProtocolVersion::V5_0 => true,
        MqttProtocolVersion::V3_1_1 => false,
    };
    if v5 && server.keep_alive < 5 {
        return Err(String::from_str("MQTT 5.0 keep alive must be at least 5 seconds"));
    }
    let protocol: String = match &server.protocol {
        Some(p) => p.clone(),
        None => if server.use_tls {
            String::from_str("mqtts")
        } else {
            String::from_str("mqtt")
        },
    };
    let broker = broker_addr(server, protocol.as_str());
    let client_id = match &server.client_id {
        Some(id) => id.clone(),
        None => fallback_client_id,
    };
    let transport = transport_kind(protocol.as_str())?;
    let tls = match transport {
        TransportKind::Tls | TransportKind::Wss => {
            let material = build_tls_material(
                server.ssl_secure,
                opt_as_str(&server.alpn),
                server.certificate_type.as_str(),
                opt_as_str(&server.ca_cert),
                opt_as_str(&server.client_cert),
                opt_as_str(&server.client_key),
                opt_as_str(&server.client_key_password),
            );
            match material {
                Ok(m) => Some(m),
                Err(e) => {
                    return Err(e);
                },
            }
        },
        _ => None,
    };
    if v5 && packet_size_limit > 4294967295usize {
        return Err(String::from_str("MQTT packet size limit exceeds MQTT 5.0 range"));
    }
    let credentials = match (&server.username, &server.password) {
        (Some(u), Some(p)) => if u.as_str().unicode_len() > 0 {
            Some((u.clone(), p.clone()))
        } else {
            None
        },
        _ => None,
    };
    let session_expiry_interval = if v5 && !server.clean_session {
        Some(4294967295u32)
    } else {
        None
    };
    Ok(ConnectionSettings {
        protocol_version,
        transport,
        client_id,
        broker_addr: broker,
        port: server.port as u16,
        keep_alive_secs: server.keep_alive as u64,
        clean_session: server.clean_session,
        session_expiry_interval,
        max_packet_size: packet_size_limit,
        credentials,
        tls,
    })
}

/// The connection settings for `server`; a broker without a client ID gets
/// `mqtt_client_` followed by a fresh UUID.
pub fn build_connection(server: &MqttServer, packet_size_limit: usize) -> (r: Result<ConnectionSettings, String>)
    ensures
        connection_refusal(*server, packet_size_limit) matches Some(m) ==> r is Err && r->Err_0@ == m,
        connection_refusal(*server, packet_size_limit) is None ==> (r matches Ok(c) && settings_match(
            c,
            *server,
            packet_size_limit,
            c.client_id@,
        )),
        connection_refusal(*server, packet_size_limit) is None && server.client_id is None ==> (r matches Ok(c)
            && exists|generated: Seq<char>| c.client_id@ == "mqtt_client_"@ + generated),
{
    let generated = fresh_uuid();
    let fallback = join2("mqtt_client_", generated.as_str());
    proof {
        reveal_strlit("mqtt_client_");
    }
    let r = connection_settings(server, packet_size_limit, fallback);
    proof {
        if connection_refusal(*server, packet_size_limit) is None && server.client_id is None {
            assert(r->Ok_0.client_id@ == "mqtt_client_"@ + generated@);
        }
    }
    r
}

/// A broker ready to be connected: its ID, and the broker with a client ID
/// of `mqtt_client_` and `generated_id` when it had none or a blank one.
pub fn prepare_connect_with(server: MqttServer, generated_id: &str) -> (r: Result<(i64, MqttServer), String>)
    ensures
        server.id is None ==> r is Err && r->Err_0@ == "Server ID is required"@,
        server.id matches Some(id) ==> (r matches Ok(p) && p.0 == id && p.1 == (MqttServer {
            client_id: p.1.client_id,
            ..server
        }) && match server.client_id {
            Some(c) => if trimmed(c@).len() == 0 {
                opt_view(p.1.client_id) == Some("mqtt_client_"@ + generated_id@)
            } else {
                p.1.client_id == server.client_id
            },
            None => opt_view(p.1.client_id) == Some("mqtt_client_"@ + generated_id@),
        }),
{
    let id = match server.id {
        Some(id) => id,
        None => {
            return Err(String::from_str("Server ID is required"));
        },
    };
    let blank = match &server.client_id {
        Some(c) => trim(c.as_str()).unicode_len() == 0,
        None => true,
    };
    let mut server = server;
    if blank {
        server.client_id = Some(join2("mqtt_client_", generated_id));
    }
    Ok((id, server))
}

/// A broker ready to be connected, a blank client ID replaced by a fresh one.
pub fn prepare_connect(server: MqttServer) -> (r: Result<(i64, MqttServer), String>)
    ensures
        server.id is None ==> r is Err && r->Err_0@ == "Server ID is required"@,
        server.id matches Some(id) ==> (r matches Ok(p) && p.0 == id && p.1 == (MqttServer {
            client_id: p.1.client_id,
            ..server
        }) && p.1.client_id is Some && (server.client_id matches Some(c) ==> (trimmed(c@).len() > 0 ==> p.1.client_id
            == server.client_id))),
        server.id is Some && (server.client_id is None || trimmed(server.client_id->0@).len() == 0) ==> (r matches Ok(p)
            && exists|generated: Seq<char>| opt_view(p.1.client_id) == Some("mqtt_client_"@ + generated)),
{
    let generated = fresh_uuid();
    let r = prepare_connect_with(server, generated.as_str());
    proof {
        if server.id is Some && (server.client_id is None || trimmed(server.client_id->0@).len() == 0) {
            assert(opt_view(r->Ok_0.1.client_id) == Some("mqtt_client_"@ + generated@));
        }
    }
    r
}

/// What trimming the front keeps: a suffix that starts with no white space.
proof fn lemma_trim_start(s: Seq<char>)
    ensures
        trim_start_ws(s).len() <= s.len(),
        trim_start_ws(s) == s.subrange(s.len() - trim_start_ws(s).len(), s.len() as int),
        trim_start_ws(s).len() > 0 ==> !unicode_white_space(trim_start_ws(s)[0]),
    decreases s.len(),
{
    if s.len() > 0 && unicode_white_space(s[0]) {
        lemma_trim_start(s.drop_first());
        let t = trim_start_ws(s.drop_first());
        assert(s.drop_first().subrange(s.drop_first().len() - t.len(), s.drop_first().len() as int) =~= s.subrange(
            s.len() - t.len(),
            s.len() as int,
        ));
    } else {
        assert(s.subrange(0, s.len() as int) =~= s);
    }
}

/// What trimming the back keeps: a prefix that ends with no white space.
proof fn lemma_trim_end(s: Seq<char>)
    ensures
        trim_end_ws(s).len() <= s.len(),
        trim_end_ws(s) == s.subrange(0, trim_end_ws(s).len() as int),
        trim_end_ws(s).len() > 0 ==> !unicode_white_space(trim_end_ws(s).last()),
    decreases s.len(),
{
    if s.len() > 0 && unicode_white_space(s.last()) {
        lemma_trim_end(s.drop_last());
        let t = trim_end_ws(s.drop_last());
        assert(s.drop_last().subrange(0, t.len() as int) =~= s.subrange(0, t.len() as int));
    } else {
        assert(s.subrange(0, s.len() as int) =~= s);
    }
}

/// Trimmed text that is not empty starts and ends with no white space, and
/// trimming it again changes nothing.
proof fn lemma_trimmed_is_stable(s: Seq<char>)
    ensures
        trimmed(trimmed(s)) == trimmed(s),
{
    let a = trim_start_ws(s);
    lemma_trim_start(s);
    lemma_trim_end(a);
    let t = trim_end_ws(a);
    if t.len() > 0 {
        assert(t[0] == a[0]);
        assert(trim_start_ws(t) == t);
        assert(trim_end_ws(t) == t);
    } else {
        assert(trim_start_ws(t) == t);
        assert(trim_end_ws(t) == t);
    }
}

/// Every ALPN name that the setting yields is non-empty and has no white
/// space around it.
pub proof fn law_alpn_names_are_trimmed_and_nonblank(alpn: Seq<char>)
    ensures
        forall|k: int|
            0 <= k < alpn_names(alpn).len() ==> (#[trigger] alpn_names(alpn)[k]).len() > 0 && trimmed(alpn_names(alpn)[k])
                == alpn_names(alpn)[k],
{
    lemma_nonblank_trimmed(split_on(alpn, ','));
}

proof fn lemma_nonblank_trimmed(pieces: Seq<Seq<char>>)
    ensures
        forall|k: int|
            0 <= k < nonblank_trimmed(pieces).len() ==> (#[trigger] nonblank_trimmed(pieces)[k]).len() > 0 && trimmed(
                nonblank_trimmed(pieces)[k],
            ) == nonblank_trimmed(pieces)[k],
    decreases pieces.len(),
{
    if pieces.len() > 0 {
        lemma_nonblank_trimmed(pieces.drop_last());
        lemma_trimmed_is_stable(pieces.last());
        let rest = nonblank_trimmed(pieces.drop_last());
        let n = nonblank_trimmed(pieces);
        assert forall|k: int| 0 <= k < n.len() implies (#[trigger] n[k]).len() > 0 && trimmed(n[k]) == n[k] by {
            if k < rest.len() {
                assert(n[k] == rest[k]);
            }
        }
    }
}

} // verus!
