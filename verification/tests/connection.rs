use mini_mqtt_client::connection::{
    broker_addr, build_connection, connection_settings, decimal_string, parse_alpn_protocols,
    prepare_connect_with, signed_decimal_string, transport_kind, TransportKind,
};
use mini_mqtt_client::models::MqttServer;
use mini_mqtt_client::protocol::MqttProtocolVersion;
use mini_mqtt_client::tls::build_tls_material;

fn server(protocol: &str, websocket_path: Option<&str>) -> MqttServer {
    MqttServer {
        id: Some(1),
        name: "test".to_string(),
        host: "broker.example.com".to_string(),
        port: 8083,
        protocol: Some(protocol.to_string()),
        websocket_path: websocket_path.map(str::to_string),
        protocol_version: "5.0".to_string(),
        username: None,
        password: None,
        client_id: None,
        keep_alive: 60,
        clean_session: true,
        use_tls: false,
        ssl_secure: true,
        alpn: None,
        certificate_type: "ca_signed".to_string(),
        ca_cert: None,
        client_cert: None,
        client_key: None,
        client_key_password: None,
        created_at: None,
        updated_at: None,
    }
}

#[test]
fn unsupported_protocol_version_is_rejected_before_connecting() {
    let mut server = server("mqtt", None);
    server.protocol_version = "4.0".to_string();

    let error = build_connection(&server, 1024)
        .err()
        .expect("unsupported version should fail");

    assert_eq!(
        error,
        "Unsupported MQTT protocol version: 4.0. Supported versions: 3.1.1, 5.0"
    );
}

#[test]
fn mqtt_5_keep_alive_below_library_minimum_is_rejected() {
    let mut server = server("mqtt", None);
    server.keep_alive = 4;

    let error = build_connection(&server, 1024)
        .err()
        .expect("invalid keep alive should fail");

    assert_eq!(error, "MQTT 5.0 keep alive must be at least 5 seconds");
}

#[test]
fn websocket_broker_addr_appends_path() {
    assert_eq!(
        broker_addr(&server("ws", Some("mqtt")), "ws"),
        "ws://broker.example.com:8083/mqtt"
    );
    assert_eq!(
        broker_addr(&server("wss", Some("/mqtt")), "wss"),
        "wss://broker.example.com:8083/mqtt"
    );
}

#[test]
fn broker_addr_ignores_empty_or_tcp_paths() {
    assert_eq!(
        broker_addr(&server("ws", Some("   ")), "ws"),
        "ws://broker.example.com:8083"
    );
    assert_eq!(
        broker_addr(&server("mqtt", Some("mqtt")), "mqtt"),
        "broker.example.com"
    );
}

#[test]
fn parse_alpn_protocols_ignores_empty_values() {
    assert_eq!(
        parse_alpn_protocols(Some("mqtt, x-amzn-mqtt-ca,  ")),
        Some(vec![b"mqtt".to_vec(), b"x-amzn-mqtt-ca".to_vec()])
    );
    assert_eq!(parse_alpn_protocols(Some("  ")), None);
}

#[test]
fn ca_signed_mode_ignores_custom_certificate_fields() {
    let tls_config = build_tls_material(
        true,
        Some("mqtt"),
        "ca_signed",
        Some("not-a-valid-cert"),
        Some("not-a-valid-cert"),
        Some("not-a-valid-key"),
        None,
    );

    assert!(tls_config.is_ok());
}

#[test]
fn alpn_edge_cases() {
    assert_eq!(parse_alpn_protocols(None), None);
    assert_eq!(parse_alpn_protocols(Some("")), None);
    assert_eq!(parse_alpn_protocols(Some(",,")), None);
    assert_eq!(
        parse_alpn_protocols(Some("h2,,mqtt")),
        Some(vec![b"h2".to_vec(), b"mqtt".to_vec()])
    );
    assert_eq!(
        parse_alpn_protocols(Some("ünï")),
        Some(vec!["ünï".as_bytes().to_vec()])
    );
}

#[test]
fn decimal_writing() {
    assert_eq!(decimal_string(0), "0");
    assert_eq!(decimal_string(1883), "1883");
    assert_eq!(decimal_string(u64::MAX), u64::MAX.to_string());
    assert_eq!(signed_decimal_string(-8883), "-8883");
    assert_eq!(signed_decimal_string(i32::MIN), i32::MIN.to_string());
}

#[test]
fn transports_by_name() {
    assert_eq!(transport_kind("mqtt"), Ok(TransportKind::Tcp));
    assert_eq!(transport_kind("mqtts"), Ok(TransportKind::Tls));
    assert_eq!(transport_kind("ws"), Ok(TransportKind::Ws));
    assert_eq!(transport_kind("wss"), Ok(TransportKind::Wss));
    assert_eq!(
        transport_kind("quic"),
        Err("Unsupported MQTT transport protocol: quic".to_string())
    );
}

#[test]
fn connection_settings_follow_the_broker() {
    let mut s = server("wss", Some("mqtt"));
    s.clean_session = false;
    s.username = Some("user".to_string());
    s.password = Some("secret".to_string());
    let c = connection_settings(&s, 2048, "fallback".to_string()).unwrap();
    assert_eq!(c.protocol_version, MqttProtocolVersion::V5_0);
    assert_eq!(c.transport, TransportKind::Wss);
    assert_eq!(c.client_id, "fallback");
    assert_eq!(c.broker_addr, "wss://broker.example.com:8083/mqtt");
    assert_eq!(c.port, 8083);
    assert_eq!(c.keep_alive_secs, 60);
    assert!(!c.clean_session);
    assert_eq!(c.session_expiry_interval, Some(u32::MAX));
    assert_eq!(c.max_packet_size, 2048);
    assert_eq!(c.credentials, Some(("user".to_string(), "secret".to_string())));

    let mut v3 = server("mqtt", None);
    v3.protocol_version = "3.1.1".to_string();
    v3.keep_alive = 0;
    v3.clean_session = false;
    v3.client_id = Some("mine".to_string());
    v3.username = Some(String::new());
    v3.password = Some("x".to_string());
    let c = connection_settings(&v3, 1024, "fallback".to_string()).unwrap();
    assert_eq!(c.protocol_version, MqttProtocolVersion::V3_1_1);
    assert_eq!(c.client_id, "mine");
    assert_eq!(c.session_expiry_interval, None);
    assert_eq!(c.credentials, None);
    assert_eq!(c.broker_addr, "broker.example.com");
}

#[test]
fn connection_refusals() {
    let mut s = server("mqtt", None);
    s.keep_alive = -1;
    assert_eq!(
        build_connection(&s, 1024).unwrap_err(),
        "MQTT keep alive cannot be negative"
    );
    let mut s = server("tcp", None);
    s.protocol_version = "3.1.1".to_string();
    assert_eq!(
        build_connection(&s, 1024).unwrap_err(),
        "Unsupported MQTT transport protocol: tcp"
    );
    let mut s = server("mqtt", None);
    s.protocol = None;
    s.use_tls = true;
    let c = build_connection(&s, 1024).unwrap();
    assert_eq!(c.transport, TransportKind::Tls);
    assert!(c.client_id.starts_with("mqtt_client_"));
    if usize::BITS > 32 {
        let big = (u32::MAX as usize) + 1;
        assert_eq!(
            build_connection(&server("mqtt", None), big).unwrap_err(),
            "MQTT packet size limit exceeds MQTT 5.0 range"
        );
    }
}

#[test]
fn connecting_needs_an_id_and_fills_a_blank_client_id() {
    let mut s = server("mqtt", None);
    s.id = None;
    assert_eq!(prepare_connect_with(s, "u").unwrap_err(), "Server ID is required");
    let mut s = server("mqtt", None);
    s.client_id = Some("   ".to_string());
    let (id, prepared) = prepare_connect_with(s, "abc").unwrap();
    assert_eq!(id, 1);
    assert_eq!(prepared.client_id.as_deref(), Some("mqtt_client_abc"));
    let mut s = server("mqtt", None);
    s.client_id = Some("keep".to_string());
    let (_, prepared) = prepare_connect_with(s, "abc").unwrap();
    assert_eq!(prepared.client_id.as_deref(), Some("keep"));
}

#[test]
fn tls_material_is_read_before_the_packet_size_is_checked() {
    let mut s = server("mqtts", None);
    s.certificate_type = "self_signed".to_string();
    s.ca_cert = Some("-----BEGIN CERTIFICATE-----\nnot base64 at all!\n-----END CERTIFICATE-----\n".to_string());
    let limit = if usize::BITS > 32 { usize::MAX } else { 1024 };
    let error = build_connection(&s, limit).unwrap_err();
    assert!(error.starts_with("Failed to parse CA certificate: "));

    let ok = build_connection(&server("wss", None), 1024).unwrap();
    let material = ok.tls.unwrap();
    assert!(material.verify_server);
    assert!(material.extra_ca_certs.is_empty());
    assert!(build_connection(&server("ws", None), 1024).unwrap().tls.is_none());
}
