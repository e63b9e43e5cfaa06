use pkcs8::der::{Document, Encode};
use pkcs8::pkcs5::pbes2;
use pkcs8::{AlgorithmIdentifierRef, LineEnding, ObjectIdentifier, PrivateKeyInfo};

use rumqttc::tokio_rustls::rustls::crypto::aws_lc_rs::sign::any_supported_type;
use rumqttc::tokio_rustls::rustls::pki_types::{PrivateKeyDer, PrivatePkcs8KeyDer};

use mini_mqtt_client::tls::{
    build_tls_material, certificates_from_items, key_from_decryption, parse_certificates, parse_private_key,
    read_ca_certificates, KeyFormat,
};

const CERT_PEM: &str = "-----BEGIN CERTIFICATE-----\nMIIBczCCARmgAwIBAgIUPCgpN+Df9MllkalpG9rpZhIzCBwwCgYIKoZIzj0EAwIw\nDzENMAsGA1UEAwwEdGVzdDAeFw0yNjExMTgxOTIyMDZaFw0zNjExMTUxOTIyMDZa\nMA8xDTALBgNVBAMMBHRlc3QwWTATBgcqhkjOPQIBBggqhkjOPQMBBwNCAASy3fGe\n03OTECIaWU1ruGzbdJ20OH6CRvPKszkXr91d5nCpHuQZ8tad/4pYxPGnMO95Pqz+\nGYCPKVgFUZxnmQZxo1MwUTAdBgNVHQ4EFgQUZXJu/2xWBydswTDR8jfjHVn+pJAw\nHwYDVR0jBBgwFoAUZXJu/2xWBydswTDR8jfjHVn+pJAwDwYDVR0TAQH/BAUwAwEB\n/zAKBggqhkjOPQQDAgNIADBFAiAhdKwKTKU8O9o7xvbv1IzBcEceZFRiBZ708d9m\nYGwKKwIhAK25AG779m6eTmLyX68XaaZ6n33BnRBsVUYPxB4DfPFe\n-----END CERTIFICATE-----\n";

/// The DER of a PKCS#8 key made for these tests (an EC key whose private
/// part is filler bytes; nothing here checks the key itself).
fn test_key_der() -> Vec<u8> {
    let secret = [7u8; 32];
    let algorithm = AlgorithmIdentifierRef {
        oid: ObjectIdentifier::new_unwrap("1.2.840.10045.2.1"),
        parameters: None,
    };
    PrivateKeyInfo::new(algorithm, &secret).to_der().unwrap()
}

/// A P-256 key in PKCS#8 whose scalar is filler bytes, which rustls loads.
fn p256_key_der() -> Vec<u8> {
    let mut der = vec![
        0x30, 0x41, 0x02, 0x01, 0x00, 0x30, 0x13, 0x06, 0x07, 0x2a, 0x86, 0x48, 0xce, 0x3d, 0x02, 0x01, 0x06, 0x08,
        0x2a, 0x86, 0x48, 0xce, 0x3d, 0x03, 0x01, 0x07, 0x04, 0x27, 0x30, 0x25, 0x02, 0x01, 0x01, 0x04, 0x20,
    ];
    der.extend_from_slice(&[7u8; 32]);
    der
}

fn p256_key_pem() -> String {
    Document::try_from(p256_key_der()).unwrap().to_pem("PRIVATE KEY", LineEnding::LF).unwrap()
}

/// `CERT_PEM` with its public key replaced by that of the P-256 test key.
fn matching_cert_pem() -> String {
    let key = any_supported_type(&PrivateKeyDer::Pkcs8(PrivatePkcs8KeyDer::from(p256_key_der()))).unwrap();
    let spki = key.public_key().unwrap().as_ref().to_vec();
    let mut cert = parse_certificates(CERT_PEM, "certificate").unwrap().remove(0);
    let header = [0x30u8, 0x59, 0x30, 0x13, 0x06, 0x07, 0x2a, 0x86, 0x48, 0xce, 0x3d, 0x02, 0x01];
    let at = cert.windows(header.len()).position(|w| w == header).unwrap();
    assert_eq!(spki.len(), 91);
    cert.splice(at..at + 91, spki);
    Document::try_from(cert).unwrap().to_pem("CERTIFICATE", LineEnding::LF).unwrap()
}

/// The test key in PEM.
fn key_pem() -> String {
    let document = Document::try_from(test_key_der()).unwrap();
    document.to_pem("PRIVATE KEY", LineEnding::LF).unwrap()
}

/// The test key encrypted with `password`, in PEM.
fn encrypted_key_pem(password: &str) -> String {
    let secret = [7u8; 32];
    let algorithm = AlgorithmIdentifierRef {
        oid: ObjectIdentifier::new_unwrap("1.2.840.10045.2.1"),
        parameters: None,
    };
    let salt = [1u8; 16];
    let iv = [2u8; 16];
    let params = pbes2::Parameters::pbkdf2_sha256_aes128cbc(2048, &salt, &iv).unwrap();
    let encrypted = PrivateKeyInfo::new(algorithm, &secret)
        .encrypt_with_params(params, password)
        .unwrap();
    encrypted.to_pem("ENCRYPTED PRIVATE KEY", LineEnding::LF).unwrap().to_string()
}

const NO_KEY: &str =
    "No valid private key found in PEM. If the key is encrypted, please provide the password.";

#[test]
fn certificates_are_read_from_pem() {
    let certs = parse_certificates(CERT_PEM, "CA certificate").unwrap();
    assert_eq!(certs.len(), 1);
    assert_eq!(certs[0].len(), 375);
    assert_eq!(parse_certificates("no pem here", "CA certificate").unwrap().len(), 0);
    let broken = "-----BEGIN CERTIFICATE-----\nnot base64 at all!\n-----END CERTIFICATE-----\n";
    let error = parse_certificates(broken, "client certificate").unwrap_err();
    assert!(error.starts_with("Failed to parse client certificate: "));
}

#[test]
fn plain_and_encrypted_keys_are_read() {
    let plain = parse_private_key(&key_pem(), None).unwrap();
    assert_eq!(plain.format, KeyFormat::Pkcs8);
    assert_eq!(plain.der, test_key_der());
    let decrypted = parse_private_key(&encrypted_key_pem("secret"), Some("secret")).unwrap();
    assert_eq!(decrypted.format, KeyFormat::Pkcs8);
    assert_eq!(decrypted.der, plain.der);
}

#[test]
fn key_errors_name_their_cause() {
    let encrypted = encrypted_key_pem("secret");
    assert_eq!(parse_private_key(&encrypted, None).unwrap_err(), NO_KEY);
    assert_eq!(parse_private_key(&encrypted, Some("")).unwrap_err(), NO_KEY);
    assert_eq!(parse_private_key(CERT_PEM, Some("secret")).unwrap_err(), NO_KEY);
    let wrong = parse_private_key(&encrypted, Some("wrong")).unwrap_err();
    assert!(wrong.starts_with("Failed to decrypt private key (wrong password?): "));
    let garbage = parse_private_key("garbage", Some("pw")).unwrap_err();
    assert!(garbage.starts_with("Failed to parse PEM: "));
}

#[test]
fn self_signed_brokers_use_their_certificates() {
    let m = build_tls_material(
        false,
        None,
        "self_signed",
        Some(CERT_PEM),
        Some(&matching_cert_pem()),
        Some(&p256_key_pem()),
        None,
    )
    .unwrap();
    assert!(!m.verify_server);
    assert_eq!(m.extra_ca_certs.len(), 1);
    let (chain, key) = m.client_auth.unwrap();
    assert_eq!(chain.len(), 1);
    assert_eq!(key.format, KeyFormat::Pkcs8);
    assert_eq!(m.alpn_protocols, None);

    let no_auth = build_tls_material(true, Some("mqtt"), "self_signed", Some("  "), Some(CERT_PEM), Some(" "), None)
        .unwrap();
    assert!(no_auth.extra_ca_certs.is_empty());
    assert!(no_auth.client_auth.is_none());
    assert_eq!(no_auth.alpn_protocols, Some(vec![b"mqtt".to_vec()]));

    let bad_key = build_tls_material(true, None, "self_signed", None, Some(CERT_PEM), Some(CERT_PEM), None);
    assert_eq!(bad_key.unwrap_err(), NO_KEY);
}

#[test]
fn reading_errors_are_named() {
    assert_eq!(certificates_from_items(vec![Ok(vec![1u8])], "CA certificate"), Ok(vec![vec![1u8]]));
    assert_eq!(
        certificates_from_items(
            vec![Ok(vec![1u8]), Err("bad base64".to_string()), Err("later".to_string())],
            "CA certificate"
        ),
        Err("Failed to parse CA certificate: bad base64".to_string())
    );
    assert_eq!(certificates_from_items(vec![], "client certificate"), Ok(vec![]));
    let key = key_from_decryption(Ok(vec![7u8, 8])).unwrap();
    assert_eq!(key.format, KeyFormat::Pkcs8);
    assert_eq!(key.der, vec![7u8, 8]);
    assert_eq!(
        key_from_decryption(Err((true, "truncated".to_string()))).unwrap_err(),
        "Failed to parse encrypted private key: truncated"
    );
    assert_eq!(
        key_from_decryption(Err((false, "mac mismatch".to_string()))).unwrap_err(),
        "Failed to decrypt private key (wrong password?): mac mismatch"
    );
}

/// A certificate section whose bytes are no certificate.
const NOT_A_CERT_PEM: &str = "-----BEGIN CERTIFICATE-----\nAAAA\n-----END CERTIFICATE-----\n";

#[test]
fn ca_certificates_are_trusted_one_by_one() {
    let good = read_ca_certificates(CERT_PEM).unwrap();
    assert_eq!(good.len(), 1);
    assert_eq!(good[0].len(), 375);

    let refused = read_ca_certificates(NOT_A_CERT_PEM).unwrap_err();
    assert!(refused.starts_with("Failed to add CA certificate: "));

    let broken = "-----BEGIN CERTIFICATE-----\nnot base64 at all!\n-----END CERTIFICATE-----\n";
    let refused_first = read_ca_certificates(&format!("{NOT_A_CERT_PEM}{broken}")).unwrap_err();
    assert!(refused_first.starts_with("Failed to add CA certificate: "));
    let broken_first = read_ca_certificates(&format!("{CERT_PEM}{broken}{NOT_A_CERT_PEM}")).unwrap_err();
    assert!(broken_first.starts_with("Failed to parse CA certificate: "));
}

#[test]
fn an_untrusted_ca_is_reported_before_the_client_key() {
    let error = build_tls_material(
        true,
        None,
        "self_signed",
        Some(NOT_A_CERT_PEM),
        Some(CERT_PEM),
        Some(CERT_PEM),
        None,
    )
    .unwrap_err();
    assert!(error.starts_with("Failed to add CA certificate: "));
}

#[test]
fn a_key_that_does_not_match_the_certificate_is_refused() {
    let mismatch =
        build_tls_material(true, None, "self_signed", None, Some(CERT_PEM), Some(&p256_key_pem()), None).unwrap_err();
    assert!(mismatch.starts_with("Failed to configure client auth: "), "{mismatch}");
    let matching =
        build_tls_material(true, None, "self_signed", None, Some(&matching_cert_pem()), Some(&p256_key_pem()), None)
            .unwrap();
    assert!(matching.client_auth.is_some());
}
