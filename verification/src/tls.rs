//! The TLS material of a broker reached over `mqtts` or `wss`: which
//! certificates and which client key to use, read from PEM text, and the
//! ALPN protocols to offer. Decoding PEM and decrypting keys is left to the
//! `rustls-pemfile`, `pem` and `pkcs8` crates.
use vstd::prelude::*;
use pkcs8::der::Decode;
use rumqttc::tokio_rustls::rustls::crypto::aws_lc_rs;
use rumqttc::tokio_rustls::rustls::pki_types::{CertificateDer, PrivateKeyDer};
use rumqttc::tokio_rustls::rustls::sign::CertifiedKey;
use rumqttc::tokio_rustls::rustls::RootCertStore;
use vstd::string::StrSliceExecFns;
use crate::connection::parse_alpn_protocols;
use crate::text::{join2, opt_str_view, opt_view, str_equals, trim, trimmed};

verus! {

/// The encodings of a DER private key.
#[derive(Debug, Clone, Copy, PartialEq, Eq, Structural)]
pub enum KeyFormat {
    Pkcs1,
    Sec1,
    Pkcs8,
}

/// A DER-encoded private key.
#[derive(Debug)]
pub struct PrivateKey {
    pub format: KeyFormat,
    pub der: Vec<u8>,
}

/// What `rustls_pemfile::certs` yields over PEM text, in order: each
/// certificate (DER) or the text of an error.
pub uninterp spec fn pem_certificate_items_of(pem: Seq<char>) -> Seq<Result<Seq<u8>, Seq<char>>>;

/// Why `RootCertStore::add` refuses a certificate (DER) as a trust anchor,
/// as text, or `None` when it accepts it.
pub uninterp spec fn trust_anchor_error_of(der: Seq<u8>) -> Option<Seq<char>>;

/// Why rustls refuses a client certificate chain (DER) with a private key
/// (its format and DER bytes) for client authentication, as text, or `None`
/// when it accepts them.
pub uninterp spec fn client_auth_error_of(chain: Seq<Seq<u8>>, format: KeyFormat, key: Seq<u8>) -> Option<Seq<char>>;

/// The first private key that `rustls_pemfile::private_key` reads from PEM
/// text (its format and DER bytes), or the text of its error.
pub uninterp spec fn pem_private_key_of(pem: Seq<char>) -> Result<Option<(KeyFormat, Seq<u8>)>, Seq<char>>;

/// The label and contents of the first PEM block that `pem::parse` reads,
/// or the text of its error.
pub uninterp spec fn pem_block_of(text: Seq<char>) -> Result<(Seq<char>, Seq<u8>), Seq<char>>;

/// The PKCS#8 key that an encrypted PKCS#8 structure (DER) decrypts to with
/// a password; on failure whether the structure itself was malformed, and
/// the text of the error.
pub uninterp spec fn pkcs8_decrypted_of(der: Seq<u8>, password: Seq<char>) -> Result<Seq<u8>, (bool, Seq<char>)>;

/// The byte views of a list of byte vectors.
pub open spec fn byte_lists(v: Seq<Vec<u8>>) -> Seq<Seq<u8>> {
    v.map_values(|b: Vec<u8>| b@)
}

pub open spec fn certificates_view(r: Result<Vec<Vec<u8>>, String>) -> Result<Seq<Seq<u8>>, Seq<char>> {
    match r {
        Ok(v) => Ok(byte_lists(v@)),
        Err(e) => Err(e@),
    }
}

pub open spec fn item_view(x: Result<Vec<u8>, String>) -> Result<Seq<u8>, Seq<char>> {
    match x {
        Ok(v) => Ok(v@),
        Err(e) => Err(e@),
    }
}

/// The views of the items read from PEM text.
pub open spec fn item_views(items: Seq<Result<Vec<u8>, String>>) -> Seq<Result<Seq<u8>, Seq<char>>> {
    items.map_values(|x: Result<Vec<u8>, String>| item_view(x))
}

/// The certificates read in order up to the first error, or that error.
pub open spec fn read_certificates(items: Seq<Result<Seq<u8>, Seq<char>>>) -> Result<Seq<Seq<u8>>, Seq<char>>
    decreases items.len(),
{
    if items.len() == 0 {
        Ok(Seq::empty())
    } else {
        match read_certificates(items.drop_last()) {
            Err(e) => Err(e),
            Ok(certs) => match items.last() {
                Ok(c) => Ok(certs.push(c)),
                Err(e) => Err(e),
            },
        }
    }
}

/// The CA certificates, each read and then trusted in turn: the first one
/// that fails to be read or to be trusted gives the error.
pub open spec fn trusted_ca_certificates(items: Seq<Result<Seq<u8>, Seq<char>>>) -> Result<Seq<Seq<u8>>, Seq<char>>
    decreases items.len(),
{
    if items.len() == 0 {
        Ok(Seq::empty())
    } else {
        match trusted_ca_certificates(items.drop_last()) {
            Err(e) => Err(e),
            Ok(certs) => match items.last() {
                Err(e) => Err("Failed to parse CA certificate: "@ + e),
                Ok(c) => match trust_anchor_error_of(c) {
                    Some(e) => Err("Failed to add CA certificate: "@ + e),
                    None => Ok(certs.push(c)),
                },
            },
        }
    }
}

/// Once reading fails on a prefix, it fails the same way on the whole.
proof fn lemma_read_error_sticks(items: Seq<Result<Seq<u8>, Seq<char>>>, k: int)
    requires
        0 <= k <= items.len(),
        read_certificates(items.take(k)) is Err,
    ensures
        read_certificates(items) == read_certificates(items.take(k)),
    decreases items.len(),
{
    if k == items.len() {
        assert(items.take(k) =~= items);
    } else {
        assert(items.drop_last().take(k) =~= items.take(k));
        lemma_read_error_sticks(items.drop_last(), k);
    }
}

/// Once trusting fails on a prefix, it fails the same way on the whole.
proof fn lemma_trust_error_sticks(items: Seq<Result<Seq<u8>, Seq<char>>>, k: int)
    requires
        0 <= k <= items.len(),
        trusted_ca_certificates(items.take(k)) is Err,
    ensures
        trusted_ca_certificates(items) == trusted_ca_certificates(items.take(k)),
    decreases items.len(),
{
    if k == items.len() {
        assert(items.take(k) =~= items);
    } else {
        assert(items.drop_last().take(k) =~= items.take(k));
        lemma_trust_error_sticks(items.drop_last(), k);
    }
}

pub open spec fn key_view(k: PrivateKey) -> (KeyFormat, Seq<u8>) {
    (k.format, k.der@)
}

pub open spec fn key_result_view(r: Result<PrivateKey, String>) -> Result<(KeyFormat, Seq<u8>), Seq<char>> {
    match r {
        Ok(k) => Ok(key_view(k)),
        Err(e) => Err(e@),
    }
}

/// `rustls_pemfile::certs` over the bytes of `pem`: what the iterator
/// yields, in order, each certificate section DER-encoded or an error as
/// text. The contract names the result and claims nothing more of it.
#[verifier::external_body]
fn pem_certificate_items(pem: &str) -> (r: Vec<Result<Vec<u8>, String>>)
    ensures
        item_views(r@) == pem_certificate_items_of(pem@),
{
    let mut reader = std::io::BufReader::new(pem.as_bytes());
    rustls_pemfile::certs(&mut reader).map(|c| c.map(|d| d.to_vec()).map_err(|e| e.to_string())).collect()
}

/// `RootCertStore::add` of the certificate `der` to an empty store: the
/// error as text, or `None` when the certificate is taken as a trust
/// anchor. It reads the certificate alone; the contract names the result.
#[verifier::external_body]
fn trust_anchor_error(der: &[u8]) -> (r: Option<String>)
    ensures
        opt_view(r) == trust_anchor_error_of(der@),
{
    let mut store = RootCertStore::empty();
    store.add(CertificateDer::from(der.to_vec())).err().map(|e| e.to_string())
}

/// `rustls_pemfile::private_key` over the bytes of `pem`: the first key
/// section (PKCS#1, SEC1 or PKCS#8) with its DER bytes, none, or the error.
/// The source yields no other key kind; the contract names the result.
#[verifier::external_body]
fn pem_first_private_key(pem: &str) -> (r: Result<Option<PrivateKey>, String>)
    ensures
        match r {
            Ok(Some(k)) => pem_private_key_of(pem@) == Ok::<Option<(KeyFormat, Seq<u8>)>, Seq<char>>(Some(key_view(k))),
            Ok(None) => pem_private_key_of(pem@) == Ok::<Option<(KeyFormat, Seq<u8>)>, Seq<char>>(None),
            Err(e) => pem_private_key_of(pem@) == Err::<Option<(KeyFormat, Seq<u8>)>, Seq<char>>(e@),
        },
{
    let mut reader = std::io::BufReader::new(pem.as_bytes());
    match rustls_pemfile::private_key(&mut reader) {
        Ok(Some(PrivateKeyDer::Pkcs1(k))) => Ok(Some(PrivateKey { format: KeyFormat::Pkcs1, der: k.secret_pkcs1_der().to_vec() })),
        Ok(Some(PrivateKeyDer::Sec1(k))) => Ok(Some(PrivateKey { format: KeyFormat::Sec1, der: k.secret_sec1_der().to_vec() })),
        Ok(Some(PrivateKeyDer::Pkcs8(k))) => Ok(Some(PrivateKey { format: KeyFormat::Pkcs8, der: k.secret_pkcs8_der().to_vec() })),
        Ok(_) => Ok(None),
        Err(e) => Err(e.to_string()),
    }
}

/// `CertifiedKey::from_der` with the aws-lc-rs provider, the check that
/// `ConfigBuilder::with_client_auth_cert` makes: the key must load and must
/// match the end-entity certificate. The error as text, or `None`. It reads
/// the chain and the key alone; the contract names the result.
#[verifier::external_body]
fn client_auth_error(chain: &Vec<Vec<u8>>, key: &PrivateKey) -> (r: Option<String>)
    ensures
        opt_view(r) == client_auth_error_of(byte_lists(chain@), key.format, key.der@),
{
    let certs: Vec<CertificateDer<'static>> = chain.iter().map(|c| CertificateDer::from(c.clone())).collect();
    let der = match key.format {
        KeyFormat::Pkcs1 => PrivateKeyDer::Pkcs1(key.der.clone().into()),
        KeyFormat::Sec1 => PrivateKeyDer::Sec1(key.der.clone().into()),
        KeyFormat::Pkcs8 => PrivateKeyDer::Pkcs8(key.der.clone().into()),
    };
    CertifiedKey::from_der(certs, der, &aws_lc_rs::default_provider()).err().map(|e| e.to_string())
}

/// `pem::parse`: the label and contents of the first PEM block of `text`,
/// or the error. The contract names the result.
#[verifier::external_body]
fn pem_block(text: &str) -> (r: Result<(String, Vec<u8>), String>)
    ensures
        match r {
            Ok((tag, contents)) => pem_block_of(text@) == Ok::<(Seq<char>, Seq<u8>), Seq<char>>((tag@, contents@)),
            Err(e) => pem_block_of(text@) == Err::<(Seq<char>, Seq<u8>), Seq<char>>(e@),
        },
{
    pem::parse(text).map(|p| (p.tag().to_string(), p.into_contents())).map_err(|e| e.to_string())
}

/// `pkcs8::EncryptedPrivateKeyInfo::from_der` on `der`, then its `decrypt`
/// with `password`: the decrypted PKCS#8 DER, or the error, marked `true`
/// when it came from reading the structure. The contract names the result.
#[verifier::external_body]
fn decrypt_pkcs8(der: &[u8], password: &str) -> (r: Result<Vec<u8>, (bool, String)>)
    ensures
        match r {
            Ok(d) => pkcs8_decrypted_of(der@, password@) == Ok::<Seq<u8>, (bool, Seq<char>)>(d@),
            Err((malformed, e)) => pkcs8_decrypted_of(der@, password@) == Err::<Seq<u8>, (bool, Seq<char>)>((malformed, e@)),
        },
{
    let info = pkcs8::EncryptedPrivateKeyInfo::from_der(der).map_err(|e| (true, e.to_string()))?;
    info.decrypt(password).map(|d| d.as_bytes().to_vec()).map_err(|e| (false, e.to_string()))
}

/// The certificates read up to the first error, or that error named after
/// what the certificates are.
pub fn certificates_from_items(items: Vec<Result<Vec<u8>, String>>, what: &str) -> (r: Result<Vec<Vec<u8>>, String>)
    ensures
        match read_certificates(item_views(items@)) {
            Ok(list) => r matches Ok(v) && byte_lists(v@) == list,
            Err(e) => r matches Err(m) && m@ == "Failed to parse "@ + what@ + ": "@ + e,
        },
{
    let ghost all = item_views(items@);
    let mut certs: Vec<Vec<u8>> = Vec::new();
    let n = items.len();
    let mut i: usize = 0;
    proof {
        assert(all.take(0) =~= Seq::<Result<Seq<u8>, Seq<char>>>::empty());
        assert(byte_lists(certs@) =~= Seq::<Seq<u8>>::empty());
    }
    while i < n
        invariant
            n == items.len(),
            i <= n,
            all == item_views(items@),
            read_certificates(all.take(i as int)) == Ok::<Seq<Seq<u8>>, Seq<char>>(byte_lists(certs@)),
        decreases n - i,
    {
        proof {
            assert(all.take(i + 1).drop_last() =~= all.take(i as int));
            assert(all.take(i + 1).last() == item_view(items@[i as int]));
        }
        match &items[i] {
            Ok(c) => {
                let ghost before = certs@;
                let copy = c.clone();
                proof {
                    assert(copy@ =~= c@);
                }
                certs.push(copy);
                proof {
                    assert(byte_lists(certs@) =~= byte_lists(before).push(c@));
                }
            },
            Err(e) => {
                proof {
                    lemma_read_error_sticks(all, i + 1);
                }
                let mut m = join2("Failed to parse ", what);
                m.append(": ");
                m.append(e.as_str());
                return Err(m);
            },
        }
        i = i + 1;
    }
    proof {
        assert(all.take(n as int) =~= all);
    }
    Ok(certs)
}

/// The certificates in `pem`, or the error, named after what they are.
pub fn parse_certificates(pem: &str, what: &str) -> (r: Result<Vec<Vec<u8>>, String>)
    ensures
        match read_certificates(pem_certificate_items_of(pem@)) {
            Ok(list) => r matches Ok(v) && byte_lists(v@) == list,
            Err(e) => r matches Err(m) && m@ == "Failed to parse "@ + what@ + ": "@ + e,
        },
{
    certificates_from_items(pem_certificate_items(pem), what)
}

/// The CA certificates in `pem`, each read and taken as a trust anchor in
/// turn, or the first failure.
pub fn read_ca_certificates(pem: &str) -> (r: Result<Vec<Vec<u8>>, String>)
    ensures
        certificates_view(r) == trusted_ca_certificates(pem_certificate_items_of(pem@)),
{
    proof {
        reveal_strlit("Failed to parse CA certificate: ");
        reveal_strlit("Failed to add CA certificate: ");
    }
    let items = pem_certificate_items(pem);
    let ghost all = item_views(items@);
    let mut certs: Vec<Vec<u8>> = Vec::new();
    let n = items.len();
    let mut i: usize = 0;
    proof {
        assert(all.take(0) =~= Seq::<Result<Seq<u8>, Seq<char>>>::empty());
        assert(byte_lists(certs@) =~= Seq::<Seq<u8>>::empty());
    }
    while i < n
        invariant
            n == items.len(),
            i <= n,
            all == item_views(items@),
            all == pem_certificate_items_of(pem@),
            trusted_ca_certificates(all.take(i as int)) == Ok::<Seq<Seq<u8>>, Seq<char>>(byte_lists(certs@)),
        decreases n - i,
    {
        proof {
            assert(all.take(i + 1).drop_last() =~= all.take(i as int));
            assert(all.take(i + 1).last() == item_view(items@[i as int]));
        }
        match &items[i] {
            Ok(c) => {
                match trust_anchor_error(c.as_slice()) {
                    Some(e) => {
                        proof {
                            lemma_trust_error_sticks(all, i + 1);
                        }
                        return Err(join2("Failed to add CA certificate: ", e.as_str()));
                    },
                    None => {},
                }
                let ghost before = certs@;
                let copy = c.clone();
                proof {
                    assert(copy@ =~= c@);
                }
                certs.push(copy);
                proof {
                    assert(byte_lists(certs@) =~= byte_lists(before).push(c@));
                }
            },
            Err(e) => {
                proof {
                    lemma_trust_error_sticks(all, i + 1);
                }
                return Err(join2("Failed to parse CA certificate: ", e.as_str()));
            },
        }
        i = i + 1;
    }
    proof {
        assert(all.take(n as int) =~= all);
    }
    Ok(certs)
}

/// The message when no usable key is found.
pub open spec fn no_key_message() -> Seq<char> {
    "No valid private key found in PEM. If the key is encrypted, please provide the password."@
}

/// The key an encrypted PKCS#8 key decrypts to, or the matching error.
pub open spec fn decrypted_key_outcome(decrypted: Result<Seq<u8>, (bool, Seq<char>)>) -> Result<
    (KeyFormat, Seq<u8>),
    Seq<char>,
> {
    match decrypted {
        Ok(d) => Ok((KeyFormat::Pkcs8, d)),
        Err((true, e)) => Err("Failed to parse encrypted private key: "@ + e),
        Err((false, e)) => Err("Failed to decrypt private key (wrong password?): "@ + e),
    }
}

/// The private key in `pem`: a plain key if there is one, else, with a
/// non-empty password, an encrypted PKCS#8 key decrypted with it.
pub open spec fn private_key_outcome(pem: Seq<char>, password: Option<Seq<char>>) -> Result<(KeyFormat, Seq<u8>), Seq<char>> {
    match pem_private_key_of(pem) {
        Ok(Some(k)) => Ok(k),
        _ => match password {
            Some(pw) => if pw.len() == 0 {
                Err(no_key_message())
            } else {
                match pem_block_of(pem) {
                    Err(e) => Err("Failed to parse PEM: "@ + e),
                    Ok((tag, contents)) => if tag == "ENCRYPTED PRIVATE KEY"@ {
                        decrypted_key_outcome(pkcs8_decrypted_of(contents, pw))
                    } else {
                        Err(no_key_message())
                    },
                }
            },
            None => Err(no_key_message()),
        },
    }
}

/// The key, or the error, after decrypting an encrypted PKCS#8 key.
pub fn key_from_decryption(decrypted: Result<Vec<u8>, (bool, String)>) -> (r: Result<PrivateKey, String>)
    ensures
        key_result_view(r) == decrypted_key_outcome(
            match decrypted {
                Ok(d) => Ok(d@),
                Err((m, e)) => Err((m, e@)),
            },
        ),
{
    match decrypted {
        Ok(der) => Ok(PrivateKey { format: KeyFormat::Pkcs8, der }),
        Err((true, e)) => Err(join2("Failed to parse encrypted private key: ", e.as_str())),
        Err((false, e)) => Err(join2("Failed to decrypt private key (wrong password?): ", e.as_str())),
    }
}

/// Reads the private key of a client certificate, plain or encrypted.
pub fn parse_private_key(key_pem: &str, password: Option<&str>) -> (r: Result<PrivateKey, String>)
    ensures
        key_result_view(r) == private_key_outcome(key_pem@, opt_str_view(password)),
{
    match pem_first_private_key(key_pem) {
        Ok(Some(key)) => {
            return Ok(key);
        },
        _ => {},
    }
    let no_key = "No valid private key found in PEM. If the key is encrypted, please provide the password.";
    let pwd = match password {
        Some(p) => p,
        None => {
            return Err(String::from_str(no_key));
        },
    };
    if pwd.unicode_len() == 0 {
        return Err(String::from_str(no_key));
    }
    let (tag, contents) = match pem_block(key_pem) {
        Ok(block) => block,
        Err(e) => {
            return Err(join2("Failed to parse PEM: ", e.as_str()));
        },
    };
    if !str_equals(tag.as_str(), "ENCRYPTED PRIVATE KEY") {
        return Err(String::from_str(no_key));
    }
    key_from_decryption(decrypt_pkcs8(contents.as_slice(), pwd))
}

/// The PEM text of extra CA certificates: set only for self-signed brokers,
/// and only when not blank.
pub open spec fn custom_ca_pem(certificate_type: Seq<char>, ca_cert: Option<Seq<char>>) -> Option<Seq<char>> {
    match ca_cert {
        Some(ca) => if certificate_type == "self_signed"@ && trimmed(ca).len() > 0 {
            Some(ca)
        } else {
            None
        },
        None => None,
    }
}

/// The PEM texts of the client certificate and key: set only for
/// self-signed brokers, and only when neither is blank.
pub open spec fn client_auth_pems(certificate_type: Seq<char>, cert: Option<Seq<char>>, key: Option<Seq<char>>) -> Option<
    (Seq<char>, Seq<char>),
> {
    match (cert, key) {
        (Some(c), Some(k)) => if certificate_type == "self_signed"@ && trimmed(c).len() > 0 && trimmed(k).len() > 0 {
            Some((c, k))
        } else {
            None
        },
        _ => None,
    }
}

/// Why no TLS material can be read, if it cannot: the first of the CA
/// certificates (read and trusted one by one), the client certificate, the
/// client key and their use together for client authentication that fails.
pub open spec fn tls_refusal(
    certificate_type: Seq<char>,
    ca_cert: Option<Seq<char>>,
    client_cert: Option<Seq<char>>,
    client_key: Option<Seq<char>>,
    client_key_password: Option<Seq<char>>,
) -> Option<Seq<char>> {
    let ca_failure = match custom_ca_pem(certificate_type, ca_cert) {
        Some(p) => match trusted_ca_certificates(pem_certificate_items_of(p)) {
            Err(e) => Some(e),
            Ok(_) => None,
        },
        None => None,
    };
    if ca_failure is Some {
        ca_failure
    } else {
        match client_auth_pems(certificate_type, client_cert, client_key) {
            Some((c, k)) => match read_certificates(pem_certificate_items_of(c)) {
                Err(e) => Some("Failed to parse client certificate: "@ + e),
                Ok(chain) => match private_key_outcome(k, client_key_password) {
                    Err(e) => Some(e),
                    Ok(key) => match client_auth_error_of(chain, key.0, key.1) {
                        Some(e) => Some("Failed to configure client auth: "@ + e),
                        None => None,
                    },
                },
            },
            None => None,
        }
    }
}

/// Custom certificates count only for a self-signed broker: its CA text
/// when not blank, and its client certificate and key when neither is blank.
/// A key is the first plain key in its text; failing that, with a password
/// given and not empty, an encrypted PKCS#8 key decrypted with it; anything
/// else finds no key. Reading and decrypting errors are named by their step.
pub proof fn law_which_material_counts(
    certificate_type: Seq<char>,
    ca: Option<Seq<char>>,
    cert: Option<Seq<char>>,
    key: Option<Seq<char>>,
    pem: Seq<char>,
    password: Option<Seq<char>>,
)
    ensures
        certificate_type != "self_signed"@ ==> custom_ca_pem(certificate_type, ca) is None && client_auth_pems(
            certificate_type,
            cert,
            key,
        ) is None,
        ca matches Some(c) ==> (certificate_type == "self_signed"@ && trimmed(c).len() > 0 ==> custom_ca_pem(
            certificate_type,
            ca,
        ) == Some(c)),
        ca is None || trimmed(ca->0).len() == 0 ==> custom_ca_pem(certificate_type, ca) is None,
        certificate_type == "self_signed"@ && cert is Some && key is Some && trimmed(cert->0).len() > 0 && trimmed(
            key->0,
        ).len() > 0 ==> client_auth_pems(certificate_type, cert, key) == Some((cert->0, key->0)),
        (cert is None || key is None || trimmed(cert->0).len() == 0 || trimmed(key->0).len() == 0) ==> client_auth_pems(
            certificate_type,
            cert,
            key,
        ) is None,
        pem_private_key_of(pem) matches Ok(Some(k)) ==> private_key_outcome(pem, password) == Ok::<
            (KeyFormat, Seq<u8>),
            Seq<char>,
        >(k),
        !(pem_private_key_of(pem) matches Ok(Some(_))) && (password is None || password->0.len() == 0)
            ==> private_key_outcome(pem, password) == Err::<(KeyFormat, Seq<u8>), Seq<char>>(no_key_message()),
        password matches Some(pw) ==> (!(pem_private_key_of(pem) matches Ok(Some(_))) && pw.len() > 0 ==> ({
            let r = private_key_outcome(pem, password);
            &&& pem_block_of(pem) matches Err(e) ==> r == Err::<(KeyFormat, Seq<u8>), Seq<char>>("Failed to parse PEM: "@ + e)
            &&& pem_block_of(pem) matches Ok((tag, contents)) ==> {
                &&& tag != "ENCRYPTED PRIVATE KEY"@ ==> r == Err::<(KeyFormat, Seq<u8>), Seq<char>>(no_key_message())
                &&& tag == "ENCRYPTED PRIVATE KEY"@ ==> r == match pkcs8_decrypted_of(contents, pw) {
                    Ok(d) => Ok::<(KeyFormat, Seq<u8>), Seq<char>>((KeyFormat::Pkcs8, d)),
                    Err((true, e)) => Err("Failed to parse encrypted private key: "@ + e),
                    Err((false, e)) => Err("Failed to decrypt private key (wrong password?): "@ + e),
                }
            }
        })),
{
}

/// What a TLS client configuration is built from.
#[derive(Debug)]
pub struct TlsMaterial {
    /// Whether the broker's certificate is checked against the trusted roots.
    pub verify_server: bool,
    /// CA certificates (DER) trusted besides the system's.
    pub extra_ca_certs: Vec<Vec<u8>>,
    /// The client certificate chain (DER) and key, when the broker asks for one.
    pub client_auth: Option<(Vec<Vec<u8>>, PrivateKey)>,
    pub alpn_protocols: Option<Vec<Vec<u8>>>,
}

/// The material that the TLS settings of a broker give, when none of it fails
/// to read.
pub open spec fn tls_material_matches(
    t: TlsMaterial,
    ssl_secure: bool,
    alpn: Option<Seq<char>>,
    certificate_type: Seq<char>,
    ca_cert: Option<Seq<char>>,
    client_cert: Option<Seq<char>>,
    client_key: Option<Seq<char>>,
    client_key_password: Option<Seq<char>>,
) -> bool {
    &&& t.verify_server == ssl_secure
    &&& byte_lists(t.extra_ca_certs@) == match custom_ca_pem(certificate_type, ca_cert) {
        Some(p) => trusted_ca_certificates(pem_certificate_items_of(p))->Ok_0,
        None => Seq::empty(),
    }
    &&& match client_auth_pems(certificate_type, client_cert, client_key) {
        Some((c, k)) => t.client_auth matches Some(auth) && byte_lists(auth.0@) == read_certificates(pem_certificate_items_of(c))->Ok_0
            && Ok::<(KeyFormat, Seq<u8>), Seq<char>>(key_view(auth.1)) == private_key_outcome(k, client_key_password),
        None => t.client_auth is None,
    }
    &&& alpn is None ==> t.alpn_protocols is None
    &&& alpn matches Some(s) ==> (crate::connection::alpn_names(s).len() == 0 <==> t.alpn_protocols is None)
    &&& alpn matches Some(s) ==> (t.alpn_protocols matches Some(v) ==> v@.len() == crate::connection::alpn_names(s).len()
        && forall|k: int|
        0 <= k < v@.len() ==> (#[trigger] v@[k])@ == vstd::utf8::encode_utf8(crate::connection::alpn_names(s)[k]))
}

/// The TLS material of a broker. Custom certificates are used only for
/// self-signed brokers; a CA-signed broker keeps the system's trust.
pub fn build_tls_material(
    ssl_secure: bool,
    alpn: Option<&str>,
    certificate_type: &str,
    ca_cert: Option<&str>,
    client_cert: Option<&str>,
    client_key: Option<&str>,
    client_key_password: Option<&str>,
) -> (r: Result<TlsMaterial, String>)
    ensures
        tls_refusal(
            certificate_type@,
            opt_str_view(ca_cert),
            opt_str_view(client_cert),
            opt_str_view(client_key),
            opt_str_view(client_key_password),
        ) matches Some(m) ==> (r matches Err(e) && e@ == m),
        tls_refusal(
            certificate_type@,
            opt_str_view(ca_cert),
            opt_str_view(client_cert),
            opt_str_view(client_key),
            opt_str_view(client_key_password),
        ) is None ==> (r matches Ok(t) && tls_material_matches(
            t,
            ssl_secure,
            opt_str_view(alpn),
            certificate_type@,
            opt_str_view(ca_cert),
            opt_str_view(client_cert),
            opt_str_view(client_key),
            opt_str_view(client_key_password),
        )),
{
    proof {
        reveal_strlit("CA certificate");
        reveal_strlit("client certificate");
        reveal_strlit("Failed to parse ");
        reveal_strlit(": ");
        reveal_strlit("Failed to parse CA certificate: ");
        reveal_strlit("Failed to parse client certificate: ");
        assert("Failed to parse "@ + "CA certificate"@ + ": "@ =~= "Failed to parse CA certificate: "@);
        assert("Failed to parse "@ + "client certificate"@ + ": "@ =~= "Failed to parse client certificate: "@);
    }
    let custom = str_equals(certificate_type, "self_signed");
    let mut extra_ca_certs: Vec<Vec<u8>> = Vec::new();
    if custom {
        match ca_cert {
            Some(ca) => {
                if trim(ca).unicode_len() > 0 {
                    extra_ca_certs = match read_ca_certificates(ca) {
                        Ok(v) => v,
                        Err(e) => {
                            return Err(e);
                        },
                    };
                }
            },
            None => {},
        }
    }
    let mut client_auth: Option<(Vec<Vec<u8>>, PrivateKey)> = None;
    if custom {
        match (client_cert, client_key) {
            (Some(cert_pem), Some(key_pem)) => {
                if trim(cert_pem).unicode_len() > 0 && trim(key_pem).unicode_len() > 0 {
                    let certs = match parse_certificates(cert_pem, "client certificate") {
                        Ok(v) => v,
                        Err(e) => {
                            return Err(e);
                        },
                    };
                    let key = match parse_private_key(key_pem, client_key_password) {
                        Ok(k) => k,
                        Err(e) => {
                            return Err(e);
                        },
                    };
                    match client_auth_error(&certs, &key) {
                        Some(e) => {
                            return Err(join2("Failed to configure client auth: ", e.as_str()));
                        },
                        None => {},
                    }
                    client_auth = Some((certs, key));
                }
            },
            _ => {},
        }
    }
    let alpn_protocols = parse_alpn_protocols(alpn);
    proof {
        match alpn {
            Some(a) => {
                assert(opt_str_view(alpn) == Some(a@));
            },
            None => {},
        }
        if custom_ca_pem(certificate_type@, opt_str_view(ca_cert)) is None {
            assert(byte_lists(extra_ca_certs@) =~= Seq::<Seq<u8>>::empty());
        }
    }
    Ok(TlsMaterial { verify_server: ssl_secure, extra_ca_certs, client_auth, alpn_protocols })
}

} // verus!
