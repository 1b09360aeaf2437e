//! Certificate handling for the TLS listener: where the material lives
//! on disk, how it is (re)generated, how the acceptor is built, and how
//! the trust-store installation outcome is read.
//!
//! Generation and the acceptor come from outside crates behind trusted
//! wrappers; every decision around them is verified.

use vstd::prelude::*;
use vstd::string::StrSliceExecFns;
use vstd::string::StringExecFns;
use vstd::string::StringSliceAdditionalSpecFns;
use crate::strings::{spec_find, contains_sub};

verus! {

/// A TLS acceptor of the tokio-rustls crate; opaque to the contracts.
#[verifier::external_type_specification]
#[verifier::external_body]
pub struct ExTlsAcceptor(tokio_rustls::TlsAcceptor);

/// Certificate material: the DER-encoded certificate and the PKCS#8 DER
/// private key, as persisted on disk.
pub struct CertMaterial {
    /// DER-encoded certificate.
    pub cert_der: Vec<u8>,
    /// PKCS#8 DER-encoded private key.
    pub key_der: Vec<u8>,
}

/// What certificate handling can fail on.
#[derive(Debug, Clone, Copy, PartialEq, Eq, Structural)]
pub enum CertError {
    /// Generating the self-signed certificate failed.
    Generate,
    /// Building the TLS acceptor from the material failed.
    Acceptor,
}

/// Where the certificate material came from.
#[derive(Debug, Clone, Copy, PartialEq, Eq, Structural)]
pub enum CertSource {
    /// Both files were read from disk and parsed.
    Loaded,
    /// A fresh pair was generated; the caller should persist it.
    Generated,
}

/// Path of the certificate file under the per-user data directory.
pub fn get_cert_path(data_local_dir: &str) -> (r: String)
    ensures
        r@ == data_local_dir@ + "/rai-connect/localhost.cer"@,
{
    let mut r = data_local_dir.to_owned();
    r.append("/rai-connect/localhost.cer");
    r
}

/// Path of the private-key file under the per-user data directory.
pub fn get_key_path(data_local_dir: &str) -> (r: String)
    ensures
        r@ == data_local_dir@ + "/rai-connect/localhost.key"@,
{
    let mut r = data_local_dir.to_owned();
    r.append("/rai-connect/localhost.key");
    r
}

/// The subject alternative names the certificate covers: `localhost`,
/// the wildcard, the five explicit subdomains the game resolves, and
/// both loopback addresses.
pub fn certificate_sans() -> (r: Vec<String>)
    ensures
        r@.map_values(|s: String| s@) =~= seq![
            "localhost"@,
            "*.localhost"@,
            "osu.localhost"@,
            "c.localhost"@,
            "a.localhost"@,
            "b.localhost"@,
            "i.localhost"@,
            "127.0.0.1"@,
            "::1"@,
        ],
{
    let mut r: Vec<String> = Vec::new();
    r.push(String::from_str("localhost"));
    r.push(String::from_str("*.localhost"));
    r.push(String::from_str("osu.localhost"));
    r.push(String::from_str("c.localhost"));
    r.push(String::from_str("a.localhost"));
    r.push(String::from_str("b.localhost"));
    r.push(String::from_str("i.localhost"));
    r.push(String::from_str("127.0.0.1"));
    r.push(String::from_str("::1"));
    r
}

/// Relies on rcgen 0.13: `CertificateParams::new` takes the subject
/// alternative names as strings (an IP literal becomes an IP entry, any
/// other a DNS name), `KeyPair::generate` draws a fresh ECDSA key,
/// `self_signed` signs, and `der` / `serialize_der` return the DER
/// encodings.  The key is freshly random, so nothing is promised of the
/// resulting bytes.
#[verifier::external_body]
fn rcgen_self_signed_der(sans: &Vec<String>, common_name: &str, org: &str) -> (r: Option<
    CertMaterial,
>) {
    let mut params = rcgen::CertificateParams::new(sans.clone()).ok()?;
    params.distinguished_name.push(rcgen::DnType::CommonName, common_name);
    params.distinguished_name.push(rcgen::DnType::OrganizationName, org);
    let key_pair = rcgen::KeyPair::generate().ok()?;
    let cert = params.self_signed(&key_pair).ok()?;
    Some(CertMaterial { cert_der: cert.der().to_vec(), key_der: key_pair.serialize_der() })
}

/// Whether rustls accepts the given DER certificate and PKCS#8 DER key
/// as a server identity.  The build runs with the fixed ring provider
/// and default protocol versions, so its success is a function of the
/// two byte strings alone.
pub uninterp spec fn acceptor_builds(cert_der: Seq<u8>, key_der: Seq<u8>) -> bool;

/// The protocols the listener offers over ALPN: `http/1.1`, then
/// `http/1.0`.
pub fn alpn_protocols() -> (r: Vec<Vec<u8>>)
    ensures
        r@.len() == 2,
        r@[0]@ == "http/1.1".spec_bytes(),
        r@[1]@ == "http/1.0".spec_bytes(),
{
    let mut r: Vec<Vec<u8>> = Vec::new();
    r.push("http/1.1".as_bytes_vec());
    r.push("http/1.0".as_bytes_vec());
    r
}

/// Relies on rustls 0.23 and tokio-rustls 0.26: a server configuration
/// with the ring provider, safe default protocol versions, no client
/// auth and this single certificate, offering the given protocols over
/// ALPN, wrapped in an acceptor.  The chain succeeds exactly when the
/// two DER strings parse as a certificate and a matching key — a
/// deterministic check of the bytes, named `acceptor_builds`; the ALPN
/// list only populates a field and cannot fail.  The acceptor value
/// itself is opaque, so nothing more is promised.
#[verifier::external_body]
fn rustls_acceptor_from_der(cert_der: &Vec<u8>, key_der: &Vec<u8>, alpn: &Vec<Vec<u8>>) -> (r:
    Option<tokio_rustls::TlsAcceptor>)
    ensures
        r is Some <==> acceptor_builds(cert_der@, key_der@),
{
    let provider = std::sync::Arc::new(rustls::crypto::ring::default_provider());
    let certs = vec![rustls::pki_types::CertificateDer::from(cert_der.clone())];
    let key_bytes = rustls::pki_types::PrivatePkcs8KeyDer::from(key_der.clone());
    let key = rustls::pki_types::PrivateKeyDer::Pkcs8(key_bytes);
    let builder = rustls::ServerConfig::builder_with_provider(provider);
    let versions = builder.with_safe_default_protocol_versions().ok()?;
    let mut config = versions.with_no_client_auth().with_single_cert(certs, key).ok()?;
    config.alpn_protocols = alpn.clone();
    Some(tokio_rustls::TlsAcceptor::from(std::sync::Arc::new(config)))
}

/// The certificate material to use: the pair read from disk when both
/// files parsed, else a freshly generated pair, which the caller should
/// persist.
pub fn get_or_create_cert(loaded: Option<CertMaterial>) -> (r: Result<
    (CertMaterial, CertSource),
    CertError,
>)
    ensures
        loaded matches Some(m) ==> (r matches Ok(p) && p.0.cert_der@ == m.cert_der@
            && p.0.key_der@ == m.key_der@ && p.1 == CertSource::Loaded),
        loaded is None ==> (r matches Err(e) && e == CertError::Generate) || (r matches Ok(p)
            && p.1 == CertSource::Generated),
{
    match loaded {
        Some(m) => Ok((m, CertSource::Loaded)),
        None => {
            let sans = certificate_sans();
            match rcgen_self_signed_der(&sans, "rai!connect Local Proxy", "rai.moe") {
                Some(m) => Ok((m, CertSource::Generated)),
                None => Err(CertError::Generate),
            }
        },
    }
}

/// Builds the TLS acceptor for the listener from the given material, or
/// from a fresh certificate when none was loaded.  Loaded material
/// succeeds exactly when rustls accepts its bytes; the material the
/// acceptor uses is returned with its origin, so a generated pair can
/// be persisted.
pub fn create_tls_acceptor(loaded: Option<CertMaterial>) -> (r: Result<
    (CertMaterial, CertSource, tokio_rustls::TlsAcceptor),
    CertError,
>)
    ensures
        loaded matches Some(m) ==> (r is Ok <==> acceptor_builds(m.cert_der@, m.key_der@)),
        loaded matches Some(m) ==> (r is Err || (r matches Ok(t) && t.0.cert_der@
            == m.cert_der@ && t.0.key_der@ == m.key_der@ && t.1 == CertSource::Loaded)),
        loaded matches Some(m) ==> (r is Err ==> (r matches Err(e) && e == CertError::Acceptor)),
        loaded is None ==> (r is Err || (r matches Ok(t) && t.1 == CertSource::Generated)),
{
    let pair = match get_or_create_cert(loaded) {
        Ok(p) => p,
        Err(e) => {
            return Err(e);
        },
    };
    let (material, source) = pair;
    let alpn = alpn_protocols();
    match rustls_acceptor_from_der(&material.cert_der, &material.key_der, &alpn) {
        Some(acceptor) => Ok((material, source, acceptor)),
        None => Err(CertError::Acceptor),
    }
}

/// Outcome of installing the certificate into the user trust store.
#[derive(Debug, Clone, Copy, PartialEq, Eq, Structural)]
pub enum CertInstallOutcome {
    /// The store took the certificate.
    Installed,
    /// The store already held it.
    AlreadyInstalled,
    /// The tool failed for another reason.
    Failed,
}

/// Reads the result of `certutil -addstore`: success means installed; a
/// failure whose error text says the object is already present counts
/// as already installed; anything else is a failure.
pub fn classify_certutil_install(success: bool, stderr: &str) -> (r: CertInstallOutcome)
    ensures
        success ==> r == CertInstallOutcome::Installed,
        (!success && (spec_find(stderr@, "already in store"@) >= 0 || spec_find(
            stderr@,
            "Object already exists"@,
        ) >= 0)) ==> r == CertInstallOutcome::AlreadyInstalled,
        (!success && spec_find(stderr@, "already in store"@) < 0 && spec_find(
            stderr@,
            "Object already exists"@,
        ) < 0) ==> r == CertInstallOutcome::Failed,
{
    if success {
        return CertInstallOutcome::Installed;
    }
    proof {
        reveal_strlit("already in store");
        reveal_strlit("Object already exists");
    }
    if contains_sub(stderr, "already in store") || contains_sub(stderr, "Object already exists") {
        CertInstallOutcome::AlreadyInstalled
    } else {
        CertInstallOutcome::Failed
    }
}

/// Whether the certificate is installed, from the exit of
/// `certutil -store`: `None` stands for a platform without the tool and
/// counts as not installed.
pub fn is_certificate_installed(certutil_exit_ok: Option<bool>) -> (r: bool)
    ensures
        r == (certutil_exit_ok == Some(true)),
{
    match certutil_exit_ok {
        Some(ok) => ok,
        None => false,
    }
}

} // verus!
