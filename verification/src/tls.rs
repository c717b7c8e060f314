//! TLS material loading: parse a PEM certificate chain and private key and
//! build a server-side TLS configuration without client authentication. The
//! PEM parsing and the configuration build are the outside library's; which
//! error is reported for which input is decided and proved here.
use vstd::prelude::*;

verus! {

#[verifier::external_type_specification]
#[verifier::external_body]
pub struct ExCertificateDer<'a>(rustls::pki_types::CertificateDer<'a>);

#[verifier::external_type_specification]
#[verifier::external_body]
pub struct ExPrivateKeyDer<'a>(rustls::pki_types::PrivateKeyDer<'a>);

#[verifier::external_type_specification]
#[verifier::external_body]
pub struct ExServerConfig(rustls::ServerConfig);

/// How many certificate sections the PEM bytes parse to, or nothing when a
/// section is malformed; a function of the bytes alone.
pub uninterp spec fn pem_cert_count(pem: Seq<u8>) -> Option<nat>;

/// Whether the PEM bytes hold a private-key section, or nothing when a
/// section is malformed; a function of the bytes alone.
pub uninterp spec fn pem_key_presence(pem: Seq<u8>) -> Option<bool>;

/// Whether the TLS stack accepts the chain and key these PEM bytes parse to:
/// the key must be valid and match the chain's end-entity certificate. The
/// parses are deterministic in the bytes and a single crypto provider is
/// compiled in, so this is a function of the bytes alone.
pub uninterp spec fn tls_build_ok(cert_pem: Seq<u8>, key_pem: Seq<u8>) -> bool;

/// Relies on `rustls_pemfile::certs`: yields every certificate section of
/// the input in order and errs on a malformed section, deterministically in
/// the bytes alone.
#[verifier::external_body]
fn parse_certificates(pem: &[u8]) -> (r: Result<
    Vec<rustls::pki_types::CertificateDer<'static>>,
    String,
>)
    ensures
        r is Ok <==> pem_cert_count(pem@) is Some,
        r matches Ok(v) ==> Some(v@.len() as nat) == pem_cert_count(pem@),
{
    let mut rd: &[u8] = pem;
    rustls_pemfile::certs(&mut rd).collect::<Result<Vec<_>, _>>().map_err(|e| e.to_string())
}

/// Relies on `rustls_pemfile::private_key`: returns the first private-key
/// section of the input (PKCS#1, PKCS#8 or SEC1), `None` when there is none,
/// and errs on a malformed section, deterministically in the bytes alone.
#[verifier::external_body]
fn parse_private_key(pem: &[u8]) -> (r: Result<
    Option<rustls::pki_types::PrivateKeyDer<'static>>,
    String,
>)
    ensures
        r is Ok <==> pem_key_presence(pem@) is Some,
        r matches Ok(k) ==> ((k is Some) <==> pem_key_presence(pem@) == Some(true)),
{
    let mut rd: &[u8] = pem;
    rustls_pemfile::private_key(&mut rd).map_err(|e| e.to_string())
}

/// Relies on `rustls_pemfile::certs`, `rustls_pemfile::private_key`,
/// `rustls::ServerConfig::builder`, `with_no_client_auth` and
/// `with_single_cert`: re-parses the PEM bytes — which the preconditions say
/// succeeds, with a nonempty chain and a key — and builds a server
/// configuration without client authentication, failing exactly when the key
/// is invalid or does not match the chain's end-entity certificate. The
/// builder takes the process crypto provider; exactly one is compiled in
/// here, so it does not panic for want of one.
#[verifier::external_body]
fn build_server_config(cert_pem: &[u8], key_pem: &[u8]) -> (r: Result<rustls::ServerConfig, String>)
    requires
        pem_cert_count(cert_pem@) matches Some(n) && n > 0,
        pem_key_presence(key_pem@) == Some(true),
    ensures
        r is Ok <==> tls_build_ok(cert_pem@, key_pem@),
{
    let mut crd: &[u8] = cert_pem;
    let mut krd: &[u8] = key_pem;
    let certs: Vec<rustls::pki_types::CertificateDer<'static>> =
        rustls_pemfile::certs(&mut crd).collect::<Result<_, _>>().expect("chain parses");
    let key = rustls_pemfile::private_key(&mut krd).expect("key parses").expect("key present");
    rustls::ServerConfig::builder().with_no_client_auth().with_single_cert(
        certs,
        key,
    ).map_err(|e| e.to_string())
}

/// Load a server TLS configuration from PEM bytes. Fails with a descriptive
/// message when the chain does not parse, parses to zero certificates, the
/// key does not parse or is absent, or the combined configuration is
/// rejected; succeeds only when the chain is nonempty and a key is present.
pub fn load_rustls_config(cert_pem: &[u8], key_pem: &[u8]) -> (r: Result<
    rustls::ServerConfig,
    String,
>)
    ensures
        pem_cert_count(cert_pem@) is None ==> (r matches Err(e)
            && "Failed to parse certificates: "@.len() <= e@.len() && e@.take(
            "Failed to parse certificates: "@.len() as int,
        ) == "Failed to parse certificates: "@),
        pem_cert_count(cert_pem@) == Some(0nat) ==> (r matches Err(e) && e@
            == "No certificates found in certificate file"@),
        (pem_cert_count(cert_pem@) matches Some(n) && n > 0) && pem_key_presence(key_pem@) is None
            ==> (r matches Err(e) && "Failed to parse private key: "@.len() <= e@.len()
            && e@.take("Failed to parse private key: "@.len() as int)
            == "Failed to parse private key: "@),
        (pem_cert_count(cert_pem@) matches Some(n) && n > 0) && pem_key_presence(key_pem@)
            == Some(false) ==> (r matches Err(e) && e@ == "No private key found in key file"@),
        (pem_cert_count(cert_pem@) matches Some(n) && n > 0) && pem_key_presence(key_pem@)
            == Some(true) ==> ((r is Ok) == tls_build_ok(cert_pem@, key_pem@)),
        (pem_cert_count(cert_pem@) matches Some(n) && n > 0) && pem_key_presence(key_pem@)
            == Some(true) && !tls_build_ok(cert_pem@, key_pem@) ==> (r matches Err(e)
            && "Failed to build TLS config: "@.len() <= e@.len() && e@.take(
            "Failed to build TLS config: "@.len() as int,
        ) == "Failed to build TLS config: "@),
        r is Ok ==> (pem_cert_count(cert_pem@) matches Some(n) && n > 0 && pem_key_presence(
            key_pem@,
        ) == Some(true) && tls_build_ok(cert_pem@, key_pem@)),
{
    let certs = match parse_certificates(cert_pem) {
        Ok(c) => c,
        Err(e) => {
            let mut msg = String::from_str("Failed to parse certificates: ");
            msg.append(e.as_str());
            assert(msg@.take("Failed to parse certificates: "@.len() as int)
                =~= "Failed to parse certificates: "@);
            return Err(msg);
        },
    };
    if certs.len() == 0 {
        return Err(String::from_str("No certificates found in certificate file"));
    }
    match parse_private_key(key_pem) {
        Ok(Some(_)) => {},
        Ok(None) => {
            return Err(String::from_str("No private key found in key file"));
        },
        Err(e) => {
            let mut msg = String::from_str("Failed to parse private key: ");
            msg.append(e.as_str());
            assert(msg@.take("Failed to parse private key: "@.len() as int)
                =~= "Failed to parse private key: "@);
            return Err(msg);
        },
    }
    match build_server_config(cert_pem, key_pem) {
        Ok(config) => Ok(config),
        Err(e) => {
            let mut msg = String::from_str("Failed to build TLS config: ");
            msg.append(e.as_str());
            assert(msg@.take("Failed to build TLS config: "@.len() as int)
                =~= "Failed to build TLS config: "@);
            Err(msg)
        },
    }
}

} // verus!
