//! TLS on the agent's own loopback socket.
//!
//! A page served over HTTPS may not open a plain socket, so the agent speaks TLS with a
//! certificate for a name that points at the loopback address. The certificate is short-lived
//! and therefore handed in, never embedded.

use std::sync::Arc;
use tokio_rustls::rustls::crypto::CryptoProvider;
use tokio_rustls::rustls::pki_types::pem::PemObject;
use tokio_rustls::rustls::pki_types::CertificateDer;
use tokio_rustls::rustls::pki_types::PrivateKeyDer;
use tokio_rustls::rustls::ServerConfig;
use tokio_rustls::TlsAcceptor;
use vstd::prelude::*;
use vstd::string::StringExecFns;

verus! {

/// What accepts TLS connections.
#[verifier::external_type_specification]
#[verifier::external_body]
pub struct ExTlsAcceptor(tokio_rustls::TlsAcceptor);

/// Where the TLS stack has its cryptography from.
#[verifier::external_type_specification]
#[verifier::external_body]
pub struct ExCryptoProvider(tokio_rustls::rustls::crypto::CryptoProvider);

/// How a private key is encoded.
#[derive(Debug, Clone, Copy, PartialEq, Eq, Structural)]
pub enum KeyFormat {
    Pkcs1,
    Sec1,
    Pkcs8,
}

/// A private key in bytes. The type has no textual form.
#[derive(PartialEq, Eq)]
pub struct PrivateKey {
    pub format: KeyFormat,
    pub der: Vec<u8>,
}

/// Why no acceptor was built.
#[derive(Debug, PartialEq, Eq)]
pub enum TlsProblem {
    /// The TLS stack has no protocol version to offer.
    Protocol(String),
    /// The certificate and the key do not belong together, or cannot be used.
    Identity(String),
}

/// The certificates in a PEM text, in their order, or what is wrong with the text.
pub uninterp spec fn pem_certificates(pem: Seq<u8>) -> Result<Seq<Seq<u8>>, Seq<char>>;

/// The first private key in a PEM text, or what is wrong with the text.
pub uninterp spec fn pem_private_key(pem: Seq<u8>) -> Result<(KeyFormat, Seq<u8>), Seq<char>>;

/// The certificates that an acceptor presents, in their order, and the private key that it proves
/// them with.
pub uninterp spec fn presented(acceptor: TlsAcceptor) -> (Seq<Seq<u8>>, (KeyFormat, Seq<u8>));

/// The rows of bytes, as sequences.
pub open spec fn rows(list: Seq<Vec<u8>>) -> Seq<Seq<u8>> {
    list.map_values(|row: Vec<u8>| row@)
}

/// `CertificateDer::pem_slice_iter`, collected: every certificate section of a PEM text in its
/// order, or the first error as text. The result depends on the text alone.
#[verifier::external_body]
fn certificates_in_pem(pem: &Vec<u8>) -> (found: Result<Vec<Vec<u8>>, String>)
    ensures
        match found {
            Ok(list) => pem_certificates(pem@) == Ok::<Seq<Seq<u8>>, Seq<char>>(rows(list@)),
            Err(problem) => pem_certificates(pem@) == Err::<Seq<Seq<u8>>, Seq<char>>(problem@),
        },
{
    CertificateDer::pem_slice_iter(pem.as_slice())
        .map(|item| item.map(|certificate| certificate.to_vec()))
        .collect::<Result<Vec<Vec<u8>>, _>>()
        .map_err(|error| error.to_string())
}

/// `PrivateKeyDer::from_pem_slice`: the first private key section of a PEM text, or the error as
/// text. A key in none of the three formats, of which the crate has none, would be an error
/// without text. The result depends on the text alone.
#[verifier::external_body]
fn private_key_in_pem(pem: &Vec<u8>) -> (found: Result<PrivateKey, String>)
    ensures
        match found {
            Ok(key) => pem_private_key(pem@) == Ok::<(KeyFormat, Seq<u8>), Seq<char>>(
                (key.format, key.der@),
            ),
            Err(problem) => pem_private_key(pem@) == Err::<(KeyFormat, Seq<u8>), Seq<char>>(
                problem@,
            ),
        },
{
    let (format, der) = match PrivateKeyDer::from_pem_slice(pem.as_slice()) {
        Ok(PrivateKeyDer::Pkcs1(key)) => (KeyFormat::Pkcs1, key.secret_pkcs1_der().to_vec()),
        Ok(PrivateKeyDer::Sec1(key)) => (KeyFormat::Sec1, key.secret_sec1_der().to_vec()),
        Ok(PrivateKeyDer::Pkcs8(key)) => (KeyFormat::Pkcs8, key.secret_pkcs8_der().to_vec()),
        Ok(_) => return Err(String::new()),
        Err(error) => return Err(error.to_string()),
    };
    Ok(PrivateKey { format, der })
}

/// `CryptoProvider::get_default`: the cryptography that the process has chosen, if it has chosen.
#[verifier::external_body]
fn installed_provider() -> (provider: Option<Arc<CryptoProvider>>) {
    CryptoProvider::get_default().cloned()
}

/// `rustls::crypto::ring::default_provider`: the cryptography of the `ring` crate.
#[verifier::external_body]
fn ring_provider() -> (provider: Arc<CryptoProvider>) {
    Arc::new(tokio_rustls::rustls::crypto::ring::default_provider())
}

/// `ServerConfig::builder_with_provider` and its steps, without client certificates, then
/// `TlsAcceptor::from`: the acceptor presents these certificates and holds this key. Whether the
/// two are accepted depends on the provider, of which nothing is known, so nothing is said of when
/// there is an acceptor.
#[verifier::external_body]
fn build_acceptor(
    provider: Arc<CryptoProvider>,
    certificates: Vec<Vec<u8>>,
    key: PrivateKey,
) -> (built: Result<TlsAcceptor, TlsProblem>)
    ensures
        built matches Ok(acceptor) ==> presented(acceptor) == (
            rows(certificates@),
            (key.format, key.der@),
        ),
{
    let key = match key.format {
        KeyFormat::Pkcs1 => PrivateKeyDer::Pkcs1(key.der.into()),
        KeyFormat::Sec1 => PrivateKeyDer::Sec1(key.der.into()),
        KeyFormat::Pkcs8 => PrivateKeyDer::Pkcs8(key.der.into()),
    };
    let certificates = certificates.into_iter().map(CertificateDer::from).collect();
    let config = ServerConfig::builder_with_provider(provider)
        .with_safe_default_protocol_versions()
        .map_err(|error| TlsProblem::Protocol(error.to_string()))?
        .with_no_client_auth()
        .with_single_cert(certificates, key)
        .map_err(|error| TlsProblem::Identity(error.to_string()))?;
    Ok(TlsAcceptor::from(Arc::new(config)))
}

/// What is wrong with a PEM certificate chain and a PEM private key, before any TLS: the first
/// of the two that cannot be used is named.
pub open spec fn pem_problem(certificate: Seq<u8>, key: Seq<u8>) -> Option<Seq<char>> {
    match pem_certificates(certificate) {
        Err(problem) => Some("certificate PEM is not readable: "@ + problem),
        Ok(list) => if list.len() == 0 {
            Some("certificate PEM contains no certificate"@)
        } else {
            match pem_private_key(key) {
                Err(problem) => Some("private key PEM is not readable: "@ + problem),
                Ok(_) => None,
            }
        },
    }
}

/// The certificates and the key, where both were found; else which of the two is unusable, and
/// why. The certificates come first.
pub fn identity(
    certificates: Result<Vec<Vec<u8>>, String>,
    key: Result<PrivateKey, String>,
) -> (identity: Result<(Vec<Vec<u8>>, PrivateKey), String>)
    ensures
        match certificates {
            Err(problem) => identity matches Err(text) && text@
                == "certificate PEM is not readable: "@ + problem@,
            Ok(list) => if list@.len() == 0 {
                identity matches Err(text) && text@ == "certificate PEM contains no certificate"@
            } else {
                match key {
                    Err(problem) => identity matches Err(text) && text@
                        == "private key PEM is not readable: "@ + problem@,
                    Ok(found) => identity == Ok::<_, String>((list, found)),
                }
            },
        },
{
    let list = match certificates {
        Ok(list) => list,
        Err(problem) => {
            return Err("certificate PEM is not readable: ".to_owned().concat(problem.as_str()));
        },
    };
    if list.len() == 0 {
        return Err("certificate PEM contains no certificate".to_owned());
    }
    match key {
        Ok(found) => Ok((list, found)),
        Err(problem) => Err(
            "private key PEM is not readable: ".to_owned().concat(problem.as_str()),
        ),
    }
}

/// What a failure to build an acceptor says.
pub fn tls_problem_text(problem: TlsProblem) -> (text: String)
    ensures
        text@ == match problem {
            TlsProblem::Protocol(error) => "TLS protocol configuration: "@ + error@,
            TlsProblem::Identity(error) => {
                "certificate and key do not form a usable server identity: "@ + error@
            },
        },
{
    match problem {
        TlsProblem::Protocol(error) => "TLS protocol configuration: ".to_owned().concat(
            error.as_str(),
        ),
        TlsProblem::Identity(
            error,
        ) => "certificate and key do not form a usable server identity: ".to_owned().concat(
            error.as_str(),
        ),
    }
}

/// The cryptography to use: what the process has chosen, where it has chosen.
pub fn chosen_provider<P>(installed: Option<P>, fallback: P) -> (provider: P)
    ensures
        provider == match installed {
            Some(chosen) => chosen,
            None => fallback,
        },
{
    match installed {
        Some(chosen) => chosen,
        None => fallback,
    }
}

/// Build an acceptor from a PEM certificate chain and a PEM private key.
///
/// Errors name which of the two inputs is unusable: a site that answers a missing file with a
/// page of HTML would otherwise reach the TLS stack as a certificate and fail later and less
/// clearly.
pub fn acceptor_from_pem(certificate: &Vec<u8>, key: &Vec<u8>) -> (acceptor: Result<
    TlsAcceptor,
    String,
>)
    ensures
        match pem_problem(certificate@, key@) {
            Some(problem) => acceptor matches Err(text) && text@ == problem,
            None => match acceptor {
                Ok(built) => {
                    &&& pem_certificates(certificate@) == Ok::<Seq<Seq<u8>>, Seq<char>>(
                        presented(built).0,
                    )
                    &&& pem_private_key(key@) == Ok::<(KeyFormat, Seq<u8>), Seq<char>>(
                        presented(built).1,
                    )
                },
                Err(text) => "TLS protocol configuration: "@.is_prefix_of(text@)
                    || "certificate and key do not form a usable server identity: "@.is_prefix_of(
                    text@,
                ),
            },
        },
{
    let (certificates, private_key) = match identity(
        certificates_in_pem(certificate),
        private_key_in_pem(key),
    ) {
        Ok(found) => found,
        Err(problem) => {
            return Err(problem);
        },
    };
    let provider = chosen_provider(installed_provider(), ring_provider());
    match build_acceptor(provider, certificates, private_key) {
        Ok(built) => Ok(built),
        Err(problem) => {
            let text = tls_problem_text(problem);
            assert("TLS protocol configuration: "@.is_prefix_of(text@)
                || "certificate and key do not form a usable server identity: "@.is_prefix_of(
                text@,
            ));
            Err(text)
        },
    }
}

/// The problem that is named is that of the first input that cannot be used: the certificates
/// before the key, and none where both can be.
pub proof fn law_the_first_unusable_input_is_named(certificate: Seq<u8>, key: Seq<u8>)
    ensures
        pem_certificates(certificate) matches Err(problem) ==> pem_problem(certificate, key)
            == Some("certificate PEM is not readable: "@ + problem),
        pem_certificates(certificate) matches Ok(list) ==> (list.len() == 0 ==> pem_problem(
            certificate,
            key,
        ) == Some("certificate PEM contains no certificate"@)),
        pem_certificates(certificate) matches Ok(list) ==> (list.len() > 0 && pem_private_key(key)
            is Err ==> pem_problem(certificate, key) == Some(
            "private key PEM is not readable: "@ + pem_private_key(key)->Err_0,
        )),
        pem_problem(certificate, key) is None <==> pem_certificates(certificate) is Ok
            && pem_certificates(certificate)->Ok_0.len() > 0 && pem_private_key(key) is Ok,
{
}

/// Each row stands for its own bytes, in the order of the list.
pub proof fn law_rows(list: Seq<Vec<u8>>)
    ensures
        rows(list).len() == list.len(),
        forall|i: int| 0 <= i < list.len() ==> #[trigger] rows(list)[i] == list[i]@,
{
}

/// An identity is what was found, the certificates and the key, exactly where both were and there
/// is a certificate.
pub proof fn law_an_identity_is_what_was_found(
    certificates: Result<Vec<Vec<u8>>, String>,
    key: Result<PrivateKey, String>,
    found: Result<(Vec<Vec<u8>>, PrivateKey), String>,
)
    requires
        call_ensures(identity, (certificates, key), found),
    ensures
        found is Ok <==> certificates is Ok && certificates->Ok_0@.len() > 0 && key is Ok,
        found matches Ok(pair) ==> pair.0 == certificates->Ok_0 && pair.1 == key->Ok_0,
{
}

/// What the process has chosen is used wherever it has chosen.
pub proof fn law_the_choice_of_the_process_counts<P>(
    installed: Option<P>,
    fallback: P,
    provider: P,
)
    requires
        call_ensures(chosen_provider::<P>, (installed, fallback), provider),
    ensures
        installed is Some ==> provider == installed->0,
        installed is None ==> provider == fallback,
{
}

} // verus!
