//! The calls into the TLS libraries.
//!
//! Nothing in this module is proved: each function is a thin shell round one
//! call into `openssl`, `reqwest` or `rustls`, and its contract is taken on
//! trust from that crate's source.

use vstd::prelude::*;
use openssl::error::ErrorStack;
use openssl::pkcs12::Pkcs12;
use openssl::pkey::{PKey, Private};
use openssl::x509::X509;

verus! {

/// `openssl::error::ErrorStack`: the errors OpenSSL reported for one call.
#[verifier::external_type_specification]
#[verifier::external_body]
pub struct ExErrorStack(openssl::error::ErrorStack);

/// `openssl::x509::X509`: a parsed certificate.
#[verifier::external_type_specification]
#[verifier::external_body]
pub struct ExX509(openssl::x509::X509);

/// `openssl::pkey::Private`: marks a key that has a private part.
#[verifier::external_type_specification]
#[verifier::external_body]
pub struct ExPrivate(openssl::pkey::Private);

/// `openssl::pkey::PKey`: a parsed key.
#[verifier::external_type_specification]
#[verifier::external_body]
#[verifier::reject_recursive_types(T)]
pub struct ExPKey<T>(openssl::pkey::PKey<T>);

/// `openssl::pkcs12::Pkcs12`: a PKCS #12 archive.
#[verifier::external_type_specification]
#[verifier::external_body]
pub struct ExPkcs12(openssl::pkcs12::Pkcs12);

/// `reqwest::Error`: the error of a `reqwest` constructor.
#[verifier::external_type_specification]
#[verifier::external_body]
pub struct ExReqwestError(reqwest::Error);

/// `reqwest::Identity`: a client certificate with its private key.
#[verifier::external_type_specification]
#[verifier::external_body]
pub struct ExIdentity(reqwest::Identity);

/// `reqwest::Certificate`: a certificate that a client trusts.
#[verifier::external_type_specification]
#[verifier::external_body]
pub struct ExCertificate(reqwest::Certificate);

/// The longest input, in bytes, that OpenSSL reads from memory.
pub const MAX_INPUT_LEN: usize = 0x7fff_ffff;

/// Whether a text can be handed to OpenSSL as a C string: it holds no NUL
/// character, and its encoding has at most `MAX_INPUT_LEN` bytes (a
/// character takes at most four).
pub open spec fn is_c_text(text: Seq<char>) -> bool {
    &&& text.len() <= 0x1fff_ffff
    &&& forall|i: int| 0 <= i < text.len() ==> text[i] != '\0'
}

/// View of a list of byte buffers.
pub open spec fn buffers_view(buffers: Seq<Vec<u8>>) -> Seq<Seq<u8>> {
    Seq::new(buffers.len(), |i: int| buffers[i]@)
}

/// Whether `reqwest::Identity::from_pem` accepts a PEM text.
pub uninterp spec fn pem_holds_identity(pem: Seq<u8>) -> bool;

/// The certificates that `rustls::internal::pemfile::certs` reads from a
/// PEM text, each in DER and in the order of the text, or `None` where it
/// reports a fault in the text.
pub uninterp spec fn pem_certificate_sections(pem: Seq<u8>) -> Option<Seq<Seq<u8>>>;

/// `openssl::x509::X509::from_pem`: reads one PEM-encoded certificate.
/// The call aborts on an input of more than `MAX_INPUT_LEN` bytes, which
/// the precondition excludes. For a text that declares itself encrypted
/// OpenSSL runs its default pass-phrase routine, which may ask on the
/// terminal. Nothing is claimed of the outcome.
#[verifier::external_body]
pub(crate) fn x509_from_pem(pem: &[u8]) -> (outcome: Result<X509, ErrorStack>)
    requires
        pem@.len() <= MAX_INPUT_LEN,
{
    X509::from_pem(pem)
}

/// `openssl::x509::X509::stack_from_pem`: reads the PEM-encoded
/// certificates of a bundle. The call aborts on an input of more than
/// `MAX_INPUT_LEN` bytes, which the precondition excludes. For a text that
/// declares itself encrypted OpenSSL runs its default pass-phrase routine,
/// which may ask on the terminal. Nothing is claimed of the outcome.
#[verifier::external_body]
pub(crate) fn x509_stack_from_pem(pem: &[u8]) -> (outcome: Result<Vec<X509>, ErrorStack>)
    requires
        pem@.len() <= MAX_INPUT_LEN,
{
    X509::stack_from_pem(pem)
}

/// `openssl::x509::X509Ref::to_der`: serializes a certificate to DER.
/// Of the outcome one thing is claimed: an encoding that is returned has
/// at least one byte, since the call fails where OpenSSL reports a length
/// that is not positive.
#[verifier::external_body]
pub(crate) fn x509_to_der(certificate: &X509) -> (outcome: Result<Vec<u8>, ErrorStack>)
    ensures
        outcome matches Ok(der) ==> der@.len() > 0,
{
    certificate.to_der()
}

/// `openssl::pkey::PKey::private_key_from_pem_passphrase`: reads one
/// PEM-encoded private key, with `passphrase` to open it where it is
/// encrypted. The call aborts on an input of more than `MAX_INPUT_LEN`
/// bytes and on a pass phrase that holds a zero byte, which the
/// precondition excludes. Nothing is claimed of the outcome.
#[verifier::external_body]
pub(crate) fn private_key_from_pem(pem: &[u8], passphrase: &[u8]) -> (outcome: Result<
    PKey<Private>,
    ErrorStack,
>)
    requires
        pem@.len() <= MAX_INPUT_LEN,
        forall|i: int| 0 <= i < passphrase@.len() ==> passphrase@[i] != 0u8,
{
    PKey::private_key_from_pem_passphrase(pem, passphrase)
}

/// `openssl::pkcs12::Pkcs12Builder::build` on the builder that
/// `openssl::pkcs12::Pkcs12::builder` returns: packages a certificate and
/// its key into an archive protected by `password`. The call aborts where
/// the password or the friendly name cannot be made a C string, which the
/// precondition excludes. Nothing is claimed of the outcome: the archive is
/// salted at random.
#[verifier::external_body]
#[allow(deprecated)]
pub(crate) fn pkcs12_build(
    password: &str,
    friendly_name: &str,
    key: &PKey<Private>,
    certificate: &X509,
) -> (outcome: Result<Pkcs12, ErrorStack>)
    requires
        is_c_text(password@),
        is_c_text(friendly_name@),
{
    Pkcs12::builder().build(password, friendly_name, key, certificate)
}

/// `openssl::pkcs12::Pkcs12Ref::to_der`: serializes an archive to DER.
/// Of the outcome one thing is claimed: an encoding that is returned has
/// at least one byte, since the call fails where OpenSSL reports a length
/// that is not positive.
#[verifier::external_body]
pub(crate) fn pkcs12_to_der(archive: &Pkcs12) -> (outcome: Result<Vec<u8>, ErrorStack>)
    ensures
        outcome matches Ok(der) ==> der@.len() > 0,
{
    archive.to_der()
}

/// `reqwest::Identity::from_pkcs12_der`: makes a client identity of a
/// DER-encoded archive and the password that opens it. The call aborts
/// where the password cannot be made a C string, which the precondition
/// excludes. Nothing is claimed of the outcome.
#[verifier::external_body]
pub(crate) fn identity_from_pkcs12_der(der: &[u8], password: &str) -> (outcome: Result<
    reqwest::Identity,
    reqwest::Error,
>)
    requires
        is_c_text(password@),
{
    reqwest::Identity::from_pkcs12_der(der, password)
}

/// `reqwest::Identity::from_pem`: makes a client identity of a PEM text
/// that holds a private key and at least one certificate. Whether the text
/// is accepted depends on the text alone.
#[verifier::external_body]
pub(crate) fn identity_from_pem(pem: &[u8]) -> (outcome: Result<reqwest::Identity, reqwest::Error>)
    ensures
        outcome is Ok <==> pem_holds_identity(pem@),
{
    reqwest::Identity::from_pem(pem)
}

/// `reqwest::Certificate::from_der`: makes a trusted certificate of its
/// DER encoding. Nothing is claimed of the outcome.
#[verifier::external_body]
pub(crate) fn certificate_from_der(der: &[u8]) -> (outcome: Result<
    reqwest::Certificate,
    reqwest::Error,
>) {
    reqwest::Certificate::from_der(der)
}

/// `rustls::internal::pemfile::certs`: reads the certificates of a PEM
/// text. What it reads depends on the text alone. Of a fault it says no
/// more than that there is one.
#[verifier::external_body]
pub(crate) fn pem_certificates(pem: &[u8]) -> (outcome: Result<Vec<Vec<u8>>, ()>)
    ensures
        match outcome {
            Ok(sections) => pem_certificate_sections(pem@) == Some(buffers_view(sections@)),
            Err(_) => pem_certificate_sections(pem@) is None,
        },
{
    let mut reader = pem;
    let certificates = rustls::internal::pemfile::certs(&mut reader)?;
    Ok(certificates.into_iter().map(|certificate| certificate.0).collect())
}

} // verus!
