//! The certificate authorities that the resolved cluster trusts.
//!
//! The cluster's bundle is a PEM text that may hold several certificates.
//! Each is brought into DER and handed to the TLS library, in the order of
//! the text. A cluster without a bundle is no error: it may rely on roots
//! that are trusted anyway. A bundle with a certificate that cannot be read
//! yields an error and no partial list.

use vstd::prelude::*;
use crate::apis::Cluster;
use crate::error::{
    openssl_step, oversized, pem_step, refused_by_openssl, refused_by_pem, refused_by_tls,
    tls_step, Cause, EncodingStep, ErrorView, LoaderError,
};
use crate::loader::KubeConfigLoader;
use crate::tls::{
    buffers_view, certificate_from_der, pem_certificate_sections, pem_certificates,
    x509_stack_from_pem, x509_to_der, MAX_INPUT_LEN,
};

verus! {

/// A certificate that the TLS client treats as a root of trust: the handle
/// of the TLS library with the DER encoding it was made of.
#[derive(Debug)]
pub struct TrustedCertificate {
    pub der: Vec<u8>,
    pub certificate: reqwest::Certificate,
}

/// Whether each trusted certificate of a list has an encoding of at least
/// one byte.
pub open spec fn all_encoded(certificates: Seq<TrustedCertificate>) -> bool {
    forall|i: int| 0 <= i < certificates.len() ==> (#[trigger] certificates[i]).der@.len() > 0
}

/// The DER encodings of a list of trusted certificates, in order.
pub open spec fn encodings(certificates: Seq<TrustedCertificate>) -> Seq<Seq<u8>> {
    Seq::new(certificates.len(), |i: int| certificates[i].der@)
}

impl Cluster {
    /// The bytes of the certificate-authority bundle, if the cluster has
    /// one.
    pub fn load_certificate_authority(&self) -> (loaded: Option<&Vec<u8>>)
        ensures
            match loaded {
                Some(bytes) => self@.certificate_authority_data == Some(bytes@),
                None => self@.certificate_authority_data is None,
            },
    {
        match &self.certificate_authority_data {
            Some(bytes) => Some(bytes),
            None => None,
        }
    }
}

/// Hands one DER encoding to the TLS library, which makes a trusted
/// certificate of it or refuses it.
pub fn trusted_certificate(der: Vec<u8>) -> (built: Result<TrustedCertificate, LoaderError>)
    ensures
        match built {
            Ok(trusted) => trusted.der@ == der@,
            Err(error) => error@ == refused_by_tls(EncodingStep::BuildCertificate),
        },
{
    match tls_step(certificate_from_der(der.as_slice()), EncodingStep::BuildCertificate) {
        Ok(certificate) => Ok(TrustedCertificate { der, certificate }),
        Err(error) => Err(error),
    }
}

/// Makes a trusted certificate of each DER encoding, in order. The first
/// encoding that the TLS library refuses ends the work with an error that
/// carries the library's own. Of no encodings an empty list is made, and
/// the library is not asked.
pub fn trusted_certificates(sections: &Vec<Vec<u8>>) -> (built: Result<
    Vec<TrustedCertificate>,
    LoaderError,
>)
    ensures
        sections@.len() == 0 ==> built is Ok,
        match built {
            Ok(certificates) => encodings(certificates@) == buffers_view(sections@),
            Err(error) => error@ == refused_by_tls(EncodingStep::BuildCertificate),
        },
{
    let mut certificates: Vec<TrustedCertificate> = Vec::new();
    let mut i: usize = 0;
    while i < sections.len()
        invariant
            i <= sections.len(),
            certificates.len() == i,
            forall|j: int| 0 <= j < i ==> certificates[j].der@ == sections[j]@,
        decreases sections.len() - i,
    {
        match trusted_certificate(sections[i].clone()) {
            Ok(trusted) => {
                certificates.push(trusted);
            },
            Err(error) => {
                return Err(error);
            },
        }
        i += 1;
    }
    assert(encodings(certificates@) =~= buffers_view(sections@));
    Ok(certificates)
}

/// Serializes each certificate of a parsed bundle and makes a trusted
/// certificate of it, in order. The first certificate that cannot be
/// serialized, or that the TLS library refuses, ends the work with an
/// error that carries the error of the library that refused. Of an empty
/// bundle an empty list is made, and no library is asked.
pub fn certificates_from_stack(stack: &Vec<openssl::x509::X509>) -> (built: Result<
    Vec<TrustedCertificate>,
    LoaderError,
>)
    ensures
        stack@.len() == 0 ==> built is Ok,
        match built {
            Ok(certificates) => certificates.len() == stack.len() && all_encoded(certificates@),
            Err(error) => error@ == refused_by_openssl(EncodingStep::EncodeCertificate) || error@
                == refused_by_tls(EncodingStep::BuildCertificate),
        },
{
    let mut certificates: Vec<TrustedCertificate> = Vec::new();
    let mut i: usize = 0;
    while i < stack.len()
        invariant
            i <= stack.len(),
            certificates.len() == i,
            all_encoded(certificates@),
        decreases stack.len() - i,
    {
        let der = match openssl_step(x509_to_der(&stack[i]), EncodingStep::EncodeCertificate) {
            Ok(der) => der,
            Err(error) => {
                return Err(error);
            },
        };
        match trusted_certificate(der) {
            Ok(trusted) => {
                certificates.push(trusted);
            },
            Err(error) => {
                return Err(error);
            },
        }
        i += 1;
    }
    Ok(certificates)
}

/// Whether `error` may end the building of the trust bundle by way of
/// OpenSSL. A bundle that is too long for OpenSSL fails at once; otherwise
/// the libraries decide, at one of three steps, and the error carries the
/// error of the library that refused.
pub open spec fn bundle_failure(bundle: Seq<u8>, error: ErrorView) -> bool {
    if bundle.len() > MAX_INPUT_LEN {
        error == oversized(EncodingStep::ParseBundle)
    } else {
        ||| error == refused_by_openssl(EncodingStep::ParseBundle)
        ||| error == refused_by_openssl(EncodingStep::EncodeCertificate)
        ||| error == refused_by_tls(EncodingStep::BuildCertificate)
    }
}

/// Whether `built` is what the building of the trust bundle from the
/// sections of a PEM text may yield.
///
/// A text with a fault yields an error. A text without fault yields one
/// trusted certificate for each of its certificates, in the order of the
/// text, unless the TLS library refuses one of them: the error then
/// carries the library's own. A text without fault and without
/// certificates yields the empty list.
pub open spec fn pem_bundle_outcome(
    bundle: Seq<u8>,
    built: Result<Vec<TrustedCertificate>, LoaderError>,
) -> bool {
    match pem_certificate_sections(bundle) {
        None => built matches Err(error) && error@ == refused_by_pem(EncodingStep::ParseBundle),
        Some(sections) => {
            &&& sections.len() == 0 ==> built is Ok
            &&& match built {
                Ok(certificates) => encodings(certificates@) == sections,
                Err(error) => error@ == refused_by_tls(EncodingStep::BuildCertificate),
            }
        },
    }
}

impl KubeConfigLoader {
    /// The certificate authorities that the resolved cluster trusts, read
    /// by OpenSSL.
    ///
    /// `None` where the cluster has no bundle. The loader is only read: the
    /// call can be repeated.
    pub fn ca_bundle(&self) -> (built: Option<Result<Vec<TrustedCertificate>, LoaderError>>)
        ensures
            match self@.cluster.certificate_authority_data {
                None => built is None,
                Some(bundle) => match built {
                    None => false,
                    Some(Ok(certificates)) => bundle.len() <= MAX_INPUT_LEN && all_encoded(
                        certificates@,
                    ),
                    Some(Err(error)) => bundle_failure(bundle, error@),
                },
            },
    {
        let bundle = match self.cluster.load_certificate_authority() {
            Some(bytes) => bytes,
            None => {
                return None;
            },
        };
        if bundle.len() > MAX_INPUT_LEN {
            return Some(
                Err(
                    LoaderError::EncodingFailed {
                        step: EncodingStep::ParseBundle,
                        cause: Cause::Oversized,
                    },
                ),
            );
        }
        match openssl_step(x509_stack_from_pem(bundle.as_slice()), EncodingStep::ParseBundle) {
            Ok(stack) => Some(certificates_from_stack(&stack)),
            Err(error) => Some(Err(error)),
        }
    }

    /// The certificate authorities that the resolved cluster trusts, read
    /// by the PEM reader of `rustls`.
    ///
    /// `None` where the cluster has no bundle. The loader is only read: the
    /// call can be repeated.
    pub fn ca_bundle_pem(&self) -> (built: Option<Result<Vec<TrustedCertificate>, LoaderError>>)
        ensures
            match self@.cluster.certificate_authority_data {
                None => built is None,
                Some(bundle) => built matches Some(outcome) && pem_bundle_outcome(
                    bundle,
                    outcome,
                ),
            },
    {
        let bundle = match self.cluster.load_certificate_authority() {
            Some(bytes) => bytes,
            None => {
                return None;
            },
        };
        match pem_step(pem_certificates(bundle.as_slice()), EncodingStep::ParseBundle) {
            Ok(sections) => Some(trusted_certificates(&sections)),
            Err(error) => Some(Err(error)),
        }
    }
}

} // verus!
