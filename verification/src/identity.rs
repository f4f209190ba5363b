//! The TLS client identity of the resolved user.
//!
//! Two pipelines turn the user's certificate and private key into an
//! identity. The first packages both into a PKCS #12 archive under a fixed
//! placeholder password and hands the archive's DER encoding, with the same
//! password, to the TLS library. The second hands the library one PEM text:
//! the key followed by the certificate.

use vstd::prelude::*;
use vstd::string::StringExecFns;
use crate::apis::{AuthInfo, AuthInfoView};
use crate::error::{
    missing, openssl_step, oversized, refused_by_openssl, refused_by_tls, tls_step, EncodingStep,
    ErrorView, LoaderError, Material,
};
use crate::loader::KubeConfigLoader;
use crate::tls::{
    identity_from_pem, identity_from_pkcs12_der, is_c_text, pem_holds_identity, pkcs12_build,
    pkcs12_to_der, private_key_from_pem, x509_from_pem, MAX_INPUT_LEN,
};

verus! {

/// The password that protects the archive. Some readers of PKCS #12 refuse
/// an empty password, so it is one space.
pub const PLACEHOLDER_PASSWORD: &'static str = " ";

/// The friendly name under which certificate and key are packaged.
pub const FRIENDLY_NAME: &'static str = "kubeconfig";

/// A PKCS #12 archive in its DER encoding, with the password that opens it.
///
/// An archive is made by [`pkcs12_archive`] and by nothing else, so its
/// password is always the placeholder password.
#[derive(Debug)]
pub struct Pkcs12Archive {
    der: Vec<u8>,
    password: String,
}

/// View of a [`Pkcs12Archive`].
pub struct Pkcs12ArchiveView {
    pub der: Seq<u8>,
    pub password: Seq<char>,
}

impl View for Pkcs12Archive {
    type V = Pkcs12ArchiveView;

    closed spec fn view(&self) -> Pkcs12ArchiveView {
        Pkcs12ArchiveView { der: self.der@, password: self.password@ }
    }
}

/// Both texts are C texts: neither holds a NUL character.
pub proof fn lemma_archive_texts()
    ensures
        is_c_text(PLACEHOLDER_PASSWORD@),
        is_c_text(FRIENDLY_NAME@),
        PLACEHOLDER_PASSWORD@ == seq![' '],
{
    reveal_strlit(" ");
    reveal_strlit("kubeconfig");
    assert(PLACEHOLDER_PASSWORD@ =~= seq![' ']);
}

/// Whether `error` is what the user's record owes where it lacks the
/// bytes of the certificate or of the key: the certificate is asked for
/// first.
pub open spec fn material_failure(user: AuthInfoView, error: ErrorView) -> bool {
    if user.client_certificate_data is None {
        error == missing(Material::ClientCertificate)
    } else {
        user.client_key_data is None && error == missing(Material::ClientKey)
    }
}

/// Whether the user's record holds certificate and key.
pub open spec fn has_material(user: AuthInfoView) -> bool {
    user.client_certificate_data is Some && user.client_key_data is Some
}

/// Whether certificate and key are short enough for OpenSSL to read.
pub open spec fn material_fits(user: AuthInfoView) -> bool {
    &&& user.client_certificate_data matches Some(certificate) && certificate.len()
        <= MAX_INPUT_LEN
    &&& user.client_key_data matches Some(key) && key.len() <= MAX_INPUT_LEN
}

/// Whether `error` may end the packaging of the user's certificate and key
/// into an archive.
///
/// A record that lacks material fails with that and nothing else. A
/// certificate or key that is too long fails at the step that would read
/// it. Otherwise OpenSSL decides, at one of the four steps, and the error
/// carries OpenSSL's error stack.
pub open spec fn archive_failure(user: AuthInfoView, error: ErrorView) -> bool {
    if !has_material(user) {
        material_failure(user, error)
    } else if user.client_certificate_data->Some_0.len() > MAX_INPUT_LEN {
        error == oversized(EncodingStep::ParseCertificate)
    } else if user.client_key_data->Some_0.len() > MAX_INPUT_LEN {
        error == refused_by_openssl(EncodingStep::ParseCertificate) || error == oversized(
            EncodingStep::ParsePrivateKey,
        )
    } else {
        ||| error == refused_by_openssl(EncodingStep::ParseCertificate)
        ||| error == refused_by_openssl(EncodingStep::ParsePrivateKey)
        ||| error == refused_by_openssl(EncodingStep::BuildArchive)
        ||| error == refused_by_openssl(EncodingStep::EncodeArchive)
    }
}

/// Whether `error` may end the building of an identity by way of an
/// archive: the packaging may fail, or the TLS library may refuse the
/// finished archive, in which case the error carries that library's error.
pub open spec fn identity_failure(user: AuthInfoView, error: ErrorView) -> bool {
    ||| archive_failure(user, error)
    ||| material_fits(user) && error == refused_by_tls(EncodingStep::BuildIdentity)
}

/// What the building of an identity from one PEM text fails with.
pub open spec fn pem_identity_failure(user: AuthInfoView) -> ErrorView {
    if user.client_certificate_data is None {
        missing(Material::ClientCertificate)
    } else if user.client_key_data is None {
        missing(Material::ClientKey)
    } else {
        refused_by_tls(EncodingStep::BuildIdentity)
    }
}

impl AuthInfo {
    /// The bytes of the client certificate.
    pub fn load_client_certificate(&self) -> (loaded: Result<&Vec<u8>, LoaderError>)
        ensures
            match loaded {
                Ok(bytes) => self@.client_certificate_data == Some(bytes@),
                Err(error) => self@.client_certificate_data is None && error@ == missing(
                    Material::ClientCertificate,
                ),
            },
    {
        match &self.client_certificate_data {
            Some(bytes) => Ok(bytes),
            None => Err(LoaderError::MaterialMissing { material: Material::ClientCertificate }),
        }
    }

    /// The bytes of the client's private key.
    pub fn load_client_key(&self) -> (loaded: Result<&Vec<u8>, LoaderError>)
        ensures
            match loaded {
                Ok(bytes) => self@.client_key_data == Some(bytes@),
                Err(error) => self@.client_key_data is None && error@ == missing(
                    Material::ClientKey,
                ),
            },
    {
        match &self.client_key_data {
            Some(bytes) => Ok(bytes),
            None => Err(LoaderError::MaterialMissing { material: Material::ClientKey }),
        }
    }
}

/// Packages the user's certificate and private key into a PKCS #12 archive
/// protected by the placeholder password, and serializes the archive.
///
/// The key is read as it stands: no pass phrase is offered, so a key that
/// is encrypted is refused.
pub fn pkcs12_archive(user: &AuthInfo) -> (packaged: Result<Pkcs12Archive, LoaderError>)
    ensures
        match packaged {
            Ok(archive) => {
                &&& material_fits(user@)
                &&& archive@.password == PLACEHOLDER_PASSWORD@
                &&& archive@.der.len() > 0
            },
            Err(error) => archive_failure(user@, error@),
        },
{
    let client_certificate = match user.load_client_certificate() {
        Ok(bytes) => bytes,
        Err(error) => {
            return Err(error);
        },
    };
    let client_key = match user.load_client_key() {
        Ok(bytes) => bytes,
        Err(error) => {
            return Err(error);
        },
    };
    if client_certificate.len() > MAX_INPUT_LEN {
        return Err(
            LoaderError::EncodingFailed {
                step: EncodingStep::ParseCertificate,
                cause: crate::error::Cause::Oversized,
            },
        );
    }
    let certificate = match openssl_step(
        x509_from_pem(client_certificate.as_slice()),
        EncodingStep::ParseCertificate,
    ) {
        Ok(certificate) => certificate,
        Err(error) => {
            return Err(error);
        },
    };
    if client_key.len() > MAX_INPUT_LEN {
        return Err(
            LoaderError::EncodingFailed {
                step: EncodingStep::ParsePrivateKey,
                cause: crate::error::Cause::Oversized,
            },
        );
    }
    let no_passphrase: Vec<u8> = Vec::new();
    let key = match openssl_step(
        private_key_from_pem(client_key.as_slice(), no_passphrase.as_slice()),
        EncodingStep::ParsePrivateKey,
    ) {
        Ok(key) => key,
        Err(error) => {
            return Err(error);
        },
    };
    proof {
        lemma_archive_texts();
    }
    let archive = match openssl_step(
        pkcs12_build(PLACEHOLDER_PASSWORD, FRIENDLY_NAME, &key, &certificate),
        EncodingStep::BuildArchive,
    ) {
        Ok(archive) => archive,
        Err(error) => {
            return Err(error);
        },
    };
    match openssl_step(pkcs12_to_der(&archive), EncodingStep::EncodeArchive) {
        Ok(der) => Ok(Pkcs12Archive { der, password: String::from_str(PLACEHOLDER_PASSWORD) }),
        Err(error) => Err(error),
    }
}

/// The one PEM text that the second pipeline hands to the TLS library: the
/// key, then the certificate.
pub fn pem_bundle(key: &Vec<u8>, certificate: &Vec<u8>) -> (pem: Vec<u8>)
    ensures
        pem@ == key@ + certificate@,
{
    let mut pem = key.clone();
    pem.extend_from_slice(certificate.as_slice());
    pem
}

impl Pkcs12Archive {
    #[verifier::type_invariant]
    spec fn opens_with_placeholder(self) -> bool {
        self.password@ == PLACEHOLDER_PASSWORD@
    }

    /// The DER encoding of the archive.
    pub fn der(&self) -> (der: &Vec<u8>)
        ensures
            der@ == self@.der,
    {
        &self.der
    }

    /// The password that opens the archive.
    pub fn password(&self) -> (password: &str)
        ensures
            password@ == self@.password,
            password@ == PLACEHOLDER_PASSWORD@,
    {
        proof {
            use_type_invariant(self);
        }
        self.password.as_str()
    }

    /// Hands the archive and its password to the TLS library. A refusal comes
    /// back as an encoding failure that carries the library's own error.
    pub fn identity(&self) -> (built: Result<reqwest::Identity, LoaderError>)
        ensures
            built matches Err(error) ==> error@ == refused_by_tls(EncodingStep::BuildIdentity),
    {
        proof {
            use_type_invariant(self);
            lemma_archive_texts();
        }
        tls_step(
            identity_from_pkcs12_der(self.der.as_slice(), self.password.as_str()),
            EncodingStep::BuildIdentity,
        )
    }
}

impl KubeConfigLoader {
    /// The TLS client identity of the resolved user, made by way of a
    /// PKCS #12 archive.
    ///
    /// The loader is only read: the call can be repeated.
    pub fn identity(&self) -> (built: Result<reqwest::Identity, LoaderError>)
        ensures
            match built {
                Ok(_) => material_fits(self@.user),
                Err(error) => identity_failure(self@.user, error@),
            },
    {
        match pkcs12_archive(&self.user) {
            Ok(archive) => archive.identity(),
            Err(error) => Err(error),
        }
    }

    /// The TLS client identity of the resolved user, made of one PEM text:
    /// the key followed by the certificate.
    ///
    /// The loader is only read: the call can be repeated.
    pub fn identity_pem(&self) -> (built: Result<reqwest::Identity, LoaderError>)
        ensures
            built is Ok <==> has_material(self@.user) && pem_holds_identity(
                self@.user.client_key_data->Some_0 + self@.user.client_certificate_data->Some_0,
            ),
            built matches Err(error) ==> error@ == pem_identity_failure(self@.user),
    {
        let client_certificate = match self.user.load_client_certificate() {
            Ok(bytes) => bytes,
            Err(error) => {
                return Err(error);
            },
        };
        let client_key = match self.user.load_client_key() {
            Ok(bytes) => bytes,
            Err(error) => {
                return Err(error);
            },
        };
        let pem = pem_bundle(client_key, client_certificate);
        tls_step(identity_from_pem(pem.as_slice()), EncodingStep::BuildIdentity)
    }
}

} // verus!
