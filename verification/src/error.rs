//! The errors of the library.

use vstd::prelude::*;
use vstd::string::StringExecFns;

verus! {

/// The collection in which a name is looked up.
#[derive(Clone, Copy, Debug, PartialEq, Eq, Structural)]
pub enum Reference {
    /// The contexts of the configuration.
    Context,
    /// The clusters of the configuration.
    Cluster,
    /// The users of the configuration.
    User,
}

/// A piece of a user's credentials.
#[derive(Clone, Copy, Debug, PartialEq, Eq, Structural)]
pub enum Material {
    /// The client certificate.
    ClientCertificate,
    /// The client's private key.
    ClientKey,
}

/// The step of an encoding pipeline at which certificate or key bytes were
/// refused.
#[derive(Clone, Copy, Debug, PartialEq, Eq, Structural)]
pub enum EncodingStep {
    /// Reading the client certificate.
    ParseCertificate,
    /// Reading the client's private key.
    ParsePrivateKey,
    /// Packaging certificate and key into an archive.
    BuildArchive,
    /// Serializing the archive.
    EncodeArchive,
    /// Handing the encoded identity to the TLS library.
    BuildIdentity,
    /// Reading the certificate-authority bundle.
    ParseBundle,
    /// Serializing one certificate of the bundle.
    EncodeCertificate,
    /// Handing one certificate of the bundle to the TLS library.
    BuildCertificate,
}

/// What a TLS library said when it refused its input.
#[derive(Debug)]
pub enum Cause {
    /// The error stack of OpenSSL.
    OpenSsl(openssl::error::ErrorStack),
    /// The error of the HTTP client's TLS layer.
    Tls(reqwest::Error),
    /// A fault in the PEM text, of which the reader tells no more.
    Pem,
    /// The input is longer than the TLS library accepts.
    Oversized,
}

/// The two families of errors.
#[derive(Clone, Copy, Debug, PartialEq, Eq, Structural)]
pub enum ErrorKind {
    /// The configuration does not resolve to usable credentials.
    KubeConfig,
    /// Certificate or key bytes could not be encoded.
    SslError,
}

/// An error of the library. None is recoverable: there is no retry, no
/// fallback and no partial result.
#[derive(Debug)]
pub enum LoaderError {
    /// A name was not found in its collection.
    ReferenceNotFound { reference: Reference, name: String },
    /// The user's record does not hold the bytes of a credential.
    MaterialMissing { material: Material },
    /// The external provider did not hand out credentials.
    CredentialMaterializationFailed { reason: String },
    /// Certificate or key bytes could not be parsed, packaged or re-encoded.
    EncodingFailed { step: EncodingStep, cause: Cause },
}

/// View of a [`Cause`]: which library refused the input. What the library
/// said in its error is an opaque value and has no model of its own.
pub enum CauseView {
    /// The cause is an error stack of OpenSSL.
    OpenSsl,
    /// The cause is an error of the HTTP client's TLS layer.
    Tls,
    /// The cause is a fault in the PEM text.
    Pem,
    /// The input was too long to be handed to the library.
    Oversized,
}

impl View for Cause {
    type V = CauseView;

    open spec fn view(&self) -> CauseView {
        match *self {
            Cause::OpenSsl(_) => CauseView::OpenSsl,
            Cause::Tls(_) => CauseView::Tls,
            Cause::Pem => CauseView::Pem,
            Cause::Oversized => CauseView::Oversized,
        }
    }
}

/// View of a [`LoaderError`].
pub enum ErrorView {
    ReferenceNotFound { reference: Reference, name: Seq<char> },
    MaterialMissing { material: Material },
    CredentialMaterializationFailed { reason: Seq<char> },
    EncodingFailed { step: EncodingStep, cause: CauseView },
}

impl View for LoaderError {
    type V = ErrorView;

    open spec fn view(&self) -> ErrorView {
        match *self {
            LoaderError::ReferenceNotFound { reference, name } => ErrorView::ReferenceNotFound {
                reference,
                name: name@,
            },
            LoaderError::MaterialMissing { material } => ErrorView::MaterialMissing { material },
            LoaderError::CredentialMaterializationFailed {
                reason,
            } => ErrorView::CredentialMaterializationFailed { reason: reason@ },
            LoaderError::EncodingFailed { step, cause } => ErrorView::EncodingFailed {
                step,
                cause: cause@,
            },
        }
    }
}

/// The family of an error.
pub open spec fn kind_of(error: ErrorView) -> ErrorKind {
    match error {
        ErrorView::EncodingFailed { .. } => ErrorKind::SslError,
        _ => ErrorKind::KubeConfig,
    }
}

/// The message of an error.
pub open spec fn message_of(error: ErrorView) -> Seq<char> {
    match error {
        ErrorView::ReferenceNotFound { reference, .. } => match reference {
            Reference::Context => "unable to resolve current context"@,
            Reference::Cluster => "unable to resolve cluster of context"@,
            Reference::User => "unable to resolve user of context"@,
        },
        ErrorView::MaterialMissing { material } => match material {
            Material::ClientCertificate => "client certificate is not available"@,
            Material::ClientKey => "client key is not available"@,
        },
        ErrorView::CredentialMaterializationFailed { .. } => "unable to load credentials"@,
        ErrorView::EncodingFailed { .. } => "unable to encode certificate or key"@,
    }
}

impl Reference {
    /// The word for one record of the collection.
    pub fn label(&self) -> (word: &'static str)
        ensures
            word@ == match *self {
                Reference::Context => "context"@,
                Reference::Cluster => "cluster"@,
                Reference::User => "user"@,
            },
    {
        match self {
            Reference::Context => "context",
            Reference::Cluster => "cluster",
            Reference::User => "user",
        }
    }
}

impl LoaderError {
    /// The family this error belongs to.
    pub fn kind(&self) -> (kind: ErrorKind)
        ensures
            kind == kind_of(self@),
    {
        match self {
            LoaderError::EncodingFailed { .. } => ErrorKind::SslError,
            _ => ErrorKind::KubeConfig,
        }
    }

    /// What went wrong, in words.
    pub fn message(&self) -> (text: String)
        ensures
            text@ == message_of(self@),
    {
        match self {
            LoaderError::ReferenceNotFound { reference, .. } => match reference {
                Reference::Context => String::from_str("unable to resolve current context"),
                Reference::Cluster => String::from_str("unable to resolve cluster of context"),
                Reference::User => String::from_str("unable to resolve user of context"),
            },
            LoaderError::MaterialMissing { material } => match material {
                Material::ClientCertificate => String::from_str(
                    "client certificate is not available",
                ),
                Material::ClientKey => String::from_str("client key is not available"),
            },
            LoaderError::CredentialMaterializationFailed { .. } => String::from_str(
                "unable to load credentials",
            ),
            LoaderError::EncodingFailed { .. } => String::from_str(
                "unable to encode certificate or key",
            ),
        }
    }
}

/// The error for a credential whose bytes the user's record does not hold.
pub open spec fn missing(material: Material) -> ErrorView {
    ErrorView::MaterialMissing { material }
}

/// The error for bytes that OpenSSL refused at `step`: it carries
/// OpenSSL's error stack as its cause.
pub open spec fn refused_by_openssl(step: EncodingStep) -> ErrorView {
    ErrorView::EncodingFailed { step, cause: CauseView::OpenSsl }
}

/// The error for bytes that the HTTP client's TLS layer refused at `step`:
/// it carries that layer's error as its cause.
pub open spec fn refused_by_tls(step: EncodingStep) -> ErrorView {
    ErrorView::EncodingFailed { step, cause: CauseView::Tls }
}

/// The error for a PEM text in which the reader found a fault at `step`.
pub open spec fn refused_by_pem(step: EncodingStep) -> ErrorView {
    ErrorView::EncodingFailed { step, cause: CauseView::Pem }
}

/// The error for bytes that are too many for the TLS library to take at
/// `step`.
pub open spec fn oversized(step: EncodingStep) -> ErrorView {
    ErrorView::EncodingFailed { step, cause: CauseView::Oversized }
}

/// Turns what OpenSSL returned at `step` into a result of the library: a
/// value passes through, an error stack becomes the cause of an encoding
/// failure at that step.
pub fn openssl_step<T>(outcome: Result<T, openssl::error::ErrorStack>, step: EncodingStep) -> (res:
    Result<T, LoaderError>)
    ensures
        match outcome {
            Ok(value) => res == Ok::<T, LoaderError>(value),
            Err(stack) => res == Err::<T, LoaderError>(
                (LoaderError::EncodingFailed { step, cause: Cause::OpenSsl(stack) }),
            ),
        },
{
    match outcome {
        Ok(value) => Ok(value),
        Err(stack) => Err(LoaderError::EncodingFailed { step, cause: Cause::OpenSsl(stack) }),
    }
}

/// Turns what the HTTP client's TLS layer returned at `step` into a result
/// of the library: a value passes through, an error becomes the cause of
/// an encoding failure at that step.
pub fn tls_step<T>(outcome: Result<T, reqwest::Error>, step: EncodingStep) -> (res: Result<
    T,
    LoaderError,
>)
    ensures
        match outcome {
            Ok(value) => res == Ok::<T, LoaderError>(value),
            Err(error) => res == Err::<T, LoaderError>(
                (LoaderError::EncodingFailed { step, cause: Cause::Tls(error) }),
            ),
        },
{
    match outcome {
        Ok(value) => Ok(value),
        Err(error) => Err(LoaderError::EncodingFailed { step, cause: Cause::Tls(error) }),
    }
}

/// Turns what the PEM reader returned at `step` into a result of the
/// library: a value passes through, a fault becomes the cause of an
/// encoding failure at that step.
pub fn pem_step<T>(outcome: Result<T, ()>, step: EncodingStep) -> (res: Result<T, LoaderError>)
    ensures
        match outcome {
            Ok(value) => res == Ok::<T, LoaderError>(value),
            Err(_) => res == Err::<T, LoaderError>(
                (LoaderError::EncodingFailed { step, cause: Cause::Pem }),
            ),
        },
{
    match outcome {
        Ok(value) => Ok(value),
        Err(_) => Err(LoaderError::EncodingFailed { step, cause: Cause::Pem }),
    }
}

} // verus!
