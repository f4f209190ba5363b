//! Resolution of a multi-context cluster-access configuration into the
//! credentials and connection parameters of one cluster.
//!
//! A [`Config`] holds three named collections (contexts, clusters, users) and
//! the name of a default context. [`KubeConfigLoader::load`] selects a
//! context, then the cluster and the user it refers to, and returns owned
//! copies of the three records. From the resolved records the loader builds
//! the TLS client identity and the bundle of trusted certificate authorities
//! that a TLS client stack consumes.
//!
//! The library reads no file and opens no connection. Reading files and
//! fetching credentials from an external provider are left to the caller,
//! who hands the outcome back.

pub mod apis;
pub mod error;
pub mod identity;
pub mod loader;
pub mod materializer;
pub mod resolver;
pub mod tls;
pub mod trust;

pub use apis::{
    AuthInfo, AuthProviderConfig, Cluster, Config, Context, NamedAuthInfo, NamedCluster,
    NamedContext,
};
pub use error::{Cause, EncodingStep, ErrorKind, LoaderError, Material, Reference};
pub use loader::KubeConfigLoader;
pub use identity::Pkcs12Archive;
pub use trust::TrustedCertificate;
