//! The records of a configuration and their mathematical views.
//!
//! Every record is plain data. Its view replaces each `String` by the
//! sequence of its characters and each byte buffer by the sequence of its
//! bytes, so that two records with equal views hold the same information.

use vstd::prelude::*;

verus! {

/// View of an optional string.
pub open spec fn text_view(text: Option<String>) -> Option<Seq<char>> {
    match text {
        Some(s) => Some(s@),
        None => None,
    }
}

/// View of an optional byte buffer.
pub open spec fn bytes_view(bytes: Option<Vec<u8>>) -> Option<Seq<u8>> {
    match bytes {
        Some(b) => Some(b@),
        None => None,
    }
}

/// View of a list of key-value settings.
pub open spec fn settings_view(settings: Seq<(String, String)>) -> Seq<(Seq<char>, Seq<char>)> {
    Seq::new(settings.len(), |i: int| (settings[i].0@, settings[i].1@))
}

/// Copies an optional string.
pub fn clone_text(text: &Option<String>) -> (copy: Option<String>)
    ensures
        text_view(copy) == text_view(*text),
{
    match text {
        Some(s) => Some(s.clone()),
        None => None,
    }
}

/// Copies an optional byte buffer.
pub fn clone_bytes(bytes: &Option<Vec<u8>>) -> (copy: Option<Vec<u8>>)
    ensures
        bytes_view(copy) == bytes_view(*bytes),
{
    match bytes {
        Some(b) => Some(b.clone()),
        None => None,
    }
}

/// Copies a list of key-value settings, keeping their order.
pub fn clone_settings(settings: &Vec<(String, String)>) -> (copy: Vec<(String, String)>)
    ensures
        settings_view(copy@) == settings_view(settings@),
{
    let mut copy: Vec<(String, String)> = Vec::new();
    let mut i: usize = 0;
    while i < settings.len()
        invariant
            i <= settings.len(),
            copy.len() == i,
            forall|j: int|
                0 <= j < i ==> copy[j].0@ == settings[j].0@ && copy[j].1@ == settings[j].1@,
        decreases settings.len() - i,
    {
        let pair = &settings[i];
        copy.push((pair.0.clone(), pair.1.clone()));
        i += 1;
    }
    assert(settings_view(copy@) =~= settings_view(settings@));
    copy
}

/// A pairing of a cluster reference and a user reference: one possible
/// choice of "which cluster, as whom".
#[derive(Debug)]
pub struct Context {
    /// Name of the cluster this context refers to.
    pub cluster: String,
    /// Name of the user this context refers to.
    pub user: String,
}

/// View of a [`Context`].
pub struct ContextView {
    pub cluster: Seq<char>,
    pub user: Seq<char>,
}

impl View for Context {
    type V = ContextView;

    open spec fn view(&self) -> ContextView {
        ContextView { cluster: self.cluster@, user: self.user@ }
    }
}

impl Clone for Context {
    fn clone(&self) -> (copy: Self)
        ensures
            copy@ == self@,
    {
        Context { cluster: self.cluster.clone(), user: self.user.clone() }
    }
}

/// Connection parameters of one cluster endpoint.
#[derive(Debug)]
pub struct Cluster {
    /// Address of the cluster endpoint.
    pub server: String,
    /// Whether the server's certificate is left unchecked.
    pub insecure_skip_tls_verify: bool,
    /// Path of a file that holds the certificate-authority bundle.
    pub certificate_authority: Option<String>,
    /// The certificate-authority bundle itself, PEM encoded.
    pub certificate_authority_data: Option<Vec<u8>>,
}

/// View of a [`Cluster`].
pub struct ClusterView {
    pub server: Seq<char>,
    pub insecure_skip_tls_verify: bool,
    pub certificate_authority: Option<Seq<char>>,
    pub certificate_authority_data: Option<Seq<u8>>,
}

impl View for Cluster {
    type V = ClusterView;

    open spec fn view(&self) -> ClusterView {
        ClusterView {
            server: self.server@,
            insecure_skip_tls_verify: self.insecure_skip_tls_verify,
            certificate_authority: text_view(self.certificate_authority),
            certificate_authority_data: bytes_view(self.certificate_authority_data),
        }
    }
}

impl Clone for Cluster {
    fn clone(&self) -> (copy: Self)
        ensures
            copy@ == self@,
    {
        Cluster {
            server: self.server.clone(),
            insecure_skip_tls_verify: self.insecure_skip_tls_verify,
            certificate_authority: clone_text(&self.certificate_authority),
            certificate_authority_data: clone_bytes(&self.certificate_authority_data),
        }
    }
}

/// Descriptor of an external provider that hands out credentials.
#[derive(Debug)]
pub struct AuthProviderConfig {
    /// Name of the provider.
    pub name: String,
    /// The provider's settings, in the order in which they were written.
    pub config: Vec<(String, String)>,
}

/// View of an [`AuthProviderConfig`].
pub struct AuthProviderConfigView {
    pub name: Seq<char>,
    pub config: Seq<(Seq<char>, Seq<char>)>,
}

impl View for AuthProviderConfig {
    type V = AuthProviderConfigView;

    open spec fn view(&self) -> AuthProviderConfigView {
        AuthProviderConfigView { name: self.name@, config: settings_view(self.config@) }
    }
}

impl Clone for AuthProviderConfig {
    fn clone(&self) -> (copy: Self)
        ensures
            copy@ == self@,
    {
        AuthProviderConfig { name: self.name.clone(), config: clone_settings(&self.config) }
    }
}

/// View of an optional provider descriptor.
pub open spec fn provider_view(provider: Option<AuthProviderConfig>) -> Option<
    AuthProviderConfigView,
> {
    match provider {
        Some(p) => Some(p@),
        None => None,
    }
}

/// Credential material for authenticating as one user.
#[derive(Debug)]
pub struct AuthInfo {
    /// Path of a file that holds the client certificate.
    pub client_certificate: Option<String>,
    /// The client certificate itself, PEM encoded.
    pub client_certificate_data: Option<Vec<u8>>,
    /// Path of a file that holds the client's private key.
    pub client_key: Option<String>,
    /// The client's private key itself, PEM encoded.
    pub client_key_data: Option<Vec<u8>>,
    /// Bearer token.
    pub token: Option<String>,
    /// External provider that hands out this user's credentials.
    pub auth_provider: Option<AuthProviderConfig>,
}

/// View of an [`AuthInfo`].
pub struct AuthInfoView {
    pub client_certificate: Option<Seq<char>>,
    pub client_certificate_data: Option<Seq<u8>>,
    pub client_key: Option<Seq<char>>,
    pub client_key_data: Option<Seq<u8>>,
    pub token: Option<Seq<char>>,
    pub auth_provider: Option<AuthProviderConfigView>,
}

impl View for AuthInfo {
    type V = AuthInfoView;

    open spec fn view(&self) -> AuthInfoView {
        AuthInfoView {
            client_certificate: text_view(self.client_certificate),
            client_certificate_data: bytes_view(self.client_certificate_data),
            client_key: text_view(self.client_key),
            client_key_data: bytes_view(self.client_key_data),
            token: text_view(self.token),
            auth_provider: provider_view(self.auth_provider),
        }
    }
}

impl Clone for AuthInfo {
    fn clone(&self) -> (copy: Self)
        ensures
            copy@ == self@,
    {
        let auth_provider = match &self.auth_provider {
            Some(p) => Some(p.clone()),
            None => None,
        };
        AuthInfo {
            client_certificate: clone_text(&self.client_certificate),
            client_certificate_data: clone_bytes(&self.client_certificate_data),
            client_key: clone_text(&self.client_key),
            client_key_data: clone_bytes(&self.client_key_data),
            token: clone_text(&self.token),
            auth_provider,
        }
    }
}

impl AuthInfo {
    /// Whether an external provider has to be asked for this user's
    /// credentials before they can be used. A user whose credentials are
    /// written in the configuration needs no such step.
    pub fn needs_materialization(&self) -> (needed: bool)
        ensures
            needed == self@.auth_provider.is_some(),
    {
        self.auth_provider.is_some()
    }
}

/// A context with its name.
#[derive(Debug)]
pub struct NamedContext {
    pub name: String,
    pub context: Context,
}

/// A cluster with its name.
#[derive(Debug)]
pub struct NamedCluster {
    pub name: String,
    pub cluster: Cluster,
}

/// A user's credentials with the user's name.
#[derive(Debug)]
pub struct NamedAuthInfo {
    pub name: String,
    pub auth_info: AuthInfo,
}

impl View for NamedContext {
    type V = (Seq<char>, ContextView);

    open spec fn view(&self) -> (Seq<char>, ContextView) {
        (self.name@, self.context@)
    }
}

impl View for NamedCluster {
    type V = (Seq<char>, ClusterView);

    open spec fn view(&self) -> (Seq<char>, ClusterView) {
        (self.name@, self.cluster@)
    }
}

impl View for NamedAuthInfo {
    type V = (Seq<char>, AuthInfoView);

    open spec fn view(&self) -> (Seq<char>, AuthInfoView) {
        (self.name@, self.auth_info@)
    }
}

/// A configuration: three named collections and the name of the context
/// that is used where the caller chooses none.
#[derive(Debug)]
pub struct Config {
    pub current_context: String,
    pub contexts: Vec<NamedContext>,
    pub clusters: Vec<NamedCluster>,
    pub auth_infos: Vec<NamedAuthInfo>,
}

/// View of a [`Config`]: each collection is the sequence of its records,
/// a record being its name and the view of its value.
pub struct ConfigView {
    pub current_context: Seq<char>,
    pub contexts: Seq<(Seq<char>, ContextView)>,
    pub clusters: Seq<(Seq<char>, ClusterView)>,
    pub auth_infos: Seq<(Seq<char>, AuthInfoView)>,
}

impl View for Config {
    type V = ConfigView;

    open spec fn view(&self) -> ConfigView {
        ConfigView {
            current_context: self.current_context@,
            contexts: Seq::new(self.contexts@.len(), |i: int| self.contexts@[i]@),
            clusters: Seq::new(self.clusters@.len(), |i: int| self.clusters@[i]@),
            auth_infos: Seq::new(self.auth_infos@.len(), |i: int| self.auth_infos@[i]@),
        }
    }
}

} // verus!
