use kubeconfig_loader::{
    AuthInfo, AuthProviderConfig, Cluster, Config, Context, ErrorKind, KubeConfigLoader,
    LoaderError, NamedAuthInfo, NamedCluster, NamedContext, Reference,
};

fn context(cluster: &str, user: &str) -> Context {
    Context { cluster: cluster.to_string(), user: user.to_string() }
}

fn cluster(server: &str, ca: Option<&[u8]>) -> Cluster {
    Cluster {
        server: server.to_string(),
        insecure_skip_tls_verify: false,
        certificate_authority: None,
        certificate_authority_data: ca.map(|bytes| bytes.to_vec()),
    }
}

fn user(certificate: &[u8], key: &[u8]) -> AuthInfo {
    AuthInfo {
        client_certificate: None,
        client_certificate_data: Some(certificate.to_vec()),
        client_key: None,
        client_key_data: Some(key.to_vec()),
        token: None,
        auth_provider: None,
    }
}

fn named_context(name: &str, cluster: &str, user: &str) -> NamedContext {
    NamedContext { name: name.to_string(), context: context(cluster, user) }
}

fn named_cluster(name: &str, server: &str) -> NamedCluster {
    NamedCluster { name: name.to_string(), cluster: cluster(server, Some(b"ca of ")) }
}

fn named_user(name: &str, certificate: &[u8]) -> NamedAuthInfo {
    NamedAuthInfo { name: name.to_string(), auth_info: user(certificate, b"key") }
}

fn example_config() -> Config {
    Config {
        current_context: "dev".to_string(),
        contexts: vec![named_context("dev", "c1", "u1")],
        clusters: vec![NamedCluster {
            name: "c1".to_string(),
            cluster: cluster("https://x", Some(b"bytes")),
        }],
        auth_infos: vec![NamedAuthInfo {
            name: "u1".to_string(),
            auth_info: user(b"cert", b"key"),
        }],
    }
}

fn wide_config() -> Config {
    Config {
        current_context: "dev".to_string(),
        contexts: vec![
            named_context("dev", "a", "alice"),
            named_context("prod", "b", "bob"),
            named_context("dev", "b", "bob"),
            named_context("broken-cluster", "nowhere", "alice"),
            named_context("broken-user", "a", "nobody"),
        ],
        clusters: vec![
            named_cluster("a", "https://a.example"),
            named_cluster("b", "https://b.example"),
            named_cluster("a", "https://shadowed.example"),
            named_cluster("B", "https://upper.example"),
        ],
        auth_infos: vec![
            named_user("alice", b"alice-cert"),
            named_user("bob", b"bob-cert"),
            named_user("alice", b"shadowed-cert"),
        ],
    }
}

fn name(text: &str) -> Option<String> {
    Some(text.to_string())
}

fn not_found(outcome: Result<KubeConfigLoader, LoaderError>) -> (Reference, String) {
    match outcome {
        Err(LoaderError::ReferenceNotFound { reference, name }) => (reference, name),
        other => panic!("expected a reference that is not found, got {:?}", other),
    }
}

#[test]
fn example_scenario_resolves_default_context() {
    let config = example_config();
    let loader = KubeConfigLoader::load(&config, None, None, None).unwrap();
    assert_eq!(loader.cluster.server, "https://x");
    assert_eq!(loader.cluster.certificate_authority_data, Some(b"bytes".to_vec()));
    assert_eq!(loader.current_context.cluster, "c1");
    assert_eq!(loader.current_context.user, "u1");
    assert_eq!(loader.user.client_certificate_data, Some(b"cert".to_vec()));
    assert_eq!(loader.user.client_key_data, Some(b"key".to_vec()));
    assert_eq!(loader.user.client_certificate, None);
    assert_eq!(loader.user.client_key, None);
    assert_eq!(loader.user.token, None);
    assert!(loader.user.auth_provider.is_none());
}

#[test]
fn example_scenario_missing_cluster_override() {
    let config = example_config();
    let outcome = KubeConfigLoader::load(&config, None, name("missing"), None);
    let (reference, missing) = not_found(outcome);
    assert_eq!(reference, Reference::Cluster);
    assert_eq!(reference.label(), "cluster");
    assert_eq!(missing, "missing");
}

#[test]
fn resolve_returns_the_referenced_records() {
    let config = wide_config();
    let loader = KubeConfigLoader::load(&config, name("prod"), name("b"), name("bob")).unwrap();
    assert_eq!(loader.current_context.cluster, "b");
    assert_eq!(loader.current_context.user, "bob");
    assert_eq!(loader.cluster.server, "https://b.example");
    assert_eq!(loader.cluster.insecure_skip_tls_verify, false);
    assert_eq!(loader.cluster.certificate_authority, None);
    assert_eq!(loader.cluster.certificate_authority_data, Some(b"ca of ".to_vec()));
    assert_eq!(loader.user.client_certificate_data, Some(b"bob-cert".to_vec()));
    assert_eq!(loader.user.client_key_data, Some(b"key".to_vec()));
}

#[test]
fn resolve_follows_the_references_of_the_context() {
    let config = wide_config();
    let loader = KubeConfigLoader::load(&config, name("prod"), None, None).unwrap();
    assert_eq!(loader.cluster.server, "https://b.example");
    assert_eq!(loader.user.client_certificate_data, Some(b"bob-cert".to_vec()));
}

#[test]
fn resolve_copies_every_field_of_the_user() {
    let mut config = example_config();
    config.auth_infos[0].auth_info = AuthInfo {
        client_certificate: Some("/etc/cert.pem".to_string()),
        client_certificate_data: None,
        client_key: Some("/etc/key.pem".to_string()),
        client_key_data: Some(vec![0, 255, 7]),
        token: Some("t0k3n".to_string()),
        auth_provider: Some(AuthProviderConfig {
            name: "gcp".to_string(),
            config: vec![
                ("expiry".to_string(), "never".to_string()),
                ("access-token".to_string(), "abc".to_string()),
            ],
        }),
    };
    config.clusters[0].cluster.certificate_authority = Some("/etc/ca.pem".to_string());
    config.clusters[0].cluster.insecure_skip_tls_verify = true;
    let loader = KubeConfigLoader::load(&config, None, None, None).unwrap();
    assert_eq!(loader.user.client_certificate, Some("/etc/cert.pem".to_string()));
    assert_eq!(loader.user.client_certificate_data, None);
    assert_eq!(loader.user.client_key, Some("/etc/key.pem".to_string()));
    assert_eq!(loader.user.client_key_data, Some(vec![0, 255, 7]));
    assert_eq!(loader.user.token, Some("t0k3n".to_string()));
    let provider = loader.user.auth_provider.as_ref().unwrap();
    assert_eq!(provider.name, "gcp");
    assert_eq!(
        provider.config,
        vec![
            ("expiry".to_string(), "never".to_string()),
            ("access-token".to_string(), "abc".to_string()),
        ]
    );
    assert_eq!(loader.cluster.certificate_authority, Some("/etc/ca.pem".to_string()));
    assert_eq!(loader.cluster.insecure_skip_tls_verify, true);
}

#[test]
fn resolved_loader_does_not_alias_the_configuration() {
    let mut config = example_config();
    let loader = KubeConfigLoader::load(&config, None, None, None).unwrap();
    config.clusters[0].cluster.server = "https://changed".to_string();
    config.contexts[0].context.cluster = "other".to_string();
    config.auth_infos[0].auth_info.client_certificate_data = Some(b"changed".to_vec());
    config.current_context = "gone".to_string();
    assert_eq!(loader.cluster.server, "https://x");
    assert_eq!(loader.current_context.cluster, "c1");
    assert_eq!(loader.user.client_certificate_data, Some(b"cert".to_vec()));
    drop(config);
    assert_eq!(loader.cluster.server, "https://x");
}

#[test]
fn resolution_is_repeatable() {
    let config = wide_config();
    let first = KubeConfigLoader::load(&config, name("prod"), None, name("alice")).unwrap();
    let second = KubeConfigLoader::load(&config, name("prod"), None, name("alice")).unwrap();
    assert_eq!(first.cluster.server, second.cluster.server);
    assert_eq!(first.current_context.user, second.current_context.user);
    assert_eq!(first.user.client_certificate_data, second.user.client_certificate_data);
}

#[test]
fn absent_context_override_names_the_contexts() {
    let config = wide_config();
    let (reference, missing) = not_found(KubeConfigLoader::load(&config, name("nope"), None, None));
    assert_eq!(reference, Reference::Context);
    assert_eq!(reference.label(), "context");
    assert_eq!(missing, "nope");
}

#[test]
fn absent_cluster_override_names_the_clusters() {
    let config = wide_config();
    let (reference, missing) = not_found(KubeConfigLoader::load(&config, None, name("nope"), None));
    assert_eq!(reference, Reference::Cluster);
    assert_eq!(missing, "nope");
}

#[test]
fn absent_user_override_names_the_users() {
    let config = wide_config();
    let (reference, missing) = not_found(KubeConfigLoader::load(&config, None, None, name("nope")));
    assert_eq!(reference, Reference::User);
    assert_eq!(reference.label(), "user");
    assert_eq!(missing, "nope");
}

#[test]
fn absent_context_is_reported_before_absent_cluster_and_user() {
    let config = wide_config();
    let outcome = KubeConfigLoader::load(&config, name("no-context"), name("no-cluster"), name("no-user"));
    let (reference, missing) = not_found(outcome);
    assert_eq!(reference, Reference::Context);
    assert_eq!(missing, "no-context");
}

#[test]
fn absent_cluster_is_reported_before_absent_user() {
    let config = wide_config();
    let outcome = KubeConfigLoader::load(&config, None, name("no-cluster"), name("no-user"));
    let (reference, missing) = not_found(outcome);
    assert_eq!(reference, Reference::Cluster);
    assert_eq!(missing, "no-cluster");
}

#[test]
fn absent_current_context_names_the_configured_default() {
    let mut config = example_config();
    config.current_context = "elsewhere".to_string();
    let (reference, missing) = not_found(KubeConfigLoader::load(&config, None, None, None));
    assert_eq!(reference, Reference::Context);
    assert_eq!(missing, "elsewhere");
}

#[test]
fn dangling_cluster_reference_of_a_context_fails() {
    let config = wide_config();
    let outcome = KubeConfigLoader::load(&config, name("broken-cluster"), None, None);
    let (reference, missing) = not_found(outcome);
    assert_eq!(reference, Reference::Cluster);
    assert_eq!(missing, "nowhere");
}

#[test]
fn dangling_user_reference_of_a_context_fails() {
    let config = wide_config();
    let outcome = KubeConfigLoader::load(&config, name("broken-user"), None, None);
    let (reference, missing) = not_found(outcome);
    assert_eq!(reference, Reference::User);
    assert_eq!(missing, "nobody");
}

#[test]
fn empty_configuration_has_no_context() {
    let config = Config {
        current_context: String::new(),
        contexts: vec![],
        clusters: vec![],
        auth_infos: vec![],
    };
    let (reference, missing) = not_found(KubeConfigLoader::load(&config, None, None, None));
    assert_eq!(reference, Reference::Context);
    assert_eq!(missing, "");
}

#[test]
fn cluster_override_takes_precedence_over_the_context() {
    let config = wide_config();
    let by_context = KubeConfigLoader::load(&config, None, None, None).unwrap();
    assert_eq!(by_context.cluster.server, "https://a.example");
    let overridden = KubeConfigLoader::load(&config, None, name("b"), None).unwrap();
    assert_eq!(overridden.cluster.server, "https://b.example");
    assert_eq!(overridden.current_context.cluster, "a");
    assert_eq!(overridden.user.client_certificate_data, Some(b"alice-cert".to_vec()));
}

#[test]
fn user_override_takes_precedence_over_the_context() {
    let config = wide_config();
    let overridden = KubeConfigLoader::load(&config, None, None, name("bob")).unwrap();
    assert_eq!(overridden.user.client_certificate_data, Some(b"bob-cert".to_vec()));
    assert_eq!(overridden.current_context.user, "alice");
    assert_eq!(overridden.cluster.server, "https://a.example");
}

#[test]
fn context_override_takes_precedence_over_the_current_context() {
    let config = wide_config();
    let overridden = KubeConfigLoader::load(&config, name("prod"), None, None).unwrap();
    assert_eq!(overridden.current_context.cluster, "b");
    assert_eq!(overridden.current_context.user, "bob");
}

#[test]
fn overrides_rescue_a_context_with_dangling_references() {
    let config = wide_config();
    let loader = KubeConfigLoader::load(&config, name("broken-cluster"), name("b"), None).unwrap();
    assert_eq!(loader.cluster.server, "https://b.example");
    assert_eq!(loader.current_context.cluster, "nowhere");
    let loader = KubeConfigLoader::load(&config, name("broken-user"), None, name("bob")).unwrap();
    assert_eq!(loader.user.client_certificate_data, Some(b"bob-cert".to_vec()));
}

#[test]
fn first_record_of_a_name_wins() {
    let config = wide_config();
    let loader = KubeConfigLoader::load(&config, name("dev"), name("a"), name("alice")).unwrap();
    assert_eq!(loader.current_context.cluster, "a");
    assert_eq!(loader.current_context.user, "alice");
    assert_eq!(loader.cluster.server, "https://a.example");
    assert_eq!(loader.user.client_certificate_data, Some(b"alice-cert".to_vec()));
}

#[test]
fn names_are_compared_exactly() {
    let config = wide_config();
    let loader = KubeConfigLoader::load(&config, None, name("B"), None).unwrap();
    assert_eq!(loader.cluster.server, "https://upper.example");
    let (reference, missing) = not_found(KubeConfigLoader::load(&config, None, name("A"), None));
    assert_eq!(reference, Reference::Cluster);
    assert_eq!(missing, "A");
    let (reference, _) = not_found(KubeConfigLoader::load(&config, name("Dev"), None, None));
    assert_eq!(reference, Reference::Context);
    let (reference, _) = not_found(KubeConfigLoader::load(&config, name("dev "), None, None));
    assert_eq!(reference, Reference::Context);
}

#[test]
fn find_returns_the_first_match_or_nothing() {
    let config = wide_config();
    let found = kubeconfig_loader::resolver::find(&config.clusters, &"a".to_string()).unwrap();
    assert_eq!(found.cluster.server, "https://a.example");
    assert!(std::ptr::eq(found, &config.clusters[0]));
    let found = kubeconfig_loader::resolver::find(&config.auth_infos, &"bob".to_string()).unwrap();
    assert!(std::ptr::eq(found, &config.auth_infos[1]));
    let found = kubeconfig_loader::resolver::find(&config.contexts, &"broken-user".to_string());
    assert!(std::ptr::eq(found.unwrap(), &config.contexts[4]));
    assert!(kubeconfig_loader::resolver::find(&config.contexts, &"zzz".to_string()).is_none());
    let empty: Vec<NamedCluster> = vec![];
    assert!(kubeconfig_loader::resolver::find(&empty, &"a".to_string()).is_none());
}

#[test]
fn reference_errors_carry_their_messages() {
    let config = wide_config();
    let error = KubeConfigLoader::load(&config, name("nope"), None, None).unwrap_err();
    assert_eq!(error.message(), "unable to resolve current context");
    assert_eq!(error.kind(), ErrorKind::KubeConfig);
    let error = KubeConfigLoader::load(&config, None, name("nope"), None).unwrap_err();
    assert_eq!(error.message(), "unable to resolve cluster of context");
    assert_eq!(error.kind(), ErrorKind::KubeConfig);
    let error = KubeConfigLoader::load(&config, None, None, name("nope")).unwrap_err();
    assert_eq!(error.message(), "unable to resolve user of context");
    assert_eq!(error.kind(), ErrorKind::KubeConfig);
}

#[test]
fn with_credentials_replaces_the_user() {
    let config = example_config();
    let loader = KubeConfigLoader::load(&config, None, None, None).unwrap();
    let mut fetched = loader.user.clone();
    fetched.token = Some("fresh".to_string());
    fetched.client_certificate_data = Some(b"fetched-cert".to_vec());
    let loader = loader.with_credentials(Ok(fetched)).unwrap();
    assert_eq!(loader.user.token, Some("fresh".to_string()));
    assert_eq!(loader.user.client_certificate_data, Some(b"fetched-cert".to_vec()));
    assert_eq!(loader.user.client_key_data, Some(b"key".to_vec()));
    assert_eq!(loader.cluster.server, "https://x");
    assert_eq!(loader.current_context.user, "u1");
}

#[test]
fn with_credentials_propagates_the_failure() {
    let config = example_config();
    let loader = KubeConfigLoader::load(&config, None, None, None).unwrap();
    let error = loader.with_credentials(Err("token endpoint down".to_string())).unwrap_err();
    assert!(matches!(
        &error,
        LoaderError::CredentialMaterializationFailed { reason } if reason == "token endpoint down"
    ));
    assert_eq!(error.message(), "unable to load credentials");
    assert_eq!(error.kind(), ErrorKind::KubeConfig);
}

fn provided_config() -> Config {
    let mut config = wide_config();
    config.auth_infos[1].auth_info.auth_provider = Some(AuthProviderConfig {
        name: "gcp".to_string(),
        config: vec![("expiry".to_string(), "2019-01-01".to_string())],
    });
    config
}

#[test]
fn load_with_hands_the_resolved_user_to_the_provider() {
    let config = provided_config();
    let mut calls = 0;
    let mut seen = None;
    let loader = KubeConfigLoader::load_with(&config, name("prod"), None, None, |mut found: AuthInfo| {
        calls += 1;
        seen = found.client_certificate_data.clone();
        found.token = Some("minted".to_string());
        Ok(found)
    })
    .unwrap();
    assert_eq!(calls, 1);
    assert_eq!(seen, Some(b"bob-cert".to_vec()));
    assert_eq!(loader.user.token, Some("minted".to_string()));
    assert_eq!(loader.user.client_certificate_data, Some(b"bob-cert".to_vec()));
    assert_eq!(loader.user.auth_provider.as_ref().unwrap().name, "gcp");
    assert_eq!(loader.cluster.server, "https://b.example");
    assert_eq!(loader.current_context.user, "bob");
    assert_eq!(config.auth_infos[1].auth_info.token, None);
}

#[test]
fn load_with_fails_when_the_provider_fails() {
    let config = provided_config();
    let outcome = KubeConfigLoader::load_with(&config, None, None, name("bob"), |_found: AuthInfo| {
        Err("expired".to_string())
    });
    assert!(matches!(
        outcome,
        Err(LoaderError::CredentialMaterializationFailed { reason }) if reason == "expired"
    ));
}

#[test]
fn load_with_does_not_ask_the_provider_for_written_credentials() {
    let config = provided_config();
    let mut calls = 0;
    let loader = KubeConfigLoader::load_with(&config, None, None, None, |_found: AuthInfo| {
        calls += 1;
        Err("must not be asked".to_string())
    })
    .unwrap();
    assert_eq!(calls, 0);
    assert_eq!(loader.user.client_certificate_data, Some(b"alice-cert".to_vec()));
    assert_eq!(loader.user.token, None);
    assert_eq!(loader.cluster.server, "https://a.example");
}

#[test]
fn load_with_does_not_ask_the_provider_after_a_failed_lookup() {
    let config = provided_config();
    let mut calls = 0;
    let outcome = KubeConfigLoader::load_with(&config, name("prod"), name("ghost"), None, |found: AuthInfo| {
        calls += 1;
        Ok(found)
    });
    let (reference, missing) = not_found(outcome);
    assert_eq!(reference, Reference::Cluster);
    assert_eq!(missing, "ghost");
    assert_eq!(calls, 0);
}

#[test]
fn materialize_asks_only_for_users_with_a_provider() {
    let plain = user(b"cert", b"key");
    let ready = kubeconfig_loader::materializer::materialize(plain, |_user: AuthInfo| {
        Err("must not be asked".to_string())
    })
    .unwrap();
    assert_eq!(ready.client_certificate_data, Some(b"cert".to_vec()));
    let mut provided = user(b"cert", b"key");
    provided.auth_provider = Some(AuthProviderConfig { name: "oidc".to_string(), config: vec![] });
    let ready = kubeconfig_loader::materializer::materialize(provided.clone(), |mut user: AuthInfo| {
        user.client_key_data = Some(b"fetched-key".to_vec());
        Ok(user)
    })
    .unwrap();
    assert_eq!(ready.client_key_data, Some(b"fetched-key".to_vec()));
    assert_eq!(ready.client_certificate_data, Some(b"cert".to_vec()));
    let error = kubeconfig_loader::materializer::materialize(provided, |_user: AuthInfo| {
        Err("no network".to_string())
    })
    .unwrap_err();
    assert!(matches!(
        error,
        LoaderError::CredentialMaterializationFailed { reason } if reason == "no network"
    ));
}

#[test]
fn accept_answer_keeps_the_user_or_the_reason() {
    let answer = kubeconfig_loader::materializer::accept_answer(Ok(user(b"c", b"k"))).unwrap();
    assert_eq!(answer.client_certificate_data, Some(b"c".to_vec()));
    let error = kubeconfig_loader::materializer::accept_answer(Err("why".to_string())).unwrap_err();
    assert!(matches!(
        error,
        LoaderError::CredentialMaterializationFailed { reason } if reason == "why"
    ));
}

#[test]
fn only_users_with_a_provider_need_materialization() {
    let mut plain = user(b"cert", b"key");
    assert!(!plain.needs_materialization());
    plain.auth_provider = Some(AuthProviderConfig { name: "gcp".to_string(), config: vec![] });
    assert!(plain.needs_materialization());
}

#[test]
fn records_are_cloned_field_by_field() {
    let source = named_cluster("a", "https://a.example").cluster;
    let copy = source.clone();
    assert_eq!(copy.server, source.server);
    assert_eq!(copy.certificate_authority_data, source.certificate_authority_data);
    let source = context("c", "u");
    let copy = source.clone();
    assert_eq!((copy.cluster.as_str(), copy.user.as_str()), ("c", "u"));
    let provider = AuthProviderConfig {
        name: "p".to_string(),
        config: vec![("k1".to_string(), "v1".to_string()), ("k2".to_string(), "v2".to_string())],
    };
    let copy = provider.clone();
    assert_eq!(copy.name, "p");
    assert_eq!(copy.config, provider.config);
}
