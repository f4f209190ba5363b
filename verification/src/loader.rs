//! Resolution of a configuration into one context, one cluster and one user.

use vstd::prelude::*;
use crate::apis::{
    text_view, AuthInfo, AuthInfoView, Cluster, ClusterView, Config, ConfigView, Context,
    ContextView,
};
use crate::error::{ErrorView, LoaderError, Reference};
use crate::materializer::{accept_answer, answer_view, materialize};
use crate::resolver::{find, first_match, is_absent, lemma_first_match_none, lookup, records};

verus! {

/// The current context, its cluster and its user: what resolution yields.
///
/// The three records are owned copies. Nothing in a loader refers back to
/// the configuration it was resolved from, which may be changed or dropped
/// afterwards.
#[derive(Debug)]
pub struct KubeConfigLoader {
    pub current_context: Context,
    pub cluster: Cluster,
    pub user: AuthInfo,
}

/// View of a [`KubeConfigLoader`].
pub struct LoaderView {
    pub current_context: ContextView,
    pub cluster: ClusterView,
    pub user: AuthInfoView,
}

impl View for KubeConfigLoader {
    type V = LoaderView;

    open spec fn view(&self) -> LoaderView {
        LoaderView {
            current_context: self.current_context@,
            cluster: self.cluster@,
            user: self.user@,
        }
    }
}

/// View of what a resolution returns.
pub open spec fn outcome_view(outcome: Result<KubeConfigLoader, LoaderError>) -> Result<
    LoaderView,
    ErrorView,
> {
    match outcome {
        Ok(loader) => Ok(loader@),
        Err(error) => Err(error@),
    }
}

/// The name to look up: the caller's choice where there is one, else the
/// name that the configuration gives.
pub open spec fn chosen(choice: Option<Seq<char>>, given: Seq<char>) -> Seq<char> {
    match choice {
        Some(name) => name,
        None => given,
    }
}

/// The error for a name that its collection does not hold.
pub open spec fn not_found(reference: Reference, name: Seq<char>) -> ErrorView {
    ErrorView::ReferenceNotFound { reference, name }
}

/// What resolution yields.
///
/// The context is looked up under the caller's choice or else under the
/// configuration's current context. The cluster is looked up under the
/// caller's choice or else under the name the context refers to, and the
/// user likewise. The first lookup that finds nothing decides the error.
pub open spec fn resolve(
    config: ConfigView,
    context: Option<Seq<char>>,
    cluster: Option<Seq<char>>,
    user: Option<Seq<char>>,
) -> Result<LoaderView, ErrorView> {
    let context_name = chosen(context, config.current_context);
    match lookup(config.contexts, context_name) {
        None => Err(not_found(Reference::Context, context_name)),
        Some(current_context) => {
            let cluster_name = chosen(cluster, current_context.cluster);
            let user_name = chosen(user, current_context.user);
            match lookup(config.clusters, cluster_name) {
                None => Err(not_found(Reference::Cluster, cluster_name)),
                Some(cluster) => match lookup(config.auth_infos, user_name) {
                    None => Err(not_found(Reference::User, user_name)),
                    Some(user) => Ok(LoaderView { current_context, cluster, user }),
                },
            }
        },
    }
}

/// What a resolved loader becomes once the external provider has answered:
/// the provider's user in place of the resolved one, or the provider's
/// failure.
pub open spec fn materialized(resolved: LoaderView, outcome: Result<AuthInfo, String>) -> Result<
    LoaderView,
    ErrorView,
> {
    match answer_view(outcome) {
        Ok(user) => Ok(
            LoaderView {
                current_context: resolved.current_context,
                cluster: resolved.cluster,
                user,
            },
        ),
        Err(error) => Err(error),
    }
}

/// Resolution under three names that the configuration holds succeeds, and
/// each record of the result equals the first record of that name in its
/// collection.
pub proof fn lemma_resolve_present(
    config: ConfigView,
    context: Seq<char>,
    cluster: Seq<char>,
    user: Seq<char>,
)
    requires
        !is_absent(config.contexts, context),
        !is_absent(config.clusters, cluster),
        !is_absent(config.auth_infos, user),
    ensures
        resolve(config, Some(context), Some(cluster), Some(user)) matches Ok(loader) && {
            &&& first_match(config.contexts, context) matches Some(i)
                && loader.current_context == config.contexts[i].1
            &&& first_match(config.clusters, cluster) matches Some(j)
                && loader.cluster == config.clusters[j].1
            &&& first_match(config.auth_infos, user) matches Some(k)
                && loader.user == config.auth_infos[k].1
        },
{
    lemma_first_match_none(config.contexts, context);
    lemma_first_match_none(config.clusters, cluster);
    lemma_first_match_none(config.auth_infos, user);
}

/// A chosen context that the configuration does not hold fails the
/// resolution, and the error names the contexts and the chosen name.
pub proof fn lemma_unknown_context(
    config: ConfigView,
    context: Seq<char>,
    cluster: Option<Seq<char>>,
    user: Option<Seq<char>>,
)
    requires
        is_absent(config.contexts, context),
    ensures
        resolve(config, Some(context), cluster, user) == Err::<LoaderView, ErrorView>(
            not_found(Reference::Context, context),
        ),
{
    lemma_first_match_none(config.contexts, context);
}

/// A chosen cluster that the configuration does not hold fails the
/// resolution, and the error names the clusters and the chosen name.
/// This is said of a resolution whose context is found: a context that is
/// not found fails it first.
pub proof fn lemma_unknown_cluster(
    config: ConfigView,
    context: Option<Seq<char>>,
    cluster: Seq<char>,
    user: Option<Seq<char>>,
)
    requires
        !is_absent(config.contexts, chosen(context, config.current_context)),
        is_absent(config.clusters, cluster),
    ensures
        resolve(config, context, Some(cluster), user) == Err::<LoaderView, ErrorView>(
            not_found(Reference::Cluster, cluster),
        ),
{
    lemma_first_match_none(config.contexts, chosen(context, config.current_context));
    lemma_first_match_none(config.clusters, cluster);
}

/// A chosen user that the configuration does not hold fails the
/// resolution, and the error names the users and the chosen name.
/// This is said of a resolution whose context and cluster are found: one
/// that is not found fails it first.
pub proof fn lemma_unknown_user(
    config: ConfigView,
    context: Option<Seq<char>>,
    cluster: Option<Seq<char>>,
    user: Seq<char>,
)
    requires
        lookup(config.contexts, chosen(context, config.current_context)) matches Some(current)
            && !is_absent(config.clusters, chosen(cluster, current.cluster)),
        is_absent(config.auth_infos, user),
    ensures
        resolve(config, context, cluster, Some(user)) == Err::<LoaderView, ErrorView>(
            not_found(Reference::User, user),
        ),
{
    let current = lookup(config.contexts, chosen(context, config.current_context))->Some_0;
    lemma_first_match_none(config.clusters, chosen(cluster, current.cluster));
    lemma_first_match_none(config.auth_infos, user);
}

/// A chosen name takes precedence over the name that the configuration
/// would supply: a resolution that succeeds yields, for each name the
/// caller chose, the first record of that name, whatever the current
/// context of the configuration is and whatever cluster and user the
/// resolved context refers to.
pub proof fn lemma_choice_takes_precedence(
    config: ConfigView,
    context: Option<Seq<char>>,
    cluster: Option<Seq<char>>,
    user: Option<Seq<char>>,
)
    ensures
        resolve(config, context, cluster, user) matches Ok(loader) ==> {
            &&& context matches Some(name) ==> lookup(config.contexts, name) == Some(
                loader.current_context,
            )
            &&& cluster matches Some(name) ==> lookup(config.clusters, name) == Some(
                loader.cluster,
            )
            &&& user matches Some(name) ==> lookup(config.auth_infos, name) == Some(loader.user)
        },
{
}

/// A chosen cluster that the configuration holds is the cluster of the
/// result, where context and user are found: the cluster that the context
/// refers to plays no part.
pub proof fn lemma_chosen_cluster_wins(
    config: ConfigView,
    context: Option<Seq<char>>,
    cluster: Seq<char>,
    user: Option<Seq<char>>,
)
    requires
        lookup(config.contexts, chosen(context, config.current_context)) matches Some(current)
            && !is_absent(config.auth_infos, chosen(user, current.user)),
        !is_absent(config.clusters, cluster),
    ensures
        resolve(config, context, Some(cluster), user) matches Ok(loader) && first_match(
            config.clusters,
            cluster,
        ) matches Some(j) && loader.cluster == config.clusters[j].1,
{
    let current = lookup(config.contexts, chosen(context, config.current_context))->Some_0;
    lemma_first_match_none(config.clusters, cluster);
    lemma_first_match_none(config.auth_infos, chosen(user, current.user));
}

/// A chosen user that the configuration holds is the user of the result,
/// where context and cluster are found: the user that the context refers
/// to plays no part.
pub proof fn lemma_chosen_user_wins(
    config: ConfigView,
    context: Option<Seq<char>>,
    cluster: Option<Seq<char>>,
    user: Seq<char>,
)
    requires
        lookup(config.contexts, chosen(context, config.current_context)) matches Some(current)
            && !is_absent(config.clusters, chosen(cluster, current.cluster)),
        !is_absent(config.auth_infos, user),
    ensures
        resolve(config, context, cluster, Some(user)) matches Ok(loader) && first_match(
            config.auth_infos,
            user,
        ) matches Some(k) && loader.user == config.auth_infos[k].1,
{
    let current = lookup(config.contexts, chosen(context, config.current_context))->Some_0;
    lemma_first_match_none(config.clusters, chosen(cluster, current.cluster));
    lemma_first_match_none(config.auth_infos, user);
}

impl KubeConfigLoader {
    /// Resolves `config` into a context, a cluster and a user.
    ///
    /// Each of `context`, `cluster` and `user`, where given, takes the place
    /// of the name that the configuration would supply. The records found
    /// are copied into the loader as they stand: credentials that an
    /// external provider has to hand out are added afterwards with
    /// [`KubeConfigLoader::with_credentials`].
    pub fn load(
        config: &Config,
        context: Option<String>,
        cluster: Option<String>,
        user: Option<String>,
    ) -> (loaded: Result<KubeConfigLoader, LoaderError>)
        ensures
            outcome_view(loaded) == resolve(
                config@,
                text_view(context),
                text_view(cluster),
                text_view(user),
            ),
    {
        proof {
            assert(records(config.contexts@) =~= config@.contexts);
            assert(records(config.clusters@) =~= config@.clusters);
            assert(records(config.auth_infos@) =~= config@.auth_infos);
        }
        let context_name: &String = match &context {
            Some(name) => name,
            None => &config.current_context,
        };
        let current_context: &Context = match find(&config.contexts, context_name) {
            Some(named_context) => &named_context.context,
            None => {
                return Err(
                    LoaderError::ReferenceNotFound {
                        reference: Reference::Context,
                        name: context_name.clone(),
                    },
                );
            },
        };
        let cluster_name: &String = match &cluster {
            Some(name) => name,
            None => &current_context.cluster,
        };
        let cluster: &Cluster = match find(&config.clusters, cluster_name) {
            Some(named_cluster) => &named_cluster.cluster,
            None => {
                return Err(
                    LoaderError::ReferenceNotFound {
                        reference: Reference::Cluster,
                        name: cluster_name.clone(),
                    },
                );
            },
        };
        let user_name: &String = match &user {
            Some(name) => name,
            None => &current_context.user,
        };
        let user: &AuthInfo = match find(&config.auth_infos, user_name) {
            Some(named_user) => &named_user.auth_info,
            None => {
                return Err(
                    LoaderError::ReferenceNotFound {
                        reference: Reference::User,
                        name: user_name.clone(),
                    },
                );
            },
        };
        Ok(
            KubeConfigLoader {
                current_context: current_context.clone(),
                cluster: cluster.clone(),
                user: user.clone(),
            },
        )
    }

    /// Resolves `config` as [`KubeConfigLoader::load`] does and then makes
    /// the credentials of the resolved user usable.
    ///
    /// `fetch` stands for the external provider. It is called once, with a
    /// copy of the resolved user, where all three lookups have found their
    /// record and the user names a provider, and never otherwise. What it
    /// returns completes the resolution as in
    /// [`KubeConfigLoader::with_credentials`].
    pub fn load_with<F: FnOnce(AuthInfo) -> Result<AuthInfo, String>>(
        config: &Config,
        context: Option<String>,
        cluster: Option<String>,
        user: Option<String>,
        fetch: F,
    ) -> (loaded: Result<KubeConfigLoader, LoaderError>)
        requires
            forall|found: AuthInfo| call_requires(fetch, (found,)),
        ensures
            match resolve(config@, text_view(context), text_view(cluster), text_view(user)) {
                Err(error) => outcome_view(loaded) == Err::<LoaderView, ErrorView>(error),
                Ok(resolved) => if resolved.user.auth_provider is None {
                    outcome_view(loaded) == Ok::<LoaderView, ErrorView>(resolved)
                } else {
                    exists|found: AuthInfo, outcome: Result<AuthInfo, String>|
                        found@ == resolved.user && #[trigger] call_ensures(
                            fetch,
                            (found,),
                            outcome,
                        ) && outcome_view(loaded) == materialized(resolved, outcome)
                },
            },
    {
        match KubeConfigLoader::load(config, context, cluster, user) {
            Ok(loader) => {
                let found = loader.user.clone();
                match materialize(found, fetch) {
                    Ok(user) => Ok(
                        KubeConfigLoader {
                            current_context: loader.current_context,
                            cluster: loader.cluster,
                            user,
                        },
                    ),
                    Err(error) => Err(error),
                }
            },
            Err(error) => Err(error),
        }
    }

    /// Completes a resolution with what the external provider handed out.
    ///
    /// Where the provider failed the resolution fails with it, and no
    /// half-loaded user is put in its place. Where it succeeded, the user
    /// it returned replaces the resolved one; context and cluster stay.
    pub fn with_credentials(self, outcome: Result<AuthInfo, String>) -> (loaded: Result<
        KubeConfigLoader,
        LoaderError,
    >)
        ensures
            outcome_view(loaded) == materialized(self@, outcome),
    {
        match accept_answer(outcome) {
            Ok(user) => Ok(
                KubeConfigLoader {
                    current_context: self.current_context,
                    cluster: self.cluster,
                    user,
                },
            ),
            Err(error) => Err(error),
        }
    }
}

} // verus!
