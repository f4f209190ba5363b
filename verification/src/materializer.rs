//! Credentials that an external provider hands out.
//!
//! A user whose record names a provider has no usable credentials until the
//! provider has been asked. Asking is the caller's business: it may start a
//! process or call a service. What this module decides is whether to ask,
//! and what becomes of the answer.

use vstd::prelude::*;
use crate::apis::AuthInfo;
use crate::error::{ErrorView, LoaderError};

verus! {

/// What becomes of a provider's answer: the user it returned, or its
/// failure as an error of the library.
pub open spec fn answer_view(outcome: Result<AuthInfo, String>) -> Result<
    <AuthInfo as View>::V,
    ErrorView,
> {
    match outcome {
        Ok(user) => Ok(user@),
        Err(reason) => Err(ErrorView::CredentialMaterializationFailed { reason: reason@ }),
    }
}

/// View of what materialization returns.
pub open spec fn materialized_view(outcome: Result<AuthInfo, LoaderError>) -> Result<
    <AuthInfo as View>::V,
    ErrorView,
> {
    match outcome {
        Ok(user) => Ok(user@),
        Err(error) => Err(error@),
    }
}

/// Turns a provider's answer into a result of the library.
pub fn accept_answer(outcome: Result<AuthInfo, String>) -> (accepted: Result<AuthInfo, LoaderError>)
    ensures
        materialized_view(accepted) == answer_view(outcome),
        outcome matches Ok(user) ==> accepted == Ok::<AuthInfo, LoaderError>(user),
{
    match outcome {
        Ok(user) => Ok(user),
        Err(reason) => Err(LoaderError::CredentialMaterializationFailed { reason }),
    }
}

/// Makes the credentials of `user` usable.
///
/// A user without a provider is returned as it is and `fetch` is not
/// called. A user with a provider is handed to `fetch`, once, and the
/// answer of `fetch` is the result: the user it returns, or its failure.
pub fn materialize<F: FnOnce(AuthInfo) -> Result<AuthInfo, String>>(user: AuthInfo, fetch: F) -> (ready:
    Result<AuthInfo, LoaderError>)
    requires
        call_requires(fetch, (user,)),
    ensures
        user@.auth_provider is None ==> ready == Ok::<AuthInfo, LoaderError>(user),
        user@.auth_provider is Some ==> exists|outcome: Result<AuthInfo, String>| #[trigger]
            call_ensures(fetch, (user,), outcome) && materialized_view(ready) == answer_view(
                outcome,
            ),
{
    if user.needs_materialization() {
        let outcome = fetch(user);
        accept_answer(outcome)
    } else {
        Ok(user)
    }
}

} // verus!
