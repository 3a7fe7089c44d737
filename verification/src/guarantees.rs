//! What holds of every decision the login gate takes.

use vstd::prelude::*;
use crate::decision::DecisionView;
use crate::identity::{VerifiedIdentity, subject_of};
use crate::policy::{
    computes, decision_for, evaluates_to, evaluation, login_location, may_answer, token_of,
};

verus! {

/// The verifier's answers for `cookie` agree on whether there is an identity.
pub open spec fn settled<F: Fn(&str) -> Option<VerifiedIdentity>>(
    verify: F,
    cookie: Option<&str>,
) -> bool {
    forall|first: Option<VerifiedIdentity>, second: Option<VerifiedIdentity>|
        #[trigger] may_answer(verify, cookie, first) && #[trigger] may_answer(verify, cookie, second)
            ==> (first is Some <==> second is Some)
}

/// A request is forwarded exactly when it has an identity or asks for an
/// exempt path; every other request is sent to the login page.
pub proof fn forward_needs_identity_or_exemption(
    exempt: Set<Seq<char>>,
    identity: Option<Seq<char>>,
    path: Seq<char>,
)
    ensures
        decision_for(exempt, identity, path) == DecisionView::Forward <==> identity is Some
            || exempt.contains(path),
        decision_for(exempt, identity, path) != DecisionView::Forward ==> decision_for(
            exempt,
            identity,
            path,
        ) == DecisionView::RedirectTo(login_location()),
{
}

/// A request whose credential the verifier accepts is forwarded, whatever
/// path it asks for.
pub proof fn valid_credential_is_forwarded(
    exempt: Set<Seq<char>>,
    verify: spec_fn(Seq<char>) -> Option<Seq<char>>,
    token: Seq<char>,
    path: Seq<char>,
)
    requires
        verify(token) is Some,
    ensures
        evaluation(exempt, verify, Some(token), path) == DecisionView::Forward,
{
}

/// A request without a credential that asks for an exempt path is forwarded.
pub proof fn anonymous_exempt_is_forwarded(
    exempt: Set<Seq<char>>,
    verify: spec_fn(Seq<char>) -> Option<Seq<char>>,
    path: Seq<char>,
)
    requires
        exempt.contains(path),
    ensures
        evaluation(exempt, verify, None, path) == DecisionView::Forward,
{
}

/// A request without a credential that asks for any other path is sent to
/// the login page.
pub proof fn anonymous_protected_is_redirected(
    exempt: Set<Seq<char>>,
    verify: spec_fn(Seq<char>) -> Option<Seq<char>>,
    path: Seq<char>,
)
    requires
        !exempt.contains(path),
    ensures
        evaluation(exempt, verify, None, path) == DecisionView::RedirectTo("/login"@),
{
}

/// A credential that the verifier rejects changes nothing: the decision is
/// the one for the same path with no credential at all.
pub proof fn rejected_credential_is_as_none(
    exempt: Set<Seq<char>>,
    verify: spec_fn(Seq<char>) -> Option<Seq<char>>,
    token: Seq<char>,
    path: Seq<char>,
)
    requires
        verify(token) is None,
    ensures
        evaluation(exempt, verify, Some(token), path) == evaluation(exempt, verify, None, path),
{
}

/// The same, of the executable verifier: where it can only reject the
/// cookie, every decision the login gate may take is one it may take
/// without the cookie.
pub proof fn rejected_cookie_is_as_none<F: Fn(&str) -> Option<VerifiedIdentity>>(
    exempt: Set<Seq<char>>,
    verify: F,
    cookie: Option<&str>,
    path: Seq<char>,
    decision: DecisionView,
)
    requires
        forall|outcome: Option<VerifiedIdentity>| #[trigger]
            may_answer(verify, cookie, outcome) ==> outcome is None,
        evaluates_to(exempt, verify, cookie, path, decision),
    ensures
        evaluates_to(exempt, verify, None, path, decision),
{
    let outcome = choose|outcome: Option<VerifiedIdentity>| #[trigger]
        may_answer(verify, cookie, outcome) && decision == decision_for(
            exempt,
            subject_of(outcome),
            path,
        );
    assert(may_answer(verify, None, outcome));
}

/// Two decisions for the same request are the same decision, as long as the
/// verifier does not change its mind about the cookie or the path is exempt.
pub proof fn same_request_same_decision<F: Fn(&str) -> Option<VerifiedIdentity>>(
    exempt: Set<Seq<char>>,
    verify: F,
    cookie: Option<&str>,
    path: Seq<char>,
    first: DecisionView,
    second: DecisionView,
)
    requires
        settled(verify, cookie) || exempt.contains(path),
        evaluates_to(exempt, verify, cookie, path, first),
        evaluates_to(exempt, verify, cookie, path, second),
    ensures
        first == second,
{
}

/// With a verifier that computes `model`, the one decision the login gate
/// may take is the one that `model` gives, and the verifier is settled.
pub proof fn decision_follows_model<F: Fn(&str) -> Option<VerifiedIdentity>>(
    exempt: Set<Seq<char>>,
    verify: F,
    model: spec_fn(Seq<char>) -> Option<Seq<char>>,
    cookie: Option<&str>,
    path: Seq<char>,
    decision: DecisionView,
)
    requires
        computes(verify, model),
        evaluates_to(exempt, verify, cookie, path, decision),
    ensures
        decision == evaluation(exempt, model, token_of(cookie), path),
        settled(verify, cookie),
{
}

} // verus!
