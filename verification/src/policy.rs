//! The rule of the login gate as mathematics: which decision is owed to
//! which request.

use vstd::prelude::*;
use crate::decision::DecisionView;
use crate::identity::{VerifiedIdentity, subject_of};

verus! {

/// Where a request without a valid credential is sent.
pub const LOGIN_PATH: &'static str = "/login";

/// The redirect target as a sequence of characters.
pub open spec fn login_location() -> Seq<char> {
    "/login"@
}

/// The identity behind a request: what the verification capability `verify`
/// makes of the cookie, and none where no cookie was sent.
pub open spec fn identity_of(
    verify: spec_fn(Seq<char>) -> Option<Seq<char>>,
    cookie: Option<Seq<char>>,
) -> Option<Seq<char>> {
    match cookie {
        Some(token) => verify(token),
        None => None,
    }
}

/// The decision owed to a request for `path` once its identity is settled.
pub open spec fn decision_for(
    exempt: Set<Seq<char>>,
    identity: Option<Seq<char>>,
    path: Seq<char>,
) -> DecisionView {
    if identity is Some || exempt.contains(path) {
        DecisionView::Forward
    } else {
        DecisionView::RedirectTo(login_location())
    }
}

/// The decision owed to a request that carries `cookie` and asks for `path`.
pub open spec fn evaluation(
    exempt: Set<Seq<char>>,
    verify: spec_fn(Seq<char>) -> Option<Seq<char>>,
    cookie: Option<Seq<char>>,
    path: Seq<char>,
) -> DecisionView {
    decision_for(exempt, identity_of(verify, cookie), path)
}

/// `outcome` is something that the executable verifier `verify` may answer
/// for `cookie`: one of its results on the token, and none without a cookie.
pub open spec fn may_answer<F: Fn(&str) -> Option<VerifiedIdentity>>(
    verify: F,
    cookie: Option<&str>,
    outcome: Option<VerifiedIdentity>,
) -> bool {
    match cookie {
        Some(token) => call_ensures(verify, (token,), outcome),
        None => outcome is None,
    }
}

/// The cookie as a sequence of characters, where there is one.
pub open spec fn token_of(cookie: Option<&str>) -> Option<Seq<char>> {
    match cookie {
        Some(token) => Some(token@),
        None => None,
    }
}

/// The executable verifier `verify` computes `model`: whatever it answers for
/// a token is what `model` gives for that token.
pub open spec fn computes<F: Fn(&str) -> Option<VerifiedIdentity>>(
    verify: F,
    model: spec_fn(Seq<char>) -> Option<Seq<char>>,
) -> bool {
    forall|token: &str, outcome: Option<VerifiedIdentity>|
        #[trigger] call_ensures(verify, (token,), outcome) ==> subject_of(outcome) == model(token@)
}

/// `decision` is one that the login gate may take for a request that carries
/// `cookie` and asks for `path`, with `verify` as its verifier: the decision
/// owed to one of the verifier's answers.
pub open spec fn evaluates_to<F: Fn(&str) -> Option<VerifiedIdentity>>(
    exempt: Set<Seq<char>>,
    verify: F,
    cookie: Option<&str>,
    path: Seq<char>,
    decision: DecisionView,
) -> bool {
    exists|outcome: Option<VerifiedIdentity>|
        #[trigger] may_answer(verify, cookie, outcome) && decision == decision_for(
            exempt,
            subject_of(outcome),
            path,
        )
}

} // verus!
