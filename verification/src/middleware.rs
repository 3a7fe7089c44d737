//! The login gate as a stage in front of a downstream service.

use vstd::prelude::*;
use crate::decision::Decision;
use crate::gate::{CheckLogin, CheckLoginView};
use crate::identity::VerifiedIdentity;
use crate::policy::{computes, decision_for, evaluates_to, evaluation, token_of};

verus! {

/// A gate together with the service it guards. The host asks it for a
/// decision per request, and calls the service only on `Forward`.
pub struct CheckLoginMiddleware<S> {
    service: S,
    gate: CheckLogin,
}

/// The mathematical value of a [`CheckLoginMiddleware`].
pub struct CheckLoginMiddlewareView<S> {
    pub service: S,
    pub gate: CheckLoginView,
}

impl<S> View for CheckLoginMiddleware<S> {
    type V = CheckLoginMiddlewareView<S>;

    closed spec fn view(&self) -> CheckLoginMiddlewareView<S> {
        CheckLoginMiddlewareView { service: self.service, gate: self.gate@ }
    }
}

impl<S> CheckLoginMiddleware<S> {
    /// `gate` in front of `service`.
    pub fn new(gate: CheckLogin, service: S) -> (stage: CheckLoginMiddleware<S>)
        ensures
            stage@.gate == gate@,
            stage@.service == service,
    {
        CheckLoginMiddleware { service, gate }
    }

    /// The login gate that decides for this stage.
    pub fn gate(&self) -> (gate: &CheckLogin)
        ensures
            gate@ == self@.gate,
    {
        &self.gate
    }

    /// The guarded service.
    pub fn service(&self) -> (service: &S)
        ensures
            *service == self@.service,
    {
        &self.service
    }

    /// The decision of this stage's gate for a request that carries
    /// `cookie_value` and asks for `request_path`; see
    /// [`CheckLogin::evaluate`].
    pub fn evaluate<F: Fn(&str) -> Option<VerifiedIdentity>>(
        &self,
        cookie_value: Option<&str>,
        request_path: &str,
        verify: F,
    ) -> (decision: Decision)
        requires
            cookie_value matches Some(token) ==> call_requires(verify, (token,)),
        ensures
            evaluates_to(self@.gate.exempt_paths, verify, cookie_value, request_path@, decision@),
            cookie_value is None ==> decision@ == decision_for(
                self@.gate.exempt_paths,
                None,
                request_path@,
            ),
            forall|model: spec_fn(Seq<char>) -> Option<Seq<char>>| #[trigger]
                computes(verify, model) ==> decision@ == evaluation(
                    self@.gate.exempt_paths,
                    model,
                    token_of(cookie_value),
                    request_path@,
                ),
    {
        self.gate.evaluate(cookie_value, request_path, verify)
    }
}

} // verus!
