//! The login gate itself: its configuration and the decision it takes per
//! request.

use vstd::prelude::*;
use crate::decision::Decision;
use crate::identity::VerifiedIdentity;
use crate::middleware::CheckLoginMiddleware;
use crate::policy::{
    LOGIN_PATH, computes, decision_for, evaluates_to, evaluation, may_answer, token_of,
};

verus! {

/// The set of paths that a list of path strings names.
pub open spec fn path_set(paths: Seq<String>) -> Set<Seq<char>> {
    Set::new(|path: Seq<char>| exists|i: int| 0 <= i < paths.len() && #[trigger] paths[i]@ == path)
}

/// The login gate's configuration: the name of the cookie that carries the
/// credential, and the paths that need none. Fixed once built.
#[derive(Debug, Clone)]
pub struct CheckLogin {
    cookie_name: String,
    exempt_paths: Vec<String>,
}

/// The mathematical value of a [`CheckLogin`].
pub struct CheckLoginView {
    pub cookie_name: Seq<char>,
    pub exempt_paths: Set<Seq<char>>,
}

impl View for CheckLogin {
    type V = CheckLoginView;

    closed spec fn view(&self) -> CheckLoginView {
        CheckLoginView {
            cookie_name: self.cookie_name@,
            exempt_paths: path_set(self.exempt_paths@),
        }
    }
}

impl CheckLogin {
    /// A gate that reads the cookie `cookie_name` and lets anonymous requests
    /// through to the pages of the login flow: `/login`, `/register`,
    /// `/forgot` and `/reset`.
    pub fn new(cookie_name: &str) -> (gate: CheckLogin)
        ensures
            gate@.cookie_name == cookie_name@,
            gate@.exempt_paths == set!["/login"@, "/register"@, "/forgot"@, "/reset"@],
    {
        let mut exempt_paths: Vec<String> = Vec::new();
        exempt_paths.push("/login".to_owned());
        exempt_paths.push("/register".to_owned());
        exempt_paths.push("/forgot".to_owned());
        exempt_paths.push("/reset".to_owned());
        let gate = CheckLogin { cookie_name: cookie_name.to_owned(), exempt_paths };
        assert(gate@.exempt_paths =~= set!["/login"@, "/register"@, "/forgot"@, "/reset"@]) by {
            assert(gate.exempt_paths@[0]@ == "/login"@);
            assert(gate.exempt_paths@[1]@ == "/register"@);
            assert(gate.exempt_paths@[2]@ == "/forgot"@);
            assert(gate.exempt_paths@[3]@ == "/reset"@);
        }
        gate
    }

    /// A gate that reads the cookie `cookie_name` and lets anonymous requests
    /// through to exactly the paths listed in `exempt_paths`.
    pub fn with_exempt_paths(cookie_name: &str, exempt_paths: Vec<String>) -> (gate: CheckLogin)
        ensures
            gate@.cookie_name == cookie_name@,
            gate@.exempt_paths == path_set(exempt_paths@),
    {
        CheckLogin { cookie_name: cookie_name.to_owned(), exempt_paths }
    }

    /// The name of the cookie that the host reads the credential from.
    pub fn cookie_name(&self) -> (name: &str)
        ensures
            name@ == self@.cookie_name,
    {
        self.cookie_name.as_str()
    }

    /// Whether `path` may be asked for without a credential.
    pub fn is_exempt(&self, path: &str) -> (exempt: bool)
        ensures
            exempt == self@.exempt_paths.contains(path@),
    {
        let wanted = path.to_owned();
        let mut i: usize = 0;
        while i < self.exempt_paths.len()
            invariant
                i <= self.exempt_paths.len(),
                wanted@ == path@,
                forall|j: int| 0 <= j < i ==> self.exempt_paths@[j]@ != path@,
            decreases self.exempt_paths.len() - i,
        {
            if self.exempt_paths[i] == wanted {
                return true;
            }
            i += 1;
        }
        false
    }

    /// The decision for a request for `request_path` whose credential has
    /// been settled: `identity` is what verification made of it, and none
    /// where the request carried no credential or one that failed.
    pub fn decide(&self, identity: Option<&VerifiedIdentity>, request_path: &str) -> (decision:
        Decision)
        ensures
            decision@ == decision_for(
                self@.exempt_paths,
                match identity {
                    Some(identity) => Some(identity@),
                    None => None,
                },
                request_path@,
            ),
    {
        if identity.is_some() || self.is_exempt(request_path) {
            Decision::Forward
        } else {
            Decision::RedirectTo(LOGIN_PATH.to_owned())
        }
    }

    /// The decision for a request that carries `cookie_value` and asks for
    /// `request_path`. A cookie, where there is one, is handed to `verify`,
    /// once and as it came; whatever `verify` answers short of an identity
    /// counts as no credential.
    pub fn evaluate<F: Fn(&str) -> Option<VerifiedIdentity>>(
        &self,
        cookie_value: Option<&str>,
        request_path: &str,
        verify: F,
    ) -> (decision: Decision)
        requires
            cookie_value matches Some(token) ==> call_requires(verify, (token,)),
        ensures
            evaluates_to(self@.exempt_paths, verify, cookie_value, request_path@, decision@),
            cookie_value is None ==> decision@ == decision_for(
                self@.exempt_paths,
                None,
                request_path@,
            ),
            forall|model: spec_fn(Seq<char>) -> Option<Seq<char>>| #[trigger]
                computes(verify, model) ==> decision@ == evaluation(
                    self@.exempt_paths,
                    model,
                    token_of(cookie_value),
                    request_path@,
                ),
    {
        let outcome = match cookie_value {
            Some(token) => verify(token),
            None => None,
        };
        assert(may_answer(verify, cookie_value, outcome));
        self.decide(outcome.as_ref(), request_path)
    }

    /// This gate in front of `service`: a stage of its own, with a copy of
    /// the configuration.
    pub fn new_transform<S>(&self, service: S) -> (stage: CheckLoginMiddleware<S>)
        ensures
            stage@.gate == self@,
            stage@.service == service,
    {
        let gate = CheckLogin {
            cookie_name: self.cookie_name.clone(),
            exempt_paths: self.exempt_paths.clone(),
        };
        assert(gate.exempt_paths@ =~= self.exempt_paths@);
        CheckLoginMiddleware::new(gate, service)
    }
}

} // verus!
