use std::cell::{Cell, RefCell};

use login_gate::decision::Decision;
use login_gate::gate::CheckLogin;
use login_gate::identity::VerifiedIdentity;
use login_gate::policy::LOGIN_PATH;

const ALICE_TOKEN: &str = "v1.alice.5f2b9c";

fn verify(token: &str) -> Option<VerifiedIdentity> {
    if token == ALICE_TOKEN {
        Some(VerifiedIdentity::new("alice".to_string()))
    } else {
        None
    }
}

fn to_login() -> Decision {
    Decision::RedirectTo("/login".to_string())
}

#[test]
fn absent_cookie_on_protected_path_redirects_to_login() {
    let gate = CheckLogin::new("auth");
    assert_eq!(gate.evaluate(None, "/dashboard", verify), to_login());
}

#[test]
fn absent_cookie_on_login_page_is_forwarded() {
    let gate = CheckLogin::new("auth");
    assert_eq!(gate.evaluate(None, "/login", verify), Decision::Forward);
}

#[test]
fn valid_token_on_protected_path_is_forwarded() {
    let gate = CheckLogin::new("auth");
    assert_eq!(verify(ALICE_TOKEN).unwrap().subject(), "alice");
    assert_eq!(gate.evaluate(Some(ALICE_TOKEN), "/dashboard", verify), Decision::Forward);
}

#[test]
fn corrupted_cookie_on_exempt_path_is_forwarded() {
    let gate = CheckLogin::new("auth");
    assert_eq!(gate.evaluate(Some("v1.alice.5f2b9d"), "/reset", verify), Decision::Forward);
}

#[test]
fn corrupted_cookie_on_protected_path_redirects_to_login() {
    let gate = CheckLogin::new("auth");
    assert_eq!(gate.evaluate(Some("v1.alice.5f2b9d"), "/settings", verify), to_login());
}

#[test]
fn valid_token_is_forwarded_on_every_path() {
    let gate = CheckLogin::new("auth");
    for path in ["/", "", "/dashboard", "/login", "/reset", "/admin/users", "/LOGIN"] {
        assert_eq!(gate.evaluate(Some(ALICE_TOKEN), path, verify), Decision::Forward);
    }
}

#[test]
fn default_exemptions_are_the_four_login_flow_pages() {
    let gate = CheckLogin::new("auth");
    for path in ["/login", "/register", "/forgot", "/reset"] {
        assert!(gate.is_exempt(path));
        assert_eq!(gate.evaluate(None, path, verify), Decision::Forward);
    }
    for path in ["", "/", "/login/", "/Login", "login", "/login?next=/", "/reset/1", "/forgot2"] {
        assert!(!gate.is_exempt(path));
        assert_eq!(gate.evaluate(None, path, verify), to_login());
    }
}

#[test]
fn configured_exemptions_replace_the_default_ones() {
    let gate = CheckLogin::with_exempt_paths(
        "sid",
        vec!["/health".to_string(), "/signin".to_string(), "/health".to_string()],
    );
    assert_eq!(gate.cookie_name(), "sid");
    assert!(gate.is_exempt("/health"));
    assert!(gate.is_exempt("/signin"));
    assert!(!gate.is_exempt("/login"));
    assert_eq!(gate.evaluate(None, "/signin", verify), Decision::Forward);
    assert_eq!(gate.evaluate(None, "/login", verify), to_login());
}

#[test]
fn gate_without_exemptions_redirects_every_anonymous_request() {
    let gate = CheckLogin::with_exempt_paths("sid", Vec::new());
    for path in ["/login", "/register", "/", ""] {
        assert!(!gate.is_exempt(path));
        assert_eq!(gate.evaluate(None, path, verify), to_login());
    }
    assert_eq!(gate.evaluate(Some(ALICE_TOKEN), "/", verify), Decision::Forward);
}

#[test]
fn rejected_cookie_decides_as_no_cookie() {
    let gate = CheckLogin::new("auth");
    for path in ["/login", "/register", "/forgot", "/reset", "/dashboard", "/settings", ""] {
        for cookie in ["", "garbage", "v1.alice.", "V1.ALICE.5F2B9C", " v1.alice.5f2b9c"] {
            assert_eq!(
                gate.evaluate(Some(cookie), path, verify),
                gate.evaluate(None, path, verify)
            );
        }
    }
}

#[test]
fn same_request_gets_the_same_decision_twice() {
    let gate = CheckLogin::new("auth");
    for path in ["/login", "/dashboard"] {
        for cookie in [None, Some(ALICE_TOKEN), Some("garbage")] {
            let first = gate.evaluate(cookie, path, verify);
            let second = gate.evaluate(cookie, path, verify);
            assert_eq!(first, second);
        }
    }
}

#[test]
fn verifier_gets_the_cookie_once_and_unchanged() {
    let gate = CheckLogin::new("auth");
    let seen: RefCell<Vec<String>> = RefCell::new(Vec::new());
    let decision = gate.evaluate(Some("  Raw=Value; x "), "/dashboard", |token: &str| {
        seen.borrow_mut().push(token.to_string());
        None
    });
    assert_eq!(decision, to_login());
    assert_eq!(*seen.borrow(), vec!["  Raw=Value; x ".to_string()]);
}

#[test]
fn verifier_is_not_asked_without_a_cookie() {
    let gate = CheckLogin::new("auth");
    let calls = Cell::new(0u32);
    let decision = gate.evaluate(None, "/dashboard", |_token: &str| {
        calls.set(calls.get() + 1);
        Some(VerifiedIdentity::new("nobody".to_string()))
    });
    assert_eq!(decision, to_login());
    assert_eq!(calls.get(), 0);
}

#[test]
fn empty_cookie_is_still_handed_to_the_verifier() {
    let gate = CheckLogin::new("auth");
    let decision =
        gate.evaluate(Some(""), "/dashboard", |_t: &str| Some(VerifiedIdentity::new("guest".to_string())));
    assert_eq!(decision, Decision::Forward);
}

#[test]
fn decide_goes_by_identity_then_by_path() {
    let gate = CheckLogin::new("auth");
    let alice = VerifiedIdentity::new("alice".to_string());
    assert_eq!(gate.decide(Some(&alice), "/dashboard"), Decision::Forward);
    assert_eq!(gate.decide(Some(&alice), "/login"), Decision::Forward);
    assert_eq!(gate.decide(None, "/register"), Decision::Forward);
    assert_eq!(gate.decide(None, "/dashboard"), to_login());
}

#[test]
fn identity_with_empty_subject_still_counts() {
    let gate = CheckLogin::new("auth");
    let nobody = VerifiedIdentity::new(String::new());
    assert_eq!(nobody.subject(), "");
    assert_eq!(gate.decide(Some(&nobody), "/dashboard"), Decision::Forward);
}

#[test]
fn redirect_target_is_the_login_path() {
    assert_eq!(LOGIN_PATH, "/login");
    let gate = CheckLogin::new("auth");
    let decision = gate.evaluate(None, "/dashboard", verify);
    assert!(!decision.is_forward());
    assert_eq!(decision.redirect_location(), Some("/login"));
}

#[test]
fn forward_has_no_redirect_target() {
    let decision = Decision::Forward;
    assert!(decision.is_forward());
    assert_eq!(decision.redirect_location(), None);
    let other = Decision::RedirectTo("/elsewhere".to_string());
    assert!(!other.is_forward());
    assert_eq!(other.redirect_location(), Some("/elsewhere"));
}

#[test]
fn cookie_name_is_kept() {
    assert_eq!(CheckLogin::new("auth_token").cookie_name(), "auth_token");
    assert_eq!(CheckLogin::new("").cookie_name(), "");
}
