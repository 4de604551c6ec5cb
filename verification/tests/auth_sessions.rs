use bear::authmw::{
    auth_decision, authenticate, consumption_check, principal_from_request, use_session,
    verify_auth, AuthDecision, Authentication, PrincipalInner, PrincipalOidc, PrincipalTaken,
    ReqAuthState,
};
use bear::errors::{AnyHandlerError, ApiError};
use bear::oidc::{OidcCallbackQuery, SESSION_KIND_OIDC};
use bear::session::{lifetime, SessionRec, SessionStore};
use bear::utils::{Clock, MockClock};

fn session(code: &str, kind: &str, subject: &str, expires: i64) -> SessionRec {
    SessionRec {
        code: String::from(code),
        kind: String::from(kind),
        subject: String::from(subject),
        expires,
    }
}

fn credential(code: &str) -> Authentication {
    Authentication {
        kind: String::from(SESSION_KIND_OIDC),
        id: String::from("device-1"),
        secret: String::from(code),
    }
}

#[test]
fn store_insert_find_delete_extend() {
    let mut store = SessionStore::new();
    store.insert(session("abc", "Oidc", "a@x.com", 2000));
    let found = store.find_session("abc").unwrap();
    assert_eq!(found.subject, "a@x.com");
    assert_eq!(found.expires, 2000);
    assert!(store.find_session("zzz").is_none());
    store.extend("abc", 5000);
    assert_eq!(store.find_session("abc").unwrap().expires, 5000);
    store.delete("abc");
    assert!(store.find_session("abc").is_none());
}

#[test]
fn expired_session_is_deleted_and_reported() {
    // Round trip: insert, move the clock past the expiry, look up.
    let mut store = SessionStore::new();
    let mut clock = MockClock::new();
    store.insert(session("abc", "Oidc", "a@x.com", 2000));
    clock.advance(1500);  // now 2500 >= 2000
    let r = authenticate(&mut store, &credential("abc"), clock.utcnow());
    assert!(matches!(r, Err(ApiError::Expired)));
    assert!(store.find_session("abc").is_none());
    // The next attempt no longer finds a session at all.
    let r2 = authenticate(&mut store, &credential("abc"), clock.utcnow());
    assert!(matches!(r2, Err(ApiError::AuthError)));
}

#[test]
fn expiry_boundary_is_inclusive() {
    let mut store = SessionStore::new();
    store.insert(session("abc", "Oidc", "a@x.com", 2000));
    let r = authenticate(&mut store, &credential("abc"), 2000);
    assert!(matches!(r, Err(ApiError::Expired)));
}

#[test]
fn valid_access_slides_the_expiry() {
    let mut store = SessionStore::new();
    store.insert(session("abc", "Oidc", "a@x.com", 2000));
    let now = 1000;
    let r = authenticate(&mut store, &credential("abc"), now).unwrap();
    assert_eq!(r.auth_kind, "Oidc");
    assert_eq!(r.principal, "a@x.com");
    assert!(r.parent.is_none());
    let new_expires = store.find_session("abc").unwrap().expires;
    assert_eq!(new_expires, now + lifetime("Oidc"));
    assert!(lifetime("Oidc") > 0);
    assert!(new_expires > 2000);
}

#[test]
fn second_lookup_reads_the_stored_expiry() {
    // Scenario: session {code "abc", kind "Oidc", subject "a@x.com",
    // expires 2000}, clock at 1000.
    let mut store = SessionStore::new();
    let mut clock = MockClock::new();
    store.insert(session("abc", "Oidc", "a@x.com", 2000));
    let r = authenticate(&mut store, &credential("abc"), clock.utcnow());
    assert!(r.is_ok());
    assert_eq!(
        store.find_session("abc").unwrap().expires,
        1000 + lifetime("Oidc")
    );
    // Clock moves to 3000: past the original expiry, but the stored value
    // was extended; the decision must reflect the stored value.
    clock.advance(2000);
    let r2 = authenticate(&mut store, &credential("abc"), clock.utcnow());
    assert!(r2.is_ok());
    assert_eq!(
        store.find_session("abc").unwrap().expires,
        3000 + lifetime("Oidc")
    );
}

#[test]
fn unknown_code_is_an_auth_error() {
    let mut store = SessionStore::new();
    let r = authenticate(&mut store, &credential("nope"), 1000);
    assert!(matches!(r, Err(ApiError::AuthError)));
}

#[test]
fn use_session_decision() {
    assert!(matches!(use_session(2000, "Oidc", 2500), Err(ApiError::Expired)));
    assert!(matches!(use_session(2000, "Oidc", 2000), Err(ApiError::Expired)));
    assert_eq!(use_session(2000, "Oidc", 1000).unwrap(), 1000 + lifetime("Oidc"));
}

#[test]
fn lifetime_per_kind() {
    assert_eq!(lifetime("Oidc"), 604800);
    assert_eq!(lifetime("ApiKey"), 0);
}

#[test]
fn new_oidc_session_shape() {
    let s = SessionRec::new_oidc(7000, String::from("a@x.com"));
    assert_eq!(s.kind, "Oidc");
    assert_eq!(s.subject, "a@x.com");
    assert_eq!(s.expires, 7000);
    assert!(!s.code.is_empty());
    let s2 = SessionRec::new_oidc(7000, String::from("a@x.com"));
    assert_ne!(s.code, s2.code);
}

#[test]
fn no_credential_resolves_to_no_principal() {
    let mut store = SessionStore::new();
    let r = verify_auth(&mut store, &None, 1000);
    assert!(matches!(r, Ok(None)));
}

#[test]
fn required_route_rejects_unauthenticated_requests() {
    // No credential on a protected route: rejected before any handler runs.
    let d = auth_decision(Ok(None), true);
    assert!(
        matches!(d, AuthDecision::Reject(ApiError::AuthError1(ref s)) if s == "request.not.authenticated")
    );
    // A resolution failure on a protected route propagates its own error.
    let d2 = auth_decision(Err(ApiError::Expired), true);
    assert!(matches!(d2, AuthDecision::Reject(ApiError::Expired)));
}

#[test]
fn optional_route_proceeds_unattached() {
    let d = auth_decision(Ok(None), false);
    assert!(matches!(
        d,
        AuthDecision::Proceed(ReqAuthState { principal: None, .. })
    ));
    let d2 = auth_decision(Err(ApiError::AuthError), false);
    assert!(matches!(
        d2,
        AuthDecision::Proceed(ReqAuthState { principal: None, .. })
    ));
}

#[test]
fn resolved_principal_is_attached_unconsumed() {
    let p = PrincipalInner {
        auth_kind: String::from("Oidc"),
        principal: String::from("a@x.com"),
        parent: None,
    };
    let d = auth_decision(Ok(Some(p)), true);
    match d {
        AuthDecision::Proceed(state) => {
            assert!(state.principal.is_some());
            assert!(!state.taken.taken);
        }
        AuthDecision::Reject(_) => panic!("expected the request to proceed"),
    }
}

#[test]
fn unconsumed_principal_fails_the_request() {
    // The handler returned success but never read the principal.
    let state = ReqAuthState {
        principal: Some(PrincipalInner {
            auth_kind: String::from("Oidc"),
            principal: String::from("a@x.com"),
            parent: None,
        }),
        taken: PrincipalTaken { taken: false },
    };
    let r = consumption_check(&state);
    match r {
        Err(e) => {
            assert_eq!(e.status_code(), 500);
            assert!(matches!(e, AnyHandlerError::Other(_)));
        }
        Ok(()) => panic!("expected the consumption check to fail"),
    }
}

#[test]
fn consumed_principal_passes_the_check() {
    let mut state = ReqAuthState {
        principal: Some(PrincipalInner {
            auth_kind: String::from("Oidc"),
            principal: String::from("a@x.com"),
            parent: None,
        }),
        taken: PrincipalTaken { taken: false },
    };
    let p = principal_from_request(&mut state, "Oidc").unwrap();
    assert_eq!(p.principal, "a@x.com");
    assert!(state.taken.taken);
    assert!(consumption_check(&state).is_ok());
}

#[test]
fn no_principal_needs_no_consumption() {
    let state = ReqAuthState {
        principal: None,
        taken: PrincipalTaken { taken: false },
    };
    assert!(consumption_check(&state).is_ok());
}

#[test]
fn kind_mismatch_fails_and_keeps_the_flag_down() {
    let mut state = ReqAuthState {
        principal: Some(PrincipalInner {
            auth_kind: String::from("ApiKey"),
            principal: String::from("a@x.com"),
            parent: None,
        }),
        taken: PrincipalTaken { taken: false },
    };
    let r = principal_from_request(&mut state, "Oidc");
    assert!(
        matches!(r, Err(ApiError::AuthError1(ref s)) if s == "principal.kind.mismatch:a:ApiKey/e:Oidc")
    );
    assert!(!state.taken.taken);
}

#[test]
fn missing_principal_fails_extraction() {
    let mut state = ReqAuthState {
        principal: None,
        taken: PrincipalTaken { taken: false },
    };
    let r = principal_from_request(&mut state, "Oidc");
    assert!(matches!(r, Err(ApiError::AuthError1(ref s)) if s == "principal.missing"));
    assert!(!state.taken.taken);
}

#[test]
fn oidc_extractor_returns_the_email() {
    let mut state = ReqAuthState {
        principal: Some(PrincipalInner {
            auth_kind: String::from(SESSION_KIND_OIDC),
            principal: String::from("a@x.com"),
            parent: None,
        }),
        taken: PrincipalTaken { taken: false },
    };
    let p = PrincipalOidc::from_request(&mut state).unwrap();
    assert_eq!(p.email, "a@x.com");
    assert!(state.taken.taken);
    let t = PrincipalOidc::test_new("b@x.com");
    assert_eq!(t.email, "b@x.com");
}

#[test]
fn parse_header_takes_device_and_token() {
    let r = parse_header_helper(vec!["Bearer", "dev-1", "tok-1"]);
    assert_eq!(r, Some((String::from("dev-1"), String::from("tok-1"))));
    assert_eq!(parse_header_helper(vec!["Bearer", "dev-1"]), None);
    assert_eq!(parse_header_helper(vec![]), None);
}

fn parse_header_helper(parts: Vec<&str>) -> Option<(String, String)> {
    bear::authmw::parse_header(parts)
}

#[test]
fn oidc_callback_query_carries_the_code() {
    let q = OidcCallbackQuery::new(String::from("code-1"));
    assert_eq!(q.code(), "code-1");
}
