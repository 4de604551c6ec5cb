//! Authentication of a request: resolve the presented credential to a
//! session, enforce and slide its expiry, derive the principal, attach it
//! with a consumption flag, and verify after the handler ran that a
//! protected route actually read the resolved identity.

use vstd::prelude::*;

use crate::errors::{AnyHandlerError, ApiError};
use crate::session::{
    lifetime, spec_expired, spec_index_of, spec_lifetime, SessionRec, SessionStore, MAX_LIFETIME,
};
use crate::utils::{str_eq, Instant};

verus! {

/// The parsed credential a request presented: scheme kind, an id (such as a
/// device id), and the secret capability — the session code.
pub struct Authentication {
    pub kind: String,
    pub id: String,
    pub secret: String,
}

/// The resolved caller identity attached to a request after authentication;
/// immutable once attached, discarded with the request.
#[derive(Debug)]
pub struct PrincipalInner {
    /// Which auth scheme produced it (such as the OIDC kind tag).
    pub auth_kind: String,
    /// The subject: an email, a device id, ...
    pub principal: String,
    /// Optional additional context, such as a tenant id.
    pub parent: Option<String>,
}

impl Clone for PrincipalInner {
    fn clone(&self) -> (r: Self)
        ensures
            r == *self,
    {
        PrincipalInner {
            auth_kind: self.auth_kind.clone(),
            principal: self.principal.clone(),
            parent: match &self.parent {
                Some(p) => Some(p.clone()),
                None => None,
            },
        }
    }
}

/// The per-request flag recording whether any handler read the principal;
/// starts false, set on the first successful extraction.  It exists purely
/// to catch routes that declare authentication and then ignore the identity.
pub struct PrincipalTaken {
    pub taken: bool,
}

/// The request-scoped authentication state the middleware attaches.
pub struct ReqAuthState {
    pub principal: Option<PrincipalInner>,
    pub taken: PrincipalTaken,
}

/// Splits an already tokenized credential header into (device id, token).
pub fn parse_header(parts: Vec<&str>) -> (r: Option<(String, String)>)
    ensures
        parts@.len() < 3 ==> r is None,
        parts@.len() >= 3 ==> (r matches Some(p) && p.0@ == parts@[1]@ && p.1@ == parts@[2]@),
{
    if parts.len() < 3 {
        return None;
    }
    let device_id = parts[1];
    let token = parts[2];
    Some((device_id.to_owned(), token.to_owned()))
}

/// The per-session step of an authenticated access at time `now`: a session
/// at or before its expiry is dead and the access fails as `Expired`
/// (distinct from `AuthError`); a live one is granted the new expiry
/// `now + lifetime(kind)`.
pub fn use_session(expires: Instant, kind: &str, now: Instant) -> (r: Result<Instant, ApiError>)
    requires
        now <= i64::MAX - MAX_LIFETIME,
    ensures
        spec_expired(expires, now) ==> r == Err::<Instant, ApiError>(ApiError::Expired),
        !spec_expired(expires, now) ==> (r matches Ok(e) && e == now + spec_lifetime(kind@)),
{
    if expires <= now {
        Err(ApiError::Expired)
    } else {
        Ok(now + lifetime(kind))
    }
}

/// Resolves a presented credential against the session table at time `now`.
/// A code no row holds fails with `AuthError`.  A session at or past its
/// expiry is deleted and fails with `Expired`.  A live session's expiry
/// slides to `now + lifetime(kind)` and its principal is derived: the
/// session's kind tag and subject, with no parent.
pub fn authenticate(store: &mut SessionStore, auth: &Authentication, now: Instant) -> (r: Result<
    PrincipalInner,
    ApiError,
>)
    requires
        old(store).wf(),
        now <= i64::MAX - MAX_LIFETIME,
    ensures
        final(store).wf(),
        !old(store).spec_contains_code(auth.secret@) ==> r == Err::<PrincipalInner, ApiError>(
            ApiError::AuthError,
        ) && final(store).recs@ == old(store).recs@,
        old(store).spec_contains_code(auth.secret@) ==> ({
            let i = spec_index_of(old(store).recs@, auth.secret@);
            let rec = old(store).recs@[i];
            &&& spec_expired(rec.expires, now) ==> r == Err::<PrincipalInner, ApiError>(
                ApiError::Expired,
            ) && final(store).recs@ == old(store).recs@.remove(i)
            &&& !spec_expired(rec.expires, now) ==> {
                &&& r matches Ok(p)
                &&& p.auth_kind == rec.kind
                &&& p.principal == rec.subject
                &&& p.parent is None
                &&& final(store).recs@ == old(store).recs@.update(
                    i,
                    SessionRec { expires: (now + spec_lifetime(rec.kind@)) as i64, ..rec },
                )
            }
        }),
{
    match store.find_session(auth.secret.as_str()) {
        None => Err(ApiError::AuthError),
        Some(rec) => {
            proof {
                let i = spec_index_of(old(store).recs@, auth.secret@);
                assert(0 <= i < old(store).recs@.len() && old(store).recs@[i].code@
                    == auth.secret@);
                let w = choose|w: int|
                    0 <= w < old(store).recs@.len() && old(store).recs@[w] == rec;
                assert(old(store).recs@[w].code@ == auth.secret@);
                assert(w == i);
                assert(old(store).recs@[i] == rec);
            }
            match use_session(rec.expires, rec.kind.as_str(), now) {
                Err(e) => {
                    store.delete(auth.secret.as_str());
                    Err(e)
                },
                Ok(new_expires) => {
                    store.extend(auth.secret.as_str(), new_expires);
                    Ok(
                        PrincipalInner {
                            auth_kind: rec.kind,
                            principal: rec.subject,
                            parent: None,
                        },
                    )
                },
            }
        },
    }
}

/// Resolves an optional parsed credential: no credential resolves to no
/// principal and the table is untouched; a present credential is resolved
/// by `authenticate`.
pub fn verify_auth(store: &mut SessionStore, auth: &Option<Authentication>, now: Instant) -> (r:
    Result<Option<PrincipalInner>, ApiError>)
    requires
        old(store).wf(),
        now <= i64::MAX - MAX_LIFETIME,
    ensures
        final(store).wf(),
        auth is None ==> r == Ok::<Option<PrincipalInner>, ApiError>(None) && final(store).recs@
            == old(store).recs@,
        auth matches Some(a) ==> ({
            &&& !old(store).spec_contains_code(a.secret@) ==> r == Err::<
                Option<PrincipalInner>,
                ApiError,
            >(ApiError::AuthError) && final(store).recs@ == old(store).recs@
            &&& old(store).spec_contains_code(a.secret@) ==> ({
                let i = spec_index_of(old(store).recs@, a.secret@);
                let rec = old(store).recs@[i];
                &&& spec_expired(rec.expires, now) ==> r == Err::<
                    Option<PrincipalInner>,
                    ApiError,
                >(ApiError::Expired) && final(store).recs@ == old(store).recs@.remove(i)
                &&& !spec_expired(rec.expires, now) ==> {
                    &&& r matches Ok(Some(p))
                    &&& p.auth_kind == rec.kind
                    &&& p.principal == rec.subject
                    &&& p.parent is None
                    &&& final(store).recs@ == old(store).recs@.update(
                        i,
                        SessionRec { expires: (now + spec_lifetime(rec.kind@)) as i64, ..rec },
                    )
                }
            })
        }),
{
    match auth {
        None => Ok(None),
        Some(a) => match authenticate(store, a, now) {
            Ok(p) => Ok(Some(p)),
            Err(e) => Err(e),
        },
    }
}

/// What the authentication middleware does with this request before the
/// handler runs.
pub enum AuthDecision {
    /// Invoke the downstream stage with this state attached.
    Proceed(ReqAuthState),
    /// Short-circuit the request with this error; the handler never runs.
    Reject(ApiError),
}

/// Turns the outcome of credential resolution into the middleware's
/// pre-handler decision for this route class.  A resolved principal is
/// attached with the consumption flag down.  Nothing resolved on a route
/// that requires authentication is rejected before any handler logic runs:
/// a resolution failure with its own error, an absent credential as
/// unauthenticated.  Where authentication is optional, the request proceeds
/// unattached.
pub fn auth_decision(resolved: Result<Option<PrincipalInner>, ApiError>, required: bool) -> (d:
    AuthDecision)
    ensures
        resolved matches Ok(Some(p)) ==> d == AuthDecision::Proceed(
            ReqAuthState { principal: Some(p), taken: PrincipalTaken { taken: false } },
        ),
        resolved matches Ok(None) && required ==> (d matches AuthDecision::Reject(
            ApiError::AuthError1(s),
        ) && s@ == "request.not.authenticated"@),
        resolved is Err && required ==> d == AuthDecision::Reject(resolved.unwrap_err()),
        (resolved matches Ok(None) || resolved is Err) && !required ==> d
            == AuthDecision::Proceed(
            ReqAuthState { principal: None, taken: PrincipalTaken { taken: false } },
        ),
{
    match resolved {
        Ok(Some(p)) => AuthDecision::Proceed(
            ReqAuthState { principal: Some(p), taken: PrincipalTaken { taken: false } },
        ),
        Ok(None) => {
            if required {
                AuthDecision::Reject(
                    ApiError::AuthError1(String::from_str("request.not.authenticated")),
                )
            } else {
                AuthDecision::Proceed(
                    ReqAuthState { principal: None, taken: PrincipalTaken { taken: false } },
                )
            }
        },
        Err(e) => {
            if required {
                AuthDecision::Reject(e)
            } else {
                AuthDecision::Proceed(
                    ReqAuthState { principal: None, taken: PrincipalTaken { taken: false } },
                )
            }
        },
    }
}

/// The post-handler step of the authentication middleware: a request that
/// carried a principal must have had it consumed by some handler.  If the
/// flag is still down the whole request fails with an internal signal,
/// deliberately distinct from the client-facing authentication failures —
/// it marks a misconfigured route, not a missing login.
pub fn consumption_check(state: &ReqAuthState) -> (r: Result<(), AnyHandlerError>)
    ensures
        state.principal is Some && !state.taken.taken ==> (r matches Err(
            AnyHandlerError::Other(m),
        ) && m@ == "Principal not extracted in a handler under authenticated scope. Is your URL correct?"@),
        state.principal is None || state.taken.taken ==> r == Ok::<(), AnyHandlerError>(()),
{
    if state.principal.is_some() && !state.taken.taken {
        Err(
            AnyHandlerError::Other(
                String::from_str(
                    "Principal not extracted in a handler under authenticated scope. Is your URL correct?",
                ),
            ),
        )
    } else {
        Ok(())
    }
}

/// Reads the attached principal on behalf of a handler that expects the
/// given auth scheme, and flips the consumption flag.  A missing principal
/// or a scheme mismatch fails and leaves the flag untouched.
pub fn principal_from_request(state: &mut ReqAuthState, auth_kind: &str) -> (r: Result<
    PrincipalInner,
    ApiError,
>)
    ensures
        old(state).principal is None ==> (r matches Err(ApiError::AuthError1(s)) && s@
            == "principal.missing"@ && *final(state) == *old(state)),
        old(state).principal matches Some(p) ==> {
            &&& p.auth_kind@ != auth_kind@ ==> (r matches Err(ApiError::AuthError1(s)) && s@
                == "principal.kind.mismatch:a:"@ + p.auth_kind@ + "/e:"@ + auth_kind@
                && *final(state) == *old(state))
            &&& p.auth_kind@ == auth_kind@ ==> (r matches Ok(q) && q == p
                && final(state).principal == old(state).principal && final(state).taken.taken)
        },
{
    match &state.principal {
        None => Err(ApiError::AuthError1(String::from_str("principal.missing"))),
        Some(p) => {
            if !str_eq(p.auth_kind.as_str(), auth_kind) {
                Err(
                    ApiError::AuthError1(
                        String::from_str("principal.kind.mismatch:a:").concat(
                            p.auth_kind.as_str(),
                        ).concat("/e:").concat(auth_kind),
                    ),
                )
            } else {
                let q = p.clone();
                state.taken.taken = true;
                Ok(q)
            }
        },
    }
}

/// The OIDC-derived identity a handler receives.
#[derive(Clone)]
pub struct PrincipalOidc {
    pub email: String,
}

impl PrincipalOidc {
    pub fn test_new(email: &str) -> (p: PrincipalOidc)
        ensures
            p.email@ == email@,
    {
        PrincipalOidc { email: email.to_owned() }
    }

    /// The handler-facing extraction: the attached principal must be
    /// OIDC-derived; its subject is the email.  Flips the consumption flag
    /// exactly as `principal_from_request` does.
    pub fn from_request(state: &mut ReqAuthState) -> (r: Result<PrincipalOidc, ApiError>)
        ensures
            old(state).principal is None ==> r is Err && *final(state) == *old(state),
            old(state).principal matches Some(p) ==> {
                &&& p.auth_kind@ != crate::oidc::SESSION_KIND_OIDC@ ==> r is Err && *final(state)
                    == *old(state)
                &&& p.auth_kind@ == crate::oidc::SESSION_KIND_OIDC@ ==> (r matches Ok(q)
                    && q.email == p.principal && final(state).principal == old(state).principal
                    && final(state).taken.taken)
            },
    {
        match principal_from_request(state, crate::oidc::SESSION_KIND_OIDC) {
            Ok(p) => Ok(PrincipalOidc { email: p.principal }),
            Err(e) => Err(e),
        }
    }
}

} // verus!
