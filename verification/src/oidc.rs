//! The OIDC login flow itself (authorization URL, code-for-token exchange,
//! userinfo fetch) is an external collaborator and runs in unverified glue.
//! This module holds what the rest of the pipeline shares with it: the
//! cookie names, the session-kind tag it issues, and the callback query
//! shape.

use vstd::prelude::*;

verus! {

pub const SESSION_COOKIE_NAME: &'static str = "session";

pub const OIDC_NONCE_COOKIE_NAME: &'static str = "oidc_nonce";

/// Must match the session-kind tag stored in the deployed session table.
pub const SESSION_KIND_OIDC: &'static str = "Oidc";

/// The query parameters of the identity provider's callback redirect.
pub struct OidcCallbackQuery {
    pub code: String,
}

impl OidcCallbackQuery {
    pub fn new(code: String) -> (q: OidcCallbackQuery)
        ensures
            q.code == code,
    {
        OidcCallbackQuery { code }
    }

    /// The authorization code the provider handed back.
    pub fn code(&self) -> (c: &str)
        ensures
            c@ == self.code@,
    {
        self.code.as_str()
    }
}

} // verus!
