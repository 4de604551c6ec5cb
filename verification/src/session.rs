//! Server-side sessions: persisted records binding an opaque capability code
//! to an identity and an expiry, with the sliding-expiry discipline every
//! authenticated access applies.

use vstd::prelude::*;

use crate::utils::{gentoken, str_eq, Instant};

verus! {

/// The longest sliding window any kind grants, in seconds.
pub const MAX_LIFETIME: i64 = 604800;

/// The sliding-window lifetime, in seconds, granted to a session of the
/// given kind on each authenticated use.  Kinds this library does not know
/// get no lifetime.
pub open spec fn spec_lifetime(kind: Seq<char>) -> i64 {
    if kind == "Oidc"@ {
        604800
    } else {
        0
    }
}

/// The sliding-window lifetime for a session kind.
pub fn lifetime(kind: &str) -> (r: i64)
    ensures
        r == spec_lifetime(kind@),
        0 <= r <= MAX_LIFETIME,
{
    if str_eq(kind, "Oidc") {
        604800
    } else {
        0
    }
}

/// A session with this expiry is dead at time `now`; a session is valid
/// only while its expiry lies strictly in the future.
pub open spec fn spec_expired(expires: Instant, now: Instant) -> bool {
    expires <= now
}

/// One persisted session row: unique opaque capability code, kind tag, the
/// subject it authenticates, and its expiry.  Only the expiry is ever
/// updated in place; everything else is written once.
pub struct SessionRec {
    pub code: String,
    pub kind: String,
    pub subject: String,
    pub expires: Instant,
}

impl SessionRec {
    /// A fresh OIDC session for this subject: a random unguessable code, the
    /// OIDC kind tag, and the given expiry.
    pub fn new_oidc(expires: Instant, email: String) -> (s: SessionRec)
        ensures
            s.kind@ == crate::oidc::SESSION_KIND_OIDC@,
            s.subject == email,
            s.expires == expires,
    {
        SessionRec {
            code: gentoken(),
            kind: String::from_str(crate::oidc::SESSION_KIND_OIDC),
            subject: email,
            expires,
        }
    }
}

impl Clone for SessionRec {
    fn clone(&self) -> (r: Self)
        ensures
            r == *self,
    {
        SessionRec {
            code: self.code.clone(),
            kind: self.kind.clone(),
            subject: self.subject.clone(),
            expires: self.expires,
        }
    }
}

/// The session table, keyed by the opaque code.
pub struct SessionStore {
    pub recs: Vec<SessionRec>,
}

/// The index of the row holding this code, where one exists.
pub open spec fn spec_index_of(recs: Seq<SessionRec>, code: Seq<char>) -> int {
    choose|i: int| 0 <= i < recs.len() && (#[trigger] recs[i]).code@ == code
}

impl SessionStore {
    /// Row codes are unique.
    pub open spec fn wf(&self) -> bool {
        forall|i: int, j: int|
            #![trigger self.recs@[i], self.recs@[j]]
            0 <= i < j < self.recs@.len() ==> self.recs@[i].code@ != self.recs@[j].code@
    }

    /// Some row holds this code.
    pub open spec fn spec_contains_code(&self, code: Seq<char>) -> bool {
        exists|i: int| 0 <= i < self.recs@.len() && (#[trigger] self.recs@[i]).code@ == code
    }

    /// An empty table.
    pub fn new() -> (s: SessionStore)
        ensures
            s.wf(),
            s.recs@.len() == 0,
    {
        SessionStore { recs: Vec::new() }
    }

    /// The index of the row with this code, if present.
    fn find_idx(&self, code: &str) -> (r: Option<usize>)
        ensures
            r matches Some(i) ==> i < self.recs@.len() && self.recs@[i as int].code@ == code@,
            r is None ==> !self.spec_contains_code(code@),
    {
        let n = self.recs.len();
        let mut i: usize = 0;
        while i < n
            invariant
                n == self.recs@.len(),
                i <= n,
                forall|k: int| 0 <= k < i ==> (#[trigger] self.recs@[k]).code@ != code@,
            decreases n - i,
        {
            if str_eq(self.recs[i].code.as_str(), code) {
                return Some(i);
            }
            i = i + 1;
        }
        None
    }

    /// Looks a session up by its opaque code.
    pub fn find_session(&self, code: &str) -> (r: Option<SessionRec>)
        ensures
            r matches Some(rec) ==> rec.code@ == code@ && exists|i: int|
                0 <= i < self.recs@.len() && self.recs@[i] == rec,
            r is None ==> !self.spec_contains_code(code@),
    {
        match self.find_idx(code) {
            Some(i) => {
                let rec = self.recs[i].clone();
                proof {
                    assert(self.recs@[i as int] == rec);
                }
                Some(rec)
            },
            None => None,
        }
    }

    /// Inserts a fresh session row; its code must not be taken yet.
    pub fn insert(&mut self, s: SessionRec)
        requires
            old(self).wf(),
            !old(self).spec_contains_code(s.code@),
        ensures
            final(self).wf(),
            final(self).recs@ == old(self).recs@.push(s),
    {
        self.recs.push(s);
    }

    /// Deletes the session with this code, if present; afterwards the table
    /// holds no row with it.
    pub fn delete(&mut self, code: &str)
        requires
            old(self).wf(),
        ensures
            final(self).wf(),
            !final(self).spec_contains_code(code@),
            !old(self).spec_contains_code(code@) ==> final(self).recs@ == old(self).recs@,
            old(self).spec_contains_code(code@) ==> final(self).recs@ == old(self).recs@.remove(
                spec_index_of(old(self).recs@, code@),
            ),
    {
        match self.find_idx(code) {
            None => {
            },
            Some(i) => {
                proof {
                    let j = spec_index_of(old(self).recs@, code@);
                    assert(0 <= j < old(self).recs@.len() && old(self).recs@[j].code@ == code@);
                    assert(j == i as int);
                }
                self.recs.remove(i);
                proof {
                    assert forall|k: int| 0 <= k < self.recs@.len() implies (
                    #[trigger] self.recs@[k]).code@ != code@ by {
                        if k < i as int {
                            assert(self.recs@[k] == old(self).recs@[k]);
                        } else {
                            assert(self.recs@[k] == old(self).recs@[k + 1]);
                        }
                    }
                }
            },
        }
    }

    /// Moves the expiry of the session with this code, if present; every
    /// other field and row is untouched.
    pub fn extend(&mut self, code: &str, expires: Instant)
        requires
            old(self).wf(),
        ensures
            final(self).wf(),
            !old(self).spec_contains_code(code@) ==> final(self).recs@ == old(self).recs@,
            old(self).spec_contains_code(code@) ==> ({
                let i = spec_index_of(old(self).recs@, code@);
                let rec = old(self).recs@[i];
                final(self).recs@ == old(self).recs@.update(
                    i,
                    SessionRec { expires, ..rec },
                )
            }),
    {
        match self.find_idx(code) {
            None => {
            },
            Some(i) => {
                proof {
                    let j = spec_index_of(old(self).recs@, code@);
                    assert(0 <= j < old(self).recs@.len() && old(self).recs@[j].code@ == code@);
                    assert(j == i as int);
                }
                self.recs[i].expires = expires;
            },
        }
    }
}

/// Law: the row an `Expired` outcome removes was the only one with its code,
/// so the store that results no longer contains the code at all.
pub proof fn lemma_expired_session_deleted(store: SessionStore, code: Seq<char>)
    requires
        store.wf(),
        store.spec_contains_code(code),
    ensures
        ({
            let rest = store.recs@.remove(spec_index_of(store.recs@, code));
            forall|k: int| 0 <= k < rest.len() ==> (#[trigger] rest[k]).code@ != code
        }),
{
    let i = spec_index_of(store.recs@, code);
    assert(0 <= i < store.recs@.len() && store.recs@[i].code@ == code);
    let rest = store.recs@.remove(i);
    assert forall|k: int| 0 <= k < rest.len() implies (#[trigger] rest[k]).code@ != code by {
        if k < i {
            assert(rest[k] == store.recs@[k]);
        } else {
            assert(rest[k] == store.recs@[k + 1]);
        }
    }
}

/// Law: a live session's expiry after a successful authenticated access is
/// exactly `now + lifetime(kind)`; whenever the kind's window outlasts the
/// session's remaining life, the stored expiry strictly increases.
pub proof fn lemma_sliding_expiry(rec: SessionRec, now: Instant)
    requires
        now < rec.expires,
        rec.expires - now < spec_lifetime(rec.kind@),
    ensures
        spec_lifetime(rec.kind@) > 0,
        now + spec_lifetime(rec.kind@) > rec.expires,
{
}

} // verus!
