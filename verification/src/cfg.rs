//! Server configuration and the secrets container filled from a parameter
//! store.  Reading the parameter store is an external collaborator's work in
//! unverified glue; the container itself only hands loaded values back out.

use vstd::prelude::*;

use crate::utils::str_eq;

verus! {

/// Secrets the common middleware needs from the parameter store.
pub enum CommonSecretKind {
    OidcSecret,
}

/// The server block of the configuration.
#[derive(Clone, Default)]
pub struct ServerSettings {
    pub port: u16,
    pub oidc_client_id: String,
    pub public_url: String,
    pub oidc_admins: Vec<String>,
    pub ssm_prefix: String,
}

/// Access to the loaded configuration.
pub trait Cfg {
    fn server(&self) -> &ServerSettings;
}

/// A parameter-store key, as named by the deployment.
pub trait SsmKeyTrait {
    /// The key's name under the deployment prefix.
    spec fn spec_key(&self) -> Seq<char>;

    fn key(&self) -> (k: &str)
        ensures
            k@ == self.spec_key(),
    ;
}

/// The loaded secrets: one value for each key of the deployment.
pub struct SecretsContainer<T: SsmKeyTrait>(pub Vec<(T, String)>);

impl<T: SsmKeyTrait> SecretsContainer<T> {
    /// Keys are unique.
    pub open spec fn wf(&self) -> bool {
        forall|i: int, j: int|
            #![trigger self.0@[i], self.0@[j]]
            0 <= i < j < self.0@.len() ==> self.0@[i].0.spec_key() != self.0@[j].0.spec_key()
    }

    /// Some entry was loaded for this key name.
    pub open spec fn spec_contains_key(&self, key: Seq<char>) -> bool {
        exists|i: int| 0 <= i < self.0@.len() && (#[trigger] self.0@[i]).0.spec_key() == key
    }

    /// The loaded value under the given key, which must have been loaded.
    pub fn get(&self, key: T) -> (v: &str)
        requires
            self.spec_contains_key(key.spec_key()),
        ensures
            exists|i: int|
                0 <= i < self.0@.len() && (#[trigger] self.0@[i]).0.spec_key() == key.spec_key()
                    && v@ == self.0@[i].1@,
    {
        let k: &str = key.key();
        let n = self.0.len();
        let mut i: usize = 0;
        while i < n
            invariant
                n == self.0@.len(),
                i <= n,
                k@ == key.spec_key(),
                self.spec_contains_key(key.spec_key()),
                forall|t: int| 0 <= t < i ==> (#[trigger] self.0@[t]).0.spec_key() != key.spec_key(),
            decreases n - i,
        {
            if str_eq(self.0[i].0.key(), k) {
                return self.0[i].1.as_str();
            }
            i = i + 1;
        }
        proof {
            assert(false);
        }
        unreached()
    }
}

} // verus!
