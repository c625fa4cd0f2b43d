use vstd::prelude::*;

use super::text_map::TextMap;

verus! {

/// One public key of the identity provider's published key set.
#[derive(Clone, PartialEq, Eq, Debug)]
pub struct AuthKey {
    /// The id by which tokens name this key.
    pub kid: String,
    pub alg: String,
    pub kty: String,
    pub e: String,
    pub n: String,
    pub intended_use: String,
}

impl AuthKey {
    /// A key with every field empty.
    pub fn new() -> (key: AuthKey)
        ensures
            key.kid@ == Seq::<char>::empty(),
            key.alg@ == Seq::<char>::empty(),
            key.kty@ == Seq::<char>::empty(),
            key.e@ == Seq::<char>::empty(),
            key.n@ == Seq::<char>::empty(),
            key.intended_use@ == Seq::<char>::empty(),
    {
        AuthKey {
            kid: String::new(),
            alg: String::new(),
            kty: String::new(),
            e: String::new(),
            n: String::new(),
            intended_use: String::new(),
        }
    }

    /// A key from its fields.
    pub fn build(
        kid: String,
        alg: String,
        kty: String,
        e: String,
        n: String,
        intended_use: String,
    ) -> (key: AuthKey)
        ensures
            key == (AuthKey { kid, alg, kty, e, n, intended_use }),
    {
        AuthKey { kid, alg, kty, e, n, intended_use }
    }
}

/// The cache of the published key set: each key under its id.
#[derive(PartialEq, Eq, Debug)]
pub struct AuthSet {
    pub auth_set: TextMap<AuthKey>,
}

impl View for AuthSet {
    type V = Map<Seq<char>, AuthKey>;

    open spec fn view(&self) -> Map<Seq<char>, AuthKey> {
        self.auth_set@
    }
}

impl AuthSet {
    /// An empty cache.
    pub fn new() -> (set: AuthSet)
        ensures
            set@ == Map::<Seq<char>, AuthKey>::empty(),
    {
        AuthSet { auth_set: TextMap::new() }
    }

    /// A cache that holds the given keys.
    pub fn build(auth_set: TextMap<AuthKey>) -> (set: AuthSet)
        ensures
            set.auth_set == auth_set,
    {
        AuthSet { auth_set }
    }

    /// Caches a key under its id, and hands back the key it replaces, if
    /// any.
    pub fn insert(&mut self, auth_key: AuthKey) -> (previous: Option<AuthKey>)
        ensures
            final(self)@ == old(self)@.insert(auth_key.kid@, auth_key),
            previous == (if old(self)@.contains_key(auth_key.kid@) {
                Some(old(self)@[auth_key.kid@])
            } else {
                None
            }),
    {
        self.auth_set.insert(auth_key.kid.clone(), auth_key)
    }

    /// The cached key with an id, if there is one.
    pub fn get(&self, kid: &str) -> (key: Option<&AuthKey>)
        ensures
            key == (if self@.contains_key(kid@) {
                Some(&self@[kid@])
            } else {
                None
            }),
    {
        self.auth_set.get(kid)
    }
}

} // verus!
