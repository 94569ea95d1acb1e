//! The key material cache.
//!
//! The provider's signing keys are fetched from its published endpoint by
//! the caller; this module owns the cached snapshot. A fetch outcome is
//! applied wholesale: a successful fetch replaces the entire set, a failed
//! one leaves the last good set standing, so verification can keep serving
//! with the keys it has. Before the first successful fetch the cache is
//! empty and every verification reports `KeyFetchFailure`.

use vstd::prelude::*;

verus! {

use crate::auth::{Key, KeyView, VerificationConfig, VerificationError, verify, verify_outcome,
subject_of};

/// The last successfully fetched key set; empty until a fetch succeeds.
pub struct KeyCache {
    keys: Vec<Key>,
}

impl View for KeyCache {
    type V = Seq<KeyView>;

    closed spec fn view(&self) -> Seq<KeyView> {
        self.keys.deep_view()
    }
}

impl KeyCache {
    /// A cache that has not seen a successful fetch yet.
    pub fn new() -> (r: KeyCache)
        ensures
            r@ == Seq::<KeyView>::empty(),
    {
        let r = KeyCache { keys: Vec::new() };
        proof {
            assert(r.keys.deep_view() =~= Seq::<KeyView>::empty());
        }
        r
    }

    /// Applies the outcome of one fetch attempt: a successful fetch
    /// replaces the whole cached set, a failed one keeps the last good
    /// set so verification degrades rather than stops.
    pub fn apply_fetch(&mut self, fetched: Option<Vec<Key>>)
        ensures
            match fetched {
                Some(ks) => final(self)@ == ks.deep_view(),
                None => final(self)@ == old(self)@,
            },
    {
        match fetched {
            Some(ks) => {
                self.keys = ks;
            },
            None => {},
        }
    }

    /// Whether a signature check can be attempted at all.
    pub fn has_keys(&self) -> (r: bool)
        ensures
            r == (self@.len() > 0),
    {
        self.keys.len() > 0
    }

    /// The cached snapshot.
    pub fn keys(&self) -> (r: &Vec<Key>)
        ensures
            r.deep_view() == self@,
    {
        &self.keys
    }

    /// Verifies a token against the cached snapshot: `KeyFetchFailure`
    /// while the cache is empty, otherwise the verification pipeline's
    /// outcome for the cached keys.
    pub fn verify(&self, token: &str, config: &VerificationConfig, now: u64) -> (r: Result<
        String,
        VerificationError,
    >)
        ensures
            subject_of(r) == verify_outcome(token@, self@, config@, now),
    {
        verify(token, &self.keys, config, now)
    }
}

} // verus!
