use vstd::prelude::*;

use crate::error::DiscoveryError;
use crate::scrape;

verus! {

/// Holds the single current token of a client. A refresh replaces the token
/// only when discovery succeeded; a failed refresh leaves it untouched.
pub struct CredentialStore {
    pub token: String,
}

impl CredentialStore {
    /// What the store holds after applying a refresh whose discovery ended in
    /// `discovered`: the newly discovered token on success, the old token on
    /// failure.
    pub open spec fn spec_after_refresh(
        before: Seq<char>,
        discovered: Result<String, DiscoveryError>,
    ) -> Seq<char> {
        match discovered {
            Ok(t) => t@,
            Err(_) => before,
        }
    }

    /// A store holding `token`.
    pub fn new(token: String) -> (s: CredentialStore)
        ensures
            s.token == token,
    {
        CredentialStore { token }
    }

    /// A copy of the presently held token.
    pub fn current(&self) -> (t: String)
        ensures
            t == self.token,
    {
        self.token.clone()
    }

    /// Apply the outcome of a discovery run: on success the newly discovered
    /// token replaces the held one and the call succeeds; on failure the
    /// store is untouched and the discovery error propagates.
    pub fn apply_refresh(&mut self, discovered: Result<String, DiscoveryError>) -> (r: Result<
        (),
        DiscoveryError,
    >)
        ensures
            final(self).token@ == Self::spec_after_refresh(old(self).token@, discovered),
            match discovered {
                Ok(t) => final(self).token == t && r is Ok,
                Err(e) => final(self).token == old(self).token && r == Err::<(), DiscoveryError>(
                    e,
                ),
            },
    {
        match discovered {
            Ok(t) => {
                self.token = t;
                Ok(())
            },
            Err(e) => Err(e),
        }
    }

    /// Refresh from already-fetched documents: run token discovery over the
    /// landing page and the script bodies, and apply its outcome as
    /// `apply_refresh` does.
    pub fn refresh_from_documents(
        &mut self,
        landing_body: &str,
        script_bodies: &Vec<Option<String>>,
    ) -> (r: Result<(), DiscoveryError>)
        ensures
            match scrape::discovered_token(
                scrape::script_urls(landing_body@).len() as int,
                script_bodies.deep_view(),
                0,
            ) {
                Some(t) => final(self).token@ == t && r is Ok,
                None => final(self).token == old(self).token && r == Err::<(), DiscoveryError>(
                    DiscoveryError::NotFound,
                ),
            },
    {
        let discovered = scrape::discover_from_bodies(landing_body, script_bodies);
        self.apply_refresh(discovered)
    }
}

/// Law: a reader right after a completed refresh sees the newly discovered
/// token, never the prior one.
pub proof fn lemma_refresh_then_current(before: Seq<char>, t: String)
    ensures
        CredentialStore::spec_after_refresh(before, Ok(t)) == t@,
{
}

} // verus!
