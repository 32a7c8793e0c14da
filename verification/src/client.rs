use vstd::prelude::*;

use crate::credential::CredentialStore;
use crate::error::{ApiError, DiscoveryError};
use crate::request::RequestOutcome;
use crate::retry::{
    decide_attempt, spec_decide, spec_run_fetch, AttemptDecision, FetchTrace, RetryConfig,
};
use crate::scrape;

verus! {

/// The client facade: one credential store and one retry policy, shared by
/// every call.
pub struct Client {
    pub credentials: CredentialStore,
    pub retry_config: RetryConfig,
}

impl Client {
    /// A client holding `token` under the given retry policy.
    pub fn with_token(token: String, retry_config: RetryConfig) -> (c: Client)
        ensures
            c.credentials.token == token,
            c.retry_config == retry_config,
    {
        Client { credentials: CredentialStore::new(token), retry_config }
    }

    /// A copy of the client's current token.
    pub fn client_id(&self) -> (t: String)
        ensures
            t == self.credentials.token,
    {
        self.credentials.current()
    }

    /// Refresh the client's token from already-fetched documents: on a
    /// successful discovery the new token replaces the held one, otherwise
    /// the client is untouched and the discovery error propagates. The retry
    /// policy never changes.
    pub fn refresh_from_documents(
        &mut self,
        landing_body: &str,
        script_bodies: &Vec<Option<String>>,
    ) -> (r: Result<(), DiscoveryError>)
        ensures
            final(self).retry_config == old(self).retry_config,
            match scrape::discovered_token(
                scrape::script_urls(landing_body@).len() as int,
                script_bodies.deep_view(),
                0,
            ) {
                Some(t) => final(self).credentials.token@ == t && r is Ok,
                None => final(self).credentials == old(self).credentials && r == Err::<
                    (),
                    DiscoveryError,
                >(DiscoveryError::NotFound),
            },
    {
        self.credentials.refresh_from_documents(landing_body, script_bodies)
    }

    /// One step of this client's per-call retry state machine.
    pub fn decide(&self, attempt: u32, outcome: RequestOutcome) -> (d: AttemptDecision)
        ensures
            d == spec_decide(self.retry_config, attempt as int, outcome),
    {
        decide_attempt(&self.retry_config, attempt, outcome)
    }

    /// One fetch call under this client's policy, driven by given per-attempt
    /// data: `outcomes[k]` is what the executor returns on attempt `k` and
    /// `refreshes[k]` what discovery returns for the refresh after it. The
    /// call behaves as `run_fetch` does, and in addition each successful
    /// refresh replaces the client's token, so the client ends up holding
    /// the token of the last refresh that succeeded (its original token when
    /// none did).
    pub fn fetch_trace(
        &mut self,
        outcomes: &Vec<RequestOutcome>,
        refreshes: &Vec<Result<String, DiscoveryError>>,
    ) -> (t: FetchTrace)
        requires
            outcomes@.len() > old(self).retry_config.max_retries,
            refreshes@.len() >= old(self).retry_config.max_retries,
        ensures
            final(self).retry_config == old(self).retry_config,
            ({
                let run = spec_run_fetch(old(self).retry_config, outcomes@, refreshes@, 0);
                run.0 == Some(t.result) && run.1 == t.attempts as int && run.2
                    == t.refreshes as int
            }),
            t.refreshes == 0 ==> final(self).credentials == old(self).credentials,
            t.refreshes > 0 && refreshes@[t.refreshes as int - 1] is Ok
                ==> final(self).credentials.token == refreshes@[t.refreshes as int - 1]->Ok_0,
            t.refreshes == 1 && refreshes@[0] is Err
                ==> final(self).credentials == old(self).credentials,
            t.refreshes > 1 && refreshes@[t.refreshes as int - 1] is Err
                ==> final(self).credentials.token == refreshes@[t.refreshes as int - 2]->Ok_0,
    {
        let mut attempt: u32 = 0;
        let mut refreshes_done: u64 = 0;
        loop
            invariant
                self.retry_config == old(self).retry_config,
                attempt <= self.retry_config.max_retries,
                outcomes@.len() > self.retry_config.max_retries,
                refreshes@.len() >= self.retry_config.max_retries,
                refreshes_done == attempt,
                attempt == 0 ==> self.credentials == old(self).credentials,
                attempt > 0 ==> refreshes@[attempt - 1] is Ok && self.credentials.token
                    == refreshes@[attempt - 1]->Ok_0,
                ({
                    let whole = spec_run_fetch(
                        old(self).retry_config,
                        outcomes@,
                        refreshes@,
                        0,
                    );
                    let rest = spec_run_fetch(
                        old(self).retry_config,
                        outcomes@,
                        refreshes@,
                        attempt as int,
                    );
                    whole.0 == rest.0 && whole.1 == rest.1 + attempt && whole.2 == rest.2
                        + refreshes_done
                }),
            decreases self.retry_config.max_retries - attempt,
        {
            let outcome = outcomes[attempt as usize].duplicate();
            match decide_attempt(&self.retry_config, attempt, outcome) {
                AttemptDecision::Done(result) => {
                    return FetchTrace {
                        result,
                        attempts: attempt as u64 + 1,
                        refreshes: refreshes_done,
                    };
                },
                AttemptDecision::RefreshAndRetry => {
                    let discovered = crate::retry::duplicate_refresh(
                        &refreshes[attempt as usize],
                    );
                    match self.credentials.apply_refresh(discovered) {
                        Err(e) => {
                            return FetchTrace {
                                result: Err(ApiError::Discovery(e)),
                                attempts: attempt as u64 + 1,
                                refreshes: refreshes_done + 1,
                            };
                        },
                        Ok(_) => {
                            refreshes_done = refreshes_done + 1;
                            attempt = attempt + 1;
                        },
                    }
                },
            }
        }
    }

}

/// Builder for a client's retry configuration.
pub struct ClientBuilder {
    pub retry_config: RetryConfig,
}

impl ClientBuilder {
    /// A builder with the default retry configuration: one retry, retrying on
    /// 401 enabled.
    pub fn new() -> (b: ClientBuilder)
        ensures
            b.retry_config.max_retries == 1,
            b.retry_config.retry_on_401,
    {
        ClientBuilder { retry_config: RetryConfig::default() }
    }

    /// Set the maximum number of retry attempts.
    pub fn with_max_retries(self, max_retries: u32) -> (b: ClientBuilder)
        ensures
            b.retry_config.max_retries == max_retries,
            b.retry_config.retry_on_401 == self.retry_config.retry_on_401,
    {
        ClientBuilder {
            retry_config: RetryConfig {
                max_retries,
                retry_on_401: self.retry_config.retry_on_401,
            },
        }
    }

    /// Enable or disable retrying on 401 Unauthorized responses.
    pub fn with_retry_on_401(self, retry_on_401: bool) -> (b: ClientBuilder)
        ensures
            b.retry_config.max_retries == self.retry_config.max_retries,
            b.retry_config.retry_on_401 == retry_on_401,
    {
        ClientBuilder {
            retry_config: RetryConfig {
                max_retries: self.retry_config.max_retries,
                retry_on_401,
            },
        }
    }

    /// Build a client around an already-discovered token, with the configured
    /// policy.
    pub fn build_with_token(self, token: String) -> (c: Client)
        ensures
            c.credentials.token == token,
            c.retry_config == self.retry_config,
    {
        Client::with_token(token, self.retry_config)
    }
}

impl Default for ClientBuilder {
    /// Same as `ClientBuilder::new`.
    fn default() -> (b: ClientBuilder)
        ensures
            b.retry_config.max_retries == 1,
            b.retry_config.retry_on_401,
    {
        ClientBuilder::new()
    }
}

} // verus!
