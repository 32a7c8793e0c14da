use vstd::prelude::*;

use crate::error::{ApiError, DiscoveryError};
use crate::request::RequestOutcome;

verus! {

/// Retry policy of a client: a call makes at most `max_retries` retries, and
/// a retry happens only on an authentication failure when `retry_on_401` is
/// set. Immutable after client construction.
#[derive(Clone, Copy)]
pub struct RetryConfig {
    pub max_retries: u32,
    pub retry_on_401: bool,
}

impl RetryConfig {
    /// A policy with the given bounds.
    pub fn new(max_retries: u32, retry_on_401: bool) -> (c: RetryConfig)
        ensures
            c.max_retries == max_retries,
            c.retry_on_401 == retry_on_401,
    {
        RetryConfig { max_retries, retry_on_401 }
    }
}

impl Default for RetryConfig {
    /// The default policy: one retry, and retrying on 401 enabled.
    fn default() -> (c: RetryConfig)
        ensures
            c.max_retries == 1,
            c.retry_on_401,
    {
        RetryConfig { max_retries: 1, retry_on_401: true }
    }
}

/// What the coordinator does right after one attempt.
#[derive(Debug)]
pub enum AttemptDecision {
    /// Terminal: return this result to the caller.
    Done(Result<String, ApiError>),
    /// Refresh the credential, then run the next attempt.
    RefreshAndRetry,
}

/// The per-call retry state machine, one step: what the outcome of attempt
/// number `attempt` (counted from 0) decides under policy `cfg`. A success is
/// terminal with its payload; an authentication failure is retried exactly
/// when retrying is enabled and the retry budget is not exhausted; every
/// other outcome is terminal with the corresponding error.
pub open spec fn spec_decide(cfg: RetryConfig, attempt: int, o: RequestOutcome) -> AttemptDecision {
    match o {
        RequestOutcome::Success(body) => AttemptDecision::Done(Ok(body)),
        RequestOutcome::AuthFailure(status, body) => {
            if cfg.retry_on_401 && attempt < cfg.max_retries {
                AttemptDecision::RefreshAndRetry
            } else {
                AttemptDecision::Done(Err(ApiError::AuthFailure(status, body)))
            }
        },
        RequestOutcome::OtherHttpFailure(status, body) => AttemptDecision::Done(
            Err(ApiError::OtherHttpFailure(status, body)),
        ),
        RequestOutcome::TransportFailure(cause) => AttemptDecision::Done(
            Err(ApiError::TransportFailure(cause)),
        ),
        RequestOutcome::DecodeFailure(cause) => AttemptDecision::Done(
            Err(ApiError::DecodeFailure(cause)),
        ),
    }
}

/// One step of the retry state machine, as executable code.
pub fn decide_attempt(cfg: &RetryConfig, attempt: u32, outcome: RequestOutcome) -> (d:
    AttemptDecision)
    ensures
        d == spec_decide(*cfg, attempt as int, outcome),
{
    match outcome {
        RequestOutcome::Success(body) => AttemptDecision::Done(Ok(body)),
        RequestOutcome::AuthFailure(status, body) => {
            if cfg.retry_on_401 && attempt < cfg.max_retries {
                AttemptDecision::RefreshAndRetry
            } else {
                AttemptDecision::Done(Err(ApiError::AuthFailure(status, body)))
            }
        },
        RequestOutcome::OtherHttpFailure(status, body) => AttemptDecision::Done(
            Err(ApiError::OtherHttpFailure(status, body)),
        ),
        RequestOutcome::TransportFailure(cause) => AttemptDecision::Done(
            Err(ApiError::TransportFailure(cause)),
        ),
        RequestOutcome::DecodeFailure(cause) => AttemptDecision::Done(
            Err(ApiError::DecodeFailure(cause)),
        ),
    }
}

/// One complete fetch call driven by given per-attempt data, starting at
/// attempt number `attempt`: `outcomes[k]` is what the executor returns on
/// attempt `k`, and `refreshes[k]` is what discovery returns for the refresh
/// that follows attempt `k`. The triple holds the terminal result (`None`
/// only when the given data runs out first), the number of attempts made, and
/// the number of refreshes made.
pub open spec fn spec_run_fetch(
    cfg: RetryConfig,
    outcomes: Seq<RequestOutcome>,
    refreshes: Seq<Result<String, DiscoveryError>>,
    attempt: int,
) -> (Option<Result<String, ApiError>>, int, int)
    decreases outcomes.len() - attempt,
{
    if attempt < 0 || attempt >= outcomes.len() {
        (None, 0, 0)
    } else {
        match spec_decide(cfg, attempt, outcomes[attempt]) {
            AttemptDecision::Done(r) => (Some(r), 1, 0),
            AttemptDecision::RefreshAndRetry => {
                if attempt >= refreshes.len() {
                    (None, 1, 0)
                } else {
                    match refreshes[attempt] {
                        Err(e) => (Some(Err(ApiError::Discovery(e))), 1, 1),
                        Ok(_) => {
                            let rest = spec_run_fetch(cfg, outcomes, refreshes, attempt + 1);
                            (rest.0, rest.1 + 1, rest.2 + 1)
                        },
                    }
                }
            },
        }
    }
}

/// What one fetch call did: its terminal result, how many attempts it made,
/// and how many refreshes it made.
#[derive(Debug)]
pub struct FetchTrace {
    pub result: Result<String, ApiError>,
    pub attempts: u64,
    pub refreshes: u64,
}

pub(crate) fn duplicate_refresh(r: &Result<String, DiscoveryError>) -> (o: Result<
    String,
    DiscoveryError,
>)
    ensures
        o == *r,
{
    match r {
        Ok(t) => Ok(t.clone()),
        Err(e) => Err(e.duplicate()),
    }
}

/// Run one fetch call against given per-attempt data: `outcomes[k]` is what
/// the executor returns on attempt `k` and `refreshes[k]` what discovery
/// returns for the refresh after it. Enough data for the worst case is
/// required: `max_retries + 1` outcomes and `max_retries` refresh results.
pub fn run_fetch(
    cfg: &RetryConfig,
    outcomes: &Vec<RequestOutcome>,
    refreshes: &Vec<Result<String, DiscoveryError>>,
) -> (t: FetchTrace)
    requires
        outcomes@.len() > cfg.max_retries,
        refreshes@.len() >= cfg.max_retries,
    ensures
        ({
            let run = spec_run_fetch(*cfg, outcomes@, refreshes@, 0);
            run.0 == Some(t.result) && run.1 == t.attempts as int && run.2 == t.refreshes as int
        }),
{
    let mut attempt: u32 = 0;
    let mut refreshes_done: u64 = 0;
    loop
        invariant
            attempt <= cfg.max_retries,
            outcomes@.len() > cfg.max_retries,
            refreshes@.len() >= cfg.max_retries,
            refreshes_done == attempt,
            ({
                let whole = spec_run_fetch(*cfg, outcomes@, refreshes@, 0);
                let rest = spec_run_fetch(*cfg, outcomes@, refreshes@, attempt as int);
                whole.0 == rest.0 && whole.1 == rest.1 + attempt && whole.2 == rest.2
                    + refreshes_done
            }),
        decreases cfg.max_retries - attempt,
    {
        let outcome = outcomes[attempt as usize].duplicate();
        match decide_attempt(cfg, attempt, outcome) {
            AttemptDecision::Done(result) => {
                return FetchTrace {
                    result,
                    attempts: attempt as u64 + 1,
                    refreshes: refreshes_done,
                };
            },
            AttemptDecision::RefreshAndRetry => {
                let discovered = duplicate_refresh(&refreshes[attempt as usize]);
                match discovered {
                    Err(e) => {
                        return FetchTrace {
                            result: Err(ApiError::Discovery(e)),
                            attempts: attempt as u64 + 1,
                            refreshes: refreshes_done + 1,
                        };
                    },
                    Ok(_) => {
                        refreshes_done = refreshes_done + 1;
                        attempt = attempt + 1;
                    },
                }
            },
        }
    }
}

/// The error that an authentication failure surfaces as.
pub open spec fn spec_auth_error(o: RequestOutcome) -> ApiError
    recommends
        o is AuthFailure,
{
    ApiError::AuthFailure(o->AuthFailure_0, o->AuthFailure_1)
}

/// The error that a non-401 HTTP failure surfaces as.
pub open spec fn spec_other_http_error(o: RequestOutcome) -> ApiError
    recommends
        o is OtherHttpFailure,
{
    ApiError::OtherHttpFailure(o->OtherHttpFailure_0, o->OtherHttpFailure_1)
}

/// Law: the retry budget is never exceeded: whatever the executor and the
/// refreshes return, one call makes at most `max_retries + 1` attempts and at
/// most `max_retries` refreshes, and never more refreshes than attempts.
pub proof fn lemma_fetch_bounded_retries(
    cfg: RetryConfig,
    outcomes: Seq<RequestOutcome>,
    refreshes: Seq<Result<String, DiscoveryError>>,
)
    ensures
        ({
            let run = spec_run_fetch(cfg, outcomes, refreshes, 0);
            run.1 <= cfg.max_retries + 1 && run.2 <= cfg.max_retries && run.2 <= run.1
        }),
{
    lemma_fetch_bounded_retries_from(cfg, outcomes, refreshes, 0);
}

proof fn lemma_fetch_bounded_retries_from(
    cfg: RetryConfig,
    outcomes: Seq<RequestOutcome>,
    refreshes: Seq<Result<String, DiscoveryError>>,
    attempt: int,
)
    requires
        0 <= attempt,
    ensures
        ({
            let run = spec_run_fetch(cfg, outcomes, refreshes, attempt);
            &&& run.2 <= run.1
            &&& attempt <= cfg.max_retries ==> run.1 <= cfg.max_retries + 1 - attempt && run.2
                <= cfg.max_retries - attempt
            &&& attempt > cfg.max_retries ==> run.1 <= 1 && run.2 == 0
        }),
    decreases outcomes.len() - attempt,
{
    if attempt < outcomes.len() {
        lemma_fetch_bounded_retries_from(cfg, outcomes, refreshes, attempt + 1);
    }
}

/// Law: with retrying on authentication failures disabled, no call ever
/// refreshes, whatever the executor returns.
pub proof fn lemma_fetch_never_refreshes_when_disabled(
    cfg: RetryConfig,
    outcomes: Seq<RequestOutcome>,
    refreshes: Seq<Result<String, DiscoveryError>>,
)
    requires
        !cfg.retry_on_401,
    ensures
        ({
            let run = spec_run_fetch(cfg, outcomes, refreshes, 0);
            run.1 <= 1 && run.2 == 0
        }),
{
}

/// Law: with retrying enabled, an executor that always reports an
/// authentication failure and refreshes that always succeed drive a call to
/// exactly `max_retries + 1` attempts and `max_retries` refreshes, ending in
/// the authentication error of the last attempt.
pub proof fn lemma_fetch_exhausts_retries(
    cfg: RetryConfig,
    outcomes: Seq<RequestOutcome>,
    refreshes: Seq<Result<String, DiscoveryError>>,
)
    requires
        cfg.retry_on_401,
        outcomes.len() > cfg.max_retries,
        refreshes.len() >= cfg.max_retries,
        forall|k: int| 0 <= k < outcomes.len() ==> #[trigger] outcomes[k] is AuthFailure,
        forall|k: int| 0 <= k < refreshes.len() ==> #[trigger] refreshes[k] is Ok,
    ensures
        ({
            let run = spec_run_fetch(cfg, outcomes, refreshes, 0);
            run.1 == cfg.max_retries + 1 && run.2 == cfg.max_retries && run.0 == Some(
                Err::<String, ApiError>(spec_auth_error(outcomes[cfg.max_retries as int])),
            )
        }),
{
    lemma_fetch_exhausts_retries_from(cfg, outcomes, refreshes, 0);
}

proof fn lemma_fetch_exhausts_retries_from(
    cfg: RetryConfig,
    outcomes: Seq<RequestOutcome>,
    refreshes: Seq<Result<String, DiscoveryError>>,
    attempt: int,
)
    requires
        cfg.retry_on_401,
        outcomes.len() > cfg.max_retries,
        refreshes.len() >= cfg.max_retries,
        0 <= attempt <= cfg.max_retries,
        forall|k: int| 0 <= k < outcomes.len() ==> #[trigger] outcomes[k] is AuthFailure,
        forall|k: int| 0 <= k < refreshes.len() ==> #[trigger] refreshes[k] is Ok,
    ensures
        ({
            let run = spec_run_fetch(cfg, outcomes, refreshes, attempt);
            run.1 == cfg.max_retries - attempt + 1 && run.2 == cfg.max_retries - attempt && run.0
                == Some(Err::<String, ApiError>(spec_auth_error(outcomes[cfg.max_retries as int])))
        }),
    decreases cfg.max_retries - attempt,
{
    if attempt < cfg.max_retries {
        lemma_fetch_exhausts_retries_from(cfg, outcomes, refreshes, attempt + 1);
    }
}

/// Law: with retrying on authentication failures disabled, a single
/// authentication failure ends the call at once: one attempt, no refresh,
/// and the authentication error surfaced.
pub proof fn lemma_fetch_no_retry_when_disabled(
    cfg: RetryConfig,
    outcomes: Seq<RequestOutcome>,
    refreshes: Seq<Result<String, DiscoveryError>>,
)
    requires
        !cfg.retry_on_401,
        outcomes.len() > 0,
        outcomes[0] is AuthFailure,
    ensures
        ({
            let run = spec_run_fetch(cfg, outcomes, refreshes, 0);
            run.1 == 1 && run.2 == 0 && run.0 == Some(
                Err::<String, ApiError>(spec_auth_error(outcomes[0])),
            )
        }),
{
}

/// Law: when the first attempt fails with an authentication failure, the
/// refresh succeeds, and the second attempt succeeds, the call returns the
/// payload of the second attempt after exactly two attempts and one refresh.
pub proof fn lemma_fetch_recovers_after_refresh(
    cfg: RetryConfig,
    outcomes: Seq<RequestOutcome>,
    refreshes: Seq<Result<String, DiscoveryError>>,
)
    requires
        cfg.retry_on_401,
        cfg.max_retries >= 1,
        outcomes.len() >= 2,
        refreshes.len() >= 1,
        outcomes[0] is AuthFailure,
        refreshes[0] is Ok,
        outcomes[1] is Success,
    ensures
        ({
            let run = spec_run_fetch(cfg, outcomes, refreshes, 0);
            run.1 == 2 && run.2 == 1 && run.0 == Some(
                Ok::<String, ApiError>(outcomes[1]->Success_0),
            )
        }),
{
    reveal_with_fuel(spec_run_fetch, 3);
}

/// Law: an HTTP failure other than 401 on the first attempt is terminal at
/// once and triggers no refresh, whatever the retry configuration.
pub proof fn lemma_fetch_other_http_never_refreshes(
    cfg: RetryConfig,
    outcomes: Seq<RequestOutcome>,
    refreshes: Seq<Result<String, DiscoveryError>>,
)
    requires
        outcomes.len() > 0,
        outcomes[0] is OtherHttpFailure,
    ensures
        ({
            let run = spec_run_fetch(cfg, outcomes, refreshes, 0);
            run.1 == 1 && run.2 == 0 && run.0 == Some(
                Err::<String, ApiError>(spec_other_http_error(outcomes[0])),
            )
        }),
{
}

} // verus!
