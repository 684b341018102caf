//! The retrying fetch engine.
//!
//! One HTTP attempt ends in success, a client error, or a transient
//! failure. Transient failures are retried with exponential backoff until
//! the attempt budget runs out; client errors end the fetch at once. The
//! decisions are pure functions of the configuration and the attempt
//! outcomes, so the whole retry discipline is stated and proved here; the
//! caller performs the network attempts and sleeps.

use vstd::prelude::*;

verus! {

/// Retry policy: attempt budget and backoff schedule. The growth factor is
/// kept in hundredths, so a value of 200 doubles the delay after every
/// failed attempt.
#[derive(Debug, Clone, Copy, PartialEq, Eq, Structural)]
pub struct RetryConfig {
    pub max_attempts: u32,
    pub initial_delay_ms: u64,
    pub max_delay_ms: u64,
    pub backoff_multiplier_percent: u64,
}

/// How one HTTP attempt ended.
#[derive(Debug, Clone, Copy, PartialEq, Eq, Structural)]
pub enum AttemptOutcome {
    /// A response with a success status arrived.
    Success,
    /// A response with a client-error status (4xx) arrived; not transient.
    ClientError,
    /// Anything else: connection failure, timeout, server error, other
    /// non-success status.
    Transient,
}

/// How a whole fetch ended.
#[derive(Debug, Clone, Copy, PartialEq, Eq, Structural)]
pub enum FetchResult {
    /// An attempt succeeded.
    Success,
    /// An attempt met a client error, which is surfaced immediately.
    ClientError,
    /// Every attempt in the budget failed transiently; the last failure is
    /// the reported error.
    Exhausted,
}

/// What the caller must do after one attempt.
#[derive(Debug, Clone, Copy, PartialEq, Eq, Structural)]
pub enum RetryStep {
    /// Stop with this overall result.
    Done(FetchResult),
    /// Sleep for `sleep_ms`, then attempt again with `next_delay_ms` as the
    /// delay to use after the next failure.
    SleepAndRetry { sleep_ms: u64, next_delay_ms: u64 },
}

/// How a whole fetch went: its result, the attempts made, and the
/// total backoff slept.
#[derive(Debug, Clone, Copy, PartialEq, Eq, Structural)]
pub struct FetchReport {
    pub result: FetchResult,
    pub attempts: u32,
    pub total_sleep_ms: u64,
}

impl RetryConfig {
    /// Machine bounds under which every delay sum fits comfortably in u64.
    pub open spec fn wf(&self) -> bool {
        &&& 1 <= self.max_attempts <= 100_000
        &&& self.initial_delay_ms <= 1_000_000_000
        &&& self.max_delay_ms <= 1_000_000_000
        &&& self.backoff_multiplier_percent <= 10_000
    }

    /// The delay after one more failure: multiplied by the growth factor,
    /// then capped at the configured maximum.
    pub open spec fn spec_next_delay(&self, delay: u64) -> u64 {
        let grown = (delay * self.backoff_multiplier_percent) / 100;
        if grown > self.max_delay_ms {
            self.max_delay_ms
        } else {
            grown as u64
        }
    }

    /// The stock policy: three attempts, one second initial delay, doubled
    /// after each failure, capped at ten seconds.
    pub fn standard() -> (r: RetryConfig)
        ensures
            r.wf(),
            r == (RetryConfig {
                max_attempts: 3,
                initial_delay_ms: 1000,
                max_delay_ms: 10000,
                backoff_multiplier_percent: 200,
            }),
    {
        RetryConfig {
            max_attempts: 3,
            initial_delay_ms: 1000,
            max_delay_ms: 10000,
            backoff_multiplier_percent: 200,
        }
    }

    /// Computes the next backoff delay.
    pub fn next_delay(&self, delay: u64) -> (r: u64)
        requires
            self.wf(),
            delay <= 1_000_000_000,
        ensures
            r == self.spec_next_delay(delay),
            r <= 1_000_000_000,
    {
        proof {
            assert(delay * self.backoff_multiplier_percent <= 10_000_000_000_000)
                by (nonlinear_arith)
                requires
                    delay <= 1_000_000_000,
                    self.backoff_multiplier_percent <= 10_000,
            ;
        }
        let grown = (delay * self.backoff_multiplier_percent) / 100;
        if grown > self.max_delay_ms {
            self.max_delay_ms
        } else {
            grown
        }
    }
}

/// The delay slept after the `i`-th failed attempt (1-based): the first
/// failure sleeps the initial delay, and each further failure grows it.
pub open spec fn spec_delay_at(cfg: RetryConfig, i: int) -> u64
    decreases i,
{
    if i <= 1 {
        cfg.initial_delay_ms
    } else {
        cfg.spec_next_delay(spec_delay_at(cfg, i - 1))
    }
}

/// Total time slept after `failures` failed attempts, each of which was
/// followed by a retry.
pub open spec fn spec_total_sleep(cfg: RetryConfig, failures: int) -> int
    decreases failures,
{
    if failures <= 0 {
        0
    } else {
        spec_total_sleep(cfg, failures - 1) + spec_delay_at(cfg, failures)
    }
}

/// The least index below `n` whose outcome is not transient, if any.
pub open spec fn spec_first_non_transient(outcomes: Seq<AttemptOutcome>, n: int) -> Option<int>
    decreases n,
{
    if n <= 0 {
        None
    } else {
        match spec_first_non_transient(outcomes, n - 1) {
            Some(k) => Some(k),
            None => if !(outcomes[n - 1] is Transient) {
                Some(n - 1)
            } else {
                None
            },
        }
    }
}

/// The report a fetch produces over a given outcome sequence: where the
/// first decisive attempt lies decides the result, the attempt count, and
/// the backoff sum.
pub open spec fn spec_fetch_report(cfg: RetryConfig, outcomes: Seq<AttemptOutcome>) -> FetchReport {
    match spec_first_non_transient(outcomes, cfg.max_attempts as int) {
        Some(k) => FetchReport {
            result: if outcomes[k] is Success {
                FetchResult::Success
            } else {
                FetchResult::ClientError
            },
            attempts: (k + 1) as u32,
            total_sleep_ms: spec_total_sleep(cfg, k) as u64,
        },
        None => FetchReport {
            result: FetchResult::Exhausted,
            attempts: cfg.max_attempts,
            total_sleep_ms: spec_total_sleep(cfg, cfg.max_attempts - 1) as u64,
        },
    }
}

/// Sorts an HTTP status code into the three attempt outcomes: 2xx is
/// success, 4xx is a terminal client error, anything else is transient.
pub fn classify_status(status: u16) -> (r: AttemptOutcome)
    ensures
        200 <= status < 300 ==> r is Success,
        400 <= status < 500 ==> r is ClientError,
        !(200 <= status < 300) && !(400 <= status < 500) ==> r is Transient,
{
    if 200 <= status && status < 300 {
        AttemptOutcome::Success
    } else if 400 <= status && status < 500 {
        AttemptOutcome::ClientError
    } else {
        AttemptOutcome::Transient
    }
}

/// What to do after attempt number `attempt` (1-based) ended with
/// `outcome`, when `delay_ms` is the backoff that a failure now costs.
pub fn retry_step(cfg: &RetryConfig, attempt: u32, delay_ms: u64, outcome: AttemptOutcome) -> (r:
    RetryStep)
    requires
        cfg.wf(),
        1 <= attempt <= cfg.max_attempts,
        delay_ms <= 1_000_000_000,
    ensures
        outcome is Success ==> r == RetryStep::Done(FetchResult::Success),
        outcome is ClientError ==> r == RetryStep::Done(FetchResult::ClientError),
        outcome is Transient && attempt == cfg.max_attempts ==> r == RetryStep::Done(
            FetchResult::Exhausted,
        ),
        outcome is Transient && attempt < cfg.max_attempts ==> r == (RetryStep::SleepAndRetry {
            sleep_ms: delay_ms,
            next_delay_ms: cfg.spec_next_delay(delay_ms),
        }),
{
    match outcome {
        AttemptOutcome::Success => RetryStep::Done(FetchResult::Success),
        AttemptOutcome::ClientError => RetryStep::Done(FetchResult::ClientError),
        AttemptOutcome::Transient => {
            if attempt == cfg.max_attempts {
                RetryStep::Done(FetchResult::Exhausted)
            } else {
                RetryStep::SleepAndRetry { sleep_ms: delay_ms, next_delay_ms: cfg.next_delay(delay_ms) }
            }
        },
    }
}

/// Once a prefix holds no decisive outcome and position `i` is decisive,
/// `i` is the first decisive position of every longer prefix.
proof fn lemma_first_found(outcomes: Seq<AttemptOutcome>, i: int, n: int)
    requires
        spec_first_non_transient(outcomes, i) is None,
        !(outcomes[i] is Transient),
        0 <= i < n,
    ensures
        spec_first_non_transient(outcomes, n) == Some(i),
    decreases n,
{
    if n > i + 1 {
        lemma_first_found(outcomes, i, n - 1);
    }
}

/// Every delay in the schedule respects the machine bound.
proof fn lemma_delay_bounded(cfg: RetryConfig, i: int)
    requires
        cfg.wf(),
    ensures
        spec_delay_at(cfg, i) <= 1_000_000_000,
    decreases i,
{
    if i > 1 {
        lemma_delay_bounded(cfg, i - 1);
    }
}

/// The backoff sum grows by at most the machine bound per failure.
proof fn lemma_total_sleep_bounded(cfg: RetryConfig, failures: int)
    requires
        cfg.wf(),
        failures >= 0,
    ensures
        0 <= spec_total_sleep(cfg, failures) <= failures * 1_000_000_000,
    decreases failures,
{
    if failures > 0 {
        lemma_total_sleep_bounded(cfg, failures - 1);
        lemma_delay_bounded(cfg, failures);
    }
}

/// Replays a fetch over the outcomes its attempts would meet, in order,
/// and reports the result, the number of attempts made, and the total
/// backoff slept. The report is exactly the one the retry discipline
/// prescribes for these outcomes.
#[verifier::loop_isolation(false)]
pub fn run_attempts(cfg: &RetryConfig, outcomes: &Vec<AttemptOutcome>) -> (r: FetchReport)
    requires
        cfg.wf(),
        outcomes@.len() >= cfg.max_attempts,
    ensures
        r == spec_fetch_report(*cfg, outcomes@),
{
    let mut delay: u64 = cfg.initial_delay_ms;
    let mut total: u64 = 0;
    let n = cfg.max_attempts;
    for i in 0..n
        invariant
            spec_first_non_transient(outcomes@, i as int) is None,
            total as int == spec_total_sleep(*cfg, if i < n { i as int } else { i as int - 1 }),
            total as int <= (i as int) * 1_000_000_000,
            delay == spec_delay_at(*cfg, if i < n { i as int + 1 } else { i as int }),
            delay <= 1_000_000_000,
    {
        let outcome = outcomes[i as usize];
        match outcome {
            AttemptOutcome::Success => {
                proof {
                    lemma_first_found(outcomes@, i as int, n as int);
                }
                return FetchReport { result: FetchResult::Success, attempts: i + 1, total_sleep_ms: total };
            },
            AttemptOutcome::ClientError => {
                proof {
                    lemma_first_found(outcomes@, i as int, n as int);
                }
                return FetchReport {
                    result: FetchResult::ClientError,
                    attempts: i + 1,
                    total_sleep_ms: total,
                };
            },
            AttemptOutcome::Transient => {
                if i + 1 < n {
                    total = total + delay;
                    delay = cfg.next_delay(delay);
                }
            },
        }
    }
    FetchReport { result: FetchResult::Exhausted, attempts: n, total_sleep_ms: total }
}

/// A run whose first `max_attempts - 1` outcomes are transient and whose
/// last outcome is a success ends successfully, uses the whole attempt
/// budget, and sleeps exactly the configured backoff schedule.
pub proof fn lemma_transient_run_then_success(cfg: RetryConfig, outcomes: Seq<AttemptOutcome>)
    requires
        cfg.wf(),
        outcomes.len() >= cfg.max_attempts,
        forall|j: int| 0 <= j < cfg.max_attempts - 1 ==> outcomes[j] is Transient,
        outcomes[cfg.max_attempts - 1] is Success,
    ensures
        spec_fetch_report(cfg, outcomes) == (FetchReport {
            result: FetchResult::Success,
            attempts: cfg.max_attempts,
            total_sleep_ms: spec_total_sleep(cfg, cfg.max_attempts - 1) as u64,
        }),
{
    let last = cfg.max_attempts - 1;
    lemma_all_transient_none(outcomes, last);
    lemma_first_found(outcomes, last, cfg.max_attempts as int);
}

/// A client error on the very first attempt is surfaced immediately:
/// exactly one attempt is made and nothing is slept, whatever the budget.
pub proof fn lemma_client_error_is_immediate(cfg: RetryConfig, outcomes: Seq<AttemptOutcome>)
    requires
        cfg.wf(),
        outcomes.len() >= cfg.max_attempts,
        outcomes[0] is ClientError,
    ensures
        spec_fetch_report(cfg, outcomes) == (FetchReport {
            result: FetchResult::ClientError,
            attempts: 1,
            total_sleep_ms: 0,
        }),
{
    lemma_first_found(outcomes, 0, cfg.max_attempts as int);
}

/// A prefix of transient outcomes holds no decisive position.
proof fn lemma_all_transient_none(outcomes: Seq<AttemptOutcome>, n: int)
    requires
        forall|j: int| 0 <= j < n ==> outcomes[j] is Transient,
    ensures
        spec_first_non_transient(outcomes, n) is None,
    decreases n,
{
    if n > 0 {
        lemma_all_transient_none(outcomes, n - 1);
    }
}

/// From the second failure on, every delay in the schedule is capped at
/// the configured maximum.
pub proof fn lemma_delay_capped(cfg: RetryConfig, i: int)
    requires
        i >= 2,
    ensures
        spec_delay_at(cfg, i) <= cfg.max_delay_ms,
{
}

} // verus!
