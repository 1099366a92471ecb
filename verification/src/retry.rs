//! Responses from the batch API and the retry policy: exponential backoff
//! capped by a maximum delay, a bounded number of retries and a total time
//! budget.

use vstd::prelude::*;
use crate::time::Duration;

verus! {

/// Default initial retry delay, in milliseconds.
pub const DEFAULT_INITIAL_RETRY_DELAY_MILLIS: u64 = 100;

/// Default maximum retry delay, in seconds.
pub const DEFAULT_MAX_RETRY_DELAY_SECS: u64 = 5;

/// Default maximum number of retries.
pub const DEFAULT_MAX_RETRIES: u32 = 5;

/// Default total timeout for all retry attempts, in seconds.
pub const DEFAULT_TOTAL_TIMEOUT_SECS: u64 = 30;

/// Default factor by which the delay grows from one retry to the next.
pub const DEFAULT_BACKOFF_MULTIPLIER: u32 = 2;

/// The largest millisecond count a delay is computed with (`u64::MAX`).
const MAX_DELAY_MILLIS: u128 = 0xffff_ffff_ffff_ffff;

/// Response from a batch transmission.
///
/// The fields track request status, timing, and any errors.
#[derive(Debug)]
pub struct Response {
    /// HTTP status code (if available).
    pub status_code: Option<u16>,
    /// Response body (if available).
    pub body: Option<String>,
    /// Duration of the request.
    pub duration: Duration,
    /// Error message (if failed).
    pub error: Option<String>,
}

impl Clone for Response {
    /// A copy with the same fields.
    fn clone(&self) -> (c: Self)
        ensures
            c == *self,
    {
        Response {
            status_code: self.status_code,
            body: match &self.body {
                Some(b) => Some(b.clone()),
                None => None,
            },
            duration: self.duration,
            error: match &self.error {
                Some(e) => Some(e.clone()),
                None => None,
            },
        }
    }
}

/// Whether an HTTP status code is in the success range 200..300.
pub open spec fn is_success_status(code: u16) -> bool {
    200 <= code < 300
}

/// Whether an HTTP status code is worth retrying: 429 Too Many Requests or
/// a server error (5xx and above).
pub open spec fn is_retryable_status(code: u16) -> bool {
    code == 429 || code >= 500
}

impl Response {
    /// Whether the response reports success: no error and a 2xx status.
    pub open spec fn succeeded(&self) -> bool {
        &&& self.error is None
        &&& self.status_code matches Some(code) && is_success_status(code)
    }

    /// Whether the response reports a failure worth retrying: a network
    /// error, no status, or a retryable status.
    pub open spec fn retryable(&self) -> bool {
        ||| self.error is Some
        ||| self.status_code is None
        ||| self.status_code matches Some(code) && is_retryable_status(code)
    }

    /// Create a successful response.
    pub fn success(status_code: u16, duration: Duration) -> (r: Self)
        ensures
            r.status_code == Some(status_code),
            r.body is None,
            r.duration == duration,
            r.error is None,
    {
        Response { status_code: Some(status_code), body: None, duration, error: None }
    }

    /// Create a failed response.
    pub fn error(error: &str, duration: Duration) -> (r: Self)
        ensures
            r.status_code is None,
            r.body is None,
            r.duration == duration,
            r.error matches Some(e) && e@ == error@,
    {
        Response {
            status_code: None,
            body: None,
            duration,
            error: Some(String::from_str(error)),
        }
    }

    /// Check if the response indicates success.
    pub fn is_success(&self) -> (b: bool)
        ensures
            b == self.succeeded(),
    {
        if self.error.is_some() {
            return false;
        }
        match self.status_code {
            Some(code) => 200 <= code && code < 300,
            None => false,
        }
    }

    /// Check if the response indicates a retryable error.
    pub fn is_retryable(&self) -> (b: bool)
        ensures
            b == self.retryable(),
    {
        if self.error.is_some() {
            return true;
        }
        match self.status_code {
            Some(code) => code == 429 || code >= 500,
            None => true,
        }
    }
}

/// Law: a response is never both a success and retryable.
pub proof fn lemma_success_not_retryable(r: Response)
    ensures
        r.succeeded() ==> !r.retryable(),
{
}

/// Law: a response with a network error is retryable and no success; one
/// without an error and with a status succeeds exactly for a status from 200
/// to 299, and is retryable exactly for 429 (Too Many Requests) and every
/// status from 500 up (server errors); one without either is retryable.
pub proof fn lemma_status_classes(r: Response)
    ensures
        r.error is Some ==> r.retryable() && !r.succeeded(),
        r.error is None && r.status_code is None ==> r.retryable() && !r.succeeded(),
        r.error is None && r.status_code is Some ==> {
            let c = r.status_code->0;
            &&& r.succeeded() <==> (200 <= c && c <= 299)
            &&& r.retryable() <==> (c == 429 || c >= 500)
        },
{
}

/// `initial_ms` multiplied by `multiplier` once per attempt before
/// `attempt`.
pub open spec fn backoff_millis(initial_ms: nat, multiplier: nat, attempt: nat) -> nat
    decreases attempt,
{
    if attempt == 0 {
        initial_ms
    } else {
        backoff_millis(initial_ms, multiplier, (attempt - 1) as nat) * multiplier
    }
}

/// The smaller of two naturals.
pub open spec fn min_nat(a: nat, b: nat) -> nat {
    if a <= b {
        a
    } else {
        b
    }
}

/// Configuration for retry behavior.
#[derive(Debug, Clone, Copy)]
pub struct RetryConfig {
    /// Initial delay before first retry.
    pub initial_delay: Duration,
    /// Maximum delay between retries.
    pub max_delay: Duration,
    /// Maximum number of retry attempts.
    pub max_retries: u32,
    /// Multiplier for exponential backoff.
    pub backoff_multiplier: u32,
    /// Maximum total time for all retry attempts (prevents unbounded blocking).
    pub total_timeout: Duration,
}

impl Default for RetryConfig {
    /// 100 ms initial delay doubling up to 5 s, 5 retries, 30 s in all.
    fn default() -> (c: Self)
        ensures
            c.is_default(),
    {
        RetryConfig {
            initial_delay: Duration::from_millis(DEFAULT_INITIAL_RETRY_DELAY_MILLIS),
            max_delay: Duration::from_secs(DEFAULT_MAX_RETRY_DELAY_SECS),
            max_retries: DEFAULT_MAX_RETRIES,
            backoff_multiplier: DEFAULT_BACKOFF_MULTIPLIER,
            total_timeout: Duration::from_secs(DEFAULT_TOTAL_TIMEOUT_SECS),
        }
    }
}

impl RetryConfig {
    /// Whether every setting has its default value.
    pub open spec fn is_default(&self) -> bool {
        &&& self.initial_delay@ == DEFAULT_INITIAL_RETRY_DELAY_MILLIS as nat * 1_000_000
        &&& self.max_delay@ == DEFAULT_MAX_RETRY_DELAY_SECS as nat * 1_000_000_000
        &&& self.max_retries == DEFAULT_MAX_RETRIES
        &&& self.backoff_multiplier == DEFAULT_BACKOFF_MULTIPLIER
        &&& self.total_timeout@ == DEFAULT_TOTAL_TIMEOUT_SECS as nat * 1_000_000_000
    }

    /// The delay, in nanoseconds, after the failed attempt `attempt`
    /// (counted from zero): the maximum delay once the retries are used up;
    /// before that the initial delay in whole milliseconds times the
    /// multiplier once per earlier attempt, the milliseconds capped at
    /// `u64::MAX`, and the whole capped at the maximum delay.
    pub open spec fn delay_nanos(&self, attempt: nat) -> nat {
        if attempt >= self.max_retries {
            self.max_delay@
        } else {
            min_nat(
                min_nat(
                    backoff_millis(
                        self.initial_delay@ / 1_000_000,
                        self.backoff_multiplier as nat,
                        attempt,
                    ),
                    u64::MAX as nat,
                ) * 1_000_000,
                self.max_delay@,
            )
        }
    }

    /// Create a new retry config with the defaults.
    pub fn new() -> (c: Self)
        ensures
            c.is_default(),
    {
        Self::default()
    }

    /// Set the initial delay.
    pub fn with_initial_delay(self, delay: Duration) -> (c: Self)
        ensures
            c == (RetryConfig { initial_delay: delay, ..self }),
    {
        RetryConfig { initial_delay: delay, ..self }
    }

    /// Set the maximum delay.
    pub fn with_max_delay(self, delay: Duration) -> (c: Self)
        ensures
            c == (RetryConfig { max_delay: delay, ..self }),
    {
        RetryConfig { max_delay: delay, ..self }
    }

    /// Set the maximum retries.
    pub fn with_max_retries(self, retries: u32) -> (c: Self)
        ensures
            c == (RetryConfig { max_retries: retries, ..self }),
    {
        RetryConfig { max_retries: retries, ..self }
    }

    /// Set the total timeout for all retry attempts.
    ///
    /// This prevents unbounded blocking when the endpoint is unavailable.
    pub fn with_total_timeout(self, timeout: Duration) -> (c: Self)
        ensures
            c == (RetryConfig { total_timeout: timeout, ..self }),
    {
        RetryConfig { total_timeout: timeout, ..self }
    }

    /// Calculate the delay for a given retry attempt (0-indexed).
    pub fn delay_for_attempt(&self, attempt: u32) -> (d: Duration)
        ensures
            d@ == self.delay_nanos(attempt as nat),
            d@ <= self.max_delay@,
    {
        if attempt >= self.max_retries {
            return self.max_delay;
        }
        let ghost init = self.initial_delay@ / 1_000_000;
        let ghost mult = self.backoff_multiplier as nat;
        let ghost cap = u64::MAX as nat;
        let mult_exec = self.backoff_multiplier as u128;
        let mut ms: u128 = self.initial_delay.as_millis();
        if ms > MAX_DELAY_MILLIS {
            ms = MAX_DELAY_MILLIS;
        }
        let mut i: u32 = 0;
        while i < attempt && ms != 0 && mult_exec != 1 && !(ms == MAX_DELAY_MILLIS && mult_exec
            >= 1)
            invariant
                i <= attempt,
                mult_exec == mult,
                mult_exec <= 0xffff_ffff,
                cap == MAX_DELAY_MILLIS,
                ms <= MAX_DELAY_MILLIS,
                ms == min_nat(backoff_millis(init, mult, i as nat), cap),
            decreases attempt - i,
        {
            proof {
                lemma_capped_step(backoff_millis(init, mult, i as nat), mult, cap);
            }
            assert(ms * mult_exec <= MAX_DELAY_MILLIS * 0xffff_ffff) by (nonlinear_arith)
                requires
                    ms <= MAX_DELAY_MILLIS,
                    mult_exec <= 0xffff_ffff,
            ;
            ms = ms * mult_exec;
            if ms > MAX_DELAY_MILLIS {
                ms = MAX_DELAY_MILLIS;
            }
            i = i + 1;
        }
        proof {
            lemma_backoff_stable(init, mult, i as nat, attempt as nat, cap);
        }
        let delay = Duration::from_millis(ms as u64);
        delay.min(self.max_delay)
    }

    /// Check if we should retry after the given attempt.
    pub fn should_retry(&self, attempt: u32) -> (b: bool)
        ensures
            b == (attempt < self.max_retries),
    {
        attempt < self.max_retries
    }
}

/// One step of the capped backoff: capping before or after multiplying
/// gives the same result.
proof fn lemma_capped_step(b: nat, m: nat, cap: nat)
    ensures
        min_nat(min_nat(b, cap) * m, cap) == min_nat(b * m, cap),
{
    if b > cap {
        if m >= 1 {
            assert(cap * m >= cap) by (nonlinear_arith)
                requires
                    m >= 1,
            ;
            assert(b * m >= cap) by (nonlinear_arith)
                requires
                    m >= 1,
                    b > cap,
            ;
        } else {
            assert(m == 0);
            assert(cap * m == 0) by (nonlinear_arith)
                requires
                    m == 0,
            ;
            assert(b * m == 0) by (nonlinear_arith)
                requires
                    m == 0,
            ;
        }
    }
}

/// With a multiplier of at least one the backoff never shrinks.
proof fn lemma_backoff_grows(init: nat, m: nat, i: nat, j: nat)
    requires
        m >= 1,
        i <= j,
    ensures
        backoff_millis(init, m, i) <= backoff_millis(init, m, j),
    decreases j - i,
{
    if i < j {
        lemma_backoff_grows(init, m, i, (j - 1) as nat);
        let p = backoff_millis(init, m, (j - 1) as nat);
        assert(p <= p * m) by (nonlinear_arith)
            requires
                m >= 1,
        ;
    }
}

/// Once the capped backoff is zero, at the cap with a multiplier of at
/// least one, or the multiplier is one, it no longer changes.
proof fn lemma_backoff_stable(init: nat, m: nat, i: nat, j: nat, cap: nat)
    requires
        i <= j,
        min_nat(backoff_millis(init, m, i), cap) == 0 || m == 1 || (min_nat(
            backoff_millis(init, m, i),
            cap,
        ) == cap && m >= 1) || i == j,
    ensures
        min_nat(backoff_millis(init, m, j), cap) == min_nat(backoff_millis(init, m, i), cap),
    decreases j - i,
{
    if i < j {
        lemma_backoff_stable(init, m, i, (j - 1) as nat, cap);
        let p = backoff_millis(init, m, (j - 1) as nat);
        let q = backoff_millis(init, m, i);
        if m == 1 {
            assert(p * m == p) by (nonlinear_arith)
                requires
                    m == 1,
            ;
        } else if min_nat(q, cap) == 0 {
            if cap == 0 {
                assert(min_nat(p * m, cap) == 0);
            } else {
                assert(p == 0);
                assert(p * m == 0) by (nonlinear_arith)
                    requires
                        p == 0,
                ;
            }
        } else {
            assert(p >= cap);
            assert(p * m >= cap) by (nonlinear_arith)
                requires
                    m >= 1,
                    p >= cap,
            ;
        }
    }
}

/// Law: retry delays never shrink as attempts go on (given a multiplier of
/// at least one), and never exceed the maximum delay.
pub proof fn lemma_delay_monotone(c: RetryConfig, a: nat, b: nat)
    requires
        a <= b,
        c.backoff_multiplier >= 1,
    ensures
        c.delay_nanos(a) <= c.delay_nanos(b),
        c.delay_nanos(b) <= c.max_delay@,
{
    if b < c.max_retries {
        let init = c.initial_delay@ / 1_000_000;
        lemma_backoff_grows(init, c.backoff_multiplier as nat, a, b);
        let x = min_nat(backoff_millis(init, c.backoff_multiplier as nat, a), u64::MAX as nat);
        let y = min_nat(backoff_millis(init, c.backoff_multiplier as nat, b), u64::MAX as nat);
        assert(x * 1_000_000 <= y * 1_000_000) by (nonlinear_arith)
            requires
                x <= y,
        ;
    }
}

} // verus!
