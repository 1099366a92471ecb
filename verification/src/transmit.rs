//! The decisions of one batch transmission over HTTP with retries: when to
//! send, how long each request may take, how long to wait before the next
//! attempt, and what the outcome is. The caller performs the requests and
//! the waits and reports back; the state machine never exceeds the retry
//! count or the total time budget.

use vstd::prelude::*;
use crate::error::{error_message, Error};
use crate::retry::{min_nat, RetryConfig, Response};
use crate::text::{dec_digits, push_decimal};
use crate::time::{duration_debug, Duration};

verus! {

/// Whether a character has the Unicode `White_Space` property.
pub open spec fn is_white_space(c: char) -> bool {
    let n = c as u32;
    ||| 9 <= n <= 13
    ||| n == 32
    ||| n == 0x85
    ||| n == 0xa0
    ||| n == 0x1680
    ||| 0x2000 <= n <= 0x200a
    ||| n == 0x2028
    ||| n == 0x2029
    ||| n == 0x202f
    ||| n == 0x205f
    ||| n == 0x3000
}

/// `s` without its leading whitespace.
pub open spec fn trim_start(s: Seq<char>) -> Seq<char>
    decreases s.len(),
{
    if s.len() > 0 && is_white_space(s[0]) {
        trim_start(s.drop_first())
    } else {
        s
    }
}

/// `s` without its trailing whitespace.
pub open spec fn trim_end(s: Seq<char>) -> Seq<char>
    decreases s.len(),
{
    if s.len() > 0 && is_white_space(s.last()) {
        trim_end(s.drop_last())
    } else {
        s
    }
}

/// `s` without leading and trailing whitespace.
pub open spec fn trimmed(s: Seq<char>) -> Seq<char> {
    trim_end(trim_start(s))
}

/// The text without leading and trailing whitespace.
///
/// Wraps `str::trim`, documented to remove leading and trailing characters
/// with the Unicode `White_Space` property.
#[verifier::external_body]
fn trim_text(s: &str) -> (r: &str)
    ensures
        r@ == trimmed(s@),
{
    s.trim()
}

/// What a failure message says of a response body: the body without
/// surrounding whitespace, or `<empty response body>` when nothing is left.
pub open spec fn body_text(body: Option<String>) -> Seq<char> {
    match body {
        Some(b) => if trimmed(b@).len() > 0 {
            trimmed(b@)
        } else {
            "<empty response body>"@
        },
        None => "<empty response body>"@,
    }
}

/// The message of a transmission that failed after `max_retries` retries,
/// from the last response: its network error, its status and body, or an
/// unknown error.
pub open spec fn failure_message(max_retries: u32, last: Response) -> Seq<char> {
    let head = "Failed to send batch after "@ + dec_digits((max_retries + 1) as nat) + " attempts: "@;
    match last.error {
        Some(e) => head + "network error: "@ + e@,
        None => match last.status_code {
            Some(status) => head + "HTTP "@ + dec_digits(status as nat) + ": "@ + body_text(
                last.body,
            ),
            None => head + "unknown error"@,
        },
    }
}

/// The message of a transmission that ran out of its total time budget
/// `total_nanos` after `attempts` attempts.
pub open spec fn timeout_message(total_nanos: nat, attempts: nat) -> Seq<char> {
    "Total timeout ("@ + duration_debug(total_nanos) + ") exceeded after "@ + dec_digits(attempts)
        + " attempts"@
}

/// The failure message for a transmission that gave up after `max_retries`
/// retries with `last` as the last response.
pub fn format_failure_message(max_retries: u32, last: &Response) -> (m: String)
    ensures
        m@ == failure_message(max_retries, *last),
{
    let mut m = String::from_str("Failed to send batch after ");
    push_decimal(&mut m, max_retries as u128 + 1);
    m.append(" attempts: ");
    match &last.error {
        Some(e) => {
            m.append("network error: ");
            m.append(e.as_str());
        },
        None => match last.status_code {
            Some(status) => {
                m.append("HTTP ");
                push_decimal(&mut m, status as u128);
                m.append(": ");
                let ghost before = m@;
                let mut empty = true;
                match &last.body {
                    Some(b) => {
                        let t = trim_text(b.as_str());
                        if !t.is_empty() {
                            m.append(t);
                            empty = false;
                        }
                    },
                    None => {},
                }
                if empty {
                    m.append("<empty response body>");
                }
                assert(m@ == before + body_text(last.body));
            },
            None => {
                m.append("unknown error");
            },
        },
    }
    assert(m@ =~= failure_message(max_retries, *last));
    m
}

/// The message for running out of the total time budget `total` after
/// `attempts` attempts.
pub fn format_timeout_message(total: Duration, attempts: u32) -> (m: String)
    ensures
        m@ == timeout_message(total@, attempts as nat),
{
    let mut m = String::from_str("Total timeout (");
    let d = total.debug_text();
    m.append(d.as_str());
    m.append(") exceeded after ");
    push_decimal(&mut m, attempts as u128);
    m.append(" attempts");
    assert(m@ =~= timeout_message(total@, attempts as nat));
    m
}

/// `a - b`, or zero when `b` is larger.
pub open spec fn saturating_diff(a: nat, b: nat) -> nat {
    if a >= b {
        (a - b) as nat
    } else {
        0
    }
}

/// Where a transmission stands.
#[derive(Debug, Clone, Copy, PartialEq, Eq, Structural)]
pub enum TransmitPhase {
    /// The next attempt may start.
    Ready,
    /// A request was sent; its outcome is awaited.
    Sending,
    /// The transmission is over.
    Finished,
}

/// What the caller does next.
#[derive(Debug)]
pub enum TransmitStep {
    /// Send the request, allowing it at most `timeout`.
    Send { timeout: Duration },
    /// Wait `delay`, then start the next attempt.
    Wait { delay: Duration },
    /// The batch was delivered; the response that accepted it.
    Delivered(Response),
    /// The batch could not be delivered.
    Failed(Error),
}

/// The state of one batch transmission with retries.
///
/// Attempts are counted from zero. Before each attempt the remaining time
/// budget is checked; a success ends the transmission; a failure that is
/// not retryable, or one after the last retry, ends it with the last
/// response's message; otherwise the caller waits the backoff delay (cut to
/// the remaining budget) and tries again.
pub struct Transmission {
    retry: RetryConfig,
    progress: Progress,
    last_response: Response,
}

/// How far a transmission has come: the attempt, the phase, and how many
/// requests were sent.
struct Progress {
    attempt: u32,
    phase: TransmitPhase,
    sent: Ghost<nat>,
}

impl Transmission {
    #[verifier::type_invariant]
    spec fn consistent(self) -> bool {
        let p = self.progress;
        &&& p.attempt <= self.retry.max_retries
        &&& p.phase == TransmitPhase::Ready ==> p.sent@ == p.attempt
        &&& p.phase == TransmitPhase::Sending ==> p.sent@ == p.attempt + 1
        &&& p.sent@ <= p.attempt + 1
    }

    /// The retry policy the transmission follows.
    pub closed spec fn spec_retry(&self) -> RetryConfig {
        self.retry
    }

    /// The number of the current attempt, counted from zero.
    pub closed spec fn spec_attempt(&self) -> nat {
        self.progress.attempt as nat
    }

    /// Where the transmission stands.
    pub closed spec fn spec_phase(&self) -> TransmitPhase {
        self.progress.phase
    }

    /// The last response received (a placeholder error before the first).
    pub closed spec fn spec_last(&self) -> Response {
        self.last_response
    }

    /// How many requests the transmission has asked to send.
    pub closed spec fn requests_sent(&self) -> nat {
        self.progress.sent@
    }

    /// Start a transmission under the retry policy `retry`.
    pub fn new(retry: RetryConfig) -> (t: Self)
        ensures
            t.spec_retry() == retry,
            t.spec_attempt() == 0,
            t.spec_phase() == TransmitPhase::Ready,
            t.spec_last().error matches Some(e) && e@ == "No attempts made"@,
            t.spec_last().status_code is None,
            t.requests_sent() == 0,
    {
        Transmission {
            retry,
            progress: Progress { attempt: 0, phase: TransmitPhase::Ready, sent: Ghost(0) },
            last_response: Response::error("No attempts made", Duration::zero()),
        }
    }

    /// Where the transmission stands.
    pub fn phase(&self) -> (p: TransmitPhase)
        ensures
            p == self.spec_phase(),
    {
        self.progress.phase
    }

    /// The last response received.
    pub fn last_response(&self) -> (r: &Response)
        ensures
            *r == self.spec_last(),
    {
        &self.last_response
    }

    /// Start the next attempt, `elapsed` after the transmission began.
    ///
    /// Whatever happens, a transmission never asks for more than
    /// `max_retries + 1` requests.
    ///
    /// When the total time budget is used up the transmission fails with a
    /// timeout error; otherwise the caller sends the request and allows it
    /// the rest of the budget.
    pub fn begin_attempt(&mut self, elapsed: Duration) -> (step: TransmitStep)
        requires
            old(self).spec_phase() == TransmitPhase::Ready,
        ensures
            final(self).requests_sent() <= final(self).spec_retry().max_retries + 1,
            final(self).spec_attempt() <= final(self).spec_retry().max_retries,
            final(self).spec_retry() == old(self).spec_retry(),
            final(self).spec_attempt() == old(self).spec_attempt(),
            final(self).spec_last() == old(self).spec_last(),
            ({
                let remaining = saturating_diff(old(self).spec_retry().total_timeout@, elapsed@);
                if remaining == 0 {
                    &&& step matches TransmitStep::Failed(e) && e is Timeout && error_message(e)
                        == timeout_message(
                        old(self).spec_retry().total_timeout@,
                        old(self).spec_attempt(),
                    )
                    &&& final(self).spec_phase() == TransmitPhase::Finished
                    &&& final(self).requests_sent() == old(self).requests_sent()
                } else {
                    &&& step matches TransmitStep::Send { timeout } && timeout@ == remaining
                    &&& final(self).spec_phase() == TransmitPhase::Sending
                    &&& final(self).requests_sent() == old(self).requests_sent() + 1
                }
            }),
    {
        proof {
            use_type_invariant(&*self);
        }
        let remaining = self.retry.total_timeout.saturating_sub(elapsed);
        let attempt = self.progress.attempt;
        if remaining.is_zero() {
            self.progress = Progress {
                attempt,
                phase: TransmitPhase::Finished,
                sent: Ghost(self.progress.sent@),
            };
            let m = format_timeout_message(self.retry.total_timeout, attempt);
            TransmitStep::Failed(Error::Timeout(m))
        } else {
            self.progress = Progress {
                attempt,
                phase: TransmitPhase::Sending,
                sent: Ghost(self.progress.sent@ + 1),
            };
            TransmitStep::Send { timeout: remaining }
        }
    }

    /// Report the outcome of the request, `elapsed` after the transmission
    /// began.
    ///
    /// A success delivers the batch. A failure that is not retryable, or
    /// one after the last retry, fails with the response's message. Otherwise
    /// the caller waits the backoff delay for this attempt, cut to the rest
    /// of the budget, and starts the next attempt; when no budget is left the
    /// transmission fails instead.
    pub fn finish_attempt(&mut self, response: Response, elapsed: Duration) -> (step: TransmitStep)
        requires
            old(self).spec_phase() == TransmitPhase::Sending,
        ensures
            final(self).requests_sent() <= final(self).spec_retry().max_retries + 1,
            final(self).spec_attempt() <= final(self).spec_retry().max_retries,
            final(self).spec_retry() == old(self).spec_retry(),
            final(self).spec_last() == response,
            final(self).requests_sent() == old(self).requests_sent(),
            ({
                let retry = old(self).spec_retry();
                let attempt = old(self).spec_attempt();
                let remaining = saturating_diff(retry.total_timeout@, elapsed@);
                if response.succeeded() {
                    &&& step matches TransmitStep::Delivered(r) && r == response
                    &&& final(self).spec_phase() == TransmitPhase::Finished
                    &&& final(self).spec_attempt() == attempt
                } else if !response.retryable() || attempt >= retry.max_retries || remaining == 0 {
                    &&& step matches TransmitStep::Failed(e) && e is Http && error_message(e)
                        == failure_message(retry.max_retries, response)
                    &&& final(self).spec_phase() == TransmitPhase::Finished
                    &&& final(self).spec_attempt() == attempt
                } else {
                    &&& step matches TransmitStep::Wait { delay } && delay@ == min_nat(
                        retry.delay_nanos(attempt),
                        remaining,
                    )
                    &&& final(self).spec_phase() == TransmitPhase::Ready
                    &&& final(self).spec_attempt() == attempt + 1
                }
            }),
    {
        proof {
            use_type_invariant(&*self);
        }
        let success = response.is_success();
        let retryable = response.is_retryable();
        let attempt = self.progress.attempt;
        let ghost sent = self.progress.sent@;
        self.last_response = response.clone();
        if success {
            self.progress = Progress { attempt, phase: TransmitPhase::Finished, sent: Ghost(sent) };
            return TransmitStep::Delivered(response);
        }
        if !retryable || !self.retry.should_retry(attempt) {
            self.progress = Progress { attempt, phase: TransmitPhase::Finished, sent: Ghost(sent) };
            let m = format_failure_message(self.retry.max_retries, &response);
            return TransmitStep::Failed(Error::Http(m));
        }
        let delay = self.retry.delay_for_attempt(attempt);
        let remaining = self.retry.total_timeout.saturating_sub(elapsed);
        if remaining.is_zero() {
            self.progress = Progress { attempt, phase: TransmitPhase::Finished, sent: Ghost(sent) };
            let m = format_failure_message(self.retry.max_retries, &response);
            return TransmitStep::Failed(Error::Http(m));
        }
        self.progress = Progress {
            attempt: attempt + 1,
            phase: TransmitPhase::Ready,
            sent: Ghost(sent),
        };
        TransmitStep::Wait { delay: delay.min(remaining) }
    }
}

} // verus!
