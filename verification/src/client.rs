//! The Honeycomb client: sampling, batching, the batch body for the batch
//! API with its size limit, and delivery with the statistics of what became
//! of each batch.
//!
//! Delivery here is local: a batch that fits the byte limit counts as sent.
//! A caller that delivers over HTTP uses the same steps (`accept`, `drain`,
//! `prepare_body`, `record_delivered`, `record_failed`) around a
//! `Transmission`.

use vstd::prelude::*;
use vstd::utf8::encode_utf8;
use crate::batch::{timeout_reached_spec, BatchBuffer, BatchStats};
use crate::config::{Config, TransmissionOptions};
use crate::error::{error_message, is_config_error, Error};
use crate::event::{event_sampled_out, event_text, join_members, system_time_text, Event};
use crate::calendar::timestamp_text;
use std::time::SystemTime;
use crate::retry::{RetryConfig, Response};
use crate::transmit::TransmitStep;
use crate::text::{dec_digits, push_decimal};
use crate::time::Duration;

verus! {

/// User-Agent header value.
pub const USER_AGENT: &'static str = "aletheiadb-honeycomb/0.1.0";

/// How long one HTTP request may take at most, in seconds.
pub const HTTP_REQUEST_TIMEOUT_SECS: u64 = 30;

/// The User-Agent header for the options: `USER_AGENT`, followed by a
/// space and the addition when there is one.
pub open spec fn user_agent_text(addition: Option<String>) -> Seq<char> {
    match addition {
        Some(a) => USER_AGENT@ + seq![' '] + a@,
        None => USER_AGENT@,
    }
}

/// The User-Agent header to send with the given transmission options.
pub fn user_agent(options: &TransmissionOptions) -> (ua: String)
    ensures
        ua@ == user_agent_text(options.user_agent_addition),
{
    let mut ua = String::from_str(USER_AGENT);
    match &options.user_agent_addition {
        Some(a) => {
            ua.append(" ");
            ua.append(a.as_str());
        },
        None => {},
    }
    proof {
        reveal_strlit(" ");
    }
    assert(ua@ =~= user_agent_text(options.user_agent_addition));
    ua
}

/// The JSON array of the events' texts: the body of a batch request.
pub open spec fn batch_json_text(batch: Seq<Event>) -> Seq<char> {
    seq!['['] + join_members(batch.map_values(|e: Event| event_text(e))) + seq![']']
}

/// The size of a batch body in bytes (UTF-8).
pub open spec fn batch_bytes(batch: Seq<Event>) -> nat {
    encode_utf8(batch_json_text(batch)).len()
}

/// The message for a batch body of `bytes` bytes over the limit `max`.
pub open spec fn size_message(bytes: nat, max: nat) -> Seq<char> {
    "Batch size ("@ + dec_digits(bytes) + " bytes) exceeds maximum ("@ + dec_digits(max)
        + " bytes)"@
}

/// The body of a batch request: the events' JSON texts as a JSON array.
pub fn batch_json(batch: &[Event]) -> (body: String)
    ensures
        body@ == batch_json_text(batch@),
{
    let ghost texts = batch@.map_values(|e: Event| event_text(e));
    let mut body = String::from_str("[");
    proof {
        reveal_strlit("[");
        reveal_strlit(",");
        reveal_strlit("]");
    }
    let ghost head = body@;
    let n = batch.len();
    let mut i: usize = 0;
    while i < n
        invariant
            n == batch@.len(),
            texts == batch@.map_values(|e: Event| event_text(e)),
            head == seq!['['],
            i <= n,
            body@ == head + join_members(texts.take(i as int)),
        decreases n - i,
    {
        if i > 0 {
            body.append(",");
        }
        let t = batch[i].json_text();
        assert(texts[i as int] == t@);
        body.append(t.as_str());
        proof {
            reveal_strlit(",");
            assert(texts.take(i + 1).drop_last() =~= texts.take(i as int));
            assert(texts.take(i + 1).last() == texts[i as int]);
            assert(body@ =~= head + join_members(texts.take(i + 1)));
        }
        i = i + 1;
    }
    body.append("]");
    assert(texts.take(n as int) =~= texts);
    assert(body@ =~= batch_json_text(batch@));
    body
}

/// The statistics after a batch of `n` events was delivered.
pub open spec fn delivered_stats(s: BatchStats, n: nat) -> BatchStats {
    BatchStats {
        events_sent: s.events_sent.wrapping_add(n as u64),
        batches_sent: s.batches_sent.wrapping_add(1),
        ..s
    }
}

/// The statistics after a batch failed.
pub open spec fn failed_stats(s: BatchStats) -> BatchStats {
    BatchStats { batches_failed: s.batches_failed.wrapping_add(1), ..s }
}

/// The statistics after `k` failed attempts.
pub open spec fn failed_times(s: BatchStats, k: nat) -> BatchStats
    decreases k,
{
    if k == 0 {
        s
    } else {
        failed_stats(failed_times(s, (k - 1) as nat))
    }
}

/// The error of delivering `batch` locally under the byte limit
/// `max_bytes`: only a non-empty batch whose body is over the limit fails.
pub open spec fn delivery_error(batch: Seq<Event>, max_bytes: usize) -> Option<Seq<char>> {
    if batch.len() > 0 && batch_bytes(batch) > max_bytes {
        Some(size_message(batch_bytes(batch), max_bytes as nat))
    } else {
        None
    }
}

/// The statistics after delivering `batch` locally: nothing for an empty
/// batch, a sent batch when it fits the limit, a failed one otherwise.
pub open spec fn delivery_stats(s: BatchStats, batch: Seq<Event>, max_bytes: usize) -> BatchStats {
    if batch.len() == 0 {
        s
    } else if delivery_error(batch, max_bytes) is None {
        delivered_stats(s, batch.len())
    } else {
        failed_stats(s)
    }
}

/// Whether `r` reports the outcome `err` of a delivery: `Ok` when there is
/// no error, a buffer error with the message otherwise.
pub open spec fn reports<T>(r: Result<T, Error>, err: Option<Seq<char>>) -> bool {
    match err {
        None => r is Ok,
        Some(m) => r matches Err(e) && e is Buffer && error_message(e) == m,
    }
}

/// What a helper retry does after one try of delivering its batch.
#[derive(Debug)]
pub enum HelperStep {
    /// Wait this long, then try again.
    Wait(Duration),
    /// Stop with this result.
    Finish(Result<(), Error>),
}

/// The next step of a helper retry after try `attempt` (counted from zero)
/// of `max_attempts` ended with `outcome`: a delivered batch finishes with
/// `Ok`; a failed try finishes with its error when it was the last one, and
/// otherwise waits the retry delay for this attempt before the next try.
pub fn helper_retry_step(
    retry: &RetryConfig,
    attempt: u32,
    max_attempts: u32,
    outcome: Result<Response, Error>,
) -> (s: HelperStep)
    ensures
        outcome is Ok ==> s matches HelperStep::Finish(Ok(())),
        outcome is Err && attempt + 1 >= max_attempts ==> s == HelperStep::Finish(
            Err(outcome->Err_0),
        ),
        outcome is Err && attempt + 1 < max_attempts ==> (s matches HelperStep::Wait(d)
            && d@ == retry.delay_nanos(attempt as nat)),
{
    match outcome {
        Ok(_) => HelperStep::Finish(Ok(())),
        Err(e) => {
            if attempt as u64 + 1 >= max_attempts as u64 {
                HelperStep::Finish(Err(e))
            } else {
                HelperStep::Wait(retry.delay_for_attempt(attempt))
            }
        },
    }
}

/// The message for a helper retry asked to make no attempt.
pub open spec fn zero_attempts_message() -> Seq<char> {
    "flush_with_retry: max_attempts must be greater than 0"@
}

/// Honeycomb client for sending events.
///
/// The client samples events, collects them into batches, checks each
/// batch body against the byte limit and keeps statistics of what became of
/// the batches.
#[derive(Debug)]
pub struct Client {
    config: Config,
    buffer: BatchBuffer,
    retry_config: RetryConfig,
}

impl Client {
    /// What every client keeps: its buffer is well formed and was made with
    /// the configuration's transmission options.
    pub closed spec fn wf(&self) -> bool {
        &&& self.buffer.wf()
        &&& self.buffer.spec_options() == self.config.transmission_options
    }

    /// The client's configuration.
    pub closed spec fn spec_config(&self) -> Config {
        self.config
    }

    /// The client's retry configuration.
    pub closed spec fn spec_retry(&self) -> RetryConfig {
        self.retry_config
    }

    /// The events waiting to be sent, oldest first.
    pub closed spec fn pending(&self) -> Seq<Event> {
        self.buffer.pending()
    }

    /// The client's statistics.
    pub closed spec fn spec_stats(&self) -> BatchStats {
        self.buffer.spec_stats()
    }

    /// Whether a batch has started (exactly while events wait).
    pub closed spec fn batch_started(&self) -> bool {
        self.buffer.batch_started()
    }

    /// The byte limit of a batch body.
    pub open spec fn max_bytes(&self) -> usize {
        self.spec_config().transmission_options.max_batch_bytes
    }

    /// Whether the client is as new: nothing pending, zero statistics.
    pub open spec fn is_fresh(&self) -> bool {
        &&& self.pending().len() == 0
        &&& !self.batch_started()
        &&& self.spec_stats().is_zero()
    }

    /// Create a new client with the given configuration.
    ///
    /// Creating the client itself does not fail here; the `Result` is kept
    /// for a client that also builds an HTTP client.
    pub fn new(config: Config) -> (r: Result<Self, Error>)
        ensures
            r matches Ok(c) && c.wf() && c.spec_config() == config && c.spec_retry().is_default()
                && c.is_fresh(),
    {
        Self::with_retry_config(config, RetryConfig::default())
    }

    /// Create a new client with custom retry configuration.
    pub fn with_retry_config(config: Config, retry_config: RetryConfig) -> (r: Result<
        Self,
        Error,
    >)
        ensures
            r matches Ok(c) && c.wf() && c.spec_config() == config && c.spec_retry()
                == retry_config && c.is_fresh(),
    {
        let buffer = BatchBuffer::new(config.transmission_options.clone());
        Ok(Client { config, buffer, retry_config })
    }

    /// Sample the event and add it to the buffer.
    ///
    /// A sampled-out event is left out (`Ok(None)`, nothing changes). When
    /// the buffer is at capacity the event is dropped with an error.
    /// Otherwise the event is added; when that fills a batch the batch is
    /// returned and the buffer is empty again.
    pub fn accept(&mut self, event: Event) -> (r: Result<Option<Vec<Event>>, Error>)
        requires
            old(self).wf(),
        ensures
            final(self).wf(),
            final(self).spec_config() == old(self).spec_config(),
            final(self).spec_retry() == old(self).spec_retry(),
            event_sampled_out(event) ==> {
                &&& r matches Ok(None)
                &&& final(self).pending() == old(self).pending()
                &&& final(self).batch_started() == old(self).batch_started()
                &&& final(self).spec_stats() == old(self).spec_stats()
            },
            !event_sampled_out(event) && old(self).pending().len()
                >= old(self).spec_config().transmission_options.pending_work_capacity ==> {
                &&& r matches Err(e) && e is Buffer && error_message(e)
                    == "Buffer at capacity, event dropped"@
                &&& final(self).pending() == old(self).pending()
                &&& final(self).batch_started() == old(self).batch_started()
                &&& final(self).spec_stats() == (BatchStats {
                    events_dropped: old(self).spec_stats().events_dropped.wrapping_add(1),
                    ..old(self).spec_stats()
                })
            },
            !event_sampled_out(event) && old(self).pending().len()
                < old(self).spec_config().transmission_options.pending_work_capacity ==> {
                &&& final(self).spec_stats() == (BatchStats {
                    events_added: old(self).spec_stats().events_added.wrapping_add(1),
                    ..old(self).spec_stats()
                })
                &&& if old(self).pending().len() + 1
                    >= old(self).spec_config().transmission_options.max_batch_size {
                    &&& r matches Ok(Some(batch)) && batch@ == old(self).pending().push(event)
                    &&& final(self).pending().len() == 0
                    &&& !final(self).batch_started()
                } else {
                    &&& r matches Ok(None)
                    &&& final(self).pending() == old(self).pending().push(event)
                    &&& final(self).batch_started()
                }
            },
    {
        if event.should_drop() {
            return Ok(None);
        }
        self.buffer.add(event)
    }

    /// Take every waiting event out of the buffer, oldest first.
    pub fn drain(&mut self) -> (batch: Vec<Event>)
        requires
            old(self).wf(),
        ensures
            final(self).wf(),
            batch@ == old(self).pending(),
            final(self).pending().len() == 0,
            !final(self).batch_started(),
            final(self).spec_stats() == old(self).spec_stats(),
            final(self).spec_config() == old(self).spec_config(),
            final(self).spec_retry() == old(self).spec_retry(),
    {
        match self.buffer.flush() {
            Ok(batch) => batch,
            Err(_) => Vec::new(),
        }
    }

    /// The body of a batch request for `batch`, or a buffer error (recorded
    /// as a failed batch) when the body is over the byte limit.
    pub fn prepare_body(&mut self, batch: &[Event]) -> (r: Result<String, Error>)
        requires
            old(self).wf(),
        ensures
            final(self).wf(),
            final(self).pending() == old(self).pending(),
            final(self).batch_started() == old(self).batch_started(),
            final(self).spec_config() == old(self).spec_config(),
            final(self).spec_retry() == old(self).spec_retry(),
            batch_bytes(batch@) <= old(self).max_bytes() ==> {
                &&& r matches Ok(body) && body@ == batch_json_text(batch@)
                &&& final(self).spec_stats() == old(self).spec_stats()
            },
            batch_bytes(batch@) > old(self).max_bytes() ==> {
                &&& r matches Err(e) && e is Buffer && error_message(e) == size_message(
                    batch_bytes(batch@),
                    old(self).max_bytes() as nat,
                )
                &&& final(self).spec_stats() == failed_stats(old(self).spec_stats())
            },
    {
        let body = batch_json(batch);
        let bytes = body.as_str().as_bytes().len();
        let max_bytes = self.config.transmission_options.max_batch_bytes;
        if bytes > max_bytes {
            self.buffer.stats_mut().record_batch_failed();
            let mut m = String::from_str("Batch size (");
            push_decimal(&mut m, bytes as u128);
            m.append(" bytes) exceeds maximum (");
            push_decimal(&mut m, max_bytes as u128);
            m.append(" bytes)");
            assert(m@ =~= size_message(bytes as nat, max_bytes as nat));
            return Err(Error::Buffer(m));
        }
        Ok(body)
    }

    /// Record that a batch of `events` events was delivered.
    fn record_delivered(&mut self, events: usize)
        requires
            old(self).wf(),
        ensures
            final(self).wf(),
            final(self).spec_stats() == delivered_stats(old(self).spec_stats(), events as nat),
            final(self).pending() == old(self).pending(),
            final(self).batch_started() == old(self).batch_started(),
            final(self).spec_config() == old(self).spec_config(),
            final(self).spec_retry() == old(self).spec_retry(),
    {
        let stats = self.buffer.stats_mut();
        stats.record_events_sent(events as u64);
        stats.record_batch_sent();
    }

    /// Record that a batch failed.
    fn record_failed(&mut self)
        requires
            old(self).wf(),
        ensures
            final(self).wf(),
            final(self).spec_stats() == failed_stats(old(self).spec_stats()),
            final(self).pending() == old(self).pending(),
            final(self).batch_started() == old(self).batch_started(),
            final(self).spec_config() == old(self).spec_config(),
            final(self).spec_retry() == old(self).spec_retry(),
    {
        self.buffer.stats_mut().record_batch_failed();
    }

    /// Settle a transmission of a batch of `events` events on its step: a
    /// delivered batch is counted as sent and gives its response, a failed
    /// one is counted as failed and gives its error; a step that asks to send
    /// or to wait settles nothing.
    pub fn settle(&mut self, step: TransmitStep, events: usize) -> (r: Option<
        Result<Response, Error>,
    >)
        requires
            old(self).wf(),
        ensures
            final(self).wf(),
            final(self).pending() == old(self).pending(),
            final(self).batch_started() == old(self).batch_started(),
            final(self).spec_config() == old(self).spec_config(),
            final(self).spec_retry() == old(self).spec_retry(),
            step matches TransmitStep::Delivered(resp) ==> {
                &&& r == Some(Ok::<Response, Error>(resp))
                &&& final(self).spec_stats() == delivered_stats(
                    old(self).spec_stats(),
                    events as nat,
                )
            },
            step matches TransmitStep::Failed(e) ==> {
                &&& r == Some(Err::<Response, Error>(e))
                &&& final(self).spec_stats() == failed_stats(old(self).spec_stats())
            },
            (step is Send || step is Wait) ==> {
                &&& r is None
                &&& final(self).spec_stats() == old(self).spec_stats()
            },
    {
        match step {
            TransmitStep::Delivered(resp) => {
                self.record_delivered(events);
                Some(Ok(resp))
            },
            TransmitStep::Failed(e) => {
                self.record_failed();
                Some(Err(e))
            },
            _ => None,
        }
    }

    /// Begin a helper retry of `max_attempts` tries: with no try allowed
    /// this is a configuration error and nothing changes; otherwise every
    /// waiting event is taken out of the buffer, once.
    pub fn drain_for_retry(&mut self, max_attempts: u32) -> (r: Result<Vec<Event>, Error>)
        requires
            old(self).wf(),
        ensures
            final(self).wf(),
            final(self).spec_config() == old(self).spec_config(),
            final(self).spec_retry() == old(self).spec_retry(),
            final(self).spec_stats() == old(self).spec_stats(),
            max_attempts == 0 ==> {
                &&& is_config_error(r, zero_attempts_message())
                &&& final(self).pending() == old(self).pending()
                &&& final(self).batch_started() == old(self).batch_started()
            },
            max_attempts > 0 ==> {
                &&& r matches Ok(batch) && batch@ == old(self).pending()
                &&& final(self).pending().len() == 0
                &&& !final(self).batch_started()
            },
    {
        if max_attempts == 0 {
            return Err(
                Error::Config(
                    String::from_str("flush_with_retry: max_attempts must be greater than 0"),
                ),
            );
        }
        Ok(self.drain())
    }

    /// Deliver a batch: an empty batch is a no-op success; a batch whose
    /// body fits the byte limit is delivered and counted as sent; a larger
    /// one fails and is counted as failed.
    fn send_batch(&mut self, batch: &[Event]) -> (r: Result<Response, Error>)
        requires
            old(self).wf(),
        ensures
            final(self).wf(),
            reports(r, delivery_error(batch@, old(self).max_bytes())),
            r matches Ok(resp) ==> {
                &&& resp.status_code == Some(200u16)
                &&& resp.error is None
                &&& resp.body is None
                &&& resp.duration@ == 0
            },
            final(self).spec_stats() == delivery_stats(
                old(self).spec_stats(),
                batch@,
                old(self).max_bytes(),
            ),
            final(self).pending() == old(self).pending(),
            final(self).batch_started() == old(self).batch_started(),
            final(self).spec_config() == old(self).spec_config(),
            final(self).spec_retry() == old(self).spec_retry(),
    {
        if batch.len() == 0 {
            return Ok(Response::success(200, Duration::zero()));
        }
        match self.prepare_body(batch) {
            Err(e) => Err(e),
            Ok(_body) => {
                self.record_delivered(batch.len());
                Ok(Response::success(200, Duration::zero()))
            },
        }
    }

    /// Send an event.
    ///
    /// The event is sampled and added to the batch buffer. If the buffer
    /// becomes full, the batch is delivered at once.
    ///
    /// # Errors
    ///
    /// Returns an error if the buffer is at capacity or delivery fails.
    pub fn send(&mut self, event: Event) -> (r: Result<(), Error>)
        requires
            old(self).wf(),
        ensures
            final(self).wf(),
            final(self).spec_config() == old(self).spec_config(),
            final(self).spec_retry() == old(self).spec_retry(),
            event_sampled_out(event) ==> {
                &&& r is Ok
                &&& final(self).pending() == old(self).pending()
                &&& final(self).batch_started() == old(self).batch_started()
                &&& final(self).spec_stats() == old(self).spec_stats()
            },
            !event_sampled_out(event) && old(self).pending().len()
                >= old(self).spec_config().transmission_options.pending_work_capacity ==> {
                &&& r matches Err(e) && e is Buffer && error_message(e)
                    == "Buffer at capacity, event dropped"@
                &&& final(self).pending() == old(self).pending()
                &&& final(self).batch_started() == old(self).batch_started()
                &&& final(self).spec_stats() == (BatchStats {
                    events_dropped: old(self).spec_stats().events_dropped.wrapping_add(1),
                    ..old(self).spec_stats()
                })
            },
            !event_sampled_out(event) && old(self).pending().len()
                < old(self).spec_config().transmission_options.pending_work_capacity ==> {
                let added = BatchStats {
                    events_added: old(self).spec_stats().events_added.wrapping_add(1),
                    ..old(self).spec_stats()
                };
                let batch = old(self).pending().push(event);
                if old(self).pending().len() + 1
                    >= old(self).spec_config().transmission_options.max_batch_size {
                    &&& reports(r, delivery_error(batch, old(self).max_bytes()))
                    &&& final(self).spec_stats() == delivery_stats(
                        added,
                        batch,
                        old(self).max_bytes(),
                    )
                    &&& final(self).pending().len() == 0
                    &&& !final(self).batch_started()
                } else {
                    &&& r is Ok
                    &&& final(self).spec_stats() == added
                    &&& final(self).pending() == batch
                    &&& final(self).batch_started()
                }
            },
    {
        match self.accept(event) {
            Err(e) => Err(e),
            Ok(None) => Ok(()),
            Ok(Some(batch)) => match self.send_batch(batch.as_slice()) {
                Err(e) => Err(e),
                Ok(_) => Ok(()),
            },
        }
    }

    /// Flush all pending events.
    ///
    /// Delivery semantics are at-most-once: events are drained from the
    /// buffer before delivery, whatever its outcome.
    pub fn flush(&mut self) -> (r: Result<(), Error>)
        requires
            old(self).wf(),
        ensures
            final(self).wf(),
            reports(r, delivery_error(old(self).pending(), old(self).max_bytes())),
            final(self).spec_stats() == delivery_stats(
                old(self).spec_stats(),
                old(self).pending(),
                old(self).max_bytes(),
            ),
            final(self).pending().len() == 0,
            !final(self).batch_started(),
            final(self).spec_config() == old(self).spec_config(),
            final(self).spec_retry() == old(self).spec_retry(),
    {
        let batch = self.drain();
        if batch.len() > 0 {
            match self.send_batch(batch.as_slice()) {
                Err(e) => {
                    return Err(e);
                },
                Ok(_) => {},
            }
        }
        Ok(())
    }

    /// Flush all pending events with helper-level retries.
    ///
    /// With no attempt allowed this is a configuration error and nothing
    /// changes. Otherwise the buffer is drained once and delivery of the
    /// drained batch is tried up to `max_attempts` times; drained events are
    /// never buffered again. After each failed try `helper_retry_step`
    /// decides: stop with the error after the last try, else wait the retry
    /// delay. Local delivery gives the same answer on every try, so here the
    /// tries follow each other without those waits; a caller delivering over
    /// the network makes them.
    pub fn flush_with_retry(&mut self, max_attempts: u32) -> (r: Result<(), Error>)
        requires
            old(self).wf(),
        ensures
            final(self).wf(),
            final(self).spec_config() == old(self).spec_config(),
            final(self).spec_retry() == old(self).spec_retry(),
            max_attempts == 0 ==> {
                &&& is_config_error(r, zero_attempts_message())
                &&& final(self).pending() == old(self).pending()
                &&& final(self).batch_started() == old(self).batch_started()
                &&& final(self).spec_stats() == old(self).spec_stats()
            },
            max_attempts > 0 ==> {
                let batch = old(self).pending();
                &&& reports(r, delivery_error(batch, old(self).max_bytes()))
                &&& final(self).pending().len() == 0
                &&& !final(self).batch_started()
                &&& final(self).spec_stats() == if delivery_error(
                    batch,
                    old(self).max_bytes(),
                ) is None {
                    delivery_stats(old(self).spec_stats(), batch, old(self).max_bytes())
                } else {
                    failed_times(old(self).spec_stats(), max_attempts as nat)
                }
            },
    {
        let batch = match self.drain_for_retry(max_attempts) {
            Err(e) => {
                return Err(e);
            },
            Ok(batch) => batch,
        };
        if batch.len() == 0 {
            return Ok(());
        }
        let ghost s0 = self.spec_stats();
        let ghost b = batch@;
        let ghost err = delivery_error(b, self.max_bytes());
        let ghost cfg = self.spec_config();
        let ghost rc = self.spec_retry();
        let mut attempt: u32 = 0;
        loop
            invariant
                0 <= attempt < max_attempts,
                self.wf(),
                s0 == old(self).spec_stats(),
                b == old(self).pending(),
                cfg == old(self).spec_config(),
                rc == old(self).spec_retry(),
                b == batch@,
                b.len() > 0,
                err == delivery_error(b, cfg.transmission_options.max_batch_bytes),
                attempt > 0 ==> err is Some,
                self.spec_config() == cfg,
                self.spec_retry() == rc,
                self.pending().len() == 0,
                !self.batch_started(),
                self.spec_stats() == failed_times(s0, attempt as nat),
            decreases max_attempts - attempt,
        {
            let outcome = self.send_batch(batch.as_slice());
            match helper_retry_step(&self.retry_config, attempt, max_attempts, outcome) {
                HelperStep::Finish(result) => {
                    return result;
                },
                HelperStep::Wait(_) => {},
            }
            attempt = attempt + 1;
        }
    }

    /// Get a reference to the client's statistics.
    pub fn stats(&self) -> (s: &BatchStats)
        requires
            self.wf(),
        ensures
            *s == self.spec_stats(),
    {
        self.buffer.stats()
    }

    /// Get the number of events currently buffered.
    ///
    /// What every client keeps: the buffer never holds a full batch nor more
    /// events than its capacity, and a batch has started exactly while events
    /// wait.
    pub fn buffered_events(&self) -> (n: usize)
        requires
            self.wf(),
        ensures
            n == self.pending().len(),
            n == 0 || n < self.spec_config().transmission_options.max_batch_size,
            n <= self.spec_config().transmission_options.pending_work_capacity,
            self.batch_started() == (n > 0),
    {
        self.buffer.len()
    }

    /// Check if the batch timeout has expired.
    ///
    /// If true, you should call `flush()` to send pending events.
    pub fn should_flush(&self) -> (b: bool)
        requires
            self.wf(),
        ensures
            !self.batch_started() ==> !b,
            self.batch_started() ==> exists|elapsed: Duration|
                b == timeout_reached_spec(
                    elapsed,
                    self.spec_config().transmission_options.batch_timeout,
                ),
    {
        let b = self.buffer.is_timeout_expired();
        proof {
            if self.batch_started() {
                let timeout = self.buffer.spec_options().batch_timeout;
                let e = choose|e: Duration| b == timeout_reached_spec(e, timeout);
                assert(b == timeout_reached_spec(
                    e,
                    self.spec_config().transmission_options.batch_timeout,
                ));
            }
        }
        b
    }

    /// Get a reference to the client configuration.
    pub fn config(&self) -> (c: &Config)
        requires
            self.wf(),
        ensures
            *c == self.spec_config(),
    {
        &self.config
    }

    /// Get a reference to the retry configuration.
    pub fn retry_config(&self) -> (c: &RetryConfig)
        requires
            self.wf(),
        ensures
            *c == self.spec_retry(),
    {
        &self.retry_config
    }

    /// Create a new event with the client's sample rate.
    pub fn new_event(&self) -> (e: Event)
        requires
            self.wf(),
        ensures
            e.sample_rate == self.spec_config().options.sample_rate,
            e.data@ == Map::<Seq<char>, serde_json::Value>::empty(),
            e.metadata is None,
            exists|secs: nat, millis: nat| millis < 1000 && e.timestamp@ == timestamp_text(secs, millis),
            exists|now: SystemTime| e.timestamp@ == system_time_text(now),
    {
        let mut event = Event::new();
        event.set_sample_rate(self.config.options.sample_rate);
        event
    }

    /// Close the client, flushing any pending events.
    ///
    /// Delivery semantics are at-most-once: if the final flush fails,
    /// pending events are not buffered again.
    pub fn close(self) -> (r: Result<(), Error>)
        requires
            self.wf(),
        ensures
            reports(r, delivery_error(self.pending(), self.max_bytes())),
    {
        let mut client = self;
        client.flush()
    }

    /// Close the client after retrying flush of pending events; see
    /// `flush_with_retry`.
    pub fn close_with_retry(self, max_attempts: u32) -> (r: Result<(), Error>)
        requires
            self.wf(),
        ensures
            max_attempts == 0 ==> is_config_error(r, zero_attempts_message()),
            max_attempts > 0 ==> reports(r, delivery_error(self.pending(), self.max_bytes())),
    {
        let mut client = self;
        client.flush_with_retry(max_attempts)
    }
}

} // verus!
