//! The batch buffer: events are collected until a batch is full (or until
//! the caller flushes after the batch timeout), with counters of what
//! happened to them.

use vstd::prelude::*;
use std::time::Instant;
use crate::config::TransmissionOptions;
use crate::error::{error_message, Error};
use crate::event::Event;
use crate::time::Duration;
use vstd::arithmetic::div_mod::{lemma_fundamental_div_mod, lemma_fundamental_div_mod_converse};

verus! {

/// `std::time::Instant`, a reading of the monotonic clock.
#[verifier::external_type_specification]
#[verifier::external_body]
pub struct ExInstant(std::time::Instant);

/// The current reading of the monotonic clock.
///
/// Wraps `Instant::now`; nothing is stated of the result, which reads the
/// clock.
#[verifier::external_body]
fn clock_now() -> Instant {
    Instant::now()
}

/// The whole seconds and the nanoseconds past them since `start`.
///
/// Wraps `Instant::elapsed`; the nanoseconds are the duration's
/// `subsec_nanos`, below one second. How much time has passed depends on the
/// clock and is not stated.
#[verifier::external_body]
fn elapsed_since(start: &Instant) -> (r: (u64, u32))
    ensures
        r.1 < 1_000_000_000,
{
    let d = start.elapsed();
    (d.as_secs(), d.subsec_nanos())
}

/// Whether a batch that has waited `elapsed` has reached its timeout.
pub fn timeout_reached(elapsed: Duration, timeout: Duration) -> (b: bool)
    ensures
        b == (elapsed@ >= timeout@),
{
    timeout.le(&elapsed)
}

/// Statistics about batch operations. Each counter wraps around past
/// `u64::MAX`.
#[derive(Debug)]
pub struct BatchStats {
    /// Total events added to the buffer.
    pub events_added: u64,
    /// Total events sent successfully.
    pub events_sent: u64,
    /// Total events dropped (due to capacity or errors).
    pub events_dropped: u64,
    /// Total batches sent.
    pub batches_sent: u64,
    /// Total batches failed.
    pub batches_failed: u64,
}

impl Default for BatchStats {
    /// All counters at zero.
    fn default() -> (s: Self)
        ensures
            s.is_zero(),
    {
        BatchStats {
            events_added: 0,
            events_sent: 0,
            events_dropped: 0,
            batches_sent: 0,
            batches_failed: 0,
        }
    }
}

impl BatchStats {
    /// Whether every counter is zero.
    pub open spec fn is_zero(&self) -> bool {
        self.events_added == 0 && self.events_sent == 0 && self.events_dropped == 0
            && self.batches_sent == 0 && self.batches_failed == 0
    }

    /// Create new statistics.
    pub fn new() -> (s: Self)
        ensures
            s.is_zero(),
    {
        Self::default()
    }

    /// Record an event being added.
    pub fn record_event_added(&mut self)
        ensures
            *final(self) == recorded(*old(self), StatsEvent::EventAdded),
    {
        self.events_added = self.events_added.wrapping_add(1);
    }

    /// Record events being sent.
    pub fn record_events_sent(&mut self, count: u64)
        ensures
            *final(self) == recorded(*old(self), StatsEvent::EventsSent(count)),
    {
        self.events_sent = self.events_sent.wrapping_add(count);
    }

    /// Record an event being dropped.
    pub fn record_event_dropped(&mut self)
        ensures
            *final(self) == recorded(*old(self), StatsEvent::EventDropped),
    {
        self.events_dropped = self.events_dropped.wrapping_add(1);
    }

    /// Record a batch being sent.
    pub fn record_batch_sent(&mut self)
        ensures
            *final(self) == recorded(*old(self), StatsEvent::BatchSent),
    {
        self.batches_sent = self.batches_sent.wrapping_add(1);
    }

    /// Record a batch failing.
    pub fn record_batch_failed(&mut self)
        ensures
            *final(self) == recorded(*old(self), StatsEvent::BatchFailed),
    {
        self.batches_failed = self.batches_failed.wrapping_add(1);
    }

    /// Get snapshot of current stats.
    pub fn snapshot(&self) -> (s: BatchStatsSnapshot)
        ensures
            s.events_added == self.events_added,
            s.events_sent == self.events_sent,
            s.events_dropped == self.events_dropped,
            s.batches_sent == self.batches_sent,
            s.batches_failed == self.batches_failed,
    {
        BatchStatsSnapshot {
            events_added: self.events_added,
            events_sent: self.events_sent,
            events_dropped: self.events_dropped,
            batches_sent: self.batches_sent,
            batches_failed: self.batches_failed,
        }
    }
}

/// Something that the statistics count.
pub enum StatsEvent {
    /// An event was added to the buffer.
    EventAdded,
    /// This many events were sent.
    EventsSent(u64),
    /// An event was dropped.
    EventDropped,
    /// A batch was sent.
    BatchSent,
    /// A batch failed.
    BatchFailed,
}

/// The statistics `s` after recording `e`: the one counter it concerns
/// grows by one (by the count, for sent events), wrapping past `u64::MAX`.
pub open spec fn recorded(s: BatchStats, e: StatsEvent) -> BatchStats {
    match e {
        StatsEvent::EventAdded => BatchStats { events_added: s.events_added.wrapping_add(1), ..s },
        StatsEvent::EventsSent(n) => BatchStats { events_sent: s.events_sent.wrapping_add(n), ..s },
        StatsEvent::EventDropped => BatchStats {
            events_dropped: s.events_dropped.wrapping_add(1),
            ..s
        },
        StatsEvent::BatchSent => BatchStats { batches_sent: s.batches_sent.wrapping_add(1), ..s },
        StatsEvent::BatchFailed => BatchStats {
            batches_failed: s.batches_failed.wrapping_add(1),
            ..s
        },
    }
}

/// The statistics `s` after recording `es` in order.
pub open spec fn recorded_all(s: BatchStats, es: Seq<StatsEvent>) -> BatchStats
    decreases es.len(),
{
    if es.len() == 0 {
        s
    } else {
        recorded(recorded_all(s, es.drop_last()), es.last())
    }
}

/// What `es` adds to each counter, without wrapping: events added, events
/// sent, events dropped, batches sent, batches failed.
pub open spec fn tally(es: Seq<StatsEvent>) -> (nat, nat, nat, nat, nat)
    decreases es.len(),
{
    if es.len() == 0 {
        (0, 0, 0, 0, 0)
    } else {
        let t = tally(es.drop_last());
        match es.last() {
            StatsEvent::EventAdded => (t.0 + 1, t.1, t.2, t.3, t.4),
            StatsEvent::EventsSent(n) => (t.0, t.1 + n as nat, t.2, t.3, t.4),
            StatsEvent::EventDropped => (t.0, t.1, t.2 + 1, t.3, t.4),
            StatsEvent::BatchSent => (t.0, t.1, t.2, t.3 + 1, t.4),
            StatsEvent::BatchFailed => (t.0, t.1, t.2, t.3, t.4 + 1),
        }
    }
}

/// `n` wrapped into a `u64` (modulo 2^64).
pub open spec fn wrap64(n: nat) -> u64 {
    (n % 0x1_0000_0000_0000_0000) as u64
}

/// Adding to a wrapped count wraps the sum.
proof fn lemma_wrap_add(n: nat, k: u64)
    ensures
        wrap64(n).wrapping_add(k) == wrap64(n + k as nat),
{
    let m: int = 0x1_0000_0000_0000_0000;
    lemma_fundamental_div_mod(n as int, m);
    let q = n as int / m;
    let r = n as int % m;
    if r + k >= m {
        lemma_fundamental_div_mod_converse(n + k, m, q + 1, r + k - m);
    } else {
        lemma_fundamental_div_mod_converse(n + k, m, q, r + k);
    }
}

/// Law: statistics that start at zero and are changed only by `record_*`
/// calls hold, in each counter, the number of such calls (for sent events,
/// the sum of the counts passed), modulo 2^64.
pub proof fn lemma_stats_count(start: BatchStats, es: Seq<StatsEvent>)
    requires
        start.is_zero(),
    ensures
        recorded_all(start, es) == (BatchStats {
            events_added: wrap64(tally(es).0),
            events_sent: wrap64(tally(es).1),
            events_dropped: wrap64(tally(es).2),
            batches_sent: wrap64(tally(es).3),
            batches_failed: wrap64(tally(es).4),
        }),
    decreases es.len(),
{
    if es.len() > 0 {
        let p = es.drop_last();
        lemma_stats_count(start, p);
        let t = tally(p);
        match es.last() {
            StatsEvent::EventAdded => lemma_wrap_add(t.0, 1),
            StatsEvent::EventsSent(n) => lemma_wrap_add(t.1, n),
            StatsEvent::EventDropped => lemma_wrap_add(t.2, 1),
            StatsEvent::BatchSent => lemma_wrap_add(t.3, 1),
            StatsEvent::BatchFailed => lemma_wrap_add(t.4, 1),
        }
    } else {
        assert(wrap64(0) == 0);
    }
}

/// Snapshot of batch statistics at a point in time.
#[derive(Debug, Clone, Copy, PartialEq, Eq, Structural)]
pub struct BatchStatsSnapshot {
    /// Total events added to the buffer.
    pub events_added: u64,
    /// Total events sent successfully.
    pub events_sent: u64,
    /// Total events dropped.
    pub events_dropped: u64,
    /// Total batches sent.
    pub batches_sent: u64,
    /// Total batches failed.
    pub batches_failed: u64,
}

impl Default for BatchStatsSnapshot {
    /// All counters at zero.
    fn default() -> (s: Self)
        ensures
            s.events_added == 0 && s.events_sent == 0 && s.events_dropped == 0 && s.batches_sent
                == 0 && s.batches_failed == 0,
    {
        BatchStatsSnapshot {
            events_added: 0,
            events_sent: 0,
            events_dropped: 0,
            batches_sent: 0,
            batches_failed: 0,
        }
    }
}

/// A buffer that collects events into batches for efficient transmission.
///
/// Events are accumulated until the buffer reaches `max_batch_size` events;
/// the time of the first event of the current batch is kept so that callers
/// can flush once the batch timeout has passed.
#[derive(Debug)]
pub struct BatchBuffer {
    events: Vec<Event>,
    options: TransmissionOptions,
    batch_start: Option<Instant>,
    stats: BatchStats,
}

impl BatchBuffer {
    /// The events waiting in the buffer, oldest first.
    pub closed spec fn pending(&self) -> Seq<Event> {
        self.events@
    }

    /// The options the buffer was made with.
    pub closed spec fn spec_options(&self) -> TransmissionOptions {
        self.options
    }

    /// The buffer's statistics.
    pub closed spec fn spec_stats(&self) -> BatchStats {
        self.stats
    }

    /// Whether the start time of a batch is known (it is exactly while
    /// events wait, see `wf`).
    pub closed spec fn batch_started(&self) -> bool {
        self.batch_start is Some
    }

    /// What every buffer keeps: the batch start time is set exactly while
    /// events wait, the buffer never holds a full batch and never more events
    /// than its capacity.
    pub open spec fn wf(&self) -> bool {
        &&& self.batch_started() == (self.pending().len() > 0)
        &&& self.pending().len() == 0 || self.pending().len() < self.spec_options().max_batch_size
        &&& self.pending().len() <= self.spec_options().pending_work_capacity
    }

    /// Create a new, empty batch buffer with the given options.
    pub fn new(options: TransmissionOptions) -> (b: Self)
        ensures
            b.wf(),
            b.pending().len() == 0,
            b.spec_options() == options,
            b.spec_stats().is_zero(),
    {
        BatchBuffer { events: Vec::new(), options, batch_start: None, stats: BatchStats::new() }
    }

    /// Create a new batch buffer with default options.
    pub fn with_defaults() -> (b: Self)
        ensures
            b.wf(),
            b.pending().len() == 0,
            b.spec_options().is_default(),
            b.spec_stats().is_zero(),
    {
        Self::new(TransmissionOptions::default())
    }

    /// Add an event to the buffer.
    ///
    /// Returns `Ok(Some(batch))` with every waiting event when the buffer is
    /// now full, `Ok(None)` when the event was added but the buffer is not
    /// yet full, or an error, dropping the event, when the buffer is at
    /// capacity.
    pub fn add(&mut self, event: Event) -> (r: Result<Option<Vec<Event>>, Error>)
        ensures
            old(self).wf() ==> final(self).wf(),
            add_outcome(*old(self), event, r, *final(self)),
    {
        if self.events.len() >= self.options.pending_work_capacity {
            self.stats.record_event_dropped();
            return Err(Error::Buffer(String::from_str("Buffer at capacity, event dropped")));
        }
        if self.batch_start.is_none() {
            self.batch_start = Some(clock_now());
        }
        self.events.push(event);
        self.stats.record_event_added();
        if self.events.len() >= self.options.max_batch_size {
            let mut batch = Vec::new();
            std::mem::swap(&mut batch, &mut self.events);
            self.batch_start = None;
            return Ok(Some(batch));
        }
        Ok(None)
    }

    /// Whether the batch timeout has passed once `elapsed` has gone by
    /// since the first event of the current batch: `false` when no batch has
    /// started, else whether `elapsed` has reached the batch timeout.
    pub fn expired_after(&self, elapsed: Duration) -> (b: bool)
        ensures
            b == (self.batch_started() && elapsed@ >= self.spec_options().batch_timeout@),
    {
        match &self.batch_start {
            None => false,
            Some(_) => timeout_reached(elapsed, self.options.batch_timeout),
        }
    }

    /// Check if the batch timeout has expired.
    ///
    /// Returns `true` if a batch has started (events are waiting) and the
    /// time since its first event, as the monotonic clock reports it, has
    /// reached the batch timeout (see `expired_after`).
    pub fn is_timeout_expired(&self) -> (b: bool)
        ensures
            !self.batch_started() ==> !b,
            self.batch_started() ==> exists|elapsed: Duration|
                b == timeout_reached_spec(elapsed, self.spec_options().batch_timeout),
            exists|elapsed: Duration| b == self.expired_after_spec(elapsed),
    {
        match &self.batch_start {
            None => {
                proof {
                    let any: Duration = vstd::pervasive::arbitrary();
                    assert(!self.expired_after_spec(any));
                }
                false
            },
            Some(start) => {
                let (secs, nanos) = elapsed_since(start);
                let elapsed = Duration::new(secs, nanos);
                let b = self.expired_after(elapsed);
                assert(b == timeout_reached_spec(elapsed, self.spec_options().batch_timeout));
                assert(b == self.expired_after_spec(elapsed));
                b
            },
        }
    }

    /// What `expired_after(elapsed)` gives.
    pub open spec fn expired_after_spec(&self, elapsed: Duration) -> bool {
        self.batch_started() && elapsed@ >= self.spec_options().batch_timeout@
    }

    /// Flush the buffer, returning all pending events (none when it is
    /// empty) and leaving it empty.
    pub fn flush(&mut self) -> (r: Result<Vec<Event>, Error>)
        ensures
            flush_outcome(*old(self), r, *final(self)),
            final(self).wf(),
    {
        let mut batch = Vec::new();
        std::mem::swap(&mut batch, &mut self.events);
        self.batch_start = None;
        Ok(batch)
    }

    /// Get the number of events currently in the buffer.
    pub fn len(&self) -> (n: usize)
        ensures
            n == self.pending().len(),
    {
        self.events.len()
    }

    /// Check if the buffer is empty.
    pub fn is_empty(&self) -> (b: bool)
        ensures
            b == (self.pending().len() == 0),
    {
        self.len() == 0
    }

    /// Get a reference to the buffer's statistics.
    pub fn stats(&self) -> (s: &BatchStats)
        ensures
            *s == self.spec_stats(),
    {
        &self.stats
    }

    /// Mutable access to the buffer's statistics, for recording what became
    /// of the batches taken from it.
    pub fn stats_mut(&mut self) -> (s: &mut BatchStats)
        ensures
            *s == old(self).spec_stats(),
            final(self).spec_stats() == *final(s),
            final(self).pending() == old(self).pending(),
            final(self).batch_started() == old(self).batch_started(),
            final(self).spec_options() == old(self).spec_options(),
    {
        &mut self.stats
    }

    /// Get the maximum batch size.
    pub fn max_batch_size(&self) -> (n: usize)
        ensures
            n == self.spec_options().max_batch_size,
    {
        self.options.max_batch_size
    }

    /// Get the batch timeout duration.
    pub fn batch_timeout(&self) -> (d: Duration)
        ensures
            d == self.spec_options().batch_timeout,
    {
        self.options.batch_timeout
    }

    /// Get the pending work capacity.
    pub fn pending_work_capacity(&self) -> (n: usize)
        ensures
            n == self.spec_options().pending_work_capacity,
    {
        self.options.pending_work_capacity
    }
}

/// What `add(event)` does to a buffer: the options stay; at capacity the
/// event is dropped with an error and counted as dropped; otherwise it is
/// counted as added and either waits in the buffer or, when it fills a batch,
/// comes back with every waiting event and leaves the buffer empty.
pub open spec fn add_outcome(
    before: BatchBuffer,
    event: Event,
    r: Result<Option<Vec<Event>>, Error>,
    after: BatchBuffer,
) -> bool {
    &&& after.spec_options() == before.spec_options()
    &&& before.pending().len() >= before.spec_options().pending_work_capacity ==> {
        &&& r matches Err(e) && e is Buffer && error_message(e)
            == "Buffer at capacity, event dropped"@
        &&& after.pending() == before.pending()
        &&& after.batch_started() == before.batch_started()
        &&& after.spec_stats() == (BatchStats {
            events_dropped: before.spec_stats().events_dropped.wrapping_add(1),
            ..before.spec_stats()
        })
    }
    &&& before.pending().len() < before.spec_options().pending_work_capacity ==> {
        &&& after.spec_stats() == (BatchStats {
            events_added: before.spec_stats().events_added.wrapping_add(1),
            ..before.spec_stats()
        })
        &&& if before.pending().len() + 1 >= before.spec_options().max_batch_size {
            &&& r matches Ok(Some(batch)) && batch@ == before.pending().push(event)
            &&& after.pending().len() == 0
            &&& !after.batch_started()
        } else {
            &&& r matches Ok(None)
            &&& after.pending() == before.pending().push(event)
            &&& after.batch_started()
        }
    }
}

/// What `flush` does to a buffer: every waiting event comes back, oldest
/// first, and the buffer is left empty with its options and statistics.
pub open spec fn flush_outcome(
    before: BatchBuffer,
    r: Result<Vec<Event>, Error>,
    after: BatchBuffer,
) -> bool {
    &&& r matches Ok(batch) && batch@ == before.pending()
    &&& after.pending().len() == 0
    &&& !after.batch_started()
    &&& after.spec_options() == before.spec_options()
    &&& after.spec_stats() == before.spec_stats()
}

/// The events that a call of `add` hands back: the full batch, or none.
pub open spec fn handed_back(r: Result<Option<Vec<Event>>, Error>) -> Seq<Event> {
    match r {
        Ok(Some(batch)) => batch@,
        _ => Seq::empty(),
    }
}

/// The accounting of a buffer that has accepted the events `accepted` (in
/// order), handed back `handed` (in order) and refused `refused` events: what
/// was handed back followed by what waits is exactly what was accepted, and
/// the counters of added and dropped events hold those numbers modulo 2^64.
pub open spec fn accounts(
    b: BatchBuffer,
    accepted: Seq<Event>,
    handed: Seq<Event>,
    refused: nat,
) -> bool {
    &&& handed + b.pending() == accepted
    &&& b.spec_stats().events_added == wrap64(accepted.len())
    &&& b.spec_stats().events_dropped == wrap64(refused)
}

/// A new buffer has accepted, handed back and refused nothing.
pub proof fn lemma_accounts_start(b: BatchBuffer)
    requires
        b.pending().len() == 0,
        b.spec_stats().is_zero(),
    ensures
        accounts(b, Seq::empty(), Seq::empty(), 0),
{
    assert(Seq::<Event>::empty() + b.pending() =~= Seq::<Event>::empty());
}

/// Law: `add` keeps the accounting. An accepted event is counted once and is
/// either still waiting or handed back in a batch, in the order of
/// acceptance; a refused event is counted as dropped. No event is lost or
/// handed back twice, and the buffer still never holds a full batch nor
/// more than its capacity.
pub proof fn lemma_add_accounts(
    before: BatchBuffer,
    event: Event,
    r: Result<Option<Vec<Event>>, Error>,
    after: BatchBuffer,
    accepted: Seq<Event>,
    handed: Seq<Event>,
    refused: nat,
)
    requires
        before.wf(),
        after.wf(),
        accounts(before, accepted, handed, refused),
        add_outcome(before, event, r, after),
    ensures
        r is Err ==> accounts(after, accepted, handed, refused + 1),
        r is Ok ==> accounts(after, accepted.push(event), handed + handed_back(r), refused),
        after.pending().len() == 0 || after.pending().len()
            < after.spec_options().max_batch_size,
        after.pending().len() <= after.spec_options().pending_work_capacity,
{
    lemma_wrap_add(refused, 1);
    lemma_wrap_add(accepted.len(), 1);
    if before.pending().len() < before.spec_options().pending_work_capacity {
        if before.pending().len() + 1 >= before.spec_options().max_batch_size {
            assert(handed + handed_back(r) + after.pending() =~= accepted.push(event));
        } else {
            assert(handed + handed_back(r) + after.pending() =~= accepted.push(event));
        }
    }
}

/// Law: `flush` keeps the accounting: the waiting events are handed back in
/// order and nothing is counted again.
pub proof fn lemma_flush_accounts(
    before: BatchBuffer,
    r: Result<Vec<Event>, Error>,
    after: BatchBuffer,
    accepted: Seq<Event>,
    handed: Seq<Event>,
    refused: nat,
)
    requires
        accounts(before, accepted, handed, refused),
        flush_outcome(before, r, after),
    ensures
        r matches Ok(batch) && accounts(after, accepted, handed + batch@, refused),
{
    let batch = r->Ok_0;
    assert(handed + batch@ + after.pending() =~= accepted);
}

/// One call on a buffer with what it returned: `add` of an event, or
/// `flush`.
pub enum BufferCall {
    /// `add(event)` returned the result.
    Add(Event, Result<Option<Vec<Event>>, Error>),
    /// `flush()` returned the result.
    Flush(Result<Vec<Event>, Error>),
}

/// Whether `call` takes the buffer `before` to `after`, as the contracts of
/// `add` and `flush` say.
pub open spec fn call_step(before: BatchBuffer, call: BufferCall, after: BatchBuffer) -> bool {
    &&& after.wf()
    &&& match call {
        BufferCall::Add(event, r) => add_outcome(before, event, r, after),
        BufferCall::Flush(r) => flush_outcome(before, r, after),
    }
}

/// Whether `states` are the buffers before and after each of `calls`,
/// starting at `start`.
pub open spec fn is_run(start: BatchBuffer, calls: Seq<BufferCall>, states: Seq<BatchBuffer>) -> bool {
    &&& states.len() == calls.len() + 1
    &&& states[0] == start
    &&& forall|i: int| 0 <= i < calls.len() ==> call_step(states[i], #[trigger] calls[i], states[i + 1])
}

/// The events accepted by `calls`, in order.
pub open spec fn accepted_by(calls: Seq<BufferCall>) -> Seq<Event>
    decreases calls.len(),
{
    if calls.len() == 0 {
        Seq::empty()
    } else {
        let before = accepted_by(calls.drop_last());
        match calls.last() {
            BufferCall::Add(event, r) => if r is Ok {
                before.push(event)
            } else {
                before
            },
            BufferCall::Flush(_) => before,
        }
    }
}

/// The events handed back by `calls` (full batches from `add`, and what
/// `flush` returned), in order.
pub open spec fn handed_by(calls: Seq<BufferCall>) -> Seq<Event>
    decreases calls.len(),
{
    if calls.len() == 0 {
        Seq::empty()
    } else {
        let before = handed_by(calls.drop_last());
        match calls.last() {
            BufferCall::Add(_, r) => before + handed_back(r),
            BufferCall::Flush(r) => match r {
                Ok(batch) => before + batch@,
                Err(_) => before,
            },
        }
    }
}

/// The number of `add` calls among `calls` that refused their event.
pub open spec fn refused_by(calls: Seq<BufferCall>) -> nat
    decreases calls.len(),
{
    if calls.len() == 0 {
        0
    } else {
        refused_by(calls.drop_last()) + match calls.last() {
            BufferCall::Add(_, r) => if r is Err {
                1nat
            } else {
                0nat
            },
            BufferCall::Flush(_) => 0nat,
        }
    }
}

/// Law: over any sequence of `add` and `flush` calls on a new buffer, the
/// events handed back (by `add` as full batches and by `flush`) followed by
/// the waiting ones are exactly the accepted events in the order they were
/// accepted, so no event is lost or handed back twice; `events_added` counts
/// the accepted events and `events_dropped` the refused ones (modulo 2^64);
/// and the buffer never holds a full batch nor more than its capacity.
pub proof fn lemma_buffer_run(start: BatchBuffer, calls: Seq<BufferCall>, states: Seq<BatchBuffer>)
    requires
        start.wf(),
        start.pending().len() == 0,
        start.spec_stats().is_zero(),
        is_run(start, calls, states),
    ensures
        accounts(states.last(), accepted_by(calls), handed_by(calls), refused_by(calls)),
        states.last().pending().len() == 0 || states.last().pending().len()
            < states.last().spec_options().max_batch_size,
        states.last().pending().len() <= states.last().spec_options().pending_work_capacity,
    decreases calls.len(),
{
    if calls.len() == 0 {
        lemma_accounts_start(start);
    } else {
        let n = calls.len() - 1;
        let prev_calls = calls.drop_last();
        let prev_states = states.drop_last();
        assert forall|i: int| 0 <= i < prev_calls.len() implies call_step(
            prev_states[i],
            #[trigger] prev_calls[i],
            prev_states[i + 1],
        ) by {
            assert(call_step(states[i], calls[i], states[i + 1]));
        }
        lemma_buffer_run(start, prev_calls, prev_states);
        let before = states[n];
        let after = states[n + 1];
        assert(prev_states.last() == before);
        assert(call_step(before, calls[n], after));
        assert(before.wf()) by {
            if n > 0 {
                assert(call_step(states[n - 1], calls[n - 1], states[n]));
            }
        }
        match calls.last() {
            BufferCall::Add(event, r) => {
                lemma_add_accounts(
                    before,
                    event,
                    r,
                    after,
                    accepted_by(prev_calls),
                    handed_by(prev_calls),
                    refused_by(prev_calls),
                );
            },
            BufferCall::Flush(r) => {
                lemma_flush_accounts(
                    before,
                    r,
                    after,
                    accepted_by(prev_calls),
                    handed_by(prev_calls),
                    refused_by(prev_calls),
                );
            },
        }
    }
}

/// Law: a batch timeout of whole seconds expires exactly when that many
/// whole seconds have elapsed, whatever the fraction of a second beyond them;
/// and once expired it stays expired as more time elapses.
pub proof fn lemma_timeout_whole_seconds(
    b: BatchBuffer,
    elapsed: Duration,
    later: Duration,
    secs: nat,
    nanos: nat,
    timeout_secs: nat,
)
    requires
        b.batch_started(),
        nanos < 1_000_000_000,
        elapsed@ == secs * 1_000_000_000 + nanos,
        b.spec_options().batch_timeout@ == timeout_secs * 1_000_000_000,
        elapsed@ <= later@,
    ensures
        b.expired_after_spec(elapsed) <==> secs >= timeout_secs,
        b.expired_after_spec(elapsed) ==> b.expired_after_spec(later),
{
    if secs >= timeout_secs {
        assert(secs * 1_000_000_000 >= timeout_secs * 1_000_000_000) by (nonlinear_arith)
            requires
                secs >= timeout_secs,
        ;
    } else {
        assert(secs * 1_000_000_000 + 1_000_000_000 <= timeout_secs * 1_000_000_000)
            by (nonlinear_arith)
            requires
                secs < timeout_secs,
        ;
    }
}

/// Whether a batch that has waited `elapsed` has reached `timeout`.
pub open spec fn timeout_reached_spec(elapsed: Duration, timeout: Duration) -> bool {
    elapsed@ >= timeout@
}

} // verus!
