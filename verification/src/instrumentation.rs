//! Profiling and instrumentation.
//!
//! Counters that are bumped on every audio frame or decoded sample are
//! lock-free atomics ([`FastCounters`]); stage-level timings are kept by a
//! [`Profiler`] that is touched once per pipeline stage.

use std::sync::atomic::AtomicU64;
use std::sync::Arc;
use std::time::{Duration, Instant};
use vstd::prelude::*;
use crate::batch_scheduler::{cost_order, is_index_permutation, sorted_by_cost};
use crate::text::{decimal_seq, push_decimal, push_str};

verus! {

/// `std::time::Instant`, carried opaquely.
#[verifier::external_type_specification]
#[verifier::external_body]
pub struct ExInstant(Instant);

/// The current instant (`Instant::now`); nothing is promised of its value.
#[verifier::external_body]
pub(crate) fn instant_now() -> Instant {
    Instant::now()
}

/// The time elapsed since `start` (`Instant::elapsed`); it depends on the clock,
/// so nothing is promised of it.
#[verifier::external_body]
fn instant_elapsed(start: &Instant) -> Duration {
    start.elapsed()
}

/// Whole milliseconds of a duration (`Duration::as_millis`, truncated to `u64`).
#[verifier::external_body]
fn duration_millis(d: &Duration) -> u64 {
    d.as_millis() as u64
}

/// Milliseconds elapsed since `start`.
pub(crate) fn millis_since(start: &Instant) -> u64 {
    let elapsed = instant_elapsed(start);
    duration_millis(&elapsed)
}

/// Adds to an atomic counter, with relaxed ordering (it wraps on overflow).
fn counter_add(counter: &AtomicU64, n: u64) {
    let _previous = counter.fetch_add(n, std::sync::atomic::Ordering::Relaxed);
}

/// Reads an atomic counter, with relaxed ordering; other threads may add at
/// any time, so nothing is promised of the value.
fn counter_load(counter: &AtomicU64) -> u64 {
    counter.load(std::sync::atomic::Ordering::Relaxed)
}

// ── Fast atomic counters (hot path, lock-free) ────────────────────────────────

/// Lock-free performance counters.
///
/// They are updated with relaxed ordering and read only in summaries; they
/// are never used for synchronisation.
pub struct FastCounters {
    pub samples_processed: AtomicU64,
    pub frames_processed: AtomicU64,
    pub bytes_processed: AtomicU64,
    pub subprocess_count: AtomicU64,
    pub io_bytes_read: AtomicU64,
    pub io_bytes_written: AtomicU64,
}

impl FastCounters {
    /// A fresh set of counters, all zero.
    pub fn new() -> (c: FastCounters) {
        FastCounters {
            samples_processed: AtomicU64::new(0),
            frames_processed: AtomicU64::new(0),
            bytes_processed: AtomicU64::new(0),
            subprocess_count: AtomicU64::new(0),
            io_bytes_read: AtomicU64::new(0),
            io_bytes_written: AtomicU64::new(0),
        }
    }

    pub fn add_samples(&self, n: u64) {
        counter_add(&self.samples_processed, n);
    }

    pub fn add_frames(&self, n: u64) {
        counter_add(&self.frames_processed, n);
    }

    pub fn add_bytes(&self, n: u64) {
        counter_add(&self.bytes_processed, n);
    }

    pub fn add_subprocess(&self) {
        counter_add(&self.subprocess_count, 1);
    }

    pub fn add_io_read(&self, n: u64) {
        counter_add(&self.io_bytes_read, n);
    }

    pub fn add_io_written(&self, n: u64) {
        counter_add(&self.io_bytes_written, n);
    }

    /// Current value of the samples counter.
    pub fn samples(&self) -> u64 {
        counter_load(&self.samples_processed)
    }
}

// ── Stage-time maps ───────────────────────────────────────────────────────────

/// No key occurs twice in a list of (stage, milliseconds) entries.
pub open spec fn keys_unique(entries: Seq<(String, u64)>) -> bool {
    forall|i: int, j: int|
        0 <= i < entries.len() && 0 <= j < entries.len() && i != j ==> entries[i].0@
            != entries[j].0@
}

/// The map from stage name to milliseconds that a list of entries stands for.
pub open spec fn entries_map(entries: Seq<(String, u64)>) -> Map<Seq<char>, u64>
    decreases entries.len(),
{
    if entries.len() == 0 {
        Map::empty()
    } else {
        let last = entries.last();
        entries_map(entries.drop_last()).insert(last.0@, last.1)
    }
}

/// The stage map after recording each (stage, ms) of `batch` in order.
pub open spec fn apply_batch(m: Map<Seq<char>, u64>, batch: Seq<(String, u64)>) -> Map<
    Seq<char>,
    u64,
>
    decreases batch.len(),
{
    if batch.len() == 0 {
        m
    } else {
        apply_batch(m, batch.drop_last()).insert(batch.last().0@, batch.last().1)
    }
}

proof fn lemma_entries_map_contains(entries: Seq<(String, u64)>, k: Seq<char>)
    ensures
        entries_map(entries).contains_key(k) <==> exists|i: int|
            0 <= i < entries.len() && entries[i].0@ == k,
    decreases entries.len(),
{
    if entries.len() > 0 {
        lemma_entries_map_contains(entries.drop_last(), k);
        if entries_map(entries).contains_key(k) && entries.last().0@ != k {
            let i = choose|i: int| 0 <= i < entries.len() - 1 && entries.drop_last()[i].0@ == k;
            assert(entries[i].0@ == k);
        }
        if exists|i: int| 0 <= i < entries.len() && entries[i].0@ == k {
            let i = choose|i: int| 0 <= i < entries.len() && entries[i].0@ == k;
            if i < entries.len() - 1 {
                assert(entries.drop_last()[i].0@ == k);
            }
        }
    }
}

proof fn lemma_entries_map_value(entries: Seq<(String, u64)>, i: int)
    requires
        keys_unique(entries),
        0 <= i < entries.len(),
    ensures
        entries_map(entries).contains_key(entries[i].0@),
        entries_map(entries)[entries[i].0@] == entries[i].1,
    decreases entries.len(),
{
    if i < entries.len() - 1 {
        let d = entries.drop_last();
        assert(d[i] == entries[i]);
        assert(keys_unique(d));
        lemma_entries_map_value(d, i);
        assert(entries.last().0@ != entries[i].0@);
    }
}

proof fn lemma_entries_map_update(entries: Seq<(String, u64)>, i: int, v: (String, u64))
    requires
        keys_unique(entries),
        0 <= i < entries.len(),
        v.0@ == entries[i].0@,
    ensures
        keys_unique(entries.update(i, v)),
        entries_map(entries.update(i, v)) == entries_map(entries).insert(v.0@, v.1),
{
    let e2 = entries.update(i, v);
    assert forall|k: Seq<char>|
        #![trigger entries_map(e2).contains_key(k)]
        entries_map(e2).contains_key(k) <==> entries_map(entries).insert(
            v.0@,
            v.1,
        ).contains_key(k) by {
        lemma_entries_map_contains(e2, k);
        lemma_entries_map_contains(entries, k);
        assert(e2[i].0@ == v.0@);
        if k != v.0@ && entries_map(entries).contains_key(k) {
            let j = choose|j: int| 0 <= j < entries.len() && entries[j].0@ == k;
            assert(e2[j].0@ == k);
        }
        if entries_map(e2).contains_key(k) && k != v.0@ {
            let j = choose|j: int| 0 <= j < e2.len() && e2[j].0@ == k;
            assert(entries[j].0@ == k);
        }
    }
    assert forall|k: Seq<char>|
        #![trigger entries_map(e2)[k]]
        entries_map(e2).contains_key(k) implies entries_map(e2)[k] == entries_map(
            entries,
        ).insert(v.0@, v.1)[k] by {
        lemma_entries_map_contains(e2, k);
        let j = choose|j: int| 0 <= j < e2.len() && e2[j].0@ == k;
        lemma_entries_map_value(e2, j);
        if j != i {
            assert(entries[j] == e2[j]);
            lemma_entries_map_value(entries, j);
        }
    }
    assert(entries_map(e2) =~= entries_map(entries).insert(v.0@, v.1));
}

proof fn lemma_entries_map_push(entries: Seq<(String, u64)>, v: (String, u64))
    requires
        keys_unique(entries),
        !entries_map(entries).contains_key(v.0@),
    ensures
        keys_unique(entries.push(v)),
        entries_map(entries.push(v)) == entries_map(entries).insert(v.0@, v.1),
{
    let e2 = entries.push(v);
    assert(e2.drop_last() =~= entries);
    assert forall|i: int| 0 <= i < entries.len() implies entries[i].0@ != v.0@ by {
        lemma_entries_map_value(entries, i);
    }
}

/// Inserts or replaces the value of `key` in a list of unique entries.
fn entries_insert(entries: &mut Vec<(String, u64)>, key: String, value: u64)
    requires
        keys_unique(old(entries)@),
    ensures
        keys_unique(final(entries)@),
        entries_map(final(entries)@) == entries_map(old(entries)@).insert(key@, value),
{
    let n = entries.len();
    let mut i: usize = 0;
    while i < n
        invariant
            n == entries.len(),
            entries@ == old(entries)@,
            keys_unique(entries@),
            forall|j: int| 0 <= j < i ==> entries@[j].0@ != key@,
        decreases n - i,
    {
        if entries[i].0 == key {
            proof {
                lemma_entries_map_update(entries@, i as int, (key, value));
            }
            entries.set(i, (key, value));
            return ;
        }
        i += 1;
    }
    proof {
        lemma_entries_map_contains(entries@, key@);
        lemma_entries_map_push(entries@, (key, value));
    }
    entries.push((key, value));
}

/// Looks up the value of `key` in a list of unique entries.
fn entries_get(entries: &Vec<(String, u64)>, key: &str) -> (r: Option<u64>)
    requires
        keys_unique(entries@),
    ensures
        r == (if entries_map(entries@).contains_key(key@) {
            Some(entries_map(entries@)[key@])
        } else {
            None::<u64>
        }),
{
    let key_owned = String::from_str(key);
    let n = entries.len();
    let mut i: usize = 0;
    while i < n
        invariant
            n == entries.len(),
            key_owned@ == key@,
            keys_unique(entries@),
            forall|j: int| 0 <= j < i ==> entries@[j].0@ != key@,
        decreases n - i,
    {
        if entries[i].0 == key_owned {
            proof {
                lemma_entries_map_value(entries@, i as int);
            }
            return Some(entries[i].1);
        }
        i += 1;
    }
    proof {
        lemma_entries_map_contains(entries@, key@);
    }
    None
}

// ── Stage timer ───────────────────────────────────────────────────────────────

/// Stage timing information.
#[derive(Debug, Clone)]
pub struct StageTimer {
    /// Stage name.
    pub name: String,
    /// Start time.
    start: Option<Instant>,
    /// Elapsed time in milliseconds (if stopped).
    pub elapsed_ms: Option<u64>,
}

impl StageTimer {
    /// The timer's stage name.
    pub closed spec fn stage_name(&self) -> Seq<char> {
        self.name@
    }

    /// The elapsed time the timer carries, if stopped.
    pub closed spec fn stopped_ms(&self) -> Option<u64> {
        self.elapsed_ms
    }

    /// Start a new timer.
    pub fn start(name: &str) -> (t: StageTimer)
        ensures
            t.stage_name() == name@,
            t.stopped_ms() is None,
    {
        StageTimer { name: String::from_str(name), start: Some(instant_now()), elapsed_ms: None }
    }

    /// Stop the timer, record its elapsed milliseconds under its name in
    /// `profiler`, and return them.
    pub fn stop(self, profiler: &mut Profiler) -> (ms: u64)
        requires
            old(profiler).wf(),
        ensures
            final(profiler).wf(),
            final(profiler).stages() == old(profiler).stages().insert(self.stage_name(), ms),
            final(profiler).cpu_records() == old(profiler).cpu_records(),
    {
        let ms = match &self.start {
            Some(s) => millis_since(s),
            None => 0,
        };
        profiler.record_stage_time(self.name.as_str(), ms);
        ms
    }

    /// Stop the timer and stage its (name, milliseconds) in `batch`, to be
    /// committed later with [`Profiler::flush_batch`].
    pub fn stop_batched(self, batch: &mut Vec<(String, u64)>) -> (ms: u64)
        ensures
            final(batch)@.len() == old(batch)@.len() + 1,
            final(batch)@.drop_last() == old(batch)@,
            final(batch)@.last().0@ == self.stage_name(),
            final(batch)@.last().1 == ms,
    {
        let ms = match &self.start {
            Some(s) => millis_since(s),
            None => 0,
        };
        let ghost name = self.name@;
        batch.push((self.name, ms));
        proof {
            assert(batch@.drop_last() =~= old(batch)@);
        }
        ms
    }
}

// ── Stage metrics ─────────────────────────────────────────────────────────────

/// Metrics for the pipeline stages (milliseconds).
#[derive(Debug, Clone, Copy, PartialEq, Eq, Structural)]
pub struct StageMetrics {
    pub decode_ms: u64,
    pub effects_ms: u64,
    pub overlay_ms: u64,
    pub audio_ms: u64,
    pub encode_ms: u64,
    pub total_ms: u64,
}

impl StageMetrics {
    /// The sum of the five stage times.
    pub open spec fn spec_stage_sum(self) -> int {
        self.decode_ms + self.effects_ms + self.overlay_ms + self.encode_ms + self.audio_ms
    }

    /// All-zero metrics.
    pub fn new() -> (m: StageMetrics)
        ensures
            m.decode_ms == 0 && m.effects_ms == 0 && m.overlay_ms == 0 && m.audio_ms == 0
                && m.encode_ms == 0 && m.total_ms == 0,
    {
        StageMetrics {
            decode_ms: 0,
            effects_ms: 0,
            overlay_ms: 0,
            audio_ms: 0,
            encode_ms: 0,
            total_ms: 0,
        }
    }

    /// Sum of the stage times.
    pub fn stage_sum(&self) -> (s: u64)
        requires
            self.spec_stage_sum() <= u64::MAX,
        ensures
            s == self.spec_stage_sum(),
    {
        self.decode_ms + self.effects_ms + self.overlay_ms + self.encode_ms + self.audio_ms
    }

    /// Whether any stage recorded time.
    pub fn has_any(&self) -> (b: bool)
        ensures
            b == (self.decode_ms > 0 || self.effects_ms > 0 || self.overlay_ms > 0
                || self.audio_ms > 0 || self.encode_ms > 0),
    {
        self.decode_ms > 0 || self.effects_ms > 0 || self.overlay_ms > 0 || self.audio_ms > 0
            || self.encode_ms > 0
    }
}

pub use crate::errors::DriftMetrics;

// ── CPU time record ───────────────────────────────────────────────────────────

/// The CPU time spent on one named operation.
#[derive(Debug, Clone)]
pub struct CpuTimeRecord {
    pub operation: String,
    pub duration_ms: u64,
}

/// The total of the durations of a list of CPU time records.
pub open spec fn cpu_total(records: Seq<CpuTimeRecord>) -> int
    decreases records.len(),
{
    if records.len() == 0 {
        0
    } else {
        cpu_total(records.drop_last()) + records.last().duration_ms
    }
}

// ── Profiler ─────────────────────────────────────────────────────────────────

/// Stage-level profiler.
///
/// It keeps the last recorded time of each stage and every CPU time record,
/// and forwards per-sample and per-frame counts to the [`FastCounters`] it
/// was made with.
pub struct Profiler {
    stage_times: Vec<(String, u64)>,
    cpu_times: Vec<CpuTimeRecord>,
    start_time: Instant,
    counters: Arc<FastCounters>,
}

impl Profiler {
    /// The profiler's internal consistency: no stage recorded twice.
    pub closed spec fn wf(&self) -> bool {
        keys_unique(self.stage_times@)
    }

    /// The last recorded time of each stage.
    pub closed spec fn stages(&self) -> Map<Seq<char>, u64> {
        entries_map(self.stage_times@)
    }

    /// The CPU time records, oldest first.
    pub closed spec fn cpu_records(&self) -> Seq<CpuTimeRecord> {
        self.cpu_times@
    }

    /// The counters the profiler forwards its counts to.
    pub closed spec fn counter_set(&self) -> Arc<FastCounters> {
        self.counters
    }

    /// A profiler with its own fresh counters.
    pub fn new() -> (p: Profiler)
        ensures
            p.wf(),
            p.stages() == Map::<Seq<char>, u64>::empty(),
            p.cpu_records() == Seq::<CpuTimeRecord>::empty(),
    {
        Profiler::with_counters(Arc::new(FastCounters::new()))
    }

    /// A profiler that forwards its counts to `counters`.
    pub fn with_counters(counters: Arc<FastCounters>) -> (p: Profiler)
        ensures
            p.counter_set() == counters,
            p.wf(),
            p.stages() == Map::<Seq<char>, u64>::empty(),
            p.cpu_records() == Seq::<CpuTimeRecord>::empty(),
    {
        let p = Profiler {
            stage_times: Vec::new(),
            cpu_times: Vec::new(),
            start_time: instant_now(),
            counters,
        };
        proof {
            assert(p.stage_times@ =~= Seq::<(String, u64)>::empty());
        }
        p
    }

    /// Record the time of a stage (replacing an earlier record of it).
    pub fn record_stage_time(&mut self, stage: &str, duration_ms: u64)
        requires
            old(self).wf(),
        ensures
            final(self).wf(),
            final(self).stages() == old(self).stages().insert(stage@, duration_ms),
            final(self).cpu_records() == old(self).cpu_records(),
            final(self).counter_set() == old(self).counter_set(),
    {
        entries_insert(&mut self.stage_times, String::from_str(stage), duration_ms);
    }

    /// Record CPU time for an operation.
    pub fn record_cpu_time(&mut self, operation: &str, duration_ms: u64)
        requires
            old(self).wf(),
        ensures
            final(self).wf(),
            final(self).stages() == old(self).stages(),
            final(self).cpu_records().len() == old(self).cpu_records().len() + 1,
            final(self).cpu_records().drop_last() == old(self).cpu_records(),
            final(self).cpu_records().last().operation@ == operation@,
            final(self).cpu_records().last().duration_ms == duration_ms,
            final(self).counter_set() == old(self).counter_set(),
    {
        self.cpu_times.push(
            CpuTimeRecord { operation: String::from_str(operation), duration_ms },
        );
        proof {
            assert(self.cpu_times@.drop_last() =~= old(self).cpu_times@);
        }
    }

    /// Commit a batch of stage timings, in order, as if each were recorded
    /// with [`Profiler::record_stage_time`].
    pub fn flush_batch(&mut self, batch: Vec<(String, u64)>)
        requires
            old(self).wf(),
        ensures
            final(self).wf(),
            final(self).stages() == apply_batch(old(self).stages(), batch@),
            final(self).cpu_records() == old(self).cpu_records(),
            final(self).counter_set() == old(self).counter_set(),
    {
        let n = batch.len();
        let mut i: usize = 0;
        while i < n
            invariant
                n == batch.len(),
                i <= n,
                keys_unique(self.stage_times@),
                entries_map(self.stage_times@) == apply_batch(
                    old(self).stages(),
                    batch@.subrange(0, i as int),
                ),
                self.cpu_times@ == old(self).cpu_times@,
                self.counters == old(self).counters,
            decreases n - i,
        {
            let key = batch[i].0.clone();
            let ms = batch[i].1;
            entries_insert(&mut self.stage_times, key, ms);
            proof {
                let s = batch@.subrange(0, i + 1);
                assert(s.drop_last() =~= batch@.subrange(0, i as int));
                assert(s.last() == batch@[i as int]);
            }
            i += 1;
        }
        proof {
            assert(batch@.subrange(0, n as int) =~= batch@);
        }
    }

    pub fn record_bytes_processed(&self, bytes: u64) {
        self.counters.add_bytes(bytes);
    }

    pub fn record_frames_processed(&self, frames: u64) {
        self.counters.add_frames(frames);
    }

    pub fn record_samples_processed(&self, samples: u64) {
        self.counters.add_samples(samples);
    }

    pub fn record_subprocess(&self) {
        self.counters.add_subprocess();
    }

    pub fn record_io_read(&self, bytes: u64) {
        self.counters.add_io_read(bytes);
    }

    pub fn record_io_written(&self, bytes: u64) {
        self.counters.add_io_written(bytes);
    }

    /// Milliseconds since the profiler was made (read from the clock).
    pub fn total_elapsed_ms(&self) -> u64 {
        millis_since(&self.start_time)
    }

    /// The last recorded time of `stage`, if any.
    pub fn get_stage_time(&self, stage: &str) -> (r: Option<u64>)
        requires
            self.wf(),
        ensures
            r == (if self.stages().contains_key(stage@) {
                Some(self.stages()[stage@])
            } else {
                None::<u64>
            }),
    {
        entries_get(&self.stage_times, stage)
    }

    /// The counters this profiler forwards to.
    pub fn counters(&self) -> (c: &Arc<FastCounters>)
        ensures
            *c == self.counter_set(),
    {
        &self.counters
    }

    /// A report of the stage times, the CPU time records and the counters.
    ///
    /// The counter fields are read from the shared atomics at the time of the
    /// call; the elapsed time is read from the clock.
    pub fn generate_report(&self) -> (r: ProfilingReport)
        requires
            self.wf(),
            cpu_total(self.cpu_records()) <= u64::MAX,
        ensures
            keys_unique(r.stage_times@),
            entries_map(r.stage_times@) == self.stages(),
            r.total_cpu_time_ms == cpu_total(self.cpu_records()),
            r.operation_count == self.cpu_records().len(),
    {
        let mut total_cpu: u64 = 0;
        let n = self.cpu_times.len();
        let mut i: usize = 0;
        while i < n
            invariant
                n == self.cpu_times.len(),
                i <= n,
                cpu_total(self.cpu_times@) <= u64::MAX,
                total_cpu == cpu_total(self.cpu_times@.subrange(0, i as int)),
            decreases n - i,
        {
            proof {
                let s = self.cpu_times@.subrange(0, i + 1);
                assert(s.drop_last() =~= self.cpu_times@.subrange(0, i as int));
                lemma_cpu_total_prefix(self.cpu_times@, i + 1);
            }
            total_cpu = total_cpu + self.cpu_times[i].duration_ms;
            i += 1;
        }
        proof {
            assert(self.cpu_times@.subrange(0, n as int) =~= self.cpu_times@);
        }
        let stage_times = clone_entries(&self.stage_times);
        proof {
            lemma_entries_map_congruent(self.stage_times@, stage_times@);
        }
        ProfilingReport {
            stage_times,
            bytes_processed: counter_load(&self.counters.bytes_processed),
            frames_processed: counter_load(&self.counters.frames_processed),
            samples_processed: counter_load(&self.counters.samples_processed),
            total_cpu_time_ms: total_cpu,
            total_elapsed_ms: self.total_elapsed_ms(),
            operation_count: n,
            subprocess_count: truncate_to_u32(counter_load(&self.counters.subprocess_count)),
            io_bytes_read: counter_load(&self.counters.io_bytes_read),
            io_bytes_written: counter_load(&self.counters.io_bytes_written),
        }
    }
}

/// What a read gives back of a write: after `record_stage_time(stage, ms)`
/// (which turns `before`'s stage map into `after`'s), `get_stage_time(stage)`
/// answers `Some(ms)`, and every other stage reads as it did before.
pub proof fn lemma_stage_time_read_back(before: Profiler, after: Profiler, stage: Seq<char>, ms: u64, other: Seq<char>)
    requires
        after.stages() == before.stages().insert(stage, ms),
    ensures
        after.stages().contains_key(stage),
        after.stages()[stage] == ms,
        other != stage ==> after.stages().contains_key(other) == before.stages().contains_key(other),
        other != stage && before.stages().contains_key(other) ==> after.stages()[other] == before.stages()[other],
{
}

/// The low 32 bits of a count (the `as u32` conversion).
fn truncate_to_u32(n: u64) -> (r: u32)
    ensures
        r == n % 0x1_0000_0000,
{
    let r = (n & 0xffff_ffff) as u32;
    assert(n & 0xffff_ffff == n % 0x1_0000_0000) by (bit_vector);
    r
}

proof fn lemma_cpu_total_prefix(records: Seq<CpuTimeRecord>, k: int)
    requires
        0 <= k <= records.len(),
    ensures
        cpu_total(records.subrange(0, k)) <= cpu_total(records),
        k > 0 ==> cpu_total(records.subrange(0, k)) == cpu_total(records.subrange(0, k - 1))
            + records[k - 1].duration_ms,
    decreases records.len() - k,
{
    if k > 0 {
        assert(records.subrange(0, k).drop_last() =~= records.subrange(0, k - 1));
    }
    if k < records.len() {
        lemma_cpu_total_prefix(records, k + 1);
        assert(records.subrange(0, k + 1).drop_last() =~= records.subrange(0, k));
    } else {
        assert(records.subrange(0, k) =~= records);
    }
}

/// Lists that agree on every key's view and value stand for the same map.
proof fn lemma_entries_map_congruent(a: Seq<(String, u64)>, b: Seq<(String, u64)>)
    requires
        a.len() == b.len(),
        forall|i: int| 0 <= i < a.len() ==> a[i].0@ == b[i].0@ && a[i].1 == b[i].1,
    ensures
        entries_map(a) == entries_map(b),
        keys_unique(a) ==> keys_unique(b),
    decreases a.len(),
{
    if a.len() > 0 {
        lemma_entries_map_congruent(a.drop_last(), b.drop_last());
    }
}

/// A copy of a list of entries.
fn clone_entries(entries: &Vec<(String, u64)>) -> (r: Vec<(String, u64)>)
    ensures
        r@.len() == entries@.len(),
        forall|i: int| 0 <= i < r@.len() ==> r@[i].0@ == entries@[i].0@ && r@[i].1 == entries@[i].1,
{
    let mut r: Vec<(String, u64)> = Vec::new();
    let n = entries.len();
    let mut i: usize = 0;
    while i < n
        invariant
            n == entries.len(),
            i <= n,
            r@.len() == i,
            forall|j: int| 0 <= j < i ==> r@[j].0@ == entries@[j].0@ && r@[j].1 == entries@[j].1,
        decreases n - i,
    {
        r.push((entries[i].0.clone(), entries[i].1));
        i += 1;
    }
    r
}

impl Default for Profiler {
    fn default() -> (p: Profiler)
        ensures
            p.wf(),
            p.stages() == Map::<Seq<char>, u64>::empty(),
            p.cpu_records() == Seq::<CpuTimeRecord>::empty(),
    {
        Profiler::new()
    }
}

// ── Profiling report ──────────────────────────────────────────────────────────

/// A profiling report: stage times, counters and totals.
#[derive(Debug, Clone)]
pub struct ProfilingReport {
    /// (stage, milliseconds), each stage once.
    pub stage_times: Vec<(String, u64)>,
    pub bytes_processed: u64,
    pub frames_processed: u64,
    pub samples_processed: u64,
    pub total_cpu_time_ms: u64,
    pub total_elapsed_ms: u64,
    pub operation_count: usize,
    pub subprocess_count: u32,
    pub io_bytes_read: u64,
    pub io_bytes_written: u64,
}


/// The report's header block, with the three rates already rendered.
pub open spec fn report_header(r: ProfilingReport, cpu: Seq<char>, throughput: Seq<char>, frame_rate: Seq<char>) -> Seq<
    char,
> {
    "=== Profiling Report ===\n"@
        + "Total elapsed: "@ + decimal_seq(r.total_elapsed_ms as nat) + " ms\n"@
        + "Total CPU time: "@ + decimal_seq(r.total_cpu_time_ms as nat) + " ms\n"@
        + "CPU utilization: "@ + cpu + "%\n"@
        + "Bytes processed: "@ + decimal_seq(r.bytes_processed as nat) + "\n"@
        + "Frames processed: "@ + decimal_seq(r.frames_processed as nat) + "\n"@
        + "Throughput: "@ + throughput + " bytes/sec\n"@
        + "Frame rate: "@ + frame_rate + " fps\n"@
        + "Operations: "@ + decimal_seq(r.operation_count as nat) + "\n"@
        + "Subprocess spawns: "@ + decimal_seq(r.subprocess_count as nat) + "\n"@
        + "I/O read: "@ + decimal_seq((r.io_bytes_read / 1024) as nat) + " KB\n"@
        + "I/O written: "@ + decimal_seq((r.io_bytes_written / 1024) as nat) + " KB\n"@
        + "\nStage Times:\n"@
}

/// The line of one stage: `  <stage>: <ms> ms`.
pub open spec fn stage_line(e: (String, u64)) -> Seq<char> {
    "  "@ + e.0@ + ": "@ + decimal_seq(e.1 as nat) + " ms\n"@
}

/// The lines of the stages `entries[order[0]]`, `entries[order[1]]`, ...
pub open spec fn stage_lines(entries: Seq<(String, u64)>, order: Seq<usize>) -> Seq<char>
    decreases order.len(),
{
    if order.len() == 0 {
        Seq::empty()
    } else {
        stage_lines(entries, order.drop_last()) + stage_line(entries[order.last() as int])
    }
}

/// `order` visits the entries from the longest stage time down.
pub open spec fn slowest_first(order: Seq<usize>, entries: Seq<(String, u64)>) -> bool {
    forall|a: int, b: int| 0 <= a <= b < order.len() ==> #[trigger] entries[order[a] as int].1
        >= #[trigger] entries[order[b] as int].1
}

impl ProfilingReport {
    /// The report as text: the totals and counters (I/O in whole KiB), the
    /// CPU utilisation, throughput and frame rate as rendered by the caller,
    /// then one line per stage, the slowest first.
    pub fn format(&self, cpu_utilization: &str, throughput: &str, frame_rate: &str) -> (s: String)
        ensures
            exists|order: Seq<usize>|
                {
                    &&& is_index_permutation(order, self.stage_times@.len())
                    &&& slowest_first(order, self.stage_times@)
                    &&& s@ == report_header(*self, cpu_utilization@, throughput@, frame_rate@)
                        + stage_lines(self.stage_times@, order)
                },
        ("=== Profiling Report ===\n"@
            + "Total elapsed: "@ + decimal_seq(self.total_elapsed_ms as nat) + " ms\n"@
            + "Total CPU time: "@ + decimal_seq(self.total_cpu_time_ms as nat) + " ms\n"@
            + "CPU utilization: "@ + cpu_utilization@ + "%\n"@
            + "Bytes processed: "@ + decimal_seq(self.bytes_processed as nat) + "\n"@
            + "Frames processed: "@ + decimal_seq(self.frames_processed as nat) + "\n"@
            + "Throughput: "@ + throughput@ + " bytes/sec\n"@
            + "Frame rate: "@ + frame_rate@ + " fps\n"@
            + "Operations: "@ + decimal_seq(self.operation_count as nat) + "\n"@
            + "Subprocess spawns: "@ + decimal_seq(self.subprocess_count as nat) + "\n"@
            + "I/O read: "@ + decimal_seq((self.io_bytes_read / 1024) as nat) + " KB\n"@
            + "I/O written: "@ + decimal_seq((self.io_bytes_written / 1024) as nat) + " KB\n"@
            + "\nStage Times:\n"@).is_prefix_of(s@),
    {
        let mut out = String::new();
        push_str(&mut out, "=== Profiling Report ===\n");
        push_str(&mut out, "Total elapsed: ");
        push_decimal(&mut out, self.total_elapsed_ms);
        push_str(&mut out, " ms\n");
        push_str(&mut out, "Total CPU time: ");
        push_decimal(&mut out, self.total_cpu_time_ms);
        push_str(&mut out, " ms\n");
        push_str(&mut out, "CPU utilization: ");
        push_str(&mut out, cpu_utilization);
        push_str(&mut out, "%\n");
        push_str(&mut out, "Bytes processed: ");
        push_decimal(&mut out, self.bytes_processed);
        push_str(&mut out, "\n");
        push_str(&mut out, "Frames processed: ");
        push_decimal(&mut out, self.frames_processed);
        push_str(&mut out, "\n");
        push_str(&mut out, "Throughput: ");
        push_str(&mut out, throughput);
        push_str(&mut out, " bytes/sec\n");
        push_str(&mut out, "Frame rate: ");
        push_str(&mut out, frame_rate);
        push_str(&mut out, " fps\n");
        push_str(&mut out, "Operations: ");
        push_decimal(&mut out, self.operation_count as u64);
        push_str(&mut out, "\n");
        push_str(&mut out, "Subprocess spawns: ");
        push_decimal(&mut out, self.subprocess_count as u64);
        push_str(&mut out, "\n");
        push_str(&mut out, "I/O read: ");
        push_decimal(&mut out, self.io_bytes_read / 1024);
        push_str(&mut out, " KB\n");
        push_str(&mut out, "I/O written: ");
        push_decimal(&mut out, self.io_bytes_written / 1024);
        push_str(&mut out, " KB\n");
        push_str(&mut out, "\nStage Times:\n");
        proof {
            assert(out@ =~= report_header(*self, cpu_utilization@, throughput@, frame_rate@));
        }
        let ghost header = out@;
        let n = self.stage_times.len();
        let mut costs: Vec<u64> = Vec::new();
        let mut k: usize = 0;
        while k < n
            invariant
                n == self.stage_times@.len(),
                k <= n,
                costs@.len() == k,
                forall|j: int| 0 <= j < k ==> #[trigger] costs@[j] == u64::MAX - self.stage_times@[j].1,
            decreases n - k,
        {
            costs.push(u64::MAX - self.stage_times[k].1);
            k += 1;
        }
        let order = cost_order(&costs);
        proof {
            assert forall|a: int, b: int| 0 <= a <= b < order@.len() implies #[trigger] self.stage_times@[order@[a] as int].1
                >= #[trigger] self.stage_times@[order@[b] as int].1 by {
                assert(costs@[order@[a] as int] <= costs@[order@[b] as int]);
            }
        }
        let mut i: usize = 0;
        while i < n
            invariant
                n == self.stage_times@.len(),
                order@.len() == n,
                is_index_permutation(order@, n as nat),
                i <= n,
                out@ == header + stage_lines(self.stage_times@, order@.take(i as int)),
            decreases n - i,
        {
            let idx = order[i];
            proof {
                assert(order@.take(i + 1).drop_last() =~= order@.take(i as int));
                assert(order@.take(i + 1).last() == idx);
            }
            push_str(&mut out, "  ");
            push_str(&mut out, self.stage_times[idx].0.as_str());
            push_str(&mut out, ": ");
            push_decimal(&mut out, self.stage_times[idx].1);
            push_str(&mut out, " ms\n");
            proof {
                assert(out@ =~= header + stage_lines(self.stage_times@, order@.take(i as int)) + stage_line(
                    self.stage_times@[idx as int],
                ));
            }
            i += 1;
        }
        proof {
            assert(order@.take(n as int) =~= order@);
            assert(slowest_first(order@, self.stage_times@));
            assert(out@ == report_header(*self, cpu_utilization@, throughput@, frame_rate@) + stage_lines(
                self.stage_times@,
                order@,
            ));
            assert(header.is_prefix_of(out@)) by {
                assert(out@.subrange(0, header.len() as int) =~= header);
            }
        }
        out
    }
}

/// The I/O lines of a report give the bytes read and then the bytes
/// written, each in whole KiB, just before the stage section.
pub proof fn lemma_report_io_lines(r: ProfilingReport, cpu: Seq<char>, throughput: Seq<char>, frame_rate: Seq<char>)
    ensures
        exists|head: Seq<char>|
            report_header(r, cpu, throughput, frame_rate) == head + "I/O read: "@ + decimal_seq(
                (r.io_bytes_read / 1024) as nat,
            ) + " KB\n"@ + "I/O written: "@ + decimal_seq((r.io_bytes_written / 1024) as nat) + " KB\n"@
                + "\nStage Times:\n"@,
{
    let head = "=== Profiling Report ===\n"@
        + "Total elapsed: "@ + decimal_seq(r.total_elapsed_ms as nat) + " ms\n"@
        + "Total CPU time: "@ + decimal_seq(r.total_cpu_time_ms as nat) + " ms\n"@
        + "CPU utilization: "@ + cpu + "%\n"@
        + "Bytes processed: "@ + decimal_seq(r.bytes_processed as nat) + "\n"@
        + "Frames processed: "@ + decimal_seq(r.frames_processed as nat) + "\n"@
        + "Throughput: "@ + throughput + " bytes/sec\n"@
        + "Frame rate: "@ + frame_rate + " fps\n"@
        + "Operations: "@ + decimal_seq(r.operation_count as nat) + "\n"@
        + "Subprocess spawns: "@ + decimal_seq(r.subprocess_count as nat) + "\n"@;
    assert(report_header(r, cpu, throughput, frame_rate) == head + "I/O read: "@ + decimal_seq(
        (r.io_bytes_read / 1024) as nat,
    ) + " KB\n"@ + "I/O written: "@ + decimal_seq((r.io_bytes_written / 1024) as nat) + " KB\n"@
        + "\nStage Times:\n"@);
}

/// Listing one more stage appends its line, `  <stage>: <ms> ms`, to the
/// stage section.
pub proof fn lemma_stage_lines_append(entries: Seq<(String, u64)>, order: Seq<usize>, next: usize)
    ensures
        stage_lines(entries, order.push(next)) == stage_lines(entries, order) + "  "@ + entries[next as int].0@
            + ": "@ + decimal_seq(entries[next as int].1 as nat) + " ms\n"@,
{
    assert(order.push(next).drop_last() =~= order);
    assert(stage_lines(entries, order.push(next)) =~= stage_lines(entries, order) + ("  "@ + entries[next as int].0@
        + ": "@ + decimal_seq(entries[next as int].1 as nat) + " ms\n"@));
}

} // verus!
