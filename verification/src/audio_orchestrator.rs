//! Audio orchestration between the media pipeline and the audio bake: the
//! record of resample and mix operations, the checks on the execution plan
//! and on the baked artifact, the parity checksum of the artifact, and the
//! orchestrator that times each step into its profiler.

use vstd::prelude::*;
use std::sync::Arc;
use std::time::Instant;
use crate::audio_graph::{AudioGraphConfig, AudioGraphResult};
use crate::errors::{DriftMetrics, MediaError, MediaErrorCode, MediaResult, opt_str_view};
use crate::instrumentation::{CpuTimeRecord, FastCounters, Profiler, instant_now, millis_since};
use crate::text::{decimal_seq, hex_fixed_seq, push_decimal, push_hex_fixed, push_str};

verus! {

/// Record of a resample operation.
#[derive(Debug, Clone)]
pub struct ResampleOp {
    /// Source sample rate.
    pub from_rate: u32,
    /// Destination sample rate.
    pub to_rate: u32,
    /// Input identifier.
    pub input_id: String,
}

/// Record of a mix operation.
#[derive(Debug, Clone, Copy, PartialEq, Eq, Structural)]
pub struct MixOp {
    /// Number of inputs mixed.
    pub input_count: usize,
    /// Mix duration in samples.
    pub duration_samples: u64,
}

/// Result of an audio orchestration with its metrics.
#[derive(Debug, Clone)]
pub struct AudioOrchestrationResult {
    /// Whether orchestration succeeded.
    pub success: bool,
    /// Output artifact path.
    pub output_path: Option<String>,
    /// Total samples processed.
    pub samples_processed: u64,
    /// Output duration in seconds, as `f64` bits.
    pub duration_secs_bits: u64,
    /// Final sample rate.
    pub final_sample_rate: u32,
    /// Drift metrics.
    pub drift: DriftMetrics,
    /// Resample operations performed.
    pub resample_ops: Vec<ResampleOp>,
    /// Mix operations performed.
    pub mix_ops: Vec<MixOp>,
    /// Output file checksum (for parity validation).
    pub output_checksum: Option<String>,
    /// Error if failed.
    pub error: Option<MediaError>,
}

impl AudioOrchestrationResult {
    /// A successful result with no operations recorded yet.
    pub fn success(
        output_path: &str,
        samples_processed: u64,
        duration_secs_bits: u64,
        final_sample_rate: u32,
    ) -> (r: AudioOrchestrationResult)
        ensures
            r.success,
            opt_str_view(r.output_path) == Some(output_path@),
            r.samples_processed == samples_processed,
            r.duration_secs_bits == duration_secs_bits,
            r.final_sample_rate == final_sample_rate,
            r.drift == DriftMetrics::zero(),
            r.resample_ops@.len() == 0,
            r.mix_ops@.len() == 0,
            r.output_checksum is None,
            r.error is None,
    {
        AudioOrchestrationResult {
            success: true,
            output_path: Some(String::from_str(output_path)),
            samples_processed,
            duration_secs_bits,
            final_sample_rate,
            drift: DriftMetrics::new(),
            resample_ops: Vec::new(),
            mix_ops: Vec::new(),
            output_checksum: None,
            error: None,
        }
    }

    /// A failed result carrying `error`.
    pub fn failure(error: MediaError) -> (r: AudioOrchestrationResult)
        ensures
            !r.success,
            r.output_path is None,
            r.samples_processed == 0,
            r.duration_secs_bits == 0,
            r.final_sample_rate == 0,
            r.drift == DriftMetrics::zero(),
            r.resample_ops@.len() == 0,
            r.mix_ops@.len() == 0,
            r.output_checksum is None,
            r.error == Some(error),
    {
        AudioOrchestrationResult {
            success: false,
            output_path: None,
            samples_processed: 0,
            duration_secs_bits: 0,
            final_sample_rate: 0,
            drift: DriftMetrics::new(),
            resample_ops: Vec::new(),
            mix_ops: Vec::new(),
            output_checksum: None,
            error: Some(error),
        }
    }

    /// A step of the orchestration failed with `error`: the run ends there,
    /// in a failed result whose error names the audio stage.
    pub fn step_failed(error: MediaError) -> (r: AudioOrchestrationResult)
        ensures
            !r.success,
            r.output_path is None,
            r.samples_processed == 0,
            r.duration_secs_bits == 0,
            r.final_sample_rate == 0,
            r.drift == DriftMetrics::zero(),
            r.resample_ops@.len() == 0,
            r.mix_ops@.len() == 0,
            r.output_checksum is None,
            r.error matches Some(e) && e.code == error.code && e.message@ == error.message@
                && opt_str_view(e.stage) == Some("audio"@) && opt_str_view(e.path) == opt_str_view(error.path)
                && e.fallback_triggered == error.fallback_triggered,
    {
        AudioOrchestrationResult::failure(error.with_stage("audio"))
    }

    /// The bake itself failed with `message`: a mix failure of the audio
    /// stage ends the run.
    pub fn bake_failed(message: &str) -> (r: AudioOrchestrationResult)
        ensures
            !r.success,
            r.output_path is None,
            r.samples_processed == 0,
            r.duration_secs_bits == 0,
            r.final_sample_rate == 0,
            r.drift == DriftMetrics::zero(),
            r.resample_ops@.len() == 0,
            r.mix_ops@.len() == 0,
            r.output_checksum is None,
            r.error matches Some(e) && e.code == MediaErrorCode::AudioMixFailed && e.message@ == message@
                && opt_str_view(e.stage) == Some("audio"@) && e.path is None && !e.fallback_triggered,
    {
        AudioOrchestrationResult::step_failed(MediaError::new(MediaErrorCode::AudioMixFailed, message))
    }

    /// The bake and its artifact check passed: the result takes the
    /// artifact's checksum, when it could be read, and the estimated drift.
    pub fn completed(self, checksum: Option<String>, drift: DriftMetrics) -> (r: AudioOrchestrationResult)
        ensures
            opt_str_view(r.output_checksum) == (match checksum {
                Some(c) => Some(c@),
                None => opt_str_view(self.output_checksum),
            }),
            r == (AudioOrchestrationResult { output_checksum: r.output_checksum, drift, ..self }),
    {
        let mut r = self;
        match checksum {
            Some(c) => {
                r = r.with_checksum(c.as_str());
            },
            None => {},
        }
        r.with_drift(drift)
    }

    /// Set drift metrics.
    pub fn with_drift(self, drift: DriftMetrics) -> (r: AudioOrchestrationResult)
        ensures
            r == (AudioOrchestrationResult { drift, ..self }),
    {
        AudioOrchestrationResult { drift, ..self }
    }

    /// Add a resample operation record at the end.
    pub fn add_resample_op(self, op: ResampleOp) -> (r: AudioOrchestrationResult)
        ensures
            r.resample_ops@ == self.resample_ops@.push(op),
            r == (AudioOrchestrationResult { resample_ops: r.resample_ops, ..self }),
    {
        let mut r = self;
        r.resample_ops.push(op);
        r
    }

    /// Add a mix operation record at the end.
    pub fn add_mix_op(self, op: MixOp) -> (r: AudioOrchestrationResult)
        ensures
            r.mix_ops@ == self.mix_ops@.push(op),
            r == (AudioOrchestrationResult { mix_ops: r.mix_ops, ..self }),
    {
        let mut r = self;
        r.mix_ops.push(op);
        r
    }

    /// Set the output checksum.
    pub fn with_checksum(self, checksum: &str) -> (r: AudioOrchestrationResult)
        ensures
            opt_str_view(r.output_checksum) == Some(checksum@),
            r == (AudioOrchestrationResult { output_checksum: r.output_checksum, ..self }),
    {
        AudioOrchestrationResult { output_checksum: Some(String::from_str(checksum)), ..self }
    }

    /// The same outcome as an audio graph result: the path (or the empty
    /// path), the sample count and the drift on success; the error (or an
    /// unknown mix failure) otherwise.
    pub fn to_graph_result(&self) -> (r: AudioGraphResult)
        ensures
            r.success == self.success,
            self.success ==> r.output_path@ == (match opt_str_view(self.output_path) {
                Some(p) => p,
                None => Seq::<char>::empty(),
            }) && r.samples_processed == self.samples_processed && r.drift == self.drift
                && r.error is None,
            !self.success ==> r.samples_processed == 0 && r.drift == DriftMetrics::zero()
                && r.output_path@.len() == 0 && (match self.error {
                Some(e) => r.error matches Some(re) && re.code == e.code && re.message@ == e.message@
                    && opt_str_view(re.stage) == opt_str_view(e.stage)
                    && opt_str_view(re.path) == opt_str_view(e.path)
                    && re.fallback_triggered == e.fallback_triggered,
                None => r.error matches Some(re) && re.code == MediaErrorCode::AudioMixFailed
                    && re.message@ == "Unknown error"@ && re.stage is None && re.path is None
                    && !re.fallback_triggered,
            }),
    {
        if self.success {
            let r = match &self.output_path {
                Some(p) => AudioGraphResult::success(p.as_str(), self.samples_processed),
                None => {
                    proof {
                        reveal_strlit("");
                    }
                    AudioGraphResult::success("", self.samples_processed)
                },
            };
            r.with_drift(self.drift)
        } else {
            let error = match &self.error {
                Some(e) => copy_error(e),
                None => MediaError::new(MediaErrorCode::AudioMixFailed, "Unknown error"),
            };
            AudioGraphResult::failure(error)
        }
    }
}

/// A copy of an error.
pub fn copy_error(e: &MediaError) -> (c: MediaError)
    ensures
        c.code == e.code,
        c.message@ == e.message@,
        opt_str_view(c.stage) == opt_str_view(e.stage),
        opt_str_view(c.path) == opt_str_view(e.path),
        c.fallback_triggered == e.fallback_triggered,
{
    MediaError {
        code: e.code,
        message: e.message.clone(),
        stage: match &e.stage {
            Some(s) => Some(s.clone()),
            None => None,
        },
        path: match &e.path {
            Some(p) => Some(p.clone()),
            None => None,
        },
        fallback_triggered: e.fallback_triggered,
    }
}

/// Record the operations an orchestration performs on `config`: one
/// resample (from and to `sample_rate`) per input, in input order, and one
/// mix of all inputs over `total_duration_samples` when there are several.
pub fn record_operations(
    result: AudioOrchestrationResult,
    config: &AudioGraphConfig,
    sample_rate: u32,
    total_duration_samples: u64,
) -> (r: AudioOrchestrationResult)
    ensures
        r.resample_ops@.len() == result.resample_ops@.len() + config.inputs@.len(),
        r.resample_ops@.take(result.resample_ops@.len() as int) == result.resample_ops@,
        forall|i: int| 0 <= i < config.inputs@.len() ==> ({
            let op = #[trigger] r.resample_ops@[result.resample_ops@.len() + i];
            op.from_rate == sample_rate && op.to_rate == sample_rate
                && op.input_id@ == config.inputs@[i].id@
        }),
        r.mix_ops@ == (if config.inputs@.len() > 1 {
            result.mix_ops@.push(MixOp { input_count: config.inputs@.len() as usize, duration_samples: total_duration_samples })
        } else {
            result.mix_ops@
        }),
        r == (AudioOrchestrationResult { resample_ops: r.resample_ops, mix_ops: r.mix_ops, ..result }),
{
    let mut r = result;
    let n = config.inputs.len();
    let mut i: usize = 0;
    while i < n
        invariant
            n == config.inputs@.len(),
            i <= n,
            r.resample_ops@.len() == result.resample_ops@.len() + i,
            r.resample_ops@.take(result.resample_ops@.len() as int) == result.resample_ops@,
            forall|j: int| 0 <= j < i ==> ({
                let op = #[trigger] r.resample_ops@[result.resample_ops@.len() + j];
                op.from_rate == sample_rate && op.to_rate == sample_rate
                    && op.input_id@ == config.inputs@[j].id@
            }),
            r == (AudioOrchestrationResult { resample_ops: r.resample_ops, ..result }),
        decreases n - i,
    {
        let ghost before = r.resample_ops@;
        r = r.add_resample_op(
            ResampleOp { from_rate: sample_rate, to_rate: sample_rate, input_id: config.inputs[i].id.clone() },
        );
        proof {
            assert(r.resample_ops@.take(result.resample_ops@.len() as int) =~= before.take(
                result.resample_ops@.len() as int,
            ));
            assert forall|j: int| 0 <= j < i + 1 implies ({
                let op = #[trigger] r.resample_ops@[result.resample_ops@.len() + j];
                op.from_rate == sample_rate && op.to_rate == sample_rate
                    && op.input_id@ == config.inputs@[j].id@
            }) by {
                if j < i {
                    assert(r.resample_ops@[result.resample_ops@.len() + j] == before[result.resample_ops@.len() + j]);
                }
            }
        }
        i += 1;
    }
    if n > 1 {
        r = r.add_mix_op(MixOp { input_count: n, duration_samples: total_duration_samples });
    }
    r
}

/// The path of an optional (path, exists) pair, empty when absent.
pub open spec fn opt_path(o: Option<(&str, bool)>) -> Seq<char> {
    match o {
        Some(p) => p.0@,
        None => Seq::empty(),
    }
}

/// Check an execution plan before baking: the base video must exist, a
/// non-empty voiceover or music path must exist, the sample rate must be
/// non-zero and the output mono or stereo.  Each audio path comes with
/// whether it exists.
pub fn check_plan(
    base_video_path: &str,
    base_exists: bool,
    voiceover: Option<(&str, bool)>,
    music: Option<(&str, bool)>,
    sample_rate: u32,
    output_channels: u8,
) -> (r: MediaResult<()>)
    ensures
        ({
            let vo_missing = voiceover matches Some(v) && v.0@.len() > 0 && !v.1;
            let music_missing = music matches Some(m) && m.0@.len() > 0 && !m.1;
            &&& !base_exists ==> (r matches Err(e) && e.code == MediaErrorCode::IoFileNotFound
                && e.message@ == "Base video not found: "@ + base_video_path@)
            &&& base_exists && vo_missing ==> (r matches Err(e) && e.code == MediaErrorCode::IoFileNotFound
                && e.message@ == "Voiceover not found: "@ + opt_path(voiceover))
            &&& base_exists && !vo_missing && music_missing ==> (r matches Err(e)
                && e.code == MediaErrorCode::IoFileNotFound
                && e.message@ == "Music not found: "@ + opt_path(music))
            &&& base_exists && !vo_missing && !music_missing && sample_rate == 0 ==> (r matches Err(e)
                && e.code == MediaErrorCode::AudioGraphInvalidConfig
                && e.message@ == "Sample rate cannot be zero"@)
            &&& base_exists && !vo_missing && !music_missing && sample_rate != 0
                && (output_channels == 0 || output_channels > 2) ==> (r matches Err(e)
                && e.code == MediaErrorCode::AudioGraphInvalidConfig
                && e.message@ == "Output channels must be 1 (mono) or 2 (stereo)"@)
            &&& r is Ok <==> (base_exists && !vo_missing && !music_missing && sample_rate != 0
                && 1 <= output_channels <= 2)
        }),
        r matches Err(e) ==> e.stage is None && e.path is None && !e.fallback_triggered,
{
    if !base_exists {
        let mut m = String::from_str("Base video not found: ");
        push_str(&mut m, base_video_path);
        return Err(MediaError::new(MediaErrorCode::IoFileNotFound, m.as_str()));
    }
    match voiceover {
        Some((path, exists)) => {
            if !path.is_empty() && !exists {
                let mut m = String::from_str("Voiceover not found: ");
                push_str(&mut m, path);
                return Err(MediaError::new(MediaErrorCode::IoFileNotFound, m.as_str()));
            }
        },
        None => {},
    }
    match music {
        Some((path, exists)) => {
            if !path.is_empty() && !exists {
                let mut m = String::from_str("Music not found: ");
                push_str(&mut m, path);
                return Err(MediaError::new(MediaErrorCode::IoFileNotFound, m.as_str()));
            }
        },
        None => {},
    }
    if sample_rate == 0 {
        return Err(MediaError::new(MediaErrorCode::AudioGraphInvalidConfig, "Sample rate cannot be zero"));
    }
    if output_channels == 0 || output_channels > 2 {
        return Err(
            MediaError::new(
                MediaErrorCode::AudioGraphInvalidConfig,
                "Output channels must be 1 (mono) or 2 (stereo)",
            ),
        );
    }
    Ok(())
}

/// The smallest size a baked audio artifact may have, in bytes.
pub const MIN_ARTIFACT_BYTES: u64 = 1024;

/// Check the baked artifact at `path`, given whether it exists and its size
/// (or the text of the error met reading it).
pub fn check_output_artifact(path: &str, exists: bool, size: Result<u64, String>) -> (r: MediaResult<()>)
    ensures
        !exists ==> (r matches Err(e) && e.code == MediaErrorCode::AudioMixFailed
            && e.message@ == "Audio output not created: "@ + path@),
        exists ==> (match size {
            Err(msg) => r matches Err(e) && e.code == MediaErrorCode::AudioMixFailed
                && e.message@ == "Cannot read output metadata: "@ + msg@,
            Ok(n) => if n < MIN_ARTIFACT_BYTES {
                r matches Err(e) && e.code == MediaErrorCode::AudioMixFailed
                    && e.message@ == "Audio output too small ("@ + decimal_seq(n as nat) + " bytes)"@
            } else {
                r is Ok
            },
        }),
        r matches Err(e) ==> e.stage is None && e.path is None && !e.fallback_triggered,
{
    if !exists {
        let mut m = String::from_str("Audio output not created: ");
        push_str(&mut m, path);
        return Err(MediaError::new(MediaErrorCode::AudioMixFailed, m.as_str()));
    }
    match size {
        Err(msg) => {
            let mut m = String::from_str("Cannot read output metadata: ");
            push_str(&mut m, msg.as_str());
            Err(MediaError::new(MediaErrorCode::AudioMixFailed, m.as_str()))
        },
        Ok(n) => {
            if n < MIN_ARTIFACT_BYTES {
                let mut m = String::from_str("Audio output too small (");
                push_decimal(&mut m, n);
                push_str(&mut m, " bytes)");
                Err(MediaError::new(MediaErrorCode::AudioMixFailed, m.as_str()))
            } else {
                Ok(())
            }
        },
    }
}

/// The parity hash of a byte string: `h = h * 31 + b` over its bytes,
/// wrapping at 64 bits, from `h = 0`.
pub open spec fn parity_hash(bytes: Seq<u8>) -> u64
    decreases bytes.len(),
{
    if bytes.len() == 0 {
        0
    } else {
        ((parity_hash(bytes.drop_last()) * 31 + bytes.last()) % 0x1_0000_0000_0000_0000) as u64
    }
}

/// The parity hash continued from `h` over `bytes`.
pub open spec fn parity_hash_from(h: u64, bytes: Seq<u8>) -> u64
    decreases bytes.len(),
{
    if bytes.len() == 0 {
        h
    } else {
        ((parity_hash_from(h, bytes.drop_last()) * 31 + bytes.last()) % 0x1_0000_0000_0000_0000) as u64
    }
}

/// Hashing a byte string piece by piece gives its hash: the hash of `a + b`
/// is the hash of `b` continued from the hash of `a`, so the chunks in which
/// a file is read do not matter.
pub proof fn lemma_parity_hash_concat(a: Seq<u8>, b: Seq<u8>)
    ensures
        parity_hash(a + b) == parity_hash_from(parity_hash(a), b),
    decreases b.len(),
{
    if b.len() == 0 {
        assert(a + b =~= a);
    } else {
        lemma_parity_hash_concat(a, b.drop_last());
        assert((a + b).drop_last() =~= a + b.drop_last());
        assert((a + b).last() == b.last());
    }
}

/// The parity checksum of an artifact's bytes: its parity hash as sixteen
/// lower-case hexadecimal digits.
pub fn parity_checksum(bytes: &[u8]) -> (s: String)
    ensures
        s@ == hex_fixed_seq(parity_hash(bytes@) as nat, 16),
{
    let mut hash: u64 = 0;
    let n = bytes.len();
    let mut i: usize = 0;
    while i < n
        invariant
            n == bytes@.len(),
            i <= n,
            hash == parity_hash(bytes@.take(i as int)),
        decreases n - i,
    {
        proof {
            assert(bytes@.take(i + 1).drop_last() =~= bytes@.take(i as int));
        }
        hash = hash.wrapping_mul(31).wrapping_add(bytes[i] as u64);
        proof {
            let p = parity_hash(bytes@.take(i as int));
            let b = bytes@[i as int];
            assert(hash == ((p * 31 + b) % 0x1_0000_0000_0000_0000) as u64) by (nonlinear_arith)
                requires
                    hash == (((p * 31) % 0x1_0000_0000_0000_0000) as u64 + b) % 0x1_0000_0000_0000_0000,
                    0 <= p < 0x1_0000_0000_0000_0000,
                    0 <= b < 256,
            {
                vstd::arithmetic::div_mod::lemma_add_mod_noop(p * 31, b as int, 0x1_0000_0000_0000_0000);
                vstd::arithmetic::div_mod::lemma_mod_twice(b as int, 0x1_0000_0000_0000_0000);
            }
        }
        i += 1;
    }
    proof {
        assert(bytes@.take(n as int) =~= bytes@);
    }
    let mut s = String::new();
    push_hex_fixed(&mut s, hash, 16);
    proof {
        assert(s@ =~= hex_fixed_seq(hash as nat, 16));
    }
    s
}

/// Times one orchestration step; stopping it records the step's CPU time
/// in the orchestrator's profiler, when it has one.
pub struct OrchestratorTimer {
    name: String,
    start: Instant,
}

impl OrchestratorTimer {
    /// The step the timer measures.
    pub closed spec fn step(&self) -> Seq<char> {
        self.name@
    }

    /// Stop the timer: the elapsed milliseconds are recorded under the
    /// step's name in `orchestrator`'s profiler, when it has one, and returned.
    pub fn stop(self, orchestrator: &mut AudioOrchestrator) -> (ms: u64)
        requires
            old(orchestrator).wf(),
        ensures
            final(orchestrator).wf(),
            final(orchestrator).has_profiler() == old(orchestrator).has_profiler(),
            old(orchestrator).has_profiler() ==> final(orchestrator).cpu_records() == old(orchestrator).cpu_records().push(
                final(orchestrator).cpu_records().last(),
            ) && final(orchestrator).cpu_records().last().operation@ == self.step()
                && final(orchestrator).cpu_records().last().duration_ms == ms,
            !old(orchestrator).has_profiler() ==> final(orchestrator).cpu_records() == old(orchestrator).cpu_records(),
            final(orchestrator).stage_times() == old(orchestrator).stage_times(),
            final(orchestrator).profiler_counters() == old(orchestrator).profiler_counters(),
    {
        let ms = millis_since(&self.start);
        orchestrator.record_cpu(self.name.as_str(), ms);
        ms
    }
}

/// Bridges the pipeline and the audio bake, timing each step.
pub struct AudioOrchestrator {
    profiler: Option<Profiler>,
}

impl AudioOrchestrator {
    /// Whether the orchestrator records into a profiler.
    pub closed spec fn has_profiler(&self) -> bool {
        self.profiler is Some
    }

    /// The CPU time records of its profiler (empty without one).
    pub closed spec fn cpu_records(&self) -> Seq<CpuTimeRecord> {
        match self.profiler {
            Some(p) => p.cpu_records(),
            None => Seq::empty(),
        }
    }

    /// The stage times of its profiler (none without one).
    pub closed spec fn stage_times(&self) -> Map<Seq<char>, u64> {
        match self.profiler {
            Some(p) => p.stages(),
            None => Map::empty(),
        }
    }

    /// The counters its profiler forwards to, if it has one.
    pub closed spec fn profiler_counters(&self) -> Option<Arc<FastCounters>> {
        match self.profiler {
            Some(p) => Some(p.counter_set()),
            None => None,
        }
    }

    /// Its profiler, if any, is consistent.
    pub closed spec fn wf(&self) -> bool {
        self.profiler matches Some(p) ==> p.wf()
    }

    /// An orchestrator without profiler.
    pub fn new() -> (o: AudioOrchestrator)
        ensures
            o.wf(),
            !o.has_profiler(),
    {
        AudioOrchestrator { profiler: None }
    }

    /// An orchestrator recording into `profiler`.
    pub fn with_profiler(profiler: Profiler) -> (o: AudioOrchestrator)
        requires
            profiler.wf(),
        ensures
            o.wf(),
            o.has_profiler(),
            o.cpu_records() == profiler.cpu_records(),
            o.stage_times() == profiler.stages(),
            o.profiler_counters() == Some(profiler.counter_set()),
    {
        AudioOrchestrator { profiler: Some(profiler) }
    }

    /// Start timing the step `name`.
    pub fn start_timer(&self, name: &str) -> (t: OrchestratorTimer)
        ensures
            t.step() == name@,
    {
        OrchestratorTimer { name: String::from_str(name), start: instant_now() }
    }

    /// Record `ms` of CPU time for `operation`, when there is a profiler.
    pub fn record_cpu(&mut self, operation: &str, ms: u64)
        requires
            old(self).wf(),
        ensures
            final(self).wf(),
            final(self).has_profiler() == old(self).has_profiler(),
            old(self).has_profiler() ==> final(self).cpu_records() == old(self).cpu_records().push(
                final(self).cpu_records().last(),
            ) && final(self).cpu_records().last().operation@ == operation@
                && final(self).cpu_records().last().duration_ms == ms,
            !old(self).has_profiler() ==> final(self).cpu_records() == old(self).cpu_records(),
            final(self).stage_times() == old(self).stage_times(),
            final(self).profiler_counters() == old(self).profiler_counters(),
    {
        match &mut self.profiler {
            Some(p) => {
                p.record_cpu_time(operation, ms);
                proof {
                    assert(p.cpu_records() =~= old(self).cpu_records().push(p.cpu_records().last()));
                }
            },
            None => {},
        }
    }

    /// Give the profiler back.
    pub fn into_profiler(self) -> (p: Option<Profiler>)
        ensures
            p is Some == self.has_profiler(),
            p matches Some(q) ==> q.cpu_records() == self.cpu_records() && q.stages() == self.stage_times()
                && Some(q.counter_set()) == self.profiler_counters(),
    {
        self.profiler
    }
}

impl Default for AudioOrchestrator {
    fn default() -> (o: AudioOrchestrator)
        ensures
            o.wf(),
            !o.has_profiler(),
    {
        AudioOrchestrator::new()
    }
}

} // verus!
