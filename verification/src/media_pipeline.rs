//! The media pipeline: its configuration, its stages, and the decisions it
//! takes while a timeline is processed.
//!
//! The stages validate, decode, effects, overlay, audio and encode run in
//! that order and the first failure ends the run.  The work of each stage
//! (file checks, decoding, the audio bake) and the clock belong to the
//! caller; a `PipelineRun` records what each outcome means for the stage
//! metrics, the profiler and the final `PipelineResult`.

use vstd::prelude::*;
use crate::errors::{DriftMetrics, MediaError, MediaErrorCode, MediaResult, PipelineResult, StageMetrics, opt_str_view};
use crate::instrumentation::Profiler;
use crate::audio_graph::{
    AudioGraphConfig, AudioGraphResult, drift_exceeded_error, drift_exceeded_message, f64_bits_exceed_one,
    lemma_audio_graph_validation,
};
use crate::text::push_str;

verus! {

/// Pipeline execution mode.
#[derive(Debug, Clone, Copy, PartialEq, Eq, Structural)]
pub enum PipelineMode {
    /// Normal mode - Rust-only processing, no fallbacks allowed.
    Normal,
    /// Emergency mode - fallbacks permitted with audit trail.
    Emergency,
}

impl Default for PipelineMode {
    fn default() -> (m: PipelineMode)
        ensures
            m == PipelineMode::Normal,
    {
        PipelineMode::Normal
    }
}

/// Configuration for the media pipeline.
#[derive(Debug, Clone)]
pub struct PipelineConfig {
    /// Execution mode.
    pub mode: PipelineMode,
    /// Whether to allow intermediate disk files.
    pub allow_intermediate_files: bool,
    /// Temporary directory for intermediate files (if allowed).
    pub temp_dir: Option<String>,
    /// Maximum execution time in seconds (0 = unlimited).
    pub timeout_secs: u64,
}

impl Default for PipelineConfig {
    fn default() -> (c: PipelineConfig)
        ensures
            c.mode == PipelineMode::Normal,
            !c.allow_intermediate_files,
            c.temp_dir is None,
            c.timeout_secs == 0,
    {
        PipelineConfig { mode: PipelineMode::Normal, allow_intermediate_files: false, temp_dir: None, timeout_secs: 0 }
    }
}

impl PipelineConfig {
    /// Normal mode forbids intermediate files.
    pub fn check_intermediate_files(&self) -> (r: MediaResult<()>)
        ensures
            r is Err <==> (self.mode == PipelineMode::Normal && self.allow_intermediate_files),
            r matches Err(e) ==> e.code == MediaErrorCode::PipelineStageFailed
                && e.message@ == "Intermediate files are not allowed in normal mode"@
                && e.stage is None && e.path is None && !e.fallback_triggered,
    {
        if self.mode == PipelineMode::Normal && self.allow_intermediate_files {
            return Err(
                MediaError::new(
                    MediaErrorCode::PipelineStageFailed,
                    "Intermediate files are not allowed in normal mode",
                ),
            );
        }
        Ok(())
    }
}

/// Stage identifier for tracking pipeline progress.
#[derive(Debug, Clone, Copy, PartialEq, Eq, Structural)]
pub enum PipelineStage {
    Validate,
    Decode,
    Effects,
    Overlay,
    Audio,
    Encode,
}

impl PipelineStage {
    /// The lowercase name of a stage.
    pub open spec fn name(self) -> Seq<char> {
        match self {
            PipelineStage::Validate => "validate"@,
            PipelineStage::Decode => "decode"@,
            PipelineStage::Effects => "effects"@,
            PipelineStage::Overlay => "overlay"@,
            PipelineStage::Audio => "audio"@,
            PipelineStage::Encode => "encode"@,
        }
    }

    pub fn as_str(&self) -> (s: &'static str)
        ensures
            s@ == self.name(),
    {
        match self {
            PipelineStage::Validate => "validate",
            PipelineStage::Decode => "decode",
            PipelineStage::Effects => "effects",
            PipelineStage::Overlay => "overlay",
            PipelineStage::Audio => "audio",
            PipelineStage::Encode => "encode",
        }
    }
}

/// Distinct stages have distinct names.
pub proof fn lemma_stage_names_distinct(a: PipelineStage, b: PipelineStage)
    ensures
        a.name() == b.name() ==> a == b,
{
    reveal_strlit("validate");
    reveal_strlit("decode");
    reveal_strlit("effects");
    reveal_strlit("overlay");
    reveal_strlit("audio");
    reveal_strlit("encode");
    if a.name() == b.name() && a != b {
        assert(a.name().len() == b.name().len());
        assert(a.name()[0] == b.name()[0]);
        assert(a.name()[1] == b.name()[1]);
    }
}

/// A failed stage ends the pipeline.  With emergency fallback enabled both
/// for the run and by the plan, the failure is marked as a fallback with its
/// reason; otherwise the error, tagged with the stage, fails the run.
pub fn handle_stage_error(
    error: MediaError,
    stage: &str,
    metrics: StageMetrics,
    emergency_fallback: bool,
    plan_allows_fallback: bool,
) -> (r: PipelineResult)
    ensures
        !r.success,
        r.output_path is None,
        r.metrics == metrics,
        r.drift == DriftMetrics::zero(),
        r.output_checksum is None,
        r.error matches Some(e) && e.code == error.code && e.message@ == error.message@
            && opt_str_view(e.stage) == Some(stage@) && opt_str_view(e.path) == opt_str_view(error.path)
            && e.fallback_triggered == (error.fallback_triggered || (emergency_fallback && plan_allows_fallback)),
        r.fallback_used == (error.fallback_triggered || (emergency_fallback && plan_allows_fallback)),
        emergency_fallback && plan_allows_fallback ==> opt_str_view(r.fallback_reason) == Some(
            "Stage '"@ + stage@ + "' failed: "@ + error.message@,
        ),
        !(emergency_fallback && plan_allows_fallback) ==> r.fallback_reason is None,
{
    if emergency_fallback && plan_allows_fallback {
        let mut reason = String::from_str("Stage '");
        push_str(&mut reason, stage);
        push_str(&mut reason, "' failed: ");
        push_str(&mut reason, error.message.as_str());
        let fallback_error = error.with_stage(stage).with_fallback();
        PipelineResult::failure(fallback_error).with_metrics(metrics).with_fallback(reason.as_str())
    } else {
        PipelineResult::failure(error.with_stage(stage)).with_metrics(metrics)
    }
}

/// A pipeline run in progress: the stage awaited, the metrics so far, what
/// the audio stage reported, and the profiler the stage times go to.
pub struct PipelineRun {
    /// The stage whose outcome is awaited.
    pub stage: PipelineStage,
    /// Stage metrics recorded so far.
    pub metrics: StageMetrics,
    /// Drift reported by the audio stage (zero until then).
    pub drift: DriftMetrics,
    /// Checksum of the baked audio, if the audio stage produced one.
    pub checksum: Option<String>,
    /// The profiler the stage times go to.
    pub profiler: Profiler,
}

impl PipelineRun {
    /// The profiler the run records into.
    pub open spec fn profiler_view(&self) -> Profiler {
        self.profiler
    }

    /// The run's profiler is consistent.
    pub open spec fn wf(&self) -> bool {
        self.profiler_view().wf()
    }

    /// The stage after `s`.
    pub open spec fn next(s: PipelineStage) -> PipelineStage {
        match s {
            PipelineStage::Validate => PipelineStage::Decode,
            PipelineStage::Decode => PipelineStage::Effects,
            PipelineStage::Effects => PipelineStage::Overlay,
            PipelineStage::Overlay => PipelineStage::Audio,
            _ => PipelineStage::Encode,
        }
    }

    /// Begin a run that records stage times into `profiler`.
    pub fn start(profiler: Profiler) -> (run: PipelineRun)
        requires
            profiler.wf(),
        ensures
            run.wf(),
            run.stage == PipelineStage::Validate,
            run.metrics == StageMetrics::new_spec(),
            run.drift == DriftMetrics::zero(),
            run.checksum is None,
            run.profiler_view() == profiler,
    {
        PipelineRun {
            stage: PipelineStage::Validate,
            metrics: StageMetrics::new(),
            drift: DriftMetrics::new(),
            checksum: None,
            profiler,
        }
    }

    /// The validate, effects or overlay stage passed after `elapsed_ms`: its
    /// time goes to the profiler and the metrics (validation counts towards
    /// decode time until decoding is timed), and the next stage is awaited.
    pub fn stage_passed(&mut self, elapsed_ms: u64)
        requires
            old(self).wf(),
            old(self).stage == PipelineStage::Validate || old(self).stage == PipelineStage::Effects
                || old(self).stage == PipelineStage::Overlay,
        ensures
            final(self).wf(),
            final(self).stage == PipelineRun::next(old(self).stage),
            final(self).metrics == (match old(self).stage {
                PipelineStage::Validate => StageMetrics { decode_ms: elapsed_ms, ..old(self).metrics },
                PipelineStage::Effects => StageMetrics { effects_ms: elapsed_ms, ..old(self).metrics },
                _ => StageMetrics { overlay_ms: elapsed_ms, ..old(self).metrics },
            }),
            final(self).drift == old(self).drift,
            final(self).checksum == old(self).checksum,
            final(self).profiler_view().stages() == old(self).profiler_view().stages().insert(
                old(self).stage.name(),
                elapsed_ms,
            ),
            final(self).profiler_view().cpu_records() == old(self).profiler_view().cpu_records(),
    {
        let name = self.stage.as_str();
        self.profiler.record_stage_time(name, elapsed_ms);
        match self.stage {
            PipelineStage::Validate => {
                self.metrics.decode_ms = elapsed_ms;
                self.stage = PipelineStage::Decode;
            },
            PipelineStage::Effects => {
                self.metrics.effects_ms = elapsed_ms;
                self.stage = PipelineStage::Overlay;
            },
            _ => {
                self.metrics.overlay_ms = elapsed_ms;
                self.stage = PipelineStage::Audio;
            },
        }
    }

    /// Decoding passed after `elapsed_ms`, over `source_bytes` bytes and an
    /// estimated `frame_count` frames; effects are awaited next.
    pub fn decode_passed(&mut self, elapsed_ms: u64, source_bytes: u64, frame_count: u64)
        requires
            old(self).wf(),
            old(self).stage == PipelineStage::Decode,
        ensures
            final(self).wf(),
            final(self).stage == PipelineStage::Effects,
            final(self).metrics == (StageMetrics { decode_ms: elapsed_ms, ..old(self).metrics }),
            final(self).drift == old(self).drift,
            final(self).checksum == old(self).checksum,
            final(self).profiler_view().stages() == old(self).profiler_view().stages().insert(
                "decode"@,
                elapsed_ms,
            ),
            final(self).profiler_view().cpu_records() == old(self).profiler_view().cpu_records(),
    {
        self.profiler.record_stage_time("decode", elapsed_ms);
        self.metrics.decode_ms = elapsed_ms;
        self.profiler.record_bytes_processed(source_bytes);
        self.profiler.record_frames_processed(frame_count);
        self.stage = PipelineStage::Effects;
    }

    /// The audio stage passed after `elapsed_ms`; with an audio graph it
    /// reports the samples processed, the drift and possibly a checksum,
    /// without one there is nothing to report.  Encoding is awaited next.
    pub fn audio_passed(&mut self, elapsed_ms: u64, report: Option<(u64, DriftMetrics, Option<String>)>)
        requires
            old(self).wf(),
            old(self).stage == PipelineStage::Audio,
        ensures
            final(self).wf(),
            final(self).stage == PipelineStage::Encode,
            final(self).metrics == (StageMetrics { audio_ms: elapsed_ms, ..old(self).metrics }),
            final(self).drift == (match report {
                Some(rep) => rep.1,
                None => DriftMetrics::zero(),
            }),
            opt_str_view(final(self).checksum) == (match report {
                Some(rep) => opt_str_view(rep.2),
                None => None,
            }),
            final(self).profiler_view().stages() == old(self).profiler_view().stages().insert(
                "audio"@,
                elapsed_ms,
            ),
            final(self).profiler_view().cpu_records() == old(self).profiler_view().cpu_records(),
    {
        match report {
            Some((samples, drift, checksum)) => {
                self.profiler.record_samples_processed(samples);
                self.drift = drift;
                self.checksum = checksum;
            },
            None => {
                self.drift = DriftMetrics::new();
                self.checksum = None;
            },
        }
        self.profiler.record_stage_time("audio", elapsed_ms);
        self.metrics.audio_ms = elapsed_ms;
        self.stage = PipelineStage::Encode;
    }

    /// The awaited stage failed with `error` after `elapsed_ms`: its time
    /// goes to the profiler and the run ends in a failed result with the
    /// metrics so far.  A failed validation keeps the error as it is; a later
    /// stage names itself as the error's stage.  The profiler is handed back.
    pub fn stage_failed(self, error: MediaError, elapsed_ms: u64) -> (out: (PipelineResult, Profiler))
        requires
            self.wf(),
        ensures
            out.1.wf(),
            out.1.stages() == self.profiler_view().stages().insert(self.stage.name(), elapsed_ms),
            out.1.cpu_records() == self.profiler_view().cpu_records(),
            !out.0.success,
            out.0.output_path is None,
            out.0.metrics == self.metrics,
            out.0.drift == DriftMetrics::zero(),
            out.0.output_checksum is None,
            out.0.fallback_used == error.fallback_triggered,
            out.0.fallback_reason is None,
            out.0.error matches Some(e) && e.code == error.code && e.message@ == error.message@
                && opt_str_view(e.path) == opt_str_view(error.path)
                && e.fallback_triggered == error.fallback_triggered
                && opt_str_view(e.stage) == (if self.stage == PipelineStage::Validate {
                opt_str_view(error.stage)
            } else {
                Some(self.stage.name())
            }),
    {
        let mut profiler = self.profiler;
        let name = self.stage.as_str();
        profiler.record_stage_time(name, elapsed_ms);
        let result = if self.stage == PipelineStage::Validate {
            PipelineResult::failure(error).with_metrics(self.metrics)
        } else {
            handle_stage_error(error, name, self.metrics, false, false)
        };
        (result, profiler)
    }

    /// Encoding passed after `elapsed_ms`, the whole run having taken
    /// `total_ms`: the run ends in a successful result for `output_path`,
    /// carrying the metrics, the audio drift and the audio checksum.  The
    /// profiler is handed back.
    pub fn encode_passed(self, elapsed_ms: u64, total_ms: u64, output_path: &str) -> (out: (PipelineResult, Profiler))
        requires
            self.wf(),
            self.stage == PipelineStage::Encode,
        ensures
            out.1.wf(),
            out.1.stages() == self.profiler_view().stages().insert("encode"@, elapsed_ms),
            out.1.cpu_records() == self.profiler_view().cpu_records(),
            out.0.success,
            opt_str_view(out.0.output_path) == Some(output_path@),
            out.0.metrics == (StageMetrics { encode_ms: elapsed_ms, total_ms, ..self.metrics }),
            out.0.drift == self.drift,
            opt_str_view(out.0.output_checksum) == opt_str_view(self.checksum),
            out.0.error is None,
            !out.0.fallback_used,
            out.0.fallback_reason is None,
    {
        let mut profiler = self.profiler;
        profiler.record_stage_time("encode", elapsed_ms);
        let mut metrics = self.metrics;
        metrics.encode_ms = elapsed_ms;
        metrics.total_ms = total_ms;
        let mut result = PipelineResult::success(output_path).with_metrics(metrics).with_drift(self.drift);
        match &self.checksum {
            Some(cs) => {
                result = result.with_checksum(cs.as_str());
            },
            None => {},
        }
        (result, profiler)
    }
}


/// Why the pipeline's audio runner refuses `graph`, if it does: a graph with
/// inputs must pass every validation check; one without inputs has nothing
/// to mix and needs only an id, a sample rate and a channel count.
pub open spec fn pipeline_graph_error(graph: AudioGraphConfig) -> Option<Seq<char>> {
    if graph.inputs@.len() > 0 {
        if graph.is_valid() {
            None
        } else {
            Some(graph.validation_message())
        }
    } else if graph.graph_id@.len() == 0 {
        Some("Graph ID cannot be empty"@)
    } else if graph.output_sample_rate == 0 {
        Some("Output sample rate cannot be zero"@)
    } else if graph.output_channels == 0 || graph.output_channels > 2 {
        Some("Output channels must be 1 (mono) or 2 (stereo)"@)
    } else {
        None
    }
}

/// The pipeline's audio runner accepts a graph exactly when it has an id, a
/// sample rate, one or two channels and a path for every input (a graph
/// without inputs included); for a graph with inputs that is its validity.
pub proof fn lemma_pipeline_graph_acceptance(graph: AudioGraphConfig)
    ensures
        pipeline_graph_error(graph) is None <==> (graph.graph_id@.len() > 0 && graph.output_sample_rate > 0 && 1
            <= graph.output_channels <= 2 && forall|i: int| 0 <= i < graph.inputs@.len()
            ==> #[trigger] graph.inputs@[i].path@.len() > 0),
        graph.inputs@.len() > 0 ==> (pipeline_graph_error(graph) is None <==> graph.is_valid()),
        graph.graph_id@.len() == 0 ==> pipeline_graph_error(graph) == Some("Graph ID cannot be empty"@),
        graph.graph_id@.len() > 0 && graph.output_sample_rate == 0 ==> pipeline_graph_error(graph) == Some(
            "Output sample rate cannot be zero"@,
        ),
        graph.graph_id@.len() > 0 && graph.output_sample_rate > 0 && !(1 <= graph.output_channels <= 2)
            ==> pipeline_graph_error(graph) == Some("Output channels must be 1 (mono) or 2 (stereo)"@),
{
    lemma_audio_graph_validation(graph);
}

/// Run an audio graph for the pipeline: check it and its drift threshold;
/// the mixing itself is done by the audio bake.  A graph without inputs has
/// nothing to mix and runs successfully once its id, sample rate and
/// channel count are set.  `max_drift_text` is the configured threshold as
/// `Display` renders it, for the message of a threshold above one frame.
pub fn run_audio_graph(config: AudioGraphConfig, max_drift_text: &str) -> (r: AudioGraphResult)
    ensures
        pipeline_graph_error(config) matches Some(m) ==> !r.success && r.output_path@.len() == 0
            && r.samples_processed == 0 && r.drift == DriftMetrics::zero()
            && (r.error matches Some(e) && e.code == MediaErrorCode::AudioGraphInvalidConfig
                && e.message@ == m && e.stage is None && e.path is None && !e.fallback_triggered),
        pipeline_graph_error(config) is None && f64_bits_exceed_one(config.sync.max_drift_frames_bits)
            ==> !r.success && r.output_path@.len() == 0 && r.samples_processed == 0
            && r.drift == DriftMetrics::zero()
            && (r.error matches Some(e) && e.code == MediaErrorCode::AudioDriftExceeded
                && e.message@ == drift_exceeded_message(max_drift_text@)
                && e.stage is None && e.path is None && !e.fallback_triggered),
        pipeline_graph_error(config) is None && !f64_bits_exceed_one(config.sync.max_drift_frames_bits)
            ==> r.success && r.output_path@.len() == 0 && r.samples_processed == 0
            && r.drift == DriftMetrics::zero() && r.error is None,
{
    if config.inputs.len() > 0 {
        return crate::render_graph::process::run_audio_graph(&config, max_drift_text);
    }
    if config.graph_id.as_str().is_empty() {
        return AudioGraphResult::failure(
            MediaError::new(MediaErrorCode::AudioGraphInvalidConfig, "Graph ID cannot be empty"),
        );
    }
    if config.output_sample_rate == 0 {
        return AudioGraphResult::failure(
            MediaError::new(MediaErrorCode::AudioGraphInvalidConfig, "Output sample rate cannot be zero"),
        );
    }
    if config.output_channels == 0 || config.output_channels > 2 {
        return AudioGraphResult::failure(
            MediaError::new(
                MediaErrorCode::AudioGraphInvalidConfig,
                "Output channels must be 1 (mono) or 2 (stereo)",
            ),
        );
    }
    if config.sync.drift_limit_exceeded() {
        return AudioGraphResult::failure(drift_exceeded_error(max_drift_text));
    }
    proof {
        reveal_strlit("");
    }
    AudioGraphResult::success("", 0)
}

} // verus!
