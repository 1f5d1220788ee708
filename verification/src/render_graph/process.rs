//! Render graph processing: the decisions of the render pipeline and the
//! stand-alone audio graph runner.
//!
//! A render walks through the stages validate, probe, decode, effects,
//! overlay, audio (when the graph has audio) and encode.  The work of each
//! stage, and the clock that times it, belong to the caller; a `RenderRun`
//! holds what the pipeline decides: which stage comes next, what each outcome
//! records in the metrics, and the `RenderResult` a run ends with.

use vstd::prelude::*;
use crate::errors::{DriftMetrics, MediaError, MediaErrorCode, opt_str_view};
use crate::audio_graph::{
    AudioGraphConfig, AudioGraphResult, drift_exceeded_error, drift_exceeded_message, f64_bits_exceed_one,
};
use super::component::ComponentId;
use super::metrics::{RenderMetrics, counters_of, last_error_of, table_has};
use super::reason::ReasonCode;
use super::result::RenderResult;

verus! {

/// Run the audio graph of a render on its own: validate it and check the
/// drift threshold; the mixing itself is done by the audio bake.
/// `max_drift_text` is the configured threshold as `Display` renders it, for
/// the message of a threshold above one frame.
pub fn run_audio_graph(graph: &AudioGraphConfig, max_drift_text: &str) -> (r: AudioGraphResult)
    ensures
        !graph.is_valid() ==> !r.success && r.output_path@.len() == 0 && r.samples_processed == 0
            && r.drift == DriftMetrics::zero()
            && (r.error matches Some(e) && e.code == MediaErrorCode::AudioGraphInvalidConfig
                && e.message@ == graph.validation_message() && e.stage is None && e.path is None
                && !e.fallback_triggered),
        graph.is_valid() && f64_bits_exceed_one(graph.sync.max_drift_frames_bits) ==> !r.success
            && r.output_path@.len() == 0 && r.samples_processed == 0 && r.drift == DriftMetrics::zero()
            && (r.error matches Some(e) && e.code == MediaErrorCode::AudioDriftExceeded
                && e.message@ == drift_exceeded_message(max_drift_text@)
                && e.stage is None && e.path is None && !e.fallback_triggered),
        graph.is_valid() && !f64_bits_exceed_one(graph.sync.max_drift_frames_bits) ==> r.success
            && r.output_path@.len() == 0 && r.samples_processed == 0
            && r.drift == DriftMetrics::zero() && r.error is None,
{
    match graph.validate() {
        Err(e) => {
            return AudioGraphResult::failure(e);
        },
        Ok(()) => {},
    }
    if graph.sync.drift_limit_exceeded() {
        return AudioGraphResult::failure(drift_exceeded_error(max_drift_text));
    }
    proof {
        reveal_strlit("");
    }
    AudioGraphResult::success("", 0)
}

/// The stage a render is waiting on.
#[derive(Debug, Clone, Copy, PartialEq, Eq, Structural)]
pub enum RenderStage {
    /// Validation of the render graph.
    Validate,
    /// Probing of the sources.
    Probe,
    /// Decoding of the sources.
    Decode,
    /// Video effects.
    Effects,
    /// Overlays.
    Overlay,
    /// The audio graph (only for graphs with audio).
    Audio,
    /// Encoding of the output.
    Encode,
}

impl RenderStage {
    /// The position of the stage in the pipeline.
    pub open spec fn index(self) -> int {
        match self {
            RenderStage::Validate => 0,
            RenderStage::Probe => 1,
            RenderStage::Decode => 2,
            RenderStage::Effects => 3,
            RenderStage::Overlay => 4,
            RenderStage::Audio => 5,
            RenderStage::Encode => 6,
        }
    }

    /// The component whose metrics record the stage (validation counts as
    /// part of decoding).
    pub open spec fn component(self) -> ComponentId {
        match self {
            RenderStage::Validate => ComponentId::Decode,
            RenderStage::Probe => ComponentId::Probe,
            RenderStage::Decode => ComponentId::Decode,
            RenderStage::Effects => ComponentId::Effects,
            RenderStage::Overlay => ComponentId::Overlay,
            RenderStage::Audio => ComponentId::Audio,
            RenderStage::Encode => ComponentId::Encode,
        }
    }
}

/// Counters of a stage component: attempted once the run reaches `k`,
/// succeeded (after `ms`) once it has passed it.
pub open spec fn stage_counters(idx: int, k: int, ms: u64) -> (u64, u64, u64, u64) {
    (
        if idx >= k { 1u64 } else { 0u64 },
        if idx > k { 1u64 } else { 0u64 },
        0u64,
        if idx > k { ms } else { 0u64 },
    )
}

/// The stage time field that a stage's outcome sets (none for validation).
pub open spec fn stage_ms(m: RenderMetrics, s: RenderStage) -> u64 {
    match s {
        RenderStage::Validate => 0,
        RenderStage::Probe => m.probe_ms,
        RenderStage::Decode => m.decode_ms,
        RenderStage::Effects => m.effects_ms,
        RenderStage::Overlay => m.overlay_ms,
        RenderStage::Audio => m.audio_ms,
        RenderStage::Encode => m.encode_ms,
    }
}

/// `after` is `before` with the stage time field of `s` set to `ms`; the
/// component table is not compared.
pub open spec fn times_set(before: RenderMetrics, after: RenderMetrics, s: RenderStage, ms: u64) -> bool {
    &&& after.total_ms == before.total_ms
    &&& after.concat_ms == before.concat_ms
    &&& after.source_count == before.source_count
    &&& after.output_size_bytes == before.output_size_bytes
    &&& after.output_duration_secs_bits == before.output_duration_secs_bits
    &&& after.probe_ms == (if s == RenderStage::Probe { ms } else { before.probe_ms })
    &&& after.decode_ms == (if s == RenderStage::Decode { ms } else { before.decode_ms })
    &&& after.effects_ms == (if s == RenderStage::Effects { ms } else { before.effects_ms })
    &&& after.overlay_ms == (if s == RenderStage::Overlay { ms } else { before.overlay_ms })
    &&& after.audio_ms == (if s == RenderStage::Audio { ms } else { before.audio_ms })
    &&& after.encode_ms == (if s == RenderStage::Encode { ms } else { before.encode_ms })
}

/// The state of a render in progress.
pub struct RenderRun {
    /// The stage whose outcome is awaited.
    pub stage: RenderStage,
    /// Whether the graph has an audio stage.
    pub has_audio: bool,
    /// The metrics recorded so far.
    pub metrics: RenderMetrics,
    /// The drift reported by the audio stage (zero until it has passed).
    pub drift: DriftMetrics,
}

impl RenderRun {
    /// The counters every component has at the current stage: each stage
    /// passed so far succeeded once, the current one is attempted, and the
    /// decode component carries the validation attempt as well.
    pub open spec fn expected_counters(&self, id: ComponentId) -> (u64, u64, u64, u64) {
        let idx = self.stage.index();
        let m = self.metrics;
        match id {
            ComponentId::Decode => (
                if idx >= 2 { 2u64 } else { 1u64 },
                if idx > 2 { 1u64 } else { 0u64 },
                0u64,
                if idx > 2 { m.decode_ms } else { 0u64 },
            ),
            ComponentId::Probe => stage_counters(idx, 1, m.probe_ms),
            ComponentId::Effects => stage_counters(idx, 3, m.effects_ms),
            ComponentId::Overlay => stage_counters(idx, 4, m.overlay_ms),
            ComponentId::Audio => if self.has_audio {
                stage_counters(idx, 5, m.audio_ms)
            } else {
                (0u64, 0u64, 0u64, 0u64)
            },
            ComponentId::Encode => stage_counters(idx, 6, m.encode_ms),
            ComponentId::Concat => (0u64, 0u64, 0u64, 0u64),
        }
    }

    /// Whether a component has an entry at the current stage: decoding
    /// from the start (validation counts as part of it), each later stage's
    /// component once the run has reached that stage, audio only for graphs
    /// with audio, concatenation never.
    pub open spec fn expected_present(&self, id: ComponentId) -> bool {
        let idx = self.stage.index();
        match id {
            ComponentId::Decode => true,
            ComponentId::Probe => idx >= 1,
            ComponentId::Effects => idx >= 3,
            ComponentId::Overlay => idx >= 4,
            ComponentId::Audio => self.has_audio && idx >= 5,
            ComponentId::Encode => idx >= 6,
            ComponentId::Concat => false,
        }
    }

    /// The run is consistent: its metrics hold entries for exactly the
    /// components it has reached, with exactly the expected counters, and no
    /// time is recorded for a stage not yet passed.
    pub open spec fn wf(&self) -> bool {
        let idx = self.stage.index();
        let m = self.metrics;
        &&& m.wf()
        &&& forall|id: ComponentId| #[trigger] counters_of(m.components@, id) == self.expected_counters(id)
        &&& forall|id: ComponentId| #[trigger] table_has(m.components@, id) == self.expected_present(id)
        &&& m.total_ms == 0 && m.concat_ms == 0 && m.encode_ms == 0
        &&& m.source_count == 0 && m.output_size_bytes == 0 && m.output_duration_secs_bits == 0
        &&& idx <= 1 ==> m.probe_ms == 0
        &&& idx <= 2 ==> m.decode_ms == 0
        &&& idx <= 3 ==> m.effects_ms == 0
        &&& idx <= 4 ==> m.overlay_ms == 0
        &&& (idx <= 5 || !self.has_audio) ==> m.audio_ms == 0
        &&& !self.has_audio ==> self.stage != RenderStage::Audio
        &&& (idx <= 5 || !self.has_audio) ==> self.drift == DriftMetrics::zero()
    }

    /// Begin a render: the validation stage is awaited, and its attempt is
    /// recorded on the decode component.
    pub fn start(has_audio: bool) -> (run: RenderRun)
        ensures
            run.wf(),
            run.stage == RenderStage::Validate,
            run.has_audio == has_audio,
            run.drift == DriftMetrics::zero(),
    {
        let mut metrics = RenderMetrics::new();
        metrics.record_attempt(ComponentId::Decode);
        let run = RenderRun { stage: RenderStage::Validate, has_audio, metrics, drift: DriftMetrics::new() };
        proof {
            assert forall|id: ComponentId| #[trigger] counters_of(run.metrics.components@, id)
                == run.expected_counters(id) by {
                assert(!super::metrics::table_has(Seq::<(ComponentId, super::component::ComponentMetrics)>::empty(), id));
            }
        }
        run
    }

    /// The validation passed: the probe stage is attempted next.
    pub fn validation_passed(&mut self)
        requires
            old(self).wf(),
            old(self).stage == RenderStage::Validate,
        ensures
            final(self).wf(),
            final(self).stage == RenderStage::Probe,
            final(self).has_audio == old(self).has_audio,
            final(self).drift == old(self).drift,
    {
        self.metrics.record_attempt(ComponentId::Probe);
        self.stage = RenderStage::Probe;
        proof {
            assert forall|id: ComponentId| #[trigger] counters_of(self.metrics.components@, id)
                == self.expected_counters(id) by {
                if id != ComponentId::Probe {
                    assert(counters_of(old(self).metrics.components@, id) == old(self).expected_counters(id));
                } else {
                    assert(counters_of(old(self).metrics.components@, id) == old(self).expected_counters(id));
                }
            }
        }
    }

    /// The stage after `s` in a run with or without audio.
    pub open spec fn next_stage(s: RenderStage, has_audio: bool) -> RenderStage {
        match s {
            RenderStage::Validate => RenderStage::Probe,
            RenderStage::Probe => RenderStage::Decode,
            RenderStage::Decode => RenderStage::Effects,
            RenderStage::Effects => RenderStage::Overlay,
            RenderStage::Overlay => if has_audio { RenderStage::Audio } else { RenderStage::Encode },
            _ => RenderStage::Encode,
        }
    }

    /// The probe, decode, effects or overlay stage passed after
    /// `elapsed_ms`: its success and time are recorded and the next stage
    /// is attempted.
    pub fn stage_passed(&mut self, elapsed_ms: u64)
        requires
            old(self).wf(),
            old(self).stage == RenderStage::Probe || old(self).stage == RenderStage::Decode
                || old(self).stage == RenderStage::Effects || old(self).stage == RenderStage::Overlay,
        ensures
            final(self).wf(),
            final(self).stage == RenderRun::next_stage(old(self).stage, old(self).has_audio),
            final(self).has_audio == old(self).has_audio,
            final(self).drift == old(self).drift,
            stage_ms(final(self).metrics, old(self).stage) == elapsed_ms,
            times_set(old(self).metrics, final(self).metrics, old(self).stage, elapsed_ms),
            forall|id: ComponentId| #[trigger] counters_of(final(self).metrics.components@, id)
                == final(self).expected_counters(id),
    {
        let ghost s0 = self.stage;
        let comp = match self.stage {
            RenderStage::Probe => ComponentId::Probe,
            RenderStage::Decode => ComponentId::Decode,
            RenderStage::Effects => ComponentId::Effects,
            _ => ComponentId::Overlay,
        };
        assert(counters_of(self.metrics.components@, comp) == self.expected_counters(comp));
        self.metrics.record_success(comp, elapsed_ms);
        let next = match self.stage {
            RenderStage::Probe => {
                self.metrics.probe_ms = elapsed_ms;
                RenderStage::Decode
            },
            RenderStage::Decode => {
                self.metrics.decode_ms = elapsed_ms;
                RenderStage::Effects
            },
            RenderStage::Effects => {
                self.metrics.effects_ms = elapsed_ms;
                RenderStage::Overlay
            },
            _ => {
                self.metrics.overlay_ms = elapsed_ms;
                if self.has_audio {
                    RenderStage::Audio
                } else {
                    RenderStage::Encode
                }
            },
        };
        let next_comp = match next {
            RenderStage::Decode => ComponentId::Decode,
            RenderStage::Effects => ComponentId::Effects,
            RenderStage::Overlay => ComponentId::Overlay,
            RenderStage::Audio => ComponentId::Audio,
            _ => ComponentId::Encode,
        };
        let ghost mid = self.metrics.components@;
        assert(counters_of(mid, next_comp) == old(self).expected_counters(next_comp));
        self.metrics.record_attempt(next_comp);
        self.stage = next;
        proof {
            assert forall|id: ComponentId| #[trigger] counters_of(self.metrics.components@, id)
                == self.expected_counters(id) by {
                assert(counters_of(old(self).metrics.components@, id) == old(self).expected_counters(id));
                if id != comp && id != next_comp {
                    assert(counters_of(mid, id) == counters_of(old(self).metrics.components@, id));
                } else if id == comp && id != next_comp {
                    assert(counters_of(mid, id) == counters_of(self.metrics.components@, id));
                }
            }
        }
    }

    /// The audio stage passed after `elapsed_ms` and reported `drift`: its
    /// success, time and drift are recorded and encoding is attempted.
    pub fn audio_passed(&mut self, elapsed_ms: u64, drift: DriftMetrics)
        requires
            old(self).wf(),
            old(self).stage == RenderStage::Audio,
        ensures
            final(self).wf(),
            final(self).stage == RenderStage::Encode,
            final(self).has_audio == old(self).has_audio,
            final(self).drift == drift,
            times_set(old(self).metrics, final(self).metrics, RenderStage::Audio, elapsed_ms),
            forall|id: ComponentId| #[trigger] counters_of(final(self).metrics.components@, id)
                == final(self).expected_counters(id),
    {
        assert(counters_of(self.metrics.components@, ComponentId::Audio)
            == self.expected_counters(ComponentId::Audio));
        self.metrics.record_success(ComponentId::Audio, elapsed_ms);
        self.metrics.audio_ms = elapsed_ms;
        let ghost mid = self.metrics.components@;
        assert(counters_of(mid, ComponentId::Encode) == old(self).expected_counters(ComponentId::Encode));
        self.metrics.record_attempt(ComponentId::Encode);
        self.stage = RenderStage::Encode;
        self.drift = drift;
        proof {
            assert forall|id: ComponentId| #[trigger] counters_of(self.metrics.components@, id)
                == self.expected_counters(id) by {
                assert(counters_of(old(self).metrics.components@, id) == old(self).expected_counters(id));
                if id != ComponentId::Audio && id != ComponentId::Encode {
                    assert(counters_of(mid, id) == counters_of(old(self).metrics.components@, id));
                } else if id == ComponentId::Audio {
                    assert(counters_of(mid, id) == counters_of(self.metrics.components@, id));
                }
            }
        }
    }

    /// The awaited stage failed with `error` after `elapsed_ms`: the fallback
    /// is recorded on its component and the run ends in a failed result.  A
    /// failed validation or probe adds its own reason code; a later stage
    /// names itself as the error's stage.
    pub fn stage_failed(self, error: MediaError, elapsed_ms: u64) -> (r: RenderResult)
        requires
            self.wf(),
        ensures
            !r.success,
            r.artifact_path is None,
            r.drift == DriftMetrics::zero(),
            opt_str_view(r.error_message) == Some(error.message@),
            opt_str_view(r.error_code) == Some(error.code.name()),
            r.fallback_used == error.fallback_triggered,
            r.fallback_components@.len() == 0,
            r.codes() == (match self.stage {
                RenderStage::Validate => seq![error.code.name(), ReasonCode::ValidationFailed.name()],
                RenderStage::Probe => seq![error.code.name(), ReasonCode::ProbeFailed.name()],
                _ => seq![error.code.name()],
            }),
            opt_str_view(r.error_stage) == (match self.stage {
                RenderStage::Validate => opt_str_view(error.stage),
                RenderStage::Probe => opt_str_view(error.stage),
                _ => Some(self.stage.component().name()),
            }),
            r.metrics.wf(),
            times_set(self.metrics, r.metrics, self.stage, elapsed_ms),
            counters_of(r.metrics.components@, self.stage.component()) == ({
                let c = self.expected_counters(self.stage.component());
                (c.0, c.1, (c.2 + 1) as u64, (c.3 + elapsed_ms) as u64)
            }),
            forall|id: ComponentId| id != self.stage.component() ==> #[trigger] counters_of(
                r.metrics.components@,
                id,
            ) == self.expected_counters(id),
            last_error_of(r.metrics.components@, self.stage.component()) == Some(error.code.name()),
            forall|id: ComponentId| #[trigger] table_has(r.metrics.components@, id) == self.expected_present(id),
    {
        let mut metrics = self.metrics;
        let stage = self.stage;
        let comp = match stage {
            RenderStage::Validate => ComponentId::Decode,
            RenderStage::Probe => ComponentId::Probe,
            RenderStage::Decode => ComponentId::Decode,
            RenderStage::Effects => ComponentId::Effects,
            RenderStage::Overlay => ComponentId::Overlay,
            RenderStage::Audio => ComponentId::Audio,
            RenderStage::Encode => ComponentId::Encode,
        };
        assert(counters_of(metrics.components@, comp) == self.expected_counters(comp));
        metrics.record_fallback(comp, elapsed_ms, error.code.as_str());
        proof {
            assert forall|id: ComponentId| id != comp implies #[trigger] counters_of(metrics.components@, id)
                == self.expected_counters(id) by {
                assert(counters_of(self.metrics.components@, id) == self.expected_counters(id));
            }
        }
        match stage {
            RenderStage::Validate => {
                RenderResult::failure(error).with_metrics(metrics).with_reason_code(
                    ReasonCode::ValidationFailed,
                )
            },
            RenderStage::Probe => {
                metrics.probe_ms = elapsed_ms;
                RenderResult::failure(error).with_metrics(metrics).with_reason_code(
                    ReasonCode::ProbeFailed,
                )
            },
            RenderStage::Decode => {
                metrics.decode_ms = elapsed_ms;
                handle_stage_error(error, "decode", metrics)
            },
            RenderStage::Effects => {
                metrics.effects_ms = elapsed_ms;
                handle_stage_error(error, "effects", metrics)
            },
            RenderStage::Overlay => {
                metrics.overlay_ms = elapsed_ms;
                handle_stage_error(error, "overlay", metrics)
            },
            RenderStage::Audio => {
                metrics.audio_ms = elapsed_ms;
                handle_stage_error(error, "audio", metrics)
            },
            RenderStage::Encode => {
                metrics.encode_ms = elapsed_ms;
                handle_stage_error(error, "encode", metrics)
            },
        }
    }

    /// Encoding produced `artifact_path` after `elapsed_ms`, the whole
    /// render having taken `total_ms`: the run ends in a successful result
    /// carrying the metrics and the audio drift.  Fallbacks recorded on the
    /// way would mark it as a success with fallback; a run records none.
    pub fn encode_passed(self, artifact_path: &str, elapsed_ms: u64, total_ms: u64) -> (r: RenderResult)
        requires
            self.wf(),
            self.stage == RenderStage::Encode,
        ensures
            r.success,
            opt_str_view(r.artifact_path) == Some(artifact_path@),
            r.drift == self.drift,
            r.codes() == seq![ReasonCode::Success.name()],
            r.error_message is None && r.error_code is None && r.error_stage is None,
            !r.fallback_used,
            r.fallback_components@.len() == 0,
            r.clean_success(),
            r.metrics.wf(),
            r.metrics.total_ms == total_ms,
            r.metrics.encode_ms == elapsed_ms,
            times_set(
                self.metrics,
                RenderMetrics { total_ms: self.metrics.total_ms, ..r.metrics },
                RenderStage::Encode,
                elapsed_ms,
            ),
            counters_of(r.metrics.components@, ComponentId::Encode) == (1u64, 1u64, 0u64, elapsed_ms),
            forall|id: ComponentId| id != ComponentId::Encode ==> #[trigger] counters_of(
                r.metrics.components@,
                id,
            ) == self.expected_counters(id),
            forall|id: ComponentId| #[trigger] table_has(r.metrics.components@, id) == self.expected_present(id),
    {
        let mut metrics = self.metrics;
        assert(counters_of(metrics.components@, ComponentId::Encode)
            == self.expected_counters(ComponentId::Encode));
        metrics.record_success(ComponentId::Encode, elapsed_ms);
        metrics.encode_ms = elapsed_ms;
        metrics.total_ms = total_ms;
        proof {
            assert forall|id: ComponentId| id != ComponentId::Encode implies #[trigger] counters_of(
                metrics.components@,
                id,
            ) == self.expected_counters(id) by {
                assert(counters_of(self.metrics.components@, id) == self.expected_counters(id));
            }
            lemma_no_fallback_recorded(metrics, self.has_audio);
        }
        let mut result = RenderResult::success(artifact_path).with_metrics(metrics).with_drift(self.drift);
        if result.metrics.has_any_fallback() {
            let fallback_components = result.metrics.fallback_components();
            result = result.with_fallback(fallback_components).with_reason_code(
                ReasonCode::SuccessWithFallback,
            );
        }
        result
    }
}

/// Metrics whose every component has zero fallbacks record no fallback.
proof fn lemma_no_fallback_recorded(m: RenderMetrics, has_audio: bool)
    requires
        m.wf(),
        forall|id: ComponentId| (#[trigger] counters_of(m.components@, id)).2 == 0,
    ensures
        !m.any_fallback(),
{
    if m.any_fallback() {
        let i = choose|i: int| 0 <= i < m.components@.len() && m.components@[i].1.fallbacks > 0;
        let id = m.components@[i].0;
        assert(super::metrics::table_has(m.components@, id));
        let k = choose|k: int| 0 <= k < m.components@.len() && m.components@[k].0 == id;
        assert(k == i);
        assert(counters_of(m.components@, id).2 == 0);
    }
}

/// A failed stage ends the render: the error, tagged with the stage, becomes
/// a failed result carrying the metrics.
fn handle_stage_error(error: MediaError, stage: &str, metrics: RenderMetrics) -> (r: RenderResult)
    ensures
        !r.success,
        r.artifact_path is None,
        r.metrics == metrics,
        r.drift == DriftMetrics::zero(),
        r.codes() == seq![error.code.name()],
        opt_str_view(r.error_message) == Some(error.message@),
        opt_str_view(r.error_code) == Some(error.code.name()),
        opt_str_view(r.error_stage) == Some(stage@),
        r.fallback_used == error.fallback_triggered,
        r.fallback_components@.len() == 0,
{
    RenderResult::failure(error.with_stage(stage)).with_metrics(metrics)
}

/// Which components a render's metrics hold follows from how far it got:
/// decoding always (validation is recorded on it), probing once validation
/// passed, effects, overlay and encode once the run reached them, audio
/// only for a graph with audio once the audio stage was reached, and never
/// concatenation.  While validation is awaited, decoding has exactly one
/// attempt and nothing else.
pub proof fn lemma_render_entries_follow_stage(run: RenderRun)
    requires
        run.wf(),
    ensures
        table_has(run.metrics.components@, ComponentId::Decode),
        !table_has(run.metrics.components@, ComponentId::Concat),
        table_has(run.metrics.components@, ComponentId::Probe) <==> run.stage != RenderStage::Validate,
        table_has(run.metrics.components@, ComponentId::Effects) <==> (run.stage == RenderStage::Effects || run.stage
            == RenderStage::Overlay || run.stage == RenderStage::Audio || run.stage == RenderStage::Encode),
        table_has(run.metrics.components@, ComponentId::Overlay) <==> (run.stage == RenderStage::Overlay || run.stage
            == RenderStage::Audio || run.stage == RenderStage::Encode),
        table_has(run.metrics.components@, ComponentId::Audio) <==> (run.has_audio && (run.stage == RenderStage::Audio
            || run.stage == RenderStage::Encode)),
        table_has(run.metrics.components@, ComponentId::Encode) <==> run.stage == RenderStage::Encode,
        run.stage == RenderStage::Validate ==> counters_of(run.metrics.components@, ComponentId::Decode) == (
            1u64,
            0u64,
            0u64,
            0u64,
        ),
{
    assert(table_has(run.metrics.components@, ComponentId::Decode) == run.expected_present(ComponentId::Decode));
    assert(table_has(run.metrics.components@, ComponentId::Concat) == run.expected_present(ComponentId::Concat));
    assert(table_has(run.metrics.components@, ComponentId::Probe) == run.expected_present(ComponentId::Probe));
    assert(table_has(run.metrics.components@, ComponentId::Effects) == run.expected_present(ComponentId::Effects));
    assert(table_has(run.metrics.components@, ComponentId::Overlay) == run.expected_present(ComponentId::Overlay));
    assert(table_has(run.metrics.components@, ComponentId::Audio) == run.expected_present(ComponentId::Audio));
    assert(table_has(run.metrics.components@, ComponentId::Encode) == run.expected_present(ComponentId::Encode));
    assert(counters_of(run.metrics.components@, ComponentId::Decode) == run.expected_counters(ComponentId::Decode));
}

} // verus!
