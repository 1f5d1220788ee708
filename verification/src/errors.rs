//! Typed media-domain errors, stage timings and pipeline results.
//!
//! Every error carries a machine-readable [`MediaErrorCode`] and a
//! human-readable message, optionally the stage and the path involved, and
//! whether it triggered the emergency fallback.

use vstd::prelude::*;
use crate::text::push_str;

verus! {

/// Machine-readable error codes for media pipeline operations.
#[derive(Debug, Clone, Copy, PartialEq, Eq, Structural)]
pub enum MediaErrorCode {
    DecodeFailed,
    DecodeTimeout,
    DecodeCorruptStream,
    DecodeUnsupportedCodec,
    EncodeFailed,
    EncodeTimeout,
    EncodeOutOfMemory,
    EffectsFailed,
    OverlayInvalidBounds,
    OverlayMissingAsset,
    OverlayBlendFailed,
    AudioResampleFailed,
    AudioMixFailed,
    AudioDriftExceeded,
    AudioSyncFailed,
    AudioGraphInvalidConfig,
    TimelineInvalidPlan,
    TimelineEmptyTracks,
    TimelineOverlappingSegments,
    TimelineInvalidTimebase,
    PipelineStageFailed,
    PipelineCancelled,
    PipelineResourceExhausted,
    InitFailed,
    IoFileNotFound,
    IoPermissionDenied,
    IoDiskFull,
    EmergencyFallbackTriggered,
    CacheOpenFailed,
    CacheWriteFailed,
    CacheEvictionFailed,
    CacheClearFailed,
    CacheFlushFailed,
    CacheMaintenanceFailed,
    CacheKeyGenerationFailed,
}

impl MediaErrorCode {
    /// The canonical upper-snake-case name of a code.
    pub open spec fn name(self) -> Seq<char> {
        match self {
            MediaErrorCode::DecodeFailed => "DECODE_FAILED"@,
            MediaErrorCode::DecodeTimeout => "DECODE_TIMEOUT"@,
            MediaErrorCode::DecodeCorruptStream => "DECODE_CORRUPT_STREAM"@,
            MediaErrorCode::DecodeUnsupportedCodec => "DECODE_UNSUPPORTED_CODEC"@,
            MediaErrorCode::EncodeFailed => "ENCODE_FAILED"@,
            MediaErrorCode::EncodeTimeout => "ENCODE_TIMEOUT"@,
            MediaErrorCode::EncodeOutOfMemory => "ENCODE_OUT_OF_MEMORY"@,
            MediaErrorCode::EffectsFailed => "EFFECTS_FAILED"@,
            MediaErrorCode::OverlayInvalidBounds => "OVERLAY_INVALID_BOUNDS"@,
            MediaErrorCode::OverlayMissingAsset => "OVERLAY_MISSING_ASSET"@,
            MediaErrorCode::OverlayBlendFailed => "OVERLAY_BLEND_FAILED"@,
            MediaErrorCode::AudioResampleFailed => "AUDIO_RESAMPLE_FAILED"@,
            MediaErrorCode::AudioMixFailed => "AUDIO_MIX_FAILED"@,
            MediaErrorCode::AudioDriftExceeded => "AUDIO_DRIFT_EXCEEDED"@,
            MediaErrorCode::AudioSyncFailed => "AUDIO_SYNC_FAILED"@,
            MediaErrorCode::AudioGraphInvalidConfig => "AUDIO_GRAPH_INVALID_CONFIG"@,
            MediaErrorCode::TimelineInvalidPlan => "TIMELINE_INVALID_PLAN"@,
            MediaErrorCode::TimelineEmptyTracks => "TIMELINE_EMPTY_TRACKS"@,
            MediaErrorCode::TimelineOverlappingSegments => "TIMELINE_OVERLAPPING_SEGMENTS"@,
            MediaErrorCode::TimelineInvalidTimebase => "TIMELINE_INVALID_TIMEBASE"@,
            MediaErrorCode::PipelineStageFailed => "PIPELINE_STAGE_FAILED"@,
            MediaErrorCode::PipelineCancelled => "PIPELINE_CANCELLED"@,
            MediaErrorCode::PipelineResourceExhausted => "PIPELINE_RESOURCE_EXHAUSTED"@,
            MediaErrorCode::InitFailed => "INIT_FAILED"@,
            MediaErrorCode::IoFileNotFound => "IO_FILE_NOT_FOUND"@,
            MediaErrorCode::IoPermissionDenied => "IO_PERMISSION_DENIED"@,
            MediaErrorCode::IoDiskFull => "IO_DISK_FULL"@,
            MediaErrorCode::EmergencyFallbackTriggered => "EMERGENCY_FALLBACK_TRIGGERED"@,
            MediaErrorCode::CacheOpenFailed => "CACHE_OPEN_FAILED"@,
            MediaErrorCode::CacheWriteFailed => "CACHE_WRITE_FAILED"@,
            MediaErrorCode::CacheEvictionFailed => "CACHE_EVICTION_FAILED"@,
            MediaErrorCode::CacheClearFailed => "CACHE_CLEAR_FAILED"@,
            MediaErrorCode::CacheFlushFailed => "CACHE_FLUSH_FAILED"@,
            MediaErrorCode::CacheMaintenanceFailed => "CACHE_MAINTENANCE_FAILED"@,
            MediaErrorCode::CacheKeyGenerationFailed => "CACHE_KEY_GENERATION_FAILED"@,
        }
    }

    /// Returns the static string representation of the error code.
    pub fn as_str(&self) -> (s: &'static str)
        ensures
            s@ == self.name(),
    {
        match self {
            MediaErrorCode::DecodeFailed => "DECODE_FAILED",
            MediaErrorCode::DecodeTimeout => "DECODE_TIMEOUT",
            MediaErrorCode::DecodeCorruptStream => "DECODE_CORRUPT_STREAM",
            MediaErrorCode::DecodeUnsupportedCodec => "DECODE_UNSUPPORTED_CODEC",
            MediaErrorCode::EncodeFailed => "ENCODE_FAILED",
            MediaErrorCode::EncodeTimeout => "ENCODE_TIMEOUT",
            MediaErrorCode::EncodeOutOfMemory => "ENCODE_OUT_OF_MEMORY",
            MediaErrorCode::EffectsFailed => "EFFECTS_FAILED",
            MediaErrorCode::OverlayInvalidBounds => "OVERLAY_INVALID_BOUNDS",
            MediaErrorCode::OverlayMissingAsset => "OVERLAY_MISSING_ASSET",
            MediaErrorCode::OverlayBlendFailed => "OVERLAY_BLEND_FAILED",
            MediaErrorCode::AudioResampleFailed => "AUDIO_RESAMPLE_FAILED",
            MediaErrorCode::AudioMixFailed => "AUDIO_MIX_FAILED",
            MediaErrorCode::AudioDriftExceeded => "AUDIO_DRIFT_EXCEEDED",
            MediaErrorCode::AudioSyncFailed => "AUDIO_SYNC_FAILED",
            MediaErrorCode::AudioGraphInvalidConfig => "AUDIO_GRAPH_INVALID_CONFIG",
            MediaErrorCode::TimelineInvalidPlan => "TIMELINE_INVALID_PLAN",
            MediaErrorCode::TimelineEmptyTracks => "TIMELINE_EMPTY_TRACKS",
            MediaErrorCode::TimelineOverlappingSegments => "TIMELINE_OVERLAPPING_SEGMENTS",
            MediaErrorCode::TimelineInvalidTimebase => "TIMELINE_INVALID_TIMEBASE",
            MediaErrorCode::PipelineStageFailed => "PIPELINE_STAGE_FAILED",
            MediaErrorCode::PipelineCancelled => "PIPELINE_CANCELLED",
            MediaErrorCode::PipelineResourceExhausted => "PIPELINE_RESOURCE_EXHAUSTED",
            MediaErrorCode::InitFailed => "INIT_FAILED",
            MediaErrorCode::IoFileNotFound => "IO_FILE_NOT_FOUND",
            MediaErrorCode::IoPermissionDenied => "IO_PERMISSION_DENIED",
            MediaErrorCode::IoDiskFull => "IO_DISK_FULL",
            MediaErrorCode::EmergencyFallbackTriggered => "EMERGENCY_FALLBACK_TRIGGERED",
            MediaErrorCode::CacheOpenFailed => "CACHE_OPEN_FAILED",
            MediaErrorCode::CacheWriteFailed => "CACHE_WRITE_FAILED",
            MediaErrorCode::CacheEvictionFailed => "CACHE_EVICTION_FAILED",
            MediaErrorCode::CacheClearFailed => "CACHE_CLEAR_FAILED",
            MediaErrorCode::CacheFlushFailed => "CACHE_FLUSH_FAILED",
            MediaErrorCode::CacheMaintenanceFailed => "CACHE_MAINTENANCE_FAILED",
            MediaErrorCode::CacheKeyGenerationFailed => "CACHE_KEY_GENERATION_FAILED",
        }
    }
}

/// Distinct error codes have distinct names.
pub proof fn lemma_error_code_names_distinct(a: MediaErrorCode, b: MediaErrorCode)
    ensures
        a.name() == b.name() ==> a == b,
{
    reveal_strlit("DECODE_FAILED");
    reveal_strlit("DECODE_TIMEOUT");
    reveal_strlit("DECODE_CORRUPT_STREAM");
    reveal_strlit("DECODE_UNSUPPORTED_CODEC");
    reveal_strlit("ENCODE_FAILED");
    reveal_strlit("ENCODE_TIMEOUT");
    reveal_strlit("ENCODE_OUT_OF_MEMORY");
    reveal_strlit("EFFECTS_FAILED");
    reveal_strlit("OVERLAY_INVALID_BOUNDS");
    reveal_strlit("OVERLAY_MISSING_ASSET");
    reveal_strlit("OVERLAY_BLEND_FAILED");
    reveal_strlit("AUDIO_RESAMPLE_FAILED");
    reveal_strlit("AUDIO_MIX_FAILED");
    reveal_strlit("AUDIO_DRIFT_EXCEEDED");
    reveal_strlit("AUDIO_SYNC_FAILED");
    reveal_strlit("AUDIO_GRAPH_INVALID_CONFIG");
    reveal_strlit("TIMELINE_INVALID_PLAN");
    reveal_strlit("TIMELINE_EMPTY_TRACKS");
    reveal_strlit("TIMELINE_OVERLAPPING_SEGMENTS");
    reveal_strlit("TIMELINE_INVALID_TIMEBASE");
    reveal_strlit("PIPELINE_STAGE_FAILED");
    reveal_strlit("PIPELINE_CANCELLED");
    reveal_strlit("PIPELINE_RESOURCE_EXHAUSTED");
    reveal_strlit("INIT_FAILED");
    reveal_strlit("IO_FILE_NOT_FOUND");
    reveal_strlit("IO_PERMISSION_DENIED");
    reveal_strlit("IO_DISK_FULL");
    reveal_strlit("EMERGENCY_FALLBACK_TRIGGERED");
    reveal_strlit("CACHE_OPEN_FAILED");
    reveal_strlit("CACHE_WRITE_FAILED");
    reveal_strlit("CACHE_EVICTION_FAILED");
    reveal_strlit("CACHE_CLEAR_FAILED");
    reveal_strlit("CACHE_FLUSH_FAILED");
    reveal_strlit("CACHE_MAINTENANCE_FAILED");
    reveal_strlit("CACHE_KEY_GENERATION_FAILED");
    if a.name() == b.name() && a != b {
        assert(a.name().len() == b.name().len());
        assert(a.name()[0] == b.name()[0]);
        assert(a.name()[1] == b.name()[1]);
        assert(a.name()[2] == b.name()[2]);
        assert(a.name()[3] == b.name()[3]);
        assert(a.name()[4] == b.name()[4]);
        assert(a.name()[5] == b.name()[5]);
        assert(a.name()[6] == b.name()[6]);
        assert(a.name()[7] == b.name()[7]);
        assert(a.name()[8] == b.name()[8]);
        assert(a.name()[9] == b.name()[9]);
    }
}

/// A structured media pipeline error with reason code and context.
#[derive(Debug, Clone)]
pub struct MediaError {
    /// Machine-readable error code.
    pub code: MediaErrorCode,
    /// Human-readable error message.
    pub message: String,
    /// Stage where the error occurred (e.g. "decode", "overlay", "audio").
    pub stage: Option<String>,
    /// File path related to the error.
    pub path: Option<String>,
    /// Whether this error triggered emergency fallback.
    pub fallback_triggered: bool,
}

/// The view of an optional string as an optional character sequence.
pub open spec fn opt_str_view(o: Option<String>) -> Option<Seq<char>> {
    match o {
        Some(s) => Some(s@),
        None => None,
    }
}

/// The text that `[code] message (stage: s) (path: p) [FALLBACK_TRIGGERED]`
/// renders to, each optional part present only when set.
pub open spec fn media_error_display(
    code: MediaErrorCode,
    message: Seq<char>,
    stage: Option<Seq<char>>,
    path: Option<Seq<char>>,
    fallback: bool,
) -> Seq<char> {
    let head = "["@ + code.name() + "] "@ + message;
    let with_stage = match stage {
        Some(s) => head + " (stage: "@ + s + ")"@,
        None => head,
    };
    let with_path = match path {
        Some(p) => with_stage + " (path: "@ + p + ")"@,
        None => with_stage,
    };
    if fallback {
        with_path + " [FALLBACK_TRIGGERED]"@
    } else {
        with_path
    }
}

/// How an error is written: `[CODE] message`, then ` (stage: s)` when a
/// stage is set, ` (path: p)` when a path is set, and ` [FALLBACK_TRIGGERED]`
/// when the fallback ran, each part in that order.
pub proof fn lemma_display_parts(
    code: MediaErrorCode,
    message: Seq<char>,
    stage: Option<Seq<char>>,
    path: Option<Seq<char>>,
)
    ensures
        media_error_display(code, message, None, None, false) == "["@ + code.name() + "] "@ + message,
        stage matches Some(s) ==> media_error_display(code, message, stage, None, false) == media_error_display(
            code,
            message,
            None,
            None,
            false,
        ) + " (stage: "@ + s + ")"@,
        path matches Some(p) ==> media_error_display(code, message, stage, path, false) == media_error_display(
            code,
            message,
            stage,
            None,
            false,
        ) + " (path: "@ + p + ")"@,
        media_error_display(code, message, stage, path, true) == media_error_display(
            code,
            message,
            stage,
            path,
            false,
        ) + " [FALLBACK_TRIGGERED]"@,
{
}

impl MediaError {
    /// Create a new media error with the given code and message.
    pub fn new(code: MediaErrorCode, message: &str) -> (e: MediaError)
        ensures
            e.code == code,
            e.message@ == message@,
            e.stage is None,
            e.path is None,
            !e.fallback_triggered,
    {
        MediaError {
            code,
            message: String::from_str(message),
            stage: None,
            path: None,
            fallback_triggered: false,
        }
    }

    /// Set the stage where the error occurred.
    pub fn with_stage(self, stage: &str) -> (e: MediaError)
        ensures
            e.code == self.code,
            e.message@ == self.message@,
            opt_str_view(e.stage) == Some(stage@),
            opt_str_view(e.path) == opt_str_view(self.path),
            e.fallback_triggered == self.fallback_triggered,
    {
        MediaError { stage: Some(String::from_str(stage)), ..self }
    }

    /// Set the file path related to the error.
    pub fn with_path(self, path: &str) -> (e: MediaError)
        ensures
            e.code == self.code,
            e.message@ == self.message@,
            opt_str_view(e.stage) == opt_str_view(self.stage),
            opt_str_view(e.path) == Some(path@),
            e.fallback_triggered == self.fallback_triggered,
    {
        MediaError { path: Some(String::from_str(path)), ..self }
    }

    /// Mark this error as having triggered emergency fallback.
    pub fn with_fallback(self) -> (e: MediaError)
        ensures
            e.code == self.code,
            e.message@ == self.message@,
            opt_str_view(e.stage) == opt_str_view(self.stage),
            opt_str_view(e.path) == opt_str_view(self.path),
            e.fallback_triggered,
    {
        MediaError { fallback_triggered: true, ..self }
    }

    /// The human-readable rendering of the error (what `Display` prints).
    pub fn to_display_string(&self) -> (s: String)
        ensures
            s@ == media_error_display(
                self.code,
                self.message@,
                opt_str_view(self.stage),
                opt_str_view(self.path),
                self.fallback_triggered,
            ),
    {
        let mut out = String::new();
        push_str(&mut out, "[");
        push_str(&mut out, self.code.as_str());
        push_str(&mut out, "] ");
        push_str(&mut out, self.message.as_str());
        let ghost head = out@;
        assert(head =~= "["@ + self.code.name() + "] "@ + self.message@);
        match &self.stage {
            Some(stage) => {
                push_str(&mut out, " (stage: ");
                push_str(&mut out, stage.as_str());
                push_str(&mut out, ")");
                assert(out@ =~= head + " (stage: "@ + stage@ + ")"@);
            },
            None => {},
        }
        let ghost with_stage = out@;
        match &self.path {
            Some(path) => {
                push_str(&mut out, " (path: ");
                push_str(&mut out, path.as_str());
                push_str(&mut out, ")");
                assert(out@ =~= with_stage + " (path: "@ + path@ + ")"@);
            },
            None => {},
        }
        if self.fallback_triggered {
            push_str(&mut out, " [FALLBACK_TRIGGERED]");
        }
        out
    }
}

/// An error converts to its display text.
impl From<MediaError> for String {
    fn from(err: MediaError) -> (s: String)
        ensures
            s@ == media_error_display(
                err.code,
                err.message@,
                opt_str_view(err.stage),
                opt_str_view(err.path),
                err.fallback_triggered,
            ),
    {
        err.to_display_string()
    }
}

/// The conversion is described by the `ensures` of its `from` alone.
impl vstd::std_specs::convert::FromSpecImpl<MediaError> for String {
    open spec fn obeys_from_spec() -> bool {
        false
    }

    open spec fn from_spec(v: MediaError) -> String {
        vstd::pervasive::arbitrary()
    }
}

/// Result type for media pipeline operations.
pub type MediaResult<T> = Result<T, MediaError>;

/// Stage-level timing metrics for pipeline execution (milliseconds).
#[derive(Debug, Clone, Copy, PartialEq, Eq, Structural)]
pub struct StageMetrics {
    pub decode_ms: u64,
    pub effects_ms: u64,
    pub overlay_ms: u64,
    pub encode_ms: u64,
    pub audio_ms: u64,
    pub total_ms: u64,
}

impl StageMetrics {
    /// The sum of the five stage times (the total is not part of it).
    pub open spec fn spec_stage_sum(self) -> int {
        self.decode_ms + self.effects_ms + self.overlay_ms + self.encode_ms + self.audio_ms
    }

    /// Create a new, all-zero metrics instance.
    pub fn new() -> (m: StageMetrics)
        ensures
            m == (StageMetrics {
                decode_ms: 0,
                effects_ms: 0,
                overlay_ms: 0,
                encode_ms: 0,
                audio_ms: 0,
                total_ms: 0,
            }),
    {
        StageMetrics {
            decode_ms: 0,
            effects_ms: 0,
            overlay_ms: 0,
            encode_ms: 0,
            audio_ms: 0,
            total_ms: 0,
        }
    }

    /// Sum of all stage times.
    pub fn stage_sum(&self) -> (s: u64)
        requires
            self.spec_stage_sum() <= u64::MAX,
        ensures
            s == self.spec_stage_sum(),
    {
        self.decode_ms + self.effects_ms + self.overlay_ms + self.encode_ms + self.audio_ms
    }
}

/// Whether the `f64` whose bit pattern is `bits` compares at most `1.0`.
///
/// With the sign bit clear, bit patterns of non-NaN doubles are ordered as
/// the numbers are, so `0.0` to `1.0` are the patterns up to that of `1.0`;
/// with the sign bit set, every pattern up to that of negative infinity is a
/// negative number (or `-0.0`); the patterns above infinity, of either sign,
/// are NaN, which compares with nothing.
pub open spec fn f64_bits_at_most_one(bits: u64) -> bool {
    bits <= 0x3FF0_0000_0000_0000 || (0x8000_0000_0000_0000 <= bits && bits <= 0xFFF0_0000_0000_0000)
}

/// Drift correction metrics for audio/video sync.
///
/// The three real-valued quantities are held as the IEEE-754 binary64 bit
/// patterns of the `f64` values they stand for (`f64::to_bits`); the library
/// carries them unchanged and never computes with them.  A zero bit pattern is
/// `0.0`.
#[derive(Debug, Clone, Copy, PartialEq, Eq, Structural)]
pub struct DriftMetrics {
    /// Maximum drift observed (in frames), as `f64` bits.
    pub drift_frames_max_bits: u64,
    /// 95th percentile drift (in frames), as `f64` bits.
    pub drift_frames_p95_bits: u64,
    /// Number of drift corrections applied.
    pub drift_corrections_count: u32,
    /// Average resample ratio used for corrections, as `f64` bits.
    pub resample_ratio_avg_bits: u64,
}

impl DriftMetrics {
    /// The empty drift record: every quantity zero.
    pub open spec fn zero() -> DriftMetrics {
        DriftMetrics {
            drift_frames_max_bits: 0,
            drift_frames_p95_bits: 0,
            drift_corrections_count: 0,
            resample_ratio_avg_bits: 0,
        }
    }

    /// Whether the maximum drift is within one frame (`drift_frames_max <= 1.0`).
    pub open spec fn acceptable(&self) -> bool {
        f64_bits_at_most_one(self.drift_frames_max_bits)
    }

    /// Check if drift is within the acceptable threshold (at most 1 frame).
    pub fn is_acceptable(&self) -> (b: bool)
        ensures
            b == self.acceptable(),
    {
        let bits = self.drift_frames_max_bits;
        bits <= 0x3FF0_0000_0000_0000u64 || (0x8000_0000_0000_0000u64 <= bits && bits
            <= 0xFFF0_0000_0000_0000u64)
    }

    /// Create a new empty drift metrics instance.
    pub fn new() -> (d: DriftMetrics)
        ensures
            d == DriftMetrics::zero(),
    {
        DriftMetrics {
            drift_frames_max_bits: 0,
            drift_frames_p95_bits: 0,
            drift_corrections_count: 0,
            resample_ratio_avg_bits: 0,
        }
    }
}

/// Complete pipeline result with metrics and optional error.
#[derive(Debug, Clone)]
pub struct PipelineResult {
    /// Whether the pipeline completed successfully.
    pub success: bool,
    /// Output file path (if successful).
    pub output_path: Option<String>,
    /// Stage-level timing metrics.
    pub metrics: StageMetrics,
    /// Drift correction metrics.
    pub drift: DriftMetrics,
    /// Error details (if failed).
    pub error: Option<MediaError>,
    /// Whether emergency fallback was used.
    pub fallback_used: bool,
    /// Reason for fallback (if used).
    pub fallback_reason: Option<String>,
    /// Output file checksum for parity validation (if available).
    pub output_checksum: Option<String>,
}

impl PipelineResult {
    /// Create a successful pipeline result.
    pub fn success(output_path: &str) -> (r: PipelineResult)
        ensures
            r.success,
            opt_str_view(r.output_path) == Some(output_path@),
            r.metrics == StageMetrics::new_spec(),
            r.drift == DriftMetrics::zero(),
            r.error is None,
            !r.fallback_used,
            r.fallback_reason is None,
            r.output_checksum is None,
    {
        PipelineResult {
            success: true,
            output_path: Some(String::from_str(output_path)),
            metrics: StageMetrics::new(),
            drift: DriftMetrics::new(),
            error: None,
            fallback_used: false,
            fallback_reason: None,
            output_checksum: None,
        }
    }

    /// Create a failed pipeline result; the fallback flag follows the error's.
    pub fn failure(error: MediaError) -> (r: PipelineResult)
        ensures
            !r.success,
            r.output_path is None,
            r.metrics == StageMetrics::new_spec(),
            r.drift == DriftMetrics::zero(),
            r.error == Some(error),
            r.fallback_used == error.fallback_triggered,
            r.fallback_reason is None,
            r.output_checksum is None,
    {
        let fallback_used = error.fallback_triggered;
        PipelineResult {
            success: false,
            output_path: None,
            metrics: StageMetrics::new(),
            drift: DriftMetrics::new(),
            error: Some(error),
            fallback_used,
            fallback_reason: None,
            output_checksum: None,
        }
    }

    /// Set stage metrics.
    pub fn with_metrics(self, metrics: StageMetrics) -> (r: PipelineResult)
        ensures
            r == (PipelineResult { metrics, ..self }),
    {
        PipelineResult { metrics, ..self }
    }

    /// Set drift metrics.
    pub fn with_drift(self, drift: DriftMetrics) -> (r: PipelineResult)
        ensures
            r == (PipelineResult { drift, ..self }),
    {
        PipelineResult { drift, ..self }
    }

    /// Mark as using emergency fallback, with its reason.
    pub fn with_fallback(self, reason: &str) -> (r: PipelineResult)
        ensures
            r.fallback_used,
            opt_str_view(r.fallback_reason) == Some(reason@),
            r.success == self.success,
            r.output_path == self.output_path,
            r.metrics == self.metrics,
            r.drift == self.drift,
            r.error == self.error,
            r.output_checksum == self.output_checksum,
    {
        PipelineResult {
            fallback_used: true,
            fallback_reason: Some(String::from_str(reason)),
            ..self
        }
    }

    /// Set output checksum for parity validation.
    pub fn with_checksum(self, checksum: &str) -> (r: PipelineResult)
        ensures
            opt_str_view(r.output_checksum) == Some(checksum@),
            r.success == self.success,
            r.output_path == self.output_path,
            r.metrics == self.metrics,
            r.drift == self.drift,
            r.error == self.error,
            r.fallback_used == self.fallback_used,
            r.fallback_reason == self.fallback_reason,
    {
        PipelineResult { output_checksum: Some(String::from_str(checksum)), ..self }
    }
}

impl StageMetrics {
    /// The all-zero metrics.
    pub open spec fn new_spec() -> StageMetrics {
        StageMetrics {
            decode_ms: 0,
            effects_ms: 0,
            overlay_ms: 0,
            encode_ms: 0,
            audio_ms: 0,
            total_ms: 0,
        }
    }
}

} // verus!
