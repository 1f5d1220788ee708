//! Audio graph configuration: the declarative description of how audio
//! sources are mixed, gated and synchronised, and the result of running it.
//!
//! Real-valued settings (input volume, drift threshold) are held as the
//! IEEE-754 binary64 bit patterns of the `f64` values they stand for.

use vstd::prelude::*;
use crate::errors::{DriftMetrics, MediaError, MediaErrorCode, MediaResult, f64_bits_at_most_one, opt_str_view};
use crate::text::push_str;

verus! {

/// The bit pattern of the `f64` value `1.0`.
pub const F64_ONE_BITS: u64 = 0x3FF0_0000_0000_0000;

/// The bit pattern of positive infinity; above it (sign bit clear) lie NaNs.
pub const F64_INFINITY_BITS: u64 = 0x7FF0_0000_0000_0000;

/// Whether the `f64` whose bit pattern is `bits` compares greater than `1.0`.
///
/// With the sign bit clear, the bit patterns of non-NaN doubles are ordered
/// as the numbers are; patterns with the sign bit set are negative (or
/// `-0.0`, or NaN) and patterns above infinity are NaN, none of which is
/// greater than `1.0`.
pub open spec fn f64_bits_exceed_one(bits: u64) -> bool {
    F64_ONE_BITS < bits && bits <= F64_INFINITY_BITS
}

/// Whether the bit pattern is that of a NaN (all exponent bits set, some
/// mantissa bit set, either sign).
pub open spec fn f64_bits_is_nan(bits: u64) -> bool {
    (bits & 0x7FFF_FFFF_FFFF_FFFF) > F64_INFINITY_BITS
}

/// The bit pattern of `f64::clamp(x, 0.0, 1.0)` for the `x` whose pattern is
/// `bits`: NaN stays NaN, negative numbers (not `-0.0`) become `0.0`,
/// numbers above one become `1.0`, the rest stay.
pub open spec fn f64_bits_clamp_unit(bits: u64) -> u64 {
    if f64_bits_is_nan(bits) {
        bits
    } else if bits > 0x8000_0000_0000_0000 {
        0
    } else if f64_bits_exceed_one(bits) {
        F64_ONE_BITS
    } else {
        bits
    }
}

/// A bit pattern is a NaN exactly when it lies above infinity, with either
/// sign: the patterns of positive numbers run up to infinity, and those of
/// negative numbers from `-0.0` up to negative infinity.
pub proof fn lemma_f64_bits_nan_ranges(bits: u64)
    ensures
        f64_bits_is_nan(bits) <==> ((F64_INFINITY_BITS < bits && bits < 0x8000_0000_0000_0000) || bits
            > 0xFFF0_0000_0000_0000),
{
    assert(((bits & 0x7FFF_FFFF_FFFF_FFFF) > 0x7FF0_0000_0000_0000) <==> ((0x7FF0_0000_0000_0000 < bits && bits
        < 0x8000_0000_0000_0000) || bits > 0xFFF0_0000_0000_0000)) by (bit_vector);
}

/// Every number is either above one or at most one, never both; a NaN is
/// neither.
pub proof fn lemma_f64_bits_compare_one(bits: u64)
    ensures
        f64_bits_exceed_one(bits) ==> !f64_bits_at_most_one(bits),
        !f64_bits_is_nan(bits) ==> (f64_bits_exceed_one(bits) || f64_bits_at_most_one(bits)),
        f64_bits_is_nan(bits) ==> !f64_bits_exceed_one(bits) && !f64_bits_at_most_one(bits),
{
    lemma_f64_bits_nan_ranges(bits);
}

/// Clamping to the unit interval gives a number from `0.0` to `1.0` (or the
/// NaN it was given), leaves such a number as it is, and clamping twice is
/// clamping once.
pub proof fn lemma_f64_bits_clamp_unit(bits: u64)
    ensures
        !f64_bits_is_nan(bits) ==> f64_bits_clamp_unit(bits) <= F64_ONE_BITS || f64_bits_clamp_unit(bits)
            == 0x8000_0000_0000_0000,
        f64_bits_is_nan(bits) ==> f64_bits_clamp_unit(bits) == bits,
        (bits <= F64_ONE_BITS || bits == 0x8000_0000_0000_0000) ==> f64_bits_clamp_unit(bits) == bits,
        f64_bits_clamp_unit(f64_bits_clamp_unit(bits)) == f64_bits_clamp_unit(bits),
{
    lemma_f64_bits_nan_ranges(bits);
    lemma_f64_bits_nan_ranges(f64_bits_clamp_unit(bits));
}

/// Audio gate configuration (section to mute), in samples.
#[derive(Debug, Clone, Copy, PartialEq, Eq, Structural)]
pub struct AudioGate {
    /// First muted sample.
    pub start_sample: u64,
    /// Sample at which muting stops.
    pub end_sample: u64,
}

impl AudioGate {
    /// Create a new gate range.
    pub fn new(start_sample: u64, end_sample: u64) -> (g: AudioGate)
        ensures
            g == (AudioGate { start_sample, end_sample }),
    {
        AudioGate { start_sample, end_sample }
    }
}

/// Audio input to the mixing graph.
#[derive(Debug, Clone)]
pub struct AudioInput {
    /// Unique identifier for this input.
    pub id: String,
    /// Path to the audio file.
    pub path: String,
    /// Type of input (e.g. "voiceover", "music", "sfx").
    pub input_type: String,
    /// Volume level (0.0 to 1.0), as `f64` bits.
    pub volume_bits: u64,
    /// Start offset in samples.
    pub start_offset_samples: u64,
    /// Gate configurations (sections to mute).
    pub gates: Vec<AudioGate>,
}

impl AudioInput {
    /// Create a new audio input at full volume, no offset and no gates.
    pub fn new(id: &str, path: &str, input_type: &str) -> (i: AudioInput)
        ensures
            i.id@ == id@,
            i.path@ == path@,
            i.input_type@ == input_type@,
            i.volume_bits == F64_ONE_BITS,
            i.start_offset_samples == 0,
            i.gates@.len() == 0,
    {
        AudioInput {
            id: String::from_str(id),
            path: String::from_str(path),
            input_type: String::from_str(input_type),
            volume_bits: F64_ONE_BITS,
            start_offset_samples: 0,
            gates: Vec::new(),
        }
    }

    /// Set the volume, clamped to `0.0..=1.0` as `f64::clamp` does: below
    /// zero gives `0.0`, above one gives `1.0`, NaN and `-0.0` stay.
    pub fn with_volume(self, volume_bits: u64) -> (i: AudioInput)
        ensures
            i == (AudioInput { volume_bits: f64_bits_clamp_unit(volume_bits), ..self }),
    {
        let nan = (volume_bits & 0x7FFF_FFFF_FFFF_FFFFu64) > F64_INFINITY_BITS;
        let clamped = if nan {
            volume_bits
        } else if volume_bits > 0x8000_0000_0000_0000u64 {
            0
        } else if F64_ONE_BITS < volume_bits && volume_bits <= F64_INFINITY_BITS {
            F64_ONE_BITS
        } else {
            volume_bits
        };
        AudioInput { volume_bits: clamped, ..self }
    }

    /// Set the start offset in samples.
    pub fn with_offset(self, offset_samples: u64) -> (i: AudioInput)
        ensures
            i == (AudioInput { start_offset_samples: offset_samples, ..self }),
    {
        AudioInput { start_offset_samples: offset_samples, ..self }
    }

    /// Add a gate range.
    pub fn with_gate(self, gate: AudioGate) -> (i: AudioInput)
        ensures
            i.id == self.id,
            i.path == self.path,
            i.input_type == self.input_type,
            i.volume_bits == self.volume_bits,
            i.start_offset_samples == self.start_offset_samples,
            i.gates@ == self.gates@.push(gate),
    {
        let mut s = self;
        s.gates.push(gate);
        s
    }
}

/// Synchronization configuration for audio/video alignment.
#[derive(Debug, Clone, Copy, PartialEq, Eq, Structural)]
pub struct SyncConfig {
    /// Target sample rate.
    pub sample_rate: u32,
    /// Frame duration in samples.
    pub frame_duration_samples: u32,
    /// Maximum allowed drift in frames, as `f64` bits.
    pub max_drift_frames_bits: u64,
    /// Whether to auto-correct drift.
    pub auto_correct_drift: bool,
}

impl Default for SyncConfig {
    fn default() -> (c: SyncConfig)
        ensures
            c == (SyncConfig {
                sample_rate: 48000,
                frame_duration_samples: 1600,
                max_drift_frames_bits: F64_ONE_BITS,
                auto_correct_drift: true,
            }),
    {
        SyncConfig {
            sample_rate: 48000,
            frame_duration_samples: 1600,
            max_drift_frames_bits: F64_ONE_BITS,
            auto_correct_drift: true,
        }
    }
}

impl SyncConfig {
    /// Frame duration in samples.
    pub fn frame_duration_samples(&self) -> (n: u32)
        ensures
            n == self.frame_duration_samples,
    {
        self.frame_duration_samples
    }

    /// Whether the drift threshold exceeds one frame (`max_drift_frames > 1.0`).
    pub fn drift_limit_exceeded(&self) -> (b: bool)
        ensures
            b == f64_bits_exceed_one(self.max_drift_frames_bits),
    {
        let bits = self.max_drift_frames_bits;
        F64_ONE_BITS < bits && bits <= F64_INFINITY_BITS
    }
}

/// The message of a drift threshold above one frame, around the caller's
/// rendering of the configured threshold (as `Display` writes the `f64`).
pub open spec fn drift_exceeded_message(max_drift_text: Seq<char>) -> Seq<char> {
    "Max drift threshold too high: "@ + max_drift_text + " frames (max 1.0)"@
}

/// The error of a drift threshold above one frame; `max_drift_text` is the
/// configured threshold as `Display` renders it.
pub fn drift_exceeded_error(max_drift_text: &str) -> (e: MediaError)
    ensures
        e.code == MediaErrorCode::AudioDriftExceeded,
        e.message@ == drift_exceeded_message(max_drift_text@),
        e.stage is None,
        e.path is None,
        !e.fallback_triggered,
{
    let mut message = String::from_str("Max drift threshold too high: ");
    push_str(&mut message, max_drift_text);
    push_str(&mut message, " frames (max 1.0)");
    MediaError::new(MediaErrorCode::AudioDriftExceeded, message.as_str())
}

/// Audio graph configuration: inputs, output format and synchronisation.
#[derive(Debug, Clone)]
pub struct AudioGraphConfig {
    /// Unique identifier for this graph.
    pub graph_id: String,
    /// Audio inputs to mix.
    pub inputs: Vec<AudioInput>,
    /// Output sample rate.
    pub output_sample_rate: u32,
    /// Output channels (1 = mono, 2 = stereo).
    pub output_channels: u8,
    /// Total expected duration in samples.
    pub total_duration_samples: u64,
    /// Synchronization configuration.
    pub sync: SyncConfig,
}

/// The first failed check of an audio graph, in the order they are made:
/// empty id, no inputs, zero sample rate, bad channel count, an input with an
/// empty path.  `None` when every check passes.
pub open spec fn audio_graph_first_error(
    graph_id: Seq<char>,
    inputs: Seq<AudioInput>,
    output_sample_rate: u32,
    output_channels: u8,
) -> Option<int> {
    if graph_id.len() == 0 {
        Some(0)
    } else if inputs.len() == 0 {
        Some(1)
    } else if output_sample_rate == 0 {
        Some(2)
    } else if output_channels == 0 || output_channels > 2 {
        Some(3)
    } else if exists|i: int| 0 <= i < inputs.len() && inputs[i].path@.len() == 0 {
        Some(4)
    } else {
        None
    }
}

impl AudioGraphConfig {
    /// Whether the graph passes every validation check.
    pub open spec fn is_valid(&self) -> bool {
        audio_graph_first_error(
            self.graph_id@,
            self.inputs@,
            self.output_sample_rate,
            self.output_channels,
        ) is None
    }

    /// Create an empty graph: stereo 48 kHz output, default sync.
    pub fn new(graph_id: &str) -> (c: AudioGraphConfig)
        ensures
            c.graph_id@ == graph_id@,
            c.inputs@.len() == 0,
            c.output_sample_rate == 48000,
            c.output_channels == 2,
            c.total_duration_samples == 0,
            c.sync == (SyncConfig {
                sample_rate: 48000,
                frame_duration_samples: 1600,
                max_drift_frames_bits: F64_ONE_BITS,
                auto_correct_drift: true,
            }),
    {
        AudioGraphConfig {
            graph_id: String::from_str(graph_id),
            inputs: Vec::new(),
            output_sample_rate: 48000,
            output_channels: 2,
            total_duration_samples: 0,
            sync: SyncConfig::default(),
        }
    }

    /// Add an audio input.
    pub fn add_input(self, input: AudioInput) -> (c: AudioGraphConfig)
        ensures
            c.graph_id == self.graph_id,
            c.inputs@ == self.inputs@.push(input),
            c.output_sample_rate == self.output_sample_rate,
            c.output_channels == self.output_channels,
            c.total_duration_samples == self.total_duration_samples,
            c.sync == self.sync,
    {
        let mut s = self;
        s.inputs.push(input);
        s
    }

    /// Set the output sample rate (and the sync sample rate with it).
    pub fn with_output_sample_rate(self, rate: u32) -> (c: AudioGraphConfig)
        ensures
            c == (AudioGraphConfig {
                output_sample_rate: rate,
                sync: SyncConfig { sample_rate: rate, ..self.sync },
                ..self
            }),
    {
        let sync = SyncConfig { sample_rate: rate, ..self.sync };
        AudioGraphConfig { output_sample_rate: rate, sync, ..self }
    }

    /// Set the output channels.
    pub fn with_output_channels(self, channels: u8) -> (c: AudioGraphConfig)
        ensures
            c == (AudioGraphConfig { output_channels: channels, ..self }),
    {
        AudioGraphConfig { output_channels: channels, ..self }
    }

    /// Set the total duration in samples.
    pub fn with_total_duration_samples(self, samples: u64) -> (c: AudioGraphConfig)
        ensures
            c == (AudioGraphConfig { total_duration_samples: samples, ..self }),
    {
        AudioGraphConfig { total_duration_samples: samples, ..self }
    }

    /// Set the sync configuration.
    pub fn with_sync(self, sync: SyncConfig) -> (c: AudioGraphConfig)
        ensures
            c == (AudioGraphConfig { sync, ..self }),
    {
        AudioGraphConfig { sync, ..self }
    }

    /// The positions of the inputs of the given type, in order.
    pub fn find_inputs_by_type(&self, input_type: &str) -> (r: Vec<usize>)
        ensures
            forall|k: int| 0 <= k < r@.len() ==> r@[k] < self.inputs@.len()
                && self.inputs@[r@[k] as int].input_type@ == input_type@,
            forall|k: int, l: int| 0 <= k < l < r@.len() ==> r@[k] < r@[l],
            forall|i: int|
                0 <= i < self.inputs@.len() && self.inputs@[i].input_type@ == input_type@
                    ==> r@.contains(i as usize),
    {
        let wanted = String::from_str(input_type);
        let mut r: Vec<usize> = Vec::new();
        let n = self.inputs.len();
        let mut i: usize = 0;
        while i < n
            invariant
                n == self.inputs.len(),
                i <= n,
                wanted@ == input_type@,
                forall|k: int| 0 <= k < r@.len() ==> r@[k] < i
                    && self.inputs@[r@[k] as int].input_type@ == input_type@,
                forall|k: int, l: int| 0 <= k < l < r@.len() ==> r@[k] < r@[l],
                forall|j: int|
                    0 <= j < i && self.inputs@[j].input_type@ == input_type@ ==> r@.contains(
                        j as usize,
                    ),
            decreases n - i,
        {
            let ghost old_r = r@;
            if self.inputs[i].input_type == wanted {
                r.push(i);
                proof {
                    assert(r@[r@.len() - 1] == i);
                    assert forall|j: int|
                        0 <= j < i + 1 && self.inputs@[j].input_type@ == input_type@ implies r@.contains(
                        j as usize,
                    ) by {
                        if j < i {
                            let k = choose|k: int| 0 <= k < old_r.len() && old_r[k] == j as usize;
                            assert(r@[k] == j as usize);
                        }
                    }
                }
            }
            i += 1;
        }
        r
    }

    /// The position of the first input with an empty path.
    pub open spec fn first_empty_path(&self) -> int {
        choose|i: int| 0 <= i < self.inputs@.len() && self.inputs@[i].path@.len() == 0
            && forall|j: int| 0 <= j < i ==> self.inputs@[j].path@.len() != 0
    }

    /// The message of the first failed validation check.
    pub open spec fn validation_message(&self) -> Seq<char> {
        let e = audio_graph_first_error(
            self.graph_id@,
            self.inputs@,
            self.output_sample_rate,
            self.output_channels,
        );
        if e == Some(0int) {
            "Graph ID cannot be empty"@
        } else if e == Some(1int) {
            "At least one audio input is required"@
        } else if e == Some(2int) {
            "Output sample rate cannot be zero"@
        } else if e == Some(3int) {
            "Output channels must be 1 (mono) or 2 (stereo)"@
        } else {
            "Input '"@ + self.inputs@[self.first_empty_path()].id@ + "' has empty path"@
        }
    }

    /// Validate the configuration; the first failed check decides the error.
    pub fn validate(&self) -> (r: MediaResult<()>)
        ensures
            r is Ok <==> self.is_valid(),
            r matches Err(e) ==> e.code == MediaErrorCode::AudioGraphInvalidConfig
                && e.message@ == self.validation_message()
                && e.stage is None && e.path is None && !e.fallback_triggered,
    {
        if self.graph_id.as_str().is_empty() {
            return Err(
                MediaError::new(MediaErrorCode::AudioGraphInvalidConfig, "Graph ID cannot be empty"),
            );
        }
        if self.inputs.len() == 0 {
            return Err(
                MediaError::new(
                    MediaErrorCode::AudioGraphInvalidConfig,
                    "At least one audio input is required",
                ),
            );
        }
        if self.output_sample_rate == 0 {
            return Err(
                MediaError::new(
                    MediaErrorCode::AudioGraphInvalidConfig,
                    "Output sample rate cannot be zero",
                ),
            );
        }
        if self.output_channels == 0 || self.output_channels > 2 {
            return Err(
                MediaError::new(
                    MediaErrorCode::AudioGraphInvalidConfig,
                    "Output channels must be 1 (mono) or 2 (stereo)",
                ),
            );
        }
        let n = self.inputs.len();
        let mut i: usize = 0;
        while i < n
            invariant
                n == self.inputs.len(),
                i <= n,
                self.graph_id@.len() != 0,
                n != 0,
                self.output_sample_rate != 0,
                1 <= self.output_channels <= 2,
                forall|j: int| 0 <= j < i ==> self.inputs@[j].path@.len() != 0,
            decreases n - i,
        {
            if self.inputs[i].path.as_str().is_empty() {
                proof {
                    assert(self.inputs@[i as int].path@.len() == 0);
                    assert(audio_graph_first_error(
                        self.graph_id@,
                        self.inputs@,
                        self.output_sample_rate,
                        self.output_channels,
                    ) == Some(4int));
                    let k = self.first_empty_path();
                    assert(k == i) by {
                        if k < i {
                            assert(self.inputs@[k].path@.len() != 0);
                        } else if k > i {
                            assert(self.inputs@[i as int].path@.len() != 0);
                        }
                    }
                }
                let mut message = String::from_str("Input '");
                crate::text::push_str(&mut message, self.inputs[i].id.as_str());
                crate::text::push_str(&mut message, "' has empty path");
                return Err(MediaError::new(MediaErrorCode::AudioGraphInvalidConfig, message.as_str()));
            }
            i += 1;
        }
        Ok(())
    }
}

/// Result from audio graph processing.
#[derive(Debug, Clone)]
pub struct AudioGraphResult {
    /// Whether processing succeeded.
    pub success: bool,
    /// Output artifact path.
    pub output_path: String,
    /// Total samples processed.
    pub samples_processed: u64,
    /// Drift metrics (if sync was enabled).
    pub drift: DriftMetrics,
    /// The error, if processing failed.
    pub error: Option<MediaError>,
}

impl AudioGraphResult {
    /// Create a successful result.
    pub fn success(output_path: &str, samples_processed: u64) -> (r: AudioGraphResult)
        ensures
            r.success,
            r.output_path@ == output_path@,
            r.samples_processed == samples_processed,
            r.drift == DriftMetrics::zero(),
            r.error is None,
    {
        AudioGraphResult {
            success: true,
            output_path: String::from_str(output_path),
            samples_processed,
            drift: DriftMetrics::new(),
            error: None,
        }
    }

    /// Create a failed result.
    pub fn failure(error: MediaError) -> (r: AudioGraphResult)
        ensures
            !r.success,
            r.output_path@.len() == 0,
            r.samples_processed == 0,
            r.drift == DriftMetrics::zero(),
            r.error == Some(error),
    {
        AudioGraphResult {
            success: false,
            output_path: String::new(),
            samples_processed: 0,
            drift: DriftMetrics::new(),
            error: Some(error),
        }
    }

    /// Set drift metrics.
    pub fn with_drift(self, drift: DriftMetrics) -> (r: AudioGraphResult)
        ensures
            r == (AudioGraphResult { drift, ..self }),
    {
        AudioGraphResult { drift, ..self }
    }
}

/// The first input with an empty path, at or before `bound` (which has one).
proof fn lemma_least_empty_path(inputs: Seq<AudioInput>, bound: int) -> (i: int)
    requires
        0 <= bound < inputs.len(),
        inputs[bound].path@.len() == 0,
    ensures
        0 <= i <= bound,
        inputs[i].path@.len() == 0,
        forall|j: int| 0 <= j < i ==> inputs[j].path@.len() != 0,
    decreases bound,
{
    if exists|j: int| 0 <= j < bound && inputs[j].path@.len() == 0 {
        let j = choose|j: int| 0 <= j < bound && inputs[j].path@.len() == 0;
        lemma_least_empty_path(inputs, j)
    } else {
        bound
    }
}

/// A graph is valid exactly when it has an id, at least one input, a
/// sample rate, one or two channels and a path for every input; a graph
/// that fails is refused by the first of these checks, in that order, and a
/// missing path names the first input without one.
pub proof fn lemma_audio_graph_validation(g: AudioGraphConfig)
    ensures
        g.is_valid() <==> (g.graph_id@.len() > 0 && g.inputs@.len() > 0 && g.output_sample_rate > 0 && 1
            <= g.output_channels <= 2 && forall|i: int| 0 <= i < g.inputs@.len() ==> #[trigger] g.inputs@[i].path@.len()
            > 0),
        g.graph_id@.len() == 0 ==> g.validation_message() == "Graph ID cannot be empty"@,
        g.graph_id@.len() > 0 && g.inputs@.len() == 0 ==> g.validation_message()
            == "At least one audio input is required"@,
        g.graph_id@.len() > 0 && g.inputs@.len() > 0 && g.output_sample_rate == 0 ==> g.validation_message()
            == "Output sample rate cannot be zero"@,
        g.graph_id@.len() > 0 && g.inputs@.len() > 0 && g.output_sample_rate > 0 && !(1 <= g.output_channels <= 2)
            ==> g.validation_message() == "Output channels must be 1 (mono) or 2 (stereo)"@,
        g.graph_id@.len() > 0 && g.inputs@.len() > 0 && g.output_sample_rate > 0 && 1 <= g.output_channels <= 2
            && !g.is_valid() ==> exists|i: int|
            0 <= i < g.inputs@.len() && #[trigger] g.inputs@[i].path@.len() == 0 && (forall|j: int|
                0 <= j < i ==> g.inputs@[j].path@.len() != 0) && g.validation_message() == "Input '"@
                + g.inputs@[i].id@ + "' has empty path"@,
{
    if g.graph_id@.len() > 0 && g.inputs@.len() > 0 && g.output_sample_rate > 0 && 1 <= g.output_channels <= 2
        && !g.is_valid() {
        let b = choose|i: int| 0 <= i < g.inputs@.len() && g.inputs@[i].path@.len() == 0;
        let i = lemma_least_empty_path(g.inputs@, b);
        let f = g.first_empty_path();
        assert(0 <= f < g.inputs@.len() && g.inputs@[f].path@.len() == 0 && forall|j: int|
            0 <= j < f ==> g.inputs@[j].path@.len() != 0);
        if f < i {
            assert(g.inputs@[f].path@.len() != 0);
        }
        if i < f {
            assert(g.inputs@[i].path@.len() != 0);
        }
        assert(f == i);
    }
}

} // verus!
