//! Timebases, the thread / SIMD settings of a timeline plan, and the
//! structural checks of a plan (its tracks, timebase and output path).

use vstd::prelude::*;
use crate::errors::{MediaError, MediaErrorCode, MediaResult, opt_str_view};
use crate::text::{decimal_seq, push_decimal, push_str};

verus! {

/// Timebase for rational time representation (`num / den` seconds per tick).
#[derive(Debug, Clone, Copy, PartialEq, Eq, Structural)]
pub struct Timebase {
    pub num: u32,
    pub den: u32,
}

impl Timebase {
    /// Create a new timebase.
    pub fn new(num: u32, den: u32) -> (t: Timebase)
        ensures
            t == (Timebase { num, den }),
    {
        Timebase { num, den }
    }

    /// The 1/1000 timebase (milliseconds).
    pub fn milliseconds() -> (t: Timebase)
        ensures
            t == (Timebase { num: 1, den: 1000 }),
    {
        Timebase { num: 1, den: 1000 }
    }

    /// The 1/44100 timebase (44.1 kHz audio samples).
    pub fn audio_44100() -> (t: Timebase)
        ensures
            t == (Timebase { num: 1, den: 44100 }),
    {
        Timebase { num: 1, den: 44100 }
    }

    /// The 1/48000 timebase (48 kHz audio samples).
    pub fn audio_48000() -> (t: Timebase)
        ensures
            t == (Timebase { num: 1, den: 48000 }),
    {
        Timebase { num: 1, den: 48000 }
    }

    /// Validate that numerator and denominator are non-zero; the denominator
    /// is checked first.
    pub fn validate(&self) -> (r: MediaResult<()>)
        ensures
            r is Ok <==> (self.den != 0 && self.num != 0),
            r matches Err(e) ==> e.code == MediaErrorCode::TimelineInvalidTimebase
                && e.stage is None && e.path is None && !e.fallback_triggered,
            r matches Err(e) ==> (self.den == 0 ==> e.message@
                == "Timebase denominator cannot be zero"@),
            r matches Err(e) ==> (self.den != 0 ==> e.message@
                == "Timebase numerator cannot be zero"@),
    {
        if self.den == 0 {
            return Err(
                MediaError::new(
                    MediaErrorCode::TimelineInvalidTimebase,
                    "Timebase denominator cannot be zero",
                ),
            );
        }
        if self.num == 0 {
            return Err(
                MediaError::new(
                    MediaErrorCode::TimelineInvalidTimebase,
                    "Timebase numerator cannot be zero",
                ),
            );
        }
        Ok(())
    }
}

impl Default for Timebase {
    fn default() -> (t: Timebase)
        ensures
            t == (Timebase { num: 1, den: 1000 }),
    {
        Timebase { num: 1, den: 1000 }
    }
}

/// SIMD optimization level for CPU-bound operations.
#[derive(Debug, Clone, Copy, PartialEq, Eq, Structural)]
pub enum SimdLevel {
    /// Auto-detect the best SIMD level for the current CPU.
    Auto,
    /// AVX2 (256-bit SIMD).
    Avx2,
    /// AVX-512 (512-bit SIMD).
    Avx512,
}

impl Default for SimdLevel {
    fn default() -> (l: SimdLevel)
        ensures
            l == SimdLevel::Auto,
    {
        SimdLevel::Auto
    }
}

/// Thread allocation for pipeline stages.
#[derive(Debug, Clone, Copy, PartialEq, Eq, Structural)]
pub struct ThreadConfig {
    /// Number of threads for decode operations.
    pub decode_threads: u32,
    /// Number of threads for filter/effects operations.
    pub filter_threads: u32,
    /// Number of threads for encode operations.
    pub encode_threads: u32,
}

impl Default for ThreadConfig {
    fn default() -> (c: ThreadConfig)
        ensures
            c == (ThreadConfig { decode_threads: 4, filter_threads: 4, encode_threads: 4 }),
    {
        ThreadConfig { decode_threads: 4, filter_threads: 4, encode_threads: 4 }
    }
}


/// A video track needs at least one segment.
pub fn check_video_track(track_id: &str, segment_count: usize) -> (r: MediaResult<()>)
    ensures
        r is Ok <==> segment_count > 0,
        r matches Err(e) ==> e.code == MediaErrorCode::TimelineEmptyTracks
            && e.message@ == "Video track '"@ + track_id@ + "' has no segments"@
            && e.stage is None && e.path is None && !e.fallback_triggered,
{
    if segment_count == 0 {
        let mut message = String::from_str("Video track '");
        push_str(&mut message, track_id);
        push_str(&mut message, "' has no segments");
        return Err(MediaError::new(MediaErrorCode::TimelineEmptyTracks, message.as_str()));
    }
    Ok(())
}

/// Every track, given as (id, number of segments), has a segment.
pub open spec fn all_tracks_filled(tracks: Seq<(String, usize)>) -> bool {
    forall|j: int| 0 <= j < tracks.len() ==> #[trigger] tracks[j].1 > 0
}

/// The message of a failed timebase check.
pub open spec fn timebase_message(tb: Timebase) -> Seq<char> {
    if tb.den == 0 {
        "Timebase denominator cannot be zero"@
    } else {
        "Timebase numerator cannot be zero"@
    }
}

/// The structural checks of a timeline plan, in the order they are made: at
/// least one video track, a valid timebase, an output path, and a segment in
/// every track (each track given by its id and its number of segments).  The
/// first failed check decides the error.
pub fn check_timeline_structure(tracks: &Vec<(String, usize)>, timebase: &Timebase, output_path: &str) -> (r:
    MediaResult<()>)
    ensures
        tracks@.len() == 0 ==> (r matches Err(e) && e.code == MediaErrorCode::TimelineEmptyTracks
            && e.message@ == "MediaTimelinePlan must have at least one video track"@),
        tracks@.len() > 0 && !(timebase.den != 0 && timebase.num != 0) ==> (r matches Err(e)
            && e.code == MediaErrorCode::TimelineInvalidTimebase && e.message@ == timebase_message(*timebase)),
        tracks@.len() > 0 && timebase.den != 0 && timebase.num != 0 && output_path@.len() == 0 ==> (r matches Err(
            e,
        ) && e.code == MediaErrorCode::TimelineInvalidPlan && e.message@ == "Output path must be set"@),
        tracks@.len() > 0 && timebase.den != 0 && timebase.num != 0 && output_path@.len() > 0
            && !all_tracks_filled(tracks@) ==> exists|i: int|
            0 <= i < tracks@.len() && #[trigger] tracks@[i].1 == 0 && (forall|j: int| 0 <= j < i ==> tracks@[j].1 > 0)
                && (r matches Err(e) && e.code == MediaErrorCode::TimelineEmptyTracks && e.message@
                == "Video track '"@ + tracks@[i].0@ + "' has no segments"@),
        r is Ok <==> (tracks@.len() > 0 && timebase.den != 0 && timebase.num != 0 && output_path@.len() > 0
            && all_tracks_filled(tracks@)),
        r matches Err(e) ==> e.stage is None && e.path is None && !e.fallback_triggered,
{
    if tracks.len() == 0 {
        return Err(
            MediaError::new(
                MediaErrorCode::TimelineEmptyTracks,
                "MediaTimelinePlan must have at least one video track",
            ),
        );
    }
    match timebase.validate() {
        Err(e) => {
            return Err(e);
        },
        Ok(()) => {},
    }
    if output_path.is_empty() {
        return Err(MediaError::new(MediaErrorCode::TimelineInvalidPlan, "Output path must be set"));
    }
    let n = tracks.len();
    let mut i: usize = 0;
    while i < n
        invariant
            n == tracks@.len(),
            n > 0,
            i <= n,
            timebase.den != 0 && timebase.num != 0,
            output_path@.len() > 0,
            forall|j: int| 0 <= j < i ==> #[trigger] tracks@[j].1 > 0,
        decreases n - i,
    {
        match check_video_track(tracks[i].0.as_str(), tracks[i].1) {
            Err(e) => {
                assert(tracks@[i as int].1 == 0);
                assert(!all_tracks_filled(tracks@));
                return Err(e);
            },
            Ok(()) => {},
        }
        i += 1;
    }
    Ok(())
}

/// The message of the effect check for one effect, if it fails: an effect
/// needs a type, and a timed effect a range whose end comes after its start.
/// `inverted_range` holds the rendering `start -> end` of a range that does
/// not move forward, and is `None` for an untimed effect or a valid range.
pub open spec fn effect_message(effect_type: Seq<char>, inverted_range: Option<Seq<char>>) -> Option<Seq<char>> {
    if effect_type.len() == 0 {
        Some("Effect type cannot be empty"@)
    } else {
        match inverted_range {
            Some(range) => Some("Effect '"@ + effect_type + "' has invalid time range: "@ + range),
            None => None,
        }
    }
}

/// Whether an effect, given as (type, inverted range), passes its check.
pub open spec fn effect_passes(effect: (String, Option<String>)) -> bool {
    effect_message(effect.0@, opt_str_view(effect.1)) is None
}

/// The effects stage: each effect, given as its type and, when its time
/// range does not move forward, the rendering of that range, is checked in
/// order; the first that fails decides the error, raised with `code` at the
/// stage `effects`.
pub fn check_effects(effects: &Vec<(String, Option<String>)>, code: MediaErrorCode) -> (r: MediaResult<()>)
    ensures
        r is Ok <==> forall|j: int| 0 <= j < effects@.len() ==> #[trigger] effect_passes(effects@[j]),
        r matches Err(e) ==> exists|i: int|
            0 <= i < effects@.len() && (forall|j: int| 0 <= j < i ==> #[trigger] effect_passes(effects@[j]))
                && #[trigger] effect_message(effects@[i].0@, opt_str_view(effects@[i].1)) == Some(e.message@),
        r matches Err(e) ==> e.code == code && opt_str_view(e.stage) == Some("effects"@) && e.path is None
            && !e.fallback_triggered,
        r is Ok <==> forall|j: int| 0 <= j < effects@.len() ==> #[trigger] effects@[j].0@.len() > 0
            && effects@[j].1 is None,
        forall|j: int| 0 <= j < effects@.len() && #[trigger] effects@[j].0@.len() == 0 ==> r is Err,
        r matches Err(e) ==> exists|i: int|
            0 <= i < effects@.len() && (forall|j: int| 0 <= j < i ==> #[trigger] effects@[j].0@.len() > 0
                && effects@[j].1 is None) && (if #[trigger] effects@[i].0@.len() == 0 {
                e.message@ == "Effect type cannot be empty"@
            } else {
                effects@[i].1 matches Some(range) && e.message@ == "Effect '"@ + effects@[i].0@
                    + "' has invalid time range: "@ + range@
            }),
{
    let mut i: usize = 0;
    while i < effects.len()
        invariant
            i <= effects@.len(),
            forall|j: int| 0 <= j < i ==> #[trigger] effect_passes(effects@[j]),
            forall|j: int| 0 <= j < i ==> #[trigger] effects@[j].0@.len() > 0 && effects@[j].1 is None,
        decreases effects@.len() - i,
    {
        let effect_type = effects[i].0.as_str();
        if effect_type.is_empty() {
            let e = MediaError::new(code, "Effect type cannot be empty").with_stage("effects");
            assert(effect_message(effects@[i as int].0@, opt_str_view(effects@[i as int].1)) == Some(e.message@));
            assert(!effect_passes(effects@[i as int]));
            assert(effects@[i as int].0@.len() == 0);
            return Err(e);
        }
        match &effects[i].1 {
            Some(range) => {
                let mut message = String::from_str("Effect '");
                push_str(&mut message, effect_type);
                push_str(&mut message, "' has invalid time range: ");
                push_str(&mut message, range.as_str());
                let e = MediaError::new(code, message.as_str()).with_stage("effects");
                assert(effect_message(effects@[i as int].0@, opt_str_view(effects@[i as int].1)) == Some(e.message@));
                assert(!effect_passes(effects@[i as int]));
                assert(effects@[i as int].0@.len() > 0 && effects@[i as int].1 is Some);
                return Err(e);
            },
            None => {},
        }
        assert(effect_passes(effects@[i as int]));
        assert(effects@[i as int].0@.len() > 0 && effects@[i as int].1 is None);
        i = i + 1;
    }
    Ok(())
}

/// The message of the output check, if it fails: the output needs a size, a
/// positive frame rate and a CRF of at most 51.  `fps_positive` says whether
/// the frame rate is above zero and `fps_text` is its `Display` rendering.
pub open spec fn output_message(width: u32, height: u32, fps_positive: bool, fps_text: Seq<char>, crf: u32) -> Option<
    Seq<char>,
> {
    if width == 0 || height == 0 {
        Some("Invalid output dimensions: "@ + decimal_seq(width as nat) + "x"@ + decimal_seq(height as nat))
    } else if !fps_positive {
        Some("Invalid output FPS: "@ + fps_text)
    } else if crf > 51 {
        Some("Invalid CRF value: "@ + decimal_seq(crf as nat) + " (max 51)"@)
    } else {
        None
    }
}

/// The encode stage's check of the output settings; a failure is raised as
/// `EncodeFailed` at the stage `encode`.
pub fn check_output(width: u32, height: u32, fps_positive: bool, fps_text: &str, crf: u32) -> (r: MediaResult<()>)
    ensures
        r is Ok <==> output_message(width, height, fps_positive, fps_text@, crf) is None,
        r matches Err(e) ==> Some(e.message@) == output_message(width, height, fps_positive, fps_text@, crf)
            && e.code == MediaErrorCode::EncodeFailed && opt_str_view(e.stage) == Some("encode"@)
            && e.path is None && !e.fallback_triggered,
        width == 0 || height == 0 ==> (r matches Err(e) && e.message@ == "Invalid output dimensions: "@
            + decimal_seq(width as nat) + "x"@ + decimal_seq(height as nat)),
        width > 0 && height > 0 && !fps_positive ==> (r matches Err(e) && e.message@ == "Invalid output FPS: "@
            + fps_text@),
        width > 0 && height > 0 && fps_positive && crf > 51 ==> (r matches Err(e) && e.message@
            == "Invalid CRF value: "@ + decimal_seq(crf as nat) + " (max 51)"@),
        r is Ok <==> width > 0 && height > 0 && fps_positive && crf <= 51,
{
    if width == 0 || height == 0 {
        let mut message = String::from_str("Invalid output dimensions: ");
        push_decimal(&mut message, width as u64);
        push_str(&mut message, "x");
        push_decimal(&mut message, height as u64);
        return Err(MediaError::new(MediaErrorCode::EncodeFailed, message.as_str()).with_stage("encode"));
    }
    if !fps_positive {
        let mut message = String::from_str("Invalid output FPS: ");
        push_str(&mut message, fps_text);
        return Err(MediaError::new(MediaErrorCode::EncodeFailed, message.as_str()).with_stage("encode"));
    }
    if crf > 51 {
        let mut message = String::from_str("Invalid CRF value: ");
        push_decimal(&mut message, crf as u64);
        push_str(&mut message, " (max 51)");
        return Err(MediaError::new(MediaErrorCode::EncodeFailed, message.as_str()).with_stage("encode"));
    }
    Ok(())
}

/// An effect without a type always fails, whatever its range; an effect
/// with a type fails exactly when its range does not move forward, and the
/// message then names the effect and the range.
pub proof fn lemma_effect_message_cases(effect_type: Seq<char>, inverted_range: Option<Seq<char>>)
    ensures
        effect_type.len() == 0 ==> effect_message(effect_type, inverted_range) == Some("Effect type cannot be empty"@),
        effect_type.len() > 0 && inverted_range is None ==> effect_message(effect_type, inverted_range) is None,
        effect_type.len() > 0 && inverted_range is Some ==> effect_message(effect_type, inverted_range) == Some(
            "Effect '"@ + effect_type + "' has invalid time range: "@ + inverted_range->0,
        ),
{
}

/// The output check refuses a missing width or height, then a frame rate
/// that is not positive, then a CRF above 51, and accepts everything else.
pub proof fn lemma_output_message_cases(width: u32, height: u32, fps_positive: bool, fps_text: Seq<char>, crf: u32)
    ensures
        width == 0 || height == 0 ==> output_message(width, height, fps_positive, fps_text, crf) == Some(
            "Invalid output dimensions: "@ + decimal_seq(width as nat) + "x"@ + decimal_seq(height as nat),
        ),
        width > 0 && height > 0 && !fps_positive ==> output_message(width, height, fps_positive, fps_text, crf)
            == Some("Invalid output FPS: "@ + fps_text),
        width > 0 && height > 0 && fps_positive && crf > 51 ==> output_message(width, height, fps_positive, fps_text, crf)
            == Some("Invalid CRF value: "@ + decimal_seq(crf as nat) + " (max 51)"@),
        output_message(width, height, fps_positive, fps_text, crf) is None <==> width > 0 && height > 0
            && fps_positive && crf <= 51,
{
}

} // verus!
