//! Machine-readable reason codes for render outcomes.

use vstd::prelude::*;

verus! {

/// Machine-readable reason codes for render outcomes.
#[derive(Debug, Clone, Copy, PartialEq, Eq, Structural)]
pub enum ReasonCode {
    /// Render completed successfully.
    Success,
    /// Render completed with emergency fallback.
    SuccessWithFallback,
    /// Decode stage failed.
    DecodeFailed,
    /// Effects stage failed.
    EffectsFailed,
    /// Overlay stage failed.
    OverlayFailed,
    /// Audio stage failed.
    AudioFailed,
    /// Encode stage failed.
    EncodeFailed,
    /// Concat stage failed.
    ConcatFailed,
    /// Probe stage failed.
    ProbeFailed,
    /// Input validation failed.
    ValidationFailed,
    /// Timeout exceeded.
    Timeout,
    /// Resource exhausted (memory, disk, etc.).
    ResourceExhausted,
    /// Emergency fallback triggered.
    EmergencyFallback,
}

impl ReasonCode {
    /// The upper-snake-case name of a reason code.
    pub open spec fn name(self) -> Seq<char> {
        match self {
            ReasonCode::Success => "SUCCESS"@,
            ReasonCode::SuccessWithFallback => "SUCCESS_WITH_FALLBACK"@,
            ReasonCode::DecodeFailed => "DECODE_FAILED"@,
            ReasonCode::EffectsFailed => "EFFECTS_FAILED"@,
            ReasonCode::OverlayFailed => "OVERLAY_FAILED"@,
            ReasonCode::AudioFailed => "AUDIO_FAILED"@,
            ReasonCode::EncodeFailed => "ENCODE_FAILED"@,
            ReasonCode::ConcatFailed => "CONCAT_FAILED"@,
            ReasonCode::ProbeFailed => "PROBE_FAILED"@,
            ReasonCode::ValidationFailed => "VALIDATION_FAILED"@,
            ReasonCode::Timeout => "TIMEOUT"@,
            ReasonCode::ResourceExhausted => "RESOURCE_EXHAUSTED"@,
            ReasonCode::EmergencyFallback => "EMERGENCY_FALLBACK"@,
        }
    }

    pub fn as_str(&self) -> (s: &'static str)
        ensures
            s@ == self.name(),
    {
        match self {
            ReasonCode::Success => "SUCCESS",
            ReasonCode::SuccessWithFallback => "SUCCESS_WITH_FALLBACK",
            ReasonCode::DecodeFailed => "DECODE_FAILED",
            ReasonCode::EffectsFailed => "EFFECTS_FAILED",
            ReasonCode::OverlayFailed => "OVERLAY_FAILED",
            ReasonCode::AudioFailed => "AUDIO_FAILED",
            ReasonCode::EncodeFailed => "ENCODE_FAILED",
            ReasonCode::ConcatFailed => "CONCAT_FAILED",
            ReasonCode::ProbeFailed => "PROBE_FAILED",
            ReasonCode::ValidationFailed => "VALIDATION_FAILED",
            ReasonCode::Timeout => "TIMEOUT",
            ReasonCode::ResourceExhausted => "RESOURCE_EXHAUSTED",
            ReasonCode::EmergencyFallback => "EMERGENCY_FALLBACK",
        }
    }
}

/// Distinct reason codes have distinct names.
pub proof fn lemma_reason_names_distinct(a: ReasonCode, b: ReasonCode)
    ensures
        a.name() == b.name() ==> a == b,
{
    reveal_strlit("SUCCESS");
    reveal_strlit("SUCCESS_WITH_FALLBACK");
    reveal_strlit("DECODE_FAILED");
    reveal_strlit("EFFECTS_FAILED");
    reveal_strlit("OVERLAY_FAILED");
    reveal_strlit("AUDIO_FAILED");
    reveal_strlit("ENCODE_FAILED");
    reveal_strlit("CONCAT_FAILED");
    reveal_strlit("PROBE_FAILED");
    reveal_strlit("VALIDATION_FAILED");
    reveal_strlit("TIMEOUT");
    reveal_strlit("RESOURCE_EXHAUSTED");
    reveal_strlit("EMERGENCY_FALLBACK");
    if a.name() == b.name() && a != b {
        assert(a.name().len() == b.name().len());
        assert(a.name()[0] == b.name()[0]);
    }
}

} // verus!
