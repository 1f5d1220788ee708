//! The unified render result: the single output contract of media processing.

use vstd::prelude::*;
use crate::errors::{DriftMetrics, MediaError, opt_str_view};
use super::metrics::RenderMetrics;
use super::reason::ReasonCode;

verus! {

/// The character sequences held by a vector of strings.
pub open spec fn strings_view(v: Seq<String>) -> Seq<Seq<char>> {
    v.map_values(|s: String| s@)
}

/// Whether `s` occurs in `v`, compared by content.
pub fn strings_contain(v: &Vec<String>, s: &String) -> (b: bool)
    ensures
        b == strings_view(v@).contains(s@),
{
    let n = v.len();
    let mut i: usize = 0;
    while i < n
        invariant
            n == v.len(),
            i <= n,
            forall|j: int| 0 <= j < i ==> v@[j]@ != s@,
        decreases n - i,
    {
        if v[i] == *s {
            assert(strings_view(v@)[i as int] == s@);
            return true;
        }
        i += 1;
    }
    proof {
        if strings_view(v@).contains(s@) {
            let j = choose|j: int| 0 <= j < strings_view(v@).len() && strings_view(v@)[j] == s@;
            assert(v@[j]@ == s@);
        }
    }
    false
}

/// The outcome of a render: artifact path, metrics, reason codes and drift.
#[derive(Debug, Clone)]
pub struct RenderResult {
    /// Whether the render completed successfully.
    pub success: bool,
    /// Output artifact path (if successful).
    pub artifact_path: Option<String>,
    /// Complete render metrics.
    pub metrics: RenderMetrics,
    /// Drift correction metrics.
    pub drift: DriftMetrics,
    /// Machine-readable reason codes, in the order they were added.
    pub reason_codes: Vec<String>,
    /// Human-readable error message (if failed).
    pub error_message: Option<String>,
    /// Error code (if failed).
    pub error_code: Option<String>,
    /// Stage where the error occurred (if failed).
    pub error_stage: Option<String>,
    /// Whether emergency fallback was used.
    pub fallback_used: bool,
    /// Components that used fallback.
    pub fallback_components: Vec<String>,
}

impl RenderResult {
    /// The reason codes as character sequences.
    pub open spec fn codes(&self) -> Seq<Seq<char>> {
        strings_view(self.reason_codes@)
    }

    /// Whether the render succeeded with no fallback anywhere.
    pub open spec fn clean_success(&self) -> bool {
        self.success && !self.fallback_used && !self.metrics.any_fallback()
    }

    /// Create a successful result for the artifact at `artifact_path`.
    pub fn success(artifact_path: &str) -> (r: RenderResult)
        ensures
            r.success,
            opt_str_view(r.artifact_path) == Some(artifact_path@),
            r.metrics.wf(),
            r.metrics.is_fresh(),
            r.drift == DriftMetrics::zero(),
            r.codes() == seq![ReasonCode::Success.name()],
            r.error_message is None,
            r.error_code is None,
            r.error_stage is None,
            !r.fallback_used,
            r.fallback_components@.len() == 0,
    {
        let mut reason_codes: Vec<String> = Vec::new();
        reason_codes.push(String::from_str(ReasonCode::Success.as_str()));
        assert(strings_view(reason_codes@) =~= seq![ReasonCode::Success.name()]);
        RenderResult {
            success: true,
            artifact_path: Some(String::from_str(artifact_path)),
            metrics: RenderMetrics::new(),
            drift: DriftMetrics::new(),
            reason_codes,
            error_message: None,
            error_code: None,
            error_stage: None,
            fallback_used: false,
            fallback_components: Vec::new(),
        }
    }

    /// Create a failed result from an error: its code is the only reason
    /// code, and the fallback flag follows the error's.
    pub fn failure(error: MediaError) -> (r: RenderResult)
        ensures
            !r.success,
            r.artifact_path is None,
            r.metrics.wf(),
            r.metrics.is_fresh(),
            r.drift == DriftMetrics::zero(),
            r.codes() == seq![error.code.name()],
            opt_str_view(r.error_message) == Some(error.message@),
            opt_str_view(r.error_code) == Some(error.code.name()),
            opt_str_view(r.error_stage) == opt_str_view(error.stage),
            r.fallback_used == error.fallback_triggered,
            r.fallback_components@.len() == 0,
    {
        let mut reason_codes: Vec<String> = Vec::new();
        reason_codes.push(String::from_str(error.code.as_str()));
        assert(strings_view(reason_codes@) =~= seq![error.code.name()]);
        let fallback_used = error.fallback_triggered;
        RenderResult {
            success: false,
            artifact_path: None,
            metrics: RenderMetrics::new(),
            drift: DriftMetrics::new(),
            reason_codes,
            error_message: Some(error.message),
            error_code: Some(String::from_str(error.code.as_str())),
            error_stage: error.stage,
            fallback_used,
            fallback_components: Vec::new(),
        }
    }

    /// Set metrics.
    pub fn with_metrics(self, metrics: RenderMetrics) -> (r: RenderResult)
        ensures
            r == (RenderResult { metrics, ..self }),
    {
        RenderResult { metrics, ..self }
    }

    /// Set drift metrics.
    pub fn with_drift(self, drift: DriftMetrics) -> (r: RenderResult)
        ensures
            r == (RenderResult { drift, ..self }),
    {
        RenderResult { drift, ..self }
    }

    /// Add a reason code at the end.
    pub fn with_reason_code(self, code: ReasonCode) -> (r: RenderResult)
        ensures
            r.codes() == self.codes().push(code.name()),
            r.success == self.success,
            r.artifact_path == self.artifact_path,
            r.metrics == self.metrics,
            r.drift == self.drift,
            r.error_message == self.error_message,
            r.error_code == self.error_code,
            r.error_stage == self.error_stage,
            r.fallback_used == self.fallback_used,
            r.fallback_components == self.fallback_components,
    {
        let mut r = self;
        r.reason_codes.push(String::from_str(code.as_str()));
        assert(strings_view(r.reason_codes@) =~= strings_view(self.reason_codes@).push(code.name()));
        r
    }

    /// Mark as using emergency fallback by `components`; the
    /// `EMERGENCY_FALLBACK` reason code is added unless already present.
    pub fn with_fallback(self, components: Vec<String>) -> (r: RenderResult)
        ensures
            r.fallback_used,
            r.fallback_components == components,
            r.codes() == (if self.codes().contains(ReasonCode::EmergencyFallback.name()) {
                self.codes()
            } else {
                self.codes().push(ReasonCode::EmergencyFallback.name())
            }),
            r.success == self.success,
            r.artifact_path == self.artifact_path,
            r.metrics == self.metrics,
            r.drift == self.drift,
            r.error_message == self.error_message,
            r.error_code == self.error_code,
            r.error_stage == self.error_stage,
    {
        let mut r = self;
        r.fallback_used = true;
        r.fallback_components = components;
        let code = String::from_str(ReasonCode::EmergencyFallback.as_str());
        if !strings_contain(&r.reason_codes, &code) {
            r.reason_codes.push(code);
            assert(strings_view(r.reason_codes@) =~= strings_view(self.reason_codes@).push(
                ReasonCode::EmergencyFallback.name(),
            ));
        }
        r
    }

    /// Check if the result indicates a clean success (no fallbacks).
    pub fn is_clean_success(&self) -> (b: bool)
        ensures
            b == self.clean_success(),
    {
        self.success && !self.fallback_used && !self.metrics.has_any_fallback()
    }
}

/// Marking a result as using fallback twice gives the reason codes that
/// marking it once gives: `EMERGENCY_FALLBACK` is never added a second time.
pub proof fn lemma_with_fallback_idempotent(codes: Seq<Seq<char>>)
    ensures
        ({
            let fb = ReasonCode::EmergencyFallback.name();
            let once = if codes.contains(fb) { codes } else { codes.push(fb) };
            let twice = if once.contains(fb) { once } else { once.push(fb) };
            &&& once.contains(fb)
            &&& twice == once
        }),
{
    let fb = ReasonCode::EmergencyFallback.name();
    if !codes.contains(fb) {
        assert(codes.push(fb)[codes.len() as int] == fb);
    }
}

} // verus!
