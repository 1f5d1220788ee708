//! Component identifiers and per-component metrics.

use vstd::prelude::*;

verus! {

/// Identifies a pipeline component for metric tracking.
#[derive(Debug, Clone, Copy, PartialEq, Eq, Hash, Structural)]
pub enum ComponentId {
    /// Video decode stage.
    Decode,
    /// Video effects stage.
    Effects,
    /// Overlay merge stage.
    Overlay,
    /// Audio processing stage.
    Audio,
    /// Video encode stage.
    Encode,
    /// Concatenation operation.
    Concat,
    /// Probe operation.
    Probe,
}

impl ComponentId {
    /// The lowercase name of a component.
    pub open spec fn name(self) -> Seq<char> {
        match self {
            ComponentId::Decode => "decode"@,
            ComponentId::Effects => "effects"@,
            ComponentId::Overlay => "overlay"@,
            ComponentId::Audio => "audio"@,
            ComponentId::Encode => "encode"@,
            ComponentId::Concat => "concat"@,
            ComponentId::Probe => "probe"@,
        }
    }

    pub fn as_str(&self) -> (s: &'static str)
        ensures
            s@ == self.name(),
    {
        match self {
            ComponentId::Decode => "decode",
            ComponentId::Effects => "effects",
            ComponentId::Overlay => "overlay",
            ComponentId::Audio => "audio",
            ComponentId::Encode => "encode",
            ComponentId::Concat => "concat",
            ComponentId::Probe => "probe",
        }
    }
}

/// Distinct components have distinct names.
pub proof fn lemma_component_names_distinct(a: ComponentId, b: ComponentId)
    ensures
        a.name() == b.name() ==> a == b,
{
    reveal_strlit("decode");
    reveal_strlit("effects");
    reveal_strlit("overlay");
    reveal_strlit("audio");
    reveal_strlit("encode");
    reveal_strlit("concat");
    reveal_strlit("probe");
    if a.name() == b.name() && a != b {
        assert(a.name().len() == b.name().len());
        assert(a.name()[0] == b.name()[0]);
        assert(a.name()[1] == b.name()[1]);
    }
}

/// Attempt/success/fallback counters for a single component.
#[derive(Debug, Clone)]
pub struct ComponentMetrics {
    /// Number of times this component was attempted.
    pub attempts: u64,
    /// Number of successful completions.
    pub successes: u64,
    /// Number of fallback invocations (emergency only).
    pub fallbacks: u64,
    /// Total time spent in this component (milliseconds).
    pub total_ms: u64,
    /// Last error code (if any).
    pub last_error: Option<String>,
}

impl ComponentMetrics {
    /// Counters that are all zero, with no error recorded.
    pub open spec fn is_zero(&self) -> bool {
        self.attempts == 0 && self.successes == 0 && self.fallbacks == 0 && self.total_ms == 0
            && self.last_error is None
    }

    pub fn new() -> (m: ComponentMetrics)
        ensures
            m.is_zero(),
    {
        ComponentMetrics { attempts: 0, successes: 0, fallbacks: 0, total_ms: 0, last_error: None }
    }

    /// Record an attempt.
    pub fn record_attempt(&mut self)
        requires
            old(self).attempts < u64::MAX,
        ensures
            final(self).attempts == old(self).attempts + 1,
            final(self).successes == old(self).successes,
            final(self).fallbacks == old(self).fallbacks,
            final(self).total_ms == old(self).total_ms,
            final(self).last_error == old(self).last_error,
    {
        self.attempts = self.attempts + 1;
    }

    /// Record a success that took `elapsed_ms`.
    pub fn record_success(&mut self, elapsed_ms: u64)
        requires
            old(self).successes < u64::MAX,
            old(self).total_ms + elapsed_ms <= u64::MAX,
        ensures
            final(self).attempts == old(self).attempts,
            final(self).successes == old(self).successes + 1,
            final(self).fallbacks == old(self).fallbacks,
            final(self).total_ms == old(self).total_ms + elapsed_ms,
            final(self).last_error == old(self).last_error,
    {
        self.successes = self.successes + 1;
        self.total_ms = self.total_ms + elapsed_ms;
    }

    /// Record a fallback that took `elapsed_ms`, failing with `error_code`.
    pub fn record_fallback(&mut self, elapsed_ms: u64, error_code: &str)
        requires
            old(self).fallbacks < u64::MAX,
            old(self).total_ms + elapsed_ms <= u64::MAX,
        ensures
            final(self).attempts == old(self).attempts,
            final(self).successes == old(self).successes,
            final(self).fallbacks == old(self).fallbacks + 1,
            final(self).total_ms == old(self).total_ms + elapsed_ms,
            final(self).last_error matches Some(e) && e@ == error_code@,
    {
        self.fallbacks = self.fallbacks + 1;
        self.total_ms = self.total_ms + elapsed_ms;
        self.last_error = Some(String::from_str(error_code));
    }

    /// Whether this component has any fallbacks.
    pub fn has_fallbacks(&self) -> (b: bool)
        ensures
            b == (self.fallbacks > 0),
    {
        self.fallbacks > 0
    }
}

impl Default for ComponentMetrics {
    fn default() -> (m: ComponentMetrics)
        ensures
            m.is_zero(),
    {
        ComponentMetrics::new()
    }
}

} // verus!
