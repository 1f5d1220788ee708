//! Render configuration for pipeline execution.

use vstd::prelude::*;
use crate::errors::{MediaError, MediaErrorCode, MediaResult};

verus! {

/// Execution mode for the render pipeline.
#[derive(Debug, Clone, Copy, PartialEq, Eq, Structural)]
pub enum RenderMode {
    /// Normal mode: no fallbacks allowed.
    Normal,
    /// Emergency mode: fallbacks permitted with audit trail.
    Emergency,
}

impl Default for RenderMode {
    fn default() -> (m: RenderMode)
        ensures
            m == RenderMode::Normal,
    {
        RenderMode::Normal
    }
}

/// Configuration for the render pipeline.
#[derive(Debug, Clone, Copy, PartialEq, Eq, Structural)]
pub struct RenderConfig {
    /// Execution mode.
    pub mode: RenderMode,
    /// Maximum execution time in seconds (0 = unlimited).
    pub timeout_secs: u64,
    /// Whether to emit drift metrics in the report.
    pub emit_drift_metrics: bool,
    /// Whether to emit per-component metrics.
    pub emit_component_metrics: bool,
}

impl Default for RenderConfig {
    fn default() -> (c: RenderConfig)
        ensures
            c == (RenderConfig {
                mode: RenderMode::Normal,
                timeout_secs: 0,
                emit_drift_metrics: true,
                emit_component_metrics: true,
            }),
    {
        RenderConfig {
            mode: RenderMode::Normal,
            timeout_secs: 0,
            emit_drift_metrics: true,
            emit_component_metrics: true,
        }
    }
}


/// A render graph needs an id.
pub fn check_graph_id(graph_id: &str) -> (r: MediaResult<()>)
    ensures
        r is Ok <==> graph_id@.len() > 0,
        r matches Err(e) ==> e.code == MediaErrorCode::TimelineInvalidPlan
            && e.message@ == "RenderGraph ID cannot be empty"@ && e.stage is None && e.path is None
            && !e.fallback_triggered,
{
    if graph_id.is_empty() {
        return Err(MediaError::new(MediaErrorCode::TimelineInvalidPlan, "RenderGraph ID cannot be empty"));
    }
    Ok(())
}

} // verus!
