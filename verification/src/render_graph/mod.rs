//! The unified render graph contract: component identifiers and metrics,
//! render configuration, reason codes, the render result, and the audio
//! graph runner.

pub mod component;
pub mod config;
pub mod metrics;
pub mod process;
pub mod reason;
pub mod result;

pub use component::{ComponentId, ComponentMetrics};
pub use config::{RenderConfig, RenderMode};
pub use metrics::RenderMetrics;
pub use process::run_audio_graph;
pub use reason::ReasonCode;
pub use result::RenderResult;
