//! RustStream core: the verified heart of a media processing engine.
//!
//! The library holds the data model of the render pipeline (errors, metrics,
//! timelines, audio graphs, render results), its caches and schedulers, and the
//! builders of FFmpeg filter strings.  Verus checks every function here
//! against its contract; the few that read the clock or the shared atomic
//! counters promise nothing of the values they read.

pub mod text;
pub mod errors;

pub use errors::{MediaError, MediaErrorCode, MediaResult};
pub mod instrumentation;
pub mod timeline;
pub mod audio_graph;
pub mod render_graph;
pub mod batch_scheduler;
pub mod filters;
pub mod probe;
pub mod audio_orchestrator;
pub mod media_pipeline;
pub mod thread_pool;
pub mod io;
pub mod audio;
pub mod video;
pub mod server;
pub mod info;

pub use info::{LibraryFeatures, LibraryInfo, VERSION};
