# ruststream-core

A media-processing engine for probing, concatenating and rendering video,
with its decision logic verified by Verus.

## Layout

- `src/` — the verified library. Its functions state what they return or
  change in their `requires`/`ensures` contracts (those that read the clock or
  the shared atomic counters promise nothing of those readings), and the laws
  that span several functions are public proof functions (`lemma_*`).
  - `errors`, `instrumentation`: error codes and their display text, stage
    metrics, the profiler (stage-time map, CPU records, report text).
  - `audio_graph`, `audio_orchestrator`: audio graph validation, plan checks,
    recorded operations, artifact checks, the parity checksum.
  - `media_pipeline`, `render_graph`: the stage state machines (`PipelineRun`,
    `RenderRun`) that turn stage outcomes into metrics and results.
  - `filters::overlay_cache`, `probe::{lru_index, hot_cache}`: LRU caches.
  - `batch_scheduler`, `thread_pool`: cost-ordered parallel scheduling and
    pool sizing.
  - `audio::sample_buffer`: the frame-aligned sample buffer of AAC encoding.
  - `timeline`: timebases, the structural checks of a timeline plan and the
    effect and output checks of the render stages.
  - `video`, `io`, `text`: concat routes, plans and FFmpeg argument lists, filter
    path escaping, the FFmpeg command builder, decimal and hex rendering.
- `app/` — the command-line program and everything that talks to the
  outside world (FFmpeg, Symphonia, the file system, redb, io_uring) or
  computes in floating point. It drives the library's state machines.
- `tests/` — tests of the library.

Floating-point quantities that the library carries (drift metrics, volumes,
durations) are held as their IEEE-754 bit patterns and are never computed
with inside `src/`.
