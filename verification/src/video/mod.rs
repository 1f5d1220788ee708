//! Video: the concatenation configuration, the base-video check of merges
//! and bakes, and FFmpeg filter-path escaping.

use vstd::prelude::*;

pub mod concat;
pub mod overlay_merge;

pub use overlay_merge::escape_filter_path;

verus! {

/// Video concatenation configuration.
#[derive(Debug, Clone)]
pub struct ConcatConfig {
    /// List of input video paths (in order).
    pub inputs: Vec<String>,
    /// Output video path.
    pub output: String,
    /// Output codec (h264, h265, libx264, copy).
    pub codec: String,
    /// Output CRF quality (0-51, lower is better).
    pub crf: u32,
    /// Attempt stream-copy concat when clips are codec-compatible.
    pub allow_stream_copy: bool,
}

/// The default codec, `libx264`.
pub fn default_codec() -> (s: String)
    ensures
        s@ == "libx264"@,
{
    String::from_str("libx264")
}

/// The default CRF, 23.
pub fn default_crf() -> (c: u32)
    ensures
        c == 23,
{
    23
}

/// Stream copy is attempted by default.
pub fn default_allow_stream_copy() -> (b: bool)
    ensures
        b,
{
    true
}

impl Default for ConcatConfig {
    fn default() -> (c: ConcatConfig)
        ensures
            c.inputs@.len() == 0,
            c.output@.len() == 0,
            c.codec@ == "libx264"@,
            c.crf == 23,
            c.allow_stream_copy,
    {
        ConcatConfig {
            inputs: Vec::new(),
            output: String::new(),
            codec: default_codec(),
            crf: default_crf(),
            allow_stream_copy: default_allow_stream_copy(),
        }
    }
}

/// An overlay merge, an audio bake or an assembly needs the base video it is
/// built on.
pub fn check_base_video_path(base_video_path: &str) -> (r: Result<(), String>)
    ensures
        r is Ok <==> base_video_path@.len() > 0,
        r matches Err(m) ==> m@ == "base_video_path is required"@,
{
    if base_video_path.is_empty() {
        return Err(String::from_str("base_video_path is required"));
    }
    Ok(())
}

} // verus!
