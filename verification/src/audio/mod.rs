//! Audio: FFmpeg filter strings for delaying and concatenating audio, and
//! what the build offers for decoding.

use vstd::prelude::*;

pub mod audio_mix;
pub mod sample_buffer;

pub use audio_mix::{build_audio_delay_filter, build_concat_audio_filter};
pub use sample_buffer::SampleBuffer;

verus! {

/// Whether audio files can be decoded natively (with Symphonia) rather than
/// through FFmpeg; this build always links Symphonia.
pub fn native_decoding_available() -> (b: bool)
    ensures
        b,
{
    true
}

} // verus!
