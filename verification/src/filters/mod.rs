//! Filters: transition kinds and the overlay asset cache.

use vstd::prelude::*;

pub mod overlay_cache;

pub use overlay_cache::{CacheState, OverlayAsset, OverlayCache, OverlayCacheStats};

verus! {

/// Transition types between clips.
#[derive(Debug, Clone, Copy, PartialEq, Eq, Structural)]
pub enum TransitionType {
    Fade,
    WipeLeft,
    WipeRight,
    CircleCrop,
}

impl TransitionType {
    /// The name of the transition in FFmpeg's `xfade` filter.
    pub open spec fn xfade(self) -> Seq<char> {
        match self {
            TransitionType::Fade => "fade"@,
            TransitionType::WipeLeft => "wipeleft"@,
            TransitionType::WipeRight => "wiperight"@,
            TransitionType::CircleCrop => "circlecrop"@,
        }
    }

    /// The name of the transition in FFmpeg's `xfade` filter.
    pub fn xfade_name(&self) -> (s: &'static str)
        ensures
            s@ == self.xfade(),
    {
        match self {
            TransitionType::Fade => "fade",
            TransitionType::WipeLeft => "wipeleft",
            TransitionType::WipeRight => "wiperight",
            TransitionType::CircleCrop => "circlecrop",
        }
    }
}

} // verus!
