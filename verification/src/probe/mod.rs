//! Probe support: audio stream metadata, cache statistics, the access order
//! index of the persistent metadata cache, and the per-thread hot slab that
//! sits in front of it.

use vstd::prelude::*;

pub mod hot_cache;
pub mod lru_index;

pub use hot_cache::HotSlab;
pub use lru_index::LruIndex;

verus! {

/// Audio-specific metadata.
#[derive(Debug, Clone)]
pub struct AudioMetadata {
    pub codec: String,
    pub sample_rate: u32,
    pub channels: u16,
    pub bit_depth: Option<u16>,
    pub bit_rate: Option<u64>,
}

impl Default for AudioMetadata {
    fn default() -> (m: AudioMetadata)
        ensures
            m.codec@.len() == 0,
            m.sample_rate == 0,
            m.channels == 0,
            m.bit_depth is None,
            m.bit_rate is None,
    {
        AudioMetadata { codec: String::new(), sample_rate: 0, channels: 0, bit_depth: None, bit_rate: None }
    }
}

/// Statistics of the persistent metadata cache.
#[derive(Debug, Clone)]
pub struct CacheStats {
    pub entry_count: usize,
    pub max_size_mb: u64,
    /// Location of the cache database.
    pub path: String,
    /// Approximate total size of cached data in bytes.
    pub approx_size_bytes: u64,
}

impl Default for CacheStats {
    fn default() -> (s: CacheStats)
        ensures
            s.entry_count == 0,
            s.max_size_mb == 0,
            s.path@.len() == 0,
            s.approx_size_bytes == 0,
    {
        CacheStats { entry_count: 0, max_size_mb: 0, path: String::new(), approx_size_bytes: 0 }
    }
}

} // verus!
