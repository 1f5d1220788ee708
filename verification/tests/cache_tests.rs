use ruststream_core::filters::{CacheState, OverlayAsset, OverlayCache, OverlayCacheStats, TransitionType};
use ruststream_core::errors::{MediaErrorCode, MediaResult};
use ruststream_core::probe::{HotSlab, LruIndex};
use std::sync::Arc;

fn mock_decoder(path: &str) -> MediaResult<(u32, u32, Vec<u8>)> {
    let _ = path;
    Ok((2, 2, vec![255, 0, 0, 255, 255, 0, 0, 255, 255, 0, 0, 255, 255, 0, 0, 255]))
}

fn asset(name: &str) -> Arc<OverlayAsset> {
    Arc::new(OverlayAsset {
        path: name.to_string(),
        width: 1,
        height: 1,
        rgba: vec![0, 0, 0, 0],
        cache_key: name.to_string(),
    })
}

#[test]
fn overlay_asset_sizes() {
    let a = OverlayAsset { path: "p".into(), width: 3, height: 5, rgba: vec![0; 60], cache_key: "k".into() };
    assert_eq!(a.byte_size(), 60);
    assert_eq!(a.pixel_count(), 15);
}

#[test]
fn test_overlay_cache_miss_then_hit() {
    let mut cache = OverlayCache::new();
    let a1 = cache.get_or_decode("logo.png", "logo.png|1|4", true, mock_decoder).unwrap();
    let a2 = cache.get_or_decode("logo.png", "logo.png|1|4", true, mock_decoder).unwrap();
    assert_eq!(a1.width, 2);
    assert_eq!(a2.width, 2);
    let stats = cache.stats();
    assert_eq!(stats.misses, 1);
    assert_eq!(stats.hits, 1);
    assert_eq!(stats.entries, 1);
    assert_eq!(stats.total_bytes, 16);
}

#[test]
fn test_overlay_cache_lru_eviction() {
    let mut cache = OverlayCache::with_capacity(2);
    cache.get_or_decode("a.png", "a", true, mock_decoder).unwrap();
    cache.get_or_decode("b.png", "b", true, mock_decoder).unwrap();
    cache.get_or_decode("a.png", "a", true, mock_decoder).unwrap();
    cache.get_or_decode("c.png", "c", true, mock_decoder).unwrap();
    let stats = cache.stats();
    assert_eq!(stats.entries, 2);
    assert_eq!(stats.evictions, 1);
    // "b" was least recently used: asking for it again is a miss.
    cache.get_or_decode("b.png", "b", true, mock_decoder).unwrap();
    assert_eq!(cache.stats().misses, 4);
}

#[test]
fn test_overlay_cache_clear() {
    let mut cache = OverlayCache::new();
    cache.get_or_decode("logo2.png", "k2", true, mock_decoder).unwrap();
    assert_eq!(cache.stats().entries, 1);
    cache.clear();
    assert_eq!(cache.stats().entries, 0);
}

#[test]
fn test_overlay_cache_nonexistent() {
    let mut cache = OverlayCache::new();
    let result = cache.get_or_decode("/tmp/__missing_overlay__.png", "missing", false, mock_decoder);
    let e = result.unwrap_err();
    assert_eq!(e.code, MediaErrorCode::IoFileNotFound);
    assert_eq!(e.message, "overlay asset not found: /tmp/__missing_overlay__.png");
    assert_eq!(cache.stats().misses, 1);
}

#[test]
fn overlay_cache_invalidate_and_decoder_error() {
    let mut cache = OverlayCache::new();
    cache.get_or_decode("a.png", "a", true, mock_decoder).unwrap();
    cache.invalidate("a");
    assert_eq!(cache.stats().entries, 0);
    let failing = |_: &str| -> MediaResult<(u32, u32, Vec<u8>)> {
        Err(ruststream_core::MediaError::new(MediaErrorCode::DecodeFailed, "bad png"))
    };
    let e = cache.get_or_decode("a.png", "a", true, failing).unwrap_err();
    assert_eq!(e.message, "bad png");
    assert_eq!(cache.stats().entries, 0);
    assert_eq!(OverlayCacheStats::default().hits, 0);
}

#[test]
fn cache_state_lru_order() {
    let mut state = CacheState::new();
    assert!(!state.insert("a".to_string(), asset("a"), 2));
    assert!(!state.insert("b".to_string(), asset("b"), 2));
    state.touch("a");
    assert!(state.insert("c".to_string(), asset("c"), 2));
    assert!(state.get("b").is_none());
    assert_eq!(state.get("a").unwrap().path, "a");
    assert_eq!(state.len(), 2);
    assert!(state.evict_lru());
    assert!(state.get("a").is_none());
    assert!(state.remove("c"));
    assert!(!state.evict_lru());
}

#[test]
fn cache_state_reinsert_replaces() {
    let mut state = CacheState::new();
    state.insert("a".to_string(), asset("old"), 4);
    state.insert("a".to_string(), asset("new"), 4);
    assert_eq!(state.len(), 1);
    assert_eq!(state.get("a").unwrap().path, "new");
}

#[test]
fn transition_types_exist() {
    let t = TransitionType::WipeLeft;
    assert_eq!(format!("{:?}", t), "WipeLeft");
}

#[test]
fn lru_index_order_and_eviction() {
    let mut lru = LruIndex::new();
    lru.insert("a", 10);
    lru.insert("b", 20);
    lru.insert("c", 30);
    lru.touch("a");
    assert_eq!(lru.len(), 3);
    assert_eq!(lru.keys_to_evict(2), vec!["b".to_string(), "c".to_string()]);
    assert_eq!(lru.keys_to_evict(10).len(), 3);
    assert_eq!(lru.remove("c"), Some(0));
    assert_eq!(lru.remove("c"), None);
    assert_eq!(lru.keys_to_evict(1), vec!["b".to_string()]);
    lru.clear();
    assert_eq!(lru.len(), 0);
}

#[test]
fn test_slab_insert_and_get() {
    let mut slab: HotSlab<String> = HotSlab::new();
    slab.insert("key1".to_string(), "test.mp4".to_string());
    let found = slab.get("key1");
    assert!(found.is_some());
    assert_eq!(found.unwrap(), "test.mp4");
    assert_eq!(slab.occupancy(), 1);
}

#[test]
fn test_slab_ring_overflow() {
    let mut slab: HotSlab<u32> = HotSlab::new();
    for i in 0..64u32 {
        slab.insert(format!("key-{}", i), i);
    }
    assert_eq!(slab.occupancy(), 32);
    assert!(slab.get("key-0").is_none());
    assert_eq!(slab.get("key-63"), Some(&63));
}

#[test]
fn slab_invalidate() {
    let mut slab: HotSlab<u32> = HotSlab::new();
    slab.insert("a".to_string(), 1);
    slab.insert("b".to_string(), 2);
    slab.invalidate("a");
    assert!(slab.get("a").is_none());
    assert_eq!(slab.get("b"), Some(&2));
    assert_eq!(slab.occupancy(), 1);
    slab.invalidate("/nonexistent/path.mp4");
    assert_eq!(slab.occupancy(), 1);
}

#[test]
fn transition_xfade_names() {
    assert_eq!(TransitionType::Fade.xfade_name(), "fade");
    assert_eq!(TransitionType::WipeLeft.xfade_name(), "wipeleft");
    assert_eq!(TransitionType::WipeRight.xfade_name(), "wiperight");
    assert_eq!(TransitionType::CircleCrop.xfade_name(), "circlecrop");
}

#[test]
fn test_l1_occupancy_starts_zero() {
    let slab: HotSlab<u32> = HotSlab::new();
    assert_eq!(slab.occupancy(), 0);
}

#[test]
fn test_l1_invalidate_nonexistent() {
    // Must not panic even if the key was never inserted.
    let mut slab: HotSlab<u32> = HotSlab::new();
    slab.invalidate("/nonexistent/path.mp4");
    assert_eq!(slab.occupancy(), 0);
}
