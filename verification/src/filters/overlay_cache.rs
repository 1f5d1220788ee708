//! Overlay asset cache: decoded RGBA overlays kept in least-recently-used
//! order, so that each asset is decoded at most once while it stays cached.
//!
//! The cache is keyed by a string built from the asset's path, modification
//! time and size; that key, and whether the path exists, are found by the
//! caller on the file system and handed in.

use vstd::prelude::*;
use std::collections::VecDeque;
use std::sync::Arc;
use crate::errors::{MediaError, MediaErrorCode, MediaResult};
use crate::text::push_str;

verus! {

/// Default maximum number of overlay assets kept in memory.
pub const DEFAULT_MAX_ENTRIES: usize = 256;

/// A decoded, ready-to-composite overlay asset.
#[derive(Debug, Clone)]
pub struct OverlayAsset {
    /// Path of the source image.
    pub path: String,
    /// Width in pixels.
    pub width: u32,
    /// Height in pixels.
    pub height: u32,
    /// Raw RGBA8 pixel data (`width * height * 4` bytes).
    pub rgba: Vec<u8>,
    /// Cache key used to look this entry up.
    pub cache_key: String,
}

impl OverlayAsset {
    /// Total byte size of the RGBA buffer.
    pub fn byte_size(&self) -> (n: usize)
        ensures
            n == self.rgba@.len(),
    {
        self.rgba.len()
    }

    /// Pixel count.
    pub fn pixel_count(&self) -> (n: usize)
        requires
            self.width * self.height <= u32::MAX,
        ensures
            n == self.width * self.height,
    {
        (self.width * self.height) as usize
    }
}

/// Cache hit/miss statistics.
#[derive(Debug, Clone, Copy, PartialEq, Eq, Structural)]
pub struct OverlayCacheStats {
    pub hits: u64,
    pub misses: u64,
    pub evictions: u64,
    pub entries: usize,
    pub total_bytes: usize,
}

impl Default for OverlayCacheStats {
    fn default() -> (s: OverlayCacheStats)
        ensures
            s == (OverlayCacheStats { hits: 0, misses: 0, evictions: 0, entries: 0, total_bytes: 0 }),
    {
        OverlayCacheStats { hits: 0, misses: 0, evictions: 0, entries: 0, total_bytes: 0 }
    }
}

/// Another handle on a shared asset (`Arc::clone`).
#[verifier::external_body]
fn share(a: &Arc<OverlayAsset>) -> (r: Arc<OverlayAsset>)
    ensures
        r == *a,
{
    Arc::clone(a)
}

/// The position of `k` among `keys`, when it occurs.
pub open spec fn key_position(keys: Seq<Seq<char>>, k: Seq<char>) -> Option<int> {
    if keys.contains(k) {
        Some(choose|i: int| 0 <= i < keys.len() && keys[i] == k)
    } else {
        None
    }
}

/// The cached assets, least recently used first.
pub struct CacheState {
    entries: VecDeque<(String, Arc<OverlayAsset>)>,
}

impl CacheState {
    /// The cached (key, asset) pairs, least recently used first.
    pub closed spec fn lru(&self) -> Seq<(Seq<char>, Arc<OverlayAsset>)> {
        self.entries@.map_values(|e: (String, Arc<OverlayAsset>)| (e.0@, e.1))
    }

    /// The cached keys, least recently used first.
    pub open spec fn keys(&self) -> Seq<Seq<char>> {
        self.lru().map_values(|p: (Seq<char>, Arc<OverlayAsset>)| p.0)
    }

    /// No key is cached twice.
    pub open spec fn wf(&self) -> bool {
        self.keys().no_duplicates()
    }

    /// An empty cache.
    pub fn new() -> (s: CacheState)
        ensures
            s.wf(),
            s.lru().len() == 0,
    {
        let s = CacheState { entries: VecDeque::new() };
        assert(s.keys() =~= Seq::<Seq<char>>::empty());
        s
    }

    /// Number of cached assets.
    pub fn len(&self) -> (n: usize)
        ensures
            n == self.lru().len(),
    {
        self.entries.len()
    }

    /// The position of `key`, when it is cached.
    fn position(&self, key: &str) -> (r: Option<usize>)
        requires
            self.wf(),
        ensures
            r matches Some(i) ==> key_position(self.keys(), key@) == Some(i as int)
                && i < self.lru().len(),
            r is None ==> key_position(self.keys(), key@) is None,
    {
        let n = self.entries.len();
        let target = String::from_str(key);
        let mut i: usize = 0;
        while i < n
            invariant
                n == self.entries@.len(),
                i <= n,
                self.wf(),
                target@ == key@,
                forall|j: int| 0 <= j < i ==> self.entries@[j].0@ != key@,
            decreases n - i,
        {
            if self.entries[i].0 == target {
                proof {
                    assert(self.keys()[i as int] == key@);
                    assert(self.keys().contains(key@));
                    let c = choose|c: int| 0 <= c < self.keys().len() && self.keys()[c] == key@;
                    assert(self.wf());
                    if c != i {
                        assert(self.keys()[c] == self.keys()[i as int]);
                        assert(false);
                    }
                    assert(key_position(self.keys(), key@) == Some(i as int));
                }
                return Some(i);
            }
            i += 1;
        }
        proof {
            if self.keys().contains(key@) {
                let c = choose|c: int| 0 <= c < self.keys().len() && self.keys()[c] == key@;
                assert(self.entries@[c].0@ == key@);
            }
        }
        None
    }

    /// The asset cached under `key`, if any.
    pub fn get(&self, key: &str) -> (r: Option<Arc<OverlayAsset>>)
        requires
            self.wf(),
        ensures
            r is Some <==> self.keys().contains(key@),
            r matches Some(a) ==> ({
                let i = key_position(self.keys(), key@)->0;
                a == self.lru()[i].1
            }),
    {
        match self.position(key) {
            Some(i) => Some(share(&self.entries[i].1)),
            None => None,
        }
    }

    /// Make a cached key the most recently used; nothing happens to a key
    /// that is not cached.
    pub fn touch(&mut self, key: &str)
        requires
            old(self).wf(),
        ensures
            final(self).wf(),
            final(self).lru() == (match key_position(old(self).keys(), key@) {
                Some(i) => old(self).lru().remove(i).push(old(self).lru()[i]),
                None => old(self).lru(),
            }),
    {
        match self.position(key) {
            Some(i) => {
                let ghost before = self.lru();
                match self.entries.remove(i) {
                    Some(entry) => self.entries.push_back(entry),
                    None => {},
                }
                proof {
                    assert(self.lru() =~= before.remove(i as int).push(before[i as int]));
                    lemma_move_last_keeps_unique(before, i as int);
                    assert(self.keys() =~= before.remove(i as int).push(before[i as int]).map_values(
                        |p: (Seq<char>, Arc<OverlayAsset>)| p.0,
                    ));
                }
            },
            None => {},
        }
    }

    /// Evict the least recently used asset; `true` when there was one.
    pub fn evict_lru(&mut self) -> (evicted: bool)
        requires
            old(self).wf(),
        ensures
            final(self).wf(),
            evicted == (old(self).lru().len() > 0),
            final(self).lru() == (if evicted { old(self).lru().drop_first() } else { old(self).lru() }),
    {
        if self.entries.len() > 0 {
            let ghost before = self.lru();
            let _lru = self.entries.pop_front();
            proof {
                assert(self.lru() =~= before.drop_first());
                assert(self.keys() =~= old(self).keys().drop_first());
            }
            true
        } else {
            false
        }
    }

    /// Drop the asset cached under `key`; `true` when there was one.
    pub fn remove(&mut self, key: &str) -> (removed: bool)
        requires
            old(self).wf(),
        ensures
            final(self).wf(),
            removed == old(self).keys().contains(key@),
            final(self).lru() == (match key_position(old(self).keys(), key@) {
                Some(i) => old(self).lru().remove(i),
                None => old(self).lru(),
            }),
            !final(self).keys().contains(key@),
    {
        match self.position(key) {
            Some(i) => {
                let ghost before = self.lru();
                let _gone = self.entries.remove(i);
                proof {
                    assert(self.lru() =~= before.remove(i as int));
                    assert(self.keys() =~= old(self).keys().remove(i as int));
                    assert forall|x: int| 0 <= x < self.keys().len() implies self.keys()[x] != key@ by {
                        let y = if x < i { x } else { x + 1 };
                        assert(self.keys()[x] == old(self).keys()[y]);
                        assert(old(self).keys()[i as int] == key@);
                    }
                }
                true
            },
            None => {
                proof {
                    assert(!old(self).keys().contains(key@));
                }
                false
            },
        }
    }

    /// Cache `asset` under `key` as the most recently used entry, first
    /// evicting the least recently used one when `max_entries` are cached.
    /// An earlier asset under the same key is replaced.  Returns whether
    /// an eviction took place.
    pub fn insert(&mut self, key: String, asset: Arc<OverlayAsset>, max_entries: usize) -> (evicted: bool)
        requires
            old(self).wf(),
        ensures
            final(self).wf(),
            evicted == (old(self).lru().len() >= max_entries && old(self).lru().len() > 0),
            ({
                let base = if evicted { old(self).lru().drop_first() } else { old(self).lru() };
                let base_keys = base.map_values(|p: (Seq<char>, Arc<OverlayAsset>)| p.0);
                final(self).lru() == (match key_position(base_keys, key@) {
                    Some(i) => base.remove(i),
                    None => base,
                }).push((key@, asset))
            }),
            final(self).lru().last() == (key@, asset),
            old(self).lru().len() <= max_entries && max_entries > 0 ==> final(self).lru().len() <= max_entries,
    {
        let evicted = if self.entries.len() >= max_entries {
            self.evict_lru()
        } else {
            false
        };
        let ghost base = self.lru();
        let _replaced = self.remove(key.as_str());
        let ghost mid = self.lru();
        proof {
            assert(!self.keys().contains(key@));
        }
        self.entries.push_back((key, asset));
        proof {
            assert(self.lru() =~= mid.push((key@, asset)));
            assert(self.keys() =~= mid.map_values(|p: (Seq<char>, Arc<OverlayAsset>)| p.0).push(key@));
        }
        evicted
    }

    /// Drop every cached asset.
    pub fn clear(&mut self)
        ensures
            final(self).wf(),
            final(self).lru().len() == 0,
    {
        self.entries.clear();
        assert(self.keys() =~= Seq::<Seq<char>>::empty());
    }

    /// Total bytes of the cached RGBA buffers (saturating at `usize::MAX`).
    pub fn total_bytes(&self) -> (n: usize)
        ensures
            n == (if total_rgba_bytes(self.lru()) <= usize::MAX {
                total_rgba_bytes(self.lru())
            } else {
                usize::MAX as int
            }),
    {
        let mut total: usize = 0;
        let ghost mut exact: int = 0;
        let n = self.entries.len();
        let mut i: usize = 0;
        while i < n
            invariant
                n == self.entries@.len(),
                i <= n,
                exact == total_rgba_bytes(self.lru().take(i as int)),
                total == (if exact <= usize::MAX { exact } else { usize::MAX as int }),
            decreases n - i,
        {
            proof {
                assert(self.lru().take(i + 1).drop_last() =~= self.lru().take(i as int));
            }
            let size = self.entries[i].1.byte_size();
            proof {
                exact = exact + size;
            }
            total = total.saturating_add(size);
            i += 1;
        }
        proof {
            assert(self.lru().take(n as int) =~= self.lru());
        }
        total
    }
}

/// The sum of the RGBA buffer sizes of a sequence of cached assets.
pub open spec fn total_rgba_bytes(s: Seq<(Seq<char>, Arc<OverlayAsset>)>) -> int
    decreases s.len(),
{
    if s.len() == 0 {
        0
    } else {
        total_rgba_bytes(s.drop_last()) + s.last().1.rgba@.len()
    }
}

/// The bytes of a cache add up: an empty cache holds none, and caching one
/// more asset adds exactly its RGBA bytes to the total.
pub proof fn lemma_total_bytes_additive(s: Seq<(Seq<char>, Arc<OverlayAsset>)>, x: (Seq<char>, Arc<OverlayAsset>))
    ensures
        total_rgba_bytes(Seq::<(Seq<char>, Arc<OverlayAsset>)>::empty()) == 0,
        total_rgba_bytes(s.push(x)) == total_rgba_bytes(s) + x.1.rgba@.len(),
{
    assert(s.push(x).drop_last() =~= s);
}

/// The total of two caches laid end to end is the sum of their totals.
pub proof fn lemma_total_bytes_concat(a: Seq<(Seq<char>, Arc<OverlayAsset>)>, b: Seq<(Seq<char>, Arc<OverlayAsset>)>)
    ensures
        total_rgba_bytes(a + b) == total_rgba_bytes(a) + total_rgba_bytes(b),
    decreases b.len(),
{
    if b.len() == 0 {
        assert(a + b =~= a);
    } else {
        lemma_total_bytes_concat(a, b.drop_last());
        assert((a + b).drop_last() =~= a + b.drop_last());
        assert((a + b).last() == b.last());
    }
}

/// What a lookup gives back of an insertion: once `asset` is cached under a
/// new `key` behind the assets `base`, looking `key` up finds it in the last
/// (most recently used) place, and that entry holds `asset`.
pub proof fn lemma_hit_after_insert(base: Seq<(Seq<char>, Arc<OverlayAsset>)>, key: Seq<char>, asset: Arc<OverlayAsset>)
    requires
        base.map_values(|p: (Seq<char>, Arc<OverlayAsset>)| p.0).no_duplicates(),
        !base.map_values(|p: (Seq<char>, Arc<OverlayAsset>)| p.0).contains(key),
    ensures
        ({
            let after = base.push((key, asset));
            let keys = after.map_values(|p: (Seq<char>, Arc<OverlayAsset>)| p.0);
            &&& keys.no_duplicates()
            &&& key_position(keys, key) == Some(base.len() as int)
            &&& after[base.len() as int].1 == asset
        }),
{
    let base_keys = base.map_values(|p: (Seq<char>, Arc<OverlayAsset>)| p.0);
    let after = base.push((key, asset));
    let keys = after.map_values(|p: (Seq<char>, Arc<OverlayAsset>)| p.0);
    assert(keys =~= base_keys.push(key));
    assert(keys[base.len() as int] == key);
    assert forall|a: int, b: int| 0 <= a < keys.len() && 0 <= b < keys.len() && a != b implies keys[a] != keys[b] by {
        if a < base.len() && b < base.len() {
            assert(keys[a] == base_keys[a] && keys[b] == base_keys[b]);
        } else if a < base.len() {
            assert(keys[a] == base_keys[a]);
        } else if b < base.len() {
            assert(keys[b] == base_keys[b]);
        }
    }
    assert(keys.contains(key));
    let c = choose|c: int| 0 <= c < keys.len() && keys[c] == key;
    if c != base.len() {
        assert(keys[c] == keys[base.len() as int]);
    }
}

/// A miss followed by a hit on the same key: after `get_or_decode` caches
/// `asset` under a key that `cache` did not hold (evicting the least recently
/// used asset when the cache was full), the next lookup of that key finds it
/// in the most recently used place, returns `asset`, and leaves the order of
/// the cache as it was.
pub proof fn lemma_miss_then_hit(cache: OverlayCache, key: Seq<char>, asset: Arc<OverlayAsset>)
    requires
        cache.wf(),
        !cache.keys().contains(key),
    ensures
        ({
            let base = if cache.lru().len() >= cache.capacity() && cache.lru().len() > 0 {
                cache.lru().drop_first()
            } else {
                cache.lru()
            };
            let after = base.push((key, asset));
            let keys = after.map_values(|p: (Seq<char>, Arc<OverlayAsset>)| p.0);
            &&& key_position(keys, key) == Some(base.len() as int)
            &&& after[base.len() as int].1 == asset
            &&& after.remove(base.len() as int).push(after[base.len() as int]) == after
        }),
{
    let lru = cache.lru();
    let base = if lru.len() >= cache.capacity() && lru.len() > 0 { lru.drop_first() } else { lru };
    let lk = lru.map_values(|p: (Seq<char>, Arc<OverlayAsset>)| p.0);
    let bk = base.map_values(|p: (Seq<char>, Arc<OverlayAsset>)| p.0);
    assert(lk.no_duplicates());
    if lru.len() >= cache.capacity() && lru.len() > 0 {
        assert(bk =~= lk.drop_first());
        assert forall|a: int, b: int| 0 <= a < bk.len() && 0 <= b < bk.len() && a != b implies bk[a] != bk[b] by {
            assert(bk[a] == lk[a + 1] && bk[b] == lk[b + 1]);
        }
        if bk.contains(key) {
            let c = choose|c: int| 0 <= c < bk.len() && bk[c] == key;
            assert(lk[c + 1] == key);
            assert(lk.contains(key));
        }
    } else {
        assert(bk =~= lk);
    }
    lemma_hit_after_insert(base, key, asset);
    let after = base.push((key, asset));
    assert(after.remove(base.len() as int) =~= base);
}

/// Moving one entry to the end keeps the keys distinct.
proof fn lemma_move_last_keeps_unique(s: Seq<(Seq<char>, Arc<OverlayAsset>)>, i: int)
    requires
        0 <= i < s.len(),
        s.map_values(|p: (Seq<char>, Arc<OverlayAsset>)| p.0).no_duplicates(),
    ensures
        s.remove(i).push(s[i]).map_values(|p: (Seq<char>, Arc<OverlayAsset>)| p.0).no_duplicates(),
{
    let keys = s.map_values(|p: (Seq<char>, Arc<OverlayAsset>)| p.0);
    let t = s.remove(i).push(s[i]);
    let tk = t.map_values(|p: (Seq<char>, Arc<OverlayAsset>)| p.0);
    assert forall|a: int, b: int| 0 <= a < tk.len() && 0 <= b < tk.len() && a != b implies tk[a] != tk[b] by {
        let pa = if a == tk.len() - 1 { i } else if a < i { a } else { a + 1 };
        let pb = if b == tk.len() - 1 { i } else if b < i { b } else { b + 1 };
        assert(tk[a] == keys[pa]);
        assert(tk[b] == keys[pb]);
    }
}

/// The overlay cache: assets in LRU order and hit/miss/eviction counters.
pub struct OverlayCache {
    state: CacheState,
    max_entries: usize,
    hits: u64,
    misses: u64,
    evictions: u64,
}

impl OverlayCache {
    /// The cached (key, asset) pairs, least recently used first.
    pub closed spec fn lru(&self) -> Seq<(Seq<char>, Arc<OverlayAsset>)> {
        self.state.lru()
    }

    /// The maximum number of cached assets.
    pub closed spec fn capacity(&self) -> usize {
        self.max_entries
    }

    /// The hit, miss and eviction counters.
    pub closed spec fn counters(&self) -> (u64, u64, u64) {
        (self.hits, self.misses, self.evictions)
    }

    /// The cache is consistent: no key twice, never more entries than the
    /// capacity allows.
    pub closed spec fn wf(&self) -> bool {
        &&& self.state.wf()
        &&& self.max_entries > 0 ==> self.state.lru().len() <= self.max_entries
    }

    /// The cached keys, least recently used first.
    pub open spec fn keys(&self) -> Seq<Seq<char>> {
        self.lru().map_values(|p: (Seq<char>, Arc<OverlayAsset>)| p.0)
    }

    /// A cache with the default capacity.
    pub fn new() -> (c: OverlayCache)
        ensures
            c.wf(),
            c.lru().len() == 0,
            c.capacity() == DEFAULT_MAX_ENTRIES,
            c.counters() == (0u64, 0u64, 0u64),
    {
        OverlayCache::with_capacity(DEFAULT_MAX_ENTRIES)
    }

    /// A cache holding at most `max_entries` assets.
    pub fn with_capacity(max_entries: usize) -> (c: OverlayCache)
        ensures
            c.wf(),
            c.lru().len() == 0,
            c.capacity() == max_entries,
            c.counters() == (0u64, 0u64, 0u64),
    {
        OverlayCache { state: CacheState::new(), max_entries, hits: 0, misses: 0, evictions: 0 }
    }

    /// The asset for `path`, cached under `key`: a hit returns the cached
    /// asset and makes it the most recently used; a miss decodes the file with
    /// `decoder` (when it exists) and caches the result, evicting the least
    /// recently used asset when the cache is full.
    pub fn get_or_decode<F>(&mut self, path: &str, key: &str, path_exists: bool, decoder: F) -> (r:
        MediaResult<Arc<OverlayAsset>>) where F: FnOnce(&str) -> MediaResult<(u32, u32, Vec<u8>)>
        requires
            old(self).wf(),
            !old(self).keys().contains(key@) && path_exists ==> call_requires(decoder, (path,)),
        ensures
            final(self).wf(),
            final(self).capacity() == old(self).capacity(),
            old(self).keys().contains(key@) ==> ({
                let i = key_position(old(self).keys(), key@)->0;
                &&& r == Ok::<Arc<OverlayAsset>, MediaError>(old(self).lru()[i].1)
                &&& final(self).lru() == old(self).lru().remove(i).push(old(self).lru()[i])
                &&& final(self).counters() == (
                    old(self).counters().0.wrapping_add(1),
                    old(self).counters().1,
                    old(self).counters().2,
                )
            }),
            !old(self).keys().contains(key@) ==> final(self).counters().1 == old(self).counters().1.wrapping_add(1)
                && final(self).counters().0 == old(self).counters().0,
            !old(self).keys().contains(key@) && !path_exists ==> ({
                &&& r matches Err(e) && e.code == MediaErrorCode::IoFileNotFound
                    && e.message@ == "overlay asset not found: "@ + path@
                &&& final(self).lru() == old(self).lru()
                &&& final(self).counters().2 == old(self).counters().2
            }),
            !old(self).keys().contains(key@) && path_exists ==> ({
                &&& exists|d: MediaResult<(u32, u32, Vec<u8>)>| {
                    &&& call_ensures(decoder, (path,), d)
                    &&& (d matches Err(e) ==> r == Err::<Arc<OverlayAsset>, MediaError>(e)
                        && final(self).lru() == old(self).lru()
                        && final(self).counters().2 == old(self).counters().2)
                    &&& (d matches Ok(img) ==> r matches Ok(a) && a.path@ == path@
                        && a.width == img.0 && a.height == img.1 && a.rgba@ == img.2@
                        && a.cache_key@ == key@)
                }
                &&& r matches Ok(a) ==> final(self).lru() == (if old(self).lru().len() >= old(self).capacity()
                        && old(self).lru().len() > 0 {
                        old(self).lru().drop_first()
                    } else {
                        old(self).lru()
                    }).push((key@, a))
                    && final(self).counters().2 == (if old(self).lru().len() >= old(self).capacity()
                        && old(self).lru().len() > 0 {
                        old(self).counters().2.wrapping_add(1)
                    } else {
                        old(self).counters().2
                    })
            }),
    {
        match self.state.get(key) {
            Some(asset) => {
                self.hits = self.hits.wrapping_add(1);
                self.state.touch(key);
                return Ok(asset);
            },
            None => {},
        }
        self.misses = self.misses.wrapping_add(1);
        if !path_exists {
            let mut message = String::from_str("overlay asset not found: ");
            push_str(&mut message, path);
            return Err(MediaError::new(MediaErrorCode::IoFileNotFound, message.as_str()));
        }
        let decoded = decoder(path);
        match decoded {
            Err(e) => Err(e),
            Ok(img) => {
                let (width, height, rgba) = img;
                let asset = Arc::new(
                    OverlayAsset {
                        path: String::from_str(path),
                        width,
                        height,
                        rgba,
                        cache_key: String::from_str(key),
                    },
                );
                let ghost before = self.state.lru();
                let evicted = self.state.insert(String::from_str(key), share(&asset), self.max_entries);
                if evicted {
                    self.evictions = self.evictions.wrapping_add(1);
                }
                proof {
                    assert(self.state.lru().last() == (key@, asset));
                    assert(self.keys()[self.keys().len() - 1] == key@);
                    assert(!before.map_values(|p: (Seq<char>, Arc<OverlayAsset>)| p.0).contains(key@));
                    let base = if evicted { before.drop_first() } else { before };
                    let base_keys = base.map_values(|p: (Seq<char>, Arc<OverlayAsset>)| p.0);
                    assert(!base_keys.contains(key@)) by {
                        if base_keys.contains(key@) {
                            let c = choose|c: int| 0 <= c < base_keys.len() && base_keys[c] == key@;
                            if evicted {
                                assert(before.map_values(|p: (Seq<char>, Arc<OverlayAsset>)| p.0)[c + 1] == key@);
                            } else {
                                assert(before.map_values(|p: (Seq<char>, Arc<OverlayAsset>)| p.0)[c] == key@);
                            }
                        }
                    }
                }
                Ok(asset)
            },
        }
    }

    /// Drop the asset cached under `key` (after it changed on disk).
    pub fn invalidate(&mut self, key: &str)
        requires
            old(self).wf(),
        ensures
            final(self).wf(),
            !final(self).keys().contains(key@),
            final(self).lru() == (match key_position(old(self).keys(), key@) {
                Some(i) => old(self).lru().remove(i),
                None => old(self).lru(),
            }),
            final(self).counters() == old(self).counters(),
            final(self).capacity() == old(self).capacity(),
    {
        let _removed = self.state.remove(key);
    }

    /// Drop every cached asset; the counters stay.
    pub fn clear(&mut self)
        requires
            old(self).wf(),
        ensures
            final(self).wf(),
            final(self).lru().len() == 0,
            final(self).counters() == old(self).counters(),
            final(self).capacity() == old(self).capacity(),
    {
        self.state.clear();
    }

    /// Cache statistics.
    pub fn stats(&self) -> (s: OverlayCacheStats)
        ensures
            s.hits == self.counters().0,
            s.misses == self.counters().1,
            s.evictions == self.counters().2,
            s.entries == self.lru().len(),
            s.total_bytes == (if total_rgba_bytes(self.lru()) <= usize::MAX {
                total_rgba_bytes(self.lru())
            } else {
                usize::MAX as int
            }),
    {
        OverlayCacheStats {
            hits: self.hits,
            misses: self.misses,
            evictions: self.evictions,
            entries: self.state.len(),
            total_bytes: self.state.total_bytes(),
        }
    }
}

impl Default for OverlayCache {
    fn default() -> (c: OverlayCache)
        ensures
            c.wf(),
            c.lru().len() == 0,
            c.capacity() == DEFAULT_MAX_ENTRIES,
            c.counters() == (0u64, 0u64, 0u64),
    {
        OverlayCache::new()
    }
}

} // verus!
