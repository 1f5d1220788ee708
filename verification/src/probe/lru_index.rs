//! Access-order index of the persistent metadata cache: the most recently
//! used key first, each key at most once, and the bytes added so far.

use vstd::prelude::*;
use std::collections::VecDeque;

verus! {

/// `s` without any occurrence of `k`, the rest in order.
pub open spec fn without(s: Seq<Seq<char>>, k: Seq<char>) -> Seq<Seq<char>>
    decreases s.len(),
{
    if s.len() == 0 {
        s
    } else {
        let w = without(s.drop_last(), k);
        if s.last() != k {
            w.push(s.last())
        } else {
            w
        }
    }
}

/// Access-order index: most recently used key first.
#[derive(Debug, Clone)]
pub struct LruIndex {
    order: VecDeque<String>,
    size_bytes: u64,
}

impl LruIndex {
    /// The keys, most recently used first.
    pub closed spec fn keys(&self) -> Seq<Seq<char>> {
        self.order@.map_values(|k: String| k@)
    }

    /// The bytes recorded by insertions since the last clear.
    pub closed spec fn size(&self) -> u64 {
        self.size_bytes
    }

    /// No key occurs twice.
    pub open spec fn wf(&self) -> bool {
        self.keys().no_duplicates()
    }

    pub fn new() -> (l: LruIndex)
        ensures
            l.wf(),
            l.keys().len() == 0,
            l.size() == 0,
    {
        let l = LruIndex { order: VecDeque::new(), size_bytes: 0 };
        assert(l.keys() =~= Seq::<Seq<char>>::empty());
        l
    }

    /// Drop every occurrence of `key`; whether there was one.
    fn drop_key(&mut self, key: &str) -> (found: bool)
        ensures
            final(self).keys() == without(old(self).keys(), key@),
            found == old(self).keys().contains(key@),
            final(self).size() == old(self).size(),
    {
        let target = String::from_str(key);
        let ghost old_keys = self.keys();
        let mut kept: VecDeque<String> = VecDeque::new();
        let mut found = false;
        let n = self.order.len();
        let mut i: usize = 0;
        while i < n
            invariant
                n == self.order@.len(),
                old_keys == self.order@.map_values(|k: String| k@),
                i <= n,
                target@ == key@,
                kept@.map_values(|k: String| k@) == without(old_keys.take(i as int), key@),
                found == old_keys.take(i as int).contains(key@),
            decreases n - i,
        {
            proof {
                assert(old_keys.take(i + 1).drop_last() =~= old_keys.take(i as int));
                assert(old_keys.take(i + 1).last() == old_keys[i as int]);
            }
            if self.order[i] == target {
                found = true;
                proof {
                    assert(old_keys.take(i + 1)[i as int] == key@);
                }
            } else {
                kept.push_back(self.order[i].clone());
                proof {
                    assert(kept@.map_values(|k: String| k@) =~= without(old_keys.take(i as int), key@).push(old_keys[i as int]));
                }
                proof {
                    let t = old_keys.take(i + 1);
                    if t.contains(key@) {
                        let c = choose|c: int| 0 <= c < t.len() && t[c] == key@;
                        assert(c < i);
                        assert(old_keys.take(i as int)[c] == key@);
                    }
                    if old_keys.take(i as int).contains(key@) {
                        let c = choose|c: int| 0 <= c < i && old_keys.take(i as int)[c] == key@;
                        assert(t[c] == key@);
                    }
                }
            }
            i += 1;
        }
        proof {
            assert(old_keys.take(n as int) =~= old_keys);
        }
        self.order = kept;
        found
    }

    /// Record an access: `key` becomes the most recently used.
    pub fn touch(&mut self, key: &str)
        requires
            old(self).wf(),
        ensures
            final(self).wf(),
            final(self).keys() == seq![key@] + without(old(self).keys(), key@),
            final(self).size() == old(self).size(),
    {
        let ghost old_keys = self.keys();
        let _found = self.drop_key(key);
        let ghost rest = self.keys();
        self.order.push_front(String::from_str(key));
        proof {
            assert(self.keys() =~= seq![key@] + rest);
            lemma_front_unique(old_keys, key@);
        }
    }

    /// Add a new entry of `size_bytes` bytes as the most recently used.
    pub fn insert(&mut self, key: &str, size_bytes: u64)
        requires
            old(self).wf(),
            old(self).size() + size_bytes <= u64::MAX,
        ensures
            final(self).wf(),
            final(self).keys() == seq![key@] + without(old(self).keys(), key@),
            final(self).size() == old(self).size() + size_bytes,
    {
        self.touch(key);
        self.size_bytes = self.size_bytes + size_bytes;
    }

    /// Remove an entry: `Some(0)` when it was present (sizes are not
    /// tracked per entry), `None` otherwise.
    pub fn remove(&mut self, key: &str) -> (r: Option<u64>)
        requires
            old(self).wf(),
        ensures
            final(self).wf(),
            final(self).keys() == without(old(self).keys(), key@),
            r == (if old(self).keys().contains(key@) { Some(0u64) } else { None }),
            final(self).size() == old(self).size(),
    {
        let found = self.drop_key(key);
        proof {
            lemma_without_unique(old(self).keys(), key@);
        }
        if found {
            Some(0)
        } else {
            None
        }
    }

    /// The `count` least recently used keys, oldest first.
    pub fn keys_to_evict(&self, count: usize) -> (r: Vec<String>)
        ensures
            r@.map_values(|k: String| k@) == self.keys().reverse().take(
                if count <= self.keys().len() { count as int } else { self.keys().len() as int },
            ),
    {
        let n = self.order.len();
        let take = if count <= n { count } else { n };
        let mut r: Vec<String> = Vec::new();
        let mut i: usize = 0;
        while i < take
            invariant
                n == self.order@.len(),
                take <= n,
                i <= take,
                r@.map_values(|k: String| k@) == self.keys().reverse().take(i as int),
            decreases take - i,
        {
            let ghost prev = r@;
            proof {
                assert(self.keys().len() == n);
                assert(self.keys().reverse().len() == n);
                assert(self.keys().reverse().take(i as int).len() == i);
                assert(prev.map_values(|k: String| k@).len() == i);
                assert(prev.len() == i);
            }
            let item = self.order[n - 1 - i].clone();
            r.push(item);
            proof {
                assert(item == self.order@[n - 1 - i]);
                assert(r@[i as int] == item);
                assert(self.keys().reverse()[i as int] == self.keys()[n - 1 - i]);
                assert(r@[i as int]@ == self.keys()[n - 1 - i]);
                assert(r@.map_values(|k: String| k@)[i as int] == self.keys().reverse().take(i + 1)[i as int]);
                assert(r@.map_values(|k: String| k@) =~= self.keys().reverse().take(i + 1));
            }
            i += 1;
        }
        r
    }

    /// Forget every key and the recorded size.
    pub fn clear(&mut self)
        ensures
            final(self).wf(),
            final(self).keys().len() == 0,
            final(self).size() == 0,
    {
        self.order.clear();
        self.size_bytes = 0;
        assert(self.keys() =~= Seq::<Seq<char>>::empty());
    }

    /// The bytes recorded by insertions since the last clear.
    pub fn size_bytes(&self) -> (n: u64)
        ensures
            n == self.size(),
    {
        self.size_bytes
    }

    /// Number of keys.
    pub fn len(&self) -> (n: usize)
        ensures
            n == self.keys().len(),
    {
        self.order.len()
    }
}

/// What remains after dropping `k`: exactly the other elements.
pub proof fn lemma_without_contains(s: Seq<Seq<char>>, k: Seq<char>, x: Seq<char>)
    ensures
        without(s, k).contains(x) <==> (s.contains(x) && x != k),
    decreases s.len(),
{
    if s.len() > 0 {
        lemma_without_contains(s.drop_last(), k, x);
        let w = without(s.drop_last(), k);
        if s.contains(x) && x != k {
            let c = choose|c: int| 0 <= c < s.len() && s[c] == x;
            if c < s.len() - 1 {
                assert(s.drop_last()[c] == x);
                let d = choose|d: int| 0 <= d < w.len() && w[d] == x;
                if s.last() != k {
                    assert(w.push(s.last())[d] == x);
                }
            } else {
                assert(w.push(s.last())[w.len() as int] == x);
            }
        }
        if without(s, k).contains(x) {
            let c = choose|c: int| 0 <= c < without(s, k).len() && without(s, k)[c] == x;
            if s.last() != k && c == w.len() {
                assert(s[s.len() - 1] == x);
            } else {
                assert(w[c] == x);
                let d = choose|d: int| 0 <= d < s.drop_last().len() && s.drop_last()[d] == x;
                assert(s[d] == x);
            }
        }
    }
}

/// Dropping a key from a sequence without duplicates keeps it so.
proof fn lemma_without_unique(s: Seq<Seq<char>>, k: Seq<char>)
    requires
        s.no_duplicates(),
    ensures
        without(s, k).no_duplicates(),
        !without(s, k).contains(k),
    decreases s.len(),
{
    lemma_without_contains(s, k, k);
    if s.len() > 0 {
        lemma_without_unique(s.drop_last(), k);
        let w = without(s.drop_last(), k);
        if s.last() != k {
            lemma_without_contains(s.drop_last(), k, s.last());
            assert(!s.drop_last().contains(s.last())) by {
                if s.drop_last().contains(s.last()) {
                    let d = choose|d: int| 0 <= d < s.drop_last().len() && s.drop_last()[d] == s.last();
                    assert(s[d] == s[s.len() - 1]);
                }
            }
            let t = w.push(s.last());
            assert forall|a: int, b: int| 0 <= a < t.len() && 0 <= b < t.len() && a != b implies t[a] != t[b] by {
                if a == w.len() {
                    assert(w.contains(t[b]));
                } else if b == w.len() {
                    assert(w.contains(t[a]));
                }
            }
        }
    }
}

/// Putting `k` in front of a duplicate-free sequence from which every `k` was
/// dropped gives a duplicate-free sequence.
proof fn lemma_front_unique(s: Seq<Seq<char>>, k: Seq<char>)
    requires
        s.no_duplicates(),
    ensures
        (seq![k] + without(s, k)).no_duplicates(),
{
    lemma_without_unique(s, k);
    let w = without(s, k);
    let t = seq![k] + w;
    assert forall|a: int, b: int| 0 <= a < t.len() && 0 <= b < t.len() && a != b implies t[a] != t[b] by {
        if a == 0 {
            assert(t[b] == w[b - 1]);
        } else if b == 0 {
            assert(t[a] == w[a - 1]);
        } else {
            assert(t[a] == w[a - 1] && t[b] == w[b - 1]);
        }
    }
}

} // verus!
