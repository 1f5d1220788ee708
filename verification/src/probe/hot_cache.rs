//! Per-thread hot slab in front of the persistent metadata cache: a fixed
//! ring of slots, each holding a key and, while valid, its metadata.

use vstd::prelude::*;

verus! {

/// Number of slots in a slab.
pub const SLAB_SIZE: usize = 32;

/// One slot of the slab.
#[derive(Clone)]
pub struct SlabEntry<M> {
    pub key: String,
    pub meta: Option<M>,
}

/// A fixed ring of `SLAB_SIZE` slots, overwritten in turn.
pub struct HotSlab<M> {
    entries: Vec<SlabEntry<M>>,
    next: usize,
}

/// The first slot whose key is `k`.
pub open spec fn first_slot<M>(s: Seq<SlabEntry<M>>, k: Seq<char>) -> Option<int> {
    if exists|i: int| 0 <= i < s.len() && s[i].key@ == k {
        Some(choose|i: int| 0 <= i < s.len() && s[i].key@ == k
            && forall|j: int| 0 <= j < i ==> s[j].key@ != k)
    } else {
        None
    }
}

/// The number of slots holding metadata.
pub open spec fn occupied<M>(s: Seq<SlabEntry<M>>) -> nat
    decreases s.len(),
{
    if s.len() == 0 {
        0
    } else {
        occupied(s.drop_last()) + if s.last().meta is Some { 1nat } else { 0nat }
    }
}

impl<M> HotSlab<M> {
    /// The slots.
    pub closed spec fn slots(&self) -> Seq<SlabEntry<M>> {
        self.entries@
    }

    /// The write counter; the next write goes to slot `cursor % SLAB_SIZE`.
    pub closed spec fn cursor(&self) -> usize {
        self.next
    }

    /// The slab has its full set of slots.
    pub closed spec fn wf(&self) -> bool {
        self.entries@.len() == SLAB_SIZE
    }

    /// A slab of empty slots.
    pub fn new() -> (s: HotSlab<M>)
        ensures
            s.wf(),
            s.slots().len() == SLAB_SIZE,
            forall|i: int| 0 <= i < SLAB_SIZE ==> (#[trigger] s.slots()[i]).key@.len() == 0
                && s.slots()[i].meta is None,
            s.cursor() == 0,
    {
        let mut entries: Vec<SlabEntry<M>> = Vec::new();
        let mut i: usize = 0;
        while i < SLAB_SIZE
            invariant
                i <= SLAB_SIZE,
                entries@.len() == i,
                forall|j: int| 0 <= j < i ==> (#[trigger] entries@[j]).key@.len() == 0 && entries@[j].meta is None,
            decreases SLAB_SIZE - i,
        {
            entries.push(SlabEntry { key: String::new(), meta: None });
            i += 1;
        }
        HotSlab { entries, next: 0 }
    }

    /// The metadata of the first slot keyed `key`, if that slot holds any.
    pub fn get(&self, key: &str) -> (r: Option<&M>)
        ensures
            r == (match first_slot(self.slots(), key@) {
                Some(i) => match self.slots()[i].meta {
                    Some(m) => Some(&m),
                    None => None,
                },
                None => None,
            }),
    {
        let target = String::from_str(key);
        let n = self.entries.len();
        let mut i: usize = 0;
        while i < n
            invariant
                n == self.entries@.len(),
                i <= n,
                target@ == key@,
                forall|j: int| 0 <= j < i ==> self.entries@[j].key@ != key@,
            decreases n - i,
        {
            if self.entries[i].key == target {
                proof {
                    let c = choose|c: int| 0 <= c < self.slots().len() && self.slots()[c].key@ == key@
                        && forall|j: int| 0 <= j < c ==> self.slots()[j].key@ != key@;
                    assert(self.slots()[i as int].key@ == key@);
                    if c < i {
                        assert(self.entries@[c].key@ != key@);
                    } else if c > i {
                        assert(self.slots()[i as int].key@ != key@);
                    }
                }
                return match &self.entries[i].meta {
                    Some(m) => Some(m),
                    None => None,
                };
            }
            i += 1;
        }
        None
    }

    /// Store `meta` under `key` in the slot the cursor points at, and advance
    /// the cursor (wrapping).
    pub fn insert(&mut self, key: String, meta: M)
        requires
            old(self).wf(),
        ensures
            final(self).wf(),
            final(self).slots() == old(self).slots().update(
                (old(self).cursor() % SLAB_SIZE) as int,
                SlabEntry { key, meta: Some(meta) },
            ),
            final(self).cursor() == old(self).cursor().wrapping_add(1),
    {
        let slot = self.next % SLAB_SIZE;
        self.entries.set(slot, SlabEntry { key, meta: Some(meta) });
        self.next = self.next.wrapping_add(1);
    }

    /// Empty every slot keyed `key`.
    pub fn invalidate(&mut self, key: &str)
        requires
            old(self).wf(),
        ensures
            final(self).wf(),
            final(self).cursor() == old(self).cursor(),
            final(self).slots().len() == old(self).slots().len(),
            forall|i: int| 0 <= i < old(self).slots().len() ==> if old(self).slots()[i].key@ == key@ {
                (#[trigger] final(self).slots()[i]).key@.len() == 0 && final(self).slots()[i].meta is None
            } else {
                final(self).slots()[i] == old(self).slots()[i]
            },
    {
        let target = String::from_str(key);
        let n = self.entries.len();
        let mut i: usize = 0;
        while i < n
            invariant
                n == self.entries@.len(),
                n == old(self).entries@.len(),
                i <= n,
                target@ == key@,
                self.next == old(self).next,
                forall|j: int| 0 <= j < n ==> if old(self).entries@[j].key@ == key@ && j < i {
                    (#[trigger] self.entries@[j]).key@.len() == 0 && self.entries@[j].meta is None
                } else {
                    self.entries@[j] == old(self).entries@[j]
                },
            decreases n - i,
        {
            if self.entries[i].key == target {
                self.entries.set(i, SlabEntry { key: String::new(), meta: None });
            }
            i += 1;
        }
    }

    /// How many slots currently hold metadata.
    pub fn occupancy(&self) -> (n: usize)
        ensures
            n == occupied(self.slots()),
    {
        let mut count: usize = 0;
        let n = self.entries.len();
        let mut i: usize = 0;
        while i < n
            invariant
                n == self.entries@.len(),
                i <= n,
                count == occupied(self.entries@.take(i as int)),
                count <= i,
            decreases n - i,
        {
            proof {
                assert(self.entries@.take(i + 1).drop_last() =~= self.entries@.take(i as int));
            }
            if self.entries[i].meta.is_some() {
                count += 1;
            }
            i += 1;
        }
        proof {
            assert(self.entries@.take(n as int) =~= self.entries@);
        }
        count
    }
}

/// A key stored in a slab is found again while no earlier slot carries the
/// same key.
pub proof fn lemma_get_after_insert<M>(before: Seq<SlabEntry<M>>, cursor: usize, key: String, meta: M)
    requires
        before.len() == SLAB_SIZE,
        forall|j: int| 0 <= j < (cursor % SLAB_SIZE) as int ==> (#[trigger] before[j]).key@ != key@,
    ensures
        ({
            let after = before.update((cursor % SLAB_SIZE) as int, SlabEntry { key, meta: Some(meta) });
            first_slot(after, key@) == Some((cursor % SLAB_SIZE) as int)
                && after[(cursor % SLAB_SIZE) as int].meta == Some(meta)
        }),
{
    let after = before.update((cursor % SLAB_SIZE) as int, SlabEntry { key, meta: Some(meta) });
    let s = (cursor % SLAB_SIZE) as int;
    assert(after[s].key@ == key@);
    let c = choose|i: int| 0 <= i < after.len() && after[i].key@ == key@
        && forall|j: int| 0 <= j < i ==> after[j].key@ != key@;
    if c < s {
        assert(after[c] == before[c]);
    } else if c > s {
        assert(after[s].key@ != key@);
    }
}

} // verus!
