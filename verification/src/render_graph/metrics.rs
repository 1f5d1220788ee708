//! Unified render metrics: per-component counters and per-stage times.

use vstd::prelude::*;
use super::component::{ComponentId, ComponentMetrics};
use crate::errors::opt_str_view;

verus! {

/// No component occurs twice in a component table.
pub open spec fn ids_unique(t: Seq<(ComponentId, ComponentMetrics)>) -> bool {
    forall|i: int, j: int| 0 <= i < t.len() && 0 <= j < t.len() && i != j ==> t[i].0 != t[j].0
}

/// Whether a component table has an entry for `id`.
pub open spec fn table_has(t: Seq<(ComponentId, ComponentMetrics)>, id: ComponentId) -> bool {
    exists|i: int| 0 <= i < t.len() && t[i].0 == id
}

/// The counters of a component: its entry's, or all zero when it has none.
pub open spec fn counters_of(t: Seq<(ComponentId, ComponentMetrics)>, id: ComponentId) -> (u64, u64, u64, u64)
{
    if table_has(t, id) {
        let i = choose|i: int| 0 <= i < t.len() && t[i].0 == id;
        (t[i].1.attempts, t[i].1.successes, t[i].1.fallbacks, t[i].1.total_ms)
    } else {
        (0, 0, 0, 0)
    }
}

/// The names of the components of a table that recorded a fallback, in
/// table order.
pub open spec fn fallback_names(t: Seq<(ComponentId, ComponentMetrics)>) -> Seq<Seq<char>>
    decreases t.len(),
{
    if t.len() == 0 {
        Seq::empty()
    } else {
        let prev = fallback_names(t.drop_last());
        if t.last().1.fallbacks > 0 {
            prev.push(t.last().0.name())
        } else {
            prev
        }
    }
}

/// The last error recorded for a component, if it has an entry with one.
pub open spec fn last_error_of(t: Seq<(ComponentId, ComponentMetrics)>, id: ComponentId) -> Option<Seq<char>> {
    if table_has(t, id) {
        let i = choose|i: int| 0 <= i < t.len() && t[i].0 == id;
        opt_str_view(t[i].1.last_error)
    } else {
        None
    }
}

/// Complete metrics for a render operation.
#[derive(Debug, Clone)]
pub struct RenderMetrics {
    /// Per-component metrics, each component at most once, in the order they
    /// were first recorded.
    pub components: Vec<(ComponentId, ComponentMetrics)>,
    /// Total render time (milliseconds).
    pub total_ms: u64,
    /// Decode time (milliseconds).
    pub decode_ms: u64,
    /// Effects time (milliseconds).
    pub effects_ms: u64,
    /// Overlay time (milliseconds).
    pub overlay_ms: u64,
    /// Audio time (milliseconds).
    pub audio_ms: u64,
    /// Encode time (milliseconds).
    pub encode_ms: u64,
    /// Concat time (milliseconds).
    pub concat_ms: u64,
    /// Probe time (milliseconds).
    pub probe_ms: u64,
    /// Number of source files processed.
    pub source_count: u32,
    /// Output file size (bytes).
    pub output_size_bytes: u64,
    /// Output duration in seconds, as `f64` bits.
    pub output_duration_secs_bits: u64,
}

impl RenderMetrics {
    /// The component table has each component at most once.
    pub open spec fn wf(&self) -> bool {
        ids_unique(self.components@)
    }

    /// The sum of the seven stage times.
    pub open spec fn spec_stage_sum(&self) -> int {
        self.decode_ms + self.effects_ms + self.overlay_ms + self.audio_ms + self.encode_ms
            + self.concat_ms + self.probe_ms
    }

    /// Whether any component recorded a fallback.
    pub open spec fn any_fallback(&self) -> bool {
        exists|i: int| 0 <= i < self.components@.len() && self.components@[i].1.fallbacks > 0
    }

    /// Every field but the component table agrees with `other`'s.
    pub open spec fn same_scalars(&self, other: RenderMetrics) -> bool {
        &&& self.total_ms == other.total_ms && self.decode_ms == other.decode_ms
        &&& self.effects_ms == other.effects_ms && self.overlay_ms == other.overlay_ms
        &&& self.audio_ms == other.audio_ms && self.encode_ms == other.encode_ms
        &&& self.concat_ms == other.concat_ms && self.probe_ms == other.probe_ms
        &&& self.source_count == other.source_count
        &&& self.output_size_bytes == other.output_size_bytes
        &&& self.output_duration_secs_bits == other.output_duration_secs_bits
    }

    /// No components recorded, every time and count zero.
    pub open spec fn is_fresh(&self) -> bool {
        &&& self.components@.len() == 0
        &&& self.total_ms == 0 && self.decode_ms == 0 && self.effects_ms == 0 && self.overlay_ms == 0
        &&& self.audio_ms == 0 && self.encode_ms == 0 && self.concat_ms == 0 && self.probe_ms == 0
        &&& self.source_count == 0 && self.output_size_bytes == 0 && self.output_duration_secs_bits == 0
    }

    /// Empty metrics: no components, every time and count zero.
    pub fn new() -> (m: RenderMetrics)
        ensures
            m.wf(),
            m.is_fresh(),
    {
        RenderMetrics {
            components: Vec::new(),
            total_ms: 0,
            decode_ms: 0,
            effects_ms: 0,
            overlay_ms: 0,
            audio_ms: 0,
            encode_ms: 0,
            concat_ms: 0,
            probe_ms: 0,
            source_count: 0,
            output_size_bytes: 0,
            output_duration_secs_bits: 0,
        }
    }

    /// The position of a component's entry, if it has one.
    fn find(&self, id: ComponentId) -> (r: Option<usize>)
        ensures
            r matches Some(i) ==> i < self.components@.len() && self.components@[i as int].0 == id,
            r is None ==> !table_has(self.components@, id),
    {
        let n = self.components.len();
        let mut i: usize = 0;
        while i < n
            invariant
                n == self.components.len(),
                i <= n,
                forall|j: int| 0 <= j < i ==> self.components@[j].0 != id,
            decreases n - i,
        {
            if self.components[i].0 == id {
                return Some(i);
            }
            i += 1;
        }
        None
    }

    /// Get metrics for a specific component.
    pub fn get_component(&self, id: ComponentId) -> (r: Option<&ComponentMetrics>)
        requires
            self.wf(),
        ensures
            r is Some <==> table_has(self.components@, id),
            r matches Some(m) ==> (m.attempts, m.successes, m.fallbacks, m.total_ms)
                == counters_of(self.components@, id),
            r matches Some(m) ==> exists|i: int|
                0 <= i < self.components@.len() && self.components@[i].0 == id
                    && self.components@[i].1 == *m,
    {
        match self.find(id) {
            Some(i) => {
                proof {
                    let k = choose|k: int| 0 <= k < self.components@.len() && self.components@[k].0 == id;
                    assert(k == i);
                }
                Some(&self.components[i].1)
            },
            None => None,
        }
    }

    /// The position of a component's entry, adding a zero entry at the end
    /// when it has none.
    fn entry_index(&mut self, id: ComponentId) -> (i: usize)
        requires
            old(self).wf(),
        ensures
            final(self).wf(),
            i < final(self).components@.len(),
            final(self).components@[i as int].0 == id,
            table_has(old(self).components@, id) ==> final(self).components@ == old(self).components@,
            !table_has(old(self).components@, id) ==> final(self).components@.len() == old(self).components@.len() + 1
                && final(self).components@.drop_last() == old(self).components@
                && final(self).components@[i as int].1.is_zero(),
            final(self).total_ms == old(self).total_ms && final(self).decode_ms == old(self).decode_ms
                && final(self).effects_ms == old(self).effects_ms && final(self).overlay_ms == old(self).overlay_ms
                && final(self).audio_ms == old(self).audio_ms && final(self).encode_ms == old(self).encode_ms
                && final(self).concat_ms == old(self).concat_ms && final(self).probe_ms == old(self).probe_ms
                && final(self).source_count == old(self).source_count
                && final(self).output_size_bytes == old(self).output_size_bytes
                && final(self).output_duration_secs_bits == old(self).output_duration_secs_bits,
    {
        match self.find(id) {
            Some(i) => i,
            None => {
                self.components.push((id, ComponentMetrics::new()));
                proof {
                    assert(self.components@.drop_last() =~= old(self).components@);
                }
                self.components.len() - 1
            },
        }
    }

    /// The metrics of a component, for the caller to update in place; a
    /// component without an entry first gets a zero one at the end of the
    /// table.
    pub fn get_component_mut(&mut self, id: ComponentId) -> (m: &mut ComponentMetrics)
        requires
            old(self).wf(),
        ensures
            table_has(old(self).components@, id) ==> exists|i: int|
                0 <= i < old(self).components@.len() && old(self).components@[i].0 == id
                    && *m == old(self).components@[i].1
                    && final(self).components@ == old(self).components@.update(i, (id, *final(m))),
            !table_has(old(self).components@, id) ==> m.is_zero()
                && final(self).components@ == old(self).components@.push((id, *final(m))),
            final(self).same_scalars(*old(self)),
            final(self).wf(),
    {
        let i = self.entry_index(id);
        proof {
            if !table_has(old(self).components@, id) {
                if i < old(self).components@.len() {
                    assert(self.components@.drop_last()[i as int] == self.components@[i as int]);
                    assert(old(self).components@[i as int].0 == id);
                }
                assert(i == old(self).components@.len());
                assert(self.components@ =~= old(self).components@.push(self.components@[i as int]));
            }
        }
        let entry = &mut self.components[i];
        &mut entry.1
    }

    /// Record an attempt for a component.
    pub fn record_attempt(&mut self, id: ComponentId)
        requires
            old(self).wf(),
            counters_of(old(self).components@, id).0 < u64::MAX,
        ensures
            final(self).wf(),
            counters_of(final(self).components@, id) == ({
                let c = counters_of(old(self).components@, id);
                ((c.0 + 1) as u64, c.1, c.2, c.3)
            }),
            forall|other: ComponentId| other != id ==> counters_of(final(self).components@, other)
                == counters_of(old(self).components@, other),
            table_has(final(self).components@, id),
            forall|other: ComponentId| other != id ==> (table_has(final(self).components@, other)
                <==> table_has(old(self).components@, other)),
            final(self).same_scalars(*old(self)),
            forall|other: ComponentId| #[trigger] last_error_of(final(self).components@, other)
                == last_error_of(old(self).components@, other),
    {
        let i = self.entry_index(id);
        let ghost mid = self.components@;
        let mut m = self.components[i].1.clone_metrics();
        m.record_attempt();
        self.components.set(i, (id, m));
        proof {
            lemma_update_counters(old(self).components@, mid, self.components@, i as int, id);
        }
    }

    /// Record a success for a component.
    pub fn record_success(&mut self, id: ComponentId, elapsed_ms: u64)
        requires
            old(self).wf(),
            counters_of(old(self).components@, id).1 < u64::MAX,
            counters_of(old(self).components@, id).3 + elapsed_ms <= u64::MAX,
        ensures
            final(self).wf(),
            counters_of(final(self).components@, id) == ({
                let c = counters_of(old(self).components@, id);
                (c.0, (c.1 + 1) as u64, c.2, (c.3 + elapsed_ms) as u64)
            }),
            forall|other: ComponentId| other != id ==> counters_of(final(self).components@, other)
                == counters_of(old(self).components@, other),
            table_has(final(self).components@, id),
            forall|other: ComponentId| other != id ==> (table_has(final(self).components@, other)
                <==> table_has(old(self).components@, other)),
            final(self).same_scalars(*old(self)),
            forall|other: ComponentId| #[trigger] last_error_of(final(self).components@, other)
                == last_error_of(old(self).components@, other),
    {
        let i = self.entry_index(id);
        let ghost mid = self.components@;
        let mut m = self.components[i].1.clone_metrics();
        m.record_success(elapsed_ms);
        self.components.set(i, (id, m));
        proof {
            lemma_update_counters(old(self).components@, mid, self.components@, i as int, id);
        }
    }

    /// Record a fallback for a component.
    pub fn record_fallback(&mut self, id: ComponentId, elapsed_ms: u64, error_code: &str)
        requires
            old(self).wf(),
            counters_of(old(self).components@, id).2 < u64::MAX,
            counters_of(old(self).components@, id).3 + elapsed_ms <= u64::MAX,
        ensures
            final(self).wf(),
            counters_of(final(self).components@, id) == ({
                let c = counters_of(old(self).components@, id);
                (c.0, c.1, (c.2 + 1) as u64, (c.3 + elapsed_ms) as u64)
            }),
            forall|other: ComponentId| other != id ==> counters_of(final(self).components@, other)
                == counters_of(old(self).components@, other),
            table_has(final(self).components@, id),
            forall|other: ComponentId| other != id ==> (table_has(final(self).components@, other)
                <==> table_has(old(self).components@, other)),
            final(self).same_scalars(*old(self)),
            last_error_of(final(self).components@, id) == Some(error_code@),
            forall|other: ComponentId| other != id ==> #[trigger] last_error_of(final(self).components@, other)
                == last_error_of(old(self).components@, other),
    {
        let i = self.entry_index(id);
        let ghost mid = self.components@;
        let mut m = self.components[i].1.clone_metrics();
        m.record_fallback(elapsed_ms, error_code);
        self.components.set(i, (id, m));
        proof {
            lemma_update_counters(old(self).components@, mid, self.components@, i as int, id);
        }
    }

    /// Check if any component used fallback.
    pub fn has_any_fallback(&self) -> (b: bool)
        ensures
            b == self.any_fallback(),
    {
        let n = self.components.len();
        let mut i: usize = 0;
        while i < n
            invariant
                n == self.components.len(),
                i <= n,
                forall|j: int| 0 <= j < i ==> self.components@[j].1.fallbacks == 0,
            decreases n - i,
        {
            if self.components[i].1.has_fallbacks() {
                return true;
            }
            i += 1;
        }
        false
    }

    /// The names of the components that used fallback, in table order.
    pub fn fallback_components(&self) -> (r: Vec<String>)
        ensures
            r@.map_values(|s: String| s@) == fallback_names(self.components@),
    {
        let mut r: Vec<String> = Vec::new();
        let n = self.components.len();
        let mut i: usize = 0;
        while i < n
            invariant
                n == self.components.len(),
                i <= n,
                r@.map_values(|s: String| s@) == fallback_names(self.components@.take(i as int)),
            decreases n - i,
        {
            proof {
                assert(self.components@.take(i + 1).drop_last() =~= self.components@.take(i as int));
            }
            if self.components[i].1.has_fallbacks() {
                let name = String::from_str(self.components[i].0.as_str());
                r.push(name);
            }
            proof {
                assert(r@.map_values(|s: String| s@) =~= fallback_names(self.components@.take(i + 1)));
            }
            i += 1;
        }
        proof {
            assert(self.components@.take(n as int) =~= self.components@);
        }
        r
    }

    /// Sum of all stage times.
    pub fn stage_sum(&self) -> (s: u64)
        requires
            self.spec_stage_sum() <= u64::MAX,
        ensures
            s == self.spec_stage_sum(),
    {
        self.decode_ms + self.effects_ms + self.overlay_ms + self.audio_ms + self.encode_ms
            + self.concat_ms + self.probe_ms
    }
}

impl ComponentMetrics {
    /// A copy of the metrics.
    pub fn clone_metrics(&self) -> (m: ComponentMetrics)
        ensures
            m.attempts == self.attempts && m.successes == self.successes
                && m.fallbacks == self.fallbacks && m.total_ms == self.total_ms
                && opt_str_view(m.last_error) == opt_str_view(self.last_error),
    {
        let last_error = match &self.last_error {
            Some(e) => Some(e.clone()),
            None => None,
        };
        ComponentMetrics {
            attempts: self.attempts,
            successes: self.successes,
            fallbacks: self.fallbacks,
            total_ms: self.total_ms,
            last_error,
        }
    }
}

/// Replacing the entry of `id` at position `i` changes the counters of `id`
/// only, and keeps every other component's presence.
proof fn lemma_update_counters(
    before: Seq<(ComponentId, ComponentMetrics)>,
    mid: Seq<(ComponentId, ComponentMetrics)>,
    after: Seq<(ComponentId, ComponentMetrics)>,
    i: int,
    id: ComponentId,
)
    requires
        ids_unique(before),
        ids_unique(mid),
        0 <= i < mid.len(),
        mid[i].0 == id,
        after.len() == mid.len(),
        after[i].0 == id,
        forall|j: int| 0 <= j < mid.len() && j != i ==> after[j] == mid[j],
        table_has(before, id) ==> mid == before,
        !table_has(before, id) ==> mid.len() == before.len() + 1 && mid.drop_last() == before
            && mid[i].1.is_zero(),
    ensures
        ids_unique(after),
        table_has(after, id),
        counters_of(mid, id) == counters_of(before, id),
        counters_of(after, id) == (after[i].1.attempts, after[i].1.successes, after[i].1.fallbacks, after[i].1.total_ms),
        mid[i].1.attempts == counters_of(before, id).0,
        mid[i].1.successes == counters_of(before, id).1,
        mid[i].1.fallbacks == counters_of(before, id).2,
        mid[i].1.total_ms == counters_of(before, id).3,
        forall|other: ComponentId| other != id ==> counters_of(after, other) == counters_of(before, other),
        forall|other: ComponentId| other != id ==> (table_has(after, other) <==> table_has(before, other)),
        last_error_of(mid, id) == last_error_of(before, id),
        last_error_of(after, id) == opt_str_view(after[i].1.last_error),
        mid[i].1.is_zero() ==> last_error_of(before, id) is None,
        last_error_of(before, id) == opt_str_view(mid[i].1.last_error),
        forall|other: ComponentId| other != id ==> #[trigger] last_error_of(after, other) == last_error_of(before, other),
{
    assert forall|a: int, b: int| 0 <= a < after.len() && 0 <= b < after.len() && a != b implies after[a].0 != after[b].0 by {
        if a != i && b != i {
            assert(after[a] == mid[a] && after[b] == mid[b]);
        } else if a == i {
            assert(after[b] == mid[b]);
        } else {
            assert(after[a] == mid[a]);
        }
    }
    if !table_has(before, id) {
        if i < before.len() {
            assert(before[i] == mid.drop_last()[i]);
            assert(before[i].0 == id);
        }
        assert(i == before.len());
    }
    assert(table_has(after, id)) by {
        assert(after[i].0 == id);
    }
    let k_after = choose|k: int| 0 <= k < after.len() && after[k].0 == id;
    assert(k_after == i);
    let k_mid = choose|k: int| 0 <= k < mid.len() && mid[k].0 == id;
    assert(k_mid == i);
    if table_has(before, id) {
        let k_before = choose|k: int| 0 <= k < before.len() && before[k].0 == id;
        assert(k_before == i);
    } else {
        assert(counters_of(before, id) == (0u64, 0u64, 0u64, 0u64));
    }
    assert forall|other: ComponentId| other != id implies (table_has(after, other) <==> table_has(before, other)) by {
        if table_has(after, other) {
            let k = choose|k: int| 0 <= k < after.len() && after[k].0 == other;
            assert(k != i);
            assert(mid[k].0 == other);
            if !table_has(before, id) {
                assert(k < before.len()) by {
                    if k == before.len() {
                        assert(mid[k].0 == id);
                    }
                }
                assert(before[k] == mid.drop_last()[k]);
            } else {
                assert(before[k].0 == other);
            }
        }
        if table_has(before, other) {
            let k = choose|k: int| 0 <= k < before.len() && before[k].0 == other;
            if !table_has(before, id) {
                assert(mid.drop_last()[k] == mid[k]);
            }
            assert(mid[k].0 == other);
            assert(k != i);
            assert(after[k].0 == other);
        }
    }
    assert forall|other: ComponentId| other != id implies #[trigger] last_error_of(after, other) == last_error_of(before, other) by {
        if table_has(after, other) {
            let ka = choose|k: int| 0 <= k < after.len() && after[k].0 == other;
            let kb = choose|k: int| 0 <= k < before.len() && before[k].0 == other;
            assert(ka != i);
            if !table_has(before, id) {
                assert(mid.drop_last()[kb] == mid[kb]);
                assert(before[kb] == mid[kb]);
            } else {
                assert(before[kb] == mid[kb]);
            }
            assert(mid[kb].0 == other);
            assert(ka == kb);
            assert(after[ka] == mid[ka]);
        }
    }
    assert forall|other: ComponentId| other != id implies counters_of(after, other) == counters_of(before, other) by {
        if table_has(after, other) {
            let ka = choose|k: int| 0 <= k < after.len() && after[k].0 == other;
            let kb = choose|k: int| 0 <= k < before.len() && before[k].0 == other;
            assert(ka != i);
            if !table_has(before, id) {
                assert(mid.drop_last()[kb] == mid[kb]);
                assert(before[kb] == mid[kb]);
            } else {
                assert(before[kb] == mid[kb]);
            }
            assert(mid[kb].0 == other);
            assert(ka == kb);
            assert(after[ka] == mid[ka]);
        }
    }
}

impl Default for RenderMetrics {
    fn default() -> (m: RenderMetrics)
        ensures
            m.wf(),
            m.is_fresh(),
    {
        RenderMetrics::new()
    }
}

} // verus!
