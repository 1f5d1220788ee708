//! Prioritised batch job scheduler.
//!
//! Jobs are dispatched in ascending order of their estimated cost, so that
//! many small jobs finish early while large ones overlap with them, and the
//! results come back in the order the jobs were given.

use vstd::prelude::*;
use vstd::set_lib::{lemma_int_range, lemma_len_subset, lemma_subset_equality, set_int_range};
use rayon::iter::{IndexedParallelIterator, IntoParallelIterator, ParallelIterator};

verus! {

/// A job with an estimated cost (lower is scheduled first) and its payload.
pub struct Job<T> {
    /// Estimated cost in bytes (lower = scheduled first).
    pub cost_hint: u64,
    /// Payload to process.
    pub payload: T,
}

impl<T> Job<T> {
    pub fn new(cost_hint: u64, payload: T) -> (j: Job<T>)
        ensures
            j.cost_hint == cost_hint,
            j.payload == payload,
    {
        Job { cost_hint, payload }
    }
}

/// `order` lists every index below `n` exactly once.
pub open spec fn is_index_permutation(order: Seq<usize>, n: nat) -> bool {
    &&& order.len() == n
    &&& forall|k: int| 0 <= k < order.len() ==> #[trigger] order[k] < n
    &&& forall|a: int, b: int| 0 <= a < order.len() && 0 <= b < order.len() && a != b
        ==> #[trigger] order[a] != #[trigger] order[b]
}

/// `order` visits the costs in ascending order.
pub open spec fn sorted_by_cost(order: Seq<usize>, costs: Seq<u64>) -> bool {
    forall|a: int, b: int| 0 <= a <= b < order.len() ==> #[trigger] costs[order[a] as int]
        <= #[trigger] costs[order[b] as int]
}

/// Whether index `i` occurs in `order`.
pub open spec fn occurs(order: Seq<usize>, i: int) -> bool {
    exists|k: int| 0 <= k < order.len() && order[k] == i
}

/// Every index below `n` occurs in a permutation of the indices below `n`.
pub proof fn lemma_permutation_covers(order: Seq<usize>, n: nat)
    requires
        is_index_permutation(order, n),
    ensures
        forall|i: int| 0 <= i < n ==> #[trigger] occurs(order, i),
{
    let as_int = order.map_values(|x: usize| x as int);
    assert(as_int.no_duplicates()) by {
        assert forall|a: int, b: int| 0 <= a < as_int.len() && 0 <= b < as_int.len() && a != b
            implies as_int[a] != as_int[b] by {
            assert(order[a] != order[b]);
        }
    }
    as_int.unique_seq_to_set();
    let range = set_int_range(0, n as int);
    lemma_int_range(0, n as int);
    assert(as_int.to_set().subset_of(range)) by {
        assert forall|x: int| as_int.to_set().contains(x) implies range.contains(x) by {
            let k = choose|k: int| 0 <= k < as_int.len() && as_int[k] == x;
            assert(order[k] < n);
        }
    }
    lemma_len_subset(as_int.to_set(), range);
    lemma_subset_equality(as_int.to_set(), range);
    assert forall|i: int| 0 <= i < n implies #[trigger] occurs(order, i) by {
        assert(range.contains(i));
        assert(as_int.to_set().contains(i));
        let k = choose|k: int| 0 <= k < as_int.len() && as_int[k] == i;
        assert(order[k] == i);
    }
}

/// A slot that holds exactly `v`.
pub open spec fn slot_holds<T>(slot: Option<T>, v: T) -> bool {
    slot is Some && slot->0 == v
}

/// The schedule of a batch: the job indices in ascending order of cost.
pub fn cost_order(costs: &Vec<u64>) -> (order: Vec<usize>)
    ensures
        is_index_permutation(order@, costs@.len()),
        sorted_by_cost(order@, costs@),
{
    let n = costs.len();
    let mut order: Vec<usize> = Vec::new();
    let mut k: usize = 0;
    while k < n
        invariant
            n == costs.len(),
            k <= n,
            order@.len() == k,
            forall|j: int| 0 <= j < k ==> order@[j] == j,
        decreases n - k,
    {
        order.push(k);
        k += 1;
    }
    let mut i: usize = 0;
    while i < n
        invariant
            n == costs.len(),
            i <= n,
            is_index_permutation(order@, n as nat),
            forall|a: int, b: int| 0 <= a <= b < i ==> #[trigger] costs@[order@[a] as int]
                <= #[trigger] costs@[order@[b] as int],
            forall|a: int, b: int| 0 <= a < i <= b < n ==> #[trigger] costs@[order@[a] as int]
                <= #[trigger] costs@[order@[b] as int],
        decreases n - i,
    {
        let mut best = i;
        let mut j = i + 1;
        while j < n
            invariant
                n == costs.len(),
                i < n,
                i <= best < j <= n,
                is_index_permutation(order@, n as nat),
                forall|b: int| i <= b < j ==> costs@[order@[best as int] as int] <= #[trigger] costs@[order@[b] as int],
            decreases n - j,
        {
            if costs[order[j]] < costs[order[best]] {
                best = j;
            }
            j += 1;
        }
        let ghost before = order@;
        let a = order[i];
        let b = order[best];
        order.set(i, b);
        order.set(best, a);
        proof {
            assert(order@ == before.update(i as int, b).update(best as int, a));
            assert forall|x: int, y: int| 0 <= x < order@.len() && 0 <= y < order@.len() && x != y
                implies order@[x] != order@[y] by {
                let px = if x == i { best as int } else if x == best { i as int } else { x };
                let py = if y == i { best as int } else if y == best { i as int } else { y };
                assert(order@[x] == before[px]);
                assert(order@[y] == before[py]);
                assert(before[px] != before[py]);
            }
            assert forall|x: int| 0 <= x < order@.len() implies order@[x] < n by {
                let px = if x == i { best as int } else if x == best { i as int } else { x };
                assert(order@[x] == before[px]);
                assert(before[px] < n);
            }
            assert forall|x: int, y: int| 0 <= x <= y < i + 1 implies #[trigger] costs@[order@[x] as int]
                <= #[trigger] costs@[order@[y] as int] by {
                if y < i {
                    assert(order@[x] == before[x] && order@[y] == before[y]);
                } else {
                    if x < i {
                        assert(order@[x] == before[x]);
                        assert(costs@[before[x] as int] <= costs@[before[best as int] as int]);
                    }
                }
            }
            assert forall|x: int, y: int| 0 <= x < i + 1 <= y < n implies #[trigger] costs@[order@[x] as int]
                <= #[trigger] costs@[order@[y] as int] by {
                let py = if y == best { i as int } else { y };
                assert(order@[y] == before[py]);
                assert(i <= py < n);
                if x < i {
                    assert(order@[x] == before[x]);
                } else {
                    assert(order@[x] == before[best as int]);
                    assert(costs@[before[best as int] as int] <= costs@[before[py] as int]);
                }
            }
        }
        i += 1;
    }
    order
}

/// Apply `f` to every item on the rayon thread pool; the results come back
/// in the order of the items.
#[verifier::external_body]
fn par_map_in_order<A: Send, B: Send, F: Fn(A) -> B + Sync + Send>(items: Vec<A>, f: F) -> (r: Vec<B>)
    requires
        forall|i: int| 0 <= i < items@.len() ==> call_requires(f, (#[trigger] items@[i],)),
    ensures
        r@.len() == items@.len(),
        forall|i: int| 0 <= i < items@.len() ==> call_ensures(f, (items@[i],), #[trigger] r@[i]),
{
    let mut out: Vec<B> = Vec::new();
    items.into_par_iter().map(f).collect_into_vec(&mut out);
    out
}

/// Run `f` on every job's payload, dispatching the jobs in ascending order of
/// cost on the rayon pool; the results come back in the order of the jobs.
pub fn run_scheduled<T: Send, R: Send, F: Fn(T) -> R + Sync + Send>(jobs: Vec<Job<T>>, f: F) -> (r: Vec<R>)
    requires
        forall|i: int| 0 <= i < jobs@.len() ==> call_requires(f, (#[trigger] jobs@[i].payload,)),
    ensures
        r@.len() == jobs@.len(),
        forall|i: int| 0 <= i < jobs@.len() ==> call_ensures(f, (jobs@[i].payload,), #[trigger] r@[i]),
{
    let ghost orig = jobs@;
    let n = jobs.len();
    if n == 0 {
        return Vec::new();
    }
    // Take the jobs apart: payloads into slots, costs alongside.
    let mut slots: Vec<Option<T>> = Vec::new();
    let mut costs: Vec<u64> = Vec::new();
    let mut k: usize = 0;
    while k < n
        invariant
            k <= n,
            slots@.len() == k,
            costs@.len() == k,
            forall|j: int| 0 <= j < k ==> slots@[j] is None,
        decreases n - k,
    {
        slots.push(None);
        costs.push(0);
        k += 1;
    }
    let mut jobs = jobs;
    while jobs.len() > 0
        invariant
            jobs@.len() <= n,
            n == orig.len(),
            slots@.len() == n,
            costs@.len() == n,
            jobs@ == orig.take(jobs@.len() as int),
            forall|j: int| 0 <= j < jobs@.len() ==> slots@[j] is None,
            forall|j: int| jobs@.len() <= j && j < n ==> #[trigger] slot_holds(slots@[j], orig[j].payload),
            forall|j: int| jobs@.len() <= j && j < n ==> #[trigger] costs@[j] == orig[j].cost_hint,
        decreases jobs@.len(),
    {
        let ghost before = jobs@;
        let ghost old_slots = slots@;
        let ghost old_costs = costs@;
        let job = jobs.pop().unwrap();
        let at = jobs.len();
        proof {
            assert(jobs@ =~= orig.take(at as int));
            assert(job == orig[at as int]);
        }
        let Job { cost_hint, payload } = job;
        slots.set(at, Some(payload));
        costs.set(at, cost_hint);
        proof {
            assert(slot_holds(slots@[at as int], orig[at as int].payload));
            assert(costs@[at as int] == orig[at as int].cost_hint);
            assert forall|j: int| at <= j < n implies slot_holds(slots@[j], orig[j].payload)
                && costs@[j] == orig[j].cost_hint by {
                if j > at {
                    assert(before.len() == at + 1);
                    assert(slots@[j] == old_slots[j]);
                    assert(costs@[j] == old_costs[j]);
                    assert(slot_holds(old_slots[j], orig[j].payload));
                }
            }
            assert(jobs@.len() == at);
        }
    }
    let order = cost_order(&costs);
    proof {
        lemma_permutation_covers(order@, n as nat);
        assert(jobs@.len() == 0);
        assert forall|j: int| 0 <= j < n implies slot_holds(slots@[order@[j] as int],
            orig[order@[j] as int].payload) by {
            assert(order@[j] < n);
            let x = order@[j] as int;
            assert(0 <= x < n);
            assert(slot_holds(slots@[x], orig[x].payload));
        }
    }
    // Lay the payloads out in schedule order, each tagged with its job index.
    let mut scheduled: Vec<(usize, T)> = Vec::new();
    let mut m: usize = 0;
    while m < n
        invariant
            n == orig.len(),
            m <= n,
            slots@.len() == n,
            is_index_permutation(order@, n as nat),
            scheduled@.len() == m,
            forall|j: int| 0 <= j < m ==> (#[trigger] scheduled@[j]).0 == order@[j]
                && scheduled@[j].1 == orig[order@[j] as int].payload,
            forall|j: int| m <= j < n ==> slot_holds(slots@[order@[j] as int], orig[order@[j] as int].payload),
        decreases n - m,
    {
        let idx = order[m];
        let ghost before = slots@;
        let p = slots[idx].take();
        proof {
            assert(slots@ == before.update(idx as int, None));
            assert forall|j: int| m + 1 <= j < n implies slot_holds(slots@[order@[j] as int],
                orig[order@[j] as int].payload) by {
                assert(order@[j] != order@[m as int]);
            }
        }
        match p {
            Some(payload) => {
                scheduled.push((idx, payload));
            },
            None => {
                proof {
                    assert(false);
                }
            },
        }
        m += 1;
    }
    let fref = &f;
    let tagged = move |job: (usize, T)| -> (out: (usize, R))
        requires
            call_requires(fref, (job.1,)),
        ensures
            out.0 == job.0,
            call_ensures(fref, (job.1,), out.1),
        { (job.0, fref(job.1)) };
    proof {
        assert forall|j: int| 0 <= j < scheduled@.len() implies call_requires(tagged, (#[trigger] scheduled@[j],)) by {
            assert(order@[j] < n);
            assert(call_requires(f, (orig[order@[j] as int].payload,)));
        }
    }
    let results = par_map_in_order(scheduled, tagged);
    // Put every result back at the position of its job.
    let mut out_slots: Vec<Option<R>> = Vec::new();
    let mut z: usize = 0;
    while z < n
        invariant
            z <= n,
            out_slots@.len() == z,
        decreases n - z,
    {
        out_slots.push(None);
        z += 1;
    }
    let ghost all_results = results@;
    let mut results = results;
    while results.len() > 0
        invariant
            n == orig.len(),
            results@.len() <= n,
            all_results.len() == n,
            results@ == all_results.take(results@.len() as int),
            out_slots@.len() == n,
            is_index_permutation(order@, n as nat),
            forall|j: int| 0 <= j < n ==> all_results[j].0 == order@[j]
                && call_ensures(f, (orig[order@[j] as int].payload,), (#[trigger] all_results[j]).1),
            forall|j: int| results@.len() <= j < n ==> (out_slots@[#[trigger] order@[j] as int] matches Some(v)
                && call_ensures(f, (orig[order@[j] as int].payload,), v)),
        decreases results@.len(),
    {
        let (at, value) = results.pop().unwrap();
        let ghost q = results@.len() as int;
        proof {
            assert(results@ =~= all_results.take(q));
            assert(all_results[q] == (at, value));
        }
        let ghost before = out_slots@;
        out_slots.set(at, Some(value));
        proof {
            assert forall|j: int| q <= j < n implies (out_slots@[#[trigger] order@[j] as int] matches Some(v)
                && call_ensures(f, (orig[order@[j] as int].payload,), v)) by {
                if j != q {
                    assert(order@[j] != order@[q]);
                    assert(out_slots@[order@[j] as int] == before[order@[j] as int]);
                }
            }
        }
    }
    let mut r: Vec<R> = Vec::new();
    let mut i: usize = 0;
    while i < n
        invariant
            n == orig.len(),
            i <= n,
            out_slots@.len() == n,
            r@.len() == i,
            is_index_permutation(order@, n as nat),
            forall|x: int| 0 <= x < n ==> #[trigger] occurs(order@, x),
            forall|j: int| 0 <= j < n ==> (out_slots@[#[trigger] order@[j] as int] matches Some(v)
                && call_ensures(f, (orig[order@[j] as int].payload,), v)) || order@[j] < i,
            forall|j: int| 0 <= j < i ==> call_ensures(f, (orig[j].payload,), #[trigger] r@[j]),
        decreases n - i,
    {
        assert(occurs(order@, i as int));
        let ghost k = choose|k: int| 0 <= k < order@.len() && order@[k] == i;
        let ghost before = out_slots@;
        let v = out_slots[i].take();
        proof {
            assert(order@[k] == i);
            assert(before[i as int] is Some);
            assert forall|j: int| 0 <= j < n implies (out_slots@[#[trigger] order@[j] as int] matches Some(v)
                && call_ensures(f, (orig[order@[j] as int].payload,), v)) || order@[j] < i + 1 by {
                if order@[j] != i {
                    assert(out_slots@[order@[j] as int] == before[order@[j] as int]);
                }
            }
        }
        match v {
            Some(value) => {
                r.push(value);
            },
            None => {
                proof {
                    assert(false);
                }
            },
        }
        i += 1;
    }
    r
}

} // verus!
