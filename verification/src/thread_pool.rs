//! Sizing, building and warming the rayon thread pool.
//!
//! The pool gets one worker per physical core but one (at least one worker),
//! leaving a core to the OS and to I/O; each worker is started through a
//! caller-supplied handler (used to pin it to a core), and every worker
//! touches its stack once so that the first real job does not pay for it.

use vstd::prelude::*;
use crate::text::{decimal_seq, push_decimal};

verus! {

/// Configuration for the process-wide thread pool.
#[derive(Debug, Clone, Copy, PartialEq, Eq, Structural)]
pub struct ThreadPoolConfig {
    /// Number of worker threads in the rayon pool.
    pub num_threads: usize,
    /// Whether physical core count was used (vs. logical).
    pub physical_cores_used: bool,
    /// Number of logical CPUs detected.
    pub logical_cpus: usize,
    /// Number of physical cores detected.
    pub physical_cpus: usize,
}

/// Information about the configured pool.
#[derive(Debug, Clone, Copy, PartialEq, Eq, Structural)]
pub struct PoolInfo {
    pub config: ThreadPoolConfig,
    /// Whether the pool has been successfully initialised.
    pub initialised: bool,
    /// Number of warm-up tasks dispatched.
    pub warmup_tasks: usize,
}

/// The number of workers for `physical` physical cores.
pub open spec fn spec_worker_threads(physical: usize) -> usize {
    if physical <= 2 {
        1
    } else {
        (physical - 1) as usize
    }
}

/// One core is left free: with three or more physical cores the pool has
/// one worker fewer than there are cores, and with one or two it has a
/// single worker.
pub proof fn lemma_worker_threads_leave_one_core(physical: usize)
    ensures
        physical >= 3 ==> spec_worker_threads(physical) + 1 == physical,
        physical <= 2 ==> spec_worker_threads(physical) == 1,
{
}

/// The number of workers for `physical` physical cores: one for up to two
/// cores, one less than the cores otherwise.
pub fn worker_threads_for(physical: usize) -> (n: usize)
    ensures
        n == spec_worker_threads(physical),
        n >= 1,
        physical <= 2 ==> n == 1,
        physical >= 3 ==> n + 1 == physical,
{
    if physical <= 2 {
        1
    } else {
        physical - 1
    }
}

/// What is reported of a pool sized for `physical` cores (with `logical`
/// CPUs) whose global build did or did not succeed: warm-up tasks are
/// dispatched, one per worker, only to a pool that was built.
pub fn pool_plan(logical: usize, physical: usize, initialised: bool) -> (info: PoolInfo)
    ensures
        info.config == (ThreadPoolConfig {
            num_threads: spec_worker_threads(physical),
            physical_cores_used: true,
            logical_cpus: logical,
            physical_cpus: physical,
        }),
        info.initialised == initialised,
        info.warmup_tasks == (if initialised { spec_worker_threads(physical) } else { 0 }),
{
    let num_threads = worker_threads_for(physical);
    PoolInfo {
        config: ThreadPoolConfig { num_threads, physical_cores_used: true, logical_cpus: logical, physical_cpus: physical },
        initialised,
        warmup_tasks: if initialised { num_threads } else { 0 },
    }
}

/// The number of logical CPUs (`num_cpus::get`); always at least one.
#[verifier::external_body]
pub(crate) fn logical_cpu_count() -> (n: usize)
    ensures
        n >= 1,
{
    num_cpus::get()
}

/// The number of physical cores (`num_cpus::get_physical`); always at least
/// one.
#[verifier::external_body]
pub(crate) fn physical_cpu_count() -> (n: usize)
    ensures
        n >= 1,
{
    num_cpus::get_physical()
}

/// The name of worker `index`: `ruststream-worker-<index>`.
pub fn worker_name(index: usize) -> (s: String)
    ensures
        s@ == "ruststream-worker-"@ + decimal_seq(index as nat),
{
    let mut s = String::from_str("ruststream-worker-");
    push_decimal(&mut s, index as u64);
    s
}

/// Build rayon's global pool with `num_threads` workers named by
/// [`worker_name`], each running `start_handler` with its index when it
/// starts (`ThreadPoolBuilder::build_global`); whether the build succeeded
/// depends on whether a global pool already exists, so nothing is promised.
#[verifier::external_body]
fn build_global_pool<H: Fn(usize) + Send + Sync + 'static>(num_threads: usize, start_handler: H) -> bool
    requires
        forall|i: usize| call_requires(start_handler, (i,)),
{
    rayon::ThreadPoolBuilder::new()
        .num_threads(num_threads)
        .thread_name(worker_name)
        .start_handler(start_handler)
        .build_global()
        .is_ok()
}

/// Run `task` once per index below `tasks` on the rayon pool
/// (`into_par_iter().for_each`).
#[verifier::external_body]
fn run_on_pool<F: Fn(usize) + Send + Sync>(tasks: usize, task: F)
    requires
        forall|i: usize| i < tasks ==> call_requires(task, (i,)),
{
    rayon::iter::ParallelIterator::for_each(rayon::iter::IntoParallelIterator::into_par_iter(0..tasks), task)
}

/// Keep a value observable to the optimiser (`std::hint::black_box`).
#[verifier::external_body]
fn keep_observed(x: u8) {
    std::hint::black_box(x);
}

/// Touch 64 KiB of the calling thread's stack, one byte per 4 KiB page.
pub fn touch_stack(_task: usize) {
    let mut scratch = [0u8; 65536];
    let mut i: usize = 0;
    while i < 65536
        invariant
            i <= 65536,
            i % 4096 == 0,
        decreases 65536 - i,
    {
        scratch.set(i, 1);
        i += 4096;
    }
    keep_observed(scratch[0]);
}

/// Size, build and warm the global pool.  Each worker runs
/// `start_handler(index, physical_cores)` when it starts.
pub fn build_pool<H: Fn(usize, usize) + Send + Sync + 'static>(start_handler: H) -> (info: PoolInfo)
    requires
        forall|i: usize, p: usize| call_requires(start_handler, (i, p)),
    ensures
        info.config.num_threads == spec_worker_threads(info.config.physical_cpus),
        info.config.num_threads >= 1,
        info.config.logical_cpus >= 1,
        info.config.physical_cpus >= 1,
        info.config.physical_cores_used,
        info.warmup_tasks == (if info.initialised { info.config.num_threads } else { 0 }),
{
    let logical = logical_cpu_count();
    let physical = physical_cpu_count();
    let num_threads = worker_threads_for(physical);
    let handler = move |thread_idx: usize| start_handler(thread_idx, physical);
    let initialised = build_global_pool(num_threads, handler);
    let info = pool_plan(logical, physical, initialised);
    if info.warmup_tasks > 0 {
        run_on_pool(info.warmup_tasks, touch_stack);
    }
    info
}

} // verus!
