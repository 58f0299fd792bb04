//! Pure sizing decisions for the worker pools the host creates.

use vstd::prelude::*;

verus! {

/// How many worker threads the search runtime gets: the configured maximum,
/// or, when none is configured, a count derived from the machine's CPUs —
/// at least one thread, and on a machine with more than two CPUs one fewer
/// than their number, so one CPU stays free:
/// one CPU gives one thread, two give two, three give two, four give three,
/// five give four.
pub open spec fn spec_search_thread_count(max_search_threads: usize, num_cpu: usize) -> usize {
    if max_search_threads != 0 {
        max_search_threads
    } else if num_cpu == 0 {
        1
    } else if num_cpu == 1 {
        1
    } else if num_cpu == 2 {
        2
    } else {
        (num_cpu - 1) as usize
    }
}

/// Resolves the search runtime's worker-thread count.  The caller supplies
/// the machine's CPU count; the layer only decides.
pub fn search_thread_count(max_search_threads: usize, num_cpu: usize) -> (r: usize)
    ensures
        r == spec_search_thread_count(max_search_threads, num_cpu),
        r >= 1,
{
    if max_search_threads != 0 {
        max_search_threads
    } else {
        match num_cpu {
            0 => 1,
            1 => 1,
            2 => 2,
            _ => num_cpu - 1,
        }
    }
}

/// Whether the update runtime gets an explicit cap on blocking threads: only
/// a positive configured maximum is applied, since a cap of zero would be
/// refused by the runtime builder.
pub fn update_blocking_threads(max_optimization_threads: usize) -> (r: Option<usize>)
    ensures
        max_optimization_threads > 0 ==> r == Some(max_optimization_threads),
        max_optimization_threads == 0 ==> r is None,
{
    if max_optimization_threads > 0 {
        Some(max_optimization_threads)
    } else {
        None
    }
}

/// How many worker threads the general-purpose runtime gets: one per CPU,
/// but never fewer than two.
pub fn general_worker_threads(num_cpu: usize) -> (r: usize)
    ensures
        r == (if num_cpu >= 2 {
            num_cpu
        } else {
            2
        }),
{
    if num_cpu >= 2 {
        num_cpu
    } else {
        2
    }
}

} // verus!
