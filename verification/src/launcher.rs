//! Thread fan-out planning for the serve loop.
//!
//! The proxy serves connections on a fixed pool of `num_threads` OS threads,
//! all sharing one server handle. The initiating thread is itself one of the
//! pool, so only `num_threads - 1` extra threads are ever spawned. The
//! launcher that performs the spawning lives outside the library; this module
//! states how many extra threads it must start.

use vstd::prelude::*;

verus! {

/// How many additional serve threads to spawn beyond the initiating thread.
///
/// With a pool size of 1 the initiating thread serves alone and nothing is
/// spawned; with a pool size of `n > 1`, `n - 1` extra threads are spawned so
/// that exactly `n` acceptors run concurrently.
pub fn extra_thread_count(num_threads: usize) -> (extra: usize)
    requires
        num_threads >= 1,
    ensures
        extra == num_threads - 1,
        extra + 1 == num_threads,
{
    if num_threads == 1 {
        0
    } else {
        num_threads - 1
    }
}

} // verus!
