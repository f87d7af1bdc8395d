//! Sizing of the worker pool that a host program runs the per-file work on.
//!
//! The pool itself — threads, the task channel and the per-worker executors
//! — lives outside this crate; what is decided here is only how many
//! workers such a pool gets.

use vstd::prelude::*;

verus! {

/// How many workers a pool gets: the desired size, clamped by how much
/// parallelism the machine makes available.
///
/// Parallelism is a resource: a host environment may restrict how many
/// computations can actually run at once, so a desired pool size larger
/// than that buys nothing. Both arguments must be non-zero, and the result
/// then is too.
pub fn worker_count(desired_pool_size: usize, available_parallelism: usize) -> (r: usize)
    requires
        desired_pool_size >= 1,
        available_parallelism >= 1,
    ensures
        r == if desired_pool_size <= available_parallelism {
            desired_pool_size as int
        } else {
            available_parallelism as int
        },
        r >= 1,
{
    if desired_pool_size <= available_parallelism {
        desired_pool_size
    } else {
        available_parallelism
    }
}

} // verus!
