//! What this library uses of the `rayon` crate, and what it takes for granted
//! about it.

use vstd::prelude::*;

verus! {

/// `rayon::ThreadPool`: a pool of worker threads. Nothing is known of its
/// inside; it is only handed on.
#[verifier::external_type_specification]
#[verifier::external_body]
pub struct ExThreadPool(rayon::ThreadPool);

/// `rayon::ThreadPoolBuildError`: why a pool could not be started.
#[verifier::external_type_specification]
#[verifier::external_body]
pub struct ExThreadPoolBuildError(rayon::ThreadPoolBuildError);

/// `rayon::join` runs both closures, possibly at the same time, and returns
/// the pair of their results. Taken on trust: each component of the pair is a
/// result that the corresponding closure may return. Called from a thread
/// that belongs to no pool, it first starts rayon's global pool, and it
/// panics where the machine does not let that pool start.
pub assume_specification<A, B, RA, RB>[ rayon::join::<A, B, RA, RB> ](oper_a: A, oper_b: B) -> (r: (
    RA,
    RB,
))
    where
        A: FnOnce() -> RA + Send,
        B: FnOnce() -> RB + Send,
        RA: Send,
        RB: Send,
    requires
        call_requires(oper_a, ()),
        call_requires(oper_b, ()),
    ensures
        call_ensures(oper_a, (), r.0),
        call_ensures(oper_b, (), r.1),
;

/// `rayon::ThreadPool::install` runs the closure inside the pool and returns
/// what the closure returned. Taken on trust: the result is one that the
/// closure may return.
pub assume_specification<OP, R>[ rayon::ThreadPool::install::<OP, R> ](
    pool: &rayon::ThreadPool,
    op: OP,
) -> (r: R)
    where
        OP: FnOnce() -> R + Send,
        R: Send,
    requires
        call_requires(op, ()),
    ensures
        call_ensures(op, (), r),
;

/// `rayon::ThreadPoolBuilder::new`, `num_threads` and `build` in a row: a pool
/// of the given number of threads, or the reason why it did not start. Whether
/// it starts depends on the machine, so nothing is claimed of the outcome.
#[verifier::external_body]
pub(crate) fn start_pool(threads: usize) -> Result<rayon::ThreadPool, rayon::ThreadPoolBuildError> {
    rayon::ThreadPoolBuilder::new().num_threads(threads).build()
}

} // verus!
