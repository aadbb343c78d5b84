//! A registry of worker pools, one per requested worker count, shared by
//! every caller that asks for that count.

use vstd::prelude::*;
use std::sync::Arc;
use dashmap::DashMap;
use rayon::{ThreadPool, ThreadPoolBuildError, ThreadPoolBuilder};

verus! {

#[verifier::external_type_specification]
#[verifier::external_body]
#[verifier::reject_recursive_types(K)]
#[verifier::reject_recursive_types(V)]
#[verifier::reject_recursive_types(S)]
pub struct ExDashMap<K, V, S>(DashMap<K, V, S>);

#[verifier::external_type_specification]
#[verifier::external_body]
pub struct ExThreadPool(ThreadPool);

#[verifier::external_type_specification]
#[verifier::external_body]
pub struct ExThreadPoolBuildError(ThreadPoolBuildError);

/// Why a batch could not be computed.
#[derive(Debug)]
pub enum BatchError {
    /// A worker count of zero was asked for.
    InvalidArgument,
    /// The worker pool could not be built; the cause, as text.
    PoolConstruction(String),
}

impl BatchError {
    /// A description of the error.
    pub fn to_string(&self) -> (r: String)
        ensures
            self is InvalidArgument ==> r@ == "num_threads must be at least 1"@,
            self is PoolConstruction ==> r@ == self->PoolConstruction_0@,
    {
        match self {
            BatchError::InvalidArgument => "num_threads must be at least 1".to_owned(),
            BatchError::PoolConstruction(cause) => cause.clone(),
        }
    }
}

/// Relies on `DashMap::new`: an empty concurrent map.
#[verifier::external_body]
fn empty_registry() -> DashMap<usize, Arc<ThreadPool>> {
    DashMap::new()
}

/// Relies on `DashMap::get`: the pool stored under `num_threads`, if any. Other
/// callers may insert at any time, so nothing is promised of the outcome.
#[verifier::external_body]
fn lookup(pools: &DashMap<usize, Arc<ThreadPool>>, num_threads: usize) -> Option<Arc<ThreadPool>> {
    pools.get(&num_threads).map(|entry| Arc::clone(entry.value()))
}

/// Relies on `DashMap::insert`: stores `pool` under `num_threads`, replacing
/// whatever another caller stored there meanwhile.
#[verifier::external_body]
fn remember(pools: &DashMap<usize, Arc<ThreadPool>>, num_threads: usize, pool: Arc<ThreadPool>) {
    pools.insert(num_threads, pool);
}

/// Relies on `ThreadPoolBuilder::num_threads` and `ThreadPoolBuilder::build`:
/// a pool of `num_threads` workers, or the reason the system could not start it.
#[verifier::external_body]
fn build_pool(num_threads: usize) -> Result<ThreadPool, ThreadPoolBuildError>
    requires
        num_threads >= 1,
{
    ThreadPoolBuilder::new().num_threads(num_threads).build()
}

/// Relies on `ThreadPoolBuilder::build` with no thread count set: a pool
/// sized to the available parallelism, or the reason the system could not
/// start it.
#[verifier::external_body]
fn build_default_pool() -> Result<ThreadPool, ThreadPoolBuildError> {
    ThreadPoolBuilder::new().build()
}

/// Relies on `ThreadPoolBuildError`'s `Display`: the cause as text.
#[verifier::external_body]
fn describe(e: &ThreadPoolBuildError) -> String {
    e.to_string()
}

/// A process-wide, concurrency-safe map from worker count to a shared pool.
/// The default pool, sized to the available parallelism, is kept under the
/// count 0, which no caller may ask for. Entries are never removed.
pub struct PoolCache {
    pools: DashMap<usize, Arc<ThreadPool>>,
}

impl PoolCache {
    /// A registry that holds no pool yet.
    pub fn new() -> Self {
        PoolCache { pools: empty_registry() }
    }

    /// The pool registered for `num_threads`, built and registered first if
    /// there is none. A failure to build is reported and nothing is registered.
    pub fn get_or_create_pool(&self, num_threads: usize) -> (r: Result<Arc<ThreadPool>, BatchError>)
        requires
            num_threads >= 1,
        ensures
            r is Err ==> r->Err_0 is PoolConstruction,
    {
        if let Some(pool) = lookup(&self.pools, num_threads) {
            return Ok(pool);
        }
        match build_pool(num_threads) {
            Ok(pool) => {
                let pool_arc = Arc::new(pool);
                remember(&self.pools, num_threads, Arc::clone(&pool_arc));
                Ok(pool_arc)
            },
            Err(e) => Err(BatchError::PoolConstruction(describe(&e))),
        }
    }

    /// The default pool, sized to the available parallelism, built and
    /// registered on first use. A failure to build is reported and nothing is
    /// registered.
    pub fn get_or_create_default_pool(&self) -> (r: Result<Arc<ThreadPool>, BatchError>)
        ensures
            r is Err ==> r->Err_0 is PoolConstruction,
    {
        if let Some(pool) = lookup(&self.pools, 0) {
            return Ok(pool);
        }
        match build_default_pool() {
            Ok(pool) => {
                let pool_arc = Arc::new(pool);
                remember(&self.pools, 0, Arc::clone(&pool_arc));
                Ok(pool_arc)
            },
            Err(e) => Err(BatchError::PoolConstruction(describe(&e))),
        }
    }
}

} // verus!
