use vstd::prelude::*;

use std::sync::Arc;

verus! {

/// async-std's read-write lock (async-lock's underneath), carried opaquely.
/// Requests take it in write mode around each evaluation, because evaluating
/// updates the enforcer's decision cache.
#[verifier::external_type_specification]
#[verifier::external_body]
#[verifier::reject_recursive_types(T)]
pub struct ExRwLock<T: ?Sized>(async_std::sync::RwLock<T>);

/// Relies on Arc::clone: the result is another reference to the same
/// allocation, so it designates the very same lock-protected enforcer.
#[verifier::external_body]
fn share(e: &Arc<async_std::sync::RwLock<casbin::CachedEnforcer>>) -> (r: Arc<
    async_std::sync::RwLock<casbin::CachedEnforcer>,
>)
    ensures
        r == *e,
{
    e.clone()
}

/// The lock cell that wrapping a given enforcer yields. The cell's contents
/// cannot be spoken of directly (both types are opaque), so the result of
/// the wrap is given a name, and contracts tie a handle to the enforcer it
/// was built from through that name.
pub uninterp spec fn lock_cell_of(e: casbin::CachedEnforcer) -> async_std::sync::RwLock<
    casbin::CachedEnforcer,
>;

/// Relies on async-std's RwLock::new: wraps the enforcer in a fresh
/// read-write lock, initially unlocked. The result is a function of the
/// wrapped enforcer alone, named `lock_cell_of`.
#[verifier::external_body]
fn lock_new(e: casbin::CachedEnforcer) -> (l: async_std::sync::RwLock<casbin::CachedEnforcer>)
    ensures
        l == lock_cell_of(e),
{
    async_std::sync::RwLock::new(e)
}

/// A shared handle to one casbin enforcer. Every clone of the handle
/// designates the same lock-protected enforcer instance, so policy loaded
/// through one clone governs enforcement performed through another.
pub struct CasbinService {
    enforcer: Arc<async_std::sync::RwLock<casbin::CachedEnforcer>>,
}

impl View for CasbinService {
    type V = Arc<async_std::sync::RwLock<casbin::CachedEnforcer>>;

    /// The shared enforcer reference that this handle designates.
    closed spec fn view(&self) -> Self::V {
        self.enforcer
    }
}

impl CasbinService {
    /// Wraps an already-shared enforcer reference, so that several pipelines
    /// (or a test harness and a pipeline) can drive one enforcer, and so
    /// that it can be configured before serving starts.
    pub fn set_enforcer(e: Arc<async_std::sync::RwLock<casbin::CachedEnforcer>>) -> (s:
        CasbinService)
        ensures
            s@ == e,
    {
        CasbinService { enforcer: e }
    }

    /// Wraps a freshly constructed enforcer in a new shared, lock-protected
    /// cell: the returned handle designates the lock cell built around
    /// exactly the given enforcer. The asynchronous engine construction
    /// itself happens outside this library; this is the synchronous tail of
    /// it.
    pub fn from_enforcer(e: casbin::CachedEnforcer) -> (s: CasbinService)
        ensures
            s@ == lock_cell_of(e),
    {
        CasbinService { enforcer: Arc::new(lock_new(e)) }
    }

    /// A clone of the inner shared reference, for administrative access to
    /// the enforcer (for instance to install a matching function on the role
    /// manager) before or while the pipeline serves.
    pub fn get_enforcer(&mut self) -> (r: Arc<async_std::sync::RwLock<casbin::CachedEnforcer>>)
        ensures
            r == final(self)@,
            *final(self) == *old(self),
    {
        share(&self.enforcer)
    }
}

impl Clone for CasbinService {
    /// An alias, not a copy: the clone designates the same enforcer.
    fn clone(&self) -> (s: Self)
        ensures
            s == *self,
    {
        CasbinService { enforcer: share(&self.enforcer) }
    }
}

} // verus!
