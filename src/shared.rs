//! A render cache shared between threads: each operation holds the lock.
use crate::error::SvgearError;
use crate::manager::{
    cache_wf, get_bitmap_effect, process_effect, CacheView, GetBitmapRequest, GetBitmapResponse,
    RenderRequest, RenderResponse, SvgManager,
};
use std::sync::Arc;
use vstd::prelude::*;
use vstd::rwlock::{RwLock, RwLockPredicate};

verus! {

/// The lock's invariant: the cache inside is well formed.
pub struct CacheInvariant;

impl RwLockPredicate<SvgManager> for CacheInvariant {
    open spec fn inv(self, v: SvgManager) -> bool {
        v.wf()
    }
}

/// A render cache behind a reader-writer lock, cheap to clone; the clones
/// share one cache.
#[derive(Clone)]
pub struct SharedSvgManager(Arc<RwLock<SvgManager, CacheInvariant>>);

impl SharedSvgManager {
    /// A shared empty cache.
    pub fn new() -> (r: SharedSvgManager) {
        let m = SvgManager::new();
        SharedSvgManager(Arc::new(RwLock::new(m, Ghost(CacheInvariant))))
    }

    /// Processes a render request while holding the write lock. Other callers
    /// may change the cache between calls, so the outcome is the one
    /// `process_effect` gives for the well-formed cache as the lock held it.
    pub fn process_render_request(&self, request: RenderRequest) -> (r: Result<
        RenderResponse,
        SvgearError,
    >)
        ensures
            exists|before: CacheView, after: CacheView|
                cache_wf(before) && cache_wf(after) && process_effect(before, request, r, after),
    {
        let (mut m, handle) = self.0.acquire_write();
        let r = m.process_render_request(request);
        handle.release_write(m);
        r
    }

    /// Answers a bitmap request while holding the read lock; the answer is
    /// the one `get_bitmap_effect` gives for the cache as the lock held it.
    pub fn process_get_bitmap_request(&self, request: GetBitmapRequest) -> (r: Result<
        GetBitmapResponse,
        SvgearError,
    >)
        ensures
            exists|v: CacheView| cache_wf(v) && get_bitmap_effect(v, request.id@, r),
            r matches Ok(resp) ==> resp.id == request.id,
    {
        let handle = self.0.acquire_read();
        let r = handle.borrow().process_get_bitmap_request(request);
        handle.release_read();
        r
    }
}

} // verus!
