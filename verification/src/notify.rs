use vstd::prelude::*;
use vstd::rwlock::RwLock;
use std::sync::Arc;

use crate::world::RenderCallback;
use crate::wrapper::share;

verus! {

/// Holds one shared render callback and serializes its invocations.
///
/// The callback lives behind an internal lock of its own, distinct from any
/// lock around application state: two concurrent [`RenderNotifier::notify`]
/// calls never run the callback at the same time, and the callback itself may
/// dispatch new messages, since no state lock is held while it runs.
///
/// Cloning shares the callback rather than duplicating it: every clone
/// notifies through the same lock.
#[verifier::reject_recursive_types(R)]
pub struct RenderNotifier<R: RenderCallback> {
    callback: Arc<RwLock<R, spec_fn(R) -> bool>>,
}

impl<R: RenderCallback> RenderNotifier<R> {
    /// The internal lock accepts every callback value, so a notification can
    /// always hand the callback back after running it.
    #[verifier::type_invariant]
    spec fn wf(self) -> bool {
        forall|r: R| (*self.callback).inv(r)
    }

    /// Wrap a callback for shared, serialized invocation.
    pub fn new(callback: R) -> (n: Self) {
        RenderNotifier { callback: Arc::new(RwLock::new(callback, Ghost(|r: R| true))) }
    }

    /// Run the callback once: take the invocation lock, invoke, release.
    ///
    /// Concurrent callers are serialized in the order the lock admits them.
    pub fn notify(&self) {
        proof {
            use_type_invariant(self);
        }
        let (mut callback, handle) = self.callback.acquire_write();
        callback.render();
        handle.release_write(callback);
    }
}

impl<R: RenderCallback> Clone for RenderNotifier<R> {
    /// A clone notifies through the same lock and the same callback as the
    /// notifier it was cloned from.
    fn clone(&self) -> (r: Self)
        ensures
            r == *self,
    {
        proof {
            use_type_invariant(self);
        }
        RenderNotifier { callback: share(&self.callback) }
    }
}

} // verus!
