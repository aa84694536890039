use vstd::prelude::*;
use vstd::rwlock::RwLock;
use std::sync::Arc;

verus! {

/// The cell that holds the active storage provider, shared by all requests.
/// Readers take a snapshot of the provider for the whole of one operation,
/// so an operation never straddles two providers; a swap waits only for the
/// readers that are copying the current provider, never for a transfer.
#[verifier::reject_recursive_types(S)]
pub struct StorageServiceWrapper<S> {
    service: Arc<RwLock<S, spec_fn(S) -> bool>>,
}

impl<S> StorageServiceWrapper<S> {
    /// The cell admits any provider.
    #[verifier::type_invariant]
    spec fn admits_any(&self) -> bool {
        forall|v: S| (*self.service).inv(v)
    }
}

impl<S: Clone> StorageServiceWrapper<S> {
    /// A cell whose active provider is `service`.
    pub fn new(service: S) -> (r: Self) {
        let pred = Ghost(|v: S| true);
        StorageServiceWrapper { service: Arc::new(RwLock::new(service, pred)) }
    }

    /// A snapshot of the provider that is active at the time of the call.
    /// Another request may swap the provider at any moment, so nothing more
    /// is promised of which one.
    pub fn get(&self) -> (r: S) {
        let lock: &RwLock<S, spec_fn(S) -> bool> = &self.service;
        let handle = lock.acquire_read();
        let current = handle.borrow().clone();
        handle.release_read();
        current
    }

    /// Makes `new_service` the active provider. Operations that already took
    /// a snapshot finish with the provider they took.
    pub fn replace(&self, new_service: S) {
        let lock: &RwLock<S, spec_fn(S) -> bool> = &self.service;
        proof {
            use_type_invariant(self);
        }
        let (_previous, handle) = lock.acquire_write();
        handle.release_write(new_service);
    }
}

} // verus!
