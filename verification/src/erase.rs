use vstd::prelude::*;

verus! {

/// A type-erased configuration value: one decoded value of a concrete type
/// fixed when the value was packed, hidden behind a uniform handle. The
/// handle is opaque; recovering the value succeeds exactly when it is asked
/// for under the type it was packed with, and fails as `None` otherwise,
/// never as undefined behaviour. Built on `std::any`, whose downcast is the
/// trusted boundary of this erasure.
#[verifier::external_body]
pub struct AnyValue {
    inner: std::boxed::Box<dyn std::any::Any + Send + Sync>,
}

impl AnyValue {
    /// Relies on Box::new coercing to `dyn Any`: erases the value's type.
    #[verifier::external_body]
    pub(crate) fn pack<C: Send + Sync + 'static>(value: C) -> (r: AnyValue) {
        AnyValue { inner: std::boxed::Box::new(value) }
    }

    /// Relies on Any::downcast_ref: returns the packed value exactly when
    /// `C` is the type it was packed with, and `None` otherwise.
    #[verifier::external_body]
    pub(crate) fn unpack<C: Clone + Send + Sync + 'static>(&self) -> (r: Option<C>) {
        self.inner.downcast_ref::<C>().cloned()
    }

    /// Relies on Any::type_id: reports whether the two handles hold values
    /// of one and the same concrete type.
    #[verifier::external_body]
    pub(crate) fn same_type(&self, other: &AnyValue) -> (r: bool) {
        self.inner.as_ref().type_id() == other.inner.as_ref().type_id()
    }
}

/// Owns a running filesystem watcher on behalf of a registry cell, erased
/// behind a uniform handle so that the registry does not depend on any one
/// change-detection backend. Dropping the guard drops the watcher, which
/// stops the watch; the guard lives exactly as long as the cell that owns
/// it.
#[verifier::external_body]
pub struct WatchGuard {
    inner: std::boxed::Box<dyn std::any::Any + Send + Sync>,
}

impl WatchGuard {
    /// Relies on Box::new coercing to `dyn Any`: takes ownership of the
    /// backend's watcher handle so that dropping the guard stops the watch.
    #[verifier::external_body]
    pub fn hold<W: Send + Sync + 'static>(watcher: W) -> (r: WatchGuard) {
        WatchGuard { inner: std::boxed::Box::new(watcher) }
    }
}

} // verus!
