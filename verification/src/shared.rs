//! The shared store: a lazily initialized singleton per type, usable
//! concurrently from many threads.
//!
//! The store keeps one entry per type in a type-keyed container behind a
//! reader/writer lock. A lookup for an already initialized type takes only a
//! shared (read) lock, so concurrent readers never block each other. On a
//! miss the initializer runs with **no lock held** — that is what makes a
//! reentrant `get_or_init` from inside an initializer safe instead of
//! self-deadlocking — and the result is then offered to the container under
//! the exclusive (write) lock by an insert-if-absent step: if another caller
//! installed an entry for the same type in the meantime, the newly computed
//! value is discarded and the existing entry wins, exactly the discipline
//! stated by [`crate::type_map::committed`] and proved about in
//! [`crate::type_map`].
//!
//! Which of the two ways an entry was obtained is reported by
//! [`StaticAnyMap::get_or_install`] as an [`Insertion`]: its `Installed` arm
//! is pinned by contract to this call's own initializer result, while its
//! `Present` arm hands back whatever entry an earlier insertion installed —
//! a fact about the container's hidden, concurrently mutated state that no
//! contract over a shared borrow can model here. [`StaticAnyMap::get_or_init`]
//! is the same operation with the two arms merged.
//!
//! Entries are handed out as [`Arc`] handles. The `Arc` is the store's
//! stable-address wrapper: the value it holds never moves and is freed only
//! after both the store and every handle in circulation are gone, so a handle
//! stays valid even when it outlives the thread that asked for it.

use vstd::prelude::*;

use std::sync::Arc;

verus! {

/// How an entry for a type was obtained from the store.
pub enum Insertion<T> {
    /// The container had no entry for the type: the handle offered by this
    /// call — holding its own initializer's result — was installed, and is
    /// handed back.
    Installed(Arc<T>),
    /// The container already held an entry for the type: the offered value
    /// was discarded and the existing entry is handed back.
    Present(Arc<T>),
}

impl<T> Insertion<T> {
    /// The entry's handle, however it was obtained.
    pub fn handle(self) -> (r: Arc<T>)
        ensures
            self matches Insertion::Installed(h) ==> r == h,
            self matches Insertion::Present(h) ==> r == h,
    {
        match self {
            Insertion::Installed(handle) => handle,
            Insertion::Present(handle) => handle,
        }
    }
}

/// The entry offered to the container on a miss: a counted handle holding
/// exactly what the initializer produced.
fn fresh_entry<T, F: FnOnce() -> T>(init: F) -> (r: Arc<T>)
    requires
        call_requires(init, ()),
    ensures
        exists|v: T| #[trigger] call_ensures(init, (), v) && r == v,
{
    let value = init();
    Arc::new(value)
}

/// A store of lazily constructed singletons, one per type, shareable across
/// threads. Each type's instance is created at most once per store and never
/// removed or replaced; every call for the same type hands back a handle to
/// the same instance. The entries live in an `anymap` container behind a
/// `parking_lot` reader/writer lock.
#[verifier::external_body]
pub struct StaticAnyMap {
    inner: parking_lot::RwLock<anymap::Map<dyn anymap::any::Any + Send + Sync>>,
}

impl StaticAnyMap {
    /// An empty store, with no type initialized yet.
    ///
    /// Relies on `anymap::Map::new` and `parking_lot::RwLock::new`: the new
    /// container holds no entry for any type.
    #[verifier::external_body]
    pub fn new() -> Self {
        StaticAnyMap { inner: parking_lot::RwLock::new(anymap::Map::new()) }
    }

    /// Relies on `anymap::Map::get` under a `parking_lot::RwLock` read lock:
    /// hands back the entry the container holds for `T`, if there is one,
    /// without running any caller code while the lock is held.
    #[verifier::external_body]
    fn lookup<T: Send + Sync + 'static>(&self) -> Option<Arc<T>> {
        let guard = self.inner.read();
        guard.get::<Arc<T>>().cloned()
    }

    /// Relies on `anymap::Map::entry` under a `parking_lot::RwLock` write
    /// lock. A vacant entry installs the offered handle and hands back
    /// exactly that handle — anymap's vacant insertion returns what was
    /// inserted — which the `Installed` arm's contract states; an occupied
    /// entry keeps what it had, discards the offered value and hands the
    /// existing entry back as `Present`. No caller code runs while the lock
    /// is held.
    #[verifier::external_body]
    fn store_if_absent<T: Send + Sync + 'static>(&self, value: Arc<T>) -> (r: Insertion<T>)
        ensures
            r matches Insertion::Installed(handle) ==> handle == value,
    {
        let mut guard = self.inner.write();
        match guard.entry::<Arc<T>>() {
            anymap::Entry::Occupied(entry) => Insertion::Present(entry.get().clone()),
            anymap::Entry::Vacant(entry) => Insertion::Installed(entry.insert(value).clone()),
        }
    }

    /// Get the entry for `T`, initializing it first when the store does not
    /// hold one yet, and report how it was obtained: an `Installed` answer
    /// pins the handle to this call's own initializer result; a `Present`
    /// answer hands back the entry whichever insertion came first installed.
    ///
    /// The fast path is a lookup under the shared lock. On a miss the
    /// initializer runs with no lock held, so it may itself call back into
    /// the store — for the same or a different type — without deadlocking;
    /// the computed value is then offered to the container's
    /// insert-if-absent step, which keeps whichever entry was installed
    /// first. A panic inside the initializer propagates to the caller and
    /// commits nothing, so a later call retries from scratch.
    pub fn get_or_install<T: Send + Sync + 'static, F: FnOnce() -> T>(&self, init: F) -> (r:
        Insertion<T>)
        requires
            call_requires(init, ()),
        ensures
            r matches Insertion::Installed(handle) ==> exists|v: T|
                #[trigger] call_ensures(init, (), v) && handle == v,
    {
        match self.lookup::<T>() {
            Some(existing) => Insertion::Present(existing),
            None => {
                let offered = fresh_entry(init);
                self.store_if_absent(offered)
            },
        }
    }

    /// Get the singleton for `T`, initializing it first when the store does
    /// not hold one yet: [`Self::get_or_install`] with the two arms merged
    /// into the bare handle, for callers that do not care which insertion
    /// won. What the handle holds when the entry pre-existed is a fact about
    /// the container's hidden state that no contract here can pin; the
    /// outcome-reporting form states everything that can be.
    pub fn get_or_init<T: Send + Sync + 'static, F: FnOnce() -> T>(&self, init: F) -> (r: Arc<T>)
        requires
            call_requires(init, ()),
    {
        self.get_or_install(init).handle()
    }
}

} // verus!
