//! The confined store: a lazily initialized singleton per type, owned by
//! exactly one execution context at a time.
//!
//! No lock guards the container — confinement to a single context stands in
//! for synchronization, which is why the store is neither `Send` nor `Sync` —
//! but single-threaded code can still reenter: an initializer or a visitor
//! may call back into the very store that is running it. Each entry therefore
//! carries the explicit tri-state marker of [`crate::slot`]: a construction
//! attempt that finds its own slot already *under construction* is a
//! reentrant initialization, a caller defect that is reported as the distinct
//! [`StoreError::ReentrantInit`] instead of being absorbed. Reentrant
//! *access* to an already constructed value, by contrast, is tolerated: a
//! visitor may call `get_or_init_with` again, for the same or a different
//! type.
//!
//! The trusted boundary here is as thin as the cell itself: the wrappers
//! only read a slot's state out of its `RefCell` and write a state back in.
//! The protocol steps — [`SlotState::enter`], [`SlotState::commit`],
//! [`SlotState::value`] — run in the open body of
//! [`ThreadLocalStaticAnymap::get_or_init_with`], where their exact
//! contracts govern every decision the store makes.
//!
//! Values are kept behind [`Rc`] handles inside their slots, so a state read
//! out of the container reaches the same instance the container holds, and a
//! handle stays valid while caller code runs and the container meanwhile
//! grows or hands out other slots; the store and its entries end with the
//! execution context that owns them. Caller code — initializer or visitor —
//! only ever runs when no borrow of the container or of a slot is held,
//! which is what makes reentrant calls safe.

use vstd::prelude::*;

use core::cell::RefCell;
use std::rc::Rc;

use crate::slot::Marker;
use crate::slot::SlotState;

verus! {

#[verifier::external_type_specification]
#[verifier::external_body]
#[verifier::reject_recursive_types(T)]
/// `core::cell::RefCell`, declared so slot handles can cross the trusted
/// boundary; nothing is assumed about its contents.
pub struct ExRefCell<T: ?Sized>(RefCell<T>);

/// How a confined-store call can fail. No error is ever "value not found
/// after initialization": a call that returns `Ok` has found or constructed
/// the entry and run the visitor on it.
#[derive(Debug, Clone, Copy, PartialEq, Eq, Structural)]
pub enum StoreError {
    /// Reentrant initialization: the initializer for a type, directly or
    /// transitively, triggered another construction attempt for the same
    /// type before the first completed. This indicates an initializer that
    /// depends on the very value it is constructing — a logic defect in
    /// caller code, distinct from an ordinary initializer failure (which
    /// would propagate as a panic and commit nothing).
    ReentrantInit,
    /// A slot was found in a state the store's own discipline rules out,
    /// such as a slot borrow that should not be live. An internal invariant
    /// violation, reported rather than silently ignored.
    SlotMismatch,
}

/// One slot of the confined store: the tri-state of one type's entry, behind
/// shared handles so the slot outlives any single borrow of the container.
type Slot<T> = Rc<RefCell<SlotState<Rc<T>>>>;

/// A store of lazily constructed singletons, one per type, confined to one
/// execution context. Each type's instance is created at most once per store
/// and never removed or replaced; every call for the same type reaches the
/// same instance, through a visitor callback. The entries live in an
/// `anymap3` container inside a `core::cell::RefCell`; the store is neither
/// `Send` nor `Sync`, so the cell is only ever reached from one context.
#[verifier::external_body]
pub struct ThreadLocalStaticAnymap {
    inner: RefCell<anymap3::AnyMap>,
}

/// Relies on `core::cell::RefCell::try_borrow`: hands back a copy of the
/// slot's current state — the `Ready` arm's handle is counted, so the copy
/// reaches the very instance the slot holds — or nothing when a conflicting
/// borrow of the slot was live. The borrow is released before this call
/// returns; no step of the protocol runs in here.
#[verifier::external_body]
fn slot_read<T: 'static>(slot: &Slot<T>) -> Option<SlotState<Rc<T>>> {
    match slot.try_borrow() {
        Ok(state) => Some(state.clone()),
        Err(_) => None,
    }
}

/// Relies on `core::cell::RefCell::try_borrow_mut`: stores the given state
/// in the slot, reporting whether the slot was available. The borrow is
/// released before this call returns; no step of the protocol runs in here.
#[verifier::external_body]
fn slot_write<T: 'static>(slot: &Slot<T>, state: SlotState<Rc<T>>) -> bool {
    match slot.try_borrow_mut() {
        Ok(mut current) => {
            *current = state;
            true
        },
        Err(_) => false,
    }
}

impl ThreadLocalStaticAnymap {
    /// An empty store, with no type initialized yet.
    ///
    /// Relies on `anymap3::Map::new` and `core::cell::RefCell::new`: the new
    /// container holds no slot for any type.
    #[verifier::external_body]
    pub fn new() -> Self {
        ThreadLocalStaticAnymap { inner: RefCell::new(anymap3::AnyMap::new()) }
    }

    /// Relies on `anymap3::Entry::or_insert_with` through a
    /// `core::cell::RefCell` borrow: hands out the slot the container holds
    /// for `T`, installing an absent slot first when the container has none,
    /// or nothing when the container was unavailable because a borrow of it
    /// was live. The borrow is released before this call returns.
    #[verifier::external_body]
    fn slot<T: 'static>(&self) -> Option<Slot<T>> {
        let mut map = match self.inner.try_borrow_mut() {
            Ok(map) => map,
            Err(_) => return None,
        };
        Some(map.entry::<Slot<T>>().or_insert_with(|| Rc::new(RefCell::new(SlotState::Absent))).clone())
    }

    /// Find or construct the singleton for `T`, then run `with` on a shared
    /// view of it: a call that returns `Ok` has run the visitor on a value.
    ///
    /// The slot's state is read out, stepped by the verified protocol, and
    /// written back; caller code only ever runs between those accesses,
    /// never under a borrow. When the store holds no entry for `T` yet, the
    /// slot is claimed as *under construction* and the initializer runs — it
    /// may itself call `get_or_init_with` for a *different* type, and a
    /// visitor may reenter even for the same type. A reentrant construction
    /// attempt for the same type, by contrast, is answered with
    /// [`StoreError::ReentrantInit`]: immediately by the inner call when
    /// [`SlotState::enter`] finds the slot under construction, or at
    /// delivery by the outer call when [`SlotState::commit`] finds its claim
    /// gone. A panic inside the initializer propagates to the caller and
    /// delivers nothing; the slot then keeps its claim, so a later attempt
    /// for the same type — possible only when the caller caught the panic —
    /// is answered like a reentrant one instead of rebuilding a value whose
    /// first construction already failed once.
    pub fn get_or_init_with<T: 'static, F: FnOnce() -> T, W: FnOnce(&T)>(
        &self,
        init: F,
        with: W,
    ) -> (r: Result<(), StoreError>)
        requires
            call_requires(init, ()),
            forall|v: &T| call_requires(with, (v,)),
        ensures
            r is Ok ==> exists|v: &T| call_ensures(with, (v,), ()),
    {
        let slot = match self.slot::<T>() {
            Some(slot) => slot,
            None => { return Err(StoreError::SlotMismatch) },
        };
        let mut state = match slot_read(&slot) {
            Some(state) => state,
            None => { return Err(StoreError::SlotMismatch) },
        };
        match state.enter() {
            Marker::InProgress => Err(StoreError::ReentrantInit),
            Marker::Ready => {
                let value = match state.value() {
                    Some(handle) => handle.clone(),
                    None => unreached(),
                };
                with(&*value);
                Ok(())
            },
            Marker::Absent => {
                // `enter` claimed the slot: record the claim before running
                // caller code, so a reentrant attempt finds it.
                if !slot_write(&slot, state) {
                    return Err(StoreError::SlotMismatch);
                }
                let constructed = Rc::new(init());
                let mut claimed = match slot_read(&slot) {
                    Some(state) => state,
                    None => { return Err(StoreError::SlotMismatch) },
                };
                let accepted = claimed.commit(constructed.clone());
                if !slot_write(&slot, claimed) {
                    return Err(StoreError::SlotMismatch);
                }
                if accepted {
                    with(&*constructed);
                    Ok(())
                } else {
                    Err(StoreError::ReentrantInit)
                }
            },
        }
    }
}

} // verus!
