//! The construct-once slot protocol.
//!
//! Each entry of the confined store carries an explicit tri-state marker:
//! *absent* (nothing constructed yet), *under construction* (an initializer
//! is currently running for this slot), and *ready* (the value is built and
//! will never be replaced). Making the marker an explicit state — rather than
//! encoding it in an option-typed sentinel — turns the reentrancy check into
//! an auditable branch: a construction attempt that finds the marker already
//! *under construction* has been reached from within the slot's own
//! initializer, which is a caller defect and must be refused, not absorbed.
//!
//! The two protocol steps, [`SlotState::enter`] and [`SlotState::commit`],
//! are specified exactly by [`enter_step`] and [`commit_step`]; the proof
//! functions at the bottom state the laws of the protocol.

use vstd::prelude::*;

verus! {

/// The tri-state marker of one slot, with the *ready* state's value attached.
#[derive(Clone)]
pub enum SlotState<V> {
    /// No construction for this slot has begun.
    Absent,
    /// An initializer for this slot is running and has not delivered yet.
    InProgress,
    /// The slot's value is built; it is never replaced afterwards.
    Ready(V),
}

/// A slot's marker on its own, as an observation handed to the store's logic.
pub enum Marker {
    /// The slot was absent.
    Absent,
    /// The slot was under construction.
    InProgress,
    /// The slot held a finished value.
    Ready,
}

/// What [`SlotState::enter`] does: an absent slot is claimed for construction;
/// any other slot is left exactly as it is. The returned marker is what the
/// step found, so the caller can tell the three cases apart.
pub open spec fn enter_step<V>(s: SlotState<V>) -> (SlotState<V>, Marker) {
    match s {
        SlotState::Absent => (SlotState::InProgress, Marker::Absent),
        SlotState::InProgress => (SlotState::InProgress, Marker::InProgress),
        SlotState::Ready(v) => (SlotState::Ready(v), Marker::Ready),
    }
}

/// What [`SlotState::commit`] does: a slot still under construction receives
/// the constructed value and becomes ready; any other slot is refused and
/// left exactly as it is.
pub open spec fn commit_step<V>(s: SlotState<V>, value: V) -> (SlotState<V>, bool) {
    match s {
        SlotState::InProgress => (SlotState::Ready(value), true),
        _ => (s, false),
    }
}

impl<V> SlotState<V> {
    /// The marker of this slot state.
    pub open spec fn marker_spec(&self) -> Marker {
        match self {
            SlotState::Absent => Marker::Absent,
            SlotState::InProgress => Marker::InProgress,
            SlotState::Ready(_) => Marker::Ready,
        }
    }

    /// The entry step of the protocol: claim an absent slot for construction,
    /// and report the marker that was found.
    pub fn enter(&mut self) -> (m: Marker)
        ensures
            *final(self) == enter_step(*old(self)).0,
            m == enter_step(*old(self)).1,
            m == old(self).marker_spec(),
    {
        match self {
            SlotState::Absent => {
                *self = SlotState::InProgress;
                Marker::Absent
            },
            SlotState::InProgress => Marker::InProgress,
            SlotState::Ready(_) => Marker::Ready,
        }
    }

    /// The completion step of the protocol: deliver the constructed value into
    /// a slot that is still under construction. The result reports whether the
    /// delivery was accepted; a slot in any other state is left untouched.
    pub fn commit(&mut self, value: V) -> (accepted: bool)
        ensures
            *final(self) == commit_step(*old(self), value).0,
            accepted == commit_step(*old(self), value).1,
            accepted <==> *old(self) is InProgress,
            accepted ==> *final(self) == SlotState::Ready(value),
    {
        match self {
            SlotState::InProgress => {
                *self = SlotState::Ready(value);
                true
            },
            _ => false,
        }
    }

    /// The finished value, when the slot is ready.
    pub fn value(&self) -> (r: Option<&V>)
        ensures
            match r {
                Some(v) => *self == SlotState::Ready(*v),
                None => !(self is Ready),
            },
    {
        match self {
            SlotState::Ready(v) => Some(v),
            _ => None,
        }
    }
}

/// Reentrant construction is detected, never absorbed: a construction attempt
/// that reaches a slot already under construction reports exactly that and
/// changes nothing — in particular it neither claims the slot again nor makes
/// a half-built value visible.
pub proof fn lemma_reentrant_construction_detected<V>(s: SlotState<V>)
    requires
        s is InProgress,
    ensures
        enter_step(s).0 == s,
        enter_step(s).1 == Marker::InProgress,
{
}

/// A ready slot is stable: once a value is delivered, every later protocol
/// step finds the slot ready, leaves the value in place, and refuses any
/// further delivery. Repeated access therefore always reaches the one
/// instance that was constructed first.
pub proof fn lemma_ready_is_stable<V>(v: V, value: V)
    ensures
        enter_step(SlotState::Ready(v)).0 == SlotState::Ready(v),
        enter_step(SlotState::Ready(v)).1 == Marker::Ready,
        commit_step(SlotState::Ready(v), value).0 == SlotState::Ready(v),
        commit_step(SlotState::Ready(v), value).1 == false,
{
}

/// The one successful construction path: an absent slot that is claimed and
/// then receives a value ends up ready with exactly that value.
pub proof fn lemma_construct_once<V>(s: SlotState<V>, value: V)
    requires
        s is Absent,
    ensures
        enter_step(s).1 == Marker::Absent,
        commit_step(enter_step(s).0, value).0 == SlotState::Ready(value),
        commit_step(enter_step(s).0, value).1 == true,
{
}

} // verus!
