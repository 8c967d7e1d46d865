//! A type-indexed lazy singleton store.
//!
//! Given a type parameter and an initializer, each store hands back a stable
//! handle to a single, lazily constructed instance of that type — the same
//! instance on every later call for the same type — without the caller
//! declaring a named storage location ahead of time. Keys are always type
//! identities, never runtime values; every type maps to at most one
//! instance, created at most once and destroyed only with the store itself.
//!
//! Two flavours exist. A [`shared::StaticAnyMap`] may be used concurrently
//! from many threads: it synchronises initialization behind a reader/writer
//! lock and hands out reference-counted handles. A
//! [`confined::ThreadLocalStaticAnymap`] belongs to exactly one execution
//! context at a time: it hands out a view of the value through a visitor
//! callback and reports illegal reentrant initialization as a distinct
//! error instead of corrupting its slots.
//!
//! The discipline both stores follow — a monotone, type-keyed map whose
//! insertion is idempotent ([`type_map::TypeKeyedMap`]), and a
//! construct-once slot protocol with an explicit tri-state marker
//! ([`slot::SlotState`]) — is stated and proved in those two modules,
//! together with the laws it yields: idempotence, per-type isolation,
//! first-writer-wins under racing insertions, and detection of reentrant
//! construction. Only the type-erased containers, the lock and the cell
//! that realise that discipline for arbitrary types are taken on trust,
//! each behind a small wrapper that names what it relies on and does no
//! more than move values across the boundary: the confined store's protocol
//! steps and the shared store's composition of lookup, construction and
//! insert-if-absent all run in verified code.

pub mod confined;
pub mod shared;
pub mod slot;
pub mod type_map;
