//! A generic, backend-agnostic entity storage layer.
//!
//! The library gives a uniform, verified contract for creating, updating,
//! deleting, enumerating and subscribing to change events for typed entity
//! records:
//!
//! - [`entity`] and [`updatable`] define what a storable record and its
//!   partial-update representation must provide — identity, equality by
//!   identity, exact copies, in-place patching — together with the laws
//!   every implementation owes: patching is idempotent per field, never
//!   moves a record to another identity, and a record's full snapshot
//!   patch reproduces it.
//! - [`event`] is the three-variant change notification (create, update,
//!   delete) and its identity-free projection for singletons.
//! - [`channel`] models the per-type event stream: a bounded
//!   multi-consumer broadcast with explicit lag semantics, where a slow
//!   subscriber observes a gap rather than blocking the publisher.
//! - [`store`] holds the in-memory reference backend — a map from identity
//!   to record plus one event channel per entity type, with every
//!   operation's effect pinned against an abstract store model — the
//!   singleton adapters layered on the keyed operations, and the per-event
//!   replay that mirrors one store's feed into another.
//! - [`change_stream`], [`mongo`] and [`mongodb`] model an external
//!   store's native change feed and translate it, event by event, into the
//!   domain event model, reporting a contract violation whenever the feed
//!   omits data its documented shape guarantees.
//!
//! What remains outside the library is plain plumbing: opening driver
//! connections, running the long-lived watch and sync loops as tasks, and
//! shuttling values over channels.

pub mod change_stream;
pub mod channel;
pub mod dup;
pub mod entities;
pub mod entity;
pub mod event;
pub mod mongo;
pub mod mongodb;
pub mod singleton_entity;
pub mod store;
pub mod updatable;

pub use channel::{Broadcast, Receiver, RecvOutcome};
pub use dup::Dup;
pub use entity::{Entity, IDTrait, ProtoEntity, UpdateTrait};
pub use event::{Event, EventView, SingletonEvent};
pub use singleton_entity::{Singleton, SingletonEntity, SingletonEntityUpdate};
pub use store::in_mem::{InMemSingletonStore, InMemStore};
pub use store::NotFoundError;
pub use updatable::Updatable;
