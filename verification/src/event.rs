use vstd::prelude::*;

use crate::dup::Dup;
use crate::entity::Entity;
use crate::singleton_entity::{Singleton, SingletonEntity};

verus! {

/// The change notification a store publishes for one entity type.
///
/// A `Create` carries the full record as of creation; an `Update` carries
/// the identity of the changed record and the partial patch that was
/// applied, never a full post-update snapshot; a `Delete` carries the
/// identity of the removed record.
pub enum Event<E: Entity> {
    Create(E),
    Update { id: E::ID, update: E::Update },
    Delete(E::ID),
}

/// The abstract value of an [`Event`]: identities are replaced by their
/// views, which is how the store models speak of published events.
pub ghost enum EventView<E: Entity> {
    Create(E),
    Update { id: <E::ID as View>::V, update: E::Update },
    Delete(<E::ID as View>::V),
}

impl<E: Entity> View for Event<E> {
    type V = EventView<E>;

    open spec fn view(&self) -> EventView<E> {
        match *self {
            Event::Create(e) => EventView::Create(e),
            Event::Update { id, update } => EventView::Update { id: id@, update },
            Event::Delete(id) => EventView::Delete(id@),
        }
    }
}

impl<E: Entity> Dup for Event<E> {
    fn dup(&self) -> (r: Self)
        ensures
            r == *self,
    {
        match self {
            Event::Create(e) => Event::Create(e.dup()),
            Event::Update { id, update } => Event::Update { id: id.dup(), update: update.dup() },
            Event::Delete(id) => Event::Delete(id.dup()),
        }
    }
}

/// The simplified projection of a change notification for a singleton:
/// since there is only ever one record of the kind, no identity is carried.
pub enum SingletonEvent<S: Singleton> {
    Create(S),
    Update(S::Update),
    Delete,
}

impl<S: Singleton> Dup for SingletonEvent<S> {
    fn dup(&self) -> (r: Self)
        ensures
            r == *self,
    {
        match self {
            SingletonEvent::Create(s) => SingletonEvent::Create(s.dup()),
            SingletonEvent::Update(u) => SingletonEvent::Update(u.dup()),
            SingletonEvent::Delete => SingletonEvent::Delete,
        }
    }
}

/// The projection of a keyed event on a [`SingletonEntity`] down to a
/// [`SingletonEvent`]: the identity is dropped entirely, since it is always
/// the same constant.
pub open spec fn singleton_event_of<S: Singleton>(
    ev: EventView<SingletonEntity<S>>,
) -> SingletonEvent<S> {
    match ev {
        EventView::Create(e) => SingletonEvent::Create(e.0),
        EventView::Update { id: _, update } => SingletonEvent::Update(update.0),
        EventView::Delete(_) => SingletonEvent::Delete,
    }
}

impl<S: Singleton> vstd::std_specs::convert::FromSpecImpl<Event<SingletonEntity<S>>>
    for SingletonEvent<S> {
    open spec fn obeys_from_spec() -> bool {
        true
    }

    open spec fn from_spec(v: Event<SingletonEntity<S>>) -> Self {
        singleton_event_of(v@)
    }
}

impl<S: Singleton> From<Event<SingletonEntity<S>>> for SingletonEvent<S> {
    fn from(value: Event<SingletonEntity<S>>) -> (r: Self) {
        match value {
            Event::Create(e) => SingletonEvent::Create(e.0),
            Event::Update { id: _, update } => SingletonEvent::Update(update.0),
            Event::Delete(_) => SingletonEvent::Delete,
        }
    }
}

} // verus!
