use vstd::prelude::*;

pub mod in_mem;

use crate::channel::{Receiver, RecvOutcome};
use crate::dup::Dup;
use crate::entity::Entity;
use crate::event::{singleton_event_of, Event, SingletonEvent};
use crate::singleton_entity::{Singleton, SingletonEntity, SingletonEntityUpdate};
use crate::store::in_mem::{create_transition, delete_transition, update_transition, InMemStore};

verus! {

/// Returned by update, strict-delete and point-read operations when no
/// record matches: carries the identity (or descriptive key) that could not
/// be located, so that callers can tell "nothing to act on" from "the
/// system misbehaved".
#[derive(Debug)]
pub struct NotFoundError<T>(pub T);

impl<T> NotFoundError<T> {
    /// The identity that could not be located.
    pub fn into_inner(self) -> (r: T)
        ensures
            r == self.0,
    {
        self.0
    }
}

/// Replay one received event against a store, turning the store into a
/// downstream mirror of the feed the event came from: a `Create` is
/// re-created, an `Update` re-applied, a `Delete` re-deleted. This is the
/// per-event body of the `sync` operation; the surrounding loop belongs to
/// whoever owns the inbound channel.
pub fn sync_apply<E: Entity>(store: &mut InMemStore<E>, event: Event<E>) -> (r: Result<
    (),
    NotFoundError<E::ID>,
>)
    requires
        old(store).wf(),
        old(store)@.log.len() < usize::MAX,
    ensures
        final(store).wf(),
        final(store).replay_capacity() == old(store).replay_capacity(),
        event matches Event::Create(e) ==> r is Ok && final(store)@ == create_transition(
            old(store)@,
            e,
        ),
        event matches Event::Update { id, update } ==> {
            &&& r is Ok <==> old(store)@.records.contains_key(id@)
            &&& r is Ok ==> final(store)@ == update_transition(old(store)@, id@, update)
            &&& r matches Err(e) ==> final(store)@ == old(store)@ && e.0@ == id@
        },
        event matches Event::Delete(id) ==> r is Ok && final(store)@ == delete_transition(
            old(store)@,
            id@,
        ),
{
    match event {
        Event::Create(e) => {
            store.create(&e);
            Result::Ok(())
        },
        Event::Update { id, update } => store.update(&id, &update),
        Event::Delete(id) => {
            store.delete_by_id(&id);
            Result::Ok(())
        },
    }
}

/// Store a singleton through the keyed contract: the value is wrapped in a
/// [`SingletonEntity`] and created under the type's fixed identity.
pub fn create_singleton<S: Singleton>(store: &mut InMemStore<SingletonEntity<S>>, entity: &S)
    requires
        old(store).wf(),
        old(store)@.log.len() < usize::MAX,
    ensures
        final(store).wf(),
        final(store)@ == create_transition(old(store)@, SingletonEntity(*entity)),
        final(store).replay_capacity() == old(store).replay_capacity(),
{
    store.create(&SingletonEntity::new(entity.dup()));
}

/// Patch a stored singleton through the keyed contract, under the type's
/// fixed identity. Fails with `NotFoundError` exactly when no singleton of
/// this type was stored.
pub fn update_singleton<S: Singleton>(
    store: &mut InMemStore<SingletonEntity<S>>,
    update: &S::Update,
) -> (r: Result<(), NotFoundError<String>>)
    requires
        old(store).wf(),
        old(store)@.log.len() < usize::MAX,
    ensures
        final(store).wf(),
        final(store).replay_capacity() == old(store).replay_capacity(),
        r is Ok <==> old(store)@.records.contains_key(S::entity_id_spec()),
        r is Ok ==> final(store)@ == update_transition(
            old(store)@,
            S::entity_id_spec(),
            SingletonEntityUpdate(*update),
        ),
        r matches Err(e) ==> final(store)@ == old(store)@ && e.0@ == S::entity_id_spec(),
{
    store.update(&S::entity_id(), &SingletonEntityUpdate(update.dup()))
}

/// Remove a stored singleton through the keyed contract. Removing an
/// absent singleton is not an error and publishes nothing.
pub fn delete_singleton<S: Singleton>(store: &mut InMemStore<SingletonEntity<S>>)
    requires
        old(store).wf(),
        old(store)@.log.len() < usize::MAX,
    ensures
        final(store).wf(),
        final(store)@ == delete_transition(old(store)@, S::entity_id_spec()),
        final(store).replay_capacity() == old(store).replay_capacity(),
{
    store.delete_by_id(&S::entity_id());
}

/// Read a stored singleton through the keyed contract, unwrapped. Fails
/// with `NotFoundError` exactly when no singleton of this type was stored.
pub fn get_singleton<S: Singleton>(store: &InMemStore<SingletonEntity<S>>) -> (r: Result<
    S,
    NotFoundError<String>,
>)
    requires
        store.wf(),
    ensures
        r is Ok <==> store@.records.contains_key(S::entity_id_spec()),
        r matches Ok(s) ==> s == store@.records[S::entity_id_spec()].0,
        r matches Err(e) ==> e.0@ == S::entity_id_spec(),
{
    match store.get_by_id(&S::entity_id()) {
        Result::Ok(se) => Result::Ok(se.into_inner()),
        Result::Err(e) => Result::Err(e),
    }
}

/// Poll a subscription on a keyed singleton store once, projecting each
/// event down to a [`SingletonEvent`]: the identity payload is dropped
/// entirely, since it is always the same constant. This is the per-event
/// body of the relay that `watch_singleton` runs.
pub fn recv_singleton_event<S: Singleton>(
    store: &InMemStore<SingletonEntity<S>>,
    rx: &mut Receiver,
) -> (r: RecvOutcome<SingletonEvent<S>>)
    requires
        store.wf(),
        old(rx).cursor <= store@.log.len(),
    ensures
        final(rx).cursor <= store@.log.len(),
        match r {
            RecvOutcome::Received(ev) => {
                &&& store.dropped() <= old(rx).cursor < store@.log.len()
                &&& ev == singleton_event_of(store@.log[old(rx).cursor as int])
                &&& final(rx).cursor == old(rx).cursor + 1
            },
            RecvOutcome::Lagged(n) => {
                &&& old(rx).cursor < store.dropped()
                &&& n == store.dropped() - old(rx).cursor
                &&& final(rx).cursor == store.dropped()
            },
            RecvOutcome::Empty => {
                &&& old(rx).cursor == store@.log.len()
                &&& final(rx).cursor == old(rx).cursor
            },
        },
{
    match store.try_recv(rx) {
        RecvOutcome::Received(ev) => RecvOutcome::Received(SingletonEvent::from(ev)),
        RecvOutcome::Lagged(n) => RecvOutcome::Lagged(n),
        RecvOutcome::Empty => RecvOutcome::Empty,
    }
}

} // verus!
