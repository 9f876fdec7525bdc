use vstd::prelude::*;

use crate::channel::{Broadcast, Receiver, RecvOutcome};
use crate::dup::Dup;
use crate::entity::{Entity, IDTrait};
use crate::event::{singleton_event_of, Event, EventView, SingletonEvent};
use crate::singleton_entity::{Singleton, SingletonEntity, SingletonEntityUpdate};
use crate::store::NotFoundError;

verus! {

/// No two records of `s` share an identity.
pub open spec fn ids_distinct<E: Entity>(s: Seq<E>) -> bool {
    forall|i: int, j: int| 0 <= i < j < s.len() ==> s[i].id() != s[j].id()
}

/// Some record of `s` has identity `k`.
pub open spec fn has_id<E: Entity>(s: Seq<E>, k: <E::ID as View>::V) -> bool {
    exists|i: int| 0 <= i < s.len() && (#[trigger] s[i]).id() == k
}

/// The position in `s` of a record with identity `k`.
pub open spec fn index_of_id<E: Entity>(s: Seq<E>, k: <E::ID as View>::V) -> int {
    choose|i: int| 0 <= i < s.len() && (#[trigger] s[i]).id() == k
}

/// The record sequence read as a map from identity to record.
pub open spec fn map_of<E: Entity>(s: Seq<E>) -> Map<<E::ID as View>::V, E> {
    Map::new(
        |k: <E::ID as View>::V| has_id(s, k),
        |k: <E::ID as View>::V| s[index_of_id(s, k)],
    )
}

/// The abstract state of an in-memory store for one entity type: the
/// records held, keyed by identity, and the view of every event published
/// so far, in publication order.
#[verifier::ext_equal]
pub ghost struct StoreModel<E: Entity> {
    pub records: Map<<E::ID as View>::V, E>,
    pub log: Seq<EventView<E>>,
}

/// The effect of `create`: the record is inserted under its own identity,
/// silently overwriting any record already stored there, and exactly one
/// `Create` event carrying the full record is published.
pub open spec fn create_transition<E: Entity>(m: StoreModel<E>, e: E) -> StoreModel<E> {
    StoreModel { records: m.records.insert(e.id(), e), log: m.log.push(EventView::Create(e)) }
}

/// The effect of a successful `update`: the stored record is patched in
/// place and exactly one `Update` event carrying the identity and the
/// patch — never a full snapshot — is published.
pub open spec fn update_transition<E: Entity>(
    m: StoreModel<E>,
    id: <E::ID as View>::V,
    u: E::Update,
) -> StoreModel<E> {
    StoreModel {
        records: m.records.insert(id, m.records[id].applied(u)),
        log: m.log.push(EventView::Update { id, update: u }),
    }
}

/// The effect of `delete_by_id`: if the identity is present the record is
/// removed and exactly one `Delete` event is published; removing an absent
/// identity changes nothing and publishes nothing.
pub open spec fn delete_transition<E: Entity>(
    m: StoreModel<E>,
    id: <E::ID as View>::V,
) -> StoreModel<E> {
    if m.records.contains_key(id) {
        StoreModel { records: m.records.remove(id), log: m.log.push(EventView::Delete(id)) }
    } else {
        m
    }
}

proof fn lemma_index_of_id_unique<E: Entity>(s: Seq<E>, i: int)
    requires
        ids_distinct(s),
        0 <= i < s.len(),
    ensures
        has_id(s, s[i].id()),
        index_of_id(s, s[i].id()) == i,
{
    let k = s[i].id();
    assert(has_id(s, k));
    let j = index_of_id(s, k);
    assert(0 <= j < s.len() && s[j].id() == k);
    if j < i {
        assert(s[j].id() != s[i].id());
    } else if i < j {
        assert(s[i].id() != s[j].id());
    }
}

proof fn lemma_map_of_push<E: Entity>(s: Seq<E>, e: E)
    requires
        ids_distinct(s),
        !has_id(s, e.id()),
    ensures
        ids_distinct(s.push(e)),
        map_of(s.push(e)) == map_of(s).insert(e.id(), e),
{
    let s2 = s.push(e);
    assert forall|i: int, j: int| 0 <= i < j < s2.len() implies s2[i].id() != s2[j].id() by {
        if j < s.len() {
            assert(s2[i] == s[i]);
            assert(s2[j] == s[j]);
        } else {
            assert(s2[i] == s[i]);
            assert(s2[j] == e);
            if s[i].id() == e.id() {
                assert(has_id(s, e.id()));
            }
        }
    }
    let m1 = map_of(s2);
    let m2 = map_of(s).insert(e.id(), e);
    assert forall|k: <E::ID as View>::V| #[trigger] m1.contains_key(k) implies m2.contains_key(k)
        && m1[k] == m2[k] by {
        let i = index_of_id(s2, k);
        assert(0 <= i < s2.len() && s2[i].id() == k);
        lemma_index_of_id_unique(s2, i);
        if i < s.len() {
            assert(s2[i] == s[i]);
            lemma_index_of_id_unique(s, i);
            assert(m2[k] == s[i]);
        } else {
            assert(s2[i] == e);
        }
    }
    assert forall|k: <E::ID as View>::V| #[trigger] m2.contains_key(k) implies m1.contains_key(
        k,
    ) by {
        if k == e.id() {
            assert(s2[s.len() as int] == e);
            assert(has_id(s2, k));
        } else {
            let i = index_of_id(s, k);
            assert(0 <= i < s.len() && s[i].id() == k);
            assert(s2[i] == s[i]);
            assert(has_id(s2, k));
        }
    }
    assert(m1 =~= m2);
}

proof fn lemma_map_of_update<E: Entity>(s: Seq<E>, i: int, e: E)
    requires
        ids_distinct(s),
        0 <= i < s.len(),
        e.id() == s[i].id(),
    ensures
        ids_distinct(s.update(i, e)),
        map_of(s.update(i, e)) == map_of(s).insert(e.id(), e),
{
    let s2 = s.update(i, e);
    assert forall|a: int, b: int| 0 <= a < b < s2.len() implies s2[a].id() != s2[b].id() by {
        assert(s[a].id() != s[b].id());
        assert(s2[a].id() == s[a].id());
        assert(s2[b].id() == s[b].id());
    }
    let m1 = map_of(s2);
    let m2 = map_of(s).insert(e.id(), e);
    assert forall|k: <E::ID as View>::V| #[trigger] m1.contains_key(k) implies m2.contains_key(k)
        && m1[k] == m2[k] by {
        let a = index_of_id(s2, k);
        assert(0 <= a < s2.len() && s2[a].id() == k);
        lemma_index_of_id_unique(s2, a);
        assert(s[a].id() == s2[a].id());
        lemma_index_of_id_unique(s, a);
        if a == i {
            assert(s2[a] == e);
        } else {
            assert(s2[a] == s[a]);
            assert(k != e.id());
        }
    }
    assert forall|k: <E::ID as View>::V| #[trigger] m2.contains_key(k) implies m1.contains_key(
        k,
    ) by {
        if k == e.id() {
            assert(s2[i] == e);
            assert(has_id(s2, k));
        } else {
            let a = index_of_id(s, k);
            assert(0 <= a < s.len() && s[a].id() == k);
            if a == i {
                assert(s[a].id() == e.id());
            } else {
                assert(s2[a] == s[a]);
                assert(has_id(s2, k));
            }
        }
    }
    assert(m1 =~= m2);
}

proof fn lemma_map_of_remove<E: Entity>(s: Seq<E>, i: int)
    requires
        ids_distinct(s),
        0 <= i < s.len(),
    ensures
        ids_distinct(s.remove(i)),
        map_of(s.remove(i)) == map_of(s).remove(s[i].id()),
{
    let s2 = s.remove(i);
    assert forall|a: int, b: int| 0 <= a < b < s2.len() implies s2[a].id() != s2[b].id() by {
        let a0 = if a < i { a } else { a + 1 };
        let b0 = if b < i { b } else { b + 1 };
        assert(s2[a] == s[a0]);
        assert(s2[b] == s[b0]);
        assert(s[a0].id() != s[b0].id());
    }
    let m1 = map_of(s2);
    let m2 = map_of(s).remove(s[i].id());
    assert forall|k: <E::ID as View>::V| #[trigger] m1.contains_key(k) implies m2.contains_key(k)
        && m1[k] == m2[k] by {
        let a = index_of_id(s2, k);
        assert(0 <= a < s2.len() && s2[a].id() == k);
        lemma_index_of_id_unique(s2, a);
        let a0 = if a < i { a } else { a + 1 };
        assert(s2[a] == s[a0]);
        lemma_index_of_id_unique(s, a0);
        if a0 < i {
            assert(s[a0].id() != s[i].id());
        } else {
            assert(s[i].id() != s[a0].id());
        }
        assert(m2[k] == s[a0]);
    }
    assert forall|k: <E::ID as View>::V| #[trigger] m2.contains_key(k) implies m1.contains_key(
        k,
    ) by {
        let a = index_of_id(s, k);
        assert(0 <= a < s.len() && s[a].id() == k);
        lemma_index_of_id_unique(s, a);
        if a < i {
            assert(s2[a] == s[a]);
            assert(has_id(s2, k));
        } else if a == i {
            assert(k == s[i].id());
        } else {
            assert(s2[a - 1] == s[a]);
            assert(has_id(s2, k));
        }
    }
    assert(m1 =~= m2);
}

/// The in-memory reference backend for one entity type: a map from
/// identity to record, plus one broadcast event channel with a bounded
/// replay buffer sized at construction.
///
/// One store instance serves one entity type; a facade may compose one
/// instance per type. Mutating operations publish their event on the
/// channel unconditionally, which a subscriber cannot distinguish from
/// publishing only while subscribers are attached.
pub struct InMemStore<E: Entity> {
    records: Vec<E>,
    channel: Broadcast<Event<E>>,
}

impl<E: Entity> View for InMemStore<E> {
    type V = StoreModel<E>;

    closed spec fn view(&self) -> StoreModel<E> {
        StoreModel {
            records: map_of(self.records@),
            log: self.channel.log().map_values(|ev: Event<E>| ev@),
        }
    }
}

impl<E: Entity> InMemStore<E> {
    /// The store's internal invariant: record identities are pairwise
    /// distinct and the channel is well formed.
    pub closed spec fn wf(&self) -> bool {
        &&& self.channel.wf()
        &&& ids_distinct(self.records@)
    }

    /// The stored records, in insertion order.
    pub closed spec fn entries(&self) -> Seq<E> {
        self.records@
    }

    /// How many of the oldest published events are no longer retained for
    /// replay.
    pub closed spec fn dropped(&self) -> int {
        self.channel.dropped()
    }

    /// How many events the channel retains for replay.
    pub closed spec fn replay_capacity(&self) -> int {
        self.channel.replay_capacity()
    }

    /// The record sequence carries exactly the records of the model map,
    /// each under its own identity.
    pub proof fn lemma_entries(&self)
        requires
            self.wf(),
        ensures
            ids_distinct(self.entries()),
            map_of(self.entries()) == self@.records,
    {
    }

    /// Create a store whose event channel retains the last `retain`
    /// events.
    pub fn new(retain: usize) -> (r: Self)
        requires
            retain >= 1,
        ensures
            r.wf(),
            r@.records == Map::<<E::ID as View>::V, E>::empty(),
            r@.log == Seq::<EventView<E>>::empty(),
            r@.log.len() == 0,
            r.replay_capacity() == retain,
            r.entries() == Seq::<E>::empty(),
    {
        let r = InMemStore { records: Vec::new(), channel: Broadcast::new(retain) };
        proof {
            assert(r@.records =~= Map::<<E::ID as View>::V, E>::empty());
            assert(r@.log =~= Seq::<EventView<E>>::empty());
        }
        r
    }

    fn find_index(&self, id: &E::ID) -> (r: Option<usize>)
        ensures
            match r {
                Option::Some(i) => 0 <= i < self.records@.len() && self.records@[i as int].id()
                    == id@,
                Option::None => !has_id(self.records@, id@),
            },
    {
        let mut i: usize = 0;
        while i < self.records.len()
            invariant
                0 <= i <= self.records@.len(),
                forall|j: int| 0 <= j < i ==> (#[trigger] self.records@[j]).id() != id@,
            decreases self.records@.len() - i,
        {
            let candidate = self.records[i].get_id();
            if candidate.id_eq(id) {
                return Option::Some(i);
            }
            i = i + 1;
        }
        Option::None
    }

    /// Insert a record keyed by its own identity, silently overwriting any
    /// record already stored there, and publish exactly one `Create` event
    /// carrying the full record.
    pub fn create(&mut self, entity: &E)
        requires
            old(self).wf(),
            old(self)@.log.len() < usize::MAX,
        ensures
            final(self).wf(),
            final(self)@ == create_transition(old(self)@, *entity),
            final(self).replay_capacity() == old(self).replay_capacity(),
            old(self).dropped() <= final(self).dropped() <= old(self)@.log.len(),
    {
        let id = entity.get_id();
        let stored = entity.dup();
        let ghost s0 = self.records@;
        match self.find_index(&id) {
            Option::Some(i) => {
                let slot = &mut self.records[i];
                *slot = stored;
                proof {
                    lemma_map_of_update(s0, i as int, *entity);
                }
            },
            Option::None => {
                self.records.push(stored);
                proof {
                    lemma_map_of_push(s0, *entity);
                }
            },
        }
        self.channel.publish(Event::Create(entity.dup()));
        proof {
            assert(self@.log =~= old(self)@.log.push(EventView::Create(*entity)));
            assert(self@ =~= create_transition(old(self)@, *entity));
        }
    }

    /// Patch the record stored under `id` in place and publish exactly one
    /// `Update` event carrying the identity and the patch. Updating an
    /// absent identity fails with `NotFoundError`, changes nothing and
    /// publishes nothing: no record is ever implicitly created.
    pub fn update(&mut self, id: &E::ID, update: &E::Update) -> (r: Result<
        (),
        NotFoundError<E::ID>,
    >)
        requires
            old(self).wf(),
            old(self)@.log.len() < usize::MAX,
        ensures
            final(self).wf(),
            final(self).replay_capacity() == old(self).replay_capacity(),
            r is Ok <==> old(self)@.records.contains_key(id@),
            r is Ok ==> final(self)@ == update_transition(old(self)@, id@, *update)
                && old(self).dropped() <= final(self).dropped() <= old(self)@.log.len(),
            r matches Err(e) ==> final(self)@ == old(self)@ && e.0@ == id@ && final(self).dropped()
                == old(self).dropped(),
    {
        let ghost s0 = self.records@;
        match self.find_index(id) {
            Option::None => {
                proof {
                    assert(!old(self)@.records.contains_key(id@));
                }
                Result::Err(NotFoundError(id.dup()))
            },
            Option::Some(i) => {
                proof {
                    lemma_index_of_id_unique(s0, i as int);
                }
                let slot = &mut self.records[i];
                slot.update(update);
                proof {
                    E::lemma_applied_preserves_id(s0[i as int], *update);
                    lemma_map_of_update(s0, i as int, s0[i as int].applied(*update));
                }
                self.channel.publish(Event::Update { id: id.dup(), update: update.dup() });
                proof {
                    assert(self@.log =~= old(self)@.log.push(
                        EventView::Update { id: id@, update: *update },
                    ));
                    assert(old(self)@.records[id@] == s0[i as int]);
                    assert(self@ =~= update_transition(old(self)@, id@, *update));
                }
                Result::Ok(())
            },
        }
    }

    /// Remove the record stored under `id`, if any, and publish exactly
    /// one `Delete` event for it. Removing an absent identity is not an
    /// error: nothing changes and nothing is published.
    pub fn delete_by_id(&mut self, id: &E::ID)
        requires
            old(self).wf(),
            old(self)@.log.len() < usize::MAX,
        ensures
            final(self).wf(),
            final(self)@ == delete_transition(old(self)@, id@),
            final(self).replay_capacity() == old(self).replay_capacity(),
            old(self).dropped() <= final(self).dropped() <= old(self)@.log.len(),
    {
        let ghost s0 = self.records@;
        match self.find_index(id) {
            Option::None => {
                proof {
                    assert(!old(self)@.records.contains_key(id@));
                    self.channel.lemma_wf_bounds();
                }
            },
            Option::Some(i) => {
                proof {
                    lemma_index_of_id_unique(s0, i as int);
                    lemma_map_of_remove(s0, i as int);
                }
                self.records.remove(i);
                self.channel.publish(Event::Delete(id.dup()));
                proof {
                    assert(self@.log =~= old(self)@.log.push(EventView::Delete(id@)));
                    assert(self@ =~= delete_transition(old(self)@, id@));
                }
            },
        }
    }

    /// Remove every record of this type, publishing one `Delete` event per
    /// removed identity, in insertion order.
    pub fn delete_all(&mut self)
        requires
            old(self).wf(),
            old(self)@.log.len() + old(self).entries().len() <= usize::MAX,
        ensures
            final(self).wf(),
            final(self)@.records == Map::<<E::ID as View>::V, E>::empty(),
            final(self)@.log == old(self)@.log + old(self).entries().map_values(
                |e: E| EventView::<E>::Delete(e.id()),
            ),
            final(self).entries() == Seq::<E>::empty(),
            final(self).replay_capacity() == old(self).replay_capacity(),
    {
        let ghost s0 = self.records@;
        let ghost deletes = s0.map_values(|e: E| EventView::<E>::Delete(e.id()));
        let mut i: usize = 0;
        while i < self.records.len()
            invariant
                0 <= i <= self.records@.len(),
                self.records@ == s0,
                self.channel.wf(),
                ids_distinct(s0),
                self.channel.log().len() + s0.len() - i <= usize::MAX,
                deletes == s0.map_values(|e: E| EventView::<E>::Delete(e.id())),
                self@.log =~= old(self)@.log + deletes.subrange(0, i as int),
                self.channel.replay_capacity() == old(self).replay_capacity(),
            decreases self.records@.len() - i,
        {
            let ghost prev_log = self@.log;
            let ev = Event::Delete(self.records[i].get_id());
            let ghost evv = ev@;
            proof {
                assert(evv == deletes[i as int]);
            }
            self.channel.publish(ev);
            i = i + 1;
            proof {
                assert(self@.log =~= prev_log.push(evv));
                assert(deletes.subrange(0, i as int) =~= deletes.subrange(
                    0,
                    i - 1 as int,
                ).push(deletes[i - 1 as int]));
                assert(self@.log =~= old(self)@.log + deletes.subrange(0, i as int));
            }
        }
        self.records.clear();
        proof {
            assert(deletes.subrange(0, deletes.len() as int) =~= deletes);
            assert(self@.records =~= Map::<<E::ID as View>::V, E>::empty());
            assert(self@.log =~= old(self)@.log + deletes);
        }
    }

    /// Read the record stored under `id`: a copy of the authoritative
    /// record, never a reference into the store. Fails with
    /// `NotFoundError` exactly when the identity is absent. Publishes
    /// nothing.
    pub fn get_by_id(&self, id: &E::ID) -> (r: Result<E, NotFoundError<E::ID>>)
        requires
            self.wf(),
        ensures
            r is Ok <==> self@.records.contains_key(id@),
            r matches Ok(e) ==> e == self@.records[id@],
            r matches Err(e) ==> e.0@ == id@,
    {
        match self.find_index(id) {
            Option::None => Result::Err(NotFoundError(id.dup())),
            Option::Some(i) => {
                proof {
                    lemma_index_of_id_unique(self.records@, i as int);
                }
                Result::Ok(self.records[i].dup())
            },
        }
    }

    /// Read every record of this type, each one a copy, in insertion
    /// order. Publishes nothing.
    pub fn get_all(&self) -> (r: Vec<E>)
        requires
            self.wf(),
        ensures
            r@ == self.entries(),
            map_of(r@) == self@.records,
            ids_distinct(r@),
    {
        let mut out: Vec<E> = Vec::new();
        let mut i: usize = 0;
        while i < self.records.len()
            invariant
                0 <= i <= self.records@.len(),
                out@ == self.records@.subrange(0, i as int),
            decreases self.records@.len() - i,
        {
            out.push(self.records[i].dup());
            i = i + 1;
            proof {
                assert(out@ =~= self.records@.subrange(0, i as int));
            }
        }
        proof {
            assert(out@ =~= self.records@);
        }
        out
    }

    /// Subscribe to this type's live event stream: the receiver observes
    /// exactly the events published after this call, in publication order,
    /// up to the channel's replay capacity.
    pub fn subscribe(&self) -> (rx: Receiver)
        requires
            self.wf(),
        ensures
            rx.cursor == self@.log.len(),
    {
        self.channel.subscribe()
    }

    /// Poll a subscription once: the next published event, a gap report if
    /// the receiver fell behind the replay capacity, or nothing if it has
    /// seen every event.
    pub fn try_recv(&self, rx: &mut Receiver) -> (r: RecvOutcome<Event<E>>)
        requires
            self.wf(),
            old(rx).cursor <= self@.log.len(),
        ensures
            final(rx).cursor <= self@.log.len(),
            match r {
                RecvOutcome::Received(ev) => {
                    &&& self.dropped() <= old(rx).cursor < self@.log.len()
                    &&& ev@ == self@.log[old(rx).cursor as int]
                    &&& final(rx).cursor == old(rx).cursor + 1
                },
                RecvOutcome::Lagged(n) => {
                    &&& old(rx).cursor < self.dropped()
                    &&& n == self.dropped() - old(rx).cursor
                    &&& final(rx).cursor == self.dropped()
                },
                RecvOutcome::Empty => {
                    &&& old(rx).cursor == self@.log.len()
                    &&& final(rx).cursor == old(rx).cursor
                },
            },
    {
        match self.channel.try_recv(rx) {
            RecvOutcome::Received(ev) => RecvOutcome::Received(ev),
            RecvOutcome::Lagged(n) => RecvOutcome::Lagged(n),
            RecvOutcome::Empty => RecvOutcome::Empty,
        }
    }

    /// How many events have been published on this type's channel.
    pub fn total_events(&self) -> (n: usize)
        requires
            self.wf(),
        ensures
            n == self@.log.len(),
    {
        self.channel.total()
    }
}

/// The abstract state of the in-memory backend's singleton slot: the one
/// optional value, and the view of every event published for it.
#[verifier::ext_equal]
pub ghost struct SingletonStoreModel<S: Singleton> {
    pub value: Option<S>,
    pub log: Seq<EventView<SingletonEntity<S>>>,
}

/// The effect of `create_singleton`: the slot now holds the value,
/// silently replacing any previous one, and exactly one `Create` event
/// carrying the wrapped value is published.
pub open spec fn create_singleton_transition<S: Singleton>(
    m: SingletonStoreModel<S>,
    s: S,
) -> SingletonStoreModel<S> {
    SingletonStoreModel {
        value: Option::Some(s),
        log: m.log.push(EventView::Create(SingletonEntity(s))),
    }
}

/// The effect of a successful `update_singleton`: the held value is
/// patched in place and exactly one `Update` event carrying the fixed
/// identity and the patch is published.
pub open spec fn update_singleton_transition<S: Singleton>(
    m: SingletonStoreModel<S>,
    u: S::Update,
) -> SingletonStoreModel<S> {
    SingletonStoreModel {
        value: match m.value {
            Option::Some(v) => Option::Some(v.applied(u)),
            Option::None => Option::None,
        },
        log: m.log.push(
            EventView::Update { id: S::entity_id_spec(), update: SingletonEntityUpdate(u) },
        ),
    }
}

/// The effect of `delete_singleton`: if a value is held it is removed and
/// exactly one `Delete` event is published; deleting an empty slot changes
/// nothing and publishes nothing.
pub open spec fn delete_singleton_transition<S: Singleton>(
    m: SingletonStoreModel<S>,
) -> SingletonStoreModel<S> {
    if m.value is Some {
        SingletonStoreModel {
            value: Option::None,
            log: m.log.push(EventView::Delete(S::entity_id_spec())),
        }
    } else {
        m
    }
}

/// The in-memory backend's dedicated singleton slot: one broadcast event
/// channel plus at most one optional value. A singleton's key is
/// synthetic, so the slot does not reuse the keyed record map.
pub struct InMemSingletonStore<S: Singleton> {
    value: Option<S>,
    channel: Broadcast<Event<SingletonEntity<S>>>,
}

impl<S: Singleton> View for InMemSingletonStore<S> {
    type V = SingletonStoreModel<S>;

    closed spec fn view(&self) -> SingletonStoreModel<S> {
        SingletonStoreModel {
            value: self.value,
            log: self.channel.log().map_values(|ev: Event<SingletonEntity<S>>| ev@),
        }
    }
}

impl<S: Singleton> InMemSingletonStore<S> {
    /// The slot's internal invariant.
    pub closed spec fn wf(&self) -> bool {
        self.channel.wf()
    }

    /// How many of the oldest published events are no longer retained for
    /// replay.
    pub closed spec fn dropped(&self) -> int {
        self.channel.dropped()
    }

    /// How many events the channel retains for replay.
    pub closed spec fn replay_capacity(&self) -> int {
        self.channel.replay_capacity()
    }

    /// Create an empty slot whose event channel retains the last `retain`
    /// events.
    pub fn new(retain: usize) -> (r: Self)
        requires
            retain >= 1,
        ensures
            r.wf(),
            r@.value is None,
            r@.log == Seq::<EventView<SingletonEntity<S>>>::empty(),
            r@.log.len() == 0,
            r.replay_capacity() == retain,
    {
        let r = InMemSingletonStore { value: Option::None, channel: Broadcast::new(retain) };
        proof {
            assert(r@.log =~= Seq::<EventView<SingletonEntity<S>>>::empty());
        }
        r
    }

    /// Store the singleton value, silently replacing any previous one, and
    /// publish exactly one `Create` event wrapping it.
    pub fn create_singleton(&mut self, entity: &S)
        requires
            old(self).wf(),
            old(self)@.log.len() < usize::MAX,
        ensures
            final(self).wf(),
            final(self)@ == create_singleton_transition(old(self)@, *entity),
            final(self).replay_capacity() == old(self).replay_capacity(),
            old(self).dropped() <= final(self).dropped() <= old(self)@.log.len(),
    {
        self.value = Option::Some(entity.dup());
        self.channel.publish(Event::Create(SingletonEntity::new(entity.dup())));
        proof {
            assert(self@.log =~= old(self)@.log.push(EventView::Create(SingletonEntity(*entity))));
            assert(self@ =~= create_singleton_transition(old(self)@, *entity));
        }
    }

    /// Patch the held value in place and publish exactly one `Update`
    /// event carrying the fixed identity and the patch. Updating an empty
    /// slot fails with `NotFoundError`, changes nothing and publishes
    /// nothing.
    pub fn update_singleton(&mut self, update: &S::Update) -> (r: Result<(), NotFoundError<String>>)
        requires
            old(self).wf(),
            old(self)@.log.len() < usize::MAX,
        ensures
            final(self).wf(),
            final(self).replay_capacity() == old(self).replay_capacity(),
            r is Ok <==> old(self)@.value is Some,
            r is Ok ==> final(self)@ == update_singleton_transition(old(self)@, *update)
                && old(self).dropped() <= final(self).dropped() <= old(self)@.log.len(),
            r matches Err(e) ==> final(self)@ == old(self)@ && e.0@ == S::entity_id_spec()
                && final(self).dropped() == old(self).dropped(),
    {
        match &mut self.value {
            Option::None => Result::Err(NotFoundError(S::entity_id())),
            Option::Some(v) => {
                v.update(update);
                self.channel.publish(
                    Event::Update {
                        id: S::entity_id(),
                        update: SingletonEntityUpdate(update.dup()),
                    },
                );
                proof {
                    assert(self@.log =~= old(self)@.log.push(
                        EventView::Update {
                            id: S::entity_id_spec(),
                            update: SingletonEntityUpdate(*update),
                        },
                    ));
                    assert(self@ =~= update_singleton_transition(old(self)@, *update));
                }
                Result::Ok(())
            },
        }
    }

    /// Remove the held value, if any, and publish exactly one `Delete`
    /// event for the fixed identity. Deleting an empty slot is not an
    /// error: nothing changes and nothing is published.
    pub fn delete_singleton(&mut self)
        requires
            old(self).wf(),
            old(self)@.log.len() < usize::MAX,
        ensures
            final(self).wf(),
            final(self)@ == delete_singleton_transition(old(self)@),
            final(self).replay_capacity() == old(self).replay_capacity(),
            old(self).dropped() <= final(self).dropped() <= old(self)@.log.len(),
    {
        if self.value.is_some() {
            self.value = Option::None;
            self.channel.publish(Event::Delete(S::entity_id()));
            proof {
                assert(self@.log =~= old(self)@.log.push(
                    EventView::Delete(S::entity_id_spec()),
                ));
                assert(self@ =~= delete_singleton_transition(old(self)@));
            }
        } else {
            proof {
                self.channel.lemma_wf_bounds();
                assert(self@ =~= delete_singleton_transition(old(self)@));
            }
        }
    }

    /// Read the held value: a copy, never a reference into the slot.
    /// Fails with `NotFoundError` exactly when the slot is empty.
    /// Publishes nothing.
    pub fn get_singleton(&self) -> (r: Result<S, NotFoundError<String>>)
        requires
            self.wf(),
        ensures
            r is Ok <==> self@.value is Some,
            r matches Ok(s) ==> self@.value == Option::Some(s),
            r matches Err(e) ==> e.0@ == S::entity_id_spec(),
    {
        match &self.value {
            Option::Some(v) => Result::Ok(v.dup()),
            Option::None => Result::Err(NotFoundError(S::entity_id())),
        }
    }

    /// Subscribe to the singleton's live event stream.
    pub fn subscribe(&self) -> (rx: Receiver)
        requires
            self.wf(),
        ensures
            rx.cursor == self@.log.len(),
    {
        self.channel.subscribe()
    }

    /// Poll a subscription once, projecting each keyed event down to a
    /// [`SingletonEvent`]: the identity payload is dropped entirely, since
    /// it is always the same constant.
    pub fn try_recv_singleton(&self, rx: &mut Receiver) -> (r: RecvOutcome<SingletonEvent<S>>)
        requires
            self.wf(),
            old(rx).cursor <= self@.log.len(),
        ensures
            final(rx).cursor <= self@.log.len(),
            match r {
                RecvOutcome::Received(ev) => {
                    &&& self.dropped() <= old(rx).cursor < self@.log.len()
                    &&& ev == singleton_event_of(self@.log[old(rx).cursor as int])
                    &&& final(rx).cursor == old(rx).cursor + 1
                },
                RecvOutcome::Lagged(n) => {
                    &&& old(rx).cursor < self.dropped()
                    &&& n == self.dropped() - old(rx).cursor
                    &&& final(rx).cursor == self.dropped()
                },
                RecvOutcome::Empty => {
                    &&& old(rx).cursor == self@.log.len()
                    &&& final(rx).cursor == old(rx).cursor
                },
            },
    {
        match self.channel.try_recv(rx) {
            RecvOutcome::Received(ev) => RecvOutcome::Received(SingletonEvent::from(ev)),
            RecvOutcome::Lagged(n) => RecvOutcome::Lagged(n),
            RecvOutcome::Empty => RecvOutcome::Empty,
        }
    }

    /// How many events have been published for this singleton.
    pub fn total_events(&self) -> (n: usize)
        requires
            self.wf(),
        ensures
            n == self@.log.len(),
    {
        self.channel.total()
    }
}

/// Creating entity `e` causes exactly one `Create(e)` to be published: a
/// subscriber whose cursor stood at the end of the log before the create
/// has exactly that one event pending afterwards, and the store now holds
/// `e` under its identity.
pub proof fn lemma_create_event<E: Entity>(m: StoreModel<E>, e: E, cursor: int)
    requires
        cursor == m.log.len(),
    ensures
        create_transition(m, e).records == m.records.insert(e.id(), e),
        create_transition(m, e).log.len() == cursor + 1,
        create_transition(m, e).log.subrange(cursor, cursor + 1) == seq![
            EventView::<E>::Create(e),
        ],
{
    assert(create_transition(m, e).log.subrange(cursor, cursor + 1) =~= seq![
        EventView::<E>::Create(e),
    ]);
}

/// Updating an existing identity `k` with patch `p` causes exactly one
/// `Update { id: k, update: p }` to be published — the patch itself, never
/// a post-update snapshot — and patches exactly the record under `k`,
/// leaving every other record untouched. Updating an absent identity
/// fails with `NotFoundError` and publishes nothing: that half is the
/// executable `update`'s own contract.
pub proof fn lemma_update_event<E: Entity>(
    m: StoreModel<E>,
    k: <E::ID as View>::V,
    p: E::Update,
    cursor: int,
)
    requires
        cursor == m.log.len(),
        m.records.contains_key(k),
    ensures
        update_transition(m, k, p).records.dom() == m.records.dom(),
        update_transition(m, k, p).records[k] == m.records[k].applied(p),
        forall|k2: <E::ID as View>::V|
            k2 != k && m.records.contains_key(k2) ==> update_transition(m, k, p).records[k2]
                == m.records[k2],
        update_transition(m, k, p).log.len() == cursor + 1,
        update_transition(m, k, p).log.subrange(cursor, cursor + 1) == seq![
            EventView::<E>::Update { id: k, update: p },
        ],
{
    assert(update_transition(m, k, p).records.dom() =~= m.records.dom());
    assert(update_transition(m, k, p).log.subrange(cursor, cursor + 1) =~= seq![
        EventView::<E>::Update { id: k, update: p },
    ]);
}

/// Deleting an existing identity `k` causes exactly one `Delete(k)` to be
/// published and removes exactly that record; deleting an absent identity
/// succeeds silently, changes nothing and publishes nothing.
pub proof fn lemma_delete_event<E: Entity>(m: StoreModel<E>, k: <E::ID as View>::V, cursor: int)
    requires
        cursor == m.log.len(),
    ensures
        m.records.contains_key(k) ==> {
            &&& delete_transition(m, k).records == m.records.remove(k)
            &&& delete_transition(m, k).log.len() == cursor + 1
            &&& delete_transition(m, k).log.subrange(cursor, cursor + 1) == seq![
                EventView::<E>::Delete(k),
            ]
        },
        !m.records.contains_key(k) ==> delete_transition(m, k) == m,
{
    if m.records.contains_key(k) {
        assert(delete_transition(m, k).log.subrange(cursor, cursor + 1) =~= seq![
            EventView::<E>::Delete(k),
        ]);
    }
}

/// The singleton round trip: create a value, read it back, patch it, read
/// again, and delete it. The slot is then empty, so a further read fails
/// with `NotFoundError`; a subscriber registered right after the create
/// observes exactly one `Update` event before the delete, and that
/// event's singleton projection carries the patch and no identity at all.
pub proof fn lemma_singleton_round_trip<S: Singleton>(
    m: SingletonStoreModel<S>,
    s: S,
    p: S::Update,
    cursor: int,
)
    requires
        cursor == create_singleton_transition(m, s).log.len(),
    ensures
        ({
            let m1 = create_singleton_transition(m, s);
            let m2 = update_singleton_transition(m1, p);
            let m3 = delete_singleton_transition(m2);
            &&& m1.value == Option::Some(s)
            &&& m2.value == Option::Some(s.applied(p))
            &&& m3.value is None
            &&& m2.log.len() == cursor + 1
            &&& m2.log.subrange(cursor, cursor + 1) == seq![
                EventView::<SingletonEntity<S>>::Update {
                    id: S::entity_id_spec(),
                    update: SingletonEntityUpdate(p),
                },
            ]
            &&& singleton_event_of(m2.log[cursor]) == SingletonEvent::<S>::Update(p)
        }),
{
    let m1 = create_singleton_transition(m, s);
    let m2 = update_singleton_transition(m1, p);
    assert(m2.log.subrange(cursor, cursor + 1) =~= seq![
        EventView::<SingletonEntity<S>>::Update {
            id: S::entity_id_spec(),
            update: SingletonEntityUpdate(p),
        },
    ]);
}

} // verus!
