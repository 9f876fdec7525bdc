use live_entity::entities::{Article, Employee, HomePage, UpdatedEmployee, UpdatedHomePage};
use live_entity::store::{
    create_singleton, delete_singleton, get_singleton, recv_singleton_event, sync_apply,
    update_singleton,
};
use live_entity::{
    Event, InMemSingletonStore, InMemStore, RecvOutcome, SingletonEntity, SingletonEvent,
};

#[test]
fn test_in_mem_store() {
    let mut storage: InMemStore<Employee> = InMemStore::new(8);
    let mut articles: InMemStore<Article> = InMemStore::new(8);

    let hank_id = "Hank Hill".to_owned();
    let hank = Employee { name: hank_id.clone(), age: 49, children: 1 };

    let mut e_rx = storage.subscribe();
    let mut a_rx = articles.subscribe();

    storage.create(&hank);
    articles.create(&Article { id: 1, title: "First".to_owned(), body: "A body".to_owned() });

    match storage.try_recv(&mut e_rx) {
        RecvOutcome::Received(Event::Create(e)) => assert_eq!(hank_id, e.name),
        _ => panic!("Received wrong type of event for employee creation."),
    }
    match articles.try_recv(&mut a_rx) {
        RecvOutcome::Received(Event::Create(a)) => assert_eq!(1, a.id),
        _ => panic!("Received wrong type of event for article creation."),
    }

    let new_age: u8 = 34;
    storage
        .update(&hank_id, &UpdatedEmployee::default().age(new_age))
        .expect("Error updating employee.");
    match storage.try_recv(&mut e_rx) {
        RecvOutcome::Received(Event::Update { id, update }) => {
            assert_eq!(hank_id, id);
            assert_eq!(Some(new_age), update.age);
            assert_eq!(None, update.children);
        }
        _ => panic!("Received wrong type of event on employee update."),
    }

    let retrieved = storage
        .get_by_id(&hank_id)
        .expect("failed retrieving employee by ID.");
    assert_eq!(new_age, retrieved.age);
    assert_eq!(1, retrieved.children);

    let all = storage.get_all();
    assert_eq!(1, all.len());
    assert!(all.iter().any(|e| e.name == hank_id));

    // The article subscription saw only its own type's event.
    assert!(matches!(articles.try_recv(&mut a_rx), RecvOutcome::Empty));

    storage.delete_by_id(&hank_id);
    match storage.try_recv(&mut e_rx) {
        RecvOutcome::Received(Event::Delete(id)) => assert_eq!(hank_id, id),
        _ => panic!("Received wrong event type on employee delete."),
    }
    assert!(matches!(storage.try_recv(&mut e_rx), RecvOutcome::Empty));
    assert!(storage.get_by_id(&hank_id).is_err());
    assert_eq!(0, storage.get_all().len());
}

#[test]
fn test_in_mem_store_singletons() {
    let mut storage: InMemSingletonStore<HomePage> = InMemSingletonStore::new(8);
    let hp = HomePage {
        header: "Welcome!".to_owned(),
        body: "Please stay long enough to see some ads".to_owned(),
    };
    storage.create_singleton(&hp);

    let retrieved = storage.get_singleton().expect("Failed to retrieve stored singleton.");
    assert_eq!(hp, retrieved);

    let mut rx = storage.subscribe();

    let updated_body = "Subscribe to our Patreon for ad-free content!".to_owned();
    let update = UpdatedHomePage::default().body(updated_body.clone());
    storage.update_singleton(&update).expect("Failed to update singleton.");

    match storage.try_recv_singleton(&mut rx) {
        RecvOutcome::Received(SingletonEvent::Update(u)) => {
            assert_eq!(None, u.header);
            assert_eq!(Some(updated_body), u.body);
        }
        _ => panic!("Did not receive an update event for singleton."),
    }

    storage.delete_singleton();
    assert!(storage.get_singleton().is_err());
    assert!(matches!(
        storage.try_recv_singleton(&mut rx),
        RecvOutcome::Received(SingletonEvent::Delete)
    ));
    assert!(matches!(storage.try_recv_singleton(&mut rx), RecvOutcome::Empty));
}

#[test]
fn updating_missing_identity_fails_and_emits_nothing() {
    let mut storage: InMemStore<Employee> = InMemStore::new(4);
    let mut rx = storage.subscribe();
    let ghost_id = "Nobody".to_owned();
    let r = storage.update(&ghost_id, &UpdatedEmployee::default().age(1));
    match r {
        Err(e) => assert_eq!(ghost_id, e.0),
        Ok(()) => panic!("Updating a missing identity must fail."),
    }
    assert!(matches!(storage.try_recv(&mut rx), RecvOutcome::Empty));
}

#[test]
fn deleting_missing_identity_is_silent() {
    let mut storage: InMemStore<Employee> = InMemStore::new(4);
    let mut rx = storage.subscribe();
    storage.delete_by_id(&"Nobody".to_owned());
    assert!(matches!(storage.try_recv(&mut rx), RecvOutcome::Empty));
}

#[test]
fn creating_twice_overwrites_silently() {
    let mut storage: InMemStore<Employee> = InMemStore::new(4);
    let mut rx = storage.subscribe();
    storage.create(&Employee { name: "Hank Hill".to_owned(), age: 49, children: 1 });
    storage.create(&Employee { name: "Hank Hill".to_owned(), age: 50, children: 1 });
    let retrieved = storage.get_by_id(&"Hank Hill".to_owned()).expect("Employee must exist.");
    assert_eq!(50, retrieved.age);
    assert_eq!(1, storage.get_all().len());
    for _ in 0..2 {
        match storage.try_recv(&mut rx) {
            RecvOutcome::Received(Event::Create(_)) => {}
            _ => panic!("Each create must emit exactly one Create event."),
        }
    }
    assert!(matches!(storage.try_recv(&mut rx), RecvOutcome::Empty));
}

#[test]
fn delete_all_emits_one_delete_per_record() {
    let mut storage: InMemStore<Employee> = InMemStore::new(8);
    storage.create(&Employee { name: "Hank Hill".to_owned(), age: 49, children: 1 });
    storage.create(&Employee { name: "Peggy Hill".to_owned(), age: 47, children: 1 });
    let mut rx = storage.subscribe();
    storage.delete_all();
    let mut deleted: Vec<String> = Vec::new();
    loop {
        match storage.try_recv(&mut rx) {
            RecvOutcome::Received(Event::Delete(id)) => deleted.push(id),
            RecvOutcome::Empty => break,
            _ => panic!("delete_all must emit only Delete events."),
        }
    }
    assert_eq!(2, deleted.len());
    assert!(deleted.iter().any(|id| id == "Hank Hill"));
    assert!(deleted.iter().any(|id| id == "Peggy Hill"));
    assert_eq!(0, storage.get_all().len());
}

#[test]
fn sync_replays_one_store_into_another() {
    let mut upstream: InMemStore<Employee> = InMemStore::new(16);
    let mut mirror: InMemStore<Employee> = InMemStore::new(16);
    let mut rx = upstream.subscribe();

    upstream.create(&Employee { name: "Hank Hill".to_owned(), age: 49, children: 1 });
    upstream.create(&Employee { name: "Peggy Hill".to_owned(), age: 47, children: 1 });
    upstream
        .update(&"Hank Hill".to_owned(), &UpdatedEmployee::default().age(34))
        .expect("Error updating employee.");
    upstream.delete_by_id(&"Peggy Hill".to_owned());

    loop {
        match upstream.try_recv(&mut rx) {
            RecvOutcome::Received(ev) => {
                sync_apply(&mut mirror, ev).expect("Replaying an upstream event must succeed.");
            }
            RecvOutcome::Empty => break,
            RecvOutcome::Lagged(_) => panic!("The mirror subscription must not lag."),
        }
    }

    let hank = mirror.get_by_id(&"Hank Hill".to_owned()).expect("Mirror must hold the record.");
    assert_eq!(34, hank.age);
    assert!(mirror.get_by_id(&"Peggy Hill".to_owned()).is_err());
    assert_eq!(1, mirror.get_all().len());
}

#[test]
fn singleton_adapters_ride_the_keyed_store() {
    let mut storage: InMemStore<SingletonEntity<HomePage>> = InMemStore::new(8);
    let hp = HomePage { header: "Welcome!".to_owned(), body: "A fine page".to_owned() };
    create_singleton(&mut storage, &hp);
    let retrieved = get_singleton(&storage).expect("Failed to retrieve stored singleton.");
    assert_eq!(hp, retrieved);

    let mut rx = storage.subscribe();
    let update = UpdatedHomePage::default().header("Hello again!".to_owned());
    update_singleton::<HomePage>(&mut storage, &update).expect("Failed to update singleton.");
    match recv_singleton_event(&storage, &mut rx) {
        RecvOutcome::Received(SingletonEvent::Update(u)) => {
            assert_eq!(Some("Hello again!".to_owned()), u.header);
            assert_eq!(None, u.body);
        }
        _ => panic!("Did not receive an update event for singleton."),
    }

    let again = get_singleton::<HomePage>(&storage).expect("Singleton must still exist.");
    assert_eq!("Hello again!", again.header);
    assert_eq!("A fine page", again.body);

    delete_singleton::<HomePage>(&mut storage);
    assert!(get_singleton::<HomePage>(&storage).is_err());
}

#[test]
fn slow_subscriber_observes_a_gap() {
    let mut storage: InMemStore<Employee> = InMemStore::new(1);
    let mut rx = storage.subscribe();
    storage.create(&Employee { name: "A".to_owned(), age: 1, children: 0 });
    storage.create(&Employee { name: "B".to_owned(), age: 2, children: 0 });
    storage.create(&Employee { name: "C".to_owned(), age: 3, children: 0 });
    match storage.try_recv(&mut rx) {
        RecvOutcome::Lagged(n) => assert_eq!(2, n),
        _ => panic!("A subscriber behind the replay capacity must observe a gap."),
    }
    match storage.try_recv(&mut rx) {
        RecvOutcome::Received(Event::Create(e)) => assert_eq!("C", e.name),
        _ => panic!("After the gap the newest retained event must arrive."),
    }
    assert!(matches!(storage.try_recv(&mut rx), RecvOutcome::Empty));
}
