use live_entity::change_stream::{
    ChangeOperation, ChangeStreamEvent, DocumentKey, UpdateDescription,
};
use live_entity::entities::{Employee, HomePage, UpdatedEmployee};
use live_entity::mongo::{get_id_from_change_event, translate_change_event, MongoEntity};
use live_entity::{Event, Singleton};

#[test]
fn translate_insert_yields_create() {
    let event: ChangeStreamEvent<Employee> = ChangeStreamEvent {
        operation_type: ChangeOperation::Insert,
        full_document: Some(Employee { name: "Hank Hill".to_owned(), age: 49, children: 1 }),
        document_key: None,
        update_description: None,
    };
    match translate_change_event(event) {
        Ok(Event::Create(e)) => {
            assert_eq!("Hank Hill", e.name);
            assert_eq!(49, e.age);
        }
        _ => panic!("An insert with a full document must translate to Create."),
    }
}

#[test]
fn translate_insert_without_document_is_violation() {
    let event: ChangeStreamEvent<Employee> = ChangeStreamEvent {
        operation_type: ChangeOperation::Insert,
        full_document: None,
        document_key: None,
        update_description: None,
    };
    match translate_change_event(event) {
        Err(e) => assert_eq!("Mongo did not provide full document on insert event", e.0),
        _ => panic!("An insert without a full document must be a contract violation."),
    }
}

#[test]
fn translate_update_yields_update() {
    let event: ChangeStreamEvent<Employee> = ChangeStreamEvent {
        operation_type: ChangeOperation::Update,
        full_document: None,
        document_key: Some(DocumentKey { id: Some("Hank Hill".to_owned()) }),
        update_description: Some(UpdateDescription {
            updated_fields: UpdatedEmployee::default().age(34),
        }),
    };
    match translate_change_event(event) {
        Ok(Event::Update { id, update }) => {
            assert_eq!("Hank Hill", id);
            assert_eq!(Some(34), update.age);
            assert_eq!(None, update.children);
        }
        _ => panic!("An update with key and description must translate to Update."),
    }
}

#[test]
fn translate_update_without_description_is_violation() {
    let event: ChangeStreamEvent<Employee> = ChangeStreamEvent {
        operation_type: ChangeOperation::Update,
        full_document: None,
        document_key: Some(DocumentKey { id: Some("Hank Hill".to_owned()) }),
        update_description: None,
    };
    match translate_change_event(event) {
        Err(e) => assert_eq!("Mongo did not provide update description on update event", e.0),
        _ => panic!("An update without a description must be a contract violation."),
    }
}

#[test]
fn translate_missing_document_key_is_violation() {
    let event: ChangeStreamEvent<Employee> = ChangeStreamEvent {
        operation_type: ChangeOperation::Delete,
        full_document: None,
        document_key: None,
        update_description: None,
    };
    match translate_change_event(event) {
        Err(e) => assert_eq!("Mongo did not provide document key on change event", e.0),
        _ => panic!("A change event without a document key must be a contract violation."),
    }
}

#[test]
fn translate_key_without_id_is_violation() {
    let event: ChangeStreamEvent<Employee> = ChangeStreamEvent {
        operation_type: ChangeOperation::Update,
        full_document: None,
        document_key: Some(DocumentKey { id: None }),
        update_description: None,
    };
    match translate_change_event(event) {
        Err(e) => assert_eq!("Mongo provided no _id on document key", e.0),
        _ => panic!("A document key without an identity must be a contract violation."),
    }
}

#[test]
fn translate_replace_yields_full_patch_update() {
    let event: ChangeStreamEvent<Employee> = ChangeStreamEvent {
        operation_type: ChangeOperation::Replace,
        full_document: Some(Employee { name: "Hank Hill".to_owned(), age: 34, children: 1 }),
        document_key: None,
        update_description: None,
    };
    match translate_change_event(event) {
        Ok(Event::Update { id, update }) => {
            assert_eq!("Hank Hill", id);
            assert_eq!(Some(34), update.age);
            assert_eq!(Some(1), update.children);
        }
        _ => panic!("A replace must translate to an Update carrying the full snapshot."),
    }
}

#[test]
fn translate_delete_yields_delete() {
    let event: ChangeStreamEvent<Employee> = ChangeStreamEvent {
        operation_type: ChangeOperation::Delete,
        full_document: None,
        document_key: Some(DocumentKey { id: Some("Hank Hill".to_owned()) }),
        update_description: None,
    };
    match translate_change_event(event) {
        Ok(Event::Delete(id)) => assert_eq!("Hank Hill", id),
        _ => panic!("A delete with a document key must translate to Delete."),
    }
}

#[test]
fn translate_unfiltered_operation_is_violation() {
    let event: ChangeStreamEvent<Employee> = ChangeStreamEvent {
        operation_type: ChangeOperation::Other,
        full_document: None,
        document_key: None,
        update_description: None,
    };
    match translate_change_event(event) {
        Err(e) => assert_eq!("Mongo returned an event type that was filtered out.", e.0),
        _ => panic!("An unfiltered operation kind must be a contract violation."),
    }
}

#[test]
fn document_key_id_parsing() {
    let with_id: ChangeStreamEvent<Employee> = ChangeStreamEvent {
        operation_type: ChangeOperation::Delete,
        full_document: None,
        document_key: Some(DocumentKey { id: Some("Hank Hill".to_owned()) }),
        update_description: None,
    };
    assert_eq!("Hank Hill", get_id_from_change_event(&with_id).expect("The key holds an id."));

    let without_key: ChangeStreamEvent<Employee> = ChangeStreamEvent {
        operation_type: ChangeOperation::Delete,
        full_document: None,
        document_key: None,
        update_description: None,
    };
    match get_id_from_change_event(&without_key) {
        Err(e) => assert_eq!("Mongo did not provide document key on change event", e.0),
        _ => panic!("A missing document key must be a contract violation."),
    }
}

#[test]
fn mongodb_translator_reports_its_own_messages() {
    let event: ChangeStreamEvent<Employee> = ChangeStreamEvent {
        operation_type: ChangeOperation::Insert,
        full_document: None,
        document_key: None,
        update_description: None,
    };
    match live_entity::mongodb::translate_change_event(event) {
        Err(e) => assert_eq!("MongoDB did not provide full document on insert event", e.0),
        _ => panic!("An insert without a full document must be a contract violation."),
    }

    let ok_event: ChangeStreamEvent<Employee> = ChangeStreamEvent {
        operation_type: ChangeOperation::Insert,
        full_document: Some(Employee { name: "Hank Hill".to_owned(), age: 49, children: 1 }),
        document_key: None,
        update_description: None,
    };
    match live_entity::mongodb::translate_change_event(ok_event) {
        Ok(Event::Create(e)) => assert_eq!("Hank Hill", e.name),
        _ => panic!("An insert with a full document must translate to Create."),
    }
}

#[test]
fn filter_fields_move_under_the_full_document_namespace() {
    let filter: Vec<(String, String)> = vec![
        ("age".to_owned(), "34".to_owned()),
        ("children".to_owned(), "1".to_owned()),
    ];
    let fields = live_entity::mongo::feed_match_fields(&filter);
    assert_eq!(2, fields.len());
    assert_eq!("fullDocument.age", fields[0].0);
    assert_eq!("34", fields[0].1);
    assert_eq!("fullDocument.children", fields[1].0);
    assert_eq!("1", fields[1].1);

    let kinds = live_entity::mongo::watched_operations();
    assert_eq!(4, kinds.len());
    assert!(matches!(kinds[0], ChangeOperation::Update));
    assert!(matches!(kinds[1], ChangeOperation::Insert));
    assert!(matches!(kinds[2], ChangeOperation::Delete));
    assert!(matches!(kinds[3], ChangeOperation::Replace));
}

#[test]
fn fixed_names_of_entity_kinds() {
    assert_eq!("employees", Employee::collection_name());
    assert_eq!("home", HomePage::entity_id());
    assert_eq!("pages", HomePage::kind_name());
}
