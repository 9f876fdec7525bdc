use live_entity::entities::{Employee, Person, UpdatedEmployee, UpdatedPerson};
use live_entity::Updatable;

#[test]
fn test_derived_updatable() {
    let mut person = Person { first_name: "Paul".to_owned(), last_name: "Atreides".to_owned() };
    let update = UpdatedPerson::default().first_name("Leto".to_owned());
    person.update(&update);
    assert_eq!("Leto", person.first_name);
    assert_eq!("Atreides", person.last_name);
}

#[test]
fn update_application_is_idempotent() {
    let mut once = Employee { name: "Hank Hill".to_owned(), age: 49, children: 1 };
    let mut twice = Employee { name: "Hank Hill".to_owned(), age: 49, children: 1 };
    let patch = UpdatedEmployee::default().age(34);
    once.update(&patch);
    twice.update(&patch);
    twice.update(&patch);
    assert_eq!(once.name, twice.name);
    assert_eq!(once.age, twice.age);
    assert_eq!(once.children, twice.children);
    assert_eq!(34, once.age);
    assert_eq!(1, once.children);
}

#[test]
fn absent_fields_stay_untouched() {
    let mut person = Person { first_name: "Paul".to_owned(), last_name: "Atreides".to_owned() };
    person.update(&UpdatedPerson::default());
    assert_eq!("Paul", person.first_name);
    assert_eq!("Atreides", person.last_name);
}
