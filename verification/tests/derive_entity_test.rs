use live_entity::entities::{Article, UpdatedArticle};
use live_entity::{Dup, Entity, Updatable};

#[test]
fn test_derived_entity() {
    let id: i32 = 1;
    let title = "An examination of the consequences of bothering to do stuff".to_owned();
    let body = "Ah, screw it, I don't feel like it.".to_owned();
    let mut article = Article { id, title: title.clone(), body: body.clone() };

    assert_eq!(id, article.get_id());

    let same_by_eq = Article {
        id,
        title: "An examination of the futility of searching for the perfect title".to_owned(),
        body: "I mean, it's just not worth the time.".to_owned(),
    };
    assert_eq!(article, same_by_eq);

    let new_title = "There are no perfect titles".to_owned();
    let update = UpdatedArticle::default().title(new_title.clone());
    article.update(&update);
    assert_eq!(new_title, article.title);
    assert_eq!(body, article.body)
}

#[test]
fn entity_equality_ignores_other_fields() {
    let a = Article { id: 3, title: "one".to_owned(), body: "first".to_owned() };
    let b = Article { id: 3, title: "two".to_owned(), body: "second".to_owned() };
    let c = Article { id: 4, title: "one".to_owned(), body: "first".to_owned() };
    assert_eq!(a, b);
    assert_ne!(a, c);
    assert!(a.entity_eq(&b));
    assert!(!a.entity_eq(&c));
}

#[test]
fn entity_full_update_round_trip() {
    let original = Article {
        id: 9,
        title: "A title worth keeping".to_owned(),
        body: "A body worth keeping".to_owned(),
    };
    let mut fresh = Article { id: 9, title: String::new(), body: String::new() };
    fresh.update(&original.dup().into_update());
    assert_eq!(original.id, fresh.id);
    assert_eq!(original.title, fresh.title);
    assert_eq!(original.body, fresh.body);
}
