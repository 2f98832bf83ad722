use diazene::identifier::{IntoActorId, ToActorId};

#[test]
fn actor_id_spells_what_it_was_made_from() {
    assert_eq!("book-1".to_actor_id().as_str(), "book-1");
    assert_eq!(String::from("book-2").to_actor_id().as_str(), "book-2");
    assert_eq!("user-1".into_actor_id().as_str(), "user-1");
    assert_eq!(String::from("user-2").into_actor_id().as_str(), "user-2");
    assert_eq!("".into_actor_id().as_str(), "");
}
