use diazene::persistence::{Event, Replay};
use std::collections::{BTreeMap, HashSet};
use uuid::Uuid;

#[derive(Debug, Clone, Copy, Hash, Eq, PartialEq)]
pub struct PersonId(Uuid);

impl Default for PersonId {
    fn default() -> Self {
        Self(Uuid::new_v4())
    }
}

#[derive(Debug, Clone, PartialEq)]
pub struct Book {
    id: Uuid,
    title: String,
    rental: HashSet<PersonId>,
}

#[derive(Debug, Clone)]
pub enum BookEvent {
    Rental { id: PersonId },
    Returned { id: PersonId },
    Archived,
}

impl Event for BookEvent {
    const VERSION: &'static str = "0.1.0";
    type Actor = Book;

    fn applied(&self, actor: Book) -> Book {
        let mut next = actor;
        self.clone().apply(&mut next);
        next
    }

    fn apply(self, actor: &mut Self::Actor) {
        match self {
            BookEvent::Rental { id } => {
                actor.rental.insert(id);
            }
            BookEvent::Returned { id } => {
                actor.rental.remove(&id);
            }
            BookEvent::Archived => {}
        }
    }
}

fn create_book() -> (Uuid, Book) {
    let id = Uuid::new_v4();
    let book = Book {
        id,
        title: "Charlie and the Chocolate Factory".to_string(),
        rental: Default::default(),
    };

    (id, book)
}

fn create_events() -> BTreeMap<i32, BookEvent> {
    let mut events = BTreeMap::new();

    let mut i = 0;
    loop {
        if i >= 100 {
            events.insert(100, BookEvent::Archived);
            break;
        }

        let id = PersonId::default();

        events.insert(i, BookEvent::Rental { id });
        i += 1;
        events.insert(i, BookEvent::Returned { id });
        i += 1;
    }

    events
}

#[test]
fn test_replay() {
    let events = create_events();
    events.iter().for_each(|(id, event)| println!("id: {:>4}, event: {:?}", id, event));

    let (_, mut book) = create_book();

    let evs = events.into_values().collect::<Vec<_>>();

    book.replay(evs);

    println!("book={:?}", book);
    assert!(book.rental.is_empty());
    assert_eq!(BookEvent::VERSION, "0.1.0");
}

#[test]
fn replay_applies_events_first_to_last() {
    let (_, mut book) = create_book();
    let a = PersonId::default();
    let b = PersonId::default();
    book.replay(vec![
        BookEvent::Rental { id: a },
        BookEvent::Returned { id: b },
        BookEvent::Rental { id: b },
        BookEvent::Returned { id: a },
        BookEvent::Rental { id: a },
        BookEvent::Archived,
    ]);
    assert_eq!(book.rental, HashSet::from([a, b]));

    let before = book.clone();
    book.replay(Vec::<BookEvent>::new());
    assert_eq!(book, before);

    book.replay(vec![BookEvent::Returned { id: a }]);
    book.replay(vec![BookEvent::Returned { id: b }, BookEvent::Rental { id: a }]);
    assert_eq!(book.rental, HashSet::from([a]));
}
