use diazene::errors::ActorError;
use diazene::id::{AnyId, IdKind};
use std::hash::{Hash, Hasher};
use uuid::Uuid;

#[test]
fn init() {
    let uuid = Uuid::new_v4();
    let id: AnyId = uuid.as_u128().into();

    println!("{}", id.text());

    let str_id = "abc123";
    let id: AnyId = str_id.into();

    println!("{}", id.text());
}

#[test]
fn downcast() {
    let uuid = Uuid::new_v4();
    let copied = uuid;
    let id: AnyId = uuid.as_u128().into();

    let id = id.downcast::<u128>().unwrap();

    assert_eq!(copied, Uuid::from_u128(id));

    let str_id = "abc123";
    let copied = str_id;
    let id: AnyId = str_id.into();

    let id = id.downcast::<&str>().unwrap();

    assert_eq!(copied, id);
}

#[test]
#[should_panic]
fn downcast_failure() {
    let uuid = Uuid::new_v4();
    let id: AnyId = uuid.as_u128().into();

    let _panic = id.downcast::<&str>().unwrap();
}

#[test]
fn downcast_ref() {
    let uuid = Uuid::new_v4();
    let id: AnyId = uuid.as_u128().into();

    let id = id.downcast_ref::<u128>().unwrap();
    println!("{}", id);
    assert_eq!(*id, uuid.as_u128());
}

#[test]
#[should_panic]
fn downcast_ref_failure() {
    let uuid = Uuid::new_v4();
    let id: AnyId = uuid.as_u128().into();

    let _panic = id.downcast_ref::<&str>().unwrap();
}

#[test]
fn eq() {
    let uuid = Uuid::new_v4();
    let copied = uuid;
    let id: AnyId = uuid.as_u128().into();

    assert!(id.is(&copied.as_u128()));
    assert_eq!(id, AnyId::from(copied.as_u128()));
}

#[test]
fn eq_unmatched_value() {
    let uuid = Uuid::new_v4();
    let other_uuid = Uuid::from_u128(!uuid.as_u128());
    let id: AnyId = uuid.as_u128().into();

    assert!(!id.is(&other_uuid.as_u128()));
    assert_ne!(id, AnyId::from(other_uuid.as_u128()));

    let id = id.downcast::<u128>().unwrap();

    assert_ne!(id, other_uuid.as_u128());
}

#[test]
fn eq_refs() {
    let uuid = Uuid::new_v4();
    let copied = uuid;

    println!("copy: {}", copied);

    let id: AnyId = uuid.as_u128().into();

    let mut set = std::collections::HashSet::new();
    set.insert(id);

    let found = set.iter().find(|item| item.is(&copied.as_u128())).unwrap();

    println!("find: {}", found.text());

    assert!(found.is(&copied.as_u128()));
    assert!(set.contains(&AnyId::from(copied.as_u128())));
}

#[test]
fn equal_values_of_different_types_differ() {
    let unsigned: AnyId = 7u64.into();
    let signed: AnyId = 7i64.into();
    let wide: AnyId = 7u128.into();
    let text: AnyId = "7".into();
    let all = [unsigned, signed, wide, text, 7u32.into(), 7i32.into(), 7usize.into()];
    for (i, a) in all.iter().enumerate() {
        for (j, b) in all.iter().enumerate() {
            assert_eq!(a == b, i == j);
            assert_eq!(a.same(b), i == j);
        }
    }
    assert_ne!(unsigned, signed);
    assert_ne!(unsigned, wide);
    assert_ne!(signed, wide);
    assert_ne!(text, unsigned);
    assert_eq!(unsigned, AnyId::new(7u64));
    assert_eq!(text, AnyId::new("7"));
    assert_ne!(text, AnyId::new("8"));
}

#[test]
fn kind_names_the_concrete_type() {
    assert_eq!(AnyId::new("a").kind(), IdKind::Text);
    assert_eq!(AnyId::new(1u32).kind(), IdKind::U32);
    assert_eq!(AnyId::new(1).kind(), IdKind::I32);
    assert_eq!(AnyId::new(1u64).kind(), IdKind::U64);
    assert_eq!(AnyId::new(-1i64).kind(), IdKind::I64);
    assert_eq!(AnyId::new(1u128).kind(), IdKind::U128);
    assert_eq!(AnyId::new(1usize).kind(), IdKind::Usize);
}

#[test]
fn downcast_to_another_type_is_a_mismatch() {
    let id = AnyId::new(42u64);
    assert_eq!(id.downcast::<u64>(), Ok(42u64));
    assert_eq!(id.downcast::<u32>(), Err(ActorError::DownCastFromAny));
    assert_eq!(id.downcast::<i32>(), Err(ActorError::DownCastFromAny));
    assert_eq!(id.downcast::<usize>(), Err(ActorError::DownCastFromAny));
    assert_eq!(AnyId::new(3u32).downcast::<u32>(), Ok(3u32));
    assert_eq!(AnyId::new(-3).downcast::<i32>(), Ok(-3));
    assert_eq!(AnyId::new(3usize).downcast::<usize>(), Ok(3usize));
    assert_eq!(AnyId::new(-3i64).downcast::<i64>(), Ok(-3i64));
    assert_eq!(AnyId::new(3u128).downcast_ref::<u128>(), Ok(&3u128));
    assert_eq!(id.downcast::<i64>(), Err(ActorError::DownCastFromAny));
    assert_eq!(id.downcast::<u128>(), Err(ActorError::DownCastFromAny));
    assert_eq!(id.downcast::<&str>(), Err(ActorError::DownCastFromAny));
    assert_eq!(id.downcast_ref::<u64>(), Ok(&42u64));
    assert_eq!(id.downcast_ref::<i64>(), Err(ActorError::DownCastFromAny));
    let text = AnyId::new("book-1");
    assert_eq!(text.downcast::<&str>(), Ok("book-1"));
    assert_eq!(text.downcast::<u64>(), Err(ActorError::DownCastFromAny));
}

#[test]
fn equal_identifiers_hash_alike() {
    let a = AnyId::new("book-1");
    let owned = String::from("book-1");
    let leaked: &'static str = Box::leak(owned.into_boxed_str());
    let b = AnyId::new(leaked);
    assert_eq!(a, b);
    let mut ha = std::collections::hash_map::DefaultHasher::new();
    let mut hb = std::collections::hash_map::DefaultHasher::new();
    a.hash(&mut ha);
    b.hash(&mut hb);
    assert_eq!(ha.finish(), hb.finish());
}

#[test]
fn text_shows_the_key_as_its_type_displays_it() {
    assert_eq!(AnyId::new("abc123").text(), "abc123");
    assert_eq!(AnyId::new("").text(), "");
    assert_eq!(AnyId::new(42u64).text(), "42");
    assert_eq!(AnyId::new(7u32).text(), "7");
    assert_eq!(AnyId::new(-7).text(), "-7");
    assert_eq!(AnyId::new(7usize).text(), "7");
    assert_eq!(AnyId::new(-42i64).text(), "-42");
    assert_eq!(AnyId::new(u128::MAX).text(), "340282366920938463463374607431768211455");
    let uuid = Uuid::new_v4();
    assert_eq!(AnyId::new(uuid.as_u128()).text(), uuid.as_u128().to_string());
}

#[test]
fn error_messages() {
    assert_eq!(
        ActorError::AlreadySpawned { id: AnyId::new("book-1") }.message(),
        "Actor with this identifier: book-1 has already been activated."
    );
    assert_eq!(
        ActorError::NotFoundActor { id: AnyId::new(7u64) }.message(),
        "The target actor could not be found. actor: `7` It may have already been shut down or may not have started."
    );
    assert_eq!(ActorError::CallBackSend.message(), "");
    assert_eq!(
        ActorError::DownCastFromAny.message(),
        "May have passed different type information than what was expected when downcasting from `Any` to type."
    );
}

#[test]
fn errors_compare_by_kind_and_identifier() {
    let a = AnyId::new("a");
    let b = AnyId::new("b");
    assert_eq!(ActorError::AlreadySpawned { id: a }, ActorError::AlreadySpawned { id: a });
    assert_ne!(ActorError::AlreadySpawned { id: a }, ActorError::AlreadySpawned { id: b });
    assert_ne!(ActorError::AlreadySpawned { id: a }, ActorError::NotFoundActor { id: a });
    assert_ne!(ActorError::CallBackSend, ActorError::DownCastFromAny);
    assert_eq!(ActorError::CallBackSend, ActorError::CallBackSend);
}
