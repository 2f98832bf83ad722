use diazene::actor::{Actor, ActorKind, ActorRef, AnyRef, Context, Mailbox, State};
use diazene::errors::ActorError;
use diazene::id::AnyId;
use diazene::system::{
    ActorSystem, FindActor, FindOr, RunnableActor, ShutdownActor, Supervisor, SupervisorRef,
};

#[derive(Debug, PartialEq)]
struct Book;

#[derive(Debug, PartialEq)]
struct User;

impl Actor for Book {
    const KIND: ActorKind = 1;
}

impl Actor for User {
    const KIND: ActorKind = 2;
}

fn started() -> (Supervisor, SupervisorRef, Context) {
    Supervisor::new().activate(ActorRef::new(0))
}

#[test]
fn spawning_twice_is_rejected_and_keeps_the_first() {
    let (mut supervisor, _handle, ctx) = started();
    let id = AnyId::new("book-1");
    let first = supervisor.spawn::<Book>(id, ActorRef::new(10), &ctx);
    assert!(first.is_ok());
    assert_eq!(first.unwrap().0.address(), 10);
    let second = supervisor.spawn::<Book>(id, ActorRef::new(11), &ctx);
    assert_eq!(second.err(), Some(ActorError::AlreadySpawned { id }));
    let found = supervisor.find::<Book>(&id).unwrap().unwrap();
    assert_eq!(found.address(), 10);
}

#[test]
fn spawn_hands_out_a_running_context_that_leads_to_the_supervisor() {
    let (mut supervisor, handle, ctx) = started();
    let (refs, made) = supervisor.spawn::<User>(AnyId::new(5u64), ActorRef::new(3), &ctx).unwrap();
    assert_eq!(refs.address(), 3);
    assert_eq!(made.running_state().current(), State::Running);
    assert!(!made.running_state().available_shutdown());
    assert_eq!(made.supervisor().0.address(), handle.0.address());
}

#[test]
fn find_tells_absent_from_mismatched() {
    let (mut supervisor, _handle, ctx) = started();
    let id = AnyId::new(77u128);
    assert!(supervisor.find::<User>(&id).unwrap().is_none());
    supervisor.spawn::<User>(id, ActorRef::new(4), &ctx).unwrap();
    assert_eq!(supervisor.find::<User>(&id).unwrap().unwrap().address(), 4);
    assert_eq!(supervisor.find::<Book>(&id).err(), Some(ActorError::DownCastFromAny));
    assert!(supervisor.find::<User>(&AnyId::new(77u64)).unwrap().is_none());
    assert!(supervisor.find::<User>(&AnyId::new(78u128)).unwrap().is_none());
}

#[test]
fn shutdown_removes_only_the_named_identifier() {
    let (mut supervisor, _handle, ctx) = started();
    let a = AnyId::new("a");
    let b = AnyId::new("b");
    let c = AnyId::new("c");
    supervisor.spawn::<Book>(a, ActorRef::new(1), &ctx).unwrap();
    supervisor.spawn::<User>(b, ActorRef::new(2), &ctx).unwrap();
    supervisor.spawn::<Book>(c, ActorRef::new(3), &ctx).unwrap();
    assert_eq!(supervisor.shutdown(b), Ok(()));
    assert!(supervisor.find::<User>(&b).unwrap().is_none());
    assert_eq!(supervisor.find::<Book>(&a).unwrap().unwrap().address(), 1);
    assert_eq!(supervisor.find::<Book>(&c).unwrap().unwrap().address(), 3);
    assert_eq!(supervisor.shutdown(b), Err(ActorError::NotFoundActor { id: b }));
    assert_eq!(supervisor.shutdown(AnyId::new(9i64)), Err(ActorError::NotFoundActor { id: AnyId::new(9i64) }));
    // the identifier is free again
    assert!(supervisor.spawn::<User>(b, ActorRef::new(8), &ctx).is_ok());
    assert_eq!(supervisor.find::<User>(&b).unwrap().unwrap().address(), 8);
}

#[test]
fn deregistered_actor_still_takes_messages() {
    let (mut supervisor, _handle, ctx) = started();
    let id = AnyId::new("zombie");
    let mut mailbox: Mailbox<u32> = Mailbox::new();
    let (held, _ctx) = supervisor.spawn::<Book>(id, ActorRef::new(21), &ctx).unwrap();
    assert_eq!(mailbox.enqueue(1), Ok(()));
    assert_eq!(supervisor.shutdown(id), Ok(()));
    assert!(supervisor.find::<Book>(&id).unwrap().is_none());
    assert_eq!(held.address(), 21);
    assert_eq!(mailbox.enqueue(2), Ok(()));
    assert_eq!(mailbox.len(), 2);
}

#[test]
fn racing_find_or_never_registers_two_actors() {
    // both callers look up before either spawns
    let (mut supervisor, _handle, ctx) = started();
    let id = AnyId::new("x");
    let first = SupervisorRef::find_or(Ok(supervisor.find::<Book>(&id)));
    let second = SupervisorRef::find_or(Ok(supervisor.find::<Book>(&id)));
    assert!(matches!(first, FindOr::Create));
    assert!(matches!(second, FindOr::Create));
    let won = supervisor.spawn::<Book>(id, ActorRef::new(1), &ctx).map(|made| made.0);
    let lost = supervisor.spawn::<Book>(id, ActorRef::new(2), &ctx).map(|made| made.0);
    assert_eq!(won.unwrap().address(), 1);
    assert_eq!(lost.err(), Some(ActorError::AlreadySpawned { id }));
    assert_eq!(supervisor.find::<Book>(&id).unwrap().unwrap().address(), 1);

    // the second caller looks up after the first has spawned
    let (mut supervisor, _handle, ctx) = started();
    let first = SupervisorRef::find_or(Ok(supervisor.find::<Book>(&id)));
    assert!(matches!(first, FindOr::Create));
    supervisor.spawn::<Book>(id, ActorRef::new(1), &ctx).unwrap();
    match SupervisorRef::find_or(Ok(supervisor.find::<Book>(&id))) {
        FindOr::Done(Ok(refs)) => assert_eq!(refs.address(), 1),
        _ => panic!("the registered actor was not found"),
    }
}

#[test]
fn find_or_ends_on_every_failure() {
    let transport: Result<Result<Option<ActorRef<Book>>, ActorError>, ActorError> =
        Err(ActorError::CallBackSend);
    match SupervisorRef::find_or(transport) {
        FindOr::Done(Err(e)) => assert_eq!(e, ActorError::CallBackSend),
        _ => panic!("a failed lookup went on"),
    }
    let mismatch: Result<Result<Option<ActorRef<Book>>, ActorError>, ActorError> =
        Ok(Err(ActorError::DownCastFromAny));
    match SupervisorRef::find_or(mismatch) {
        FindOr::Done(Err(e)) => assert_eq!(e, ActorError::DownCastFromAny),
        _ => panic!("a mismatched lookup went on"),
    }
}

#[test]
fn erased_reference_goes_back_to_its_own_type_only() {
    let refs: ActorRef<Book> = ActorRef::new(40);
    let erased: AnyRef = refs.clone().into();
    assert_eq!(erased, AnyRef { address: 40, kind: 1 });
    assert_eq!(refs.erase(), erased);
    assert_eq!(erased.downcast::<Book>().unwrap().address(), 40);
    assert_eq!(erased.downcast::<User>().err(), Some(ActorError::DownCastFromAny));
    assert_eq!(erased.downcast::<Supervisor>().err(), Some(ActorError::DownCastFromAny));
}

#[test]
fn references_compare_by_mailbox() {
    let a: ActorRef<Book> = ActorRef::new(1);
    let b = a.clone();
    let c: ActorRef<Book> = ActorRef::new(2);
    assert!(a.same_mailbox(&b));
    assert!(!a.same_mailbox(&c));
}

#[test]
fn system_handle_leads_to_its_supervisor() {
    let (_supervisor, handle, ctx) = started();
    let system = ActorSystem::new(handle.clone());
    let copy = system.clone();
    assert_eq!(system.supervisor().0.address(), 0);
    assert_eq!(copy.supervisor().0.address(), 0);
    assert_eq!(ctx.supervisor().0.address(), 0);
}

#[test]
fn supervisor_messages_carry_what_they_were_given() {
    let id = AnyId::new("book-1");
    let run = RunnableActor::new(id, Book);
    assert_eq!(run.id, id);
    assert_eq!(run.actor, Book);
    let from_pair: RunnableActor<User> = ("user-1", User).into();
    assert_eq!(from_pair.id, AnyId::new("user-1"));
    assert_eq!(ShutdownActor::new(id).id, id);
    assert_eq!(FindActor::<Book>::new(id).id, id);
}
