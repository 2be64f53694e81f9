use kiko::data::CreateSession;
use kiko::id::{ParticipantId, SessionId};
use kiko::sessions::{SessionServiceInMemory, StoreError};

fn create_request(name: &str, duration_seconds: u64) -> CreateSession {
    CreateSession {
        name: name.to_string(),
        duration_seconds,
    }
}

#[test]
fn create_then_get_returns_the_session() {
    let mut store = SessionServiceInMemory::new();
    let session = store.create(create_request("Team Planning", 3600));
    assert_eq!(session.name(), "Team Planning");
    assert_eq!(session.duration(), 3600);
    assert!(session.participants().is_empty());
    assert_eq!(session.current_topic(), "");
    assert!(!session.hide_points());

    let fetched = store.get(session.id()).expect("session should exist");
    assert_eq!(fetched.name(), "Team Planning");
    assert_eq!(fetched.id().as_str(), session.id().as_str());
}

#[test]
fn get_unknown_session_is_not_found() {
    let store = SessionServiceInMemory::new();
    let id = SessionId::from_string("missing1".to_string());
    assert_eq!(store.get(&id).unwrap_err(), StoreError::NotFound);
}

#[test]
fn update_replaces_and_rejects_unknown() {
    let mut store = SessionServiceInMemory::new();
    let session = store.create(create_request("First draft", 600));
    let mut changed = store.get(session.id()).unwrap();
    changed.set_topic("new topic".to_string());

    let updated = store.update(session.id(), &changed).expect("update should succeed");
    assert_eq!(updated.current_topic(), "new topic");
    assert_eq!(store.get(session.id()).unwrap().current_topic(), "new topic");

    let missing = SessionId::from_string("missing1".to_string());
    assert_eq!(store.update(&missing, &changed).unwrap_err(), StoreError::NotFound);
}

#[test]
fn list_counts_all_sessions() {
    let mut store = SessionServiceInMemory::new();
    assert_eq!(store.list().len(), 0);
    store.create(create_request("One", 60));
    store.create(create_request("Two", 60));
    assert_eq!(store.list().len(), 2);
}

#[test]
fn join_adds_a_participant() {
    let mut store = SessionServiceInMemory::new();
    let session = store.create(create_request("Team Planning", 3600));
    let participant = store.join(session.id(), "Alice").expect("join should succeed");
    assert_eq!(participant.name(), "Alice");
    assert_eq!(participant.id().as_str().len(), 6);

    let fetched = store.get(session.id()).unwrap();
    assert_eq!(fetched.participants().len(), 1);
    assert_eq!(fetched.participants()[0].name(), "Alice");

    let missing = SessionId::from_string("missing1".to_string());
    assert_eq!(store.join(&missing, "Bob").unwrap_err(), StoreError::NotFound);
}

#[test]
fn leave_removes_only_the_named_participant() {
    let mut store = SessionServiceInMemory::new();
    let session = store.create(create_request("Team Planning", 3600));
    let alice = store.join(session.id(), "Alice").unwrap();
    let _bob = store.join(session.id(), "Bob").unwrap();

    store.leave(session.id(), alice.id()).expect("leave should succeed");
    let fetched = store.get(session.id()).unwrap();
    assert_eq!(fetched.participants().len(), 1);
    assert_eq!(fetched.participants()[0].name(), "Bob");
}

#[test]
fn leave_of_unknown_participant_is_idempotent() {
    let mut store = SessionServiceInMemory::new();
    let session = store.create(create_request("Team Planning", 3600));
    store.join(session.id(), "Alice").unwrap();

    let stranger = ParticipantId::from_string("nobody".to_string());
    let before = store.get(session.id()).unwrap().participants().len();
    assert!(store.leave(session.id(), &stranger).is_ok());
    let after = store.get(session.id()).unwrap().participants().len();
    assert_eq!(before, after);
}

#[test]
fn end_removes_the_session() {
    let mut store = SessionServiceInMemory::new();
    let session = store.create(create_request("Short", 60));
    assert!(store.end(session.id()).is_ok());
    assert_eq!(store.get(session.id()).unwrap_err(), StoreError::NotFound);
    assert_eq!(store.end(session.id()).unwrap_err(), StoreError::NotFound);
}
