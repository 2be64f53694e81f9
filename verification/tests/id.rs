use kiko::id::{Id, ParticipantId, SessionId, SessionMarker};
use tiny_id::ShortCodeGenerator;

#[test]
fn test_id_generation() {
    let id1 = SessionId::generate();
    let id2 = SessionId::generate();

    // IDs should be different
    assert_ne!(id1, id2);

    // IDs should have correct length
    assert_eq!(id1.as_str().len(), 8);
    assert_eq!(id2.as_str().len(), 8);
}

#[test]
fn test_id_creation() {
    let id = SessionId::from_string("test123".to_string());
    assert_eq!(id.as_str(), "test123");
    assert_eq!(id.clone().into_string(), "test123");
}

#[test]
fn test_id_from_string() {
    let id: SessionId = "abc123".into();
    assert_eq!(id.as_str(), "abc123");
}

#[test]
fn test_custom_generation() {
    let alphabet: Vec<char> = "ABCD".chars().collect();
    let mut generator = ShortCodeGenerator::with_alphabet(alphabet, 4);
    let id = SessionId::from_string(generator.next_string());
    assert_eq!(id.as_str().len(), 4);
    assert!(id.as_str().chars().all(|c| "ABCD".contains(c)));
}

#[test]
fn test_type_safety() {
    let session_id = SessionId::new();
    let participant_id = ParticipantId::new();

    // This should compile - same ID type
    let _same_session: SessionId = session_id.clone();

    // This would not compile - different ID types
    // let _wrong_type: ParticipantId = session_id;

    // Avoid unused variable warning
    let _used = participant_id.as_str();
}

#[test]
fn test_session_id_format() {
    let id = SessionId::new();
    assert_eq!(id.as_str().len(), 8);

    // Should not contain confusing characters
    let confusing_chars = "0OIl";
    assert!(!id.as_str().chars().any(|c| confusing_chars.contains(c)));
}

#[test]
fn participant_id_is_six_characters() {
    let id = ParticipantId::new();
    assert_eq!(id.as_str().len(), 6);
}

#[test]
fn id_from_owned_string_keeps_value() {
    let id: Id<SessionMarker> = Id::from(String::from("qwerty"));
    assert_eq!(id.as_str(), "qwerty");
}
