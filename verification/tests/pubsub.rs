use kiko::data::{CreateSession, RemoveParticipant, SessionMessage};
use kiko::id::SessionId;
use kiko::messaging::PubSub;

fn create_message(name: &str) -> SessionMessage {
    SessionMessage::CreateSession(CreateSession {
        name: name.to_string(),
        duration_seconds: 1800,
    })
}

#[test]
fn consume_event_removes_message() {
    let mut pubsub = PubSub::new();
    let session_id = SessionId::new();

    let _notifier = pubsub.subscribe(session_id.clone());

    let message = create_message("Test Message");

    pubsub.publish(session_id.clone(), message);

    // First consume should return the message
    let event = pubsub.consume_event(&session_id);
    assert!(event.is_some());

    // Second consume should return None (message was removed)
    let event2 = pubsub.consume_event(&session_id);
    assert!(event2.is_none());

    // get_event should also return None now
    let event3 = pubsub.get_event(&session_id);
    assert!(event3.is_none());
}

#[test]
fn get_event_vs_consume_event() {
    let mut pubsub = PubSub::new();
    let session_id = SessionId::new();

    let _notifier = pubsub.subscribe(session_id.clone());

    let message = create_message("Persistent Test");

    pubsub.publish(session_id.clone(), message);

    // get_event should not remove the message
    let event1 = pubsub.get_event(&session_id);
    assert!(event1.is_some());

    let event2 = pubsub.get_event(&session_id);
    assert!(event2.is_some());

    // consume_event should remove it
    let event3 = pubsub.consume_event(&session_id);
    assert!(event3.is_some());

    // Now it should be gone
    let event4 = pubsub.get_event(&session_id);
    assert!(event4.is_none());
}

#[test]
fn cleanup_session() {
    let mut pubsub = PubSub::new();
    let session_id = SessionId::new();

    let _notifier = pubsub.subscribe(session_id.clone());

    let message = create_message("Cleanup Test");

    pubsub.publish(session_id.clone(), message);

    // Verify session exists
    assert_eq!(pubsub.session_count(), 1);
    assert!(pubsub.has_event(&session_id));

    // Cleanup session
    pubsub.cleanup_session(&session_id);

    // Verify session is gone
    assert_eq!(pubsub.session_count(), 0);
    assert!(!pubsub.has_event(&session_id));

    let event = pubsub.get_event(&session_id);
    assert!(event.is_none());
}

#[test]
fn memory_leak_prevention() {
    let mut pubsub = PubSub::new();
    let mut session_ids = Vec::new();

    // Create many sessions
    for i in 0..100 {
        let session_id = SessionId::new();
        session_ids.push(session_id.clone());

        let _notifier = pubsub.subscribe(session_id.clone());

        let message = create_message(&format!("Session {i}"));
        pubsub.publish(session_id, message);
    }

    assert_eq!(pubsub.session_count(), 100);

    // Consume all events
    for session_id in &session_ids {
        let event = pubsub.consume_event(session_id);
        assert!(event.is_some());
    }

    // Events should be removed, but notifiers should still exist
    assert_eq!(pubsub.session_count(), 100);

    // Clean up all sessions
    for session_id in &session_ids {
        pubsub.cleanup_session(session_id);
    }

    assert_eq!(pubsub.session_count(), 0);
}

#[test]
fn has_event_utility() {
    let mut pubsub = PubSub::new();
    let session_id = SessionId::new();

    let _notifier = pubsub.subscribe(session_id.clone());

    // No event initially
    assert!(!pubsub.has_event(&session_id));

    // Publish message
    let message = create_message("Event Check");
    pubsub.publish(session_id.clone(), message);

    // Should have event now
    assert!(pubsub.has_event(&session_id));

    // Consume event
    let _event = pubsub.consume_event(&session_id);

    // Should not have event anymore
    assert!(!pubsub.has_event(&session_id));
}

#[test]
fn correct_pubsub_behavior_subscribe_after_publish() {
    let mut pubsub = PubSub::new();
    let session_id = SessionId::new();

    // Publish first (no subscribers yet) - this is correct behavior
    let message = create_message("Early Message");

    pubsub.publish(session_id.clone(), message);

    // Then subscribe
    let _notifier = pubsub.subscribe(session_id.clone());

    // Message should not be available since we subscribed after publishing
    // This is CORRECT pub/sub behavior
    let event = pubsub.get_event(&session_id);
    assert!(
        event.is_none(),
        "Should not receive messages published before subscription"
    );
}

#[test]
fn event_processing_loop_with_consume() {
    let mut pubsub = PubSub::new();
    let session_id = SessionId::new();

    let _notifier = pubsub.subscribe(session_id.clone());

    let mut processed_count = 0;
    for i in 0..3 {
        let message = SessionMessage::RemoveParticipant(RemoveParticipant {
            session_id: session_id.as_str().to_string(),
            participant_id: format!("participant_{i}"),
        });
        pubsub.publish(session_id.clone(), message);

        if let Some(event) = pubsub.consume_event(&session_id) {
            match event {
                SessionMessage::RemoveParticipant(remove_participant) => {
                    println!(
                        "Processed participant: {}",
                        remove_participant.participant_id
                    );
                    processed_count += 1;
                }
                _ => panic!("Unexpected message type"),
            }
        }
    }

    assert_eq!(processed_count, 3);

    // All events should be consumed
    assert!(!pubsub.has_event(&session_id));
}

#[test]
fn multiple_subscribers() {
    let mut pubsub = PubSub::new();
    let session_id = SessionId::new();
    let _notifier1 = pubsub.subscribe(session_id.clone());
    let _notifier2 = pubsub.subscribe(session_id.clone());

    let message = SessionMessage::AddParticipant(kiko::data::AddParticipant {
        session_id: session_id.as_str().to_string(),
        participant_name: "participant1".to_string(),
    });

    pubsub.publish(session_id.clone(), message.clone());
    let event1 = pubsub.get_event(&session_id);
    let event2 = pubsub.get_event(&session_id);

    assert!(event1.is_some());
    assert!(event2.is_some());

    match event1.unwrap() {
        SessionMessage::AddParticipant(add_participant) => {
            assert_eq!(add_participant.participant_name, "participant1");
        }
        _ => panic!("Unexpected message type"),
    }

    match event2.unwrap() {
        SessionMessage::AddParticipant(add_participant) => {
            assert_eq!(add_participant.participant_name, "participant1");
        }
        _ => panic!("Unexpected message type"),
    }
}
