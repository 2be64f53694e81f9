use kiko::data::{JoinSession, PointSession, SessionMessage, SubscribeToSession};
use kiko::errors::WebSocketError;
use kiko::messaging::PubSub;
use kiko::sessions::SessionServiceInMemory;
use kiko::websocket::{
    ConnectionState, WebSocketResponse, cleanup_connection, handle_message,
};

fn create_session(store: &mut SessionServiceInMemory, name: &str, duration: u64) -> String {
    let session = store.create(kiko::data::CreateSession {
        name: name.to_string(),
        duration_seconds: duration,
    });
    session.id().as_str().to_string()
}

fn latest_update(hub: &PubSub, session_id: &str) -> kiko::data::Session {
    let id = kiko::id::SessionId::from_string(session_id.to_string());
    match hub.get_event(&id) {
        Some(SessionMessage::SessionUpdate(session)) => session,
        Some(_) => panic!("Unexpected message type"),
        None => panic!("no event pending for the session"),
    }
}

#[test]
fn subscribe_then_join_broadcasts_to_all_observers() {
    // Two clients of one session: A joins as a participant, B observes.
    let mut store = SessionServiceInMemory::new();
    let mut hub = PubSub::new();
    let mut conn_a = ConnectionState::new();
    let mut conn_b = ConnectionState::new();

    let sid = create_session(&mut store, "Sprint 1", 1800);

    let subscribe_a = SessionMessage::SubscribeToSession(SubscribeToSession {
        session_id: sid.clone(),
    });
    let subscribe_b = SessionMessage::SubscribeToSession(SubscribeToSession {
        session_id: sid.clone(),
    });
    assert!(matches!(
        handle_message(&subscribe_a, &mut store, &mut hub, &mut conn_a),
        Ok(WebSocketResponse::SubscriptionStarted)
    ));
    assert!(matches!(
        handle_message(&subscribe_b, &mut store, &mut hub, &mut conn_b),
        Ok(WebSocketResponse::SubscriptionStarted)
    ));
    assert!(conn_a.is_subscribed());
    assert!(conn_b.is_subscribed());

    // A joins as "Alice": both listeners read the same broadcast update.
    let join = SessionMessage::JoinSession(JoinSession {
        session_id: sid.clone(),
        participant_name: "Alice".to_string(),
    });
    assert!(handle_message(&join, &mut store, &mut hub, &mut conn_a).is_ok());

    let seen_by_a = latest_update(&hub, &sid);
    let seen_by_b = latest_update(&hub, &sid);
    assert_eq!(seen_by_a.participants().len(), 1);
    assert_eq!(seen_by_a.participants()[0].name(), "Alice");
    assert_eq!(seen_by_b.participants().len(), 1);
    assert_eq!(seen_by_b.participants()[0].name(), "Alice");

    // Alice votes 5 points: both listeners see the vote.
    let alice_id = seen_by_a.participants()[0].id().as_str().to_string();
    let vote = SessionMessage::PointSession(PointSession {
        session_id: sid.clone(),
        participant_id: alice_id.clone(),
        points: Some(5),
    });
    assert!(handle_message(&vote, &mut store, &mut hub, &mut conn_a).is_ok());

    let seen_by_a = latest_update(&hub, &sid);
    let seen_by_b = latest_update(&hub, &sid);
    assert_eq!(seen_by_a.current_points().len(), 1);
    assert_eq!(seen_by_a.current_points().get(&alice_id), Some(&Some(5)));
    assert_eq!(seen_by_b.current_points().get(&alice_id), Some(&Some(5)));
}

#[test]
fn set_topic_without_binding_reports_not_subscribed_and_broadcasts_nothing() {
    let mut store = SessionServiceInMemory::new();
    let mut hub = PubSub::new();
    let mut conn = ConnectionState::new();

    let sid = create_session(&mut store, "Sprint 1", 1800);
    // Another client is subscribed, so a broadcast would be observable.
    let mut observer = ConnectionState::new();
    let subscribe = SessionMessage::SubscribeToSession(SubscribeToSession {
        session_id: sid.clone(),
    });
    handle_message(&subscribe, &mut store, &mut hub, &mut observer).unwrap();

    let set_topic = SessionMessage::SetTopic("x".to_string());
    let result = handle_message(&set_topic, &mut store, &mut hub, &mut conn);
    match result {
        Err(err) => {
            assert!(matches!(err, WebSocketError::NotSubscribed));
            assert_eq!(err.message(), "Not subscribed to any session");
        }
        Ok(_) => panic!("a connection without a binding must be rejected"),
    }

    // Nothing was broadcast to anyone.
    let id = kiko::id::SessionId::from_string(sid.clone());
    assert!(hub.get_event(&id).is_none());
    // And the store still has the untouched session.
    assert_eq!(
        store
            .get(&kiko::id::SessionId::from_string(sid))
            .unwrap()
            .current_topic(),
        ""
    );
}

#[test]
fn last_participant_leaving_broadcasts_the_empty_session() {
    let mut store = SessionServiceInMemory::new();
    let mut hub = PubSub::new();
    let mut observer_1 = ConnectionState::new();
    let mut observer_2 = ConnectionState::new();
    let mut member = ConnectionState::new();

    let sid = create_session(&mut store, "Sprint 1", 1800);

    for observer in [&mut observer_1, &mut observer_2] {
        let subscribe = SessionMessage::SubscribeToSession(SubscribeToSession {
            session_id: sid.clone(),
        });
        handle_message(&subscribe, &mut store, &mut hub, &mut *observer).unwrap();
    }

    let join = SessionMessage::JoinSession(JoinSession {
        session_id: sid.clone(),
        participant_name: "Alice".to_string(),
    });
    handle_message(&join, &mut store, &mut hub, &mut member).unwrap();
    assert_eq!(latest_update(&hub, &sid).participants().len(), 1);

    // The last participant disconnects: both observers read one final
    // update that shows the empty participant list.
    cleanup_connection(&mut member, &mut store, &mut hub);
    assert!(!member.is_subscribed());

    let seen_by_1 = latest_update(&hub, &sid);
    let seen_by_2 = latest_update(&hub, &sid);
    assert_eq!(seen_by_1.participants().len(), 0);
    assert_eq!(seen_by_2.participants().len(), 0);

    // The observers themselves are untouched and still subscribed.
    assert!(observer_1.is_subscribed());
    assert!(observer_2.is_subscribed());
}

#[test]
fn join_of_unknown_session_reports_session_not_found() {
    let mut store = SessionServiceInMemory::new();
    let mut hub = PubSub::new();
    let mut conn = ConnectionState::new();

    let join = SessionMessage::JoinSession(JoinSession {
        session_id: "missing1".to_string(),
        participant_name: "Alice".to_string(),
    });
    match handle_message(&join, &mut store, &mut hub, &mut conn) {
        Err(WebSocketError::SessionNotFound(id)) => {
            assert_eq!(id, "missing1");
        }
        other => panic!("expected SessionNotFound, got {:?}", other.is_ok()),
    }
}

#[test]
fn double_subscription_reports_already_subscribed() {
    let mut store = SessionServiceInMemory::new();
    let mut hub = PubSub::new();
    let mut conn = ConnectionState::new();

    let sid = create_session(&mut store, "Sprint 1", 1800);
    let subscribe = SessionMessage::SubscribeToSession(SubscribeToSession {
        session_id: sid.clone(),
    });
    handle_message(&subscribe, &mut store, &mut hub, &mut conn).unwrap();

    let again = SessionMessage::SubscribeToSession(SubscribeToSession { session_id: sid });
    match handle_message(&again, &mut store, &mut hub, &mut conn) {
        Err(err) => {
            assert!(matches!(err, WebSocketError::AlreadySubscribed));
            assert_eq!(err.message(), "Already subscribed to a session");
        }
        Ok(_) => panic!("a second subscription must be rejected"),
    }
}

#[test]
fn clear_points_keeps_hide_flag_over_the_wire() {
    let mut store = SessionServiceInMemory::new();
    let mut hub = PubSub::new();
    let mut conn = ConnectionState::new();

    let sid = create_session(&mut store, "Sprint 1", 1800);
    let subscribe = SessionMessage::SubscribeToSession(SubscribeToSession {
        session_id: sid.clone(),
    });
    handle_message(&subscribe, &mut store, &mut hub, &mut conn).unwrap();
    let join = SessionMessage::JoinSession(JoinSession {
        session_id: sid.clone(),
        participant_name: "Alice".to_string(),
    });
    handle_message(&join, &mut store, &mut hub, &mut conn).unwrap();
    let alice_id = latest_update(&hub, &sid).participants()[0].id().as_str().to_string();

    handle_message(
        &SessionMessage::ToggleHidePoints,
        &mut store,
        &mut hub,
        &mut conn,
    )
    .unwrap();
    let vote = SessionMessage::PointSession(PointSession {
        session_id: sid.clone(),
        participant_id: alice_id,
        points: Some(8),
    });
    handle_message(&vote, &mut store, &mut hub, &mut conn).unwrap();
    assert_eq!(latest_update(&hub, &sid).current_points().len(), 1);

    handle_message(
        &SessionMessage::ClearPoints,
        &mut store,
        &mut hub,
        &mut conn,
    )
    .unwrap();
    let after = latest_update(&hub, &sid);
    assert_eq!(after.current_points().len(), 0);
    assert!(after.hide_points());
}

#[test]
fn session_not_found_message_names_the_session() {
    let err = WebSocketError::SessionNotFound("abc123".to_string());
    assert_eq!(err.message(), "Session abc123 not found");
    let err = WebSocketError::InvalidMessage("bad frame".to_string());
    assert_eq!(err.message(), "Invalid message format: bad frame");
}

#[test]
fn reserved_messages_are_accepted_and_ignored() {
    let mut store = SessionServiceInMemory::new();
    let mut hub = PubSub::new();
    let mut conn = ConnectionState::new();

    let create = SessionMessage::CreateSession(kiko::data::CreateSession {
        name: "Reserved".to_string(),
        duration_seconds: 60,
    });
    assert!(matches!(
        handle_message(&create, &mut store, &mut hub, &mut conn),
        Ok(WebSocketResponse::NoResponse)
    ));
    assert_eq!(store.list().len(), 0);

    let add = SessionMessage::AddParticipant(kiko::data::AddParticipant {
        session_id: "any".to_string(),
        participant_name: "nobody".to_string(),
    });
    assert!(matches!(
        handle_message(&add, &mut store, &mut hub, &mut conn),
        Ok(WebSocketResponse::NoResponse)
    ));
}

#[test]
fn api_headers_insert_and_delete() {
    let mut headers = kiko::api::ApiHeaders::new();
    headers.insert("Content-Type".to_string(), "application/json".to_string());
    headers.insert("Content-Type".to_string(), "text/plain".to_string());
    headers.delete("Content-Type");
    headers.delete("Missing");

    let mut client = kiko::api::ApiClientHttp::new("http://localhost:3030/api/v1".to_string());
    assert_eq!(client.root_url(), "http://localhost:3030/api/v1");
    client.set_headers(vec![
        ("Authorization".to_string(), "Bearer one".to_string()),
        ("Authorization".to_string(), "Bearer two".to_string()),
    ]);
    client.set_header("Accept".to_string(), "application/json".to_string());
}
