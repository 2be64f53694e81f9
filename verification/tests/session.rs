use kiko::data::{Participant, Session};
use kiko::id::{ParticipantId, SessionId};

fn session_with(members: Vec<(&str, &str)>) -> Session {
    let participants = members
        .into_iter()
        .map(|(id, name)| {
            Participant::new(ParticipantId::from_string(id.to_string()), name.to_string())
        })
        .collect();
    Session::from_parts(
        SessionId::from_string("S1".to_string()),
        "Sprint".to_string(),
        1000,
        1800,
        participants,
        String::new(),
        Vec::new(),
        false,
    )
}

#[test]
fn point_records_votes_for_members() {
    let mut session = session_with(vec![("p1", "Alice"), ("p2", "Bob")]);
    session.point(&ParticipantId::from_string("p1".to_string()), Some(5));
    session.point(&ParticipantId::from_string("p2".to_string()), None);

    let points = session.current_points();
    assert_eq!(points.len(), 2);
    assert_eq!(points.get(&"p1".to_string()), Some(&Some(5)));
    assert_eq!(points.get(&"p2".to_string()), Some(&None));
}

#[test]
fn point_ignores_unknown_participants() {
    let mut session = session_with(vec![("p1", "Alice")]);
    session.point(&ParticipantId::from_string("ghost1".to_string()), Some(3));
    assert_eq!(session.current_points().len(), 0);
}

#[test]
fn clear_points_empties_votes_and_keeps_hide_flag() {
    let mut session = session_with(vec![("p1", "Alice"), ("p2", "Bob")]);
    session.toggle_hide_points();
    session.point(&ParticipantId::from_string("p1".to_string()), Some(8));
    session.point(&ParticipantId::from_string("p2".to_string()), Some(13));
    assert_eq!(session.current_points().len(), 2);
    assert!(session.hide_points());

    session.clear_points();
    assert_eq!(session.current_points().len(), 0);
    assert!(session.hide_points());
    assert_eq!(session.participants().len(), 2);
}

#[test]
fn toggle_hide_points_twice_restores_the_flag() {
    let mut session = session_with(vec![]);
    assert!(!session.hide_points());
    session.toggle_hide_points();
    assert!(session.hide_points());
    session.toggle_hide_points();
    assert!(!session.hide_points());
}

#[test]
fn remove_participant_of_unknown_id_changes_nothing() {
    let mut session = session_with(vec![("p1", "Alice"), ("p2", "Bob")]);
    session.remove_participant(&ParticipantId::from_string("ghost1".to_string()));
    assert_eq!(session.participants().len(), 2);
}

#[test]
fn remove_participant_keeps_recorded_votes() {
    let mut session = session_with(vec![("p1", "Alice")]);
    session.point(&ParticipantId::from_string("p1".to_string()), Some(2));
    session.remove_participant(&ParticipantId::from_string("p1".to_string()));
    assert_eq!(session.participants().len(), 0);
    assert_eq!(session.current_points().len(), 1);
}

#[test]
fn from_parts_deduplicates_votes_later_entry_wins() {
    let points = vec![
        (ParticipantId::from_string("p1".to_string()), Some(1)),
        (ParticipantId::from_string("p1".to_string()), Some(3)),
    ];
    let session = Session::from_parts(
        SessionId::from_string("S1".to_string()),
        "Sprint".to_string(),
        1000,
        1800,
        Vec::new(),
        String::new(),
        points,
        false,
    );
    assert_eq!(session.current_points().len(), 1);
    assert_eq!(session.current_points().get(&"p1".to_string()), Some(&Some(3)));
}

#[test]
fn activity_and_remaining_time_follow_the_clock() {
    let session = session_with(vec![]);
    // started at 1000, duration 1800
    assert!(session.is_active_at(1000));
    assert!(session.is_active_at(2799));
    assert!(!session.is_active_at(2800));
    assert_eq!(session.remaining_time_at(1000), 1800);
    assert_eq!(session.remaining_time_at(2000), 800);
    assert_eq!(session.remaining_time_at(2800), 0);
    assert_eq!(session.remaining_time_at(5000), 0);
    // a clock reading before the start counts as no time elapsed
    assert!(session.is_active_at(0));
    assert_eq!(session.remaining_time_at(0), 1800);
}

#[test]
fn uptime_parts_split_exactly() {
    assert_eq!(kiko::health::uptime_parts(0), (0, 0, 0, 0));
    assert_eq!(kiko::health::uptime_parts(59), (0, 0, 0, 59));
    assert_eq!(kiko::health::uptime_parts(90061), (1, 1, 1, 1));
    assert_eq!(kiko::health::uptime_parts(86400), (1, 0, 0, 0));
    assert_eq!(kiko::health::uptime_parts(3661), (0, 1, 1, 1));
}
