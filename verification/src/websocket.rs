//! The per-connection protocol state machine.
//!
//! A connection starts unbound, may subscribe to one session's events — which
//! is when it gains a wait-handle for a listener task — and may join a
//! session as a participant. Every inbound protocol message is dispatched
//! here against the shared session store and hub; a successful mutation
//! publishes the full updated session for every subscriber of that session.
//! Errors are reported to the offending connection only and never change the
//! store or the hub.

use vstd::prelude::*;

use std::sync::Arc;
use tokio::sync::Notify;

use crate::data::{
    AddParticipant, CreateSession, JoinSession, Participant, PointSession, RemoveParticipant,
    Session, SessionAbs, SessionMessage, SubscribeToSession, without_member,
};
use crate::errors::WebSocketError;
use crate::id::{ParticipantId, SessionId};
use crate::messaging::{PubSub, subscribe_step};
use crate::sessions::{SessionServiceInMemory, store_updated};

verus! {

use vstd::string::StringExecFns;

/// What the handler of one inbound message asks the connection loop to send
/// back on success: a text payload, a note that a subscription just started,
/// or nothing.
#[derive(Debug)]
pub enum WebSocketResponse {
    Success(String),
    SubscriptionStarted,
    NoResponse,
}

/// The per-connection state: the bound session, the bound participant, and
/// the wait-handle of the session subscribed to, if any. A connection counts
/// as subscribed exactly when it holds a wait-handle.
pub struct ConnectionState {
    session_id: Option<SessionId>,
    participant_id: Option<ParticipantId>,
    notify: Option<Arc<Notify>>,
}

impl ConnectionState {
    /// The session this connection is bound to, if any.
    pub closed spec fn spec_session_id(&self) -> Option<SessionId> {
        self.session_id
    }

    /// The participant identity this connection added, if any.
    pub closed spec fn spec_participant_id(&self) -> Option<ParticipantId> {
        self.participant_id
    }

    /// The wait-handle of the subscribed session, if any.
    pub closed spec fn spec_notify(&self) -> Option<Arc<Notify>> {
        self.notify
    }

    /// A fresh, unbound connection.
    pub fn new() -> (r: Self)
        ensures
            r.spec_session_id() is None,
            r.spec_participant_id() is None,
            r.spec_notify() is None,
    {
        ConnectionState { session_id: None, participant_id: None, notify: None }
    }

    /// Whether this connection has an active subscription.
    pub fn is_subscribed(&self) -> (r: bool)
        ensures
            r == (self.spec_notify() is Some),
    {
        match &self.notify {
            Some(_) => true,
            None => false,
        }
    }

    /// A clone of the subscription's wait-handle, for the listener task.
    pub fn listener_handle(&self) -> (r: Option<Arc<Notify>>)
        ensures
            r == self.spec_notify(),
    {
        match &self.notify {
            Some(h) => Some(crate::messaging::clone_handle(h)),
            None => None,
        }
    }

    /// Drops the subscription state: the wait-handle and the participant
    /// binding are cleared; the session binding is kept.
    pub fn cleanup_subscription(&mut self)
        ensures
            final(self).spec_session_id() == old(self).spec_session_id(),
            final(self).spec_participant_id() is None,
            final(self).spec_notify() is None,
    {
        self.notify = None;
        self.participant_id = None;
    }
}

/// Holds when `post`'s mailboxes are `pre`'s with the full state of session
/// `sid`, as abstraction `s`, delivered: if the session had a wait-handle in
/// `pre` the slot now holds a session update carrying `s` and no other slot
/// changed; with no wait-handle nothing was delivered.
pub open spec fn published_update(pre: PubSub, post: PubSub, sid: Seq<char>, s: SessionAbs) -> bool {
    if pre.spec_notifiers().contains_key(sid) {
        &&& post.spec_events().dom() == pre.spec_events().dom().insert(sid)
        &&& post.spec_events().contains_key(sid)
        &&& post.spec_events()[sid]@ == crate::data::MessageAbs::SessionUpdate(s)
        &&& forall|k: Seq<char>|
            #[trigger] post.spec_events().contains_key(k) && k != sid ==> pre.spec_events().contains_key(
                k,
            ) && post.spec_events()[k] == pre.spec_events()[k]
    } else {
        post.spec_events() == pre.spec_events()
    }
}

/// Holds when the store now maps `sid` to a session with abstraction `s` and
/// that state was published for `sid`, wait-handles untouched: the common
/// tail of every mutating message handler that does not itself subscribe.
pub open spec fn mutated_and_published(
    pre_store: Map<Seq<char>, Session>,
    post_store: Map<Seq<char>, Session>,
    pre_hub: PubSub,
    post_hub: PubSub,
    sid: Seq<char>,
    s: SessionAbs,
) -> bool {
    &&& store_updated(pre_store, post_store, sid, s)
    &&& post_hub.spec_notifiers() == pre_hub.spec_notifiers()
    &&& published_update(pre_hub, post_hub, sid, s)
}

/// Subscribes the connection to a session's events: checks that the session
/// exists, binds the connection to it, and obtains the session's shared
/// wait-handle from the hub. Fails with `AlreadySubscribed` if the
/// connection already has one, and with `SessionNotFound` if the session is
/// absent; failure changes nothing.
pub fn setup_subscription(
    session_id: SessionId,
    store: &SessionServiceInMemory,
    hub: &mut PubSub,
    conn: &mut ConnectionState,
) -> (r: Result<(), WebSocketError>)
    requires
        store.wf(),
        old(hub).wf(),
    ensures
        final(hub).wf(),
        old(conn).spec_notify() is Some ==> (r matches Err(e) && e is AlreadySubscribed && *final(hub) == *old(hub) && *final(conn) == *old(conn)),
        old(conn).spec_notify() is None && !store.spec_sessions().contains_key(session_id@) ==> (
        r matches Err(WebSocketError::SessionNotFound(s)) && s@ == session_id@ && *final(hub)
            == *old(hub) && *final(conn) == *old(conn)),
        old(conn).spec_notify() is None && store.spec_sessions().contains_key(session_id@) ==> (
        r is Ok && (final(conn).spec_notify() matches Some(h) && subscribe_step(
            *old(hub),
            session_id@,
            h,
            *final(hub),
        )) && (final(conn).spec_session_id() matches Some(sid) && sid@ == session_id@) && final(conn).spec_participant_id() == old(conn).spec_participant_id()),
{
    if conn.is_subscribed() {
        return Err(WebSocketError::AlreadySubscribed);
    }
    match store.get(&session_id) {
        Ok(_) => {},
        Err(_) => {
            return Err(WebSocketError::SessionNotFound(session_id.into_string()));
        },
    }
    conn.session_id = Some(session_id.clone());
    let handle = hub.subscribe(session_id);
    conn.notify = Some(handle);
    Ok(())
}

/// A session as it stands after a participant was appended.
pub open spec fn joined_session(s: SessionAbs, p: Participant) -> SessionAbs {
    SessionAbs { members: s.members.push(p), ..s }
}

/// A session as it stands after a vote was recorded: untouched if the
/// participant is not a member.
pub open spec fn voted_session(s: SessionAbs, pid: Seq<char>, points: Option<u32>) -> SessionAbs {
    if s.has_member(pid) {
        SessionAbs { points: s.points.insert(pid, points), ..s }
    } else {
        s
    }
}

/// Handles `JoinSession`: looks the session up, adds a freshly identified
/// participant under the requested name, records that identity in the
/// connection state, writes the session back, publishes the updated session,
/// and — if the connection was not yet subscribed — subscribes it.
pub fn handle_join_session(
    join: &JoinSession,
    store: &mut SessionServiceInMemory,
    hub: &mut PubSub,
    conn: &mut ConnectionState,
) -> (r: Result<WebSocketResponse, WebSocketError>)
    requires
        old(store).wf(),
        old(hub).wf(),
    ensures
        final(store).wf(),
        final(hub).wf(),
        !old(store).spec_sessions().contains_key(join.session_id@) ==> (r matches Err(
            WebSocketError::SessionNotFound(s),
        ) && s@ == join.session_id@ && *final(store) == *old(store) && *final(hub) == *old(hub)
            && *final(conn) == *old(conn)),
        old(store).spec_sessions().contains_key(join.session_id@) ==> (r matches Ok(resp) && resp
            is NoResponse && (exists|p: Participant|
            {
                &&& #[trigger] p.spec_name() == join.participant_name@
                &&& p.spec_id().len() == 6
                &&& store_updated(
                    old(store).spec_sessions(),
                    final(store).spec_sessions(),
                    join.session_id@,
                    joined_session(old(store).spec_sessions()[join.session_id@]@, p),
                )
                &&& final(conn).spec_participant_id() matches Some(pid) && pid@ == p.spec_id()
                &&& published_update(
                    *old(hub),
                    *final(hub),
                    join.session_id@,
                    joined_session(old(store).spec_sessions()[join.session_id@]@, p),
                )
            })),
        old(store).spec_sessions().contains_key(join.session_id@) && old(conn).spec_notify()
            is Some ==> (final(hub).spec_notifiers() == old(hub).spec_notifiers() && final(conn).spec_notify() == old(conn).spec_notify() && final(conn).spec_session_id() == old(conn).spec_session_id()),
        old(store).spec_sessions().contains_key(join.session_id@) && old(conn).spec_notify()
            is None ==> (final(conn).spec_notify() matches Some(h) && final(hub).spec_notifiers()
            == old(hub).spec_notifiers().insert(join.session_id@, h) && (final(conn).spec_session_id() matches Some(sid) && sid@ == join.session_id@)),
{
    let session_id: SessionId = SessionId::from_string(join.session_id.clone());
    let mut session = match store.get(&session_id) {
        Ok(s) => s,
        Err(_) => {
            return Err(WebSocketError::SessionNotFound(join.session_id.clone()));
        },
    };
    let participant_id = ParticipantId::new();
    let participant = Participant::new(participant_id.clone(), join.participant_name.clone());
    let ghost p_witness = participant;
    session.add_participant(participant);
    conn.participant_id = Some(participant_id);
    let updated = match store.update(&session_id, &session) {
        Ok(s) => s,
        Err(_) => {
            return Err(
                WebSocketError::InvalidMessage(String::from_str("Failed to update session")),
            );
        },
    };
    hub.publish(session_id.clone(), SessionMessage::SessionUpdate(updated));
    if !conn.is_subscribed() {
        let subscribed = setup_subscription(session_id, store, hub, conn);
        proof {
            assert(subscribed is Ok);
        }
    }
    proof {
        let pre = old(store).spec_sessions()[join.session_id@]@;
        assert(p_witness.spec_name() == join.participant_name@ && p_witness.spec_id().len() == 6
            && store_updated(
            old(store).spec_sessions(),
            store.spec_sessions(),
            join.session_id@,
            joined_session(pre, p_witness),
        ) && (conn.spec_participant_id() matches Some(pid) && pid@
            == p_witness.spec_id()) && published_update(
            *old(hub),
            *hub,
            join.session_id@,
            joined_session(pre, p_witness),
        ));
    }
    Ok(WebSocketResponse::NoResponse)
}

/// Handles `SubscribeToSession`: subscribes the connection as a read-only
/// observer, without adding a participant.
pub fn handle_subscribe_to_session(
    subscribe: &SubscribeToSession,
    store: &SessionServiceInMemory,
    hub: &mut PubSub,
    conn: &mut ConnectionState,
) -> (r: Result<WebSocketResponse, WebSocketError>)
    requires
        store.wf(),
        old(hub).wf(),
    ensures
        final(hub).wf(),
        old(conn).spec_notify() is Some ==> (r matches Err(e) && e is AlreadySubscribed && *final(hub) == *old(hub) && *final(conn) == *old(conn)),
        old(conn).spec_notify() is None && !store.spec_sessions().contains_key(
            subscribe.session_id@,
        ) ==> (r matches Err(WebSocketError::SessionNotFound(s)) && s@ == subscribe.session_id@
            && *final(hub) == *old(hub) && *final(conn) == *old(conn)),
        old(conn).spec_notify() is None && store.spec_sessions().contains_key(
            subscribe.session_id@,
        ) ==> (r matches Ok(resp) && resp is SubscriptionStarted && (final(conn).spec_notify()
            matches Some(h) && subscribe_step(*old(hub), subscribe.session_id@, h, *final(hub))) && (
        final(conn).spec_session_id() matches Some(sid) && sid@ == subscribe.session_id@) && final(conn).spec_participant_id() == old(conn).spec_participant_id()),
{
    let session_id: SessionId = SessionId::from_string(subscribe.session_id.clone());
    match setup_subscription(session_id, store, hub, conn) {
        Ok(_) => Ok(WebSocketResponse::SubscriptionStarted),
        Err(e) => Err(e),
    }
}

/// Handles `RemoveParticipant`: removes the named participant from the named
/// session, writes the session back and publishes it. Removing an unknown
/// participant is not an error.
pub fn handle_remove_participant(
    remove: &RemoveParticipant,
    store: &mut SessionServiceInMemory,
    hub: &mut PubSub,
) -> (r: Result<WebSocketResponse, WebSocketError>)
    requires
        old(store).wf(),
        old(hub).wf(),
    ensures
        final(store).wf(),
        final(hub).wf(),
        !old(store).spec_sessions().contains_key(remove.session_id@) ==> (r matches Err(
            WebSocketError::SessionNotFound(s),
        ) && s@ == remove.session_id@ && *final(store) == *old(store) && *final(hub) == *old(hub)),
        old(store).spec_sessions().contains_key(remove.session_id@) ==> (r matches Ok(resp) && resp
            is NoResponse && mutated_and_published(
            old(store).spec_sessions(),
            final(store).spec_sessions(),
            *old(hub),
            *final(hub),
            remove.session_id@,
            (SessionAbs {
                members: without_member(
                    old(store).spec_sessions()[remove.session_id@]@.members,
                    remove.participant_id@,
                ),
                ..old(store).spec_sessions()[remove.session_id@]@
            }),
        )),
{
    let session_id: SessionId = SessionId::from_string(remove.session_id.clone());
    let participant_id: ParticipantId = ParticipantId::from_string(remove.participant_id.clone());
    let mut session = match store.get(&session_id) {
        Ok(s) => s,
        Err(_) => {
            return Err(WebSocketError::SessionNotFound(remove.session_id.clone()));
        },
    };
    session.remove_participant(&participant_id);
    let updated = match store.update(&session_id, &session) {
        Ok(s) => s,
        Err(_) => {
            return Err(
                WebSocketError::InvalidMessage(String::from_str("Failed to update session")),
            );
        },
    };
    hub.publish(session_id, SessionMessage::SessionUpdate(updated));
    Ok(WebSocketResponse::NoResponse)
}

/// Handles `PointSession`: records the vote in the named session — a vote
/// for an identifier that is not a member leaves the session unchanged —
/// then writes the session back and publishes it.
pub fn handle_point_session(
    point: &PointSession,
    store: &mut SessionServiceInMemory,
    hub: &mut PubSub,
) -> (r: Result<WebSocketResponse, WebSocketError>)
    requires
        old(store).wf(),
        old(hub).wf(),
    ensures
        final(store).wf(),
        final(hub).wf(),
        !old(store).spec_sessions().contains_key(point.session_id@) ==> (r matches Err(
            WebSocketError::SessionNotFound(s),
        ) && s@ == point.session_id@ && *final(store) == *old(store) && *final(hub) == *old(hub)),
        old(store).spec_sessions().contains_key(point.session_id@) ==> (r matches Ok(resp) && resp
            is NoResponse && mutated_and_published(
            old(store).spec_sessions(),
            final(store).spec_sessions(),
            *old(hub),
            *final(hub),
            point.session_id@,
            voted_session(
                old(store).spec_sessions()[point.session_id@]@,
                point.participant_id@,
                point.points,
            ),
        )),
{
    let session_id: SessionId = SessionId::from_string(point.session_id.clone());
    let participant_id: ParticipantId = ParticipantId::from_string(point.participant_id.clone());
    let mut session = match store.get(&session_id) {
        Ok(s) => s,
        Err(_) => {
            return Err(WebSocketError::SessionNotFound(point.session_id.clone()));
        },
    };
    session.point(&participant_id, point.points);
    let updated = match store.update(&session_id, &session) {
        Ok(s) => s,
        Err(_) => {
            return Err(
                WebSocketError::InvalidMessage(String::from_str("Failed to update session")),
            );
        },
    };
    hub.publish(session_id, SessionMessage::SessionUpdate(updated));
    Ok(WebSocketResponse::NoResponse)
}

/// Handles `SetTopic`: needs a session binding; replaces the bound session's
/// topic, writes it back and publishes it. Without a binding nothing at all
/// changes and `NotSubscribed` is reported to the sender alone.
pub fn handle_set_topic(
    topic: &String,
    store: &mut SessionServiceInMemory,
    hub: &mut PubSub,
    conn: &ConnectionState,
) -> (r: Result<WebSocketResponse, WebSocketError>)
    requires
        old(store).wf(),
        old(hub).wf(),
    ensures
        final(store).wf(),
        final(hub).wf(),
        conn.spec_session_id() is None ==> (r matches Err(e) && e is NotSubscribed && *final(store)
            == *old(store) && *final(hub) == *old(hub)),
        conn.spec_session_id() matches Some(sid) ==> ((!old(store).spec_sessions().contains_key(
            sid@,
        ) ==> (r matches Err(WebSocketError::SessionNotFound(s)) && s@ == sid@ && *final(store)
            == *old(store) && *final(hub) == *old(hub))) && (old(store).spec_sessions().contains_key(
            sid@,
        ) ==> (r matches Ok(resp) && resp is NoResponse && mutated_and_published(
            old(store).spec_sessions(),
            final(store).spec_sessions(),
            *old(hub),
            *final(hub),
            sid@,
            (SessionAbs { topic: topic@, ..old(store).spec_sessions()[sid@]@ }),
        )))),
{
    let session_id = match &conn.session_id {
        Some(id) => id.clone(),
        None => {
            return Err(WebSocketError::NotSubscribed);
        },
    };
    let mut session = match store.get(&session_id) {
        Ok(s) => s,
        Err(_) => {
            return Err(WebSocketError::SessionNotFound(session_id.into_string()));
        },
    };
    session.set_topic(topic.clone());
    let updated = match store.update(&session_id, &session) {
        Ok(s) => s,
        Err(_) => {
            return Err(
                WebSocketError::InvalidMessage(String::from_str("Failed to update session")),
            );
        },
    };
    hub.publish(session_id, SessionMessage::SessionUpdate(updated));
    Ok(WebSocketResponse::NoResponse)
}

/// Handles `ClearPoints`: needs a session binding; empties the bound
/// session's vote table — the hide-votes flag and everything else stay as
/// they were — then writes it back and publishes it.
pub fn handle_clear_points(
    store: &mut SessionServiceInMemory,
    hub: &mut PubSub,
    conn: &ConnectionState,
) -> (r: Result<WebSocketResponse, WebSocketError>)
    requires
        old(store).wf(),
        old(hub).wf(),
    ensures
        final(store).wf(),
        final(hub).wf(),
        conn.spec_session_id() is None ==> (r matches Err(e) && e is NotSubscribed && *final(store)
            == *old(store) && *final(hub) == *old(hub)),
        conn.spec_session_id() matches Some(sid) ==> ((!old(store).spec_sessions().contains_key(
            sid@,
        ) ==> (r matches Err(WebSocketError::SessionNotFound(s)) && s@ == sid@ && *final(store)
            == *old(store) && *final(hub) == *old(hub))) && (old(store).spec_sessions().contains_key(
            sid@,
        ) ==> (r matches Ok(resp) && resp is NoResponse && mutated_and_published(
            old(store).spec_sessions(),
            final(store).spec_sessions(),
            *old(hub),
            *final(hub),
            sid@,
            (SessionAbs {
                points: Map::<Seq<char>, Option<u32>>::empty(),
                ..old(store).spec_sessions()[sid@]@
            }),
        )))),
{
    let session_id = match &conn.session_id {
        Some(id) => id.clone(),
        None => {
            return Err(WebSocketError::NotSubscribed);
        },
    };
    let mut session = match store.get(&session_id) {
        Ok(s) => s,
        Err(_) => {
            return Err(WebSocketError::SessionNotFound(session_id.into_string()));
        },
    };
    session.clear_points();
    let updated = match store.update(&session_id, &session) {
        Ok(s) => s,
        Err(_) => {
            return Err(
                WebSocketError::InvalidMessage(String::from_str("Failed to update session")),
            );
        },
    };
    hub.publish(session_id, SessionMessage::SessionUpdate(updated));
    Ok(WebSocketResponse::NoResponse)
}

/// Handles `ToggleHidePoints`: needs a session binding; flips the bound
/// session's hide-votes flag, writes it back and publishes it.
pub fn handle_toggle_hide_points(
    store: &mut SessionServiceInMemory,
    hub: &mut PubSub,
    conn: &ConnectionState,
) -> (r: Result<WebSocketResponse, WebSocketError>)
    requires
        old(store).wf(),
        old(hub).wf(),
    ensures
        final(store).wf(),
        final(hub).wf(),
        conn.spec_session_id() is None ==> (r matches Err(e) && e is NotSubscribed && *final(store)
            == *old(store) && *final(hub) == *old(hub)),
        conn.spec_session_id() matches Some(sid) ==> ((!old(store).spec_sessions().contains_key(
            sid@,
        ) ==> (r matches Err(WebSocketError::SessionNotFound(s)) && s@ == sid@ && *final(store)
            == *old(store) && *final(hub) == *old(hub))) && (old(store).spec_sessions().contains_key(
            sid@,
        ) ==> (r matches Ok(resp) && resp is NoResponse && mutated_and_published(
            old(store).spec_sessions(),
            final(store).spec_sessions(),
            *old(hub),
            *final(hub),
            sid@,
            (SessionAbs {
                hide_points: !old(store).spec_sessions()[sid@]@.hide_points,
                ..old(store).spec_sessions()[sid@]@
            }),
        )))),
{
    let session_id = match &conn.session_id {
        Some(id) => id.clone(),
        None => {
            return Err(WebSocketError::NotSubscribed);
        },
    };
    let mut session = match store.get(&session_id) {
        Ok(s) => s,
        Err(_) => {
            return Err(WebSocketError::SessionNotFound(session_id.into_string()));
        },
    };
    session.toggle_hide_points();
    let updated = match store.update(&session_id, &session) {
        Ok(s) => s,
        Err(_) => {
            return Err(
                WebSocketError::InvalidMessage(String::from_str("Failed to update session")),
            );
        },
    };
    hub.publish(session_id, SessionMessage::SessionUpdate(updated));
    Ok(WebSocketResponse::NoResponse)
}

/// Reserved: session creation happens through the HTTP gateway, so this
/// protocol variant is accepted and ignored.
pub fn handle_create_session(create: &CreateSession) -> (r: Result<
    WebSocketResponse,
    WebSocketError,
>)
    ensures
        r matches Ok(resp) && resp is NoResponse,
{
    Ok(WebSocketResponse::NoResponse)
}

/// Reserved: participants are added by joining, so this protocol variant is
/// accepted and ignored.
pub fn handle_add_participant(add: &AddParticipant) -> (r: Result<
    WebSocketResponse,
    WebSocketError,
>)
    ensures
        r matches Ok(resp) && resp is NoResponse,
{
    Ok(WebSocketResponse::NoResponse)
}

/// Session updates flow from the server to its clients; one arriving from a
/// client is accepted and ignored.
pub fn handle_session_update(update: &Session) -> (r: Result<WebSocketResponse, WebSocketError>)
    ensures
        r matches Ok(resp) && resp is NoResponse,
{
    Ok(WebSocketResponse::NoResponse)
}

/// What handling a `JoinSession` message does; mirrors
/// [`handle_join_session`].
pub open spec fn join_session_spec(
    join: JoinSession,
    pre_store: SessionServiceInMemory,
    post_store: SessionServiceInMemory,
    pre_hub: PubSub,
    post_hub: PubSub,
    pre_conn: ConnectionState,
    post_conn: ConnectionState,
    r: Result<WebSocketResponse, WebSocketError>,
) -> bool {
    &&& !pre_store.spec_sessions().contains_key(join.session_id@) ==> (r matches Err(
        WebSocketError::SessionNotFound(s),
    ) && s@ == join.session_id@ && post_store == pre_store && post_hub == pre_hub && post_conn
        == pre_conn)
    &&& pre_store.spec_sessions().contains_key(join.session_id@) ==> (r matches Ok(resp) && resp
        is NoResponse && (exists|p: Participant|
        {
            &&& #[trigger] p.spec_name() == join.participant_name@
            &&& p.spec_id().len() == 6
            &&& store_updated(
                pre_store.spec_sessions(),
                post_store.spec_sessions(),
                join.session_id@,
                joined_session(pre_store.spec_sessions()[join.session_id@]@, p),
            )
            &&& post_conn.spec_participant_id() matches Some(pid) && pid@ == p.spec_id()
            &&& published_update(
                pre_hub,
                post_hub,
                join.session_id@,
                joined_session(pre_store.spec_sessions()[join.session_id@]@, p),
            )
        }))
    &&& pre_store.spec_sessions().contains_key(join.session_id@) && pre_conn.spec_notify()
        is Some ==> (post_hub.spec_notifiers() == pre_hub.spec_notifiers() && post_conn.spec_notify()
        == pre_conn.spec_notify() && post_conn.spec_session_id() == pre_conn.spec_session_id())
    &&& pre_store.spec_sessions().contains_key(join.session_id@) && pre_conn.spec_notify()
        is None ==> (post_conn.spec_notify() matches Some(h) && post_hub.spec_notifiers()
        == pre_hub.spec_notifiers().insert(join.session_id@, h) && (post_conn.spec_session_id()
        matches Some(sid) && sid@ == join.session_id@))
}

/// What handling a `SubscribeToSession` message does; mirrors
/// [`handle_subscribe_to_session`].
pub open spec fn subscribe_to_session_spec(
    subscribe: SubscribeToSession,
    store: SessionServiceInMemory,
    pre_hub: PubSub,
    post_hub: PubSub,
    pre_conn: ConnectionState,
    post_conn: ConnectionState,
    r: Result<WebSocketResponse, WebSocketError>,
) -> bool {
    &&& pre_conn.spec_notify() is Some ==> (r matches Err(e) && e is AlreadySubscribed && post_hub
        == pre_hub && post_conn == pre_conn)
    &&& pre_conn.spec_notify() is None && !store.spec_sessions().contains_key(subscribe.session_id@)
        ==> (r matches Err(WebSocketError::SessionNotFound(s)) && s@ == subscribe.session_id@
        && post_hub == pre_hub && post_conn == pre_conn)
    &&& pre_conn.spec_notify() is None && store.spec_sessions().contains_key(subscribe.session_id@)
        ==> (r matches Ok(resp) && resp is SubscriptionStarted && (post_conn.spec_notify()
        matches Some(h) && subscribe_step(pre_hub, subscribe.session_id@, h, post_hub)) && (
    post_conn.spec_session_id() matches Some(sid) && sid@ == subscribe.session_id@)
        && post_conn.spec_participant_id() == pre_conn.spec_participant_id())
}

/// What handling a `RemoveParticipant` message does; mirrors
/// [`handle_remove_participant`].
pub open spec fn remove_participant_spec(
    remove: RemoveParticipant,
    pre_store: SessionServiceInMemory,
    post_store: SessionServiceInMemory,
    pre_hub: PubSub,
    post_hub: PubSub,
    r: Result<WebSocketResponse, WebSocketError>,
) -> bool {
    &&& !pre_store.spec_sessions().contains_key(remove.session_id@) ==> (r matches Err(
        WebSocketError::SessionNotFound(s),
    ) && s@ == remove.session_id@ && post_store == pre_store && post_hub == pre_hub)
    &&& pre_store.spec_sessions().contains_key(remove.session_id@) ==> (r matches Ok(resp) && resp
        is NoResponse && mutated_and_published(
        pre_store.spec_sessions(),
        post_store.spec_sessions(),
        pre_hub,
        post_hub,
        remove.session_id@,
        (SessionAbs {
            members: without_member(
                pre_store.spec_sessions()[remove.session_id@]@.members,
                remove.participant_id@,
            ),
            ..pre_store.spec_sessions()[remove.session_id@]@
        }),
    ))
}

/// What handling a `PointSession` message does; mirrors
/// [`handle_point_session`].
pub open spec fn point_session_spec(
    point: PointSession,
    pre_store: SessionServiceInMemory,
    post_store: SessionServiceInMemory,
    pre_hub: PubSub,
    post_hub: PubSub,
    r: Result<WebSocketResponse, WebSocketError>,
) -> bool {
    &&& !pre_store.spec_sessions().contains_key(point.session_id@) ==> (r matches Err(
        WebSocketError::SessionNotFound(s),
    ) && s@ == point.session_id@ && post_store == pre_store && post_hub == pre_hub)
    &&& pre_store.spec_sessions().contains_key(point.session_id@) ==> (r matches Ok(resp) && resp
        is NoResponse && mutated_and_published(
        pre_store.spec_sessions(),
        post_store.spec_sessions(),
        pre_hub,
        post_hub,
        point.session_id@,
        voted_session(
            pre_store.spec_sessions()[point.session_id@]@,
            point.participant_id@,
            point.points,
        ),
    ))
}

/// What handling a message that needs a session binding does to the bound
/// session: the target abstraction as a function of the stored one.
pub open spec fn bound_session_spec(
    target: spec_fn(SessionAbs) -> SessionAbs,
    pre_store: SessionServiceInMemory,
    post_store: SessionServiceInMemory,
    pre_hub: PubSub,
    post_hub: PubSub,
    conn: ConnectionState,
    r: Result<WebSocketResponse, WebSocketError>,
) -> bool {
    &&& conn.spec_session_id() is None ==> (r matches Err(e) && e is NotSubscribed && post_store
        == pre_store && post_hub == pre_hub)
    &&& conn.spec_session_id() matches Some(sid) ==> ((!pre_store.spec_sessions().contains_key(sid@)
        ==> (r matches Err(WebSocketError::SessionNotFound(s)) && s@ == sid@ && post_store
        == pre_store && post_hub == pre_hub)) && (pre_store.spec_sessions().contains_key(sid@) ==> (
    r matches Ok(resp) && resp is NoResponse && mutated_and_published(
        pre_store.spec_sessions(),
        post_store.spec_sessions(),
        pre_hub,
        post_hub,
        sid@,
        target(pre_store.spec_sessions()[sid@]@),
    ))))
}

/// What handling one protocol message does to the store, the hub and the
/// connection, by message kind.
pub open spec fn handled(
    msg: SessionMessage,
    pre_store: SessionServiceInMemory,
    post_store: SessionServiceInMemory,
    pre_hub: PubSub,
    post_hub: PubSub,
    pre_conn: ConnectionState,
    post_conn: ConnectionState,
    r: Result<WebSocketResponse, WebSocketError>,
) -> bool {
    match msg {
        SessionMessage::CreateSession(_) => post_store == pre_store && post_hub == pre_hub
            && post_conn == pre_conn && (r matches Ok(resp) && resp is NoResponse),
        SessionMessage::JoinSession(j) => join_session_spec(
            j,
            pre_store,
            post_store,
            pre_hub,
            post_hub,
            pre_conn,
            post_conn,
            r,
        ),
        SessionMessage::SubscribeToSession(sub) => post_store == pre_store
            && subscribe_to_session_spec(sub, pre_store, pre_hub, post_hub, pre_conn, post_conn, r),
        SessionMessage::AddParticipant(_) => post_store == pre_store && post_hub == pre_hub
            && post_conn == pre_conn && (r matches Ok(resp) && resp is NoResponse),
        SessionMessage::RemoveParticipant(rm) => post_conn == pre_conn && remove_participant_spec(
            rm,
            pre_store,
            post_store,
            pre_hub,
            post_hub,
            r,
        ),
        SessionMessage::PointSession(p) => post_conn == pre_conn && point_session_spec(
            p,
            pre_store,
            post_store,
            pre_hub,
            post_hub,
            r,
        ),
        SessionMessage::SetTopic(t) => post_conn == pre_conn && bound_session_spec(
            |s: SessionAbs| SessionAbs { topic: t@, ..s },
            pre_store,
            post_store,
            pre_hub,
            post_hub,
            pre_conn,
            r,
        ),
        SessionMessage::ClearPoints => post_conn == pre_conn && bound_session_spec(
            |s: SessionAbs| SessionAbs { points: Map::<Seq<char>, Option<u32>>::empty(), ..s },
            pre_store,
            post_store,
            pre_hub,
            post_hub,
            pre_conn,
            r,
        ),
        SessionMessage::ToggleHidePoints => post_conn == pre_conn && bound_session_spec(
            |s: SessionAbs| SessionAbs { hide_points: !s.hide_points, ..s },
            pre_store,
            post_store,
            pre_hub,
            post_hub,
            pre_conn,
            r,
        ),
        SessionMessage::SessionUpdate(_) => post_store == pre_store && post_hub == pre_hub
            && post_conn == pre_conn && (r matches Ok(resp) && resp is NoResponse),
    }
}

/// Dispatches one decoded protocol message against the shared store and hub
/// and this connection's state. What each message kind does is
/// [`handled`]; an error is reported to this connection alone.
pub fn handle_message(
    msg: &SessionMessage,
    store: &mut SessionServiceInMemory,
    hub: &mut PubSub,
    conn: &mut ConnectionState,
) -> (r: Result<WebSocketResponse, WebSocketError>)
    requires
        old(store).wf(),
        old(hub).wf(),
    ensures
        final(store).wf(),
        final(hub).wf(),
        handled(*msg, *old(store), *final(store), *old(hub), *final(hub), *old(conn), *final(conn), r),
{
    match msg {
        SessionMessage::CreateSession(create) => handle_create_session(create),
        SessionMessage::JoinSession(join) => handle_join_session(join, store, hub, conn),
        SessionMessage::SubscribeToSession(subscribe) => handle_subscribe_to_session(
            subscribe,
            store,
            hub,
            conn,
        ),
        SessionMessage::AddParticipant(add) => handle_add_participant(add),
        SessionMessage::RemoveParticipant(remove) => handle_remove_participant(remove, store, hub),
        SessionMessage::PointSession(point) => handle_point_session(point, store, hub),
        SessionMessage::SetTopic(topic) => handle_set_topic(topic, store, hub, conn),
        SessionMessage::ClearPoints => handle_clear_points(store, hub, conn),
        SessionMessage::ToggleHidePoints => handle_toggle_hide_points(store, hub, conn),
        SessionMessage::SessionUpdate(update) => handle_session_update(update),
    }
}

/// What tearing a connection down does to the store and the hub: if the
/// connection had both a session and a participant binding and the session
/// still exists, the participant is removed from it and the result is
/// published; in every other case nothing changes. Best-effort: a session
/// that no longer exists is skipped silently.
pub open spec fn departed(
    pre_conn: ConnectionState,
    pre_store: SessionServiceInMemory,
    post_store: SessionServiceInMemory,
    pre_hub: PubSub,
    post_hub: PubSub,
) -> bool {
    match (pre_conn.spec_session_id(), pre_conn.spec_participant_id()) {
        (Some(sid), Some(pid)) => {
            if pre_store.spec_sessions().contains_key(sid@) {
                mutated_and_published(
                    pre_store.spec_sessions(),
                    post_store.spec_sessions(),
                    pre_hub,
                    post_hub,
                    sid@,
                    (SessionAbs {
                        members: without_member(
                            pre_store.spec_sessions()[sid@]@.members,
                            pid@,
                        ),
                        ..pre_store.spec_sessions()[sid@]@
                    }),
                )
            } else {
                post_store == pre_store && post_hub == pre_hub
            }
        },
        _ => post_store == pre_store && post_hub == pre_hub,
    }
}

/// Tears the connection down: removes its participant from its session if it
/// had one — so remaining subscribers see the departure — then clears the
/// subscription state. The hub's wait-handle and mailbox for the session are
/// deliberately left registered: other connections may still be subscribed.
pub fn cleanup_connection(
    conn: &mut ConnectionState,
    store: &mut SessionServiceInMemory,
    hub: &mut PubSub,
)
    requires
        old(store).wf(),
        old(hub).wf(),
    ensures
        final(store).wf(),
        final(hub).wf(),
        departed(*old(conn), *old(store), *final(store), *old(hub), *final(hub)),
        final(conn).spec_session_id() == old(conn).spec_session_id(),
        final(conn).spec_participant_id() is None,
        final(conn).spec_notify() is None,
{
    let ids = match (&conn.session_id, &conn.participant_id) {
        (Some(sid), Some(pid)) => Some((sid.clone(), pid.clone())),
        _ => None,
    };
    match ids {
        Some((session_id, participant_id)) => {
            match store.get(&session_id) {
                Ok(mut session) => {
                    session.remove_participant(&participant_id);
                    match store.update(&session_id, &session) {
                        Ok(updated) => {
                            hub.publish(session_id, SessionMessage::SessionUpdate(updated));
                        },
                        Err(_) => {},
                    }
                },
                Err(_) => {},
            }
        },
        None => {},
    }
    conn.cleanup_subscription();
}

/// Law: in a session that starts with no votes, votes by distinct
/// participants who are all members leave the vote table with exactly one
/// entry per voter: its keys are precisely the voters' identifiers, so after
/// `N` votes it has exactly `N` entries.
pub proof fn lemma_votes_tally(
    sessions: Seq<SessionAbs>,
    pids: Seq<Seq<char>>,
    vals: Seq<Option<u32>>,
)
    requires
        sessions.len() == pids.len() + 1,
        vals.len() == pids.len(),
        sessions[0].points.dom() == Set::<Seq<char>>::empty(),
        pids.no_duplicates(),
        forall|i: int| 0 <= i < pids.len() ==> sessions[0].has_member(#[trigger] pids[i]),
        forall|i: int|
            0 <= i < pids.len() ==> sessions[i + 1] == voted_session(
                sessions[i],
                #[trigger] pids[i],
                vals[i],
            ),
    ensures
        sessions[pids.len() as int].points.dom() == pids.to_set(),
        sessions[pids.len() as int].points.dom().len() == pids.len(),
{
    lemma_votes_tally_prefix(sessions, pids, vals, pids.len() as int);
    assert(pids.take(pids.len() as int) == pids);
    pids.unique_seq_to_set();
}

proof fn lemma_votes_tally_prefix(
    sessions: Seq<SessionAbs>,
    pids: Seq<Seq<char>>,
    vals: Seq<Option<u32>>,
    k: int,
)
    requires
        sessions.len() == pids.len() + 1,
        vals.len() == pids.len(),
        sessions[0].points.dom() == Set::<Seq<char>>::empty(),
        forall|i: int| 0 <= i < pids.len() ==> sessions[0].has_member(#[trigger] pids[i]),
        forall|i: int|
            0 <= i < pids.len() ==> sessions[i + 1] == voted_session(
                sessions[i],
                #[trigger] pids[i],
                vals[i],
            ),
        0 <= k <= pids.len(),
    ensures
        sessions[k].members == sessions[0].members,
        sessions[k].points.dom() == pids.take(k).to_set(),
    decreases k,
{
    if k == 0 {
        assert(pids.take(0).to_set() =~= Set::<Seq<char>>::empty());
    } else {
        lemma_votes_tally_prefix(sessions, pids, vals, k - 1);
        let pid = pids[k - 1];
        assert(sessions[k] == voted_session(sessions[k - 1], pid, vals[k - 1]));
        assert(sessions[k - 1].has_member(pid)) by {
            let j = choose|j: int|
                0 <= j < sessions[0].members.len() && sessions[0].members[j].spec_id() == pid;
            assert(sessions[k - 1].members[j].spec_id() == pid);
        }
        assert(sessions[k].points.dom() == sessions[k - 1].points.dom().insert(pid));
        assert(pids.take(k).drop_last() == pids.take(k - 1));
        assert(pids.take(k).last() == pid);
        assert(pids.take(k - 1).push(pid) == pids.take(k));
        Seq::lemma_to_set_insert_commutes(pids.take(k - 1), pid);
        assert(sessions[k].points.dom() =~= pids.take(k).to_set());
    }
}

} // verus!
