//! A per-session publish/subscribe hub.
//!
//! For each session identifier the hub holds a shareable wait-handle that any
//! number of listener tasks can await, and a single-slot mailbox holding the
//! most recently published event. Publishing overwrites the slot — later
//! full-state events supersede earlier ones — and is dropped entirely when no
//! wait-handle has ever been registered for the session. A mailbox entry can
//! therefore only exist for a session that has a registered wait-handle.

use vstd::prelude::*;

use std::sync::Arc;
use tokio::sync::Notify;

use crate::data::SessionMessage;
use crate::id::SessionId;
use crate::keymap::KeyMap;

verus! {

#[verifier::external_type_specification]
#[verifier::external_body]
pub struct ExNotify(Notify);

/// Relies on `tokio::sync::Notify::new`: a fresh notification handle with no
/// waiters. Nothing is promised of the value.
#[verifier::external_body]
fn new_notify() -> Notify {
    Notify::new()
}

/// Relies on `std::sync::Arc::clone`: the clone is a handle to the very same
/// notification source.
#[verifier::external_body]
pub(crate) fn clone_handle(handle: &Arc<Notify>) -> (r: Arc<Notify>)
    ensures
        r == *handle,
{
    Arc::clone(handle)
}

/// Relies on `tokio::sync::Notify::notify_waiters`: wakes every task
/// currently waiting on this handle; tasks that wait later are not woken by
/// this call. No state visible to this crate changes.
#[verifier::external_body]
fn wake_all(handle: &Arc<Notify>) {
    handle.notify_waiters();
}

/// The hub: per-session wait-handles and single-slot mailboxes.
pub struct PubSub {
    notifiers: KeyMap<Arc<Notify>>,
    events: KeyMap<SessionMessage>,
}

/// How the hub changes when an event is published: nothing at all if the
/// session has no registered wait-handle, otherwise the mailbox slot is
/// overwritten. Wait-handles never change.
pub open spec fn publish_step(
    pre: PubSub,
    sid: Seq<char>,
    message: SessionMessage,
    post: PubSub,
) -> bool {
    &&& post.spec_notifiers() == pre.spec_notifiers()
    &&& if pre.spec_notifiers().contains_key(sid) {
        post.spec_events() == pre.spec_events().insert(sid, message)
    } else {
        post.spec_events() == pre.spec_events()
    }
}

/// How the hub changes on subscribe: the session's wait-handle is created on
/// first use and shared afterwards; mailboxes are untouched.
pub open spec fn subscribe_step(
    pre: PubSub,
    sid: Seq<char>,
    handle: Arc<Notify>,
    post: PubSub,
) -> bool {
    &&& post.spec_notifiers() == pre.spec_notifiers().insert(sid, handle)
    &&& pre.spec_notifiers().contains_key(sid) ==> handle == pre.spec_notifiers()[sid]
    &&& post.spec_events() == pre.spec_events()
}

/// How the hub changes on a destructive read: the mailbox entry, if any, is
/// returned and removed. Wait-handles never change.
pub open spec fn consume_step(
    pre: PubSub,
    sid: Seq<char>,
    r: Option<SessionMessage>,
    post: PubSub,
) -> bool {
    &&& post.spec_notifiers() == pre.spec_notifiers()
    &&& post.spec_events() == pre.spec_events().remove(sid)
    &&& if pre.spec_events().contains_key(sid) {
        r == Some(pre.spec_events()[sid])
    } else {
        r is None
    }
}

/// What a non-destructive read returns: a copy of the mailbox entry, if any.
pub open spec fn get_result(h: PubSub, sid: Seq<char>, r: Option<SessionMessage>) -> bool {
    match r {
        Some(m) => h.spec_events().contains_key(sid) && m@ == h.spec_events()[sid]@,
        None => !h.spec_events().contains_key(sid),
    }
}

impl PubSub {
    /// The wait-handle table, keyed by session identifier.
    pub closed spec fn spec_notifiers(&self) -> Map<Seq<char>, Arc<Notify>> {
        self.notifiers@
    }

    /// The mailbox table, keyed by session identifier.
    pub closed spec fn spec_events(&self) -> Map<Seq<char>, SessionMessage> {
        self.events@
    }

    /// Internal consistency: both tables are well-formed, every stored event
    /// is well-formed, and a mailbox entry exists only for a session with a
    /// registered wait-handle.
    pub closed spec fn wf(&self) -> bool {
        &&& self.notifiers.wf()
        &&& self.events.wf()
        &&& forall|k: Seq<char>|
            self.events@.contains_key(k) ==> (#[trigger] self.events@[k]).wf()
        &&& forall|k: Seq<char>|
            #[trigger] self.events@.contains_key(k) ==> self.notifiers@.contains_key(k)
    }

    /// Creates an empty hub.
    pub fn new() -> (r: Self)
        ensures
            r.wf(),
            r.spec_notifiers() == Map::<Seq<char>, Arc<Notify>>::empty(),
            r.spec_events() == Map::<Seq<char>, SessionMessage>::empty(),
    {
        PubSub { notifiers: KeyMap::new(), events: KeyMap::new() }
    }

    /// Subscribes to a session: returns the session's shared wait-handle,
    /// creating it if this is the first subscriber. Every subscriber of a
    /// session receives a handle to the same notification source, so one
    /// publish wakes all of them. No mailbox entry is created or dropped, so
    /// a new subscriber observes nothing published before it subscribed.
    pub fn subscribe(&mut self, session_id: SessionId) -> (r: Arc<Notify>)
        requires
            old(self).wf(),
        ensures
            final(self).wf(),
            subscribe_step(*old(self), session_id@, r, *final(self)),
            final(self).spec_notifiers().contains_key(session_id@),
    {
        let key: String = session_id.into_string();
        let existing = match self.notifiers.get(&key) {
            Some(h) => Some(clone_handle(h)),
            None => None,
        };
        match existing {
            Some(r) => {
                proof {
                    assert(self.notifiers@.insert(key@, r) =~= self.notifiers@);
                }
                r
            },
            None => {
                let handle = Arc::new(new_notify());
                let r = clone_handle(&handle);
                self.notifiers.insert(key, handle);
                r
            },
        }
    }

    /// Publishes an event for a session. If no wait-handle was ever
    /// registered for the session the event is dropped; otherwise the
    /// mailbox slot is overwritten and every task currently waiting on the
    /// session's wait-handle is woken, after the slot was written.
    pub fn publish(&mut self, session_id: SessionId, message: SessionMessage)
        requires
            old(self).wf(),
            message.wf(),
        ensures
            final(self).wf(),
            publish_step(*old(self), session_id@, message, *final(self)),
    {
        let key: String = session_id.into_string();
        let handle = match self.notifiers.get(&key) {
            Some(h) => Some(clone_handle(h)),
            None => None,
        };
        match handle {
            Some(h) => {
                self.events.insert(key, message);
                wake_all(&h);
            },
            None => {},
        }
    }

    /// Reads the session's mailbox without removing it: a later read sees the
    /// same event again.
    pub fn get_event(&self, session_id: &SessionId) -> (r: Option<SessionMessage>)
        requires
            self.wf(),
        ensures
            get_result(*self, session_id@, r),
            r matches Some(m) ==> m.wf(),
    {
        let key: String = session_id.as_str().to_owned();
        match self.events.get(&key) {
            Some(m) => Some(m.clone()),
            None => None,
        }
    }

    /// Reads and removes the session's mailbox entry in one step: the first
    /// call returns the event, any later call returns nothing until a new
    /// event is published.
    pub fn consume_event(&mut self, session_id: &SessionId) -> (r: Option<SessionMessage>)
        requires
            old(self).wf(),
        ensures
            final(self).wf(),
            consume_step(*old(self), session_id@, r, *final(self)),
            r matches Some(m) ==> m.wf(),
    {
        let key: String = session_id.as_str().to_owned();
        self.events.remove(&key)
    }

    /// Removes both the wait-handle and the mailbox entry of a session. Meant
    /// for when the session itself is being torn down; a task still waiting
    /// on a clone of the removed handle keeps its clone, which simply becomes
    /// unreachable for new subscribers.
    pub fn cleanup_session(&mut self, session_id: &SessionId)
        requires
            old(self).wf(),
        ensures
            final(self).wf(),
            final(self).spec_notifiers() == old(self).spec_notifiers().remove(session_id@),
            final(self).spec_events() == old(self).spec_events().remove(session_id@),
    {
        let key: String = session_id.as_str().to_owned();
        self.events.remove(&key);
        self.notifiers.remove(&key);
    }

    /// The number of sessions with a registered wait-handle.
    pub fn session_count(&self) -> (r: usize)
        requires
            self.wf(),
        ensures
            r == self.spec_notifiers().dom().len(),
    {
        self.notifiers.len()
    }

    /// Whether the session currently has a pending mailbox entry.
    pub fn has_event(&self, session_id: &SessionId) -> (r: bool)
        requires
            self.wf(),
        ensures
            r == self.spec_events().contains_key(session_id@),
    {
        let key: String = session_id.as_str().to_owned();
        self.events.contains_key(&key)
    }
}

impl Default for PubSub {
    /// An empty hub, as [`PubSub::new`] builds it.
    fn default() -> (r: Self)
        ensures
            r.wf(),
            r.spec_notifiers() == Map::<Seq<char>, Arc<Notify>>::empty(),
            r.spec_events() == Map::<Seq<char>, SessionMessage>::empty(),
    {
        PubSub::new()
    }
}

/// Law: an event published while a session has no subscriber is dropped. A
/// subscriber that arrives afterwards and reads the mailbox observes nothing
/// published before its subscription.
pub proof fn lemma_subscribe_after_publish(
    h0: PubSub,
    h1: PubSub,
    h2: PubSub,
    sid: Seq<char>,
    message: SessionMessage,
    handle: Arc<Notify>,
    r: Option<SessionMessage>,
)
    requires
        h0.wf(),
        !h0.spec_notifiers().contains_key(sid),
        publish_step(h0, sid, message, h1),
        subscribe_step(h1, sid, handle, h2),
        get_result(h2, sid, r),
    ensures
        r is None,
{
}

/// Law: a destructive read is destructive. Of two consecutive destructive
/// reads for a session with a pending event, the first returns the event and
/// the second returns nothing.
pub proof fn lemma_consume_event_destructive(
    h0: PubSub,
    h1: PubSub,
    h2: PubSub,
    sid: Seq<char>,
    r1: Option<SessionMessage>,
    r2: Option<SessionMessage>,
)
    requires
        h0.spec_events().contains_key(sid),
        consume_step(h0, sid, r1, h1),
        consume_step(h1, sid, r2, h2),
    ensures
        r1 == Some(h0.spec_events()[sid]),
        r2 is None,
{
}

/// Law: a non-destructive read is non-destructive. Two reads of the same
/// hub state return the same observation: both nothing, or both the stored
/// event.
pub proof fn lemma_get_event_stable(
    h: PubSub,
    sid: Seq<char>,
    r1: Option<SessionMessage>,
    r2: Option<SessionMessage>,
)
    requires
        get_result(h, sid, r1),
        get_result(h, sid, r2),
    ensures
        r1 is Some <==> r2 is Some,
        r1 is Some && r2 is Some ==> r1.unwrap()@ == r2.unwrap()@,
{
}

} // verus!
