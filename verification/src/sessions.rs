//! An in-memory store of session aggregates.
//!
//! The store is the one piece of state every connection mutates. Reads hand
//! out snapshot copies; writes replace the stored value whole, so concurrent
//! callers of a shared store see last-write-wins semantics.

use vstd::prelude::*;

use crate::data::{CreateSession, Participant, Session, SessionAbs, without_member};
use crate::id::{ParticipantId, SessionId};
use crate::keymap::KeyMap;

verus! {

/// The one way a store operation can fail: the named session is absent.
#[derive(Debug, PartialEq, Eq, Structural)]
pub enum StoreError {
    NotFound,
}

/// Holds when `post` is `pre` with the session under `sid` created or
/// replaced by a well-formed session whose abstraction is `s`, and every
/// other session untouched.
pub open spec fn store_updated(
    pre: Map<Seq<char>, Session>,
    post: Map<Seq<char>, Session>,
    sid: Seq<char>,
    s: SessionAbs,
) -> bool {
    &&& post.dom() == pre.dom().insert(sid)
    &&& post.contains_key(sid)
    &&& post[sid]@ == s
    &&& post[sid].wf()
    &&& forall|k: Seq<char>|
        #[trigger] post.contains_key(k) && k != sid ==> pre.contains_key(k) && post[k] == pre[k]
}

/// Holds when `s` is a copy of some session stored in `sessions`.
pub open spec fn snapshot_of(sessions: Map<Seq<char>, Session>, s: Session) -> bool {
    exists|k: Seq<char>| sessions.contains_key(k) && s@ == sessions[k]@
}

/// An in-memory session store.
pub struct SessionServiceInMemory {
    sessions: KeyMap<Session>,
}

impl SessionServiceInMemory {
    /// The stored sessions, keyed by session identifier.
    pub closed spec fn spec_sessions(&self) -> Map<Seq<char>, Session> {
        self.sessions@
    }

    /// The backing table and every stored session are well-formed.
    pub closed spec fn wf(&self) -> bool {
        &&& self.sessions.wf()
        &&& forall|k: Seq<char>|
            self.spec_sessions().contains_key(k) ==> (#[trigger] self.spec_sessions()[k]).wf()
    }

    /// Creates an empty store.
    pub fn new() -> (r: Self)
        ensures
            r.wf(),
            r.spec_sessions() == Map::<Seq<char>, Session>::empty(),
    {
        SessionServiceInMemory { sessions: KeyMap::new() }
    }

    /// Creates a new session from the request: a fresh identifier, the
    /// request's name and duration, no participants, no votes, an empty
    /// topic, votes shown. Always succeeds and returns the created session.
    pub fn create(&mut self, request: CreateSession) -> (r: Session)
        requires
            old(self).wf(),
        ensures
            final(self).wf(),
            r.wf(),
            r@.id.len() == 8,
            r@.name == request.name@,
            r@.duration_seconds == request.duration_seconds,
            r@.members == Seq::<Participant>::empty(),
            r@.topic == Seq::<char>::empty(),
            r@.points == Map::<Seq<char>, Option<u32>>::empty(),
            r@.hide_points == false,
            store_updated(old(self).spec_sessions(), final(self).spec_sessions(), r@.id, r@),
    {
        let session = Session::new(request.name, request.duration_seconds);
        let stored = session.clone();
        let key: String = session.id().as_str().to_owned();
        self.sessions.insert(key, stored);
        proof {
            assert(self.spec_sessions().dom() =~= old(self).spec_sessions().dom().insert(
                session@.id,
            ));
        }
        session
    }

    /// Returns a snapshot copy of the session, or `NotFound` if the
    /// identifier names no session.
    pub fn get(&self, session_id: &SessionId) -> (r: Result<Session, StoreError>)
        requires
            self.wf(),
        ensures
            self.spec_sessions().contains_key(session_id@) ==> (r matches Ok(s) && s@
                == self.spec_sessions()[session_id@]@ && s.wf()),
            !self.spec_sessions().contains_key(session_id@) ==> r == Err::<
                Session,
                StoreError,
            >(StoreError::NotFound),
    {
        let key: String = session_id.as_str().to_owned();
        match self.sessions.get(&key) {
            Some(s) => Ok(s.clone()),
            None => Err(StoreError::NotFound),
        }
    }

    /// Replaces the stored session under `session_id` with the given value
    /// and returns a copy of it. There is no upsert: an absent identifier
    /// yields `NotFound` and the store is unchanged.
    pub fn update(&mut self, session_id: &SessionId, session: &Session) -> (r: Result<
        Session,
        StoreError,
    >)
        requires
            old(self).wf(),
            session.wf(),
        ensures
            final(self).wf(),
            old(self).spec_sessions().contains_key(session_id@) ==> (r matches Ok(s) && s@
                == session@ && s.wf() && store_updated(
                old(self).spec_sessions(),
                final(self).spec_sessions(),
                session_id@,
                session@,
            )),
            !old(self).spec_sessions().contains_key(session_id@) ==> r == Err::<
                Session,
                StoreError,
            >(StoreError::NotFound) && final(self).spec_sessions() == old(self).spec_sessions(),
    {
        let key: String = session_id.as_str().to_owned();
        if self.sessions.contains_key(&key) {
            let stored = session.clone();
            self.sessions.insert(key, stored);
            proof {
                assert(self.spec_sessions().dom() =~= old(self).spec_sessions().dom().insert(
                    session_id@,
                ));
            }
            Ok(session.clone())
        } else {
            Err(StoreError::NotFound)
        }
    }

    /// Returns snapshot copies of all stored sessions.
    pub fn list(&self) -> (r: Vec<Session>)
        requires
            self.wf(),
        ensures
            r@.len() == self.spec_sessions().dom().len(),
            forall|i: int|
                0 <= i < r@.len() ==> snapshot_of(self.spec_sessions(), #[trigger] r@[i]),
    {
        let r = self.sessions.values();
        proof {
            assert forall|i: int| 0 <= i < r@.len() implies snapshot_of(
                self.spec_sessions(),
                #[trigger] r@[i],
            ) by {
                assert(crate::keymap::cloned_from_value(self.sessions@, r@[i]));
                let k = choose|k: Seq<char>|
                    self.sessions@.contains_key(k) && vstd::pervasive::cloned::<Session>(
                        self.sessions@[k],
                        r@[i],
                    );
                assert(vstd::pervasive::cloned::<Session>(self.sessions@[k], r@[i]));
                assert(r@[i]@ == self.sessions@[k]@);
                assert(self.spec_sessions().contains_key(k) && r@[i]@
                    == self.spec_sessions()[k]@);
            }
        }
        r
    }

    /// Adds a freshly identified participant with the given display name to
    /// the session and returns the participant. `NotFound` if the session is
    /// absent.
    pub fn join(&mut self, session_id: &SessionId, participant_name: &str) -> (r: Result<
        Participant,
        StoreError,
    >)
        requires
            old(self).wf(),
        ensures
            final(self).wf(),
            old(self).spec_sessions().contains_key(session_id@) ==> (r matches Ok(p)
                && p.spec_name() == participant_name@ && p.spec_id().len() == 6 && store_updated(
                old(self).spec_sessions(),
                final(self).spec_sessions(),
                session_id@,
                (SessionAbs {
                    members: old(self).spec_sessions()[session_id@]@.members.push(p),
                    ..old(self).spec_sessions()[session_id@]@
                }),
            )),
            !old(self).spec_sessions().contains_key(session_id@) ==> r == Err::<
                Participant,
                StoreError,
            >(StoreError::NotFound) && final(self).spec_sessions() == old(self).spec_sessions(),
    {
        let key: String = session_id.as_str().to_owned();
        let mut session = match self.sessions.get(&key) {
            Some(s) => s.clone(),
            None => {
                return Err(StoreError::NotFound);
            },
        };
        proof {
            assert(old(self).spec_sessions()[session_id@].wf());
        }
        let participant_id = ParticipantId::new();
        let participant = Participant::new(participant_id, participant_name.to_owned());
        let returned = participant.clone();
        session.add_participant(participant);
        self.sessions.insert(key, session);
        proof {
            assert(self.spec_sessions().dom() =~= old(self).spec_sessions().dom().insert(
                session_id@,
            ));
        }
        Ok(returned)
    }

    /// Removes the participant from the session's member list. Removing an
    /// identifier that was never added is not an error and leaves the member
    /// list as it was. `NotFound` only if the session itself is absent.
    pub fn leave(&mut self, session_id: &SessionId, participant_id: &ParticipantId) -> (r: Result<
        (),
        StoreError,
    >)
        requires
            old(self).wf(),
        ensures
            final(self).wf(),
            old(self).spec_sessions().contains_key(session_id@) ==> r is Ok && store_updated(
                old(self).spec_sessions(),
                final(self).spec_sessions(),
                session_id@,
                (SessionAbs {
                    members: without_member(
                        old(self).spec_sessions()[session_id@]@.members,
                        participant_id@,
                    ),
                    ..old(self).spec_sessions()[session_id@]@
                }),
            ),
            !old(self).spec_sessions().contains_key(session_id@) ==> r == Err::<
                (),
                StoreError,
            >(StoreError::NotFound) && final(self).spec_sessions() == old(self).spec_sessions(),
    {
        let key: String = session_id.as_str().to_owned();
        let mut session = match self.sessions.get(&key) {
            Some(s) => s.clone(),
            None => {
                return Err(StoreError::NotFound);
            },
        };
        proof {
            assert(old(self).spec_sessions()[session_id@].wf());
        }
        session.remove_participant(participant_id);
        self.sessions.insert(key, session);
        proof {
            assert(self.spec_sessions().dom() =~= old(self).spec_sessions().dom().insert(
                session_id@,
            ));
        }
        Ok(())
    }

    /// Removes the session entirely. `NotFound` if it is absent.
    pub fn end(&mut self, session_id: &SessionId) -> (r: Result<(), StoreError>)
        requires
            old(self).wf(),
        ensures
            final(self).wf(),
            final(self).spec_sessions() == old(self).spec_sessions().remove(session_id@),
            old(self).spec_sessions().contains_key(session_id@) ==> r is Ok,
            !old(self).spec_sessions().contains_key(session_id@) ==> r == Err::<
                (),
                StoreError,
            >(StoreError::NotFound),
    {
        let key: String = session_id.as_str().to_owned();
        let removed = self.sessions.remove(&key);
        proof {
            assert forall|k: Seq<char>|
                self.spec_sessions().contains_key(k) implies (
            #[trigger] self.spec_sessions()[k]).wf() by {
                assert(old(self).spec_sessions()[k].wf());
            }
        }
        match removed {
            Some(_) => Ok(()),
            None => Err(StoreError::NotFound),
        }
    }
}

} // verus!
