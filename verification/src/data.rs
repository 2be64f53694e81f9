//! The session data model: participants, sessions, and the protocol messages
//! exchanged over a connection.
//!
//! A session aggregates a name, a creation timestamp, a fixed duration, an
//! ordered participant list, the current topic, a per-participant vote table
//! and a hide-votes flag. A vote may only be recorded for a participant that
//! is currently in the participant list; votes of unknown participants are
//! ignored.

use vstd::prelude::*;

use crate::id::{ParticipantId, SessionId};
use crate::keymap::KeyMap;

verus! {

/// One named member of a session.
#[derive(Debug)]
pub struct Participant {
    id: ParticipantId,
    name: String,
}

impl Participant {
    /// The participant's identifier, as a sequence of characters.
    pub closed spec fn spec_id(&self) -> Seq<char> {
        self.id@
    }

    /// The participant's display name, as a sequence of characters.
    pub closed spec fn spec_name(&self) -> Seq<char> {
        self.name@
    }

    /// Creates a participant from an identifier and a display name.
    pub fn new(id: ParticipantId, name: String) -> (r: Self)
        ensures
            r.spec_id() == id@,
            r.spec_name() == name@,
    {
        Participant { id, name }
    }

    /// The participant's identifier.
    pub fn id(&self) -> (r: &ParticipantId)
        ensures
            r@ == self.spec_id(),
    {
        &self.id
    }

    /// The participant's display name.
    pub fn name(&self) -> (r: &str)
        ensures
            r@ == self.spec_name(),
    {
        self.name.as_str()
    }
}

impl Clone for Participant {
    fn clone(&self) -> (res: Self)
        ensures
            res == *self,
    {
        Participant { id: self.id.clone(), name: self.name.clone() }
    }
}

/// The mathematical abstraction of a [`Session`]: every field as a plain
/// mathematical value.
pub ghost struct SessionAbs {
    pub id: Seq<char>,
    pub name: Seq<char>,
    pub started: u64,
    pub duration_seconds: u64,
    pub members: Seq<Participant>,
    pub topic: Seq<char>,
    pub points: Map<Seq<char>, Option<u32>>,
    pub hide_points: bool,
}

impl SessionAbs {
    /// Whether a participant with identifier `pid` is in the member list.
    pub open spec fn has_member(&self, pid: Seq<char>) -> bool {
        exists|i: int| 0 <= i < self.members.len() && self.members[i].spec_id() == pid
    }
}

/// The shared estimation room: name, duration, participants, topic and votes.
#[derive(Debug)]
pub struct Session {
    pub id: SessionId,
    name: String,
    started: u64,
    duration_seconds: u64,
    members: Vec<Participant>,
    current_topic: String,
    current_points: KeyMap<Option<u32>>,
    hide_points: bool,
}

impl View for Session {
    type V = SessionAbs;

    closed spec fn view(&self) -> SessionAbs {
        SessionAbs {
            id: self.id@,
            name: self.name@,
            started: self.started,
            duration_seconds: self.duration_seconds,
            members: self.members@,
            topic: self.current_topic@,
            points: self.current_points@,
            hide_points: self.hide_points,
        }
    }
}

impl Session {
    /// The vote table's backing store is well-formed.
    pub closed spec fn wf(&self) -> bool {
        self.current_points.wf()
    }

    /// Whether the clock reading `now` still falls within the session's
    /// duration. The elapsed time is clamped at zero if the clock reads
    /// earlier than the session's start.
    pub open spec fn spec_active_at(&self, now: u64) -> bool {
        self.spec_elapsed_at(now) < self@.duration_seconds
    }

    /// Seconds elapsed since the session started, at clock reading `now`.
    pub open spec fn spec_elapsed_at(&self, now: u64) -> int {
        if now >= self@.started {
            now - self@.started
        } else {
            0
        }
    }

    /// Seconds of the session's duration left at clock reading `now`.
    pub open spec fn spec_remaining_at(&self, now: u64) -> int {
        if self.spec_elapsed_at(now) < self@.duration_seconds {
            self@.duration_seconds - self.spec_elapsed_at(now)
        } else {
            0
        }
    }

    /// Creates a session with a fresh identifier, the current wall-clock time
    /// as its start, no participants, no votes, an empty topic and votes
    /// shown.
    pub fn new(name: String, duration_seconds: u64) -> (r: Session)
        ensures
            r.wf(),
            r@.id.len() == 8,
            r@.name == name@,
            r@.duration_seconds == duration_seconds,
            r@.members == Seq::<Participant>::empty(),
            r@.topic == Seq::<char>::empty(),
            r@.points == Map::<Seq<char>, Option<u32>>::empty(),
            r@.hide_points == false,
    {
        let started = now_unix_seconds();
        let id = SessionId::new();
        Session {
            id,
            name,
            started,
            duration_seconds,
            members: Vec::new(),
            current_topic: String::new(),
            current_points: KeyMap::new(),
            hide_points: false,
        }
    }

    /// Assembles a session from explicitly given parts. Vote entries are
    /// bound in order, a later entry for the same participant winning, so
    /// the vote table is well-formed whatever is handed in.
    pub fn from_parts(
        id: SessionId,
        name: String,
        started: u64,
        duration_seconds: u64,
        members: Vec<Participant>,
        current_topic: String,
        points: Vec<(ParticipantId, Option<u32>)>,
        hide_points: bool,
    ) -> (r: Session)
        ensures
            r.wf(),
            r@.id == id@,
            r@.name == name@,
            r@.started == started,
            r@.duration_seconds == duration_seconds,
            r@.members == members@,
            r@.topic == current_topic@,
            r@.points == points_map_of(points@),
            r@.hide_points == hide_points,
    {
        let mut table: KeyMap<Option<u32>> = KeyMap::new();
        let n = points.len();
        let mut i: usize = 0;
        while i < n
            invariant
                table.wf(),
                n == points@.len(),
                0 <= i <= n,
                table@ == points_map_of(points@.take(i as int)),
            decreases n - i,
        {
            let key: String = points[i].0.as_str().to_owned();
            let value = points[i].1;
            table.insert(key, value);
            proof {
                assert(points@.take(i as int + 1).drop_last() == points@.take(i as int));
                assert(points@.take(i as int + 1).last() == points@[i as int]);
            }
            i += 1;
        }
        proof {
            assert(points@.take(n as int) == points@);
        }
        Session {
            id,
            name,
            started,
            duration_seconds,
            members,
            current_topic,
            current_points: table,
            hide_points,
        }
    }

    /// Appends a participant to the member list. Nothing else changes.
    pub fn add_participant(&mut self, participant: Participant)
        requires
            old(self).wf(),
        ensures
            final(self).wf(),
            final(self)@ == (SessionAbs { members: old(self)@.members.push(participant), ..old(self)@ }),
    {
        self.members.push(participant);
    }

    /// Removes every member whose identifier equals `participant_id`.
    /// Removing an identifier that is not in the member list changes nothing;
    /// in particular the member list keeps its length. Recorded votes are not
    /// touched.
    pub fn remove_participant(&mut self, participant_id: &ParticipantId)
        requires
            old(self).wf(),
        ensures
            final(self).wf(),
            final(self)@ == (SessionAbs {
                members: without_member(old(self)@.members, participant_id@),
                ..old(self)@
            }),
            !old(self)@.has_member(participant_id@) ==> final(self)@ == old(self)@,
    {
        let n = self.members.len();
        let mut kept: Vec<Participant> = Vec::new();
        let mut i: usize = 0;
        while i < n
            invariant
                *self == *old(self),
                n == self.members@.len(),
                0 <= i <= n,
                kept@ == without_member(self.members@.take(i as int), participant_id@),
            decreases n - i,
        {
            let keep = !(self.members[i].id == *participant_id);
            if keep {
                let p = self.members[i].clone();
                kept.push(p);
            }
            proof {
                lemma_without_member_step(self.members@, participant_id@, i as int);
                assert(kept@ == without_member(self.members@.take(i as int + 1), participant_id@));
            }
            i += 1;
        }
        proof {
            assert(self.members@.take(n as int) == self.members@);
        }
        self.members = kept;
        proof {
            if !old(self)@.has_member(participant_id@) {
                lemma_without_member_absent(old(self)@.members, participant_id@);
                assert(self@ =~= old(self)@);
            }
        }
    }

    /// Replaces the current topic. Nothing else changes.
    pub fn set_topic(&mut self, topic: String)
        requires
            old(self).wf(),
        ensures
            final(self).wf(),
            final(self)@ == (SessionAbs { topic: topic@, ..old(self)@ }),
    {
        self.current_topic = topic;
    }

    /// Empties the vote table. The hide-votes flag, the member list and
    /// everything else stay as they were.
    pub fn clear_points(&mut self)
        requires
            old(self).wf(),
        ensures
            final(self).wf(),
            final(self)@ == (SessionAbs {
                points: Map::<Seq<char>, Option<u32>>::empty(),
                ..old(self)@
            }),
    {
        self.current_points = KeyMap::new();
    }

    /// Flips the hide-votes flag. Nothing else changes.
    pub fn toggle_hide_points(&mut self)
        requires
            old(self).wf(),
        ensures
            final(self).wf(),
            final(self)@ == (SessionAbs { hide_points: !old(self)@.hide_points, ..old(self)@ }),
    {
        self.hide_points = !self.hide_points;
    }

    /// Records a vote for a participant: `Some(n)` for `n` points, `None` for
    /// an abstention. If the identifier is not in the member list the session
    /// is left unchanged, so the vote table only ever holds identifiers that
    /// were members when their vote was recorded.
    pub fn point(&mut self, participant_id: &ParticipantId, points: Option<u32>)
        requires
            old(self).wf(),
        ensures
            final(self).wf(),
            old(self)@.has_member(participant_id@) ==> final(self)@ == (SessionAbs {
                points: old(self)@.points.insert(participant_id@, points),
                ..old(self)@
            }),
            !old(self)@.has_member(participant_id@) ==> final(self)@ == old(self)@,
    {
        let n = self.members.len();
        let mut i: usize = 0;
        let mut found = false;
        while i < n
            invariant
                *self == *old(self),
                n == self.members@.len(),
                0 <= i <= n,
                found == exists|j: int|
                    0 <= j < i && self.members@[j].spec_id() == participant_id@,
            decreases n - i,
        {
            if self.members[i].id == *participant_id {
                found = true;
            }
            i += 1;
        }
        proof {
            if found {
                let j = choose|j: int|
                    0 <= j < n && self.members@[j].spec_id() == participant_id@;
                assert(old(self)@.members[j].spec_id() == participant_id@);
                assert(old(self)@.has_member(participant_id@));
            }
        }
        if !found {
            return ;
        }
        let key: String = participant_id.as_str().to_owned();
        self.current_points.insert(key, points);
    }

    /// The session's identifier.
    pub fn id(&self) -> (r: &SessionId)
        ensures
            r@ == self@.id,
    {
        &self.id
    }

    /// The ordered member list.
    pub fn participants(&self) -> (r: &Vec<Participant>)
        ensures
            r@ == self@.members,
    {
        &self.members
    }

    /// The current topic.
    pub fn current_topic(&self) -> (r: &String)
        ensures
            r@ == self@.topic,
    {
        &self.current_topic
    }

    /// The vote table, keyed by participant identifier.
    pub fn current_points(&self) -> (r: &KeyMap<Option<u32>>)
        ensures
            r@ == self@.points,
            self.wf() ==> r.wf(),
    {
        &self.current_points
    }

    /// The session's name.
    pub fn name(&self) -> (r: &str)
        ensures
            r@ == self@.name,
    {
        self.name.as_str()
    }

    /// The second of the Unix epoch at which the session started.
    pub fn started(&self) -> (r: u64)
        ensures
            r == self@.started,
    {
        self.started
    }

    /// The session's fixed duration, in seconds.
    pub fn duration(&self) -> (r: u64)
        ensures
            r == self@.duration_seconds,
    {
        self.duration_seconds
    }

    /// Whether votes are currently hidden.
    pub fn hide_points(&self) -> (r: bool)
        ensures
            r == self@.hide_points,
    {
        self.hide_points
    }

    /// Whether the wall clock currently falls within the session's duration.
    /// The exact relation to a clock reading is [`Session::is_active_at`].
    pub fn is_active(&self) -> (r: bool)
        ensures
            exists|now: u64| r == self.spec_active_at(now),
    {
        let now = now_unix_seconds();
        self.is_active_at(now)
    }

    /// Whether the clock reading `now` falls within the session's duration.
    pub fn is_active_at(&self, now: u64) -> (r: bool)
        ensures
            r == self.spec_active_at(now),
    {
        let elapsed = if now >= self.started {
            now - self.started
        } else {
            0
        };
        elapsed < self.duration_seconds
    }

    /// Seconds of the session's duration left at the wall clock's current
    /// reading. The exact relation to a clock reading is
    /// [`Session::remaining_time_at`].
    pub fn remaining_time(&self) -> (r: u64)
        ensures
            exists|now: u64| r == self.spec_remaining_at(now),
    {
        let now = now_unix_seconds();
        self.remaining_time_at(now)
    }

    /// Seconds of the session's duration left at clock reading `now`.
    pub fn remaining_time_at(&self, now: u64) -> (r: u64)
        ensures
            r == self.spec_remaining_at(now),
    {
        let elapsed = if now >= self.started {
            now - self.started
        } else {
            0
        };
        if elapsed < self.duration_seconds {
            self.duration_seconds - elapsed
        } else {
            0
        }
    }
}

impl Clone for Session {
    fn clone(&self) -> (res: Self)
        ensures
            res@ == self@,
            res.wf() == self.wf(),
    {
        let n = self.members.len();
        let mut members: Vec<Participant> = Vec::new();
        let mut i: usize = 0;
        while i < n
            invariant
                n == self.members@.len(),
                0 <= i <= n,
                members@.len() == i,
                forall|j: int| 0 <= j < i ==> members@[j] == self.members@[j],
            decreases n - i,
        {
            let p = self.members[i].clone();
            members.push(p);
            i += 1;
        }
        proof {
            assert(members@ =~= self.members@);
        }
        let res = Session {
            id: self.id.clone(),
            name: self.name.clone(),
            started: self.started,
            duration_seconds: self.duration_seconds,
            members,
            current_topic: self.current_topic.clone(),
            current_points: self.current_points.duplicate(),
            hide_points: self.hide_points,
        };
        res
    }
}

/// The vote table that results from binding the given entries in order: a
/// later entry for the same participant wins.
pub open spec fn points_map_of(entries: Seq<(ParticipantId, Option<u32>)>) -> Map<
    Seq<char>,
    Option<u32>,
>
    decreases entries.len(),
{
    if entries.len() == 0 {
        Map::empty()
    } else {
        points_map_of(entries.drop_last()).insert(entries.last().0@, entries.last().1)
    }
}

/// The member list with every entry whose identifier is `pid` removed.
pub open spec fn without_member(members: Seq<Participant>, pid: Seq<char>) -> Seq<Participant> {
    members.filter(|p: Participant| p.spec_id() != pid)
}

/// How `without_member` grows when one more member is considered.
proof fn lemma_without_member_step(members: Seq<Participant>, pid: Seq<char>, i: int)
    requires
        0 <= i < members.len(),
    ensures
        members[i].spec_id() != pid ==> without_member(members.take(i + 1), pid)
            == without_member(members.take(i), pid).push(members[i]),
        members[i].spec_id() == pid ==> without_member(members.take(i + 1), pid)
            == without_member(members.take(i), pid),
{
    reveal(Seq::filter);
    assert(members.take(i + 1).drop_last() == members.take(i));
    assert(members.take(i + 1).last() == members[i]);
}

/// Removing an identifier that names no member keeps the list as it is.
proof fn lemma_without_member_absent(members: Seq<Participant>, pid: Seq<char>)
    requires
        forall|i: int| 0 <= i < members.len() ==> (#[trigger] members[i]).spec_id() != pid,
    ensures
        without_member(members, pid) == members,
    decreases members.len(),
{
    reveal(Seq::filter);
    if members.len() == 0 {
        assert(without_member(members, pid) =~= members);
    } else {
        lemma_without_member_absent(members.drop_last(), pid);
        assert(members.drop_last().push(members.last()) =~= members);
    }
}

/// Law: flipping the hide-votes flag twice returns the flag — and with it
/// the whole session — to exactly where it started.
pub proof fn lemma_toggle_hide_points_twice(s0: SessionAbs, s1: SessionAbs, s2: SessionAbs)
    requires
        s1 == (SessionAbs { hide_points: !s0.hide_points, ..s0 }),
        s2 == (SessionAbs { hide_points: !s1.hide_points, ..s1 }),
    ensures
        s2 == s0,
{
}

/// Relies on `std::time::SystemTime`: the wall clock's seconds since the Unix
/// epoch, or 0 if the clock reads earlier than the epoch. Nothing is promised
/// of the value.
#[verifier::external_body]
fn now_unix_seconds() -> u64 {
    std::time::UNIX_EPOCH.elapsed().map(|d| d.as_secs()).unwrap_or(0)
}

/// Request to create a session with a name and a duration in seconds.
#[derive(Debug)]
pub struct CreateSession {
    pub name: String,
    pub duration_seconds: u64,
}

/// Request to join a session under a display name.
#[derive(Debug)]
pub struct JoinSession {
    pub session_id: String,
    pub participant_name: String,
}

/// Request to observe a session without joining it.
#[derive(Debug)]
pub struct SubscribeToSession {
    pub session_id: String,
}

/// Reserved request to add a participant to a session.
#[derive(Debug)]
pub struct AddParticipant {
    pub session_id: String,
    pub participant_name: String,
}

/// Request to remove a participant from a session.
#[derive(Debug)]
pub struct RemoveParticipant {
    pub session_id: String,
    pub participant_id: String,
}

/// Request to record a vote: `Some(n)` for `n` points, `None` to abstain.
#[derive(Debug)]
pub struct PointSession {
    pub session_id: String,
    pub participant_id: String,
    pub points: Option<u32>,
}

impl Clone for CreateSession {
    fn clone(&self) -> (res: Self)
        ensures
            res == *self,
    {
        CreateSession { name: self.name.clone(), duration_seconds: self.duration_seconds }
    }
}

impl Clone for JoinSession {
    fn clone(&self) -> (res: Self)
        ensures
            res == *self,
    {
        JoinSession {
            session_id: self.session_id.clone(),
            participant_name: self.participant_name.clone(),
        }
    }
}

impl Clone for SubscribeToSession {
    fn clone(&self) -> (res: Self)
        ensures
            res == *self,
    {
        SubscribeToSession { session_id: self.session_id.clone() }
    }
}

impl Clone for AddParticipant {
    fn clone(&self) -> (res: Self)
        ensures
            res == *self,
    {
        AddParticipant {
            session_id: self.session_id.clone(),
            participant_name: self.participant_name.clone(),
        }
    }
}

impl Clone for RemoveParticipant {
    fn clone(&self) -> (res: Self)
        ensures
            res == *self,
    {
        RemoveParticipant {
            session_id: self.session_id.clone(),
            participant_id: self.participant_id.clone(),
        }
    }
}

impl Clone for PointSession {
    fn clone(&self) -> (res: Self)
        ensures
            res == *self,
    {
        PointSession {
            session_id: self.session_id.clone(),
            participant_id: self.participant_id.clone(),
            points: self.points,
        }
    }
}

/// The messages a connection exchanges for session operations.
/// `SessionUpdate` flows from the server to its clients; the rest flow from a
/// client to the server.
#[derive(Debug)]
pub enum SessionMessage {
    CreateSession(CreateSession),
    JoinSession(JoinSession),
    SubscribeToSession(SubscribeToSession),
    AddParticipant(AddParticipant),
    RemoveParticipant(RemoveParticipant),
    PointSession(PointSession),
    SetTopic(String),
    ClearPoints,
    SessionUpdate(Session),
    ToggleHidePoints,
}

/// The mathematical abstraction of a [`SessionMessage`].
pub ghost enum MessageAbs {
    CreateSession { name: Seq<char>, duration_seconds: u64 },
    JoinSession { session_id: Seq<char>, participant_name: Seq<char> },
    SubscribeToSession { session_id: Seq<char> },
    AddParticipant { session_id: Seq<char>, participant_name: Seq<char> },
    RemoveParticipant { session_id: Seq<char>, participant_id: Seq<char> },
    PointSession { session_id: Seq<char>, participant_id: Seq<char>, points: Option<u32> },
    SetTopic(Seq<char>),
    ClearPoints,
    SessionUpdate(SessionAbs),
    ToggleHidePoints,
}

impl View for SessionMessage {
    type V = MessageAbs;

    open spec fn view(&self) -> MessageAbs {
        match self {
            SessionMessage::CreateSession(c) => MessageAbs::CreateSession {
                name: c.name@,
                duration_seconds: c.duration_seconds,
            },
            SessionMessage::JoinSession(j) => MessageAbs::JoinSession {
                session_id: j.session_id@,
                participant_name: j.participant_name@,
            },
            SessionMessage::SubscribeToSession(s) => MessageAbs::SubscribeToSession {
                session_id: s.session_id@,
            },
            SessionMessage::AddParticipant(a) => MessageAbs::AddParticipant {
                session_id: a.session_id@,
                participant_name: a.participant_name@,
            },
            SessionMessage::RemoveParticipant(r) => MessageAbs::RemoveParticipant {
                session_id: r.session_id@,
                participant_id: r.participant_id@,
            },
            SessionMessage::PointSession(p) => MessageAbs::PointSession {
                session_id: p.session_id@,
                participant_id: p.participant_id@,
                points: p.points,
            },
            SessionMessage::SetTopic(t) => MessageAbs::SetTopic(t@),
            SessionMessage::ClearPoints => MessageAbs::ClearPoints,
            SessionMessage::SessionUpdate(s) => MessageAbs::SessionUpdate(s@),
            SessionMessage::ToggleHidePoints => MessageAbs::ToggleHidePoints,
        }
    }
}

impl SessionMessage {
    /// A carried session snapshot, if any, has a well-formed vote table.
    pub open spec fn wf(&self) -> bool {
        match self {
            SessionMessage::SessionUpdate(s) => s.wf(),
            _ => true,
        }
    }
}

impl Clone for SessionMessage {
    fn clone(&self) -> (res: Self)
        ensures
            res@ == self@,
            res.wf() == self.wf(),
    {
        match self {
            SessionMessage::CreateSession(c) => SessionMessage::CreateSession(c.clone()),
            SessionMessage::JoinSession(j) => SessionMessage::JoinSession(j.clone()),
            SessionMessage::SubscribeToSession(s) => SessionMessage::SubscribeToSession(s.clone()),
            SessionMessage::AddParticipant(a) => SessionMessage::AddParticipant(a.clone()),
            SessionMessage::RemoveParticipant(r) => SessionMessage::RemoveParticipant(r.clone()),
            SessionMessage::PointSession(p) => SessionMessage::PointSession(p.clone()),
            SessionMessage::SetTopic(t) => SessionMessage::SetTopic(t.clone()),
            SessionMessage::ClearPoints => SessionMessage::ClearPoints,
            SessionMessage::SessionUpdate(s) => SessionMessage::SessionUpdate(s.clone()),
            SessionMessage::ToggleHidePoints => SessionMessage::ToggleHidePoints,
        }
    }
}

/// Overall health state of the server.
#[derive(Debug, Clone)]
pub enum HealthStatus {
    Healthy,
    Unhealthy,
    Dead,
}

/// Uptime both as raw seconds and in a human-readable form.
#[derive(Debug, Clone)]
pub struct UptimeInfo {
    pub seconds: i64,
    pub human: String,
}

/// State of the server's services.
#[derive(Debug, Clone)]
pub struct ServiceInfo {
    pub sessions: String,
    pub active_sessions: usize,
}

/// The payload of a health check: status, timestamps, uptime and services.
#[derive(Debug, Clone)]
pub struct HealthResponse {
    pub status: HealthStatus,
    pub timestamp: String,
    pub started_at: String,
    pub uptime: UptimeInfo,
    pub services: ServiceInfo,
}

} // verus!
