use vstd::prelude::*;

use super::session::{Session, SessionState};

verus! {

broadcast use vstd::std_specs::hash::group_hash_axioms;

/// The session a freshly registered agent gets.
pub open spec fn fresh_session(session_id: u64) -> Session {
    Session { session_id, state: SessionState::IDLE }
}

/// `after` is `before` with one more session registered, under `id`.
pub open spec fn is_registration(before: RuntimeState, after: RuntimeState, id: u64) -> bool {
    &&& id == before.last_session_id() + 1
    &&& after.last_session_id() == id
    &&& after.session_map() == before.session_map().insert(id, fresh_session(id))
    &&& after.started_at() == before.started_at()
}

/// A session is found again, under the id its registration returned, and it
/// carries that id.
pub proof fn lemma_registered_session_is_retrievable(
    before: RuntimeState,
    after: RuntimeState,
    id: u64,
)
    requires
        is_registration(before, after, id),
    ensures
        after.session_map().contains_key(id),
        after.session_map()[id].session_id == id,
        after.session_map()[id].state == SessionState::IDLE,
{
}

/// In a well-formed state a registration never replaces a session: the new
/// id was unused, every earlier session stays as it was, and there is one
/// session more.
pub proof fn lemma_registration_keeps_existing_sessions(
    before: RuntimeState,
    after: RuntimeState,
    id: u64,
)
    requires
        before.well_formed(),
        is_registration(before, after, id),
    ensures
        !before.session_map().contains_key(id),
        forall|k: u64| #[trigger]
            before.session_map().contains_key(k) ==> after.session_map().contains_key(k)
                && after.session_map()[k] == before.session_map()[k],
        after.session_map().len() == before.session_map().len() + 1,
        after.well_formed(),
{
    assert(before.session_map().dom().finite());
}

/// Successive registrations hand out strictly increasing, hence distinct, ids.
pub proof fn lemma_registration_ids_increase(
    s0: RuntimeState,
    s1: RuntimeState,
    s2: RuntimeState,
    first: u64,
    second: u64,
)
    requires
        is_registration(s0, s1, first),
        is_registration(s1, s2, second),
    ensures
        first < second,
        second == first + 1,
{
}

/// The sessions an orchestrator knows of, and the counter that numbers them.
pub struct RuntimeState {
    pub sessions: std::collections::HashMap<u64, Session>,
    current_session_id: u64,
    start_time: std::time::Instant,
}

impl RuntimeState {
    /// The last session id handed out (0 before the first registration).
    pub closed spec fn last_session_id(&self) -> u64 {
        self.current_session_id
    }

    /// The registered sessions, by id.
    pub closed spec fn session_map(&self) -> Map<u64, Session> {
        self.sessions@
    }

    pub closed spec fn started_at(&self) -> std::time::Instant {
        self.start_time
    }

    /// Every stored session is filed under its own id, and no id above the
    /// counter has been handed out yet.
    pub open spec fn well_formed(&self) -> bool {
        forall|id: u64| #[trigger]
            self.session_map().contains_key(id) ==> self.session_map()[id].session_id == id && id
                <= self.last_session_id()
    }

    pub fn new(start_time: std::time::Instant) -> (state: Self)
        ensures
            state.session_map() == Map::<u64, Session>::empty(),
            state.last_session_id() == 0,
            state.started_at() == start_time,
            state.well_formed(),
    {
        RuntimeState {
            sessions: std::collections::HashMap::new(),
            current_session_id: 0,
            start_time,
        }
    }

    /// Exec view of the session counter, so that callers can check that a
    /// further id can be issued.
    pub fn last_issued_session_id(&self) -> (id: u64)
        ensures
            id == self.last_session_id(),
    {
        self.current_session_id
    }

    /// The registered sessions, by id.
    pub fn session_table(&self) -> (table: &std::collections::HashMap<u64, Session>)
        ensures
            table@ == self.session_map(),
    {
        &self.sessions
    }

    /// The instant this state was created with.
    pub fn start_time(&self) -> (t: std::time::Instant)
        ensures
            t == self.started_at(),
    {
        self.start_time
    }

    /// Issues the next session id: one more than the last one.
    pub fn generate_session_id(&mut self) -> (id: u64)
        requires
            old(self).last_session_id() < u64::MAX,
        ensures
            id == old(self).last_session_id() + 1,
            final(self).last_session_id() == id,
            final(self).session_map() == old(self).session_map(),
            final(self).started_at() == old(self).started_at(),
    {
        self.current_session_id = self.current_session_id + 1;
        self.current_session_id
    }

    /// Registers a new idle session under a fresh id and returns that id.
    pub fn register_session(&mut self) -> (result: Result<u64, ()>)
        requires
            old(self).last_session_id() < u64::MAX,
        ensures
            result == Ok::<u64, ()>((old(self).last_session_id() + 1) as u64),
            is_registration(*old(self), *final(self), (old(self).last_session_id() + 1) as u64),
            old(self).well_formed() ==> final(self).well_formed(),
    {
        let session_id = self.generate_session_id();
        let session = Session { session_id, state: SessionState::IDLE };
        self.sessions.insert(session_id, session);
        Ok(session_id)
    }

    /// The session registered under `session_id`, if any.
    pub fn obtain_session(&self, session_id: &u64) -> (found: Option<&Session>)
        ensures
            match found {
                Some(session) => self.session_map().contains_key(*session_id) && *session
                    == self.session_map()[*session_id],
                None => !self.session_map().contains_key(*session_id),
            },
    {
        self.sessions.get(session_id)
    }
}

} // verus!
