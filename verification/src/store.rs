//! The record of the sessions in flight, keyed by session identifier.
//!
//! The store owns every [`Session`]: callers get copies and change a session
//! only through [`SessionStore::update`] and [`SessionStore::close`], which
//! keep the lifecycle. Its mathematical value is a map from identifiers to
//! [`SessionView`]s, and every contract below is stated over that map.

use std::collections::HashMap;
use vstd::prelude::*;
use vstd::std_specs::hash::*;
use crate::session::{Identity, Session, SessionState, SessionView, WORD_SIZE};

verus! {

broadcast use vstd::std_specs::hash::group_hash_axioms;

/// Why the store refused an operation.
#[derive(Clone, Copy, Debug, PartialEq, Eq, Structural)]
pub enum StoreError {
    /// A session with this identifier is already recorded.
    AlreadyExists,
    /// No session with this identifier is recorded.
    NotFound,
    /// The session is not in the state that the operation needs.
    InvalidTransition,
    /// The session was closed before.
    AlreadyClosed,
    /// The data would break the invariant of a session.
    InvalidSession,
    /// The move counter cannot count one more move.
    MoveLimit,
}

/// A change that [`SessionStore::update`] can make to a session.
#[derive(Debug, PartialEq, Eq)]
pub enum Mutation {
    /// The hub has acknowledged the start: the session becomes active.
    Activate,
    /// A move was accepted: it is counted and leaves `commitment` behind.
    RecordMove { commitment: Vec<u8> },
}

/// The mathematical value of a [`Mutation`].
pub ghost enum MutationView {
    Activate,
    RecordMove { commitment: Seq<u8> },
}

impl View for Mutation {
    type V = MutationView;

    open spec fn view(&self) -> MutationView {
        match self {
            Mutation::Activate => MutationView::Activate,
            Mutation::RecordMove { commitment } => MutationView::RecordMove {
                commitment: commitment@,
            },
        }
    }
}

/// The session that a mutation makes of `s`, or the reason why it makes none.
/// Nothing changes a closed session; only a pending one is activated; only an
/// active one records a move, of one word, while the counter has room.
pub open spec fn mutated(s: SessionView, m: MutationView) -> Result<SessionView, StoreError> {
    match m {
        MutationView::Activate => if s.state == SessionState::Pending {
            Ok(SessionView { state: SessionState::Active, ..s })
        } else {
            Err(StoreError::InvalidTransition)
        },
        MutationView::RecordMove { commitment } => if s.state != SessionState::Active {
            Err(StoreError::InvalidTransition)
        } else if commitment.len() != WORD_SIZE {
            Err(StoreError::InvalidSession)
        } else if s.move_count == u64::MAX {
            Err(StoreError::MoveLimit)
        } else {
            Ok(
                SessionView {
                    move_count: (s.move_count + 1) as u64,
                    last_commitment: Some(commitment),
                    ..s
                },
            )
        },
    }
}

/// The session that closing makes of `s`, or the reason why it makes none:
/// only an active session is closed.
pub open spec fn closed(s: SessionView) -> Result<SessionView, StoreError> {
    match s.state {
        SessionState::Closed => Err(StoreError::AlreadyClosed),
        SessionState::Pending => Err(StoreError::InvalidTransition),
        SessionState::Active => Ok(SessionView { state: SessionState::Closed, ..s }),
    }
}

/// What `create` answers on the store `m`.
pub open spec fn create_outcome(
    m: Map<u32, SessionView>,
    id: u32,
    player_a: Seq<u8>,
    player_b: Seq<u8>,
    stake_a: i128,
    stake_b: i128,
) -> Result<SessionView, StoreError> {
    if m.contains_key(id) {
        Err(StoreError::AlreadyExists)
    } else if player_a == player_b || stake_a < 0 || stake_b < 0 {
        Err(StoreError::InvalidSession)
    } else {
        Ok(SessionView::opening(id, player_a, player_b, stake_a, stake_b))
    }
}

/// What `get` answers on the store `m`.
pub open spec fn get_outcome(m: Map<u32, SessionView>, id: u32) -> Result<
    SessionView,
    StoreError,
> {
    if m.contains_key(id) {
        Ok(m[id])
    } else {
        Err(StoreError::NotFound)
    }
}

/// What `update` answers on the store `m`.
pub open spec fn update_outcome(m: Map<u32, SessionView>, id: u32, change: MutationView) -> Result<
    SessionView,
    StoreError,
> {
    if m.contains_key(id) {
        mutated(m[id], change)
    } else {
        Err(StoreError::NotFound)
    }
}

/// What `close` decides on the store `m`.
pub open spec fn close_outcome(m: Map<u32, SessionView>, id: u32) -> Result<
    SessionView,
    StoreError,
> {
    if m.contains_key(id) {
        closed(m[id])
    } else {
        Err(StoreError::NotFound)
    }
}

/// What `restore` decides on the store `m`.
pub open spec fn restore_outcome(m: Map<u32, SessionView>, s: SessionView) -> Result<
    SessionView,
    StoreError,
> {
    if m.contains_key(s.id) {
        Err(StoreError::AlreadyExists)
    } else if !s.wf() {
        Err(StoreError::InvalidSession)
    } else {
        Ok(s)
    }
}

/// The store after an operation on session `id` that ended in `outcome`: the
/// new session is recorded under `id`; after an error nothing has changed.
pub open spec fn after(
    m: Map<u32, SessionView>,
    id: u32,
    outcome: Result<SessionView, StoreError>,
) -> Map<u32, SessionView> {
    match outcome {
        Ok(s) => m.insert(id, s),
        Err(_) => m,
    }
}

/// The mathematical value of an answer that carries a session.
pub open spec fn answer_view(answer: Result<Session, StoreError>) -> Result<
    SessionView,
    StoreError,
> {
    match answer {
        Ok(s) => Ok(s@),
        Err(e) => Err(e),
    }
}

/// Every session of the map is recorded under its own identifier and keeps
/// the invariant of a session.
pub open spec fn sessions_wf(m: Map<u32, SessionView>) -> bool {
    forall|id: u32| #[trigger] m.contains_key(id) ==> m[id].id == id && m[id].wf()
}

/// The lifecycle rule between the store before an operation and after it. No
/// session is dropped. Each keeps its identifier, players and stakes, and
/// stays in its state or moves to the next one: never back, and not from
/// pending to closed. A closed session is left as it is. A session that was
/// not there before is pending.
pub open spec fn lifecycle_respected(pre: Map<u32, SessionView>, post: Map<u32, SessionView>) -> bool {
    &&& forall|id: u32| #[trigger]
        pre.contains_key(id) ==> {
            &&& post.contains_key(id)
            &&& pre[id].state.admits(post[id].state)
            &&& post[id].id == pre[id].id
            &&& post[id].opened_by(
                pre[id].player_a,
                pre[id].player_b,
                pre[id].stake_a,
                pre[id].stake_b,
            )
            &&& pre[id].state == SessionState::Closed ==> post[id] == pre[id]
        }
    &&& forall|id: u32|
        !pre.contains_key(id) && #[trigger] post.contains_key(id) ==> post[id].state
            == SessionState::Pending
}

/// Every session of `pre` is in `post` as it was.
pub open spec fn kept_as_is(pre: Map<u32, SessionView>, post: Map<u32, SessionView>) -> bool {
    forall|id: u32| #[trigger] pre.contains_key(id) ==> post.contains_key(id) && post[id] == pre[id]
}

/// Applies a mutation to a session.
pub fn mutate(session: Session, change: Mutation) -> (answer: Result<Session, StoreError>)
    ensures
        answer_view(answer) == mutated(session@, change@),
{
    match change {
        Mutation::Activate => {
            if session.state == SessionState::Pending {
                let mut next = session;
                next.state = SessionState::Active;
                Ok(next)
            } else {
                Err(StoreError::InvalidTransition)
            }
        },
        Mutation::RecordMove { commitment } => {
            if session.state != SessionState::Active {
                Err(StoreError::InvalidTransition)
            } else if commitment.len() != WORD_SIZE {
                Err(StoreError::InvalidSession)
            } else if session.move_count == u64::MAX {
                Err(StoreError::MoveLimit)
            } else {
                let mut next = session;
                next.move_count = next.move_count + 1;
                next.last_commitment = Some(commitment);
                Ok(next)
            }
        },
    }
}

/// The sessions in flight.
pub struct SessionStore {
    sessions: HashMap<u32, Session>,
}

impl View for SessionStore {
    type V = Map<u32, SessionView>;

    closed spec fn view(&self) -> Map<u32, SessionView> {
        Map::new(|id: u32| self.sessions@.contains_key(id), |id: u32| self.sessions@[id]@)
    }
}

impl SessionStore {
    /// The invariant of the store: that of its sessions.
    pub open spec fn wf(&self) -> bool {
        sessions_wf(self@)
    }

    /// A store without sessions.
    pub fn new() -> (store: SessionStore)
        ensures
            store@ == Map::<u32, SessionView>::empty(),
            store.wf(),
    {
        let store = SessionStore { sessions: HashMap::new() };
        assert(store@ =~= Map::<u32, SessionView>::empty());
        store
    }

    /// Whether a session is recorded under `id`.
    pub fn contains(&self, id: u32) -> (found: bool)
        ensures
            found == self@.contains_key(id),
    {
        self.sessions.contains_key(&id)
    }

    /// Records a new, pending session under `id` and answers with a copy of it.
    /// An identifier that is taken is refused with `AlreadyExists`, so that a
    /// second start cannot overwrite the stakes; then equal players or a
    /// negative stake with `InvalidSession`.
    pub fn create(
        &mut self,
        id: u32,
        player_a: Identity,
        player_b: Identity,
        stake_a: i128,
        stake_b: i128,
    ) -> (answer: Result<Session, StoreError>)
        requires
            old(self).wf(),
        ensures
            final(self).wf(),
            answer_view(answer) == create_outcome(
                old(self)@,
                id,
                player_a@,
                player_b@,
                stake_a,
                stake_b,
            ),
            final(self)@ == after(old(self)@, id, answer_view(answer)),
            lifecycle_respected(old(self)@, final(self)@),
    {
        if self.sessions.contains_key(&id) {
            return Err(StoreError::AlreadyExists);
        }
        if player_a.same_as(&player_b) || stake_a < 0 || stake_b < 0 {
            return Err(StoreError::InvalidSession);
        }
        let session = Session {
            id,
            player_a,
            player_b,
            stake_a,
            stake_b,
            state: SessionState::Pending,
            move_count: 0,
            last_commitment: None,
        };
        let copy = session.duplicate();
        self.sessions.insert(id, session);
        assert(final(self)@ =~= old(self)@.insert(id, copy@));
        Ok(copy)
    }

    /// Takes back a session that was recorded before and kept elsewhere, in
    /// the state it was kept in. An identifier that is taken is refused with
    /// `AlreadyExists`, a record that breaks the invariant of a session with
    /// `InvalidSession`. The sessions that the store holds are not touched.
    pub fn restore(&mut self, session: Session) -> (answer: Result<(), StoreError>)
        requires
            old(self).wf(),
        ensures
            final(self).wf(),
            match answer {
                Ok(()) => restore_outcome(old(self)@, session@) is Ok,
                Err(e) => restore_outcome(old(self)@, session@) == Err::<SessionView, StoreError>(
                    e,
                ),
            },
            final(self)@ == after(old(self)@, session.id, restore_outcome(old(self)@, session@)),
            kept_as_is(old(self)@, final(self)@),
    {
        if self.sessions.contains_key(&session.id) {
            return Err(StoreError::AlreadyExists);
        }
        if !session.is_valid() {
            return Err(StoreError::InvalidSession);
        }
        let ghost target = session@;
        self.sessions.insert(session.id, session);
        assert(final(self)@ =~= old(self)@.insert(target.id, target));
        Ok(())
    }

    /// A copy of the session recorded under `id`, or `NotFound`.
    pub fn get(&self, id: u32) -> (answer: Result<Session, StoreError>)
        ensures
            answer_view(answer) == get_outcome(self@, id),
    {
        match self.sessions.get(&id) {
            Some(session) => Ok(session.duplicate()),
            None => Err(StoreError::NotFound),
        }
    }

    /// Applies `change` to the session recorded under `id` and answers with a
    /// copy of the new session. An unknown identifier is `NotFound`; a change
    /// that the session's state does not allow, as any change to a closed
    /// session, is `InvalidTransition`. After an error nothing has changed.
    pub fn update(&mut self, id: u32, change: Mutation) -> (answer: Result<Session, StoreError>)
        requires
            old(self).wf(),
        ensures
            final(self).wf(),
            answer_view(answer) == update_outcome(old(self)@, id, change@),
            final(self)@ == after(old(self)@, id, answer_view(answer)),
            lifecycle_respected(old(self)@, final(self)@),
    {
        let current = match self.sessions.get(&id) {
            Some(session) => session.duplicate(),
            None => {
                return Err(StoreError::NotFound);
            },
        };
        match mutate(current, change) {
            Err(e) => Err(e),
            Ok(next) => {
                let copy = next.duplicate();
                self.sessions.insert(id, next);
                assert(final(self)@ =~= old(self)@.insert(id, copy@));
                Ok(copy)
            },
        }
    }

    /// Closes the session recorded under `id`. An unknown identifier is
    /// `NotFound`, a closed session `AlreadyClosed`, a pending one
    /// `InvalidTransition`. After an error nothing has changed.
    pub fn close(&mut self, id: u32) -> (answer: Result<(), StoreError>)
        requires
            old(self).wf(),
        ensures
            final(self).wf(),
            match answer {
                Ok(()) => close_outcome(old(self)@, id) is Ok,
                Err(e) => close_outcome(old(self)@, id) == Err::<SessionView, StoreError>(e),
            },
            final(self)@ == after(old(self)@, id, close_outcome(old(self)@, id)),
            lifecycle_respected(old(self)@, final(self)@),
    {
        let mut next = match self.sessions.get(&id) {
            Some(session) => session.duplicate(),
            None => {
                return Err(StoreError::NotFound);
            },
        };
        match next.state {
            SessionState::Closed => Err(StoreError::AlreadyClosed),
            SessionState::Pending => Err(StoreError::InvalidTransition),
            SessionState::Active => {
                next.state = SessionState::Closed;
                let ghost target = next@;
                self.sessions.insert(id, next);
                assert(final(self)@ =~= old(self)@.insert(id, target));
                Ok(())
            },
        }
    }
}

} // verus!
