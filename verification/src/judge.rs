//! The judge: the state machine that ties sessions, proofs and the hub.
//!
//! Every operation is a step from the judge's state and the caller's input to
//! the next state and an answer, and each has a model among the spec functions
//! below: a `*_fault` function, which names the error, and a `*_next`
//! function, which gives the state that follows. An operation that fails
//! leaves the state as it was.
//!
//! Authorization is explicit. The embedding program authenticates one party,
//! the caller, and names it in the call; the judge decides whether that party
//! is entitled. A session is started by its first player. A move is put to it
//! by either of its players. It is ended by either of its players or by the
//! referee that the judge was set up with.
//!
//! The hub is pinned: a request names the destination that the judge was set
//! up with, and no operation changes it.

use vstd::prelude::*;
use crate::bytes::{bytes_eq, copy_bytes};
use crate::hub::{HubReply, HubRequest, HubRequestView, Outstanding};
use crate::session::{Identity, Session, SessionState, SessionView};
use crate::store::{
    kept_as_is, lifecycle_respected, sessions_wf, Mutation, SessionStore, StoreError,
};
use crate::submission::{
    shape_fault, verify, KeyShape, ProofSubmission, ShapeError, SubmissionView, BINDING_SLOT,
    NEXT_SLOT,
};

verus! {

/// Why the judge refused an operation.
#[derive(Clone, Copy, Debug, PartialEq, Eq, Structural)]
pub enum JudgeError {
    /// The caller is not entitled to the operation.
    Authorization,
    /// No session has this identifier.
    NotFound,
    /// The session was started before, with other terms or past its
    /// registration with the hub.
    AlreadyExists,
    /// The session is not in the state that the operation needs.
    InvalidTransition,
    /// The players are the same party, or a stake is negative.
    InvalidSession,
    /// The submission does not fit the verification key.
    Malformed(ShapeError),
    /// The proof is not bound to the session's last commitment, commits to
    /// nothing new, or does not verify.
    ProofRejected,
    /// The session cannot count one more move.
    MoveLimit,
    /// The reply answers no call that the judge has outstanding.
    NotRequested,
    /// The hub could not be reached.
    HubUnavailable,
    /// The hub refused the call.
    HubRejected,
}

/// The mathematical value of a [`ZKStrategyGame`].
pub ghost struct JudgeView {
    pub sessions: Map<u32, SessionView>,
    pub awaiting: Outstanding,
    pub game_id: Seq<u8>,
    pub hub: Seq<u8>,
    pub referee: Seq<u8>,
    pub key: KeyShape,
}

impl JudgeView {
    /// The invariant of the judge: that of its sessions and of its key.
    pub open spec fn wf(self) -> bool {
        sessions_wf(self.sessions) && self.key.wf()
    }

    /// `self` with the session `s` recorded under `id`.
    pub open spec fn with_session(self, id: u32, s: SessionView) -> JudgeView {
        JudgeView { sessions: self.sessions.insert(id, s), ..self }
    }

    /// `self` with `call` as the call that is outstanding.
    pub open spec fn asking(self, call: Outstanding) -> JudgeView {
        JudgeView { awaiting: call, ..self }
    }
}

/// Why `start_game` fails, if it does. The caller must be the first player;
/// the players must differ and the stakes must not be negative; and the
/// identifier must be free, or belong to a pending session with the same
/// players and stakes, whose registration is then tried again.
pub open spec fn start_fault(
    pre: JudgeView,
    caller: Seq<u8>,
    player1: Seq<u8>,
    player2: Seq<u8>,
    session_id: u32,
    player1_points: i128,
    player2_points: i128,
) -> Option<JudgeError> {
    if caller != player1 {
        Some(JudgeError::Authorization)
    } else if player1 == player2 || player1_points < 0 || player2_points < 0 {
        Some(JudgeError::InvalidSession)
    } else if pre.sessions.contains_key(session_id) && !(pre.sessions[session_id].state
        == SessionState::Pending && pre.sessions[session_id].opened_by(
        player1,
        player2,
        player1_points,
        player2_points,
    )) {
        Some(JudgeError::AlreadyExists)
    } else {
        None
    }
}

/// The judge after `start_game`: where it succeeds the session is recorded as
/// pending and its registration is outstanding.
pub open spec fn start_next(
    pre: JudgeView,
    caller: Seq<u8>,
    player1: Seq<u8>,
    player2: Seq<u8>,
    session_id: u32,
    player1_points: i128,
    player2_points: i128,
) -> JudgeView {
    if start_fault(pre, caller, player1, player2, session_id, player1_points, player2_points)
        is None {
        pre.with_session(
            session_id,
            SessionView::opening(session_id, player1, player2, player1_points, player2_points),
        ).asking(Outstanding::Start(session_id))
    } else {
        pre
    }
}

/// The request that a successful `start_game` hands out.
pub open spec fn start_request(
    pre: JudgeView,
    player1: Seq<u8>,
    player2: Seq<u8>,
    session_id: u32,
    player1_points: i128,
    player2_points: i128,
) -> HubRequestView {
    HubRequestView::StartGame {
        hub: pre.hub,
        game_id: pre.game_id,
        session_id,
        player_a: player1,
        player_b: player2,
        stake_a: player1_points,
        stake_b: player2_points,
    }
}

/// Why `restore` fails, if it does: the identifier is free and the record
/// keeps the invariant of a session.
pub open spec fn restore_fault(pre: JudgeView, s: SessionView) -> Option<JudgeError> {
    if pre.sessions.contains_key(s.id) {
        Some(JudgeError::AlreadyExists)
    } else if !s.wf() {
        Some(JudgeError::InvalidSession)
    } else {
        None
    }
}

/// The judge after `restore`.
pub open spec fn restore_next(pre: JudgeView, s: SessionView) -> JudgeView {
    if restore_fault(pre, s) is None {
        pre.with_session(s.id, s)
    } else {
        pre
    }
}

/// The error that a reply of the hub stands for, if it is one.
pub open spec fn reply_fault(reply: HubReply) -> Option<JudgeError> {
    match reply {
        HubReply::Acknowledged => None,
        HubReply::Unavailable => Some(JudgeError::HubUnavailable),
        HubReply::Rejected => Some(JudgeError::HubRejected),
    }
}

/// Why taking the hub's reply to the call `asked` fails, if it does, in the
/// order of the checks: the session is known; it is in the state `needed`; the
/// call is the one outstanding; the hub has acknowledged.
pub open spec fn confirm_fault(
    pre: JudgeView,
    session_id: u32,
    reply: HubReply,
    needed: SessionState,
    asked: Outstanding,
) -> Option<JudgeError> {
    if !pre.sessions.contains_key(session_id) {
        Some(JudgeError::NotFound)
    } else if pre.sessions[session_id].state != needed {
        Some(JudgeError::InvalidTransition)
    } else if pre.awaiting != asked {
        Some(JudgeError::NotRequested)
    } else {
        reply_fault(reply)
    }
}

/// Why `confirm_start` fails, if it does.
pub open spec fn confirm_start_fault(pre: JudgeView, session_id: u32, reply: HubReply) -> Option<
    JudgeError,
> {
    confirm_fault(pre, session_id, reply, SessionState::Pending, Outstanding::Start(session_id))
}

/// Why `confirm_end` fails, if it does.
pub open spec fn confirm_end_fault(pre: JudgeView, session_id: u32, reply: HubReply) -> Option<
    JudgeError,
> {
    confirm_fault(pre, session_id, reply, SessionState::Active, Outstanding::End(session_id))
}

/// The judge after `confirm_start`: an acknowledged pending session is active,
/// and no call is outstanding.
pub open spec fn confirm_start_next(pre: JudgeView, session_id: u32, reply: HubReply) -> JudgeView {
    if confirm_start_fault(pre, session_id, reply) is None {
        pre.with_session(
            session_id,
            SessionView { state: SessionState::Active, ..pre.sessions[session_id] },
        ).asking(Outstanding::Nothing)
    } else {
        pre
    }
}

/// The judge after `confirm_end`: an acknowledged active session is closed,
/// and no call is outstanding.
pub open spec fn confirm_end_next(pre: JudgeView, session_id: u32, reply: HubReply) -> JudgeView {
    if confirm_end_fault(pre, session_id, reply) is None {
        pre.with_session(
            session_id,
            SessionView { state: SessionState::Closed, ..pre.sessions[session_id] },
        ).asking(Outstanding::Nothing)
    } else {
        pre
    }
}

/// Whether a proof's binding commitment fits a session: it equals the
/// session's last commitment. A session without a commitment yet binds
/// nothing.
pub open spec fn bound_to(last: Option<Seq<u8>>, binding: Seq<u8>) -> bool {
    match last {
        Some(c) => binding == c,
        None => true,
    }
}

/// Why `verify_miss` fails, if it does, in the order of the checks: the
/// session is known; it is active; the caller is one of its players; the
/// submission fits the key; its binding commitment is the session's last one;
/// it commits to something new; the pairing equation holds; the move can be
/// counted.
pub open spec fn move_fault(
    pre: JudgeView,
    caller: Seq<u8>,
    sub: SubmissionView,
    pairing_holds: bool,
) -> Option<JudgeError> {
    if !pre.sessions.contains_key(sub.session_id) {
        Some(JudgeError::NotFound)
    } else if pre.sessions[sub.session_id].state != SessionState::Active {
        Some(JudgeError::InvalidTransition)
    } else if !pre.sessions[sub.session_id].has_player(caller) {
        Some(JudgeError::Authorization)
    } else if let Some(fault) = shape_fault(sub.proof_bytes, sub.public_inputs, pre.key) {
        Some(JudgeError::Malformed(fault))
    } else if !bound_to(
        pre.sessions[sub.session_id].last_commitment,
        sub.public_inputs[BINDING_SLOT as int],
    ) {
        Some(JudgeError::ProofRejected)
    } else if sub.public_inputs[NEXT_SLOT as int] == sub.public_inputs[BINDING_SLOT as int] {
        Some(JudgeError::ProofRejected)
    } else if !pairing_holds {
        Some(JudgeError::ProofRejected)
    } else if pre.sessions[sub.session_id].move_count == u64::MAX {
        Some(JudgeError::MoveLimit)
    } else {
        None
    }
}

/// The session after an accepted move: one more move, and the commitment that
/// the proof carries.
pub open spec fn moved(s: SessionView, sub: SubmissionView) -> SessionView {
    SessionView {
        move_count: (s.move_count + 1) as u64,
        last_commitment: Some(sub.public_inputs[NEXT_SLOT as int]),
        ..s
    }
}

/// The judge after `verify_miss`.
pub open spec fn move_next(
    pre: JudgeView,
    caller: Seq<u8>,
    sub: SubmissionView,
    pairing_holds: bool,
) -> JudgeView {
    if move_fault(pre, caller, sub, pairing_holds) is None {
        pre.with_session(sub.session_id, moved(pre.sessions[sub.session_id], sub))
    } else {
        pre
    }
}

/// Why `end_game` fails, if it does, in the order of the checks: the session
/// is known; it is active; the caller is one of its players or the referee.
pub open spec fn end_fault(pre: JudgeView, caller: Seq<u8>, session_id: u32) -> Option<
    JudgeError,
> {
    if !pre.sessions.contains_key(session_id) {
        Some(JudgeError::NotFound)
    } else if pre.sessions[session_id].state != SessionState::Active {
        Some(JudgeError::InvalidTransition)
    } else if !(pre.sessions[session_id].has_player(caller) || caller == pre.referee) {
        Some(JudgeError::Authorization)
    } else {
        None
    }
}

/// The judge after `end_game`: where it succeeds the report is outstanding.
/// No session changes.
pub open spec fn end_next(pre: JudgeView, caller: Seq<u8>, session_id: u32) -> JudgeView {
    if end_fault(pre, caller, session_id) is None {
        pre.asking(Outstanding::End(session_id))
    } else {
        pre
    }
}

/// The request that a successful `end_game` hands out. The winner is the
/// first player of the session if `player1_won`, else the second.
pub open spec fn end_request(pre: JudgeView, session_id: u32, player1_won: bool) -> HubRequestView {
    HubRequestView::EndGame {
        hub: pre.hub,
        session_id,
        player1_won,
        winner: if player1_won {
            pre.sessions[session_id].player_a
        } else {
            pre.sessions[session_id].player_b
        },
    }
}

/// An answer: the fault where there is one, else `value`.
pub open spec fn fault_or<T>(fault: Option<JudgeError>, value: T) -> Result<T, JudgeError> {
    match fault {
        Some(e) => Err(e),
        None => Ok(value),
    }
}

/// The mathematical value of an answer that carries a request.
pub open spec fn request_view(answer: Result<HubRequest, JudgeError>) -> Result<
    HubRequestView,
    JudgeError,
> {
    match answer {
        Ok(r) => Ok(r@),
        Err(e) => Err(e),
    }
}

/// The judge of one game.
pub struct ZKStrategyGame {
    store: SessionStore,
    awaiting: Outstanding,
    game_id: Identity,
    hub: Identity,
    referee: Identity,
    key: KeyShape,
}

impl View for ZKStrategyGame {
    type V = JudgeView;

    closed spec fn view(&self) -> JudgeView {
        JudgeView {
            sessions: self.store@,
            awaiting: self.awaiting,
            game_id: self.game_id@,
            hub: self.hub@,
            referee: self.referee@,
            key: self.key,
        }
    }
}

impl ZKStrategyGame {
    /// The invariant of the judge.
    pub open spec fn wf(&self) -> bool {
        self@.wf()
    }

    /// A judge without sessions, for the game `game_id`, that reports to `hub`,
    /// accepts `referee` as the one who may end a session besides its players,
    /// and verifies under a key of shape `key`. There is none for a key
    /// without room for the two commitments.
    pub fn new(game_id: Identity, hub: Identity, referee: Identity, key: KeyShape) -> (judge:
        Option<ZKStrategyGame>)
        ensures
            judge is Some <==> key.wf(),
            judge matches Some(j) ==> j.wf() && j@ == (JudgeView {
                sessions: Map::<u32, SessionView>::empty(),
                awaiting: Outstanding::Nothing,
                game_id: game_id@,
                hub: hub@,
                referee: referee@,
                key,
            }),
    {
        if key.input_count > NEXT_SLOT {
            Some(
                ZKStrategyGame {
                    store: SessionStore::new(),
                    awaiting: Outstanding::Nothing,
                    game_id,
                    hub,
                    referee,
                    key,
                },
            )
        } else {
            None
        }
    }

    /// Takes back a session that the judge recorded before and that was kept
    /// on the ledger between two calls, in the state it was kept in. The
    /// sessions that the judge holds are not touched.
    pub fn restore(&mut self, session: Session) -> (answer: Result<(), JudgeError>)
        requires
            old(self).wf(),
        ensures
            final(self).wf(),
            answer == fault_or(restore_fault(old(self)@, session@), ()),
            final(self)@ == restore_next(old(self)@, session@),
            kept_as_is(old(self)@.sessions, final(self)@.sessions),
    {
        match self.store.restore(session) {
            Ok(()) => Ok(()),
            Err(StoreError::AlreadyExists) => Err(JudgeError::AlreadyExists),
            Err(_) => Err(JudgeError::InvalidSession),
        }
    }

    /// A copy of the session `session_id`, or `NotFound`.
    pub fn session(&self, session_id: u32) -> (answer: Result<Session, JudgeError>)
        ensures
            match answer {
                Ok(s) => self@.sessions.contains_key(session_id) && s@
                    == self@.sessions[session_id],
                Err(e) => !self@.sessions.contains_key(session_id) && e == JudgeError::NotFound,
            },
    {
        match self.store.get(session_id) {
            Ok(s) => Ok(s),
            Err(_) => Err(JudgeError::NotFound),
        }
    }

    /// Opens the session `session_id` between `player1` and `player2` and
    /// answers with the registration to deliver to the hub. The session is
    /// pending until [`Self::confirm_start`] is told that the hub has
    /// acknowledged. While it is pending the same call is answered in the
    /// same way, so that a failed registration can be tried again; any other
    /// call on an identifier in use is refused with `AlreadyExists`, changes
    /// nothing and hands out no request.
    pub fn start_game(
        &mut self,
        caller: &Identity,
        player1: Identity,
        player2: Identity,
        session_id: u32,
        player1_points: i128,
        player2_points: i128,
    ) -> (answer: Result<HubRequest, JudgeError>)
        requires
            old(self).wf(),
        ensures
            final(self).wf(),
            request_view(answer) == fault_or(
                start_fault(
                    old(self)@,
                    caller@,
                    player1@,
                    player2@,
                    session_id,
                    player1_points,
                    player2_points,
                ),
                start_request(
                    old(self)@,
                    player1@,
                    player2@,
                    session_id,
                    player1_points,
                    player2_points,
                ),
            ),
            final(self)@ == start_next(
                old(self)@,
                caller@,
                player1@,
                player2@,
                session_id,
                player1_points,
                player2_points,
            ),
            lifecycle_respected(old(self)@.sessions, final(self)@.sessions),
    {
        if !caller.same_as(&player1) {
            return Err(JudgeError::Authorization);
        }
        if player1.same_as(&player2) || player1_points < 0 || player2_points < 0 {
            return Err(JudgeError::InvalidSession);
        }
        match self.store.get(session_id) {
            Ok(existing) => {
                if !(existing.state == SessionState::Pending && existing.opened_by(
                    &player1,
                    &player2,
                    player1_points,
                    player2_points,
                )) {
                    return Err(JudgeError::AlreadyExists);
                }
                assert(old(self)@.sessions.insert(
                    session_id,
                    SessionView::opening(
                        session_id,
                        player1@,
                        player2@,
                        player1_points,
                        player2_points,
                    ),
                ) =~= old(self)@.sessions);
            },
            Err(_) => {
                let created = self.store.create(
                    session_id,
                    player1.duplicate(),
                    player2.duplicate(),
                    player1_points,
                    player2_points,
                );
                if created.is_err() {
                    return Err(JudgeError::AlreadyExists);
                }
            },
        }
        self.awaiting = Outstanding::Start(session_id);
        Ok(
            HubRequest::StartGame {
                hub: self.hub.duplicate(),
                game_id: self.game_id.duplicate(),
                session_id,
                player_a: player1,
                player_b: player2,
                stake_a: player1_points,
                stake_b: player2_points,
            },
        )
    }

    /// Takes the hub's reply to the registration of the pending session
    /// `session_id`, if that registration is the call outstanding. On an
    /// acknowledgment the session becomes active. On any other reply it stays
    /// pending, and the reply comes back as the error.
    pub fn confirm_start(&mut self, session_id: u32, reply: HubReply) -> (answer: Result<
        (),
        JudgeError,
    >)
        requires
            old(self).wf(),
        ensures
            final(self).wf(),
            answer == fault_or(confirm_start_fault(old(self)@, session_id, reply), ()),
            final(self)@ == confirm_start_next(old(self)@, session_id, reply),
            lifecycle_respected(old(self)@.sessions, final(self)@.sessions),
    {
        let session = match self.store.get(session_id) {
            Ok(s) => s,
            Err(_) => {
                return Err(JudgeError::NotFound);
            },
        };
        if session.state != SessionState::Pending {
            return Err(JudgeError::InvalidTransition);
        }
        if self.awaiting != Outstanding::Start(session_id) {
            return Err(JudgeError::NotRequested);
        }
        match reply {
            HubReply::Unavailable => Err(JudgeError::HubUnavailable),
            HubReply::Rejected => Err(JudgeError::HubRejected),
            HubReply::Acknowledged => {
                match self.store.update(session_id, Mutation::Activate) {
                    Ok(_) => {
                        self.awaiting = Outstanding::Nothing;
                        Ok(())
                    },
                    Err(_) => Err(JudgeError::InvalidTransition),
                }
            },
        }
    }

    /// Examines a submission against the session it names. The answer is the
    /// commitment that the move would leave behind.
    fn examine(&self, caller: &Identity, submission: &ProofSubmission, pairing_holds: bool) -> (answer:
        Result<Vec<u8>, JudgeError>)
        requires
            self.wf(),
        ensures
            match answer {
                Ok(next) => move_fault(self@, caller@, submission@, pairing_holds) is None && next@
                    == submission@.public_inputs[NEXT_SLOT as int],
                Err(e) => move_fault(self@, caller@, submission@, pairing_holds) == Some(e),
            },
    {
        let session = match self.store.get(submission.session_id) {
            Ok(s) => s,
            Err(_) => {
                return Err(JudgeError::NotFound);
            },
        };
        if session.state != SessionState::Active {
            return Err(JudgeError::InvalidTransition);
        }
        if !session.has_player(caller) {
            return Err(JudgeError::Authorization);
        }
        let verdict = match verify(
            &submission.proof_bytes,
            &submission.public_inputs,
            &self.key,
            pairing_holds,
        ) {
            Ok(v) => v,
            Err(fault) => {
                return Err(JudgeError::Malformed(fault));
            },
        };
        let binding = &submission.public_inputs[BINDING_SLOT];
        let next = &submission.public_inputs[NEXT_SLOT];
        assert(submission@.public_inputs[BINDING_SLOT as int] == binding@);
        assert(submission@.public_inputs[NEXT_SLOT as int] == next@);
        let bound = match &session.last_commitment {
            Some(c) => bytes_eq(c, binding),
            None => true,
        };
        if !bound || bytes_eq(next, binding) || !verdict.accepted {
            return Err(JudgeError::ProofRejected);
        }
        if session.move_count == u64::MAX {
            return Err(JudgeError::MoveLimit);
        }
        Ok(copy_bytes(next))
    }

    /// Says what [`Self::verify_miss`] would answer if the pairing equation
    /// held, and changes nothing: whoever evaluates the equation learns
    /// beforehand whether the submission can be put to it at all.
    pub fn screen(&self, caller: &Identity, submission: &ProofSubmission) -> (answer: Result<
        (),
        JudgeError,
    >)
        requires
            self.wf(),
        ensures
            answer == fault_or(move_fault(self@, caller@, submission@, true), ()),
    {
        match self.examine(caller, submission, true) {
            Ok(_) => Ok(()),
            Err(e) => Err(e),
        }
    }

    /// Judges a move that `caller`, a player of the active session that the
    /// submission names, puts to it, given
    /// whether the pairing equation holds of the proof and its public inputs
    /// under the verification key. An accepted move is counted and leaves its
    /// new commitment behind; the answer is the number of moves so far. A
    /// submission that does not fit the key is `Malformed`, which is not a
    /// rejected proof. A proof that is not bound to the session's last
    /// commitment, that commits to nothing new or that does not verify is
    /// `ProofRejected`: the session is unchanged and stays open to another
    /// submission.
    pub fn verify_miss(
        &mut self,
        caller: &Identity,
        submission: &ProofSubmission,
        pairing_holds: bool,
    ) -> (answer: Result<u64, JudgeError>)
        requires
            old(self).wf(),
        ensures
            final(self).wf(),
            answer == fault_or(
                move_fault(old(self)@, caller@, submission@, pairing_holds),
                (old(self)@.sessions[submission.session_id].move_count + 1) as u64,
            ),
            final(self)@ == move_next(old(self)@, caller@, submission@, pairing_holds),
            lifecycle_respected(old(self)@.sessions, final(self)@.sessions),
    {
        let next = match self.examine(caller, submission, pairing_holds) {
            Ok(next) => next,
            Err(e) => {
                return Err(e);
            },
        };
        match self.store.update(submission.session_id, Mutation::RecordMove { commitment: next }) {
            Ok(session) => Ok(session.move_count),
            Err(_) => Err(JudgeError::InvalidTransition),
        }
    }

    /// Prepares the end of the active session `session_id` and answers with
    /// the report to deliver to the hub. No session changes yet: the session
    /// is closed by [`Self::confirm_end`] once the hub has acknowledged.
    pub fn end_game(&mut self, caller: &Identity, session_id: u32, player1_won: bool) -> (answer:
        Result<HubRequest, JudgeError>)
        requires
            old(self).wf(),
        ensures
            final(self).wf(),
            request_view(answer) == fault_or(
                end_fault(old(self)@, caller@, session_id),
                end_request(old(self)@, session_id, player1_won),
            ),
            final(self)@ == end_next(old(self)@, caller@, session_id),
            lifecycle_respected(old(self)@.sessions, final(self)@.sessions),
    {
        let session = match self.store.get(session_id) {
            Ok(s) => s,
            Err(_) => {
                return Err(JudgeError::NotFound);
            },
        };
        if session.state != SessionState::Active {
            return Err(JudgeError::InvalidTransition);
        }
        if !(session.has_player(caller) || caller.same_as(&self.referee)) {
            return Err(JudgeError::Authorization);
        }
        let winner = if player1_won {
            session.player_a
        } else {
            session.player_b
        };
        self.awaiting = Outstanding::End(session_id);
        Ok(HubRequest::EndGame { hub: self.hub.duplicate(), session_id, player1_won, winner })
    }

    /// Takes the hub's reply to the report on the active session
    /// `session_id`, if that report is the call outstanding. On an
    /// acknowledgment the session is closed. On any other reply it stays
    /// active, and the reply comes back as the error.
    pub fn confirm_end(&mut self, session_id: u32, reply: HubReply) -> (answer: Result<
        (),
        JudgeError,
    >)
        requires
            old(self).wf(),
        ensures
            final(self).wf(),
            answer == fault_or(confirm_end_fault(old(self)@, session_id, reply), ()),
            final(self)@ == confirm_end_next(old(self)@, session_id, reply),
            lifecycle_respected(old(self)@.sessions, final(self)@.sessions),
    {
        let session = match self.store.get(session_id) {
            Ok(s) => s,
            Err(_) => {
                return Err(JudgeError::NotFound);
            },
        };
        if session.state != SessionState::Active {
            return Err(JudgeError::InvalidTransition);
        }
        if self.awaiting != Outstanding::End(session_id) {
            return Err(JudgeError::NotRequested);
        }
        match reply {
            HubReply::Unavailable => Err(JudgeError::HubUnavailable),
            HubReply::Rejected => Err(JudgeError::HubRejected),
            HubReply::Acknowledged => {
                match self.store.close(session_id) {
                    Ok(()) => {
                        self.awaiting = Outstanding::Nothing;
                        Ok(())
                    },
                    Err(_) => Err(JudgeError::InvalidTransition),
                }
            },
        }
    }
}

} // verus!
