//! What holds of the judge across operations, proved from the models that the
//! operations' contracts are stated with.

use vstd::prelude::*;
use crate::hub::{HubReply, Outstanding};
use crate::judge::{
    confirm_end_fault, confirm_end_next, confirm_start_fault, confirm_start_next, end_fault,
    end_next, move_fault, move_next, restore_next, start_fault, start_next, JudgeError, JudgeView,
};
use crate::session::{SessionState, SessionView};
use crate::store::lifecycle_respected;
use crate::submission::SubmissionView;

verus! {

/// One step of the lifecycle goes forward by at most one state: never back,
/// never out of `Closed`, never from `Pending` to `Closed`.
pub proof fn lemma_lifecycle_step(from: SessionState, to: SessionState)
    requires
        from.admits(to),
    ensures
        from.rank() <= to.rank() <= from.rank() + 1,
        from == SessionState::Closed ==> to == SessionState::Closed,
        !(from == SessionState::Pending && to == SessionState::Closed),
        to == SessionState::Closed ==> from == SessionState::Active || from
            == SessionState::Closed,
{
}

/// Over two operations in a row no session is lost, none goes back in the
/// lifecycle, and one that was closed at the start is the same at the end.
/// Every operation of the store and of the judge respects the lifecycle, so
/// the same holds over any number of them.
pub proof fn lemma_lifecycle_never_backward(
    first: Map<u32, SessionView>,
    second: Map<u32, SessionView>,
    third: Map<u32, SessionView>,
    id: u32,
)
    requires
        lifecycle_respected(first, second),
        lifecycle_respected(second, third),
        first.contains_key(id),
    ensures
        third.contains_key(id),
        first[id].state.rank() <= second[id].state.rank() <= third[id].state.rank(),
        third[id].id == first[id].id,
        third[id].opened_by(
            first[id].player_a,
            first[id].player_b,
            first[id].stake_a,
            first[id].stake_b,
        ),
        first[id].state == SessionState::Closed ==> third[id] == first[id],
        third[id].state == SessionState::Active ==> first[id].state != SessionState::Closed,
{
    assert(second.contains_key(id));
}

/// Whether two judges are set up alike: for the same game, with the same hub,
/// referee and key.
pub open spec fn same_setup(a: JudgeView, b: JudgeView) -> bool {
    &&& a.game_id == b.game_id
    &&& a.hub == b.hub
    &&& a.referee == b.referee
    &&& a.key == b.key
}

/// No operation redirects the judge: whatever the caller hands in, the judge
/// goes on reporting to the hub it was set up with, for the same game, with
/// the same referee and key.
pub proof fn lemma_setup_is_pinned(
    pre: JudgeView,
    caller: Seq<u8>,
    player1: Seq<u8>,
    player2: Seq<u8>,
    session_id: u32,
    player1_points: i128,
    player2_points: i128,
    reply: HubReply,
    sub: SubmissionView,
    pairing_holds: bool,
    kept: SessionView,
)
    ensures
        same_setup(
            pre,
            start_next(pre, caller, player1, player2, session_id, player1_points, player2_points),
        ),
        same_setup(pre, confirm_start_next(pre, session_id, reply)),
        same_setup(pre, move_next(pre, caller, sub, pairing_holds)),
        same_setup(pre, end_next(pre, caller, session_id)),
        same_setup(pre, confirm_end_next(pre, session_id, reply)),
        same_setup(pre, restore_next(pre, kept)),
{
}

/// A move on a session that is not active fails with `InvalidTransition`,
/// whatever the proof, and leaves the judge as it was: the move count too.
pub proof fn lemma_move_needs_active_session(
    pre: JudgeView,
    caller: Seq<u8>,
    sub: SubmissionView,
    pairing_holds: bool,
)
    requires
        pre.sessions.contains_key(sub.session_id),
        pre.sessions[sub.session_id].state != SessionState::Active,
    ensures
        move_fault(pre, caller, sub, pairing_holds) == Some(JudgeError::InvalidTransition),
        move_next(pre, caller, sub, pairing_holds) == pre,
{
}

/// A submission that was accepted is rejected when its player submits it
/// again, whether or not its proof verifies: its binding commitment is no
/// longer the session's last one. From anyone else it fails too. The second
/// attempt changes nothing.
pub proof fn lemma_accepted_proof_is_not_replayed(
    pre: JudgeView,
    caller: Seq<u8>,
    anyone: Seq<u8>,
    sub: SubmissionView,
    first_pairing: bool,
    second_pairing: bool,
)
    requires
        move_fault(pre, caller, sub, first_pairing) is None,
    ensures
        move_fault(move_next(pre, caller, sub, first_pairing), caller, sub, second_pairing)
            == Some(JudgeError::ProofRejected),
        move_fault(move_next(pre, caller, sub, first_pairing), anyone, sub, second_pairing)
            is Some,
        move_next(move_next(pre, caller, sub, first_pairing), anyone, sub, second_pairing)
            == move_next(pre, caller, sub, first_pairing),
{
}

/// Once a session was started and the hub has acknowledged it, every further
/// start under its identifier fails, by whomever and on whatever terms, and
/// leaves the judge as it was: no stake is recorded twice and no second
/// registration is handed out. The first player's repeated call fails with
/// `AlreadyExists`.
pub proof fn lemma_started_session_is_not_started_again(
    pre: JudgeView,
    caller: Seq<u8>,
    player1: Seq<u8>,
    player2: Seq<u8>,
    session_id: u32,
    player1_points: i128,
    player2_points: i128,
    later_caller: Seq<u8>,
    later_player1: Seq<u8>,
    later_player2: Seq<u8>,
    later_player1_points: i128,
    later_player2_points: i128,
)
    requires
        start_fault(pre, caller, player1, player2, session_id, player1_points, player2_points)
            is None,
    ensures
        ({
            let pending = start_next(
                pre,
                caller,
                player1,
                player2,
                session_id,
                player1_points,
                player2_points,
            );
            let active = confirm_start_next(pending, session_id, HubReply::Acknowledged);
            &&& confirm_start_fault(pending, session_id, HubReply::Acknowledged) is None
            &&& active.sessions[session_id].state == SessionState::Active
            &&& start_fault(
                active,
                later_caller,
                later_player1,
                later_player2,
                session_id,
                later_player1_points,
                later_player2_points,
            ) is Some
            &&& start_next(
                active,
                later_caller,
                later_player1,
                later_player2,
                session_id,
                later_player1_points,
                later_player2_points,
            ) == active
            &&& start_fault(
                active,
                caller,
                player1,
                player2,
                session_id,
                player1_points,
                player2_points,
            ) == Some(JudgeError::AlreadyExists)
        }),
{
}

/// A session is closed only on the hub's acknowledgment of a report that an
/// entitled caller has asked for: without `end_game` before it, `confirm_end`
/// fails on a judge with no call outstanding; after it, an acknowledgment
/// closes the session, and any other reply leaves it active, to be tried
/// again.
pub proof fn lemma_end_needs_request_and_acknowledgment(
    pre: JudgeView,
    caller: Seq<u8>,
    session_id: u32,
    reply: HubReply,
)
    requires
        end_fault(pre, caller, session_id) is None,
    ensures
        ({
            let asked = end_next(pre, caller, session_id);
            let answered = confirm_end_next(asked, session_id, reply);
            &&& confirm_end_fault(pre.asking(Outstanding::Nothing), session_id, reply)
                is Some
            &&& asked.sessions == pre.sessions
            &&& reply == HubReply::Acknowledged ==> confirm_end_fault(asked, session_id, reply)
                is None && answered.sessions[session_id].state == SessionState::Closed
            &&& reply != HubReply::Acknowledged ==> answered == asked
                && answered.sessions[session_id].state == SessionState::Active && end_fault(
                answered,
                caller,
                session_id,
            ) is None
        }),
{
}

/// While the hub has not acknowledged a start, the session stays pending and
/// the same call is answered as before: the registration can be tried again.
pub proof fn lemma_unacknowledged_start_can_be_retried(
    pre: JudgeView,
    caller: Seq<u8>,
    player1: Seq<u8>,
    player2: Seq<u8>,
    session_id: u32,
    player1_points: i128,
    player2_points: i128,
    reply: HubReply,
)
    requires
        start_fault(pre, caller, player1, player2, session_id, player1_points, player2_points)
            is None,
        reply != HubReply::Acknowledged,
    ensures
        ({
            let pending = start_next(
                pre,
                caller,
                player1,
                player2,
                session_id,
                player1_points,
                player2_points,
            );
            let still = confirm_start_next(pending, session_id, reply);
            &&& still == pending
            &&& still.sessions[session_id].state == SessionState::Pending
            &&& start_fault(
                still,
                caller,
                player1,
                player2,
                session_id,
                player1_points,
                player2_points,
            ) is None
        }),
{
}

} // verus!
