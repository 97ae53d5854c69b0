//! What the judge asks of the arbitration hub, and what the hub answers.
//!
//! The hub is a remote service with its own authority. The judge does not
//! reach it: an operation that needs the hub answers with a [`HubRequest`],
//! the embedding program delivers it to the destination that the request
//! names, and hands the [`HubReply`] to the matching `confirm` operation. The
//! judge takes a reply only to the call that it handed out last.

use vstd::prelude::*;
use crate::session::Identity;

verus! {

/// A call to be made to the hub.
#[derive(Debug, PartialEq, Eq)]
pub enum HubRequest {
    /// Register a session and the stakes of its two players.
    StartGame {
        hub: Identity,
        game_id: Identity,
        session_id: u32,
        player_a: Identity,
        player_b: Identity,
        stake_a: i128,
        stake_b: i128,
    },
    /// Report the result of a session.
    EndGame { hub: Identity, session_id: u32, player1_won: bool, winner: Identity },
}

/// The mathematical value of a [`HubRequest`].
pub ghost enum HubRequestView {
    StartGame {
        hub: Seq<u8>,
        game_id: Seq<u8>,
        session_id: u32,
        player_a: Seq<u8>,
        player_b: Seq<u8>,
        stake_a: i128,
        stake_b: i128,
    },
    EndGame { hub: Seq<u8>, session_id: u32, player1_won: bool, winner: Seq<u8> },
}

impl View for HubRequest {
    type V = HubRequestView;

    open spec fn view(&self) -> HubRequestView {
        match self {
            HubRequest::StartGame {
                hub,
                game_id,
                session_id,
                player_a,
                player_b,
                stake_a,
                stake_b,
            } => HubRequestView::StartGame {
                hub: hub@,
                game_id: game_id@,
                session_id: *session_id,
                player_a: player_a@,
                player_b: player_b@,
                stake_a: *stake_a,
                stake_b: *stake_b,
            },
            HubRequest::EndGame { hub, session_id, player1_won, winner } => HubRequestView::EndGame {
                hub: hub@,
                session_id: *session_id,
                player1_won: *player1_won,
                winner: winner@,
            },
        }
    }
}

/// The call to the hub that the judge has handed out last and not yet seen
/// acknowledged.
#[derive(Clone, Copy, Debug, PartialEq, Eq, Structural)]
pub enum Outstanding {
    /// No call is outstanding.
    Nothing,
    /// The registration of this session.
    Start(u32),
    /// The report on the end of this session.
    End(u32),
}

/// How a call to the hub ended.
#[derive(Clone, Copy, Debug, PartialEq, Eq, Structural)]
pub enum HubReply {
    /// The hub has taken the call.
    Acknowledged,
    /// The hub could not be reached.
    Unavailable,
    /// The hub refused the call.
    Rejected,
}

} // verus!
