//! A game session and its lifecycle.

use vstd::prelude::*;
use crate::bytes::{bytes_eq, copy_bytes};

verus! {

/// Length in bytes of a commitment, and of every public input of a proof.
pub const WORD_SIZE: usize = 32;

/// A party known to the ledger, held as the bytes of its address.
#[derive(Debug, PartialEq, Eq)]
pub struct Identity {
    pub key: Vec<u8>,
}

impl View for Identity {
    type V = Seq<u8>;

    open spec fn view(&self) -> Seq<u8> {
        self.key@
    }
}

impl Identity {
    /// The identity with the address bytes `key`.
    pub fn new(key: Vec<u8>) -> (id: Identity)
        ensures
            id@ == key@,
    {
        Identity { key }
    }

    /// Whether `self` and `other` name the same party.
    pub fn same_as(&self, other: &Identity) -> (same: bool)
        ensures
            same == (self@ == other@),
    {
        bytes_eq(&self.key, &other.key)
    }

    /// A second handle on the same party.
    pub fn duplicate(&self) -> (id: Identity)
        ensures
            id@ == self@,
    {
        Identity { key: copy_bytes(&self.key) }
    }
}

/// Where a session stands. A session is born `Pending`, becomes `Active` when
/// the hub has acknowledged its start and `Closed` when the hub has
/// acknowledged its result.
#[derive(Clone, Copy, Debug, PartialEq, Eq, Structural)]
pub enum SessionState {
    Pending,
    Active,
    Closed,
}

impl SessionState {
    /// Position of the state in the lifecycle.
    pub open spec fn rank(self) -> nat {
        match self {
            SessionState::Pending => 0,
            SessionState::Active => 1,
            SessionState::Closed => 2,
        }
    }

    /// Whether one operation may take a session from `self` to `next`: it stays
    /// where it is or moves to the state that directly follows.
    pub open spec fn admits(self, next: SessionState) -> bool {
        next == self || next.rank() == self.rank() + 1
    }
}

/// The mathematical value of a [`Session`].
pub ghost struct SessionView {
    pub id: u32,
    pub player_a: Seq<u8>,
    pub player_b: Seq<u8>,
    pub stake_a: i128,
    pub stake_b: i128,
    pub state: SessionState,
    pub move_count: u64,
    pub last_commitment: Option<Seq<u8>>,
}

impl SessionView {
    /// The invariant of a session: two different players, stakes that are not
    /// negative, a commitment of one word where there is one, and neither move
    /// nor commitment before the session is active.
    pub open spec fn wf(self) -> bool {
        &&& self.player_a != self.player_b
        &&& self.stake_a >= 0
        &&& self.stake_b >= 0
        &&& (self.last_commitment matches Some(c) ==> c.len() == WORD_SIZE)
        &&& (self.state == SessionState::Pending ==> self.move_count == 0
            && self.last_commitment is None)
    }

    /// The session as it is first recorded.
    pub open spec fn opening(
        id: u32,
        player_a: Seq<u8>,
        player_b: Seq<u8>,
        stake_a: i128,
        stake_b: i128,
    ) -> SessionView {
        SessionView {
            id,
            player_a,
            player_b,
            stake_a,
            stake_b,
            state: SessionState::Pending,
            move_count: 0,
            last_commitment: None,
        }
    }

    /// Whether `self` was opened by these two players with these stakes.
    pub open spec fn opened_by(
        self,
        player_a: Seq<u8>,
        player_b: Seq<u8>,
        stake_a: i128,
        stake_b: i128,
    ) -> bool {
        &&& self.player_a == player_a
        &&& self.player_b == player_b
        &&& self.stake_a == stake_a
        &&& self.stake_b == stake_b
    }

    /// Whether `who` is one of the two players.
    pub open spec fn has_player(self, who: Seq<u8>) -> bool {
        who == self.player_a || who == self.player_b
    }
}

/// One game between two players, as the judge records it.
#[derive(Debug, PartialEq, Eq)]
pub struct Session {
    pub id: u32,
    pub player_a: Identity,
    pub player_b: Identity,
    pub stake_a: i128,
    pub stake_b: i128,
    pub state: SessionState,
    pub move_count: u64,
    pub last_commitment: Option<Vec<u8>>,
}

impl View for Session {
    type V = SessionView;

    open spec fn view(&self) -> SessionView {
        SessionView {
            id: self.id,
            player_a: self.player_a@,
            player_b: self.player_b@,
            stake_a: self.stake_a,
            stake_b: self.stake_b,
            state: self.state,
            move_count: self.move_count,
            last_commitment: match self.last_commitment {
                Some(c) => Some(c@),
                None => None,
            },
        }
    }
}

impl Session {
    /// A record equal to `self`.
    pub fn duplicate(&self) -> (copy: Session)
        ensures
            copy@ == self@,
    {
        let last_commitment = match &self.last_commitment {
            Some(c) => Some(copy_bytes(c)),
            None => None,
        };
        Session {
            id: self.id,
            player_a: self.player_a.duplicate(),
            player_b: self.player_b.duplicate(),
            stake_a: self.stake_a,
            stake_b: self.stake_b,
            state: self.state,
            move_count: self.move_count,
            last_commitment,
        }
    }

    /// Whether the record keeps the invariant of a session.
    pub fn is_valid(&self) -> (valid: bool)
        ensures
            valid == self@.wf(),
    {
        let sized = match &self.last_commitment {
            Some(c) => c.len() == WORD_SIZE,
            None => true,
        };
        let fresh = self.move_count == 0 && self.last_commitment.is_none();
        !self.player_a.same_as(&self.player_b) && self.stake_a >= 0 && self.stake_b >= 0 && sized
            && (self.state != SessionState::Pending || fresh)
    }

    /// Whether `who` is one of the two players of the session.
    pub fn has_player(&self, who: &Identity) -> (found: bool)
        ensures
            found == self@.has_player(who@),
    {
        who.same_as(&self.player_a) || who.same_as(&self.player_b)
    }

    /// Whether the session was opened by these two players with these stakes.
    pub fn opened_by(
        &self,
        player_a: &Identity,
        player_b: &Identity,
        stake_a: i128,
        stake_b: i128,
    ) -> (same: bool)
        ensures
            same == self@.opened_by(player_a@, player_b@, stake_a, stake_b),
    {
        self.player_a.same_as(player_a) && self.player_b.same_as(player_b) && self.stake_a
            == stake_a && self.stake_b == stake_b
    }
}

} // verus!
