//! The session as contracts see it: a turn and a sequence of players in the
//! order in which they joined. Admission is defined here, on that model, and
//! so is what any number of admissions in a row does to it.

use crate::game::player::{Player, STARTING_COIN};
use vstd::prelude::*;

verus! {

/// What a session holds, as a mathematical value.
#[verifier::ext_equal]
pub struct Session {
    /// The turn counter.
    pub turn: u64,
    /// The players, earliest first.
    pub roster: Seq<Player>,
}

impl Session {
    /// The session after one more player has joined: the newcomer stands
    /// last, everything else is as it was.
    pub open spec fn joined(self) -> Session {
        Session { turn: self.turn, roster: self.roster.push(Player::newcomer()) }
    }

    /// The session after `n` players have joined, one after the other.
    pub open spec fn joined_by(self, n: nat) -> Session
        decreases n,
    {
        if n == 0 {
            self
        } else {
            self.joined_by((n - 1) as nat).joined()
        }
    }

    /// `n` newcomers in a row.
    pub open spec fn newcomers(n: nat) -> Seq<Player> {
        Seq::new(n, |i: int| Player::newcomer())
    }

    /// Admitting `n` players in a row appends `n` newcomers to the roster:
    /// nothing is put in front of or between the players who were there.
    pub proof fn lemma_joined_by_appends(self, n: nat)
        ensures
            self.joined_by(n).roster == self.roster + Session::newcomers(n),
        decreases n,
    {
        if n > 0 {
            self.lemma_joined_by_appends((n - 1) as nat);
        }
    }

    /// After `n` admissions the roster is exactly `n` longer, every player
    /// who was there before still holds the coins they held, and each of the
    /// `n` who joined holds `STARTING_COIN`.
    pub proof fn lemma_joined_by_roster(self, n: nat)
        ensures
            self.joined_by(n).roster.len() == self.roster.len() + n,
            forall|i: int|
                0 <= i < self.roster.len() ==> self.joined_by(n).roster[i].coin
                    == self.roster[i].coin,
            forall|i: int|
                self.roster.len() <= i < self.roster.len() + n ==> self.joined_by(n).roster[i].coin
                    == STARTING_COIN,
    {
        self.lemma_joined_by_appends(n);
    }

    /// However many players are admitted, the turn is what it was.
    pub proof fn lemma_joined_by_keeps_turn(self, n: nat)
        ensures
            self.joined_by(n).turn == self.turn,
        decreases n,
    {
        if n > 0 {
            self.lemma_joined_by_keeps_turn((n - 1) as nat);
        }
    }

    /// Admissions never reorder: whoever was in the roster after `m`
    /// admissions stands at the same place after any `n >= m` of them, so
    /// the earlier roster is the front of the later one.
    pub proof fn lemma_joined_by_keeps_order(self, m: nat, n: nat)
        requires
            m <= n,
        ensures
            self.joined_by(m).roster.is_prefix_of(self.joined_by(n).roster),
            forall|i: int|
                0 <= i < self.joined_by(m).roster.len() ==> self.joined_by(n).roster[i]
                    == self.joined_by(m).roster[i],
    {
        self.lemma_joined_by_appends(m);
        self.lemma_joined_by_appends(n);
    }
}

} // verus!
