//! The session: it owns the turn counter and the roster, and admits players.

use crate::game::player::{Player, STARTING_COIN};
use crate::game::session::Session;
use vstd::prelude::*;

verus! {

/// A game session. The roster keeps the order in which players joined, and
/// nothing here ever takes a player out of it.
pub struct Master {
    turn: u64,
    players: Vec<Player>,
}

impl View for Master {
    type V = Session;

    closed spec fn view(&self) -> Session {
        Session { turn: self.turn, roster: self.players@ }
    }
}

impl Master {
    /// A session at the given turn whose roster is `players`, in that order.
    pub fn new(turn: u64, players: Vec<Player>) -> (master: Master)
        ensures
            master@.turn == turn,
            master@.roster == players@,
    {
        Master { turn, players }
    }

    /// Admits one player, who starts with `STARTING_COIN` coins and stands
    /// last in the roster. The turn and the players already there stay as
    /// they were.
    pub fn add_player(&mut self)
        ensures
            final(self)@ == old(self)@.joined(),
            final(self)@.turn == old(self)@.turn,
            final(self)@.roster.len() == old(self)@.roster.len() + 1,
            final(self)@.roster.last().coin == STARTING_COIN,
            forall|i: int|
                0 <= i < old(self)@.roster.len() ==> final(self)@.roster[i] == old(self)@.roster[i],
    {
        let new_player = Player { coin: STARTING_COIN };
        self.players.push(new_player);
    }

    /// The turn counter.
    pub fn turn(&self) -> (turn: u64)
        ensures
            turn == self@.turn,
    {
        self.turn
    }

    /// The roster, earliest player first.
    pub fn players(&self) -> (players: &[Player])
        ensures
            players@ == self@.roster,
    {
        self.players.as_slice()
    }
}

} // verus!
