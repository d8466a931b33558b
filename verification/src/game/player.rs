//! A player as the session's roster holds one.

use vstd::prelude::*;

verus! {

/// The balance every player is given on joining a session.
pub const STARTING_COIN: u64 = 10;

/// A roster entry: one player and the coins they hold.
#[derive(Clone, Copy, Debug, PartialEq, Eq)]
pub struct Player {
    pub coin: u64,
}

impl Player {
    /// The player that an admission adds to a roster.
    pub open spec fn newcomer() -> Player {
        Player { coin: STARTING_COIN }
    }
}

} // verus!
