//! A game session: a turn counter and the roster of players who have joined.

pub mod game;
