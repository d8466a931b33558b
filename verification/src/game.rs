//! The game itself: players, the session that holds them, and what a session
//! is to its contracts.

pub mod master;
pub mod player;
pub mod session;
