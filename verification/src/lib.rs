//! Matchmaking and turn keeping for two-seat game sessions.
//!
//! A [`handlers::Sessions`] registry owns every session. Three operations
//! change it: joining (a seat is claimed, a session is created when no open
//! seat exists), moving (a mark is placed after the seat and the turn were
//! checked) and leaving (a seat is released, and the session is removed with
//! its last occupant). Each of them takes the registry by exclusive reference,
//! so a caller that keeps the registry behind a lock runs them one at a time.
//!
//! Boards are plain data here. Which player has won is decided by the game
//! engine of the caller, handed to the move operation as a function.

pub mod board;
pub mod handlers;
pub mod ident;
pub mod laws;
pub mod session;
