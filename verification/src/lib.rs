//! Tournament state for a live scoreboard: a roster of teams and players, a
//! single-elimination bracket, the match that is being played, and the
//! vocabularies (gamemodes, maps, roles, characters) that they refer to.
//!
//! Everything refers to everything else by position. The crate keeps those
//! positions right while the collections are edited, and keeps the bracket and
//! the round list as long as the settings say.
//!
//! `policy` says what happens to one position under one edit, `store` is the
//! collection that is edited, `corrector` rewrites the positions that the
//! state holds, and `commands` puts the three together: a command edits a
//! collection and corrects every reference into it before it returns.
//! `invariants` says what holds of the state after every command, `edits`
//! proves it, and `audit` checks it at run time.

pub mod error;
pub mod policy;
pub mod store;
pub mod models;
pub mod invariants;
pub mod corrector;
pub mod edits;
pub mod rounds;
pub mod bracket;
pub mod commands;
pub mod audit;
pub mod snapshot;
pub mod forms;
pub mod state;
pub mod text;
pub mod paths;
pub mod web;
