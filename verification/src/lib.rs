//! A Mafia game engine: explicit game flow, deterministic state transitions,
//! and command-driven interaction. Every rule the host relies on is enforced
//! by the engine and stated in the contracts of its functions.
pub mod action;
pub mod actions;
pub mod app;
pub mod commands;
pub mod domain;
pub mod engine;
mod text;
mod seqs;
pub mod table;
mod random;
pub mod reducer;
pub mod snapshot;
