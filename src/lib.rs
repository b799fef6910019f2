//! Looks up the meanings of a word in a WordNet-style lexical database and
//! formats them for display.
//!
//! The library chooses the query text for a lookup (`query`) and turns the
//! rows that the query returns into the printed lines (`render`, `samples`).
//! Running the query and printing are left to the caller. Output lines are
//! never wrapped: a long definition or sample stays on one line.
use vstd::prelude::*;

pub mod laws;
pub mod query;
pub mod render;
pub mod samples;
