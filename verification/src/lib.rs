//! A small library modelling deferred units of work and their retrieval.
//!
//! A deferred computation is described by a script of narration lines and
//! timed suspension points followed by the value it yields; a join
//! collector retrieves the outcomes of submitted units in submission
//! order, treating the first failed unit as fatal.

pub mod collector;
pub mod deferred;
pub mod digits;
pub mod messages;
