//! Core of a terminal thesaurus: a word lookup pipeline with a
//! spelling-suggestion fallback, dictionary entry data with a uniform
//! message representation for failures, wraparound selection lists, and
//! the session state machine that keeps the cascading lists consistent.

pub mod app;
pub mod client;
pub mod data;
pub mod list;
