//! Core of a quiz-show ("Jeopardy"-style) game session: a question board,
//! a player registry with running scores, an identity cache mapping client
//! addresses to display names, an active-player selector, and the grading
//! engine that records attempts and mutates scores.

pub mod board;
pub mod identity;
pub mod laws;
pub mod name;
pub mod render;
pub mod session;
pub mod text;
