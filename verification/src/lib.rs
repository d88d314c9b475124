//! Ascii Wanderer: a player walks over a randomly filled board, and each
//! special symbol stepped on opens a popup. The game's rules and state
//! machines live here; the browser front end drives them.
pub mod gamearea;
pub mod launcher;
pub mod registry;
mod sampling;
