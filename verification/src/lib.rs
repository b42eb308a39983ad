//! Chord lookup and timed playback: music theory on note letters, a command
//! grammar, the chord tables, and the timed event dispatcher ("the
//! sequencer") that delivers playback messages in deadline order.

pub mod chord_library;
pub mod database;
pub mod music_theory;
pub mod parser;
pub mod pitch;
pub mod repl;
pub mod sequencer;
pub mod text;
