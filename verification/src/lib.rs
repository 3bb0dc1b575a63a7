//! A chord-practice trainer: a session state machine that cycles through a
//! user-selected set of ukulele chords at a configurable interval, plus a
//! renderer that turns a chord name into fretboard diagram primitives.

pub mod chords;
pub mod diagram;
pub mod session;

