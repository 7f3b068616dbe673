//! Core logic of a terminal browser for a map-sharing catalog.
//!
//! The crate holds the verified state machines of the interactive session:
//! the browse screen (search, sort, filter, paging, selection), the detail
//! screen with its difficulty table and leaderboard sub-machine, and the
//! audio-preview control machine.  Network transport, terminal drawing and
//! the audio device live outside the library and hand it plain values.

pub mod browser;
pub mod detail;
pub mod numfmt;
pub mod preview;
pub mod select;
pub mod sort;
pub mod text;
pub mod types;
