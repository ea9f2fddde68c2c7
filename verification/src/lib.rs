//! The decision logic of a desktop music player: the playlist engine, its
//! commands and status, the metadata that it keeps of each track, and the text
//! that the window shows of the status.

pub mod audio_engine;
pub mod helpers;
