use vstd::prelude::*;

verus! {

/// The first command set of the engine, before folders, shuffle, skipping
/// and seeking; paths are carried as text.
#[derive(Debug)]
pub enum PlayerCommands {
    Add(String),
    Clear,
    Load(String),
    ToggleReproduction,
    ToggleRepeat,
}

#[derive(Clone, Copy, Debug, PartialEq, Eq, Structural)]
pub enum EngineState {
    Empty,
    Paused,
    Playing,
}

#[derive(Clone, Copy, Debug, PartialEq, Eq, Structural)]
pub enum RepeatMode {
    Off,
    Track,
    Playlist,
}

} // verus!
