use vstd::prelude::*;

verus! {

/// A request that the user interface sends to the engine.
///
/// Paths are carried as text; a seek position is in milliseconds.
#[derive(Debug)]
pub enum PlayerCommands {
    Add(String),
    AddFolder(String),
    Clear,
    ToggleReproduction,
    ToggleRepeat,
    ToggleShuffle,
    SkipNext,
    SkipPrevious,
    Seek(u64),
}

/// Whether anything is loaded, and whether it plays.
#[derive(Clone, Copy, Debug, PartialEq, Eq, Structural)]
pub enum EngineState {
    Empty,
    Paused,
    Playing,
}

/// What happens when a track ends.
#[derive(Clone, Copy, Debug, PartialEq, Eq, Structural)]
pub enum RepeatMode {
    Off,
    Track,
    Playlist,
}

/// Whether the play order is shuffled.
#[derive(Clone, Copy, Debug, PartialEq, Eq, Structural)]
pub enum ShuffleMode {
    Off,
    On,
}

/// What the engine asks of the audio output after a decision.
#[derive(Clone, Copy, Debug, PartialEq, Eq, Structural)]
pub enum PlayerAction {
    Play,
    Pause,
}

} // verus!
