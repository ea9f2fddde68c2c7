use vstd::prelude::*;

use super::engine_enums::{EngineState, RepeatMode, ShuffleMode};
use super::music::Music;

verus! {

/// Everything that the engine reports to the window.
///
/// `playlist_order` lists playlist indices in the order of play and
/// `current_track` is a position in that order; `timestamp` is the play
/// position in milliseconds.
#[derive(Clone, Debug)]
pub struct EngineStatus {
    pub timestamp: Option<u64>,
    pub state: EngineState,
    pub current_track: usize,
    pub playlist: Vec<Music>,
    pub playlist_order: Vec<usize>,
    pub repeat: RepeatMode,
    pub shuffle: ShuffleMode,
    pub error: Option<String>,
}

/// The mathematical picture of an `EngineStatus`: its vectors as sequences.
#[verifier::ext_equal]
pub struct StatusModel {
    pub timestamp: Option<u64>,
    pub state: EngineState,
    pub current_track: usize,
    pub playlist: Seq<Music>,
    pub playlist_order: Seq<usize>,
    pub repeat: RepeatMode,
    pub shuffle: ShuffleMode,
    pub error: Option<Seq<char>>,
}

impl View for EngineStatus {
    type V = StatusModel;

    open spec fn view(&self) -> StatusModel {
        StatusModel {
            timestamp: self.timestamp,
            state: self.state,
            current_track: self.current_track,
            playlist: self.playlist@,
            playlist_order: self.playlist_order@,
            repeat: self.repeat,
            shuffle: self.shuffle,
            error: match self.error {
                Some(e) => Some(e@),
                None => None,
            },
        }
    }
}

/// `order` lists each of the indices `0..n` exactly once.
pub open spec fn is_index_permutation(order: Seq<usize>, n: int) -> bool {
    &&& order.len() == n
    &&& forall|i: int| 0 <= i < order.len() ==> #[trigger] order[i] < n
    &&& forall|k: usize| k < n ==> #[trigger] order.contains(k)
}

/// The play order `0, 1, .., n - 1`.
pub open spec fn is_identity_order(order: Seq<usize>) -> bool {
    forall|i: int| 0 <= i < order.len() ==> #[trigger] order[i] == i
}

impl StatusModel {
    /// The status of an engine that holds nothing yet.
    pub open spec fn initial() -> StatusModel {
        StatusModel {
            timestamp: None,
            state: EngineState::Empty,
            current_track: 0,
            playlist: Seq::empty(),
            playlist_order: Seq::empty(),
            repeat: RepeatMode::Off,
            shuffle: ShuffleMode::Off,
            error: None,
        }
    }

    /// The playlist fits in memory, the play order is a permutation of the playlist, the current position
    /// lies in it, a loaded state has something to play, and without shuffle
    /// the order is the playlist's own.
    pub open spec fn well_formed(self) -> bool {
        &&& self.playlist.len() <= usize::MAX
        &&& is_index_permutation(self.playlist_order, self.playlist.len() as int)
        &&& (self.playlist.len() > 0 ==> self.current_track < self.playlist.len())
        &&& (self.playlist.len() == 0 ==> self.current_track == 0)
        &&& (self.state != EngineState::Empty ==> self.playlist.len() > 0)
        &&& (self.shuffle == ShuffleMode::Off ==> is_identity_order(self.playlist_order))
    }

    /// The position in the play order can be read, and names a track.
    pub open spec fn can_play(self) -> bool {
        &&& self.current_track < self.playlist_order.len()
        &&& self.playlist_order[self.current_track as int] < self.playlist.len()
    }

    /// The playlist index of the current track.
    pub open spec fn playing_index(self) -> int {
        self.playlist_order[self.current_track as int] as int
    }
}

impl EngineStatus {
    /// An empty status: nothing queued, repeat and shuffle off.
    pub fn new() -> (status: EngineStatus)
        ensures
            status@ == StatusModel::initial(),
            status@.well_formed(),
    {
        let playlist: Vec<Music> = Vec::new();
        let playlist_order: Vec<usize> = Vec::new();
        EngineStatus {
            timestamp: None,
            state: EngineState::Empty,
            current_track: 0,
            playlist,
            playlist_order,
            repeat: RepeatMode::Off,
            shuffle: ShuffleMode::Off,
            error: None,
        }
    }
}

} // verus!
