//! What each command does to the status, as functions on `StatusModel`.
use vstd::prelude::*;

use super::engine_enums::{EngineState, PlayerAction, RepeatMode, ShuffleMode};
use super::engine_status::StatusModel;
use super::music::Music;

verus! {

/// The play order `0, 1, .., n - 1`.
pub open spec fn identity_order(n: nat) -> Seq<usize> {
    Seq::new(n, |i: int| i as usize)
}

/// Adding a track: a file that could not be read leaves its message; a read
/// one is appended to the playlist and to the end of the play order. The
/// flag says that playback is to start, because nothing was loaded.
pub open spec fn add_music_step(s: StatusModel, loaded: Result<Music, String>) -> (StatusModel, bool) {
    match loaded {
        Err(e) => (StatusModel { error: Some(e@), ..s }, false),
        Ok(m) => (
            StatusModel {
                playlist: s.playlist.push(m),
                playlist_order: s.playlist_order.push(s.playlist.len() as usize),
                ..s
            },
            s.state == EngineState::Empty,
        ),
    }
}

/// Clearing: the playlist empties, nothing is loaded, the position and the
/// time go back to the start; the play order is left as it is.
pub open spec fn clear_music_step(s: StatusModel) -> StatusModel {
    StatusModel {
        current_track: 0,
        playlist: Seq::empty(),
        state: EngineState::Empty,
        timestamp: None,
        ..s
    }
}

/// Play and pause alternate; without anything loaded nothing happens.
pub open spec fn toggle_reproduction_step(s: StatusModel) -> (StatusModel, Option<PlayerAction>) {
    match s.state {
        EngineState::Empty => (s, None),
        EngineState::Playing => (
            StatusModel { state: EngineState::Paused, ..s },
            Some(PlayerAction::Pause),
        ),
        EngineState::Paused => (
            StatusModel { state: EngineState::Playing, ..s },
            Some(PlayerAction::Play),
        ),
    }
}

/// The repeat modes in turn: off, track, playlist.
pub open spec fn next_repeat(r: RepeatMode) -> RepeatMode {
    match r {
        RepeatMode::Off => RepeatMode::Track,
        RepeatMode::Track => RepeatMode::Playlist,
        RepeatMode::Playlist => RepeatMode::Off,
    }
}

pub open spec fn toggle_repeat_step(s: StatusModel) -> StatusModel {
    StatusModel { repeat: next_repeat(s.repeat), ..s }
}

/// The order with the current position's entry and the first entry swapped.
pub open spec fn swap_to_front(order: Seq<usize>, c: int) -> Seq<usize> {
    order.update(c, order[0]).update(0, order[c])
}

/// Turning shuffle on: the current entry moves to the front and stays
/// current, and the rest of the order is permuted in some way.
pub open spec fn is_shuffle_on_step(s: StatusModel, t: StatusModel) -> bool {
    let swapped = swap_to_front(s.playlist_order, s.current_track as int);
    let n = swapped.len() as int;
    &&& t == StatusModel {
        playlist_order: t.playlist_order,
        current_track: 0,
        shuffle: ShuffleMode::On,
        ..s
    }
    &&& t.playlist_order.len() == n
    &&& t.playlist_order[0] == swapped[0]
    &&& t.playlist_order.subrange(1, n).to_multiset() =~= swapped.subrange(1, n).to_multiset()
}

/// Turning shuffle off: the order becomes the playlist's own and the
/// position moves to where the current track stands in it.
pub open spec fn shuffle_off_step(s: StatusModel) -> StatusModel {
    StatusModel {
        playlist_order: identity_order(s.playlist.len()),
        current_track: s.playlist_order[s.current_track as int],
        shuffle: ShuffleMode::Off,
        ..s
    }
}

/// Starting playback of the current track once its file was loaded, or
/// leaving the message of why it could not be. The flag says that the output
/// is to be cleared, given the new source and started.
pub open spec fn play_music_step(s: StatusModel, loaded: Result<(), String>) -> (StatusModel, bool) {
    match loaded {
        Err(e) => (StatusModel { error: Some(e@), ..s }, false),
        Ok(_) => (StatusModel { state: EngineState::Playing, ..s }, true),
    }
}

/// Skipping forward: nothing while the output is idle or the playlist empty;
/// else to the next position, or from the last back to the first when the
/// whole playlist repeats. The flag says that the new current track is to be
/// played.
pub open spec fn skip_next_step(s: StatusModel, player_empty: bool) -> (StatusModel, bool) {
    if player_empty || s.playlist.len() == 0 {
        (s, false)
    } else if s.current_track < s.playlist.len() - 1 {
        (StatusModel { current_track: (s.current_track + 1) as usize, ..s }, true)
    } else if s.repeat == RepeatMode::Playlist {
        (StatusModel { current_track: 0, ..s }, true)
    } else {
        (s, false)
    }
}

/// Skipping back: the mirror of skipping forward.
pub open spec fn skip_previous_step(s: StatusModel, player_empty: bool) -> (StatusModel, bool) {
    if player_empty || s.playlist.len() == 0 {
        (s, false)
    } else if s.current_track > 0 {
        (StatusModel { current_track: (s.current_track - 1) as usize, ..s }, true)
    } else if s.repeat == RepeatMode::Playlist {
        (StatusModel { current_track: (s.playlist.len() - 1) as usize, ..s }, true)
    } else {
        (s, false)
    }
}

/// Seeking once the file of the position's playlist entry was reloaded:
/// a file that could not be loaded leaves its message and nothing else
/// happens; a failed seek leaves "Failed to seek music". Then the output
/// plays again if it played before, else it stays paused.
pub open spec fn seek_step(s: StatusModel, outcome: Result<bool, String>) -> (StatusModel, Option<PlayerAction>) {
    match outcome {
        Err(e) => (StatusModel { error: Some(e@), ..s }, None),
        Ok(seeked) => (
            if seeked {
                s
            } else {
                StatusModel { error: Some("Failed to seek music"@), ..s }
            },
            Some(
                if s.state == EngineState::Playing {
                    PlayerAction::Play
                } else {
                    PlayerAction::Pause
                },
            ),
        ),
    }
}

/// What happens when the output ran dry while playing: the same track again,
/// the next one (after the last, the first) or, without repeat, the next one
/// until the last, after which playback pauses. The flag says that the new
/// current track is to be played.
pub open spec fn track_finished_step(s: StatusModel, player_empty: bool) -> (StatusModel, bool) {
    if player_empty && s.state == EngineState::Playing {
        match s.repeat {
            RepeatMode::Track => (s, true),
            RepeatMode::Playlist => (
                StatusModel {
                    current_track: ((s.current_track + 1) % (s.playlist.len() as int)) as usize,
                    ..s
                },
                true,
            ),
            RepeatMode::Off => if s.current_track + 1 < s.playlist.len() {
                (StatusModel { current_track: (s.current_track + 1) as usize, ..s }, true)
            } else {
                (StatusModel { state: EngineState::Paused, ..s }, false)
            },
        }
    } else {
        (s, false)
    }
}

/// Two tracks hold the same file, texts, length and cover bytes.
pub open spec fn same_music(a: Music, b: Music) -> bool {
    &&& a.path == b.path
    &&& a.title == b.title
    &&& a.album == b.album
    &&& a.album_artist == b.album_artist
    &&& a.length_millis == b.length_millis
    &&& match (a.cover_bytes, b.cover_bytes) {
        (None, None) => true,
        (Some(x), Some(y)) => x@ == y@,
        _ => false,
    }
}

/// Two statuses agree in every field, their playlists track by track.
pub open spec fn same_status(a: StatusModel, b: StatusModel) -> bool {
    &&& a == StatusModel { playlist: a.playlist, ..b }
    &&& a.playlist.len() == b.playlist.len()
    &&& forall|i: int| 0 <= i < a.playlist.len() ==> same_music(#[trigger] a.playlist[i], b.playlist[i])
}

/// While playing, the position of the output is recorded.
pub open spec fn record_position_step(s: StatusModel, position_millis: u64) -> StatusModel {
    if s.state == EngineState::Playing {
        StatusModel { timestamp: Some(position_millis), ..s }
    } else {
        s
    }
}

} // verus!
