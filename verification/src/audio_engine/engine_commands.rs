use vstd::prelude::*;

use rand::seq::SliceRandom;

use super::engine_enums::{EngineState, PlayerAction, RepeatMode, ShuffleMode};
use super::engine_status::{EngineStatus, StatusModel};
use super::laws::{
    lemma_add_music_keeps_well_formed, lemma_clear_keeps_well_formed,
    lemma_shuffle_off_keeps_current, lemma_shuffle_off_keeps_well_formed,
    lemma_shuffle_on_keeps_current, lemma_shuffle_on_keeps_well_formed,
    lemma_skip_next_keeps_well_formed, lemma_skip_previous_keeps_well_formed,
    lemma_track_finished_keeps_well_formed,
};
use super::music::Music;
use super::steps::{
    add_music_step, clear_music_step, identity_order, is_shuffle_on_step, play_music_step,
    record_position_step, same_music, same_status, seek_step, shuffle_off_step, skip_next_step, skip_previous_step,
    swap_to_front, toggle_repeat_step, toggle_reproduction_step, track_finished_step,
};
use super::AudioEngine;

verus! {

/// `rand::rngs::ThreadRng`, the thread-local random generator.
#[verifier::external_type_specification]
#[verifier::external_body]
pub struct ExThreadRng(rand::rngs::ThreadRng);

/// `rand::rng`: a handle on the thread-local generator. Nothing is stated of
/// it.
#[verifier::external_body]
fn thread_rng() -> (rng: rand::rngs::ThreadRng) {
    rand::rng()
}

/// Shuffles the entries with `rand`'s `SliceRandom::shuffle`. The crate's
/// documentation promises a permutation; which one is left to chance, so the
/// contract says only that the entries are the same as before.
#[verifier::external_body]
fn shuffle_entries(entries: &mut Vec<usize>, rng: &mut rand::rngs::ThreadRng)
    ensures
        final(entries)@.len() == old(entries)@.len(),
        final(entries)@.to_multiset() =~= old(entries)@.to_multiset(),
{
    entries.shuffle(rng);
}

/// The number of a character after ASCII letters are turned to lower case.
pub open spec fn ascii_lower_code(c: char) -> u32 {
    if 'A' <= c && c <= 'Z' {
        (c as u32 + 32) as u32
    } else {
        c as u32
    }
}

/// Two texts are equal once ASCII letters are turned to lower case.
pub open spec fn equal_ignoring_ascii_case(a: Seq<char>, b: Seq<char>) -> bool {
    &&& a.len() == b.len()
    &&& forall|i: int| 0 <= i < a.len() ==> ascii_lower_code(#[trigger] a[i]) == ascii_lower_code(b[i])
}

/// The file extensions that the player takes as music.
pub open spec fn supported_extensions() -> Seq<Seq<char>> {
    seq![
        seq!['o', 'p', 'u', 's'],
        seq!['m', 'p', '3'],
        seq!['f', 'l', 'a', 'c'],
        seq!['w', 'a', 'v'],
        seq!['o', 'g', 'g'],
        seq!['m', '4', 'a'],
    ]
}

/// The extension is one of the supported ones, in any ASCII case.
pub open spec fn is_supported_extension(ext: Seq<char>) -> bool {
    exists|i: int|
        0 <= i < supported_extensions().len() && equal_ignoring_ascii_case(
            #[trigger] supported_extensions()[i],
            ext,
        )
}

fn ascii_lower(c: char) -> (code: u32)
    ensures
        code == ascii_lower_code(c),
{
    if 'A' <= c && c <= 'Z' {
        c as u32 + 32
    } else {
        c as u32
    }
}

fn eq_ignore_ascii_case(a: &str, b: &str) -> (equal: bool)
    ensures
        equal == equal_ignoring_ascii_case(a@, b@),
{
    let n = a.unicode_len();
    if n != b.unicode_len() {
        return false;
    }
    let mut i: usize = 0;
    while i < n
        invariant
            n == a@.len(),
            n == b@.len(),
            i <= n,
            forall|j: int| 0 <= j < i ==> ascii_lower_code(#[trigger] a@[j]) == ascii_lower_code(b@[j]),
        decreases n - i,
    {
        if ascii_lower(a.get_char(i)) != ascii_lower(b.get_char(i)) {
            return false;
        }
        i = i + 1;
    }
    true
}

/// Whether a file with this extension is taken as music: the extension is
/// one of opus, mp3, flac, wav, ogg and m4a, in any ASCII case. A file
/// without an extension is not.
pub fn is_music_file(extension: Option<&str>) -> (music: bool)
    ensures
        music == match extension {
            Some(ext) => is_supported_extension(ext@),
            None => false,
        },
{
    match extension {
        None => false,
        Some(ext) => {
            proof {
                reveal_strlit("opus");
                reveal_strlit("mp3");
                reveal_strlit("flac");
                reveal_strlit("wav");
                reveal_strlit("ogg");
                reveal_strlit("m4a");
                assert("opus"@ == supported_extensions()[0]);
                assert("mp3"@ == supported_extensions()[1]);
                assert("flac"@ == supported_extensions()[2]);
                assert("wav"@ == supported_extensions()[3]);
                assert("ogg"@ == supported_extensions()[4]);
                assert("m4a"@ == supported_extensions()[5]);
            }
            eq_ignore_ascii_case("opus", ext) || eq_ignore_ascii_case("mp3", ext)
                || eq_ignore_ascii_case("flac", ext) || eq_ignore_ascii_case("wav", ext)
                || eq_ignore_ascii_case("ogg", ext) || eq_ignore_ascii_case("m4a", ext)
        },
    }
}

/// The play order `0, 1, .., n - 1`.
fn identity_vec(n: usize) -> (order: Vec<usize>)
    ensures
        order@ == identity_order(n as nat),
{
    let mut order: Vec<usize> = Vec::new();
    let mut i: usize = 0;
    while i < n
        invariant
            i <= n,
            order@ == identity_order(i as nat),
        decreases n - i,
    {
        order.push(i);
        i = i + 1;
    }
    order
}

fn copy_bytes(bytes: &Vec<u8>) -> (copy: Vec<u8>)
    ensures
        copy@ == bytes@,
{
    let mut copy: Vec<u8> = Vec::new();
    let mut i: usize = 0;
    while i < bytes.len()
        invariant
            i <= bytes@.len(),
            copy@ == bytes@.take(i as int),
        decreases bytes@.len() - i,
    {
        copy.push(bytes[i]);
        i = i + 1;
        proof {
            assert(copy@ =~= bytes@.take(i as int));
        }
    }
    proof {
        assert(bytes@.take(bytes@.len() as int) =~= bytes@);
    }
    copy
}

fn copy_indices(indices: &Vec<usize>) -> (copy: Vec<usize>)
    ensures
        copy@ == indices@,
{
    let mut copy: Vec<usize> = Vec::new();
    let mut i: usize = 0;
    while i < indices.len()
        invariant
            i <= indices@.len(),
            copy@ == indices@.take(i as int),
        decreases indices@.len() - i,
    {
        copy.push(indices[i]);
        i = i + 1;
        proof {
            assert(copy@ =~= indices@.take(i as int));
        }
    }
    proof {
        assert(indices@.take(indices@.len() as int) =~= indices@);
    }
    copy
}

fn copy_music(m: &Music) -> (copy: Music)
    ensures
        same_music(copy, *m),
{
    let cover_bytes = match &m.cover_bytes {
        Some(bytes) => Some(copy_bytes(bytes)),
        None => None,
    };
    Music {
        path: m.path.clone(),
        title: m.title.clone(),
        album: m.album.clone(),
        album_artist: m.album_artist.clone(),
        length_millis: m.length_millis,
        cover_bytes,
    }
}

fn copy_status(status: &EngineStatus) -> (copy: EngineStatus)
    ensures
        same_status(copy@, status@),
{
    let mut playlist: Vec<Music> = Vec::new();
    let mut i: usize = 0;
    while i < status.playlist.len()
        invariant
            i <= status.playlist@.len(),
            playlist@.len() == i,
            forall|j: int| 0 <= j < i ==> same_music(#[trigger] playlist@[j], status.playlist@[j]),
        decreases status.playlist@.len() - i,
    {
        playlist.push(copy_music(&status.playlist[i]));
        i = i + 1;
    }
    let error = match &status.error {
        Some(e) => Some(e.clone()),
        None => None,
    };
    EngineStatus {
        timestamp: status.timestamp,
        state: status.state,
        current_track: status.current_track,
        playlist,
        playlist_order: copy_indices(&status.playlist_order),
        repeat: status.repeat,
        shuffle: status.shuffle,
        error,
    }
}

impl AudioEngine {
    /// Adds a track whose file was read, or records why it could not be read.
    /// Returns whether playback is to start.
    pub fn add_music(&mut self, loaded: Result<Music, String>) -> (start_playing: bool)
        ensures
            (final(self)@, start_playing) == add_music_step(old(self)@, loaded),
            old(self)@.well_formed() ==> final(self)@.well_formed(),
            start_playing && old(self)@.well_formed() ==> final(self)@.can_play(),
    {
        let ghost s = self@;
        let result = match loaded {
            Err(e) => {
                self.status.error = Some(e);
                false
            },
            Ok(m) => {
                self.status.playlist.push(m);
                let playlist_len = self.status.playlist.len();
                self.status.playlist_order.push(playlist_len - 1);
                match self.status.state {
                    EngineState::Empty => true,
                    _ => false,
                }
            },
        };
        proof {
            assert(self@ == add_music_step(s, loaded).0);
            if s.well_formed() {
                lemma_add_music_keeps_well_formed(s, loaded);
            }
        }
        result
    }

    /// Empties the playlist and unloads; the caller clears the output.
    pub fn clear_music(&mut self)
        ensures
            final(self)@ == clear_music_step(old(self)@),
            old(self)@.well_formed() && old(self)@.playlist.len() == 0
                ==> final(self)@.well_formed(),
    {
        let ghost s = self@;
        self.status.current_track = 0;
        self.status.playlist.clear();
        self.status.state = EngineState::Empty;
        self.status.timestamp = None;
        proof {
            assert(self@ == clear_music_step(s));
            if s.well_formed() && s.playlist.len() == 0 {
                lemma_clear_keeps_well_formed(s);
            }
        }
    }

    /// Switches between playing and paused; returns what the output is to do.
    pub fn toggle_reproduction(&mut self) -> (action: Option<PlayerAction>)
        ensures
            (final(self)@, action) == toggle_reproduction_step(old(self)@),
            old(self)@.well_formed() ==> final(self)@.well_formed(),
    {
        match self.status.state {
            EngineState::Empty => None,
            EngineState::Playing => {
                self.status.state = EngineState::Paused;
                Some(PlayerAction::Pause)
            },
            EngineState::Paused => {
                self.status.state = EngineState::Playing;
                Some(PlayerAction::Play)
            },
        }
    }

    /// Moves to the next repeat mode.
    pub fn toggle_repeat(&mut self)
        ensures
            final(self)@ == toggle_repeat_step(old(self)@),
            old(self)@.well_formed() ==> final(self)@.well_formed(),
    {
        match self.status.repeat {
            RepeatMode::Off => self.status.repeat = RepeatMode::Track,
            RepeatMode::Track => self.status.repeat = RepeatMode::Playlist,
            RepeatMode::Playlist => self.status.repeat = RepeatMode::Off,
        }
    }

    /// Turns shuffle on (the current track goes first and the rest is
    /// shuffled) or off (the playlist's own order comes back). Either way
    /// the current track stays the same.
    pub fn toggle_shuffle(&mut self)
        requires
            old(self)@.current_track < old(self)@.playlist_order.len(),
        ensures
            old(self)@.shuffle == ShuffleMode::Off ==> is_shuffle_on_step(old(self)@, final(self)@),
            old(self)@.shuffle == ShuffleMode::On ==> final(self)@ == shuffle_off_step(old(self)@),
            old(self)@.well_formed() ==> final(self)@.well_formed(),
            old(self)@.can_play() ==> final(self)@.can_play() && final(self)@.playing_index()
                == old(self)@.playing_index(),
    {
        let ghost s = self@;
        match self.status.shuffle {
            ShuffleMode::Off => {
                let current_track = self.status.current_track;
                let moved = self.status.playlist_order[current_track];
                let first = self.status.playlist_order[0];
                self.status.playlist_order.set(current_track, first);
                self.status.playlist_order.set(0, moved);
                proof {
                    assert(self.status.playlist_order@ == swap_to_front(
                        s.playlist_order,
                        s.current_track as int,
                    ));
                }
                let mut rng = thread_rng();
                let ghost swapped = self.status.playlist_order@;
                let front = self.status.playlist_order.remove(0);
                proof {
                    assert(self.status.playlist_order@ =~= swapped.subrange(1, swapped.len() as int));
                }
                let ghost rest = self.status.playlist_order@;
                shuffle_entries(&mut self.status.playlist_order, &mut rng);
                let ghost shuffled = self.status.playlist_order@;
                self.status.playlist_order.insert(0, front);
                proof {
                    let order = self.status.playlist_order@;
                    assert(order.subrange(1, order.len() as int) =~= shuffled);
                    assert(order[0] == swapped[0]);
                }
                self.status.current_track = 0;
                self.status.shuffle = ShuffleMode::On;
                proof {
                    assert(is_shuffle_on_step(s, self@));
                    lemma_shuffle_on_keeps_well_formed(s, self@);
                    lemma_shuffle_on_keeps_current(s, self@);
                }
            },
            ShuffleMode::On => {
                let current_track = self.status.current_track;
                let current_index = self.status.playlist_order[current_track];
                let n = self.status.playlist.len();
                self.status.playlist_order = identity_vec(n);
                self.status.current_track = current_index;
                self.status.shuffle = ShuffleMode::Off;
                proof {
                    assert(self@ == shuffle_off_step(s));
                    lemma_shuffle_off_keeps_well_formed(s);
                    lemma_shuffle_off_keeps_current(s);
                }
            },
        }
    }

    /// The file of the current track, which the caller loads before
    /// `play_music`.
    pub fn music_to_play(&self) -> (path: &String)
        requires
            self@.can_play(),
        ensures
            *path == self@.playlist[self@.playing_index()].path,
    {
        let index = self.status.current_track;
        let music_index = self.status.playlist_order[index];
        &self.status.playlist[music_index].path
    }

    /// Records the outcome of loading the current track's file. Returns
    /// whether the output is to be cleared, given the loaded source and
    /// started.
    pub fn play_music(&mut self, loaded: Result<(), String>) -> (started: bool)
        requires
            old(self)@.can_play(),
        ensures
            (final(self)@, started) == play_music_step(old(self)@, loaded),
            old(self)@.well_formed() ==> final(self)@.well_formed(),
    {
        match loaded {
            Err(e) => {
                self.status.error = Some(e);
                false
            },
            Ok(()) => {
                self.status.state = EngineState::Playing;
                true
            },
        }
    }

    /// Moves to the next track; `player_empty` says whether the output holds
    /// nothing. Returns whether the new current track is to be played.
    pub fn skip_next(&mut self, player_empty: bool) -> (start_playing: bool)
        ensures
            (final(self)@, start_playing) == skip_next_step(old(self)@, player_empty),
            old(self)@.well_formed() ==> final(self)@.well_formed(),
            start_playing && old(self)@.well_formed() ==> final(self)@.can_play(),
    {
        let ghost s = self@;
        let playlist_len = self.status.playlist.len();
        let track_id = self.status.current_track;
        if player_empty || playlist_len == 0 {
            return false;
        }
        let result = if track_id < playlist_len - 1 {
            self.status.current_track = track_id + 1;
            true
        } else if self.status.repeat == RepeatMode::Playlist {
            self.status.current_track = 0;
            true
        } else {
            false
        };
        proof {
            if s.well_formed() {
                lemma_skip_next_keeps_well_formed(s, player_empty);
            }
        }
        result
    }

    /// Moves to the previous track; the mirror of `skip_next`.
    pub fn skip_previous(&mut self, player_empty: bool) -> (start_playing: bool)
        ensures
            (final(self)@, start_playing) == skip_previous_step(old(self)@, player_empty),
            old(self)@.well_formed() ==> final(self)@.well_formed(),
            start_playing && old(self)@.well_formed() ==> final(self)@.can_play(),
    {
        let ghost s = self@;
        let playlist_len = self.status.playlist.len();
        let track_id = self.status.current_track;
        if player_empty || playlist_len == 0 {
            return false;
        }
        let result = if track_id > 0 {
            self.status.current_track = track_id - 1;
            true
        } else if self.status.repeat == RepeatMode::Playlist {
            self.status.current_track = playlist_len - 1;
            true
        } else {
            false
        };
        proof {
            if s.well_formed() {
                lemma_skip_previous_keeps_well_formed(s, player_empty);
            }
        }
        result
    }

    /// The file that a seek reloads: that of the playlist entry at the
    /// current position, or none when the playlist is empty.
    pub fn seek_source(&self) -> (path: Option<&String>)
        requires
            self@.playlist.len() > 0 ==> self@.current_track < self@.playlist.len(),
        ensures
            match path {
                None => self@.playlist.len() == 0,
                Some(p) => self@.playlist.len() > 0 && *p == self@.playlist[self@.current_track as int].path,
            },
    {
        if self.status.playlist.len() == 0 {
            return None;
        }
        let index = self.status.current_track;
        Some(&self.status.playlist[index].path)
    }

    /// Records the outcome of a seek: `Err` with the message when the file
    /// could not be loaded, else whether the seek succeeded. Returns what the
    /// output is to do afterwards.
    pub fn seek(&mut self, outcome: Result<bool, String>) -> (action: Option<PlayerAction>)
        ensures
            (final(self)@, action) == seek_step(old(self)@, outcome),
            old(self)@.well_formed() ==> final(self)@.well_formed(),
    {
        match outcome {
            Err(e) => {
                self.status.error = Some(e);
                None
            },
            Ok(seeked) => {
                let was_playing = self.status.state == EngineState::Playing;
                if !seeked {
                    self.status.error = Some(String::from_str("Failed to seek music"));
                }
                if was_playing {
                    Some(PlayerAction::Play)
                } else {
                    Some(PlayerAction::Pause)
                }
            },
        }
    }

    /// Decides what follows when the output may have run dry;
    /// `player_empty` says whether it holds nothing. Returns whether the new
    /// current track is to be played.
    pub fn track_finished(&mut self, player_empty: bool) -> (start_playing: bool)
        requires
            player_empty && old(self)@.state == EngineState::Playing && old(self)@.repeat
                != RepeatMode::Track ==> old(self)@.current_track < usize::MAX,
            player_empty && old(self)@.state == EngineState::Playing && old(self)@.repeat
                == RepeatMode::Playlist ==> old(self)@.playlist.len() > 0,
        ensures
            (final(self)@, start_playing) == track_finished_step(old(self)@, player_empty),
            old(self)@.well_formed() ==> final(self)@.well_formed(),
            start_playing && old(self)@.well_formed() ==> final(self)@.can_play(),
    {
        let ghost s = self@;
        let mut result = false;
        if player_empty && self.status.state == EngineState::Playing {
            match self.status.repeat {
                RepeatMode::Track => {
                    result = true;
                },
                RepeatMode::Playlist => {
                    self.status.current_track = (self.status.current_track + 1)
                        % self.status.playlist.len();
                    result = true;
                },
                RepeatMode::Off => {
                    if self.status.current_track + 1 < self.status.playlist.len() {
                        self.status.current_track = self.status.current_track + 1;
                        result = true;
                    } else {
                        self.status.state = EngineState::Paused;
                    }
                },
            }
        }
        proof {
            if s.well_formed() {
                lemma_track_finished_keeps_well_formed(s, player_empty);
            }
        }
        result
    }

    /// Ends an idle moment of the audio thread: records the output's
    /// position, in milliseconds, while playing, and returns the status to
    /// report. The engine forgets the error once it is in the report, so an
    /// error is reported in exactly one status, the next one.
    pub fn report_status(&mut self, position_millis: u64) -> (report: EngineStatus)
        ensures
            same_status(report@, record_position_step(old(self)@, position_millis)),
            final(self)@ == (StatusModel { error: None, ..record_position_step(old(self)@, position_millis) }),
            old(self)@.well_formed() ==> final(self)@.well_formed(),
    {
        if self.status.state == EngineState::Playing {
            self.status.timestamp = Some(position_millis);
        }
        let report = copy_status(&self.status);
        self.status.error = None;
        report
    }
}

} // verus!
