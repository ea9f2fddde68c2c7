//! What the window shows of the engine's status.
use vstd::prelude::*;

use crate::audio_engine::engine_enums::{EngineState, RepeatMode, ShuffleMode};
use crate::audio_engine::engine_status::{EngineStatus, StatusModel};

verus! {

/// A decoded cover: its size and its pixels, four bytes (red, green, blue,
/// alpha) each, row by row.
#[derive(Clone, Debug)]
pub struct CoverArt {
    pub width: u32,
    pub height: u32,
    pub pixels: Vec<u8>,
}

/// What the `image` crate makes of encoded picture bytes: width, height and
/// RGBA pixels, or nothing when they cannot be decoded.
pub uninterp spec fn decoded_cover(data: Seq<u8>) -> Option<(u32, u32, Seq<u8>)>;

/// Decodes a cover with `image::load_from_memory` and converts it with
/// `DynamicImage::into_rgba8`. The contract names the outcome, a function of
/// the bytes alone, and says nothing more of it.
#[verifier::external_body]
fn decode_cover_art(data: &[u8]) -> (cover: Option<CoverArt>)
    ensures
        match cover {
            None => decoded_cover(data@) is None,
            Some(c) => decoded_cover(data@) == Some((c.width, c.height, c.pixels@)),
        },
{
    let dynamic_image = image::load_from_memory(data).ok()?;
    let rgba_image = dynamic_image.into_rgba8();
    Some(CoverArt { width: rgba_image.width(), height: rgba_image.height(), pixels: rgba_image.into_raw() })
}

/// The text of a decimal digit.
pub open spec fn digit_char(d: nat) -> char {
    ('0' as u32 + d) as char
}

/// The decimal text of a number.
pub open spec fn decimal(n: nat) -> Seq<char>
    decreases n,
{
    if n < 10 {
        seq![digit_char(n)]
    } else {
        decimal(n / 10).push(digit_char(n % 10))
    }
}

/// A time of whole seconds as minutes, a colon and two digits of seconds.
pub open spec fn clock_text(secs: nat) -> Seq<char> {
    decimal(secs / 60) + seq![':', digit_char((secs % 60) / 10), digit_char(secs % 10)]
}

fn digit_text(d: u64) -> (t: &'static str)
    requires
        d < 10,
    ensures
        t@ == seq![digit_char(d as nat)],
{
    proof {
        reveal_strlit("0");
        reveal_strlit("1");
        reveal_strlit("2");
        reveal_strlit("3");
        reveal_strlit("4");
        reveal_strlit("5");
        reveal_strlit("6");
        reveal_strlit("7");
        reveal_strlit("8");
        reveal_strlit("9");
    }
    match d {
        0 => "0",
        1 => "1",
        2 => "2",
        3 => "3",
        4 => "4",
        5 => "5",
        6 => "6",
        7 => "7",
        8 => "8",
        _ => "9",
    }
}

fn push_decimal(text: &mut String, n: u64)
    ensures
        final(text)@ == old(text)@ + decimal(n as nat),
    decreases n,
{
    if n >= 10 {
        push_decimal(text, n / 10);
    }
    text.append(digit_text(n % 10));
    proof {
        assert(n < 10 ==> n % 10 == n);
    }
}

/// The number that a text of decimal digits spells.
pub open spec fn digits_value(text: Seq<char>) -> nat
    decreases text.len(),
{
    if text.len() == 0 {
        0
    } else {
        digits_value(text.drop_last()) * 10 + (text.last() as nat - '0' as nat) as nat
    }
}

/// The text is made of decimal digits only.
pub open spec fn all_digits(text: Seq<char>) -> bool {
    forall|i: int| 0 <= i < text.len() ==> '0' <= #[trigger] text[i] <= '9'
}

proof fn lemma_digit_char(d: nat)
    requires
        d < 10,
    ensures
        digit_char(d) as nat == '0' as nat + d,
        '0' <= digit_char(d) <= '9',
        digits_value(seq![digit_char(d)]) == d,
{
    let t = seq![digit_char(d)];
    assert(t.drop_last() =~= Seq::<char>::empty());
    assert(digits_value(t.drop_last()) == 0);
    assert(t.last() == digit_char(d));
}

/// The decimal text of a number is made of digits, spells the number, and
/// starts with a zero only when it is the single digit of zero.
pub proof fn lemma_decimal_spells_number(n: nat)
    ensures
        decimal(n).len() > 0,
        all_digits(decimal(n)),
        digits_value(decimal(n)) == n,
        decimal(n)[0] == '0' ==> n == 0 && decimal(n).len() == 1,
    decreases n,
{
    lemma_digit_char(n % 10);
    if n >= 10 {
        lemma_decimal_spells_number(n / 10);
        let d = decimal(n);
        assert(d.drop_last() =~= decimal(n / 10));
        assert(d[0] == decimal(n / 10)[0]);
        assert(n == (n / 10) * 10 + n % 10);
    } else {
        lemma_digit_char(n);
    }
}

/// The clock text of a number of seconds is the decimal text of the whole
/// minutes, a colon, and two digits that spell the seconds left over.
pub proof fn lemma_clock_text_spells_time(secs: nat)
    ensures
        clock_text(secs).len() >= 4,
        clock_text(secs).subrange(0, clock_text(secs).len() - 3) == decimal(secs / 60),
        digits_value(decimal(secs / 60)) == secs / 60,
        clock_text(secs)[clock_text(secs).len() - 3] == ':',
        all_digits(clock_text(secs).subrange(clock_text(secs).len() - 2, clock_text(secs).len() as int)),
        digits_value(clock_text(secs).subrange(clock_text(secs).len() - 2, clock_text(secs).len() as int))
            == secs % 60,
{
    lemma_decimal_spells_number(secs / 60);
    let t = clock_text(secs);
    let k = t.len() as int;
    assert(t.subrange(0, k - 3) =~= decimal(secs / 60));
    let two = t.subrange(k - 2, k);
    assert(two =~= seq![digit_char((secs % 60) / 10), digit_char(secs % 10)]);
    assert(two.drop_last() =~= seq![digit_char((secs % 60) / 10)]);
    assert(two.drop_last().drop_last() =~= Seq::<char>::empty());
    lemma_digit_char((secs % 60) / 10);
    lemma_digit_char(secs % 10);
    assert(secs % 10 == (secs % 60) % 10) by (nonlinear_arith);
    assert((secs % 60) == ((secs % 60) / 10) * 10 + (secs % 60) % 10) by (nonlinear_arith);
}

/// Writes whole seconds as "m:ss".
pub fn clock(secs: u64) -> (text: String)
    ensures
        text@ == clock_text(secs as nat),
{
    let mut text = String::new();
    push_decimal(&mut text, secs / 60);
    proof {
        reveal_strlit(":");
    }
    text.append(":");
    let s = secs % 60;
    text.append(digit_text(s / 10));
    text.append(digit_text(s % 10));
    proof {
        assert(text@ =~= clock_text(secs as nat));
    }
    text
}

/// What the window refreshes on every status: the state, the play position
/// as text and in milliseconds, the repeat mode and whether shuffle is on.
#[derive(Clone, Debug)]
pub struct LightExtracted {
    pub state: String,
    pub timestamp: String,
    pub progress_millis: u64,
    pub repeat: String,
    pub shuffle: bool,
}

/// What the window refreshes when the track changes: the track's length as
/// text and in milliseconds, its metadata and its decoded cover.
#[derive(Clone, Debug)]
pub struct HeavyExtracted {
    pub final_timestamp: String,
    pub music_title: String,
    pub music_album: String,
    pub music_album_artist: String,
    pub duration_millis: u64,
    pub cover: Option<CoverArt>,
}

/// The words for the engine's state.
pub open spec fn state_text(state: EngineState) -> Seq<char> {
    match state {
        EngineState::Empty => "No music on queue"@,
        EngineState::Paused => "Paused"@,
        EngineState::Playing => "Playing"@,
    }
}

/// The words for the repeat mode.
pub open spec fn repeat_text(repeat: RepeatMode) -> Seq<char> {
    match repeat {
        RepeatMode::Off => "Off"@,
        RepeatMode::Track => "Track"@,
        RepeatMode::Playlist => "Playlist"@,
    }
}

/// Extracts the quickly changing part of the status.
pub fn light_extract(status: &EngineStatus) -> (extract: LightExtracted)
    ensures
        extract.state@ == state_text(status.state),
        extract.repeat@ == repeat_text(status.repeat),
        extract.shuffle == (status.shuffle == ShuffleMode::On),
        match status.timestamp {
            None => extract.progress_millis == 0 && extract.timestamp@ == clock_text(0),
            Some(ms) => extract.progress_millis == ms && extract.timestamp@ == clock_text(
                ms as nat / 1000,
            ),
        },
{
    let (progress_millis, timestamp) = match status.timestamp {
        None => (0, clock(0)),
        Some(ms) => (ms, clock(ms / 1000)),
    };
    let state = match status.state {
        EngineState::Empty => String::from_str("No music on queue"),
        EngineState::Paused => String::from_str("Paused"),
        EngineState::Playing => String::from_str("Playing"),
    };
    let repeat = match status.repeat {
        RepeatMode::Off => String::from_str("Off"),
        RepeatMode::Track => String::from_str("Track"),
        RepeatMode::Playlist => String::from_str("Playlist"),
    };
    let shuffle = match status.shuffle {
        ShuffleMode::Off => false,
        ShuffleMode::On => true,
    };
    LightExtracted { state, timestamp, progress_millis, repeat, shuffle }
}

/// Extracts the metadata of the current track: that of the playlist entry
/// that the play order names at the current position, or empty texts, no
/// length and no cover when it names none.
pub fn heavy_extract(status: &EngineStatus) -> (extract: HeavyExtracted)
    requires
        status@.current_track < status@.playlist_order.len(),
    ensures
        status@.can_play() ==> {
            let m = status@.playlist[status@.playing_index()];
            &&& extract.music_title == m.title
            &&& extract.music_album == m.album
            &&& extract.music_album_artist == m.album_artist
            &&& extract.duration_millis == m.length_millis
            &&& match m.cover_bytes {
                None => extract.cover is None,
                Some(bytes) => match extract.cover {
                    None => decoded_cover(bytes@) is None,
                    Some(c) => decoded_cover(bytes@) == Some((c.width, c.height, c.pixels@)),
                },
            }
        },
        !status@.can_play() ==> {
            &&& extract.music_title@ == Seq::<char>::empty()
            &&& extract.music_album@ == Seq::<char>::empty()
            &&& extract.music_album_artist@ == Seq::<char>::empty()
            &&& extract.duration_millis == 0
            &&& extract.cover is None
        },
        extract.final_timestamp@ == clock_text(extract.duration_millis as nat / 1000),
{
    let current_index = status.current_track;
    let current_track = status.playlist_order[current_index];
    let mut duration_millis: u64 = 0;
    let mut music_title = String::new();
    let mut music_album = String::new();
    let mut music_album_artist = String::new();
    let mut cover: Option<CoverArt> = None;
    if current_track < status.playlist.len() {
        let data = &status.playlist[current_track];
        duration_millis = data.length_millis;
        music_title = data.title.clone();
        music_album = data.album.clone();
        music_album_artist = data.album_artist.clone();
        cover = match &data.cover_bytes {
            Some(bytes) => decode_cover_art(bytes.as_slice()),
            None => None,
        };
    }
    let final_timestamp = clock(duration_millis / 1000);
    HeavyExtracted {
        final_timestamp,
        music_title,
        music_album,
        music_album_artist,
        duration_millis,
        cover,
    }
}

/// What the window remembers between two statuses: the position it last
/// showed and whether the engine then held nothing.
pub struct StatusTracker {
    last_track_index: Option<usize>,
    was_empty: bool,
}

/// What a new status asks of the window.
#[derive(Clone, Copy, Debug, PartialEq, Eq, Structural)]
pub struct TrackUpdate {
    /// The engine holds nothing.
    pub is_empty: bool,
    /// The current position differs from the last one shown, or something
    /// was loaded after nothing was.
    pub track_changed: bool,
    /// The track's metadata is to be extracted anew.
    pub needs_heavy: bool,
}

impl StatusTracker {
    pub closed spec fn last_track_index(self) -> Option<usize> {
        self.last_track_index
    }

    pub closed spec fn was_empty(self) -> bool {
        self.was_empty
    }

    /// A tracker that has shown nothing yet.
    pub fn new() -> (tracker: StatusTracker)
        ensures
            tracker.last_track_index() is None,
            tracker.was_empty(),
    {
        StatusTracker { last_track_index: None, was_empty: true }
    }

    /// Takes in a new status and says what the window is to refresh.
    pub fn observe(&mut self, status: &EngineStatus) -> (update: TrackUpdate)
        ensures
            update.is_empty == (status.state == EngineState::Empty),
            update.track_changed == (old(self).last_track_index() != Some(status.current_track)
                || (old(self).was_empty() && !update.is_empty)),
            update.needs_heavy == (update.track_changed && !update.is_empty),
            final(self).last_track_index() == Some(status.current_track),
            final(self).was_empty() == update.is_empty,
    {
        let is_empty = status.state == EngineState::Empty;
        let same_track = match self.last_track_index {
            Some(i) => i == status.current_track,
            None => false,
        };
        let track_changed = !same_track || (self.was_empty && !is_empty);
        self.last_track_index = Some(status.current_track);
        self.was_empty = is_empty;
        TrackUpdate { is_empty, track_changed, needs_heavy: track_changed && !is_empty }
    }
}

/// In a well-formed status with something loaded, the current position lies
/// in the play order, so the metadata of the current track can be extracted.
pub proof fn lemma_loaded_status_can_extract(s: StatusModel)
    requires
        s.well_formed(),
        s.state != EngineState::Empty,
    ensures
        s.current_track < s.playlist_order.len(),
        s.can_play(),
{
}

} // verus!
