//! Properties that hold across the engine's commands.
use vstd::prelude::*;

use super::engine_enums::{EngineState, PlayerAction, RepeatMode, ShuffleMode};
use super::engine_status::{is_index_permutation, StatusModel};
use super::engine_commands::{
    ascii_lower_code, equal_ignoring_ascii_case, is_supported_extension, supported_extensions,
};
use super::music::Music;
use super::steps::{
    add_music_step, clear_music_step, is_shuffle_on_step, play_music_step, record_position_step,
    seek_step, shuffle_off_step,
    skip_next_step, skip_previous_step, swap_to_front, toggle_repeat_step,
    toggle_reproduction_step, track_finished_step,
};

verus! {

broadcast use vstd::seq_lib::group_to_multiset_ensures;

/// A well-formed status with a non-empty playlist names a track to play.
pub proof fn lemma_well_formed_can_play(s: StatusModel)
    requires
        s.well_formed(),
        s.playlist.len() > 0,
    ensures
        s.can_play(),
{
}

/// Adding a track keeps the status well formed, and when playback is to
/// start the added track is the one that plays. (A playlist already as long
/// as memory allows cannot grow.)
pub proof fn lemma_add_music_keeps_well_formed(s: StatusModel, loaded: Result<Music, String>)
    requires
        s.well_formed(),
        loaded is Ok ==> s.playlist.len() < usize::MAX,
    ensures
        add_music_step(s, loaded).0.well_formed(),
        add_music_step(s, loaded).1 ==> add_music_step(s, loaded).0.can_play(),
{
    if let Ok(m) = loaded {
        let t = add_music_step(s, loaded).0;
        let n = s.playlist.len();
        assert forall|k: usize| k < n + 1 implies #[trigger] t.playlist_order.contains(k) by {
            if k < n {
                assert(s.playlist_order.contains(k));
                let j = choose|j: int| 0 <= j < s.playlist_order.len() && s.playlist_order[j] == k;
                assert(t.playlist_order[j] == k);
            } else {
                assert(t.playlist_order[n as int] == k);
            }
        }
    }
}

/// Clearing an already empty playlist keeps the status well formed. (Clearing
/// a non-empty one leaves the old play order behind, so the order no longer
/// matches the playlist.)
pub proof fn lemma_clear_keeps_well_formed(s: StatusModel)
    requires
        s.well_formed(),
        s.playlist.len() == 0,
    ensures
        clear_music_step(s).well_formed(),
{
    assert(clear_music_step(s).playlist =~= s.playlist);
}

/// Moving the current entry to the front keeps a permutation.
proof fn lemma_swap_to_front_permutation(order: Seq<usize>, c: int, n: int)
    requires
        is_index_permutation(order, n),
        0 <= c < n,
    ensures
        is_index_permutation(swap_to_front(order, c), n),
{
    let w = swap_to_front(order, c);
    assert forall|k: usize| k < n implies #[trigger] w.contains(k) by {
        assert(order.contains(k));
        let j = choose|j: int| 0 <= j < order.len() && order[j] == k;
        if j == 0 {
            assert(w[c] == k);
        } else if j == c {
            assert(w[0] == k);
        } else {
            assert(w[j] == k);
        }
    }
}

/// Turning shuffle on keeps the status well formed.
pub proof fn lemma_shuffle_on_keeps_well_formed(s: StatusModel, t: StatusModel)
    requires
        s.current_track < s.playlist_order.len(),
        is_shuffle_on_step(s, t),
    ensures
        s.well_formed() ==> t.well_formed(),
{
    if s.well_formed() {
        let n = s.playlist.len() as int;
        let w = swap_to_front(s.playlist_order, s.current_track as int);
        lemma_swap_to_front_permutation(s.playlist_order, s.current_track as int, n);
        let wt = w.subrange(1, n);
        let tt = t.playlist_order.subrange(1, n);
        assert forall|i: int| 0 <= i < t.playlist_order.len() implies #[trigger] t.playlist_order[i] < n by {
            if i > 0 {
                let x = t.playlist_order[i];
                assert(tt[i - 1] == x);
                assert(tt.contains(x));
                assert(wt.to_multiset().count(x) > 0);
                assert(wt.contains(x));
                let j = choose|j: int| 0 <= j < wt.len() && wt[j] == x;
                assert(w[j + 1] == x);
            }
        }
        assert forall|k: usize| k < n implies #[trigger] t.playlist_order.contains(k) by {
            assert(w.contains(k));
            let j = choose|j: int| 0 <= j < w.len() && w[j] == k;
            if j == 0 {
                assert(t.playlist_order[0] == k);
            } else {
                assert(wt[j - 1] == k);
                assert(wt.contains(k));
                assert(tt.to_multiset().count(k) > 0);
                assert(tt.contains(k));
                let i = choose|i: int| 0 <= i < tt.len() && tt[i] == k;
                assert(t.playlist_order[i + 1] == k);
            }
        }
    }
}

/// Turning shuffle on keeps the current track.
pub proof fn lemma_shuffle_on_keeps_current(s: StatusModel, t: StatusModel)
    requires
        s.current_track < s.playlist_order.len(),
        is_shuffle_on_step(s, t),
    ensures
        s.can_play() ==> t.can_play() && t.playing_index() == s.playing_index(),
{
}

/// Turning shuffle off keeps the status well formed.
pub proof fn lemma_shuffle_off_keeps_well_formed(s: StatusModel)
    requires
        s.current_track < s.playlist_order.len(),
    ensures
        s.well_formed() ==> shuffle_off_step(s).well_formed(),
{
    if s.well_formed() {
        let t = shuffle_off_step(s);
        assert forall|k: usize| k < s.playlist.len() implies #[trigger] t.playlist_order.contains(k) by {
            assert(t.playlist_order[k as int] == k);
        }
    }
}

/// Turning shuffle off keeps the current track.
pub proof fn lemma_shuffle_off_keeps_current(s: StatusModel)
    requires
        s.current_track < s.playlist_order.len(),
    ensures
        s.can_play() ==> shuffle_off_step(s).can_play() && shuffle_off_step(s).playing_index()
            == s.playing_index(),
{
}

/// Skipping forward keeps the status well formed and, when a track is to
/// be played, names one.
pub proof fn lemma_skip_next_keeps_well_formed(s: StatusModel, player_empty: bool)
    requires
        s.well_formed(),
    ensures
        skip_next_step(s, player_empty).0.well_formed(),
        skip_next_step(s, player_empty).1 ==> skip_next_step(s, player_empty).0.can_play(),
{
}

/// Skipping back keeps the status well formed and, when a track is to be
/// played, names one.
pub proof fn lemma_skip_previous_keeps_well_formed(s: StatusModel, player_empty: bool)
    requires
        s.well_formed(),
    ensures
        skip_previous_step(s, player_empty).0.well_formed(),
        skip_previous_step(s, player_empty).1 ==> skip_previous_step(s, player_empty).0.can_play(),
{
}

/// The end of a track keeps the status well formed and, when a track is to
/// be played, names one.
pub proof fn lemma_track_finished_keeps_well_formed(s: StatusModel, player_empty: bool)
    requires
        s.well_formed(),
    ensures
        track_finished_step(s, player_empty).0.well_formed(),
        track_finished_step(s, player_empty).1 ==> track_finished_step(s, player_empty).0.can_play(),
{
}

/// Three presses of the repeat button bring back the mode one started with.
pub proof fn lemma_repeat_cycles_in_three(s: StatusModel)
    ensures
        toggle_repeat_step(toggle_repeat_step(toggle_repeat_step(s))) == s,
{
}

/// Play/pause twice brings back the status one started with, the output
/// being told to pause and play (or play and pause) in turn; without
/// anything loaded, the button does nothing.
pub proof fn lemma_toggle_reproduction_twice(s: StatusModel)
    ensures
        s.state == EngineState::Empty ==> toggle_reproduction_step(s) == (s, None::<PlayerAction>),
        s.state != EngineState::Empty ==> {
            let (t, first) = toggle_reproduction_step(s);
            let (u, second) = toggle_reproduction_step(t);
            &&& u == s
            &&& first is Some
            &&& second is Some
            &&& first != second
        },
{
}

/// Shuffle on and then off again gives back the status one started with.
pub proof fn lemma_shuffle_on_then_off_restores(s: StatusModel, t: StatusModel)
    requires
        s.well_formed(),
        s.shuffle == ShuffleMode::Off,
        s.current_track < s.playlist_order.len(),
        is_shuffle_on_step(s, t),
    ensures
        shuffle_off_step(t) == s,
{
    let u = shuffle_off_step(t);
    assert(u.playlist_order =~= s.playlist_order);
}

/// Skipping forward and then back, away from the end of the playlist,
/// returns to the track one started from, and both skips play a track.
pub proof fn lemma_skip_next_then_previous(s: StatusModel, player_empty: bool)
    requires
        !player_empty,
        s.current_track + 1 < s.playlist.len(),
        s.playlist.len() <= usize::MAX,
    ensures
        skip_next_step(s, player_empty).1,
        skip_previous_step(skip_next_step(s, player_empty).0, player_empty).1,
        skip_previous_step(skip_next_step(s, player_empty).0, player_empty).0 == s,
{
}

/// Skipping back and then forward, away from the start of the playlist,
/// returns to the track one started from, and both skips play a track.
pub proof fn lemma_skip_previous_then_next(s: StatusModel, player_empty: bool)
    requires
        !player_empty,
        0 < s.current_track < s.playlist.len(),
    ensures
        skip_previous_step(s, player_empty).1,
        skip_next_step(skip_previous_step(s, player_empty).0, player_empty).1,
        skip_next_step(skip_previous_step(s, player_empty).0, player_empty).0 == s,
{
}

/// A track added to an engine that holds nothing starts playing: it is the
/// track that the engine names to play.
pub proof fn lemma_first_added_track_plays(s: StatusModel, m: Music)
    requires
        s.well_formed(),
        s.state == EngineState::Empty,
        s.playlist.len() == 0,
    ensures
        add_music_step(s, Ok(m)).1,
        add_music_step(s, Ok(m)).0.can_play(),
        add_music_step(s, Ok(m)).0.playlist[add_music_step(s, Ok(m)).0.playing_index()] == m,
{
    lemma_add_music_keeps_well_formed(s, Ok(m));
}

/// Whether a file counts as music does not depend on the ASCII case of its
/// extension.
pub proof fn lemma_extension_case_does_not_matter(a: Seq<char>, b: Seq<char>)
    requires
        equal_ignoring_ascii_case(a, b),
    ensures
        is_supported_extension(a) == is_supported_extension(b),
{
    if is_supported_extension(a) {
        let i = choose|i: int|
            0 <= i < supported_extensions().len() && equal_ignoring_ascii_case(
                #[trigger] supported_extensions()[i],
                a,
            );
        let e = supported_extensions()[i];
        assert forall|j: int| 0 <= j < e.len() implies ascii_lower_code(#[trigger] e[j])
            == ascii_lower_code(b[j]) by {
            assert(ascii_lower_code(a[j]) == ascii_lower_code(b[j]));
        }
        assert(equal_ignoring_ascii_case(supported_extensions()[i], b));
    }
    if is_supported_extension(b) {
        let i = choose|i: int|
            0 <= i < supported_extensions().len() && equal_ignoring_ascii_case(
                #[trigger] supported_extensions()[i],
                b,
            );
        let e = supported_extensions()[i];
        assert forall|j: int| 0 <= j < e.len() implies ascii_lower_code(#[trigger] e[j])
            == ascii_lower_code(a[j]) by {
            assert(ascii_lower_code(a[j]) == ascii_lower_code(b[j]));
        }
        assert(equal_ignoring_ascii_case(supported_extensions()[i], a));
    }
}

/// The status after `k` skips forward while the output is busy.
pub open spec fn skip_next_times(s: StatusModel, k: nat) -> StatusModel
    decreases k,
{
    if k == 0 {
        s
    } else {
        skip_next_step(skip_next_times(s, (k - 1) as nat), false).0
    }
}

proof fn lemma_mod_step(a: int, n: int)
    requires
        0 <= a,
        0 < n,
    ensures
        a % n < n - 1 ==> (a + 1) % n == a % n + 1,
        a % n == n - 1 ==> (a + 1) % n == 0,
{
    let q = a / n;
    let r = a % n;
    assert(a == q * n + r && 0 <= r < n) by (nonlinear_arith)
        requires
            0 < n,
            q == a / n,
            r == a % n,
    ;
    if r < n - 1 {
        vstd::arithmetic::div_mod::lemma_fundamental_div_mod_converse(a + 1, n, q, r + 1);
    } else {
        assert(a + 1 == (q + 1) * n + 0) by (nonlinear_arith)
            requires
                a == q * n + (n - 1),
        ;
        vstd::arithmetic::div_mod::lemma_fundamental_div_mod_converse(a + 1, n, q + 1, 0);
    }
}

/// When the whole playlist repeats, skipping forward walks the play order
/// round and round: after `k` skips the position is `k` further, modulo the
/// playlist's length, and nothing else changes.
pub proof fn lemma_playlist_repeat_skips(s: StatusModel, k: nat)
    requires
        s.well_formed(),
        s.playlist.len() > 0,
        s.repeat == RepeatMode::Playlist,
    ensures
        skip_next_times(s, k) == (StatusModel {
            current_track: ((s.current_track + k) % (s.playlist.len() as int)) as usize,
            ..s
        }),
    decreases k,
{
    let n = s.playlist.len() as int;
    if k > 0 {
        lemma_playlist_repeat_skips(s, (k - 1) as nat);
        lemma_mod_step(s.current_track + k - 1, n);
    } else {
        vstd::arithmetic::div_mod::lemma_small_mod(s.current_track as nat, n as nat);
    }
}

/// When the whole playlist repeats, as many skips forward as there are
/// tracks come back to the status one started from.
pub proof fn lemma_playlist_repeat_cycles(s: StatusModel)
    requires
        s.well_formed(),
        s.playlist.len() > 0,
        s.repeat == RepeatMode::Playlist,
    ensures
        skip_next_times(s, s.playlist.len()) == s,
{
    let n = s.playlist.len() as int;
    lemma_playlist_repeat_skips(s, s.playlist.len());
    vstd::arithmetic::div_mod::lemma_mod_add_multiples_vanish(s.current_track as int, n);
    vstd::arithmetic::div_mod::lemma_small_mod(s.current_track as nat, n as nat);
}

/// How the commands move the engine between empty, paused and playing:
/// only clearing empties it; only a successful load starts playback anew;
/// play/pause swaps playing and paused; the end of a track pauses only a
/// playing engine at the last track without repeat; the other commands keep
/// the state.
pub proof fn lemma_state_transitions(
    s: StatusModel,
    added: Result<Music, String>,
    loaded: Result<(), String>,
    outcome: Result<bool, String>,
    player_empty: bool,
    position_millis: u64,
)
    ensures
        clear_music_step(s).state == EngineState::Empty,
        play_music_step(s, loaded).0.state == (if loaded is Ok {
            EngineState::Playing
        } else {
            s.state
        }),
        toggle_reproduction_step(s).0.state == match s.state {
            EngineState::Empty => EngineState::Empty,
            EngineState::Playing => EngineState::Paused,
            EngineState::Paused => EngineState::Playing,
        },
        track_finished_step(s, player_empty).0.state != s.state ==> {
            &&& s.state == EngineState::Playing
            &&& s.repeat == RepeatMode::Off
            &&& s.current_track + 1 >= s.playlist.len()
            &&& track_finished_step(s, player_empty).0.state == EngineState::Paused
        },
        add_music_step(s, added).0.state == s.state,
        toggle_repeat_step(s).state == s.state,
        shuffle_off_step(s).state == s.state,
        skip_next_step(s, player_empty).0.state == s.state,
        skip_previous_step(s, player_empty).0.state == s.state,
        seek_step(s, outcome).0.state == s.state,
        record_position_step(s, position_millis).state == s.state,
{
}

/// Turning shuffle on keeps the state.
pub proof fn lemma_shuffle_on_keeps_state(s: StatusModel, t: StatusModel)
    requires
        is_shuffle_on_step(s, t),
    ensures
        t.state == s.state,
{
}

} // verus!
