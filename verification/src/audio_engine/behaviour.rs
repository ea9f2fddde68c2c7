//! What each command does, stated in terms of its inputs and results.
use vstd::prelude::*;

use super::engine_enums::{EngineState, PlayerAction, PlayerCommands, RepeatMode, ShuffleMode};
use super::engine_status::StatusModel;
use super::music::Music;
use super::steps::{
    add_music_step, clear_music_step, identity_order, is_shuffle_on_step, play_music_step,
    record_position_step, swap_to_front,
    seek_step, shuffle_off_step, skip_next_step, skip_previous_step, toggle_repeat_step,
    toggle_reproduction_step, track_finished_step,
};
use super::{commands_to_run, last_seek};

verus! {

/// The seek that a batch keeps is the one that came last: whatever comes
/// after it holds no seek.
pub proof fn lemma_last_seek_wins(pre: Seq<PlayerCommands>, pos: u64, post: Seq<PlayerCommands>)
    requires
        forall|i: int| 0 <= i < post.len() ==> !(#[trigger] post[i] is Seek),
    ensures
        last_seek(pre + seq![PlayerCommands::Seek(pos)] + post) == Some(pos),
    decreases post.len(),
{
    let cmds = pre + seq![PlayerCommands::Seek(pos)] + post;
    if post.len() == 0 {
        assert(cmds.last() == PlayerCommands::Seek(pos));
    } else {
        let shorter = post.drop_last();
        assert(cmds.drop_last() =~= pre + seq![PlayerCommands::Seek(pos)] + shorter);
        assert(cmds.last() == post.last());
        assert(!(post[post.len() - 1] is Seek));
        lemma_last_seek_wins(pre, pos, shorter);
    }
}

/// A batch without a seek keeps none.
pub proof fn lemma_no_seek_kept(cmds: Seq<PlayerCommands>)
    requires
        forall|i: int| 0 <= i < cmds.len() ==> !(#[trigger] cmds[i] is Seek),
    ensures
        last_seek(cmds) is None,
    decreases cmds.len(),
{
    if cmds.len() > 0 {
        assert(!(cmds[cmds.len() - 1] is Seek));
        lemma_no_seek_kept(cmds.drop_last());
    }
}

/// The commands handled in turn are exactly the batch's non-seek commands,
/// in their order.
pub proof fn lemma_commands_to_run_are_the_non_seeks(cmds: Seq<PlayerCommands>)
    ensures
        commands_to_run(cmds) == cmds.filter(|c: PlayerCommands| !(c is Seek)),
    decreases cmds.len(),
{
    reveal_with_fuel(Seq::<PlayerCommands>::filter, 1);
    if cmds.len() > 0 {
        lemma_commands_to_run_are_the_non_seeks(cmds.drop_last());
    }
}

/// Adding a track appends it to the playlist and its index to the end of the
/// play order, and asks to start playback exactly when nothing was loaded; a
/// file that could not be read changes nothing but the error.
pub proof fn lemma_add_music_behaviour(s: StatusModel, loaded: Result<Music, String>)
    ensures
        add_music_step(s, loaded).1 <==> (loaded is Ok && s.state == EngineState::Empty),
        add_music_step(s, loaded).0.state == s.state,
        add_music_step(s, loaded).0.current_track == s.current_track,
        match loaded {
            Ok(m) => {
                &&& add_music_step(s, loaded).0.playlist == s.playlist.push(m)
                &&& add_music_step(s, loaded).0.playlist_order == s.playlist_order.push(
                    s.playlist.len() as usize,
                )
                &&& add_music_step(s, loaded).0.error == s.error
            },
            Err(e) => {
                &&& add_music_step(s, loaded).0.playlist == s.playlist
                &&& add_music_step(s, loaded).0.playlist_order == s.playlist_order
                &&& add_music_step(s, loaded).0.error == Some(e@)
            },
        },
{
}

/// Clearing empties the playlist, unloads, and puts the position and the
/// time back to the start; it keeps the play order, the modes and the error.
pub proof fn lemma_clear_music_behaviour(s: StatusModel)
    ensures
        clear_music_step(s).playlist.len() == 0,
        clear_music_step(s).state == EngineState::Empty,
        clear_music_step(s).current_track == 0,
        clear_music_step(s).timestamp is None,
        clear_music_step(s).playlist_order == s.playlist_order,
        clear_music_step(s).repeat == s.repeat,
        clear_music_step(s).shuffle == s.shuffle,
        clear_music_step(s).error == s.error,
{
}

/// Play/pause pauses a playing engine, plays a paused one and leaves an empty
/// one alone; the output is told the same, and nothing else changes.
pub proof fn lemma_toggle_reproduction_behaviour(s: StatusModel)
    ensures
        s.state == EngineState::Playing ==> toggle_reproduction_step(s) == (
        StatusModel { state: EngineState::Paused, ..s }, Some(PlayerAction::Pause)),
        s.state == EngineState::Paused ==> toggle_reproduction_step(s) == (
        StatusModel { state: EngineState::Playing, ..s }, Some(PlayerAction::Play)),
        s.state == EngineState::Empty ==> toggle_reproduction_step(s) == (s, None::<PlayerAction>),
{
}

/// The repeat button goes from off to track, from track to playlist, and
/// from playlist back to off, and changes nothing else.
pub proof fn lemma_toggle_repeat_behaviour(s: StatusModel)
    ensures
        s.repeat == RepeatMode::Off ==> toggle_repeat_step(s) == (StatusModel { repeat: RepeatMode::Track, ..s }),
        s.repeat == RepeatMode::Track ==> toggle_repeat_step(s) == (StatusModel { repeat: RepeatMode::Playlist, ..s }),
        s.repeat == RepeatMode::Playlist ==> toggle_repeat_step(s) == (StatusModel { repeat: RepeatMode::Off, ..s }),
{
}

/// Turning shuffle off gives the order 0, 1, .., n - 1 for the playlist's n
/// tracks and moves the position to the index of the track that was current.
pub proof fn lemma_shuffle_off_behaviour(s: StatusModel)
    requires
        s.current_track < s.playlist_order.len(),
        s.playlist.len() <= usize::MAX,
    ensures
        shuffle_off_step(s).shuffle == ShuffleMode::Off,
        shuffle_off_step(s).playlist_order.len() == s.playlist.len(),
        forall|i: int| 0 <= i < s.playlist.len() ==> #[trigger] shuffle_off_step(s).playlist_order[i] == i,
        shuffle_off_step(s).current_track == s.playlist_order[s.current_track as int],
        shuffle_off_step(s).playlist == s.playlist,
        shuffle_off_step(s).state == s.state,
{
    assert(shuffle_off_step(s).playlist_order == identity_order(s.playlist.len()));
}

/// A load that worked starts playback and asks the output to play; one that
/// failed leaves its message and changes nothing else.
pub proof fn lemma_play_music_behaviour(s: StatusModel, loaded: Result<(), String>)
    ensures
        loaded is Ok ==> play_music_step(s, loaded) == (StatusModel { state: EngineState::Playing, ..s }, true),
        loaded matches Err(e) ==> play_music_step(s, loaded) == (StatusModel { error: Some(e@), ..s }, false),
{
}

/// Skipping forward while the output is busy goes to the next position,
/// and from the last position to the first only when the whole playlist
/// repeats; otherwise, and while the output is idle or the playlist empty,
/// nothing happens.
pub proof fn lemma_skip_next_behaviour(s: StatusModel, player_empty: bool)
    ensures
        player_empty || s.playlist.len() == 0 ==> skip_next_step(s, player_empty) == (s, false),
        !player_empty && s.current_track + 1 < s.playlist.len() ==> skip_next_step(s, player_empty)
            == (StatusModel { current_track: (s.current_track + 1) as usize, ..s }, true),
        !player_empty && s.playlist.len() > 0 && s.current_track == s.playlist.len() - 1 ==> {
            if s.repeat == RepeatMode::Playlist {
                skip_next_step(s, player_empty) == (StatusModel { current_track: 0, ..s }, true)
            } else {
                skip_next_step(s, player_empty) == (s, false)
            }
        },
{
}

/// Skipping back while the output is busy goes to the previous position,
/// and from the first position to the last only when the whole playlist
/// repeats; otherwise, and while the output is idle or the playlist empty,
/// nothing happens.
pub proof fn lemma_skip_previous_behaviour(s: StatusModel, player_empty: bool)
    ensures
        player_empty || s.playlist.len() == 0 ==> skip_previous_step(s, player_empty) == (s, false),
        !player_empty && s.playlist.len() > 0 && 0 < s.current_track ==> skip_previous_step(
            s,
            player_empty,
        ) == (StatusModel { current_track: (s.current_track - 1) as usize, ..s }, true),
        !player_empty && s.playlist.len() > 0 && s.current_track == 0 ==> {
            if s.repeat == RepeatMode::Playlist {
                skip_previous_step(s, player_empty) == (StatusModel {
                    current_track: (s.playlist.len() - 1) as usize,
                    ..s
                }, true)
            } else {
                skip_previous_step(s, player_empty) == (s, false)
            }
        },
{
}

/// A seek leaves the output as the engine's state says, whether or not the
/// seek itself worked: playing when the engine plays, else paused. A failed
/// seek leaves "Failed to seek music"; a file that could not be loaded leaves
/// its message and the output untouched. The state never changes.
pub proof fn lemma_seek_behaviour(s: StatusModel, outcome: Result<bool, String>)
    ensures
        outcome is Ok ==> (seek_step(s, outcome).1 == Some(PlayerAction::Play) <==> s.state
            == EngineState::Playing),
        outcome is Ok ==> (seek_step(s, outcome).1 == Some(PlayerAction::Pause) <==> s.state
            != EngineState::Playing),
        outcome == Ok::<bool, String>(true) ==> seek_step(s, outcome).0 == s,
        outcome == Ok::<bool, String>(false) ==> seek_step(s, outcome).0 == (StatusModel {
            error: Some("Failed to seek music"@),
            ..s
        }),
        outcome matches Err(e) ==> seek_step(s, outcome) == (StatusModel { error: Some(e@), ..s }, None::<PlayerAction>),
{
}

/// The end of a playing track, with the output idle: with repeat track the
/// same track plays again; with repeat playlist the position moves one on,
/// modulo the playlist's length, exactly as a skip forward does; without
/// repeat it moves one on until the last track, after which playback
/// pauses. Otherwise nothing happens.
pub proof fn lemma_track_finished_behaviour(s: StatusModel, player_empty: bool)
    ensures
        !(player_empty && s.state == EngineState::Playing) ==> track_finished_step(s, player_empty)
            == (s, false),
        player_empty && s.state == EngineState::Playing && s.repeat == RepeatMode::Track
            ==> track_finished_step(s, player_empty) == (s, true),
        player_empty && s.state == EngineState::Playing && s.repeat == RepeatMode::Playlist
            && s.playlist.len() > 0 ==> {
            &&& track_finished_step(s, player_empty) == (StatusModel {
                current_track: ((s.current_track + 1) % (s.playlist.len() as int)) as usize,
                ..s
            }, true)
            &&& s.current_track < s.playlist.len() ==> track_finished_step(s, player_empty)
                == skip_next_step(s, false)
        },
        player_empty && s.state == EngineState::Playing && s.repeat == RepeatMode::Off ==> {
            if s.current_track + 1 < s.playlist.len() {
                track_finished_step(s, player_empty) == (StatusModel {
                    current_track: (s.current_track + 1) as usize,
                    ..s
                }, true)
            } else {
                track_finished_step(s, player_empty) == (StatusModel {
                    state: EngineState::Paused,
                    ..s
                }, false)
            }
        },
{
    if player_empty && s.state == EngineState::Playing && s.repeat == RepeatMode::Playlist
        && s.playlist.len() > 0 && s.current_track < s.playlist.len() {
        let n = s.playlist.len() as int;
        let c = s.current_track as int;
        if c + 1 < n {
            vstd::arithmetic::div_mod::lemma_small_mod((c + 1) as nat, n as nat);
        } else {
            vstd::arithmetic::div_mod::lemma_mod_self_0(n);
        }
    }
}

/// The position is recorded while playing and only then.
pub proof fn lemma_record_position_behaviour(s: StatusModel, position_millis: u64)
    ensures
        s.state == EngineState::Playing ==> record_position_step(s, position_millis) == (StatusModel {
            timestamp: Some(position_millis),
            ..s
        }),
        s.state != EngineState::Playing ==> record_position_step(s, position_millis) == s,
{
}

/// Turning shuffle on puts the current track first and makes it current,
/// keeps the same entries in the play order, and changes nothing else.
pub proof fn lemma_shuffle_on_behaviour(s: StatusModel, t: StatusModel)
    requires
        s.current_track < s.playlist_order.len(),
        is_shuffle_on_step(s, t),
    ensures
        t.shuffle == ShuffleMode::On,
        t.current_track == 0,
        t.playlist_order.len() == s.playlist_order.len(),
        t.playlist_order[0] == s.playlist_order[s.current_track as int],
        t.playlist_order.to_multiset() =~= s.playlist_order.to_multiset(),
        t.playlist == s.playlist,
        t.state == s.state,
        t.repeat == s.repeat,
        t.error == s.error,
        t.timestamp == s.timestamp,
{
    broadcast use vstd::seq_lib::group_to_multiset_ensures;

    let n = s.playlist_order.len() as int;
    let c = s.current_track as int;
    let w = swap_to_front(s.playlist_order, c);
    // Both orders are their first entry followed by the rest.
    assert(t.playlist_order =~= seq![t.playlist_order[0]] + t.playlist_order.subrange(1, n));
    assert(w =~= seq![w[0]] + w.subrange(1, n));
    vstd::seq_lib::lemma_multiset_commutative(seq![t.playlist_order[0]], t.playlist_order.subrange(1, n));
    vstd::seq_lib::lemma_multiset_commutative(seq![w[0]], w.subrange(1, n));
    assert(t.playlist_order.to_multiset() =~= w.to_multiset());
    // Swapping two entries keeps the multiset.
    if c != 0 {
        let o = s.playlist_order;
        let u = o.update(c, o[0]);
        assert(o.to_multiset() =~= o.remove(c).to_multiset().insert(o[c]));
        assert(u.remove(c) =~= o.remove(c));
        assert(u.to_multiset() =~= u.remove(c).to_multiset().insert(u[c]));
        assert(w.remove(0) =~= u.remove(0));
        assert(w.to_multiset() =~= w.remove(0).to_multiset().insert(w[0]));
        assert(u.to_multiset() =~= u.remove(0).to_multiset().insert(u[0]));
    } else {
        assert(w =~= s.playlist_order);
    }
}

} // verus!
