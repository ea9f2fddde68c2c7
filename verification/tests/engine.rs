use sine_music_player::audio_engine::engine_enums::{
    EngineState, PlayerAction, PlayerCommands, RepeatMode, ShuffleMode,
};
use sine_music_player::audio_engine::engine_status::EngineStatus;
use sine_music_player::audio_engine::music::{AudioFileInfo, Music};
use sine_music_player::audio_engine::{schedule_commands, AudioEngine};

fn track(name: &str) -> Music {
    Music::new(
        format!("/music/{name}.mp3"),
        AudioFileInfo { file_stem: name.to_string(), length_millis: 1000, primary_tag: None, first_tag: None },
    )
}

/// Adds a track and, when asked, starts it as the caller would after a
/// successful load.
fn add(engine: &mut AudioEngine, name: &str) {
    if engine.add_music(Ok(track(name))) {
        assert!(engine.play_music(Ok(())));
    }
}

fn engine_with(names: &[&str]) -> AudioEngine {
    let mut engine = AudioEngine::new();
    for name in names {
        add(&mut engine, name);
    }
    engine
}

#[test]
fn new_engine_is_empty() {
    let engine = AudioEngine::new();
    assert_eq!(*engine.state(), EngineState::Empty);
    assert_eq!(*engine.current_track(), 0);
    assert!(engine.playlist().is_empty());
    assert!(engine.playlist_order().is_empty());
    assert_eq!(*engine.repeat(), RepeatMode::Off);
    assert_eq!(*engine.shuffle(), ShuffleMode::Off);
    assert!(engine.status().error.is_none());
    assert!(engine.status().timestamp.is_none());
}

#[test]
fn engine_status_new_is_empty() {
    let status = EngineStatus::new();
    assert_eq!(status.state, EngineState::Empty);
    assert_eq!(status.current_track, 0);
    assert!(status.playlist.is_empty());
    assert!(status.playlist_order.is_empty());
    assert_eq!(status.repeat, RepeatMode::Off);
    assert_eq!(status.shuffle, ShuffleMode::Off);
    assert!(status.error.is_none());
}

#[test]
fn first_added_track_starts_playing() {
    let mut engine = AudioEngine::new();
    assert!(engine.add_music(Ok(track("a"))));
    assert_eq!(engine.music_to_play(), "/music/a.mp3");
    assert!(engine.play_music(Ok(())));
    assert_eq!(*engine.state(), EngineState::Playing);
    assert!(!engine.add_music(Ok(track("b"))));
    assert_eq!(engine.playlist().len(), 2);
    assert_eq!(engine.playlist_order(), &vec![0, 1]);
    assert_eq!(engine.music_to_play(), "/music/a.mp3");
}

#[test]
fn unreadable_file_leaves_its_message() {
    let mut engine = AudioEngine::new();
    assert!(!engine.add_music(Err("Could not open audio file for probing".to_string())));
    assert!(engine.playlist().is_empty());
    assert_eq!(engine.status().error.as_deref(), Some("Could not open audio file for probing"));
    let report = engine.report_status(0);
    assert_eq!(report.error.as_deref(), Some("Could not open audio file for probing"));
    assert!(engine.status().error.is_none());
    assert!(engine.report_status(0).error.is_none());
}

#[test]
fn failed_load_keeps_engine_empty() {
    let mut engine = AudioEngine::new();
    assert!(engine.add_music(Ok(track("a"))));
    assert!(!engine.play_music(Err("Failed to decode file".to_string())));
    assert_eq!(*engine.state(), EngineState::Empty);
    assert_eq!(engine.status().error.as_deref(), Some("Failed to decode file"));
    // The next added track tries to start playback again.
    assert!(engine.add_music(Ok(track("b"))));
}

#[test]
fn clear_music_empties_playlist_but_keeps_order() {
    let mut engine = engine_with(&["a", "b"]);
    engine.skip_next(false);
    engine.report_status(1500);
    engine.clear_music();
    assert!(engine.playlist().is_empty());
    assert_eq!(*engine.state(), EngineState::Empty);
    assert_eq!(*engine.current_track(), 0);
    assert!(engine.status().timestamp.is_none());
    assert_eq!(engine.playlist_order(), &vec![0, 1]);
}

#[test]
fn toggle_reproduction_alternates() {
    let mut engine = AudioEngine::new();
    assert_eq!(engine.toggle_reproduction(), None);
    assert_eq!(*engine.state(), EngineState::Empty);
    add(&mut engine, "a");
    assert_eq!(engine.toggle_reproduction(), Some(PlayerAction::Pause));
    assert_eq!(*engine.state(), EngineState::Paused);
    assert_eq!(engine.toggle_reproduction(), Some(PlayerAction::Play));
    assert_eq!(*engine.state(), EngineState::Playing);
}

#[test]
fn toggle_repeat_cycles() {
    let mut engine = AudioEngine::new();
    engine.toggle_repeat();
    assert_eq!(*engine.repeat(), RepeatMode::Track);
    engine.toggle_repeat();
    assert_eq!(*engine.repeat(), RepeatMode::Playlist);
    engine.toggle_repeat();
    assert_eq!(*engine.repeat(), RepeatMode::Off);
}

#[test]
fn skip_next_and_previous_move_within_playlist() {
    let mut engine = engine_with(&["a", "b", "c"]);
    assert!(!engine.skip_next(true));
    assert_eq!(*engine.current_track(), 0);
    assert!(engine.skip_next(false));
    assert_eq!(*engine.current_track(), 1);
    assert_eq!(engine.music_to_play(), "/music/b.mp3");
    assert!(engine.skip_previous(false));
    assert_eq!(*engine.current_track(), 0);
    assert!(!engine.skip_previous(false));
    assert_eq!(*engine.current_track(), 0);
}

#[test]
fn skip_wraps_only_when_playlist_repeats() {
    let mut engine = engine_with(&["a", "b"]);
    assert!(engine.skip_next(false));
    assert!(!engine.skip_next(false));
    assert_eq!(*engine.current_track(), 1);
    engine.toggle_repeat();
    engine.toggle_repeat();
    assert!(engine.skip_next(false));
    assert_eq!(*engine.current_track(), 0);
    assert!(engine.skip_previous(false));
    assert_eq!(*engine.current_track(), 1);
}

#[test]
fn skip_on_empty_playlist_does_nothing() {
    let mut engine = AudioEngine::new();
    assert!(!engine.skip_next(false));
    assert!(!engine.skip_previous(false));
}

#[test]
fn shuffle_keeps_current_track_and_permutes() {
    let names: Vec<String> = (0..20).map(|i| format!("t{i}")).collect();
    let refs: Vec<&str> = names.iter().map(|s| s.as_str()).collect();
    let mut engine = engine_with(&refs);
    for _ in 0..5 {
        engine.skip_next(false);
    }
    assert_eq!(*engine.current_track(), 5);
    let mut saw_other_order = false;
    for _ in 0..5 {
        engine.toggle_shuffle();
        assert_eq!(*engine.shuffle(), ShuffleMode::On);
        assert_eq!(*engine.current_track(), 0);
        let order = engine.playlist_order().clone();
        assert_eq!(order[0], 5);
        let mut sorted = order.clone();
        sorted.sort();
        assert_eq!(sorted, (0..20).collect::<Vec<usize>>());
        let mut swapped: Vec<usize> = (0..20).collect();
        swapped.swap(0, 5);
        if order != swapped {
            saw_other_order = true;
        }
        assert_eq!(engine.music_to_play(), "/music/t5.mp3");
        engine.toggle_shuffle();
        assert_eq!(*engine.shuffle(), ShuffleMode::Off);
        assert_eq!(*engine.current_track(), 5);
        assert_eq!(engine.playlist_order(), &(0..20).collect::<Vec<usize>>());
    }
    assert!(saw_other_order);
}

#[test]
fn track_added_while_shuffled_goes_last() {
    let mut engine = engine_with(&["a", "b", "c"]);
    engine.toggle_shuffle();
    add(&mut engine, "d");
    assert_eq!(engine.playlist_order().len(), 4);
    assert_eq!(engine.playlist_order()[3], 3);
}

#[test]
fn seek_reloads_entry_at_position() {
    let mut engine = AudioEngine::new();
    assert_eq!(engine.seek_source(), None);
    add(&mut engine, "a");
    add(&mut engine, "b");
    engine.skip_next(false);
    assert_eq!(engine.seek_source().map(|s| s.as_str()), Some("/music/b.mp3"));
    assert_eq!(engine.seek(Ok(true)), Some(PlayerAction::Play));
    assert!(engine.status().error.is_none());
    engine.toggle_reproduction();
    assert_eq!(engine.seek(Ok(false)), Some(PlayerAction::Pause));
    assert_eq!(engine.status().error.as_deref(), Some("Failed to seek music"));
    assert_eq!(engine.seek(Err("Failed to read file".to_string())), None);
    assert_eq!(engine.status().error.as_deref(), Some("Failed to read file"));
}

#[test]
fn finished_track_without_repeat_advances_then_pauses() {
    let mut engine = engine_with(&["a", "b"]);
    assert!(!engine.track_finished(false));
    assert!(engine.track_finished(true));
    assert_eq!(*engine.current_track(), 1);
    assert!(!engine.track_finished(true));
    assert_eq!(*engine.state(), EngineState::Paused);
    assert_eq!(*engine.current_track(), 1);
    // Paused: nothing more happens.
    assert!(!engine.track_finished(true));
}

#[test]
fn finished_track_repeats_track_or_playlist() {
    let mut engine = engine_with(&["a", "b"]);
    engine.toggle_repeat();
    assert!(engine.track_finished(true));
    assert_eq!(*engine.current_track(), 0);
    engine.toggle_repeat();
    assert!(engine.track_finished(true));
    assert_eq!(*engine.current_track(), 1);
    assert!(engine.track_finished(true));
    assert_eq!(*engine.current_track(), 0);
    assert_eq!(*engine.state(), EngineState::Playing);
}

#[test]
fn position_is_recorded_only_while_playing() {
    let mut engine = engine_with(&["a"]);
    let report = engine.report_status(2500);
    assert_eq!(report.timestamp, Some(2500));
    assert_eq!(engine.status().timestamp, Some(2500));
    engine.toggle_reproduction();
    let report = engine.report_status(9000);
    assert_eq!(report.timestamp, Some(2500));
    assert_eq!(engine.status().timestamp, Some(2500));
}

#[test]
fn batch_keeps_order_and_last_seek() {
    let cmds = vec![
        PlayerCommands::Seek(100),
        PlayerCommands::ToggleRepeat,
        PlayerCommands::Seek(200),
        PlayerCommands::Add("x.mp3".to_string()),
        PlayerCommands::SkipNext,
    ];
    let (run, seek) = schedule_commands(cmds);
    assert_eq!(seek, Some(200));
    assert_eq!(run.len(), 3);
    assert!(matches!(run[0], PlayerCommands::ToggleRepeat));
    assert!(matches!(&run[1], PlayerCommands::Add(p) if p == "x.mp3"));
    assert!(matches!(run[2], PlayerCommands::SkipNext));
}

#[test]
fn batch_without_seek() {
    let (run, seek) = schedule_commands(vec![PlayerCommands::Clear]);
    assert_eq!(seek, None);
    assert_eq!(run.len(), 1);
    let (run, seek) = schedule_commands(Vec::new());
    assert_eq!(seek, None);
    assert!(run.is_empty());
}

#[test]
fn playlist_repeat_skips_come_round() {
    let mut engine = engine_with(&["a", "b", "c"]);
    engine.skip_next(false);
    engine.toggle_repeat();
    engine.toggle_repeat();
    assert_eq!(*engine.repeat(), RepeatMode::Playlist);
    let start = *engine.current_track();
    let mut seen = Vec::new();
    for _ in 0..3 {
        assert!(engine.skip_next(false));
        seen.push(*engine.current_track());
    }
    assert_eq!(seen, vec![2, 0, 1]);
    assert_eq!(*engine.current_track(), start);
}

#[test]
fn clear_then_add_reuses_stale_order() {
    let mut engine = engine_with(&["a", "b"]);
    engine.clear_music();
    // The old order [0, 1] stays; the new track is appended after it.
    assert!(engine.add_music(Ok(track("c"))));
    assert_eq!(engine.playlist_order(), &vec![0, 1, 0]);
    assert_eq!(engine.music_to_play(), "/music/c.mp3");
}

#[test]
fn report_copies_the_whole_status() {
    let mut engine = engine_with(&["a", "b"]);
    engine.skip_next(false);
    engine.toggle_repeat();
    engine.seek(Ok(false));
    let report = engine.report_status(700);
    assert_eq!(report.state, EngineState::Playing);
    assert_eq!(report.current_track, 1);
    assert_eq!(report.playlist_order, vec![0, 1]);
    assert_eq!(report.repeat, RepeatMode::Track);
    assert_eq!(report.shuffle, ShuffleMode::Off);
    assert_eq!(report.timestamp, Some(700));
    assert_eq!(report.error.as_deref(), Some("Failed to seek music"));
    assert_eq!(report.playlist.len(), 2);
    assert_eq!(report.playlist[1].path, "/music/b.mp3");
    assert_eq!(report.playlist[1].title, "b");
    assert_eq!(report.playlist[1].length_millis, 1000);
    assert!(engine.status().error.is_none());
}
