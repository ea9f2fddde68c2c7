use sine_music_player::audio_engine::engine_enums::{EngineState, RepeatMode, ShuffleMode};
use sine_music_player::audio_engine::engine_status::EngineStatus;
use sine_music_player::audio_engine::music::Music;
use sine_music_player::helpers::{clock, heavy_extract, light_extract, StatusTracker};

fn png_2x1() -> Vec<u8> {
    let img = image::RgbaImage::from_raw(2, 1, vec![255, 0, 0, 255, 0, 0, 255, 128]).unwrap();
    let mut bytes = std::io::Cursor::new(Vec::new());
    img.write_to(&mut bytes, image::ImageFormat::Png).unwrap();
    bytes.into_inner()
}

fn music(title: &str, length_millis: u64, cover_bytes: Option<Vec<u8>>) -> Music {
    Music {
        path: format!("/m/{title}.mp3"),
        title: title.to_string(),
        album: "Album".to_string(),
        album_artist: "Artist".to_string(),
        length_millis,
        cover_bytes,
    }
}

#[test]
fn clock_texts() {
    assert_eq!(clock(0), "0:00");
    assert_eq!(clock(5), "0:05");
    assert_eq!(clock(59), "0:59");
    assert_eq!(clock(60), "1:00");
    assert_eq!(clock(125), "2:05");
    assert_eq!(clock(3600), "60:00");
    assert_eq!(clock(36_061), "601:01");
}

#[test]
fn light_extract_of_empty_status() {
    let status = EngineStatus::new();
    let e = light_extract(&status);
    assert_eq!(e.state, "No music on queue");
    assert_eq!(e.timestamp, "0:00");
    assert_eq!(e.progress_millis, 0);
    assert_eq!(e.repeat, "Off");
    assert!(!e.shuffle);
}

#[test]
fn light_extract_of_playing_status() {
    let mut status = EngineStatus::new();
    status.state = EngineState::Playing;
    status.timestamp = Some(83_999);
    status.repeat = RepeatMode::Playlist;
    status.shuffle = ShuffleMode::On;
    let e = light_extract(&status);
    assert_eq!(e.state, "Playing");
    assert_eq!(e.timestamp, "1:23");
    assert_eq!(e.progress_millis, 83_999);
    assert_eq!(e.repeat, "Playlist");
    assert!(e.shuffle);
    status.state = EngineState::Paused;
    status.repeat = RepeatMode::Track;
    let e = light_extract(&status);
    assert_eq!(e.state, "Paused");
    assert_eq!(e.repeat, "Track");
}

#[test]
fn heavy_extract_follows_play_order() {
    let mut status = EngineStatus::new();
    status.playlist = vec![music("a", 1000, None), music("b", 185_000, Some(png_2x1()))];
    status.playlist_order = vec![1, 0];
    status.current_track = 0;
    status.state = EngineState::Playing;
    let e = heavy_extract(&status);
    assert_eq!(e.music_title, "b");
    assert_eq!(e.music_album, "Album");
    assert_eq!(e.music_album_artist, "Artist");
    assert_eq!(e.duration_millis, 185_000);
    assert_eq!(e.final_timestamp, "3:05");
    let cover = e.cover.expect("cover decodes");
    assert_eq!((cover.width, cover.height), (2, 1));
    assert_eq!(cover.pixels, vec![255, 0, 0, 255, 0, 0, 255, 128]);
}

#[test]
fn heavy_extract_of_undecodable_cover() {
    let mut status = EngineStatus::new();
    status.playlist = vec![music("a", 1000, Some(vec![1, 2, 3]))];
    status.playlist_order = vec![0];
    let e = heavy_extract(&status);
    assert_eq!(e.music_title, "a");
    assert!(e.cover.is_none());
    assert_eq!(e.final_timestamp, "0:01");
}

#[test]
fn heavy_extract_of_stale_order() {
    let mut status = EngineStatus::new();
    status.playlist_order = vec![3];
    let e = heavy_extract(&status);
    assert_eq!(e.music_title, "");
    assert_eq!(e.duration_millis, 0);
    assert_eq!(e.final_timestamp, "0:00");
    assert!(e.cover.is_none());
}

#[test]
fn tracker_reports_changes() {
    let mut tracker = StatusTracker::new();
    let mut status = EngineStatus::new();
    let u = tracker.observe(&status);
    assert!(u.is_empty && u.track_changed && !u.needs_heavy);
    let u = tracker.observe(&status);
    assert!(!u.track_changed);
    status.state = EngineState::Playing;
    let u = tracker.observe(&status);
    assert!(u.track_changed && u.needs_heavy);
    let u = tracker.observe(&status);
    assert!(!u.track_changed && !u.needs_heavy);
    status.current_track = 1;
    let u = tracker.observe(&status);
    assert!(u.track_changed && u.needs_heavy);
}
