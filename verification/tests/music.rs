use sine_music_player::audio_engine::engine_commands::is_music_file;
use sine_music_player::audio_engine::music::{AudioFileInfo, Music, PictureInfo, TagInfo};

fn picture(front: bool, byte: u8) -> PictureInfo {
    PictureInfo { is_front_cover: front, data: vec![byte] }
}

#[test]
fn untagged_file_uses_stem_and_defaults() {
    let m = Music::new(
        "/m/song.flac".to_string(),
        AudioFileInfo { file_stem: "song".to_string(), length_millis: 61_500, primary_tag: None, first_tag: None },
    );
    assert_eq!(m.path, "/m/song.flac");
    assert_eq!(m.title, "song");
    assert_eq!(m.album, "Unknown Album");
    assert_eq!(m.album_artist, "Unknown Artist");
    assert_eq!(m.length_millis, 61_500);
    assert!(m.cover_bytes.is_none());
}

#[test]
fn tag_fields_override_defaults() {
    let tag = TagInfo {
        title: Some("Title".to_string()),
        album: None,
        album_artist: Some("Artist".to_string()),
        pictures: Vec::new(),
    };
    let m = Music::new(
        "/m/x.mp3".to_string(),
        AudioFileInfo { file_stem: "x".to_string(), length_millis: 0, primary_tag: Some(tag), first_tag: None },
    );
    assert_eq!(m.title, "Title");
    assert_eq!(m.album, "Unknown Album");
    assert_eq!(m.album_artist, "Artist");
    assert!(m.cover_bytes.is_none());
}

#[test]
fn tag_without_title_keeps_stem() {
    let tag = TagInfo {
        title: None,
        album: Some("Album".to_string()),
        album_artist: None,
        pictures: Vec::new(),
    };
    let m = Music::new(
        "/m/x.mp3".to_string(),
        AudioFileInfo { file_stem: "x".to_string(), length_millis: 0, primary_tag: Some(tag), first_tag: None },
    );
    assert_eq!(m.title, "x");
    assert_eq!(m.album, "Album");
    assert_eq!(m.album_artist, "Unknown Artist");
}

#[test]
fn front_cover_is_preferred() {
    let tag = TagInfo {
        title: None,
        album: None,
        album_artist: None,
        pictures: vec![picture(false, 1), picture(true, 2), picture(true, 3)],
    };
    let m = Music::new(
        "p".to_string(),
        AudioFileInfo { file_stem: "p".to_string(), length_millis: 0, primary_tag: Some(tag), first_tag: None },
    );
    assert_eq!(m.cover_bytes, Some(vec![2]));
}

#[test]
fn first_picture_without_front_cover() {
    let tag = TagInfo {
        title: None,
        album: None,
        album_artist: None,
        pictures: vec![picture(false, 7), picture(false, 8)],
    };
    let m = Music::new(
        "p".to_string(),
        AudioFileInfo { file_stem: "p".to_string(), length_millis: 0, primary_tag: Some(tag), first_tag: None },
    );
    assert_eq!(m.cover_bytes, Some(vec![7]));
}

#[test]
fn music_extensions_ignore_case() {
    for ext in ["opus", "mp3", "flac", "wav", "ogg", "m4a", "MP3", "Flac", "OGG", "M4A"] {
        assert!(is_music_file(Some(ext)), "{ext}");
    }
    for ext in ["txt", "mp4", "mp", "mp33", "", "jpg", "ógg"] {
        assert!(!is_music_file(Some(ext)), "{ext}");
    }
    assert!(!is_music_file(None));
}

#[test]
fn primary_tag_is_preferred_over_first() {
    let tag = |title: &str| TagInfo {
        title: Some(title.to_string()),
        album: None,
        album_artist: None,
        pictures: Vec::new(),
    };
    let m = Music::new(
        "p".to_string(),
        AudioFileInfo {
            file_stem: "p".to_string(),
            length_millis: 0,
            primary_tag: Some(tag("primary")),
            first_tag: Some(tag("first")),
        },
    );
    assert_eq!(m.title, "primary");
    let m = Music::new(
        "p".to_string(),
        AudioFileInfo {
            file_stem: "p".to_string(),
            length_millis: 0,
            primary_tag: None,
            first_tag: Some(tag("first")),
        },
    );
    assert_eq!(m.title, "first");
}
