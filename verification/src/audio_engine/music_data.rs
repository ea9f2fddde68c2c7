use vstd::prelude::*;

verus! {

/// The metadata of a track without its file and cover; the length is in
/// milliseconds.
#[derive(Clone, Debug)]
pub struct MusicData {
    title: String,
    album: String,
    album_artist: String,
    length_millis: u64,
}

} // verus!
