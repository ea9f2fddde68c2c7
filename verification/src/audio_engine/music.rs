use vstd::prelude::*;

verus! {

/// One track of the playlist with the metadata that the window shows.
///
/// The track's length is kept in milliseconds.
#[derive(Clone, Debug)]
pub struct Music {
    pub path: String,
    pub title: String,
    pub album: String,
    pub album_artist: String,
    pub length_millis: u64,
    pub cover_bytes: Option<Vec<u8>>,
}

/// A picture embedded in a file's tag: whether the tag marks it as the front
/// cover, and its encoded bytes.
#[derive(Clone, Debug)]
pub struct PictureInfo {
    pub is_front_cover: bool,
    pub data: Vec<u8>,
}

/// The fields of a file's main tag that the player reads.
#[derive(Clone, Debug)]
pub struct TagInfo {
    pub title: Option<String>,
    pub album: Option<String>,
    pub album_artist: Option<String>,
    pub pictures: Vec<PictureInfo>,
}

/// What was read of an audio file: the stem of its file name, its length in
/// milliseconds, the tag of the file format's primary tag type, if the file
/// holds one, and the first of its tags, if it holds any.
#[derive(Clone, Debug)]
pub struct AudioFileInfo {
    pub file_stem: String,
    pub length_millis: u64,
    pub primary_tag: Option<TagInfo>,
    pub first_tag: Option<TagInfo>,
}

/// The tag that a track reads: the primary one, else the first one.
pub open spec fn chosen_tag(info: AudioFileInfo) -> Option<TagInfo> {
    match info.primary_tag {
        Some(t) => Some(t),
        None => info.first_tag,
    }
}

/// Index `i` holds the first picture that is marked as the front cover.
pub open spec fn is_first_front_cover(pictures: Seq<PictureInfo>, i: int) -> bool {
    &&& 0 <= i < pictures.len()
    &&& pictures[i].is_front_cover
    &&& forall|j: int| 0 <= j < i ==> !(#[trigger] pictures[j]).is_front_cover
}

/// Some picture is marked as the front cover.
pub open spec fn has_front_cover(pictures: Seq<PictureInfo>) -> bool {
    exists|i: int| 0 <= i < pictures.len() && (#[trigger] pictures[i]).is_front_cover
}

/// The cover that a track takes from its pictures: the first front cover,
/// else the first picture, else none.
pub open spec fn chosen_cover(pictures: Seq<PictureInfo>, cover: Option<Vec<u8>>) -> bool {
    if has_front_cover(pictures) {
        exists|i: int| is_first_front_cover(pictures, i) && cover == Some(pictures[i].data)
    } else if pictures.len() > 0 {
        cover == Some(pictures[0].data)
    } else {
        cover is None
    }
}

/// The cover a track takes is one of its pictures, exists exactly when it has
/// pictures, is the first picture when that one is marked as the front
/// cover, is a front cover whenever it has one, and is determined by the
/// pictures.
pub proof fn lemma_chosen_cover_behaviour(pictures: Seq<PictureInfo>, cover: Option<Vec<u8>>, other: Option<Vec<u8>>)
    requires
        chosen_cover(pictures, cover),
    ensures
        cover is Some <==> pictures.len() > 0,
        cover matches Some(d) ==> exists|i: int| 0 <= i < pictures.len() && (#[trigger] pictures[i]).data == d,
        pictures.len() > 0 && pictures[0].is_front_cover ==> cover == Some(pictures[0].data),
        has_front_cover(pictures) ==> exists|i: int|
            0 <= i < pictures.len() && (#[trigger] pictures[i]).is_front_cover && cover == Some(pictures[i].data),
        chosen_cover(pictures, other) ==> other == cover,
{
    if has_front_cover(pictures) {
        let i = choose|i: int| is_first_front_cover(pictures, i) && cover == Some(pictures[i].data);
        if pictures.len() > 0 && pictures[0].is_front_cover {
            assert(i == 0);
        }
        if chosen_cover(pictures, other) {
            let j = choose|j: int| is_first_front_cover(pictures, j) && other == Some(pictures[j].data);
            if i < j {
                assert(!pictures[i].is_front_cover);
            } else if j < i {
                assert(!pictures[j].is_front_cover);
            }
        }
    } else if pictures.len() > 0 {
        assert(pictures[0].data == pictures[0].data);
    }
}

/// The value of an optional text field, or the fallback.
pub open spec fn text_or(field: Option<String>, fallback: Seq<char>) -> Seq<char> {
    match field {
        Some(s) => s@,
        None => fallback,
    }
}

/// Finds the first front cover, if any.
fn find_front_cover(pictures: &Vec<PictureInfo>) -> (found: Option<usize>)
    ensures
        match found {
            Some(i) => is_first_front_cover(pictures@, i as int),
            None => !has_front_cover(pictures@),
        },
{
    let mut i: usize = 0;
    while i < pictures.len()
        invariant
            i <= pictures@.len(),
            forall|j: int| 0 <= j < i ==> !(#[trigger] pictures@[j]).is_front_cover,
        decreases pictures@.len() - i,
    {
        if pictures[i].is_front_cover {
            return Some(i);
        }
        i = i + 1;
    }
    None
}

impl Music {
    /// Builds a track from what was read of its file. Of its tags it reads
    /// the primary one, else the first one: the tag's title, album
    /// and album artist where the tag has them, else the file's stem,
    /// "Unknown Album" and "Unknown Artist"; as cover, the first picture
    /// marked as the front cover, else the first picture.
    pub fn new(path: String, info: AudioFileInfo) -> (music: Music)
        ensures
            music.path == path,
            music.length_millis == info.length_millis,
            match chosen_tag(info) {
                None => {
                    &&& music.title@ == info.file_stem@
                    &&& music.album@ == "Unknown Album"@
                    &&& music.album_artist@ == "Unknown Artist"@
                    &&& music.cover_bytes is None
                },
                Some(tag) => {
                    &&& music.title@ == text_or(tag.title, info.file_stem@)
                    &&& music.album@ == text_or(tag.album, "Unknown Album"@)
                    &&& music.album_artist@ == text_or(tag.album_artist, "Unknown Artist"@)
                    &&& chosen_cover(tag.pictures@, music.cover_bytes)
                },
            },
    {
        let AudioFileInfo { file_stem, length_millis, primary_tag, first_tag } = info;
        let tag = match primary_tag {
            Some(t) => Some(t),
            None => first_tag,
        };
        let mut title = file_stem;
        let mut album = String::from_str("Unknown Album");
        let mut album_artist = String::from_str("Unknown Artist");
        let mut cover_bytes: Option<Vec<u8>> = None;
        match tag {
            None => {},
            Some(tag) => {
                let TagInfo { title: t, album: al, album_artist: aa, pictures } = tag;
                let mut pictures = pictures;
                if let Some(t) = t {
                    title = t;
                }
                if let Some(al) = al {
                    album = al;
                }
                if let Some(aa) = aa {
                    album_artist = aa;
                }
                match find_front_cover(&pictures) {
                    Some(i) => {
                        let pic = pictures.remove(i);
                        cover_bytes = Some(pic.data);
                    },
                    None => {
                        if pictures.len() > 0 {
                            let pic = pictures.remove(0);
                            cover_bytes = Some(pic.data);
                        }
                    },
                }
            },
        }
        Music { path, title, album, album_artist, length_millis, cover_bytes }
    }
}

} // verus!
