//! A song of the catalog and the identifier that its path gives it.

use uuid::Uuid;
use vstd::prelude::*;
use vstd::utf8::encode_utf8;

verus! {

/// The name-based identifier (version 5, SHA-1) of `name` in the DNS
/// namespace, as a 128-bit number.
pub uninterp spec fn uuid_v5_dns(name: Seq<u8>) -> u128;

/// Calls `Uuid::new_v5` with `Uuid::NAMESPACE_DNS` and packs the result with
/// `Uuid::as_u128`. The identifier depends on the bytes of the name alone;
/// the contract names it `uuid_v5_dns` and claims nothing else of it.
#[verifier::external_body]
fn name_based_id(name: &[u8]) -> (id: u128)
    ensures
        id == uuid_v5_dns(name@),
{
    Uuid::new_v5(&Uuid::NAMESPACE_DNS, name).as_u128()
}

/// The identifier of the song at `path`: the name-based identifier of the
/// path's UTF-8 bytes.
pub open spec fn path_identifier(path: Seq<char>) -> u128 {
    uuid_v5_dns(encode_utf8(path))
}

/// The identifier of the song at `path`. It depends on the path alone, so a
/// file keeps its identifier from one scan to the next.
pub fn identifier(path: &str) -> (id: u128)
    ensures
        id == path_identifier(path@),
{
    name_based_id(path.as_bytes())
}

/// One playable file with its metadata. The duration is in milliseconds;
/// zero stands for a duration that is not known.
#[derive(Debug)]
pub struct Song {
    pub id: u128,
    pub title: String,
    pub artist: String,
    pub path: String,
    pub album: String,
    pub duration: u64,
    pub is_playing: bool,
}

/// What a song is, as plain values.
pub struct SongView {
    pub id: u128,
    pub title: Seq<char>,
    pub artist: Seq<char>,
    pub path: Seq<char>,
    pub album: Seq<char>,
    pub duration: u64,
    pub is_playing: bool,
}

impl View for Song {
    type V = SongView;

    open spec fn view(&self) -> SongView {
        SongView {
            id: self.id,
            title: self.title@,
            artist: self.artist@,
            path: self.path@,
            album: self.album@,
            duration: self.duration,
            is_playing: self.is_playing,
        }
    }
}

impl SongView {
    /// The identifier is the one that the path gives.
    pub open spec fn wf(self) -> bool {
        self.id == path_identifier(self.path)
    }

    /// The same song with its playing mark set to `playing`.
    pub open spec fn marked(self, playing: bool) -> SongView {
        SongView { is_playing: playing, ..self }
    }
}

/// The songs of a sequence as plain values.
pub open spec fn views_of(songs: Seq<Song>) -> Seq<SongView> {
    songs.map_values(|s: Song| s@)
}

/// The identifiers of a sequence of songs, in order.
pub open spec fn ids_of(songs: Seq<SongView>) -> Seq<u128> {
    songs.map_values(|s: SongView| s.id)
}

impl Song {
    /// A song that is not playing, identified by its path.
    pub fn new(title: String, artist: String, path: String, album: String, duration: u64) -> (song: Song)
        ensures
            song@ == (SongView {
                id: path_identifier(path@),
                title: title@,
                artist: artist@,
                path: path@,
                album: album@,
                duration,
                is_playing: false,
            }),
            song@.wf(),
    {
        let id: u128 = identifier(path.as_str());
        Song { id, title, artist, path, album, duration, is_playing: false }
    }
}

impl Clone for Song {
    fn clone(&self) -> (copy: Song)
        ensures
            copy == *self,
    {
        Song {
            id: self.id,
            title: self.title.clone(),
            artist: self.artist.clone(),
            path: self.path.clone(),
            album: self.album.clone(),
            duration: self.duration,
            is_playing: self.is_playing,
        }
    }
}

} // verus!
