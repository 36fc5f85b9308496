//! Popups, search and sort criteria, and the catalog that a scan of the music
//! folder yields.

use crate::order::{insert_position, sorted_by, sorts_before};
use crate::song::{path_identifier, views_of, Song, SongView};
use crate::text::{lower_chars, lowercase, same_text, text_before};
use rand::seq::SliceRandom;
use vstd::prelude::*;

verus! {

/// Whether a popup is shown.
#[derive(Clone, Copy, Debug, PartialEq, Eq, Structural)]
pub struct PopupState {
    pub visible: bool,
}

impl PopupState {
    /// Show a hidden popup, hide a shown one.
    pub fn toggle(&mut self)
        ensures
            final(self).visible == !old(self).visible,
    {
        self.visible = !self.visible;
    }
}

/// The field of a song that the search text is held against.
#[derive(Clone, Copy, Debug, PartialEq, Eq, Structural)]
pub enum SearchCriteria {
    Title,
    Artist,
    Album,
}

impl SearchCriteria {
    /// The criterion that follows this one: title, artist, album, and round
    /// again.
    pub open spec fn successor(self) -> SearchCriteria {
        match self {
            SearchCriteria::Title => SearchCriteria::Artist,
            SearchCriteria::Artist => SearchCriteria::Album,
            SearchCriteria::Album => SearchCriteria::Title,
        }
    }

    /// The criterion that follows this one.
    pub fn next(&self) -> (following: SearchCriteria)
        ensures
            following == self.successor(),
    {
        match self {
            SearchCriteria::Title => SearchCriteria::Artist,
            SearchCriteria::Artist => SearchCriteria::Album,
            SearchCriteria::Album => SearchCriteria::Title,
        }
    }

    /// The title of the search bar under this criterion.
    pub open spec fn label_text(self) -> Seq<char> {
        match self {
            SearchCriteria::Title => "Search by Title"@,
            SearchCriteria::Artist => "Search by Artist"@,
            SearchCriteria::Album => "Search by Album"@,
        }
    }

    /// The title of the search bar under this criterion.
    pub fn label(&self) -> (name: String)
        ensures
            name@ == self.label_text(),
    {
        match self {
            SearchCriteria::Title => "Search by Title".to_owned(),
            SearchCriteria::Artist => "Search by Artist".to_owned(),
            SearchCriteria::Album => "Search by Album".to_owned(),
        }
    }

    /// The field of `song` that this criterion searches.
    pub open spec fn field(self, song: SongView) -> Seq<char> {
        match self {
            SearchCriteria::Title => song.title,
            SearchCriteria::Artist => song.artist,
            SearchCriteria::Album => song.album,
        }
    }
}

/// The key by which the catalog is ordered.
#[derive(Clone, Copy, Debug, PartialEq, Eq, Structural)]
pub enum SortCriteria {
    Title,
    Artist,
    Duration,
    Shuffle,
}

impl SortCriteria {
    /// The criterion that follows this one: title, artist, duration,
    /// shuffle, and round again.
    pub open spec fn successor(self) -> SortCriteria {
        match self {
            SortCriteria::Title => SortCriteria::Artist,
            SortCriteria::Artist => SortCriteria::Duration,
            SortCriteria::Duration => SortCriteria::Shuffle,
            SortCriteria::Shuffle => SortCriteria::Title,
        }
    }

    /// The criterion that follows this one.
    pub fn next(&self) -> (following: SortCriteria)
        ensures
            following == self.successor(),
    {
        match self {
            SortCriteria::Title => SortCriteria::Artist,
            SortCriteria::Artist => SortCriteria::Duration,
            SortCriteria::Duration => SortCriteria::Shuffle,
            SortCriteria::Shuffle => SortCriteria::Title,
        }
    }

    /// The name under which the criterion is shown.
    pub open spec fn label_text(self) -> Seq<char> {
        match self {
            SortCriteria::Title => "Title"@,
            SortCriteria::Artist => "Artist"@,
            SortCriteria::Duration => "Duration"@,
            SortCriteria::Shuffle => "Shuffled"@,
        }
    }

    /// The name under which the criterion is shown.
    pub fn label(&self) -> (name: String)
        ensures
            name@ == self.label_text(),
    {
        match self {
            SortCriteria::Title => "Title".to_owned(),
            SortCriteria::Artist => "Artist".to_owned(),
            SortCriteria::Duration => "Duration".to_owned(),
            SortCriteria::Shuffle => "Shuffled".to_owned(),
        }
    }
}

/// Whether files with this extension are music: `mp3`, `wav`, `flac` or
/// `aac`, in lower case.
pub open spec fn music_format(extension: Seq<char>) -> bool {
    extension == "mp3"@ || extension == "wav"@ || extension == "flac"@ || extension == "aac"@
}

/// Whether files with this extension are taken into the catalog.
pub fn is_music_format(extension: &str) -> (supported: bool)
    ensures
        supported == music_format(extension@),
{
    same_text(extension, "mp3") || same_text(extension, "wav") || same_text(extension, "flac")
        || same_text(extension, "aac")
}

/// What a scan found out about one file of the music folder. A tag that
/// could not be read is `None`; a file whose tags could not be read at all
/// has every tag `None`.
#[derive(Debug)]
pub struct ScannedFile {
    pub path: String,
    pub extension: Option<String>,
    pub title: Option<String>,
    pub artist: Option<String>,
    pub album: Option<String>,
    pub duration: Option<u64>,
}

/// A scanned file as plain values.
pub struct ScannedFileView {
    pub path: Seq<char>,
    pub extension: Option<Seq<char>>,
    pub title: Option<Seq<char>>,
    pub artist: Option<Seq<char>>,
    pub album: Option<Seq<char>>,
    pub duration: Option<u64>,
}

/// The text of an optional string.
pub open spec fn text_of(value: Option<String>) -> Option<Seq<char>> {
    match value {
        Some(s) => Some(s@),
        None => None,
    }
}

impl View for ScannedFile {
    type V = ScannedFileView;

    open spec fn view(&self) -> ScannedFileView {
        ScannedFileView {
            path: self.path@,
            extension: text_of(self.extension),
            title: text_of(self.title),
            artist: text_of(self.artist),
            album: text_of(self.album),
            duration: self.duration,
        }
    }
}

/// `value`, or `fallback` where there is none.
pub open spec fn or_text(value: Option<Seq<char>>, fallback: Seq<char>) -> Seq<char> {
    match value {
        Some(text) => text,
        None => fallback,
    }
}

impl ScannedFileView {
    /// The file has an extension, and it is one of the music formats.
    pub open spec fn is_music(self) -> bool {
        self.extension matches Some(ext) && music_format(ext)
    }

    /// The song that the file becomes. A missing title or artist reads
    /// "No Title", a missing album "None", a missing duration is zero.
    pub open spec fn song(self) -> SongView {
        SongView {
            id: path_identifier(self.path),
            title: or_text(self.title, "No Title"@),
            artist: or_text(self.artist, "No Title"@),
            path: self.path,
            album: or_text(self.album, "None"@),
            duration: match self.duration {
                Some(ms) => ms,
                None => 0,
            },
            is_playing: false,
        }
    }
}

/// The files of a scan as plain values.
pub open spec fn scans_of(files: Seq<ScannedFile>) -> Seq<ScannedFileView> {
    files.map_values(|f: ScannedFile| f@)
}

/// The song that stands in for an empty catalog.
pub open spec fn placeholder_song() -> SongView {
    SongView {
        id: path_identifier(Seq::empty()),
        title: "No songs in \"Music\" and current directory!"@,
        artist: "No Title"@,
        path: Seq::empty(),
        album: "None"@,
        duration: 0,
        is_playing: false,
    }
}

/// The songs of the music files among `files`, in the order of the scan.
pub open spec fn music_of(files: Seq<ScannedFileView>) -> Seq<SongView> {
    files.filter(|f: ScannedFileView| f.is_music()).map_values(|f: ScannedFileView| f.song())
}

/// The catalog that a scan yields: the songs of its music files, or the
/// placeholder alone where there is none.
pub open spec fn catalog_of(files: Seq<ScannedFileView>) -> Seq<SongView> {
    if music_of(files).len() == 0 {
        seq![placeholder_song()]
    } else {
        music_of(files)
    }
}

/// No song of a catalog is marked as playing, and each has the identifier
/// of its path.
pub proof fn lemma_catalog_unmarked(files: Seq<ScannedFileView>, at: int)
    requires
        0 <= at < catalog_of(files).len(),
    ensures
        !catalog_of(files)[at].is_playing,
        catalog_of(files)[at].wf(),
{
}

fn text_or(value: &Option<String>, fallback: &str) -> (text: String)
    ensures
        text@ == or_text(text_of(*value), fallback@),
{
    match value {
        Some(given) => given.clone(),
        None => fallback.to_owned(),
    }
}

/// Whether the file is a music file by its extension.
pub fn is_music_file(file: &ScannedFile) -> (music: bool)
    ensures
        music == file@.is_music(),
{
    match &file.extension {
        Some(ext) => is_music_format(ext.as_str()),
        None => false,
    }
}

/// The song that a scanned file becomes.
pub fn song_of_scan(file: &ScannedFile) -> (song: Song)
    ensures
        song@ == file@.song(),
        song@.wf(),
{
    let duration: u64 = match file.duration {
        Some(ms) => ms,
        None => 0,
    };
    Song::new(
        text_or(&file.title, "No Title"),
        text_or(&file.artist, "No Title"),
        file.path.clone(),
        text_or(&file.album, "None"),
        duration,
    )
}

/// The song that stands in for an empty catalog.
pub fn placeholder() -> (song: Song)
    ensures
        song@ == placeholder_song(),
        song@.wf(),
{
    Song::new(
        "No songs in \"Music\" and current directory!".to_owned(),
        "No Title".to_owned(),
        String::new(),
        "None".to_owned(),
        0,
    )
}

/// The catalog of a scan: one song for each music file, in the order of the
/// scan; a file whose tags could not be read is kept, under the fallback
/// texts. A scan without music yields the placeholder song alone, so the
/// catalog is never empty.
pub fn scan_folder_for_music(files: &Vec<ScannedFile>) -> (songs: Vec<Song>)
    ensures
        views_of(songs@) == catalog_of(scans_of(files@)),
        songs@.len() > 0,
        forall|i: int| 0 <= i < songs@.len() ==> (#[trigger] songs@[i])@.wf(),
{
    let mut songs: Vec<Song> = Vec::new();
    let mut i: usize = 0;
    proof {
        assert(scans_of(files@).take(0) =~= Seq::empty());
        assert(views_of(songs@) =~= music_of(scans_of(files@).take(0)));
    }
    while i < files.len()
        invariant
            i <= files.len(),
            views_of(songs@) == music_of(scans_of(files@).take(i as int)),
            forall|k: int| 0 <= k < songs@.len() ==> (#[trigger] songs@[k])@.wf(),
        decreases files.len() - i,
    {
        let file = &files[i];
        proof {
            broadcast use Seq::lemma_filter_push, Seq::lemma_push_map_commute;

            let scans = scans_of(files@);
            assert(scans.take(i + 1) =~= scans.take(i as int).push(file@));
        }
        if is_music_file(file) {
            let song = song_of_scan(file);
            proof {
                broadcast use Seq::lemma_push_map_commute;

                assert(views_of(songs@.push(song)) =~= views_of(songs@).push(song@));
            }
            songs.push(song);
        }
        i += 1;
    }
    proof {
        assert(scans_of(files@).take(files@.len() as int) =~= scans_of(files@));
    }
    if songs.len() == 0 {
        songs.push(placeholder());
        proof {
            assert(views_of(songs@) =~= seq![placeholder_song()]);
        }
    }
    songs
}

/// Calls rand's `SliceRandom::shuffle` on the songs, with the generator of
/// the thread (`rand::rng`). Which order comes out is left open: the
/// contract says only that the songs are rearranged, each occurring as often
/// as before.
#[verifier::external_body]
fn shuffle(songs: &mut Vec<Song>)
    ensures
        views_of(final(songs)@).to_multiset() == views_of(old(songs)@).to_multiset(),
{
    songs.shuffle(&mut rand::rng());
}

/// What a song is ordered by, computed once before the sort.
enum SortKey {
    Text(Vec<char>),
    Number(u64),
}

/// `key` is what `song` is ordered by under the criterion.
spec fn key_matches(key: SortKey, song: SongView, by: SortCriteria) -> bool {
    match by {
        SortCriteria::Title => key matches SortKey::Text(t) && t@ == lowercase(song.title),
        SortCriteria::Artist => key matches SortKey::Text(t) && t@ == lowercase(song.artist),
        SortCriteria::Duration => key matches SortKey::Number(n) && n == song.duration,
        SortCriteria::Shuffle => true,
    }
}

fn key_of(song: &Song, by: &SortCriteria) -> (key: SortKey)
    ensures
        key_matches(key, song@, *by),
{
    match by {
        SortCriteria::Title => SortKey::Text(lower_chars(song.title.as_str())),
        SortCriteria::Artist => SortKey::Text(lower_chars(song.artist.as_str())),
        _ => SortKey::Number(song.duration),
    }
}

fn key_before(
    a: &SortKey,
    b: &SortKey,
    Ghost(first): Ghost<SongView>,
    Ghost(second): Ghost<SongView>,
    Ghost(by): Ghost<SortCriteria>,
) -> (before: bool)
    requires
        by != SortCriteria::Shuffle,
        key_matches(*a, first, by),
        key_matches(*b, second, by),
    ensures
        before == sorts_before(first, second, by),
{
    match (a, b) {
        (SortKey::Text(x), SortKey::Text(y)) => text_before(x, y),
        (SortKey::Number(x), SortKey::Number(y)) => *x < *y,
        _ => false,
    }
}

/// Put the songs in the order of the criterion. By title, artist or
/// duration the sort is stable, and its result is `sorted_by`; `Shuffle`
/// rearranges the songs anew on every call, in an order left to chance.
pub fn sort_songs(songs: &mut Vec<Song>, criteria: &SortCriteria)
    ensures
        *criteria != SortCriteria::Shuffle ==> views_of(final(songs)@) == sorted_by(
            views_of(old(songs)@),
            *criteria,
        ),
        *criteria == SortCriteria::Shuffle ==> views_of(final(songs)@).to_multiset() == views_of(
            old(songs)@,
        ).to_multiset(),
{
    if let SortCriteria::Shuffle = criteria {
        shuffle(songs);
        return ;
    }
    let ghost by = *criteria;
    let ghost unsorted = views_of(songs@);
    let n: usize = songs.len();
    let mut keys: Vec<SortKey> = Vec::new();
    let mut j: usize = 0;
    while j < n
        invariant
            j <= n,
            n == songs.len(),
            keys.len() == j,
            forall|k: int| 0 <= k < j ==> key_matches(#[trigger] keys@[k], songs@[k]@, *criteria),
        decreases n - j,
    {
        keys.push(key_of(&songs[j], criteria));
        j += 1;
    }
    let mut i: usize = 0;
    proof {
        assert(views_of(songs@).take(0) =~= sorted_by(unsorted.take(0), by));
        assert(views_of(songs@).skip(0) =~= unsorted.skip(0));
    }
    while i < n
        invariant
            i <= n,
            n == songs.len(),
            n == keys.len(),
            n == unsorted.len(),
            by == *criteria,
            by != SortCriteria::Shuffle,
            views_of(songs@).take(i as int) == sorted_by(unsorted.take(i as int), by),
            views_of(songs@).skip(i as int) == unsorted.skip(i as int),
            forall|k: int| 0 <= k < n ==> key_matches(#[trigger] keys@[k], songs@[k]@, by),
        decreases n - i,
    {
        let ghost before = views_of(songs@);
        let ghost new = before[i as int];
        let mut k: usize = i;
        proof {
            assert(before.take(i as int).take(i as int) =~= before.take(i as int));
        }
        while k > 0 && key_before(
            &keys[i],
            &keys[k - 1],
            Ghost(songs@[i as int]@),
            Ghost(songs@[k - 1]@),
            Ghost(by),
        )
            invariant
                k <= i < n,
                n == songs.len(),
                n == keys.len(),
                by != SortCriteria::Shuffle,
                before == views_of(songs@),
                new == before[i as int],
                forall|k: int| 0 <= k < n ==> key_matches(#[trigger] keys@[k], songs@[k]@, by),
                insert_position(before.take(i as int), new, by) == insert_position(
                    before.take(k as int),
                    new,
                    by,
                ),
            decreases k,
        {
            proof {
                assert(before.take(k as int).last() == before[k - 1]);
                assert(before.take(k as int).drop_last() =~= before.take(k - 1));
            }
            k -= 1;
        }
        proof {
            if k > 0 {
                assert(before.take(k as int).last() == before[k - 1]);
            }
            assert(insert_position(before.take(i as int), new, by) == k);
            assert(unsorted.take(i + 1).drop_last() =~= unsorted.take(i as int));
            assert(unsorted.take(i + 1).last() == unsorted[i as int]);
            assert(unsorted[i as int] == unsorted.skip(i as int)[0]);
            assert(new == before.skip(i as int)[0]);
        }
        if k < i {
            let song = songs.remove(i);
            songs.insert(k, song);
            let key = keys.remove(i);
            keys.insert(k, key);
        }
        proof {
            let after = views_of(songs@);
            assert(after.take(i + 1) =~= before.take(i as int).insert(k as int, new));
            assert(after.skip(i + 1) =~= before.skip(i as int).skip(1));
            assert(unsorted.skip(i + 1) =~= unsorted.skip(i as int).skip(1));
        }
        i += 1;
    }
    proof {
        assert(views_of(songs@).take(n as int) =~= views_of(songs@));
        assert(unsorted.take(n as int) =~= unsorted);
    }
}

} // verus!
