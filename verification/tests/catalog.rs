use cli_rhythm::song::{identifier, Song};
use cli_rhythm::utils::{
    is_music_format, scan_folder_for_music, sort_songs, PopupState, ScannedFile, SearchCriteria,
    SortCriteria,
};

fn file(path: &str, title: &str, artist: &str, seconds: u64) -> ScannedFile {
    ScannedFile {
        path: path.to_string(),
        extension: Some("mp3".to_string()),
        title: Some(title.to_string()),
        artist: Some(artist.to_string()),
        album: Some("Album".to_string()),
        duration: Some(seconds * 1000),
    }
}

fn titles(songs: &[Song]) -> Vec<String> {
    songs.iter().map(|s| s.title.clone()).collect()
}

#[test]
fn a_popup_toggles() {
    let mut popup = PopupState { visible: false };
    popup.toggle();
    assert!(popup.visible);
    popup.toggle();
    assert!(!popup.visible);
}

#[test]
fn sort_criteria_follow_one_another() {
    assert_eq!(SortCriteria::Title.next(), SortCriteria::Artist);
    assert_eq!(SortCriteria::Artist.next(), SortCriteria::Duration);
    assert_eq!(SortCriteria::Duration.next(), SortCriteria::Shuffle);
    assert_eq!(SortCriteria::Shuffle.next(), SortCriteria::Title);
}

#[test]
fn sort_criteria_have_their_labels() {
    assert_eq!(SortCriteria::Title.label(), "Title");
    assert_eq!(SortCriteria::Artist.label(), "Artist");
    assert_eq!(SortCriteria::Duration.label(), "Duration");
    assert_eq!(SortCriteria::Shuffle.label(), "Shuffled");
}

#[test]
fn search_criteria_follow_one_another() {
    assert_eq!(SearchCriteria::Title.next(), SearchCriteria::Artist);
    assert_eq!(SearchCriteria::Artist.next(), SearchCriteria::Album);
    assert_eq!(SearchCriteria::Album.next(), SearchCriteria::Title);
}

#[test]
fn music_formats_are_four() {
    for ext in ["mp3", "wav", "flac", "aac"] {
        assert!(is_music_format(ext));
    }
    for ext in ["MP3", "ogg", "", "mp", "mp33", "m3u"] {
        assert!(!is_music_format(ext));
    }
}

#[test]
fn a_new_song_is_identified_by_its_path() {
    let song = Song::new(
        "Title".to_string(),
        "Artist".to_string(),
        "/music/x.mp3".to_string(),
        "Album".to_string(),
        1234,
    );
    assert_eq!(song.id, identifier("/music/x.mp3"));
    assert_eq!(song.title, "Title");
    assert_eq!(song.artist, "Artist");
    assert_eq!(song.album, "Album");
    assert_eq!(song.path, "/music/x.mp3");
    assert_eq!(song.duration, 1234);
    assert!(!song.is_playing);
    let copy = song.clone();
    assert_eq!(copy.id, song.id);
    assert_eq!(copy.path, song.path);
}

#[test]
fn two_scans_of_a_file_give_the_same_identifier() {
    let first = scan_folder_for_music(&vec![file("/music/a.mp3", "A", "x", 1)]);
    let second = scan_folder_for_music(&vec![file("/music/a.mp3", "Other title", "y", 2)]);
    assert_eq!(first[0].id, second[0].id);
}

#[test]
fn a_scan_keeps_the_music_files_in_order() {
    let mut text = file("/music/notes.txt", "N", "x", 1);
    text.extension = Some("txt".to_string());
    let mut bare = file("/music/README", "R", "x", 1);
    bare.extension = None;
    let songs = scan_folder_for_music(&vec![
        file("/music/b.mp3", "B", "x", 2),
        text,
        file("/music/a.mp3", "A", "y", 1),
        bare,
    ]);
    assert_eq!(titles(&songs), vec!["B", "A"]);
    assert_eq!(songs[0].duration, 2000);
    assert_eq!(songs[1].artist, "y");
}

#[test]
fn a_file_without_tags_is_kept_under_fallback_texts() {
    let songs = scan_folder_for_music(&vec![ScannedFile {
        path: "/music/raw.wav".to_string(),
        extension: Some("wav".to_string()),
        title: None,
        artist: None,
        album: None,
        duration: None,
    }]);
    assert_eq!(songs.len(), 1);
    assert_eq!(songs[0].title, "No Title");
    assert_eq!(songs[0].artist, "No Title");
    assert_eq!(songs[0].album, "None");
    assert_eq!(songs[0].duration, 0);
    assert_eq!(songs[0].id, identifier("/music/raw.wav"));
}

#[test]
fn an_empty_scan_yields_the_placeholder() {
    let songs = scan_folder_for_music(&Vec::new());
    assert_eq!(songs.len(), 1);
    assert_eq!(songs[0].title, "No songs in \"Music\" and current directory!");
    assert_eq!(songs[0].artist, "No Title");
    assert_eq!(songs[0].album, "None");
    assert_eq!(songs[0].path, "");
    assert_eq!(songs[0].duration, 0);
    assert_eq!(songs[0].id, identifier(""));
}

#[test]
fn sorting_by_title_ignores_case_and_is_stable() {
    let mut songs = scan_folder_for_music(&vec![
        file("/m/1.mp3", "beta", "1", 5),
        file("/m/2.mp3", "Alpha", "2", 4),
        file("/m/3.mp3", "BETA", "3", 3),
        file("/m/4.mp3", "alpha", "4", 2),
        file("/m/5.mp3", "Gamma", "5", 1),
    ]);
    sort_songs(&mut songs, &SortCriteria::Title);
    assert_eq!(titles(&songs), vec!["Alpha", "alpha", "beta", "BETA", "Gamma"]);
}

#[test]
fn sorting_by_artist_ignores_case() {
    let mut songs = scan_folder_for_music(&vec![
        file("/m/1.mp3", "1", "zappa", 5),
        file("/m/2.mp3", "2", "Abba", 4),
        file("/m/3.mp3", "3", "Muse", 3),
    ]);
    sort_songs(&mut songs, &SortCriteria::Artist);
    assert_eq!(titles(&songs), vec!["2", "3", "1"]);
}

#[test]
fn sorting_by_duration_is_stable() {
    let mut songs = scan_folder_for_music(&vec![
        file("/m/1.mp3", "long", "x", 300),
        file("/m/2.mp3", "short", "x", 10),
        file("/m/3.mp3", "also short", "x", 10),
        file("/m/4.mp3", "unknown", "x", 0),
    ]);
    sort_songs(&mut songs, &SortCriteria::Duration);
    assert_eq!(titles(&songs), vec!["unknown", "short", "also short", "long"]);
}

#[test]
fn sorting_agrees_with_the_standard_stable_sort() {
    let names = ["d", "B", "a", "C", "b", "A", "e", "D", "c", "E", "aa", "", "Ab"];
    let files: Vec<ScannedFile> = names
        .iter()
        .enumerate()
        .map(|(i, n)| file(&format!("/m/{i}.mp3"), n, n, (i as u64 * 7) % 5))
        .collect();
    let mut songs = scan_folder_for_music(&files);
    let mut expected = scan_folder_for_music(&files);
    sort_songs(&mut songs, &SortCriteria::Title);
    expected.sort_by(|a, b| a.title.to_lowercase().cmp(&b.title.to_lowercase()));
    assert_eq!(
        songs.iter().map(|s| s.id).collect::<Vec<_>>(),
        expected.iter().map(|s| s.id).collect::<Vec<_>>()
    );
    sort_songs(&mut songs, &SortCriteria::Duration);
    expected.sort_by(|a, b| a.duration.cmp(&b.duration));
    assert_eq!(
        songs.iter().map(|s| s.id).collect::<Vec<_>>(),
        expected.iter().map(|s| s.id).collect::<Vec<_>>()
    );
}

#[test]
fn shuffling_rearranges_and_loses_nothing() {
    let files: Vec<ScannedFile> =
        (0..40).map(|i| file(&format!("/m/{i}.mp3"), &format!("{i:02}"), "x", i)).collect();
    let mut songs = scan_folder_for_music(&files);
    let before: Vec<u128> = songs.iter().map(|s| s.id).collect();
    let mut changed = false;
    for _ in 0..5 {
        sort_songs(&mut songs, &SortCriteria::Shuffle);
        let after: Vec<u128> = songs.iter().map(|s| s.id).collect();
        changed = changed || after != before;
        let mut left = before.clone();
        let mut right = after.clone();
        left.sort();
        right.sort();
        assert_eq!(left, right);
    }
    assert!(changed);
}

#[test]
fn sorting_nothing_is_nothing() {
    let mut songs: Vec<Song> = Vec::new();
    sort_songs(&mut songs, &SortCriteria::Title);
    assert!(songs.is_empty());
    sort_songs(&mut songs, &SortCriteria::Shuffle);
    assert!(songs.is_empty());
}
