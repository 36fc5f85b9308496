use cli_rhythm::app::MyApp;
use cli_rhythm::display::{
    clock_text, details_text, join_lines, progress_text, progress_thousandths, push_decimal,
    push_two_digits, song_details,
};
use cli_rhythm::model::{Direction, Mark};
use cli_rhythm::song::{identifier, Song};
use cli_rhythm::ui::{corner_hint_area, hint_popup_area, name_input_area, name_popup_area, Area};
use cli_rhythm::utils::{ScannedFile, SearchCriteria};

fn song(title: &str, artist: &str, album: &str, ms: u64) -> Song {
    Song::new(title.to_string(), artist.to_string(), "/m/x.mp3".to_string(), album.to_string(), ms)
}

fn file(path: &str, title: &str, seconds: u64) -> ScannedFile {
    ScannedFile {
        path: path.to_string(),
        extension: Some("flac".to_string()),
        title: Some(title.to_string()),
        artist: Some("Artist".to_string()),
        album: Some("Album".to_string()),
        duration: Some(seconds * 1000),
    }
}

fn player() -> MyApp {
    let mut app = MyApp::new();
    app.load_songs(&vec![
        file("/m/1.flac", "One", 61),
        file("/m/2.flac", "Two", 125),
        file("/m/3.flac", "Three", 5),
        file("/m/4.flac", "Four", 600),
        file("/m/5.flac", "Five", 0),
    ]);
    app
}

#[test]
fn numbers_are_written_in_decimal() {
    for n in [0u64, 7, 10, 99, 100, 12_345, u64::MAX] {
        let mut text = String::from(">");
        push_decimal(&mut text, n);
        assert_eq!(text, format!(">{n}"));
        let mut padded = String::new();
        push_two_digits(&mut padded, n);
        assert_eq!(padded, format!("{n:02}"));
    }
}

#[test]
fn a_time_is_shown_as_minutes_and_seconds() {
    assert_eq!(clock_text(0), "00:00");
    assert_eq!(clock_text(999), "00:00");
    assert_eq!(clock_text(1_000), "00:01");
    assert_eq!(clock_text(59_999), "00:59");
    assert_eq!(clock_text(60_000), "01:00");
    assert_eq!(clock_text(605_000), "10:05");
    assert_eq!(clock_text(6_000_000), "100:00");
}

#[test]
fn progress_is_time_played_and_duration() {
    assert_eq!(progress_text(5_000, 125_000), "00:05/02:05");
    assert_eq!(progress_thousandths(5_000, 125_000), 40);
    assert_eq!(progress_thousandths(0, 125_000), 0);
    assert_eq!(progress_thousandths(124_999, 125_000), 999);
    assert_eq!(progress_thousandths(125_000, 125_000), 0);
    assert_eq!(progress_thousandths(1, 0), 0);
    assert_eq!(progress_thousandths(u64::MAX - 1, u64::MAX), 999);
}

#[test]
fn the_details_have_four_lines() {
    let text = details_text(&song("Title", "Artist", "Album", 185_000));
    assert_eq!(text, "Artist: Artist\nSong: Title\nAlbum: Album\nDuration: 03:05");
}

#[test]
fn lines_are_joined_by_line_ends() {
    assert_eq!(join_lines(&Vec::new()), "");
    assert_eq!(join_lines(&vec!["one".to_string()]), "one");
    assert_eq!(join_lines(&vec!["one".to_string(), String::new(), "two".to_string()]), "one\n\ntwo");
}

#[test]
fn short_details_stay_as_they_are() {
    let text = song_details(&song("Title", "Artist", "Album", 185_000));
    assert_eq!(text, "Artist: Artist\nSong: Title\nAlbum: Album\nDuration: 03:05");
}

#[test]
fn long_details_are_wrapped() {
    let text =
        song_details(&song("A very long title that does not fit the side", "Artist", "Album", 0));
    for line in text.lines() {
        assert!(line.chars().count() <= 29, "{line:?}");
    }
    assert_eq!(text.lines().count(), 5);
    assert_eq!(
        text.replace('\n', " "),
        "Artist: Artist Song: A very long title that does not fit the side Album: Album Duration: 00:00"
    );
}

#[test]
fn the_player_shows_the_details_of_its_songs() {
    let mut app = MyApp::new();
    assert_eq!(app.selected_details(), "No song selected");
    assert_eq!(app.playing_details(), "No song playing");
    assert_eq!(app.progress_label(0), "No song selected");
    assert_eq!(app.progress_part(0), 0);
    app = player();
    assert_eq!(app.playing_details(), "No song playing");
    assert_eq!(
        app.selected_details(),
        "Artist: Artist\nSong: Five\nAlbum: Album\nDuration: 00:00"
    );
    app.start(identifier("/m/2.flac"), 0);
    assert_eq!(
        app.playing_details(),
        "Artist: Artist\nSong: Two\nAlbum: Album\nDuration: 02:05"
    );
    app.select_song(99);
    assert_eq!(app.selected_details(), "No song selected");
}

#[test]
fn the_progress_is_that_of_the_loaded_song_first() {
    let mut app = player();
    assert_eq!(app.progress_label(7_000), "00:00/00:00");
    app.select_song(identifier("/m/1.flac"));
    assert_eq!(app.progress_label(7_000), "00:00/01:01");
    assert_eq!(app.progress_part(7_000), 0);
    app.start(identifier("/m/4.flac"), 1_000);
    assert_eq!(app.progress_label(61_000), "01:00/10:00");
    assert_eq!(app.progress_part(61_000), 100);
    assert_eq!(app.progress_label(5_000_000), "10:00/10:00");
    assert_eq!(app.progress_part(5_000_000), 0);
    app.toggle_play_pause(301_000);
    assert_eq!(app.progress_label(999_000), "05:00/10:00");
    assert_eq!(app.progress_part(999_000), 500);
}

#[test]
fn the_volume_is_shown_in_hundredths() {
    let mut app = MyApp::new();
    assert_eq!(app.volume_label(), "100%");
    app.volume_down();
    assert_eq!(app.volume_label(), "95%");
    app.toggle_mute();
    assert_eq!(app.volume_label(), "0%");
}

#[test]
fn the_labels_of_the_search_bar() {
    assert_eq!(SearchCriteria::Title.label(), "Search by Title");
    assert_eq!(SearchCriteria::Artist.label(), "Search by Artist");
    assert_eq!(SearchCriteria::Album.label(), "Search by Album");
}

#[test]
fn the_rows_are_those_on_the_screen() {
    let mut app = player();
    // by title: Five, Four, One, Three, Two
    let rows = app.song_rows(3);
    let titles: Vec<&str> = rows.iter().map(|r| r.title.as_str()).collect();
    assert_eq!(titles, vec!["Five", "Four", "One"]);
    assert_eq!(rows[0].mark, Mark::Selected);
    assert_eq!(rows[1].mark, Mark::Plain);
    app.toggle_chosen();
    app.move_selection(Direction::Previous, 3);
    let rows = app.song_rows(3);
    let titles: Vec<&str> = rows.iter().map(|r| r.title.as_str()).collect();
    assert_eq!(titles, vec!["One", "Three", "Two"]);
    assert_eq!(rows[2].mark, Mark::Selected);
    let all = app.song_rows(100);
    assert_eq!(all.len(), 3);
    app.move_selection(Direction::Next, 10);
    let all = app.song_rows(10);
    assert_eq!(all.len(), 5);
    assert_eq!(all[0].mark, Mark::Selected);
    app.move_selection(Direction::Next, 10);
    let all = app.song_rows(10);
    assert_eq!(all[0].mark, Mark::Chosen);
    assert_eq!(all[1].mark, Mark::Selected);
    assert!(app.song_rows(0).is_empty());
}

#[test]
fn the_hints_stand_in_the_middle() {
    assert_eq!(hint_popup_area(120, 60), Area { x: 40, y: 15, width: 40, height: 30 });
    assert_eq!(hint_popup_area(90, 14), Area { x: 30, y: 0, width: 30, height: 14 });
    assert_eq!(hint_popup_area(90, 15), Area { x: 30, y: 0, width: 30, height: 15 });
    assert_eq!(hint_popup_area(90, 16), Area { x: 30, y: 0, width: 30, height: 15 });
    assert_eq!(hint_popup_area(90, 18), Area { x: 30, y: 1, width: 30, height: 16 });
}

#[test]
fn the_hints_stay_within_a_small_screen() {
    assert_eq!(hint_popup_area(90, 12), Area { x: 30, y: 0, width: 30, height: 12 });
    assert_eq!(hint_popup_area(2, 1), Area { x: 1, y: 0, width: 0, height: 1 });
    assert_eq!(hint_popup_area(0, 0), Area { x: 0, y: 0, width: 0, height: 0 });
}

#[test]
fn every_area_lies_within_its_screen() {
    for width in (0u16..200).chain([u16::MAX - 1, u16::MAX]) {
        for height in (0u16..80).chain([u16::MAX - 1, u16::MAX]) {
            let hints = hint_popup_area(width, height);
            let name = name_popup_area(width, height);
            let input = name_input_area(name);
            let corner = corner_hint_area(width, height);
            for area in [hints, name, input, corner] {
                assert!(u32::from(area.x) + u32::from(area.width) <= u32::from(width));
                assert!(u32::from(area.y) + u32::from(area.height) <= u32::from(height));
            }
            assert!(input.y >= name.y && input.x == name.x && input.width == name.width);
            assert!(input.y + input.height <= name.y + name.height);
        }
    }
}

#[test]
fn the_hint_in_the_corner_stands_in_the_last_row() {
    assert_eq!(corner_hint_area(120, 40), Area { x: 100, y: 39, width: 20, height: 1 });
    assert_eq!(corner_hint_area(12, 40), Area { x: 0, y: 39, width: 12, height: 1 });
    assert_eq!(corner_hint_area(120, 0), Area { x: 100, y: 0, width: 20, height: 0 });
}

#[test]
fn the_typed_name_stays_within_a_low_popup() {
    let low = Area { x: 3, y: 5, width: 10, height: 1 };
    assert_eq!(name_input_area(low), Area { x: 3, y: 6, width: 10, height: 0 });
    let flat = Area { x: 3, y: 5, width: 10, height: 0 };
    assert_eq!(name_input_area(flat), Area { x: 3, y: 5, width: 10, height: 0 });
    let three = Area { x: 3, y: 5, width: 10, height: 3 };
    assert_eq!(name_input_area(three), Area { x: 3, y: 7, width: 10, height: 0 });
    let five = Area { x: 3, y: 5, width: 10, height: 5 };
    assert_eq!(name_input_area(five), Area { x: 3, y: 7, width: 10, height: 1 });
}

#[test]
fn the_rows_of_the_playlists_are_those_on_the_screen() {
    let mut app = player();
    for name in ["b", "c", "d"] {
        app.select_song(identifier("/m/1.flac"));
        app.toggle_chosen();
        app.open_playlist_input();
        for c in name.chars() {
            app.type_char(c);
        }
        app.create_playlist();
        app.escape();
    }
    let rows = app.playlist_rows(2);
    let names: Vec<&str> = rows.iter().map(|r| r.title.as_str()).collect();
    assert_eq!(names, vec!["All Songs", "b"]);
    assert_eq!(rows[0].mark, Mark::Selected);
    assert_eq!(rows[1].mark, Mark::Plain);
    app.move_playlist(Direction::Previous, 2);
    let rows = app.playlist_rows(2);
    let names: Vec<&str> = rows.iter().map(|r| r.title.as_str()).collect();
    assert_eq!(names, vec!["c", "d"]);
    assert_eq!(rows[0].mark, Mark::Plain);
    assert_eq!(rows[1].mark, Mark::Selected);
    assert_eq!(app.playlist_rows(100).len(), 2);
    assert!(app.playlist_rows(0).is_empty());
    assert!(MyApp::new().playlist_rows(5).is_empty());
}

#[test]
fn the_name_popup_stands_in_the_middle() {
    let popup = name_popup_area(120, 64);
    assert_eq!(popup, Area { x: 45, y: 28, width: 30, height: 8 });
    assert_eq!(name_input_area(popup), Area { x: 45, y: 30, width: 30, height: 4 });
    let small = name_popup_area(40, 16);
    assert_eq!(small, Area { x: 15, y: 7, width: 10, height: 2 });
    assert_eq!(name_input_area(small), Area { x: 15, y: 9, width: 10, height: 0 });
}
