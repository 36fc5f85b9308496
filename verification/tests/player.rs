use cli_rhythm::app::{Action, MyApp};
use cli_rhythm::input_handler::{
    decode, handle_command, handle_key_event, Command, KeyCode, KeyEvent, KeyModifiers,
};
use cli_rhythm::model::Direction;
use cli_rhythm::playback::Playback;
use cli_rhythm::playlist::{copy_ids, find_id, without_id};
use cli_rhythm::scroll::{end_offset, scroll_to};
use cli_rhythm::song::identifier;
use cli_rhythm::utils::{ScannedFile, SearchCriteria, SortCriteria};

fn file(path: &str, title: &str, artist: &str, album: &str, seconds: u64) -> ScannedFile {
    ScannedFile {
        path: path.to_string(),
        extension: Some("mp3".to_string()),
        title: Some(title.to_string()),
        artist: Some(artist.to_string()),
        album: Some(album.to_string()),
        duration: Some(seconds * 1000),
    }
}

fn id_of(letter: &str) -> u128 {
    identifier(&format!("/music/{letter}.mp3"))
}

/// A player with the songs A (10 s), B (20 s), C (30 s), D (40 s).
fn player() -> MyApp {
    let mut app = MyApp::new();
    let action = app.load_songs(&vec![
        file("/music/c.mp3", "Cherry", "Zed", "Fruits", 30),
        file("/music/a.mp3", "Apple", "Yan", "Fruits", 10),
        file("/music/d.mp3", "date", "Xi", "Dry", 40),
        file("/music/b.mp3", "banana", "Will", "Yellow", 20),
    ]);
    assert!(matches!(action, Action::Nothing));
    app
}

fn titles(app: &MyApp) -> Vec<String> {
    app.songs().iter().map(|s| s.title.clone()).collect()
}

fn playing(app: &MyApp) -> Vec<u128> {
    app.songs().iter().filter(|s| s.is_playing).map(|s| s.id).collect()
}

fn press(app: &mut MyApp, key: Command, now: u64) -> Action {
    let mut exit = false;
    let action = handle_command(key, app, now, 3, 2, &mut exit);
    assert_eq!(exit, key == Command::Quit);
    action
}

fn type_text(app: &mut MyApp, text: &str) {
    for c in text.chars() {
        assert!(matches!(press(app, Command::Type(c), 0), Action::Nothing));
    }
}

#[test]
fn a_new_player_is_empty_and_loud() {
    let app = MyApp::new();
    assert!(app.songs().is_empty());
    assert_eq!(app.selected_song_id(), None);
    assert_eq!(app.session(), Playback::Idle);
    assert_eq!(app.search_criteria(), SearchCriteria::Title);
    assert_eq!(app.sort_criteria(), SortCriteria::Title);
    assert!(!app.hint_popup_state().visible);
    assert!(!app.playlist_input_popup().visible);
    assert_eq!(app.selected_playlist_index(), 0);
    assert_eq!(app.playlist_name_input(), "");
    assert_eq!(app.playlists().len(), 0);
    assert_eq!(app.search_text(), "");
    assert_eq!(app.volume(), 100);
    assert_eq!(app.previous_volume(), 0);
    assert_eq!(app.list_offset(), 0);
    assert_eq!(app.playlist_list_offset(), 0);
    assert!(app.chosen_song_ids().is_empty());
    assert!(!app.repeat_song());
    assert!(!app.needs_ticks());
    assert!(app.filtered_songs().is_empty());
}

#[test]
fn loading_sorts_the_catalog_and_fills_all_songs() {
    let app = player();
    assert_eq!(titles(&app), vec!["Apple", "banana", "Cherry", "date"]);
    assert_eq!(app.playlists().len(), 1);
    let all = app.playlists().get(0).unwrap();
    assert_eq!(all.name, "All Songs");
    assert_eq!(all.ids, vec![id_of("a"), id_of("b"), id_of("c"), id_of("d")]);
    assert_eq!(app.visible_ids(), vec![id_of("a"), id_of("b"), id_of("c"), id_of("d")]);
    assert_eq!(app.selected_song_id(), Some(id_of("a")));
    assert!(playing(&app).is_empty());
}

#[test]
fn loading_an_empty_scan_leaves_the_placeholder() {
    let mut app = MyApp::new();
    app.load_songs(&Vec::new());
    assert_eq!(app.songs().len(), 1);
    assert_eq!(app.songs()[0].title, "No songs in \"Music\" and current directory!");
    assert_eq!(app.selected_song_id(), Some(identifier("")));
}

#[test]
fn loading_ends_a_session_whose_song_is_gone() {
    let mut app = player();
    app.start(id_of("c"), 0);
    let action = app.load_songs(&vec![file("/music/a.mp3", "Apple", "Yan", "Fruits", 10)]);
    assert!(matches!(action, Action::Stop));
    assert_eq!(app.session(), Playback::Idle);
    assert!(playing(&app).is_empty());
}

#[test]
fn loading_keeps_a_session_whose_song_is_still_there() {
    let mut app = player();
    app.start(id_of("a"), 0);
    let action = app.load_songs(&vec![
        file("/music/b.mp3", "banana", "Will", "Yellow", 20),
        file("/music/a.mp3", "Apple", "Yan", "Fruits", 10),
    ]);
    assert!(matches!(action, Action::Nothing));
    assert_eq!(app.session(), Playback::Playing { track_id: id_of("a"), started: 0, offset: 0 });
    assert_eq!(playing(&app), vec![id_of("a")]);
}

#[test]
fn finding_a_song_by_its_identifier() {
    let app = player();
    assert_eq!(app.find_song_by_id(id_of("c")).map(|s| s.title.as_str()), Some("Cherry"));
    assert!(app.find_song_by_id(12345).is_none());
}

#[test]
fn starting_marks_one_song_as_playing() {
    let mut app = player();
    assert!(matches!(app.start(id_of("b"), 500), Action::Play(id) if id == id_of("b")));
    assert_eq!(app.session(), Playback::Playing { track_id: id_of("b"), started: 500, offset: 0 });
    assert_eq!(playing(&app), vec![id_of("b")]);
    assert!(app.needs_ticks());
    assert!(matches!(app.start(id_of("d"), 900), Action::Play(id) if id == id_of("d")));
    assert_eq!(playing(&app), vec![id_of("d")]);
    assert_eq!(app.elapsed(900), 0);
}

#[test]
fn starting_an_unknown_song_leaves_nothing_playing() {
    let mut app = player();
    app.start(id_of("b"), 0);
    assert!(matches!(app.start(42, 10), Action::Stop));
    assert_eq!(app.session(), Playback::Idle);
    assert!(playing(&app).is_empty());
}

#[test]
fn stopping_clears_the_mark() {
    let mut app = player();
    app.start(id_of("b"), 0);
    assert!(matches!(app.stop_song(), Action::Stop));
    assert_eq!(app.session(), Playback::Idle);
    assert!(playing(&app).is_empty());
    assert!(!app.needs_ticks());
}

#[test]
fn pause_and_resume_keep_the_elapsed_time() {
    let mut app = player();
    assert!(matches!(app.toggle_play_pause(0), Action::Nothing));
    app.start(id_of("c"), 1_000);
    assert!(matches!(press(&mut app, Command::TogglePause, 4_000), Action::Pause));
    assert_eq!(app.session(), Playback::Paused { track_id: id_of("c"), elapsed: 3_000 });
    assert!(playing(&app).is_empty());
    assert!(!app.needs_ticks());
    assert_eq!(app.elapsed(50_000), 3_000);
    assert!(matches!(press(&mut app, Command::TogglePause, 60_000), Action::Resume));
    assert_eq!(playing(&app), vec![id_of("c")]);
    assert_eq!(app.elapsed(60_000), 3_000);
    assert_eq!(app.elapsed(61_000), 4_000);
    assert!(app.needs_ticks());
}

#[test]
fn the_shown_time_stays_within_the_song() {
    let mut app = player();
    app.start(id_of("a"), 0);
    assert_eq!(app.elapsed(9_000), 9_000);
    assert_eq!(app.elapsed(12_000), 10_000);
}

#[test]
fn toggling_the_selected_song_plays_it_or_stops_it() {
    let mut app = player();
    app.select_song(id_of("b"));
    assert!(matches!(press(&mut app, Command::ToggleSelected, 10), Action::Play(id) if id == id_of("b")));
    assert_eq!(playing(&app), vec![id_of("b")]);
    assert!(matches!(press(&mut app, Command::ToggleSelected, 20), Action::Stop));
    assert_eq!(app.session(), Playback::Idle);
    app.start(id_of("a"), 30);
    assert!(matches!(press(&mut app, Command::ToggleSelected, 40), Action::Play(id) if id == id_of("b")));
    press(&mut app, Command::TogglePause, 50);
    assert!(matches!(press(&mut app, Command::ToggleSelected, 60), Action::Stop));
}

#[test]
fn toggling_a_selection_outside_the_view_does_nothing() {
    let mut app = player();
    app.select_song(777);
    assert!(matches!(press(&mut app, Command::ToggleSelected, 10), Action::Nothing));
    assert_eq!(app.session(), Playback::Idle);
}

#[test]
fn seeking_moves_within_the_song() {
    let mut app = player();
    assert!(matches!(press(&mut app, Command::SeekForward, 0), Action::Nothing));
    app.start(id_of("a"), 0);
    assert!(matches!(press(&mut app, Command::SeekForward, 2_000), Action::Seek(7_000)));
    assert_eq!(app.elapsed(2_000), 7_000);
    assert_eq!(app.elapsed(2_500), 7_500);
    assert!(matches!(press(&mut app, Command::SeekBackward, 3_000), Action::Seek(3_000)));
    assert!(matches!(press(&mut app, Command::SeekBackward, 3_000), Action::Seek(0)));
    assert!(matches!(press(&mut app, Command::SeekForward, 3_000), Action::Seek(5_000)));
    assert!(matches!(press(&mut app, Command::SeekForward, 3_000), Action::Seek(10_000)));
    assert!(matches!(press(&mut app, Command::SeekForward, 3_000), Action::Seek(10_000)));
    assert_eq!(playing(&app), vec![id_of("a")]);
}

#[test]
fn seeking_past_the_end_lets_the_next_tick_go_on() {
    let mut app = player();
    app.start(id_of("a"), 0);
    app.seek(60_000, 1_000);
    assert!(matches!(app.tick(1_100), Action::Play(id) if id == id_of("b")));
    assert_eq!(app.session(), Playback::Playing { track_id: id_of("b"), started: 1_100, offset: 0 });
    assert_eq!(app.selected_song_id(), Some(id_of("b")));
}

#[test]
fn seeking_while_paused_keeps_the_pause() {
    let mut app = player();
    app.start(id_of("d"), 0);
    app.toggle_play_pause(10_000);
    assert!(matches!(app.seek(5_000, 99_000), Action::Seek(15_000)));
    assert_eq!(app.session(), Playback::Paused { track_id: id_of("d"), elapsed: 15_000 });
}

#[test]
fn the_end_of_the_last_song_wraps_to_the_first() {
    let mut app = player();
    app.start(id_of("d"), 0);
    assert!(matches!(app.tick(39_999), Action::Nothing));
    assert!(matches!(app.tick(40_000), Action::Play(id) if id == id_of("a")));
    assert_eq!(app.session(), Playback::Playing { track_id: id_of("a"), started: 40_000, offset: 0 });
    assert_eq!(app.selected_song_id(), Some(id_of("a")));
    assert_eq!(playing(&app), vec![id_of("a")]);
}

#[test]
fn going_on_by_hand_stops_at_the_ends() {
    let mut app = player();
    assert!(matches!(press(&mut app, Command::PlayNext, 0), Action::Nothing));
    app.start(id_of("d"), 0);
    assert!(matches!(press(&mut app, Command::PlayNext, 5), Action::Nothing));
    assert_eq!(app.session(), Playback::Playing { track_id: id_of("d"), started: 0, offset: 0 });
    assert_eq!(app.selected_song_id(), Some(id_of("a")));
    assert!(matches!(press(&mut app, Command::PlayPrevious, 7), Action::Play(id) if id == id_of("c")));
    assert_eq!(app.selected_song_id(), Some(id_of("c")));
    app.start(id_of("a"), 9);
    assert!(matches!(press(&mut app, Command::PlayPrevious, 10), Action::Nothing));
    assert_eq!(app.session(), Playback::Playing { track_id: id_of("a"), started: 9, offset: 0 });
    assert!(matches!(press(&mut app, Command::PlayNext, 11), Action::Play(id) if id == id_of("b")));
    assert_eq!(playing(&app), vec![id_of("b")]);
}

#[test]
fn going_on_works_from_a_pause() {
    let mut app = player();
    app.start(id_of("a"), 0);
    app.toggle_play_pause(1_000);
    assert!(matches!(app.advance(Direction::Next, 2_000), Action::Play(id) if id == id_of("b")));
    assert_eq!(app.session(), Playback::Playing { track_id: id_of("b"), started: 2_000, offset: 0 });
}

#[test]
fn repeat_starts_the_song_again() {
    let mut app = player();
    press(&mut app, Command::ToggleRepeat, 0);
    assert!(app.repeat_song());
    app.start(id_of("b"), 0);
    assert!(matches!(app.tick(20_000), Action::Play(id) if id == id_of("b")));
    assert_eq!(app.session(), Playback::Playing { track_id: id_of("b"), started: 20_000, offset: 0 });
    press(&mut app, Command::ToggleRepeat, 0);
    assert!(!app.repeat_song());
}

#[test]
fn the_end_of_a_song_with_an_empty_view_stops() {
    let mut app = player();
    app.start(id_of("b"), 0);
    type_text(&mut app, "no such title");
    assert!(app.visible_ids().is_empty());
    assert!(matches!(app.tick(20_000), Action::Stop));
    assert_eq!(app.session(), Playback::Idle);
    assert!(playing(&app).is_empty());
}

#[test]
fn the_end_of_a_song_outside_the_view_goes_to_the_first() {
    let mut app = player();
    app.start(id_of("a"), 0);
    type_text(&mut app, "an");
    assert_eq!(app.visible_ids(), vec![id_of("b")]);
    assert!(matches!(app.tick(10_000), Action::Play(id) if id == id_of("b")));
}

#[test]
fn a_tick_without_a_playing_song_does_nothing() {
    let mut app = player();
    assert!(matches!(app.tick(1_000_000), Action::Nothing));
    app.start(id_of("a"), 0);
    app.toggle_play_pause(5_000);
    assert!(matches!(app.tick(1_000_000), Action::Nothing));
    assert_eq!(app.session(), Playback::Paused { track_id: id_of("a"), elapsed: 5_000 });
}

#[test]
fn two_songs_play_one_after_the_other() {
    let mut app = MyApp::new();
    app.load_songs(&vec![
        file("/music/b.mp3", "TrackB", "x", "y", 20),
        file("/music/a.mp3", "TrackA", "x", "y", 10),
    ]);
    assert_eq!(titles(&app), vec!["TrackA", "TrackB"]);
    app.set_sort_criteria(SortCriteria::Duration);
    assert_eq!(titles(&app), vec!["TrackA", "TrackB"]);
    assert!(matches!(app.start(id_of("a"), 0), Action::Play(_)));
    for second in 1..10u64 {
        assert!(matches!(app.tick(second * 1_000), Action::Nothing));
        assert_eq!(app.elapsed(second * 1_000), second * 1_000);
    }
    assert!(matches!(app.tick(10_000), Action::Play(id) if id == id_of("b")));
    assert_eq!(app.session().current_track(), Some(id_of("b")));
    assert_eq!(app.elapsed(10_000), 0);
    assert!(!app.find_song_by_id(id_of("a")).unwrap().is_playing);
    assert!(app.find_song_by_id(id_of("b")).unwrap().is_playing);
    assert_eq!(app.selected_song_id(), Some(id_of("b")));
}

#[test]
fn moving_the_selection_wraps_at_both_ends() {
    let mut app = player();
    assert_eq!(app.selected_song_id(), Some(id_of("a")));
    press(&mut app, Command::SelectPrevious, 0);
    assert_eq!(app.selected_song_id(), Some(id_of("d")));
    assert_eq!(app.list_offset(), 1);
    press(&mut app, Command::SelectNext, 0);
    assert_eq!(app.selected_song_id(), Some(id_of("a")));
    assert_eq!(app.list_offset(), 0);
}

#[test]
fn moving_the_selection_scrolls_just_enough() {
    let mut app = player();
    press(&mut app, Command::SelectNext, 0);
    assert_eq!((app.selected_song_id(), app.list_offset()), (Some(id_of("b")), 0));
    press(&mut app, Command::SelectNext, 0);
    assert_eq!((app.selected_song_id(), app.list_offset()), (Some(id_of("c")), 0));
    press(&mut app, Command::SelectNext, 0);
    assert_eq!((app.selected_song_id(), app.list_offset()), (Some(id_of("d")), 1));
    press(&mut app, Command::SelectPrevious, 0);
    assert_eq!((app.selected_song_id(), app.list_offset()), (Some(id_of("c")), 1));
    press(&mut app, Command::SelectPrevious, 0);
    assert_eq!((app.selected_song_id(), app.list_offset()), (Some(id_of("b")), 1));
    press(&mut app, Command::SelectPrevious, 0);
    assert_eq!((app.selected_song_id(), app.list_offset()), (Some(id_of("a")), 0));
}

#[test]
fn a_wide_screen_never_scrolls() {
    let mut app = player();
    app.move_selection(Direction::Previous, 10);
    assert_eq!((app.selected_song_id(), app.list_offset()), (Some(id_of("d")), 0));
}

#[test]
fn moving_without_a_valid_selection_goes_to_the_first() {
    let mut app = player();
    app.select_song(5);
    app.move_selection(Direction::Previous, 3);
    assert_eq!((app.selected_song_id(), app.list_offset()), (Some(id_of("a")), 0));
}

#[test]
fn scrolling_keeps_the_row_in_sight() {
    assert_eq!(scroll_to(0, 0, 10, 3), 0);
    assert_eq!(scroll_to(0, 2, 10, 3), 0);
    assert_eq!(scroll_to(0, 3, 10, 3), 1);
    assert_eq!(scroll_to(4, 2, 10, 3), 2);
    assert_eq!(scroll_to(4, 9, 10, 3), 7);
    assert_eq!(scroll_to(9, 9, 10, 3), 7);
    assert_eq!(scroll_to(5, 1, 2, 3), 0);
    assert_eq!(end_offset(10, 3), 7);
    assert_eq!(end_offset(2, 3), 0);
}

#[test]
fn searching_is_by_the_chosen_field_without_regard_to_case() {
    let mut app = player();
    type_text(&mut app, "AN");
    assert_eq!(app.search_text(), "AN");
    assert_eq!(app.visible_ids(), vec![id_of("b")]);
    press(&mut app, Command::CycleSearch, 0);
    assert_eq!(app.search_criteria(), SearchCriteria::Artist);
    assert_eq!(app.visible_ids(), vec![id_of("a")]);
    press(&mut app, Command::Erase, 0);
    press(&mut app, Command::Erase, 0);
    press(&mut app, Command::Erase, 0);
    assert_eq!(app.search_text(), "");
    type_text(&mut app, "fruit");
    press(&mut app, Command::CycleSearch, 0);
    assert_eq!(app.search_criteria(), SearchCriteria::Album);
    assert_eq!(app.visible_ids(), vec![id_of("a"), id_of("c")]);
    let view: Vec<String> = app.filtered_songs().iter().map(|s| s.title.clone()).collect();
    assert_eq!(view, vec!["Apple", "Cherry"]);
}

#[test]
fn a_selection_that_falls_out_of_the_view_gives_way_to_the_first() {
    let mut app = player();
    app.select_song(id_of("c"));
    app.move_selection(Direction::Next, 3);
    assert_eq!((app.selected_song_id(), app.list_offset()), (Some(id_of("d")), 1));
    type_text(&mut app, "a");
    assert_eq!(app.visible_ids(), vec![id_of("a"), id_of("b"), id_of("d")]);
    assert_eq!((app.selected_song_id(), app.list_offset()), (Some(id_of("d")), 1));
    type_text(&mut app, "n");
    assert_eq!(app.visible_ids(), vec![id_of("b")]);
    assert_eq!((app.selected_song_id(), app.list_offset()), (Some(id_of("b")), 0));
    type_text(&mut app, "x");
    assert!(app.visible_ids().is_empty());
    assert_eq!(app.selected_song_id(), None);
    press(&mut app, Command::Erase, 0);
    assert_eq!(app.selected_song_id(), Some(id_of("b")));
}

#[test]
fn the_volume_moves_in_steps_and_stays_in_range() {
    let mut app = player();
    assert!(matches!(press(&mut app, Command::VolumeUp, 0), Action::SetVolume(100)));
    assert!(matches!(press(&mut app, Command::VolumeDown, 0), Action::SetVolume(95)));
    for _ in 0..18 {
        press(&mut app, Command::VolumeDown, 0);
    }
    assert_eq!(app.volume(), 5);
    assert!(matches!(press(&mut app, Command::VolumeDown, 0), Action::SetVolume(0)));
    assert!(matches!(press(&mut app, Command::VolumeDown, 0), Action::SetVolume(0)));
    assert!(matches!(press(&mut app, Command::VolumeUp, 0), Action::SetVolume(5)));
}

#[test]
fn muting_keeps_the_volume_for_later() {
    let mut app = player();
    for _ in 0..8 {
        app.volume_down();
    }
    assert_eq!(app.volume(), 60);
    assert!(matches!(press(&mut app, Command::ToggleMute, 0), Action::SetVolume(0)));
    assert_eq!((app.volume(), app.previous_volume()), (0, 60));
    assert!(matches!(press(&mut app, Command::ToggleMute, 0), Action::SetVolume(60)));
    assert_eq!((app.volume(), app.previous_volume()), (60, 60));
}

#[test]
fn muting_what_is_silent_does_not_forget_the_kept_volume() {
    let mut app = player();
    for _ in 0..8 {
        app.volume_down();
    }
    app.toggle_mute();
    for _ in 0..3 {
        app.volume_down();
    }
    assert_eq!((app.volume(), app.previous_volume()), (0, 60));
    app.toggle_mute();
    assert_eq!((app.volume(), app.previous_volume()), (60, 60));
}

#[test]
fn typing_goes_to_the_open_popup() {
    let mut app = player();
    press(&mut app, Command::OpenPlaylistInput, 0);
    assert!(app.playlist_input_popup().visible);
    type_text(&mut app, "Mix");
    press(&mut app, Command::Erase, 0);
    assert_eq!(app.playlist_name_input(), "Mi");
    assert_eq!(app.search_text(), "");
    press(&mut app, Command::Escape, 0);
    assert!(!app.playlist_input_popup().visible);
    assert_eq!(app.playlist_name_input(), "");
    press(&mut app, Command::Erase, 0);
    assert_eq!(app.search_text(), "");
}

#[test]
fn the_hints_toggle_and_close() {
    let mut app = player();
    press(&mut app, Command::ToggleHints, 0);
    assert!(app.hint_popup_state().visible);
    press(&mut app, Command::ToggleHints, 0);
    assert!(!app.hint_popup_state().visible);
    app.toggle_popup();
    press(&mut app, Command::Escape, 0);
    assert!(!app.hint_popup_state().visible);
}

#[test]
fn choosing_songs_toggles_them() {
    let mut app = player();
    press(&mut app, Command::ToggleChosen, 0);
    press(&mut app, Command::SelectNext, 0);
    press(&mut app, Command::ToggleChosen, 0);
    assert_eq!(app.chosen_song_ids(), &vec![id_of("a"), id_of("b")]);
    press(&mut app, Command::SelectPrevious, 0);
    press(&mut app, Command::ToggleChosen, 0);
    assert_eq!(app.chosen_song_ids(), &vec![id_of("b")]);
    assert_eq!(without_id(&vec![1, 2, 1, 3], 1), vec![2, 3]);
    assert_eq!(find_id(&vec![4, 5, 4], 4), Some(0));
    assert_eq!(find_id(&vec![4, 5, 4], 6), None);
    assert_eq!(copy_ids(&vec![4, 5, 4]), vec![4, 5, 4]);
}

#[test]
fn choosing_without_a_selection_chooses_nothing() {
    let mut app = MyApp::new();
    press(&mut app, Command::ToggleChosen, 0);
    assert!(app.chosen_song_ids().is_empty());
}

#[test]
fn a_playlist_without_name_and_songs_is_refused_with_both_reasons() {
    let mut app = player();
    press(&mut app, Command::OpenPlaylistInput, 0);
    press(&mut app, Command::Confirm, 0);
    assert_eq!(app.playlist_name_input(), "Need a name and at least 1 song");
    assert!(app.playlist_input_popup().visible);
    assert_eq!(app.playlists().len(), 1);
}

#[test]
fn a_playlist_without_name_is_refused() {
    let mut app = player();
    press(&mut app, Command::ToggleChosen, 0);
    press(&mut app, Command::OpenPlaylistInput, 0);
    press(&mut app, Command::Confirm, 0);
    assert_eq!(app.playlist_name_input(), "Need a name ");
    assert_eq!(app.chosen_song_ids(), &vec![id_of("a")]);
    assert_eq!(app.playlists().len(), 1);
}

#[test]
fn a_playlist_without_songs_is_refused() {
    let mut app = player();
    press(&mut app, Command::OpenPlaylistInput, 0);
    type_text(&mut app, "Mix");
    press(&mut app, Command::Confirm, 0);
    assert_eq!(app.playlist_name_input(), "Need at least 1 song");
    assert_eq!(app.playlists().len(), 1);
}

#[test]
fn a_playlist_with_name_and_songs_is_created() {
    let mut app = player();
    press(&mut app, Command::SelectNext, 0);
    press(&mut app, Command::ToggleChosen, 0);
    press(&mut app, Command::SelectPrevious, 0);
    press(&mut app, Command::ToggleChosen, 0);
    press(&mut app, Command::OpenPlaylistInput, 0);
    type_text(&mut app, "Mix");
    press(&mut app, Command::Confirm, 0);
    assert!(!app.playlist_input_popup().visible);
    assert!(app.chosen_song_ids().is_empty());
    assert_eq!(app.playlists().len(), 2);
    let mix = app.playlists().get(1).unwrap();
    assert_eq!(mix.name, "Mix");
    assert_eq!(mix.ids, vec![id_of("b"), id_of("a")]);
}

#[test]
fn another_playlist_shows_its_own_songs() {
    let mut app = player();
    app.select_song(id_of("c"));
    press(&mut app, Command::ToggleChosen, 0);
    app.select_song(id_of("d"));
    press(&mut app, Command::ToggleChosen, 0);
    press(&mut app, Command::OpenPlaylistInput, 0);
    type_text(&mut app, "Late");
    press(&mut app, Command::Confirm, 0);
    assert_eq!(app.selected_playlist_index(), 0);
    press(&mut app, Command::PlaylistNext, 0);
    assert_eq!(app.selected_playlist_index(), 1);
    assert_eq!(app.visible_ids(), vec![id_of("c"), id_of("d")]);
    assert_eq!(app.selected_song_id(), Some(id_of("c")));
    press(&mut app, Command::PlaylistNext, 0);
    assert_eq!(app.selected_playlist_index(), 0);
    assert_eq!(app.playlist_list_offset(), 0);
    assert_eq!(app.selected_song_id(), Some(id_of("a")));
    press(&mut app, Command::PlaylistPrevious, 0);
    assert_eq!(app.selected_playlist_index(), 1);
    assert_eq!(app.playlist_list_offset(), 0);
}

#[test]
fn playlists_scroll_like_songs() {
    let mut app = player();
    for name in ["b", "c", "d"] {
        app.select_song(id_of("a"));
        app.toggle_chosen();
        press(&mut app, Command::OpenPlaylistInput, 0);
        type_text(&mut app, name);
        press(&mut app, Command::Confirm, 0);
        press(&mut app, Command::Escape, 0);
    }
    assert_eq!(app.playlists().len(), 4);
    press(&mut app, Command::PlaylistPrevious, 0);
    assert_eq!((app.selected_playlist_index(), app.playlist_list_offset()), (3, 2));
    press(&mut app, Command::PlaylistPrevious, 0);
    assert_eq!((app.selected_playlist_index(), app.playlist_list_offset()), (2, 2));
    press(&mut app, Command::PlaylistPrevious, 0);
    assert_eq!((app.selected_playlist_index(), app.playlist_list_offset()), (1, 1));
    press(&mut app, Command::PlaylistNext, 0);
    press(&mut app, Command::PlaylistNext, 0);
    assert_eq!((app.selected_playlist_index(), app.playlist_list_offset()), (3, 2));
    press(&mut app, Command::PlaylistNext, 0);
    assert_eq!((app.selected_playlist_index(), app.playlist_list_offset()), (0, 0));
}

#[test]
fn deleting_the_selected_playlist_selects_the_first() {
    let mut app = player();
    app.toggle_chosen();
    press(&mut app, Command::OpenPlaylistInput, 0);
    type_text(&mut app, "Mix");
    press(&mut app, Command::Confirm, 0);
    press(&mut app, Command::PlaylistNext, 0);
    let action = press(&mut app, Command::DeletePlaylist, 0);
    assert!(matches!(action, Action::RemovePlaylist(name) if name == "Mix"));
    assert_eq!(app.playlists().len(), 1);
    assert_eq!(app.selected_playlist_index(), 0);
    assert_eq!(app.selected_song_id(), Some(id_of("a")));
    let action = press(&mut app, Command::DeletePlaylist, 0);
    assert!(matches!(action, Action::RemovePlaylist(name) if name == "All Songs"));
    assert!(app.visible_ids().is_empty());
    assert_eq!(app.selected_song_id(), None);
    assert!(matches!(press(&mut app, Command::DeletePlaylist, 0), Action::Nothing));
    press(&mut app, Command::PlaylistNext, 0);
    assert_eq!(app.selected_playlist_index(), 0);
}

#[test]
fn cycling_the_sort_goes_through_the_criteria() {
    let mut app = player();
    press(&mut app, Command::CycleSort, 0);
    assert_eq!(app.sort_criteria(), SortCriteria::Artist);
    assert_eq!(titles(&app), vec!["banana", "date", "Apple", "Cherry"]);
    press(&mut app, Command::CycleSort, 0);
    assert_eq!(app.sort_criteria(), SortCriteria::Duration);
    assert_eq!(titles(&app), vec!["Apple", "banana", "Cherry", "date"]);
    app.start(id_of("c"), 0);
    press(&mut app, Command::CycleSort, 0);
    assert_eq!(app.sort_criteria(), SortCriteria::Shuffle);
    let mut shuffled = titles(&app);
    shuffled.sort_by_key(|t| t.to_lowercase());
    assert_eq!(shuffled, vec!["Apple", "banana", "Cherry", "date"]);
    assert_eq!(playing(&app), vec![id_of("c")]);
    press(&mut app, Command::CycleSort, 0);
    assert_eq!(app.sort_criteria(), SortCriteria::Title);
    assert_eq!(titles(&app), vec!["Apple", "banana", "Cherry", "date"]);
    app.sort_songs();
    assert_eq!(titles(&app), vec!["Apple", "banana", "Cherry", "date"]);
}

#[test]
fn quitting_asks_to_save_and_raises_the_flag() {
    let mut app = player();
    let mut exit = false;
    let action = handle_command(Command::Quit, &mut app, 0, 3, 2, &mut exit);
    assert!(matches!(action, Action::SavePlaylists));
    assert!(exit);
    let action = handle_command(Command::Ignored, &mut app, 0, 3, 2, &mut exit);
    assert!(matches!(action, Action::Nothing));
    assert!(exit);
}

fn key(code: KeyCode, modifiers: KeyModifiers) -> KeyEvent {
    KeyEvent { code, modifiers, pressed: true, plain: true }
}

#[test]
fn keys_with_control_stand_for_their_commands() {
    let table = [
        (KeyCode::Char('q'), Command::Quit),
        (KeyCode::Char('j'), Command::PlaylistNext),
        (KeyCode::Char('k'), Command::PlaylistPrevious),
        (KeyCode::Char(' '), Command::ToggleSelected),
        (KeyCode::Char('p'), Command::TogglePause),
        (KeyCode::Char('c'), Command::OpenPlaylistInput),
        (KeyCode::Char('h'), Command::PlayPrevious),
        (KeyCode::Char('l'), Command::PlayNext),
        (KeyCode::Left, Command::VolumeDown),
        (KeyCode::Right, Command::VolumeUp),
        (KeyCode::Char('m'), Command::ToggleMute),
        (KeyCode::Char('s'), Command::CycleSearch),
        (KeyCode::Char('t'), Command::CycleSort),
        (KeyCode::Char('a'), Command::ToggleChosen),
        (KeyCode::Char('x'), Command::DeletePlaylist),
        (KeyCode::Char('r'), Command::ToggleRepeat),
        (KeyCode::Char('z'), Command::Ignored),
        (KeyCode::Char('Q'), Command::Ignored),
        (KeyCode::Up, Command::Ignored),
        (KeyCode::Enter, Command::Ignored),
        (KeyCode::F(1), Command::Ignored),
    ];
    for (code, command) in table {
        assert_eq!(decode(key(code, KeyModifiers::Control)), command, "{code:?}");
    }
}

#[test]
fn keys_without_a_modifier_stand_for_their_commands() {
    let table = [
        (KeyCode::Down, Command::SelectNext),
        (KeyCode::Up, Command::SelectPrevious),
        (KeyCode::Char('q'), Command::Type('q')),
        (KeyCode::Char(' '), Command::Type(' ')),
        (KeyCode::Backspace, Command::Erase),
        (KeyCode::Right, Command::SeekForward),
        (KeyCode::Left, Command::SeekBackward),
        (KeyCode::F(1), Command::ToggleHints),
        (KeyCode::F(2), Command::Ignored),
        (KeyCode::Esc, Command::Escape),
        (KeyCode::Enter, Command::Confirm),
        (KeyCode::Other, Command::Ignored),
    ];
    for (code, command) in table {
        assert_eq!(decode(key(code, KeyModifiers::Unmodified)), command, "{code:?}");
    }
}

#[test]
fn a_character_with_shift_is_typed_in_upper_case() {
    assert_eq!(decode(key(KeyCode::Char('a'), KeyModifiers::Shift)), Command::Type('A'));
    assert_eq!(decode(key(KeyCode::Char('A'), KeyModifiers::Shift)), Command::Type('A'));
    assert_eq!(decode(key(KeyCode::Char('ä'), KeyModifiers::Shift)), Command::Type('Ä'));
    assert_eq!(decode(key(KeyCode::Char('ß'), KeyModifiers::Shift)), Command::Type('S'));
    assert_eq!(decode(key(KeyCode::Char('1'), KeyModifiers::Shift)), Command::Type('1'));
    assert_eq!(decode(key(KeyCode::Enter, KeyModifiers::Shift)), Command::Ignored);
}

#[test]
fn the_last_character_of_the_upper_case_form() {
    assert_eq!(cli_rhythm::text::last_upper('a'), 'A');
    assert_eq!(cli_rhythm::text::last_upper('ß'), 'S');
    assert_eq!(cli_rhythm::text::last_upper('ﬃ'), 'I');
    assert_eq!(cli_rhythm::text::last_upper('7'), '7');
    assert_eq!(cli_rhythm::text::last_char(&vec!['x', 'y']), Some('y'));
    assert_eq!(cli_rhythm::text::last_char(&Vec::new()), None);
}

#[test]
fn other_events_mean_nothing() {
    assert_eq!(decode(key(KeyCode::Char('q'), KeyModifiers::Other)), Command::Ignored);
    let released =
        KeyEvent { code: KeyCode::Down, modifiers: KeyModifiers::Unmodified, pressed: false, plain: true };
    assert_eq!(decode(released), Command::Ignored);
    let with_state =
        KeyEvent { code: KeyCode::Down, modifiers: KeyModifiers::Unmodified, pressed: true, plain: false };
    assert_eq!(decode(with_state), Command::Ignored);
}

#[test]
fn a_key_event_does_what_its_command_does() {
    let mut app = player();
    let mut exit = false;
    let action =
        handle_key_event(key(KeyCode::Down, KeyModifiers::Unmodified), &mut app, 0, 3, 2, &mut exit);
    assert!(matches!(action, Action::Nothing));
    assert_eq!(app.selected_song_id(), Some(id_of("b")));
    let action =
        handle_key_event(key(KeyCode::Char(' '), KeyModifiers::Control), &mut app, 70, 3, 2, &mut exit);
    assert!(matches!(action, Action::Play(id) if id == id_of("b")));
    let action =
        handle_key_event(key(KeyCode::Char('b'), KeyModifiers::Shift), &mut app, 70, 3, 2, &mut exit);
    assert!(matches!(action, Action::Nothing));
    assert_eq!(app.search_text(), "B");
    assert!(!exit);
    let action =
        handle_key_event(key(KeyCode::Char('q'), KeyModifiers::Control), &mut app, 70, 3, 2, &mut exit);
    assert!(matches!(action, Action::SavePlaylists));
    assert!(exit);
}

#[test]
fn playlists_written_out_and_read_back_are_the_same() {
    let mut app = player();
    app.select_song(id_of("d"));
    app.toggle_chosen();
    app.select_song(id_of("b"));
    app.toggle_chosen();
    press(&mut app, Command::OpenPlaylistInput, 0);
    type_text(&mut app, "Mix");
    press(&mut app, Command::Confirm, 0);
    let files = app.save_playlist();
    assert_eq!(files.len(), 2);
    assert_eq!(files[0].name, "All Songs");
    assert_eq!(files[0].text, "#EXTM3U\n/music/a.mp3\n/music/b.mp3\n/music/c.mp3\n/music/d.mp3\n");
    assert_eq!(files[1].name, "Mix");
    assert_eq!(files[1].text, "#EXTM3U\n/music/d.mp3\n/music/b.mp3\n");

    let mut other = MyApp::new();
    other.load_playlists(&files);
    assert_eq!(other.playlists().len(), 2);
    for i in 0..2 {
        let before = app.playlists().get(i).unwrap();
        let after = other.playlists().get(i).unwrap();
        assert_eq!(before.name, after.name);
        assert_eq!(before.ids, after.ids);
    }
}

#[test]
fn a_playlist_with_an_unsafe_name_is_written_under_its_escaped_name() {
    let mut app = player();
    app.toggle_chosen();
    press(&mut app, Command::OpenPlaylistInput, 0);
    type_text(&mut app, "../road/trip 100%");
    press(&mut app, Command::Confirm, 0);
    let files = app.save_playlist();
    assert_eq!(files[0].name, "..%2Froad%2Ftrip 100%25");
    assert_eq!(files[1].name, "All Songs");
    let mut other = MyApp::new();
    other.load_playlists(&files);
    assert_eq!(other.playlists().get(0).unwrap().name, "../road/trip 100%");
    assert_eq!(other.playlists().get(0).unwrap().ids, vec![id_of("a")]);
    assert_eq!(app.selected_playlist_index(), 0);
    let action = press(&mut app, Command::DeletePlaylist, 0);
    assert!(matches!(action, Action::RemovePlaylist(name) if name == "..%2Froad%2Ftrip 100%25"));
}

#[test]
fn songs_that_are_gone_are_not_written_out() {
    let mut app = player();
    app.select_song(id_of("d"));
    app.toggle_chosen();
    app.select_song(id_of("a"));
    app.toggle_chosen();
    press(&mut app, Command::OpenPlaylistInput, 0);
    type_text(&mut app, "Mix");
    press(&mut app, Command::Confirm, 0);
    app.load_songs(&vec![file("/music/a.mp3", "Apple", "Yan", "Fruits", 10)]);
    let files = app.save_playlist();
    assert_eq!(files[1].text, "#EXTM3U\n/music/a.mp3\n");
}

#[test]
fn loading_playlists_keeps_a_valid_selection() {
    let mut app = player();
    app.toggle_chosen();
    press(&mut app, Command::OpenPlaylistInput, 0);
    type_text(&mut app, "Mix");
    press(&mut app, Command::Confirm, 0);
    let files = app.save_playlist();
    press(&mut app, Command::PlaylistNext, 0);
    assert_eq!(app.selected_playlist_index(), 1);
    app.load_playlists(&files[..1].iter().map(|f| cli_rhythm::storage::PlaylistFile {
        name: f.name.clone(),
        text: f.text.clone(),
    }).collect());
    assert_eq!(app.selected_playlist_index(), 0);
    assert_eq!(app.selected_song_id(), Some(id_of("a")));
    app.load_playlists(&Vec::new());
    assert_eq!(app.playlists().len(), 0);
    assert_eq!(app.selected_song_id(), None);
}
