//! What holds of the player whatever the user does: the laws that relate its
//! operations to one another.

use crate::app::{lemma_arranged_same_songs, lemma_mark_all};
use crate::input_handler::{handled, Command};
use crate::manifest::{carried, lemma_filter_all, lemma_manifest_round_trip};
use crate::model::{arranged, outcome, plays, ActionView, AppView, Direction, VOLUME_MAX};
use crate::names::lemma_unescape_escaped;
use crate::playback::Playback;
use crate::playlist::{
    lemma_inserted_at, lemma_inserted_len, lemma_inserted_lookup, lemma_inserted_sorted,
    lemma_remove_sorted, lookup, PlaylistView,
};
use crate::scroll::last_offset;
use crate::song::{ids_of, path_identifier, SongView};
use crate::storage::{identifiers_of, playlist_in, restored};
use vstd::prelude::*;

verus! {

/// The identifier of a song depends on its path alone: the same path gives
/// the same identifier, at every scan.
pub proof fn lemma_identifier_is_of_path(one: SongView, other: SongView)
    requires
        one.wf(),
        other.wf(),
        one.path == other.path,
    ensures
        one.id == other.id,
        one.id == path_identifier(one.path),
{
}

/// The first song of an identifier that the catalog holds has that
/// identifier, and marking the songs anew changes neither which song that
/// is nor anything of it but the mark.
pub proof fn lemma_song_of(app: AppView, id: u128, session: Playback)
    requires
        app.has_song(id),
    ensures
        app.song_of(id).id == id,
        app.songs.contains(app.song_of(id)),
        app.with_session(session).has_song(id),
        app.with_session(session).song_of(id) == app.song_of(id).marked(plays(session, id)),
{
    ids_of(app.songs).index_of_first_ensures(id);
    lemma_mark_all(app.songs, session);
    let at = ids_of(app.songs).index_of_first(id).unwrap();
    assert(app.songs[at] == app.song_of(id));
}

/// What the filtered view shows depends on the catalog, the playlists, the
/// selected playlist and the search alone; the playing marks in particular
/// do not change which songs it holds.
pub proof fn lemma_view_ignores_session(app: AppView, session: Playback)
    ensures
        app.with_session(session).filtered_ids() == app.filtered_ids(),
    decreases app.songs.len(),
{
    let marked = app.with_session(session);
    lemma_mark_all(app.songs, session);
    lemma_filter_marked(app, marked, app.songs.len() as int);
    assert(app.songs.take(app.songs.len() as int) =~= app.songs);
    assert(marked.songs.take(app.songs.len() as int) =~= marked.songs);
}

proof fn lemma_filter_marked(app: AppView, marked: AppView, upto: int)
    requires
        0 <= upto <= app.songs.len(),
        marked == app.with_session(marked.session),
    ensures
        ids_of(marked.songs.take(upto).filter(marked.shown())) == ids_of(
            app.songs.take(upto).filter(app.shown()),
        ),
    decreases upto,
{
    lemma_mark_all(app.songs, marked.session);
    if upto == 0 {
        assert(marked.songs.take(0) =~= Seq::<SongView>::empty());
        assert(app.songs.take(0) =~= Seq::<SongView>::empty());
        crate::order::lemma_filter_none(marked.songs.take(0), marked.shown());
        crate::order::lemma_filter_none(app.songs.take(0), app.shown());
    } else {
        lemma_filter_marked(app, marked, upto - 1);
        let plain = app.songs[upto - 1];
        let other = marked.songs[upto - 1];
        assert(app.songs.take(upto) =~= app.songs.take(upto - 1).push(plain));
        assert(marked.songs.take(upto) =~= marked.songs.take(upto - 1).push(other));
        Seq::lemma_filter_push(app.songs.take(upto - 1), plain, app.shown());
        Seq::lemma_filter_push(marked.songs.take(upto - 1), other, marked.shown());
        assert(marked.shows(other) == app.shows(plain));
        let before_plain = app.songs.take(upto - 1).filter(app.shown());
        let before_other = marked.songs.take(upto - 1).filter(marked.shown());
        if app.shows(plain) {
            assert(ids_of(before_other.push(other)) =~= ids_of(before_other).push(other.id));
            assert(ids_of(before_plain.push(plain)) =~= ids_of(before_plain).push(plain.id));
        }
    }
}

/// Starting a song of the catalog leaves it playing from its beginning,
/// marked as playing, and no other song marked.
pub proof fn lemma_start_plays_from_zero(app: AppView, id: u128, now: u64)
    requires
        app.wf(),
        app.has_song(id),
    ensures
        app.start(id, now).app.session == (Playback::Playing {
            track_id: id,
            started: now,
            offset: 0,
        }),
        app.start(id, now).app.session.elapsed_at(now) == 0,
        app.start(id, now).app.wf(),
        forall|i: int|
            0 <= i < app.songs.len() ==> (#[trigger] app.start(id, now).app.songs[i]).is_playing
                == (app.songs[i].id == id),
{
    let session = Playback::Playing { track_id: id, started: now, offset: 0 };
    lemma_with_session_wf(app, session);
}

/// Setting a session keeps the invariant of the player.
pub proof fn lemma_with_session_wf(app: AppView, session: Playback)
    requires
        app.wf(),
    ensures
        app.with_session(session).wf(),
        app.with_session(session).songs.len() == app.songs.len(),
{
    lemma_mark_all(app.songs, session);
}

/// Where no two songs of the catalog share an identifier, at most one song
/// is marked as playing, and it is the song that the session plays.
pub proof fn lemma_at_most_one_plays(app: AppView, i: int, j: int)
    requires
        app.wf(),
        ids_of(app.songs).no_duplicates(),
        0 <= i < app.songs.len(),
        0 <= j < app.songs.len(),
        app.songs[i].is_playing,
        app.songs[j].is_playing,
    ensures
        i == j,
        app.session is Playing,
        app.session.track() == Some(app.songs[i].id),
{
    assert(ids_of(app.songs)[i] == app.songs[i].id);
    assert(ids_of(app.songs)[j] == app.songs[j].id);
}

/// Pausing and resuming through the player keep the time played at the
/// instant they happen, and the loaded song.
pub proof fn lemma_pause_resume_keep_time(app: AppView, now: u64)
    ensures
        app.toggle_play_pause(now).app.session == app.session.toggled_at(now),
        app.toggle_play_pause(now).app.session.elapsed_at(now) == app.session.elapsed_at(now),
        app.toggle_play_pause(now).app.session.track() == app.session.track(),
{
}

/// A seek through the player lands within the loaded song.
pub proof fn lemma_seek_lands_within(app: AppView, delta: i64, now: u64)
    requires
        app.session.track() is Some,
        app.has_song(app.session.track().unwrap()),
    ensures
        app.seek(delta, now).app.session.elapsed_at(now) <= app.song_of(
            app.session.track().unwrap(),
        ).duration,
        app.seek(delta, now).action == ActionView::Seek(
            app.seek(delta, now).app.session.elapsed_at(now),
        ),
{
}

/// A playing song that is sought to its end or beyond ends at the next
/// tick, by the same steps as a song that played to its end.
pub proof fn lemma_seek_past_end_then_tick(app: AppView, delta: i64, now: u64, later: u64)
    requires
        app.wf(),
        app.session is Playing,
        app.has_song(app.session.track().unwrap()),
        app.session.elapsed_at(now) + delta >= app.song_of(app.session.track().unwrap()).duration,
        now <= later,
    ensures
        app.seek(delta, now).app.tick(later) == app.seek(delta, now).app.finish(
            app.session.track().unwrap(),
            later,
        ),
{
    let id = app.session.track().unwrap();
    let duration = app.song_of(id).duration;
    let session = app.session.sought(delta, duration, now);
    lemma_song_of(app, id, session);
}

/// The tick at which a playing song has reached its end does what the end
/// of a song asks for.
pub proof fn lemma_tick_at_end(app: AppView, now: u64)
    requires
        app.session is Playing,
        app.has_song(app.session.track().unwrap()),
        app.session.elapsed_at(now) >= app.song_of(app.session.track().unwrap()).duration,
    ensures
        app.tick(now) == app.finish(app.session.track().unwrap(), now),
{
}

/// At the end of the last song of the filtered view, without repeat, the
/// first song of the view plays from its beginning and is selected.
pub proof fn lemma_finish_wraps(app: AppView, id: u128, now: u64)
    requires
        app.wf(),
        !app.repeat_song,
        app.filtered_ids().len() > 0,
        app.filtered_ids().index_of_first(id) == Some(app.filtered_ids().len() - 1),
    ensures
        app.finish(id, now).action == ActionView::Play(app.filtered_ids()[0]),
        app.finish(id, now).app.session == (Playback::Playing {
            track_id: app.filtered_ids()[0],
            started: now,
            offset: 0,
        }),
        app.finish(id, now).app.selected_song_id == Some(app.filtered_ids()[0]),
{
    let ids = app.filtered_ids();
    ids.index_of_first_ensures(id);
    lemma_view_is_of_catalog(app, 0);
}

/// Every song of the filtered view is a song of the catalog.
pub proof fn lemma_view_is_of_catalog(app: AppView, at: int)
    requires
        0 <= at < app.filtered_ids().len(),
    ensures
        app.has_song(app.filtered_ids()[at]),
        app.filtered()[at].id == app.filtered_ids()[at],
        app.songs.contains(app.filtered()[at]),
        app.shows(app.filtered()[at]),
{
    let view = app.filtered();
    app.songs.lemma_filter_pred(app.shown(), at);
    app.songs.lemma_filter_contains_rev(app.shown(), view[at]);
    let k = choose|k: int| 0 <= k < app.songs.len() && app.songs[k] == view[at];
    assert(ids_of(app.songs)[k] == view[at].id);
}

/// Going to the next song by hand at the last song of the filtered view
/// changes nothing, nor does going to the previous one at the first.
pub proof fn lemma_advance_stops_at_the_ends(app: AppView, now: u64)
    requires
        app.session.track() is Some,
        app.filtered_ids().contains(app.session.track().unwrap()),
    ensures
        app.filtered_ids().index_of_first(app.session.track().unwrap()) == Some(
            app.filtered_ids().len() - 1,
        ) ==> app.advance(Direction::Next, now) == outcome(app, ActionView::Nothing),
        app.filtered_ids().index_of_first(app.session.track().unwrap()) == Some(0int)
            ==> app.advance(Direction::Previous, now) == outcome(app, ActionView::Nothing),
{
}

/// Moving the selection down from the last song of the filtered view
/// selects the first and scrolls to the top; moving it up from the first
/// selects the last and scrolls as far as the list goes.
pub proof fn lemma_selection_wraps(app: AppView, capacity: usize)
    requires
        app.wf(),
        app.selected_song_id is Some,
        app.filtered_ids().contains(app.selected_song_id.unwrap()),
    ensures
        app.filtered_ids().index_of_first(app.selected_song_id.unwrap()) == Some(
            app.filtered_ids().len() - 1,
        ) ==> {
            &&& app.move_selection(Direction::Next, capacity).selected_song_id == Some(
                app.filtered_ids()[0],
            )
            &&& app.move_selection(Direction::Next, capacity).list_offset == 0
        },
        app.filtered_ids().index_of_first(app.selected_song_id.unwrap()) == Some(0int) ==> {
            &&& app.move_selection(Direction::Previous, capacity).selected_song_id == Some(
                app.filtered_ids()[app.filtered_ids().len() - 1],
            )
            &&& app.move_selection(Direction::Previous, capacity).list_offset == if app.filtered_ids().len()
                > capacity {
                app.filtered_ids().len() - capacity
            } else {
                0
            }
        },
{
    let ids = app.filtered_ids();
    ids.index_of_first_ensures(app.selected_song_id.unwrap());
    app.songs.lemma_filter_len(app.shown());
}

/// Making the selection valid: a selected song that is in the filtered view
/// stays selected; else the first song of the view is selected, or none
/// where the view is empty. The view itself is as before.
pub proof fn lemma_normalized(app: AppView)
    ensures
        app.normalized().filtered_ids() == app.filtered_ids(),
        app.selected_song_id is Some && app.filtered_ids().contains(
            app.selected_song_id.unwrap(),
        ) ==> app.normalized() == app,
        !(app.selected_song_id is Some && app.filtered_ids().contains(
            app.selected_song_id.unwrap(),
        )) && app.filtered_ids().len() > 0 ==> app.normalized().selected_song_id == Some(
            app.filtered_ids()[0],
        ),
        app.filtered_ids().len() == 0 ==> app.normalized().selected_song_id is None,
{
    let after = app.normalized();
    assert(after.shown() =~= app.shown());
}

/// After the search text has changed, the selection is valid for the new
/// view: a selected song that fell out of the view gives way to the view's
/// first song, or to none where the view is empty.
pub proof fn lemma_search_resets_selection(app: AppView, c: char)
    requires
        !app.input_visible,
    ensures
        ({
            let after = app.type_char(c);
            let ids = after.filtered_ids();
            &&& after.search_text == app.search_text.push(c)
            &&& (app.selected_song_id is Some && ids.contains(app.selected_song_id.unwrap())
                ==> after.selected_song_id == app.selected_song_id)
            &&& (!(app.selected_song_id is Some && ids.contains(app.selected_song_id.unwrap()))
                && ids.len() > 0 ==> after.selected_song_id == Some(ids[0]))
            &&& (ids.len() == 0 ==> after.selected_song_id is None)
        }),
{
    let typed = AppView { search_text: app.search_text.push(c), ..app };
    lemma_normalized(typed);
}

/// Creating a playlist: without a name and without songs the input names
/// both, with one of them missing it names that one, and nothing else
/// changes; with both given the playlist exists under its name with the
/// chosen songs, and the choice is empty again.
pub proof fn lemma_create_playlist(app: AppView)
    ensures
        app.playlist_name_input.len() == 0 && app.chosen_song_ids.len() == 0
            ==> app.create_playlist() == (AppView {
            playlist_name_input: "Need a name and at least 1 song"@,
            ..app
        }),
        app.playlist_name_input.len() == 0 && app.chosen_song_ids.len() > 0
            ==> app.create_playlist() == (AppView { playlist_name_input: "Need a name "@, ..app }),
        app.playlist_name_input.len() > 0 && app.chosen_song_ids.len() == 0
            ==> app.create_playlist() == (AppView {
            playlist_name_input: "Need at least 1 song"@,
            ..app
        }),
        app.playlist_name_input.len() > 0 && app.chosen_song_ids.len() > 0 ==> {
            &&& lookup(app.create_playlist().playlists, app.playlist_name_input) == Some(
                app.chosen_song_ids,
            )
            &&& app.create_playlist().chosen_song_ids.len() == 0
            &&& !app.create_playlist().input_visible
        },
{
    lemma_inserted_lookup(
        app.playlists,
        PlaylistView { name: app.playlist_name_input, ids: app.chosen_song_ids },
        app.playlist_name_input,
    );
}

/// Muting keeps the volume and unmuting brings it back; muting what is
/// already silent does not overwrite what was kept.
pub proof fn lemma_mute_keeps_volume(app: AppView)
    requires
        app.wf(),
    ensures
        app.volume > 0 ==> {
            &&& app.toggle_mute().app.volume == 0
            &&& app.toggle_mute().app.previous_volume == app.volume
            &&& app.toggle_mute().app.toggle_mute().app.volume == app.volume
        },
        app.volume == 0 ==> app.toggle_mute().app.previous_volume == app.previous_volume,
        app.toggle_mute().app.volume <= VOLUME_MAX,
        app.volume_up().app.volume <= VOLUME_MAX,
        app.volume_down().app.volume <= app.volume,
{
}

/// The songs of the playlist are all in the catalog, under paths that a
/// manifest can carry.
pub open spec fn can_be_written(app: AppView, list: PlaylistView) -> bool {
    forall|j: int|
        0 <= j < list.ids.len() ==> app.has_song(#[trigger] list.ids[j]) && carried(
            app.song_of(list.ids[j]).path,
        )
}

/// A playlist that is written out and read back is the playlist that it
/// was.
pub proof fn lemma_playlist_round_trip(app: AppView, list: PlaylistView)
    requires
        app.wf(),
        can_be_written(app, list),
    ensures
        playlist_in(app.file_of(list)) == list,
{
    let ids = list.ids;
    lemma_unescape_escaped(list.name);
    assert forall|j: int| 0 <= j < ids.len() implies (app.known())(#[trigger] ids[j]) by {}
    lemma_filter_all(ids, app.known());
    let paths = app.paths_of(ids);
    assert(paths == ids.map_values(app.path_at()));
    assert forall|j: int| 0 <= j < paths.len() implies carried(#[trigger] paths[j]) by {
        assert(paths[j] == app.song_of(ids[j]).path);
    }
    lemma_manifest_round_trip(paths);
    assert forall|j: int| 0 <= j < ids.len() implies identifiers_of(paths)[j] == ids[j] by {
        lemma_song_of(app, ids[j], app.session);
        let song = app.song_of(ids[j]);
        let k = choose|k: int| 0 <= k < app.songs.len() && app.songs[k] == song;
        assert(app.songs[k].wf());
    }
    assert(identifiers_of(paths) =~= ids);
}

proof fn lemma_restored_prefix(app: AppView, upto: int)
    requires
        app.wf(),
        0 <= upto <= app.playlists.len(),
        forall|i: int|
            0 <= i < app.playlists.len() ==> can_be_written(app, #[trigger] app.playlists[i]),
    ensures
        restored(app.saved().take(upto)) == app.playlists.take(upto),
    decreases upto,
{
    let files = app.saved().take(upto);
    if upto == 0 {
        assert(files =~= Seq::empty());
        assert(app.playlists.take(0) =~= Seq::<PlaylistView>::empty());
    } else {
        lemma_restored_prefix(app, upto - 1);
        let list = app.playlists[upto - 1];
        let before = app.playlists.take(upto - 1);
        assert(files.drop_last() =~= app.saved().take(upto - 1));
        assert(files.last() == app.file_of(list));
        lemma_playlist_round_trip(app, list);
        assert forall|j: int| 0 <= j < upto - 1 implies crate::text::text_lt(
            (#[trigger] before[j]).name,
            list.name,
        ) by {
            assert(before[j] == app.playlists[j]);
        }
        lemma_inserted_at(before, list, upto - 1);
        assert(before.insert(upto - 1, list) =~= app.playlists.take(upto));
    }
}

/// Written out and read back, the playlists are the playlists that they
/// were: the same names with the same songs in the same order. This holds
/// where every song of every playlist is in the catalog under a path that a
/// manifest can carry.
pub proof fn lemma_playlists_round_trip(app: AppView)
    requires
        app.wf(),
        forall|i: int|
            0 <= i < app.playlists.len() ==> can_be_written(app, #[trigger] app.playlists[i]),
    ensures
        restored(app.saved()) == app.playlists,
{
    lemma_restored_prefix(app, app.playlists.len() as int);
    assert(app.saved().take(app.playlists.len() as int) =~= app.saved());
    assert(app.playlists.take(app.playlists.len() as int) =~= app.playlists);
}

/// After the selection has moved, the list of songs begins no further down
/// than its rows allow.
pub proof fn lemma_moved_list_is_in_bounds(app: AppView, direction: Direction, capacity: usize)
    requires
        app.wf(),
        app.filtered_ids().len() > 0,
    ensures
        app.move_selection(direction, capacity).list_offset <= last_offset(
            app.filtered_ids().len() as int,
            capacity as int,
        ),
        app.filtered_ids().contains(
            app.move_selection(direction, capacity).selected_song_id.unwrap(),
        ),
{
    let ids = app.filtered_ids();
    app.songs.lemma_filter_len(app.shown());
    if app.selected_song_id is Some {
        ids.index_of_first_ensures(app.selected_song_id.unwrap());
    }
    let chosen = app.move_selection(direction, capacity).selected_song_id.unwrap();
    assert(exists|i: int| 0 <= i < ids.len() && ids[i] == chosen);
}

/// After the playlist selection has moved, a playlist is selected, and the
/// list of playlists begins no further down than its rows allow. This holds
/// of playlists that fit into memory.
pub proof fn lemma_moved_playlists_are_in_bounds(
    app: AppView,
    direction: Direction,
    capacity: usize,
)
    requires
        app.wf(),
        0 < app.playlists.len() <= usize::MAX,
    ensures
        app.move_playlist(direction, capacity).selected_playlist_index < app.playlists.len(),
        app.move_playlist(direction, capacity).playlist_list_offset <= last_offset(
            app.playlists.len() as int,
            capacity as int,
        ),
{
}

/// No more rows are shown than the screen holds, of songs and of playlists.
pub proof fn lemma_rows_fit(app: AppView, capacity: usize)
    ensures
        app.rows(capacity).len() <= capacity,
        app.rows(capacity).len() <= app.filtered().len(),
        app.playlist_rows(capacity).len() <= capacity,
        app.playlist_rows(capacity).len() <= app.playlists.len(),
{
}

/// The operations on the session keep the invariant of the player.
pub proof fn lemma_playback_keeps_invariant(app: AppView, id: u128, delta: i64, now: u64)
    requires
        app.wf(),
    ensures
        app.start(id, now).app.wf(),
        app.stop().app.wf(),
        app.toggle_play_pause(now).app.wf(),
        app.toggle_select(id, now).app.wf(),
        app.seek(delta, now).app.wf(),
        app.play_from_view(id, now).app.wf(),
        app.finish(id, now).app.wf(),
        app.tick(now).app.wf(),
        app.advance(Direction::Next, now).app.wf(),
        app.advance(Direction::Previous, now).app.wf(),
{
    lemma_with_session_wf(app, Playback::Playing { track_id: id, started: now, offset: 0 });
    lemma_with_session_wf(app, Playback::Idle);
    lemma_with_session_wf(app, app.session.toggled_at(now));
    if app.session.track() is Some {
        let loaded = app.session.track().unwrap();
        lemma_with_session_wf(
            app,
            app.session.sought(delta, app.song_of(loaded).duration, now),
        );
        lemma_with_session_wf(
            app,
            Playback::Playing { track_id: loaded, started: now, offset: 0 },
        );
    }
    let ids = app.filtered_ids();
    if ids.len() > 0 {
        lemma_with_session_wf(
            app,
            Playback::Playing { track_id: app.follower(id), started: now, offset: 0 },
        );
        if app.session.track() is Some {
            lemma_with_session_wf(
                app,
                Playback::Playing {
                    track_id: app.follower(app.session.track().unwrap()),
                    started: now,
                    offset: 0,
                },
            );
            if ids.contains(app.session.track().unwrap()) {
                let at = ids.index_of_first(app.session.track().unwrap()).unwrap();
                ids.index_of_first_ensures(app.session.track().unwrap());
                if at + 1 < ids.len() {
                    lemma_with_session_wf(
                        app,
                        Playback::Playing { track_id: ids[at + 1], started: now, offset: 0 },
                    );
                }
                if at > 0 {
                    lemma_with_session_wf(
                        app,
                        Playback::Playing { track_id: ids[at - 1], started: now, offset: 0 },
                    );
                }
            }
        }
    }
}

/// The operations on the view and on the playlists keep the invariant of
/// the player.
pub proof fn lemma_browsing_keeps_invariant(
    app: AppView,
    direction: Direction,
    capacity: usize,
    c: char,
)
    requires
        app.wf(),
    ensures
        app.normalized().wf(),
        app.move_selection(direction, capacity).wf(),
        app.move_playlist(direction, capacity).wf(),
        app.type_char(c).wf(),
        app.erase_char().wf(),
        app.cycle_search().wf(),
        app.create_playlist().wf(),
        app.delete_playlist().app.wf(),
        app.toggle_chosen().wf(),
        app.escape().wf(),
        app.volume_up().app.wf(),
        app.volume_down().app.wf(),
        app.toggle_mute().app.wf(),
{
    let list = PlaylistView { name: app.playlist_name_input, ids: app.chosen_song_ids };
    lemma_inserted_sorted(app.playlists, list);
    lemma_inserted_len(app.playlists, list);
    if app.selected_playlist_index < app.playlists.len() {
        lemma_remove_sorted(app.playlists, app.selected_playlist_index as int);
    }
}

/// Every command leaves the invariant of the player in place.
pub proof fn lemma_commands_keep_invariant(
    app: AppView,
    key: Command,
    now: u64,
    song_rows: usize,
    playlist_rows: usize,
    arrangement: Seq<SongView>,
)
    requires
        app.wf(),
        key == Command::CycleSort ==> arranged(
            arrangement,
            app.songs,
            app.sort_criteria.successor(),
        ),
    ensures
        handled(app, key, now, song_rows, playlist_rows, arrangement).app.wf(),
{
    match key {
        Command::CycleSort => {
            lemma_arranged_same_songs(arrangement, app.songs, app.sort_criteria.successor());
            assert forall|i: int| 0 <= i < arrangement.len() implies (#[trigger] arrangement[i]).wf()
                && arrangement[i].is_playing == plays(app.session, arrangement[i].id) by {
                assert(arrangement.contains(arrangement[i]));
                let j = choose|j: int| 0 <= j < app.songs.len() && app.songs[j] == arrangement[i];
                assert(app.songs[j].wf());
            }
        },
        Command::Type(c) => {
            lemma_browsing_keeps_invariant(app, Direction::Next, song_rows, c);
        },
        Command::SelectNext | Command::SelectPrevious => {
            lemma_browsing_keeps_invariant(app, Direction::Next, song_rows, 'a');
            lemma_browsing_keeps_invariant(app, Direction::Previous, song_rows, 'a');
        },
        Command::PlaylistNext | Command::PlaylistPrevious => {
            lemma_browsing_keeps_invariant(app, Direction::Next, playlist_rows, 'a');
            lemma_browsing_keeps_invariant(app, Direction::Previous, playlist_rows, 'a');
        },
        Command::ToggleSelected => {
            if app.selected_song_id is Some {
                lemma_playback_keeps_invariant(app, app.selected_song_id.unwrap(), 0, now);
            }
        },
        Command::SeekForward => {
            lemma_playback_keeps_invariant(app, 0, crate::input_handler::SEEK_STEP, now);
        },
        Command::SeekBackward => {
            lemma_playback_keeps_invariant(
                app,
                0,
                (-crate::input_handler::SEEK_STEP) as i64,
                now,
            );
        },
        Command::TogglePause | Command::PlayPrevious | Command::PlayNext => {
            lemma_playback_keeps_invariant(app, 0, 0, now);
        },
        _ => {
            lemma_browsing_keeps_invariant(app, Direction::Next, song_rows, 'a');
        },
    }
}

} // verus!
