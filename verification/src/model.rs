//! The player as plain values, and what each command makes of it.
//!
//! Every operation of the player is stated here as a function from the state
//! before to the state after and the command that goes to the audio sink.

use crate::display::{decimal, details, joined, progress, thousandths, wrapped, DETAILS_WIDTH};
use crate::manifest::manifest_of;
use crate::names::escaped;
use crate::playback::Playback;
use crate::playlist::{inserted, not_id, refusal, sorted_by_name, PlaylistView};
use crate::scroll::{last_offset, scrolled};
use crate::song::{ids_of, SongView};
use crate::storage::PlaylistFileView;
use crate::text::{is_substring, lowercase};
use crate::utils::{SearchCriteria, SortCriteria};
use vstd::prelude::*;

verus! {

/// The step by which the volume is raised and lowered, in hundredths.
pub const VOLUME_STEP: u8 = 5;

/// The full volume, in hundredths.
pub const VOLUME_MAX: u8 = 100;

/// What the audio sink and the surroundings are asked to do after a command.
pub enum ActionView {
    /// Nothing.
    Nothing,
    /// Clear the sink, load the song of this identifier and play it, as one
    /// step.
    Play(u128),
    /// Clear the sink.
    Stop,
    /// Pause the sink.
    Pause,
    /// Let the sink play on.
    Resume,
    /// Move the sink to this position of the loaded song, in milliseconds,
    /// if it can.
    Seek(u64),
    /// Set the sink's volume, in hundredths.
    SetVolume(u8),
    /// Write the playlists out; the player is about to leave.
    SavePlaylists,
    /// Remove what was written out under this name, the escaped name of a
    /// playlist.
    RemovePlaylist(Seq<char>),
}

/// The two ways along a list.
#[derive(Clone, Copy, Debug, PartialEq, Eq, Structural)]
pub enum Direction {
    Next,
    Previous,
}

/// How a row of the song list stands out.
#[derive(Clone, Copy, Debug, PartialEq, Eq, Structural)]
pub enum Mark {
    /// Not at all.
    Plain,
    /// The song is chosen for the next playlist.
    Chosen,
    /// The song is selected.
    Selected,
}

/// A row of the song list as plain values.
pub struct RowView {
    pub title: Seq<char>,
    pub mark: Mark,
}

/// The state of the player as plain values.
pub struct AppView {
    pub songs: Seq<SongView>,
    pub selected_song_id: Option<u128>,
    pub session: Playback,
    pub search_criteria: SearchCriteria,
    pub sort_criteria: SortCriteria,
    pub hint_visible: bool,
    pub input_visible: bool,
    pub selected_playlist_index: usize,
    pub playlist_name_input: Seq<char>,
    pub playlists: Seq<PlaylistView>,
    pub search_text: Seq<char>,
    pub volume: u8,
    pub previous_volume: u8,
    pub list_offset: usize,
    pub playlist_list_offset: usize,
    pub chosen_song_ids: Seq<u128>,
    pub repeat_song: bool,
}

/// A state together with what is asked of the surroundings.
pub struct Outcome {
    pub app: AppView,
    pub action: ActionView,
}

/// The outcome made of a state and an action.
pub open spec fn outcome(app: AppView, action: ActionView) -> Outcome {
    Outcome { app, action }
}

/// The session plays the song of this identifier.
pub open spec fn plays(session: Playback, id: u128) -> bool {
    match session {
        Playback::Playing { track_id, .. } => track_id == id,
        _ => false,
    }
}

/// Gives each song the playing mark that the session asks for.
pub open spec fn marker(session: Playback) -> spec_fn(SongView) -> SongView {
    |s: SongView| s.marked(plays(session, s.id))
}

/// The songs, each with the playing mark that the session asks for.
pub open spec fn mark_all(songs: Seq<SongView>, session: Playback) -> Seq<SongView> {
    songs.map_values(marker(session))
}

/// The name of the playlist that holds every song of the catalog.
pub open spec fn all_songs() -> Seq<char> {
    "All Songs"@
}

/// The songs are those of `from` in the order of the criterion: sorted, or,
/// under `Shuffle`, in any order.
pub open spec fn arranged(songs: Seq<SongView>, from: Seq<SongView>, by: SortCriteria) -> bool {
    if by == SortCriteria::Shuffle {
        songs.to_multiset() == from.to_multiset()
    } else {
        songs == crate::order::sorted_by(from, by)
    }
}

impl AppView {
    /// The player before anything was loaded: no songs, no playlists,
    /// nothing playing, the search by title and the order by title, full
    /// volume.
    pub open spec fn initial() -> AppView {
        AppView {
            songs: Seq::empty(),
            selected_song_id: None,
            session: Playback::Idle,
            search_criteria: SearchCriteria::Title,
            sort_criteria: SortCriteria::Title,
            hint_visible: false,
            input_visible: false,
            selected_playlist_index: 0,
            playlist_name_input: Seq::empty(),
            playlists: Seq::empty(),
            search_text: Seq::empty(),
            volume: VOLUME_MAX,
            previous_volume: 0,
            list_offset: 0,
            playlist_list_offset: 0,
            chosen_song_ids: Seq::empty(),
            repeat_song: false,
        }
    }

    /// What holds of every state of the player: the catalog fits into
    /// memory; each song has the identifier of its path; a song is marked as
    /// playing exactly if the session plays it; the playlists are in the
    /// order of their names; the selected playlist exists, or is the first;
    /// the volumes are at most the full volume.
    pub open spec fn wf(self) -> bool {
        &&& self.songs.len() <= usize::MAX
        &&& forall|i: int| 0 <= i < self.songs.len() ==> (#[trigger] self.songs[i]).wf()
        &&& forall|i: int|
            0 <= i < self.songs.len() ==> (#[trigger] self.songs[i]).is_playing == plays(
                self.session,
                self.songs[i].id,
            )
        &&& sorted_by_name(self.playlists)
        &&& (self.selected_playlist_index == 0 || self.selected_playlist_index
            < self.playlists.len())
        &&& self.volume <= VOLUME_MAX
        &&& self.previous_volume <= VOLUME_MAX
    }

    /// The catalog holds a song of this identifier.
    pub open spec fn has_song(self, id: u128) -> bool {
        ids_of(self.songs).contains(id)
    }

    /// The first song of this identifier in the catalog.
    pub open spec fn song_of(self, id: u128) -> SongView {
        self.songs[ids_of(self.songs).index_of_first(id).unwrap()]
    }

    /// The songs of the playlist that is selected; none where no playlist
    /// stands at the selected place.
    pub open spec fn active_ids(self) -> Seq<u128> {
        if self.selected_playlist_index < self.playlists.len() {
            self.playlists[self.selected_playlist_index as int].ids
        } else {
            Seq::empty()
        }
    }

    /// The song is seen: it belongs to the selected playlist, and the search
    /// text stands in the searched field, both taken in lower case.
    pub open spec fn shows(self, song: SongView) -> bool {
        &&& is_substring(
            lowercase(self.search_text),
            lowercase(self.search_criteria.field(song)),
        )
        &&& self.active_ids().contains(song.id)
    }

    /// The songs that are seen, as a predicate.
    pub open spec fn shown(self) -> spec_fn(SongView) -> bool {
        |song: SongView| self.shows(song)
    }

    /// The filtered view: the songs that are seen, in the order of the
    /// catalog.
    pub open spec fn filtered(self) -> Seq<SongView> {
        self.songs.filter(self.shown())
    }

    /// The identifiers of the filtered view.
    pub open spec fn filtered_ids(self) -> Seq<u128> {
        ids_of(self.filtered())
    }

    /// The state with this session, and the playing marks that go with it.
    pub open spec fn with_session(self, session: Playback) -> AppView {
        AppView { session, songs: mark_all(self.songs, session), ..self }
    }

    /// The state with a valid selection: kept where the selected song is in
    /// the filtered view, else the view's first song with the list scrolled
    /// to its top, or none where the view is empty.
    pub open spec fn normalized(self) -> AppView {
        let ids = self.filtered_ids();
        if self.selected_song_id is Some && ids.contains(self.selected_song_id.unwrap()) {
            self
        } else if ids.len() > 0 {
            AppView { selected_song_id: Some(ids[0]), list_offset: 0, ..self }
        } else {
            AppView { selected_song_id: None, ..self }
        }
    }

    /// Select this song, whatever the view shows.
    pub open spec fn select_song(self, id: u128) -> AppView {
        AppView { selected_song_id: Some(id), ..self }
    }

    /// Play the song of this identifier from its beginning; where the
    /// catalog has no such song, nothing plays.
    pub open spec fn start(self, id: u128, now: u64) -> Outcome {
        if self.has_song(id) {
            outcome(
                self.with_session(Playback::Playing { track_id: id, started: now, offset: 0 }),
                ActionView::Play(id),
            )
        } else {
            self.stop()
        }
    }

    /// Stop whatever plays.
    pub open spec fn stop(self) -> Outcome {
        outcome(self.with_session(Playback::Idle), ActionView::Stop)
    }

    /// Pause what plays, or let what is paused play on.
    pub open spec fn toggle_play_pause(self, now: u64) -> Outcome {
        outcome(
            self.with_session(self.session.toggled_at(now)),
            match self.session {
                Playback::Idle => ActionView::Nothing,
                Playback::Playing { .. } => ActionView::Pause,
                Playback::Paused { .. } => ActionView::Resume,
            },
        )
    }

    /// Play this song, or, where it is the one that is loaded, stop it.
    pub open spec fn toggle_select(self, id: u128, now: u64) -> Outcome {
        if self.session.track() == Some(id) {
            self.stop()
        } else {
            self.start(id, now)
        }
    }

    /// Move the position in the loaded song by `delta` milliseconds, held
    /// within the song. Where the loaded song is gone from the catalog,
    /// nothing plays any more.
    pub open spec fn seek(self, delta: i64, now: u64) -> Outcome {
        match self.session.track() {
            None => outcome(self, ActionView::Nothing),
            Some(id) => if self.has_song(id) {
                let duration = self.song_of(id).duration;
                outcome(
                    self.with_session(self.session.sought(delta, duration, now)),
                    ActionView::Seek(self.session.seek_target(delta, duration, now)),
                )
            } else {
                self.stop()
            },
        }
    }

    /// Play a song of the filtered view and select it.
    pub open spec fn play_from_view(self, id: u128, now: u64) -> Outcome {
        outcome(
            AppView { selected_song_id: Some(id), ..self.start(id, now).app },
            self.start(id, now).action,
        )
    }

    /// Go to the neighbour of the loaded song in the filtered view. At the
    /// first song there is no previous one, at the last no next: nothing
    /// changes then, nor where the loaded song is not in the view.
    pub open spec fn advance(self, direction: Direction, now: u64) -> Outcome {
        let ids = self.filtered_ids();
        if self.session.track() is Some && ids.contains(self.session.track().unwrap()) {
            let at = ids.index_of_first(self.session.track().unwrap()).unwrap();
            match direction {
                Direction::Next => if at + 1 < ids.len() {
                    self.play_from_view(ids[at + 1], now)
                } else {
                    outcome(self, ActionView::Nothing)
                },
                Direction::Previous => if at > 0 {
                    self.play_from_view(ids[at - 1], now)
                } else {
                    outcome(self, ActionView::Nothing)
                },
            }
        } else {
            outcome(self, ActionView::Nothing)
        }
    }

    /// The song that follows `id` in the filtered view, the first following
    /// the last; the first also where `id` is not in the view.
    pub open spec fn follower(self, id: u128) -> u128
        recommends
            self.filtered_ids().len() > 0,
    {
        let ids = self.filtered_ids();
        if ids.contains(id) && ids.index_of_first(id).unwrap() + 1 < ids.len() {
            ids[ids.index_of_first(id).unwrap() + 1]
        } else {
            ids[0]
        }
    }

    /// What follows the end of the song `id`: the same song again where
    /// repeat is on, else the follower in the filtered view, else nothing.
    pub open spec fn finish(self, id: u128, now: u64) -> Outcome {
        if self.repeat_song {
            self.start(id, now)
        } else if self.filtered_ids().len() == 0 {
            self.stop()
        } else {
            self.play_from_view(self.follower(id), now)
        }
    }

    /// A tick of the clock: where the song that plays has reached its end,
    /// what follows the end; where it is gone from the catalog, nothing
    /// plays any more; else nothing changes.
    pub open spec fn tick(self, now: u64) -> Outcome {
        match self.session {
            Playback::Playing { track_id, .. } => if !self.has_song(track_id) {
                self.stop()
            } else if self.session.finished_at(now, self.song_of(track_id).duration) {
                self.finish(track_id, now)
            } else {
                outcome(self, ActionView::Nothing)
            },
            _ => outcome(self, ActionView::Nothing),
        }
    }

    /// Move the selection one song along the filtered view, shown
    /// `capacity` rows at a time. Past either end the selection wraps to the
    /// other; without a selection in the view it goes to the first song.
    pub open spec fn move_selection(self, direction: Direction, capacity: usize) -> AppView {
        let ids = self.filtered_ids();
        let len = ids.len() as int;
        if len == 0 {
            self
        } else if self.selected_song_id is Some && ids.contains(self.selected_song_id.unwrap()) {
            let at = ids.index_of_first(self.selected_song_id.unwrap()).unwrap();
            match direction {
                Direction::Next => if at + 1 < len {
                    AppView {
                        selected_song_id: Some(ids[at + 1]),
                        list_offset: scrolled(
                            self.list_offset as int,
                            at + 1,
                            len,
                            capacity as int,
                        ) as usize,
                        ..self
                    }
                } else {
                    AppView { selected_song_id: Some(ids[0]), list_offset: 0, ..self }
                },
                Direction::Previous => if at > 0 {
                    AppView {
                        selected_song_id: Some(ids[at - 1]),
                        list_offset: scrolled(
                            self.list_offset as int,
                            at - 1,
                            len,
                            capacity as int,
                        ) as usize,
                        ..self
                    }
                } else {
                    AppView {
                        selected_song_id: Some(ids[len - 1]),
                        list_offset: last_offset(len, capacity as int) as usize,
                        ..self
                    }
                },
            }
        } else {
            AppView { selected_song_id: Some(ids[0]), list_offset: 0, ..self }
        }
    }

    /// The state with another playlist selected: the song selection starts
    /// anew in its view.
    pub open spec fn with_playlist(self, index: usize, offset: usize) -> AppView {
        if index == self.selected_playlist_index {
            AppView { playlist_list_offset: offset, ..self }
        } else {
            AppView {
                selected_playlist_index: index,
                playlist_list_offset: offset,
                selected_song_id: None,
                ..self
            }.normalized()
        }
    }

    /// Move the playlist selection one along the list of playlists, shown
    /// `capacity` rows at a time, wrapping at both ends.
    pub open spec fn move_playlist(self, direction: Direction, capacity: usize) -> AppView {
        let len = self.playlists.len() as int;
        let at = self.selected_playlist_index as int;
        if len == 0 {
            self
        } else {
            match direction {
                Direction::Next => if at + 1 < len {
                    self.with_playlist(
                        (at + 1) as usize,
                        scrolled(self.playlist_list_offset as int, at + 1, len, capacity as int)
                            as usize,
                    )
                } else {
                    self.with_playlist(0, 0)
                },
                Direction::Previous => if at > 0 {
                    self.with_playlist(
                        (at - 1) as usize,
                        scrolled(self.playlist_list_offset as int, at - 1, len, capacity as int)
                            as usize,
                    )
                } else {
                    self.with_playlist((len - 1) as usize, last_offset(len, capacity as int) as usize)
                },
            }
        }
    }

    /// A character typed: into the playlist name while its popup is open,
    /// else into the search text.
    pub open spec fn type_char(self, c: char) -> AppView {
        if self.input_visible {
            AppView { playlist_name_input: self.playlist_name_input.push(c), ..self }
        } else {
            AppView { search_text: self.search_text.push(c), ..self }.normalized()
        }
    }

    /// The last character taken back, from the playlist name while its popup
    /// is open, else from the search text.
    pub open spec fn erase_char(self) -> AppView {
        if self.input_visible {
            if self.playlist_name_input.len() > 0 {
                AppView { playlist_name_input: self.playlist_name_input.drop_last(), ..self }
            } else {
                self
            }
        } else if self.search_text.len() > 0 {
            AppView { search_text: self.search_text.drop_last(), ..self }.normalized()
        } else {
            self.normalized()
        }
    }

    /// Search the next field.
    pub open spec fn cycle_search(self) -> AppView {
        AppView { search_criteria: self.search_criteria.successor(), ..self }.normalized()
    }

    /// Lower the volume by one step, not below silence.
    pub open spec fn volume_down(self) -> Outcome {
        let volume: u8 = if self.volume >= VOLUME_STEP {
            (self.volume - VOLUME_STEP) as u8
        } else {
            0
        };
        outcome(AppView { volume, ..self }, ActionView::SetVolume(volume))
    }

    /// Raise the volume by one step, not above the full volume.
    pub open spec fn volume_up(self) -> Outcome {
        let volume: u8 = if self.volume + VOLUME_STEP <= VOLUME_MAX {
            (self.volume + VOLUME_STEP) as u8
        } else {
            VOLUME_MAX
        };
        outcome(AppView { volume, ..self }, ActionView::SetVolume(volume))
    }

    /// Mute, keeping the volume for later; or, when silent, go back to the
    /// volume that was kept.
    pub open spec fn toggle_mute(self) -> Outcome {
        if self.volume > 0 {
            outcome(
                AppView { previous_volume: self.volume, volume: 0, ..self },
                ActionView::SetVolume(0),
            )
        } else {
            outcome(
                AppView { volume: self.previous_volume, ..self },
                ActionView::SetVolume(self.previous_volume),
            )
        }
    }

    /// Create a playlist of the chosen songs under the name that was typed.
    /// Where the name or the songs are missing, the input shows what is
    /// missing, and nothing else changes; else the playlist is put in, the
    /// popup closes and the choice is empty again.
    pub open spec fn create_playlist(self) -> AppView {
        match refusal(self.playlist_name_input, self.chosen_song_ids) {
            Some(error) => AppView { playlist_name_input: error.message_text(), ..self },
            None => AppView {
                input_visible: false,
                playlists: inserted(
                    self.playlists,
                    PlaylistView { name: self.playlist_name_input, ids: self.chosen_song_ids },
                ),
                chosen_song_ids: Seq::empty(),
                ..self
            }.normalized(),
        }
    }

    /// Delete the selected playlist; the first playlist is selected then.
    pub open spec fn delete_playlist(self) -> Outcome {
        if self.selected_playlist_index < self.playlists.len() {
            outcome(
                AppView {
                    playlists: self.playlists.remove(self.selected_playlist_index as int),
                    selected_playlist_index: 0,
                    selected_song_id: None,
                    ..self
                }.normalized(),
                ActionView::RemovePlaylist(
                    escaped(self.playlists[self.selected_playlist_index as int].name),
                ),
            )
        } else {
            outcome(self, ActionView::Nothing)
        }
    }

    /// Take the selected song into the choice for the next playlist, or out
    /// of it where it is in.
    pub open spec fn toggle_chosen(self) -> AppView {
        match self.selected_song_id {
            None => self,
            Some(id) => if self.chosen_song_ids.contains(id) {
                AppView { chosen_song_ids: self.chosen_song_ids.filter(not_id(id)), ..self }
            } else {
                AppView { chosen_song_ids: self.chosen_song_ids.push(id), ..self }
            },
        }
    }

    /// Close the popups and empty the playlist name.
    pub open spec fn escape(self) -> AppView {
        AppView {
            input_visible: false,
            playlist_name_input: Seq::empty(),
            hint_visible: false,
            ..self
        }
    }

    /// The state with these songs as its catalog: the playlist of all songs
    /// holds them, a session whose song is gone ends, and the selection is
    /// made valid.
    pub open spec fn with_catalog(self, songs: Seq<SongView>) -> AppView {
        let session = if self.session.track() is Some && ids_of(songs).contains(
            self.session.track().unwrap(),
        ) {
            self.session
        } else {
            Playback::Idle
        };
        AppView {
            songs: mark_all(songs, session),
            session,
            playlists: inserted(
                self.playlists,
                PlaylistView { name: all_songs(), ids: ids_of(songs) },
            ),
            ..self
        }.normalized()
    }

    /// The state with these playlists in place of its own.
    pub open spec fn with_playlists(self, playlists: Seq<PlaylistView>) -> AppView {
        AppView {
            playlists,
            selected_playlist_index: if self.selected_playlist_index < playlists.len() {
                self.selected_playlist_index
            } else {
                0
            },
            ..self
        }.normalized()
    }

    /// The identifiers that the catalog holds a song for.
    pub open spec fn known(self) -> spec_fn(u128) -> bool {
        |id: u128| self.has_song(id)
    }

    /// The paths of the songs of a playlist, for those that the catalog
    /// holds.
    pub open spec fn paths_of(self, ids: Seq<u128>) -> Seq<Seq<char>> {
        ids.filter(self.known()).map_values(self.path_at())
    }

    /// The path of the first song of an identifier.
    pub open spec fn path_at(self) -> spec_fn(u128) -> Seq<char> {
        |id: u128| self.song_of(id).path
    }

    /// How the row of a song stands out: as selected, else as chosen, else
    /// not at all.
    pub open spec fn mark_of(self, id: u128) -> Mark {
        if self.selected_song_id == Some(id) {
            Mark::Selected
        } else if self.chosen_song_ids.contains(id) {
            Mark::Chosen
        } else {
            Mark::Plain
        }
    }

    /// The row of a song.
    pub open spec fn row_of(self) -> spec_fn(SongView) -> RowView {
        |song: SongView| RowView { title: song.title, mark: self.mark_of(song.id) }
    }

    /// The rows of the song list that are on the screen: those of the
    /// filtered view from the list's offset on, as many as the screen holds.
    pub open spec fn rows(self, capacity: usize) -> Seq<RowView> {
        let view = self.filtered();
        let from = if self.list_offset <= view.len() {
            self.list_offset as int
        } else {
            view.len() as int
        };
        let to = if from + capacity <= view.len() {
            from + capacity
        } else {
            view.len() as int
        };
        view.subrange(from, to).map_values(self.row_of())
    }

    /// The row of the playlist at a place: its name, marked as selected
    /// where it is the selected playlist.
    pub open spec fn playlist_row_at(self, index: int) -> RowView {
        RowView {
            title: self.playlists[index].name,
            mark: if index == self.selected_playlist_index {
                Mark::Selected
            } else {
                Mark::Plain
            },
        }
    }

    /// The rows of the list of playlists that are on the screen: those from
    /// the list's offset on, as many as the screen holds.
    pub open spec fn playlist_rows(self, capacity: usize) -> Seq<RowView> {
        let len = self.playlists.len() as int;
        let from = if self.playlist_list_offset <= len {
            self.playlist_list_offset as int
        } else {
            len
        };
        let to = if from + capacity <= len {
            from + capacity
        } else {
            len
        };
        Seq::new((to - from) as nat, |i: int| self.playlist_row_at(from + i))
    }

    /// The details of the selected song, or the words that none is
    /// selected.
    pub open spec fn selected_details(self) -> Seq<char> {
        if self.selected_song_id is Some && self.has_song(self.selected_song_id.unwrap()) {
            joined(wrapped(details(self.song_of(self.selected_song_id.unwrap())), DETAILS_WIDTH))
        } else {
            "No song selected"@
        }
    }

    /// The details of the loaded song, or the words that none plays.
    pub open spec fn playing_details(self) -> Seq<char> {
        if self.session.track() is Some && self.has_song(self.session.track().unwrap()) {
            joined(wrapped(details(self.song_of(self.session.track().unwrap())), DETAILS_WIDTH))
        } else {
            "No song playing"@
        }
    }

    /// The song whose progress is shown: the loaded one, else the selected
    /// one, else the first of the catalog.
    pub open spec fn progress_song(self) -> Option<u128> {
        if self.session.track() is Some {
            self.session.track()
        } else if self.selected_song_id is Some {
            self.selected_song_id
        } else if self.songs.len() > 0 {
            Some(self.songs[0].id)
        } else {
            None
        }
    }

    /// The progress as a text: the time played and the duration of the
    /// song whose progress is shown, or the words that none is selected.
    pub open spec fn progress_label(self, now: u64) -> Seq<char> {
        if self.progress_song() is Some && self.has_song(self.progress_song().unwrap()) {
            progress(self.shown_elapsed(now), self.song_of(self.progress_song().unwrap()).duration)
        } else {
            "No song selected"@
        }
    }

    /// The progress in thousandths of the song whose progress is shown.
    pub open spec fn progress_part(self, now: u64) -> int {
        if self.progress_song() is Some && self.has_song(self.progress_song().unwrap()) {
            thousandths(
                self.shown_elapsed(now),
                self.song_of(self.progress_song().unwrap()).duration,
            )
        } else {
            0
        }
    }

    /// The volume as a text, in hundredths.
    pub open spec fn volume_label(self) -> Seq<char> {
        decimal(self.volume as nat).push('%')
    }

    /// The time played of the loaded song as a progress display shows it:
    /// never beyond the song's duration, and zero without a song.
    pub open spec fn shown_elapsed(self, now: u64) -> u64 {
        match self.session.track() {
            Some(id) => if self.has_song(id) {
                self.session.shown_at(now, self.song_of(id).duration)
            } else {
                0
            },
            None => 0,
        }
    }

    /// What is written out for a playlist.
    pub open spec fn file_of(self, list: PlaylistView) -> PlaylistFileView {
        PlaylistFileView { name: escaped(list.name), text: manifest_of(self.paths_of(list.ids)) }
    }

    /// What is written out: for each playlist its escaped name and the
    /// manifest of its songs.
    pub open spec fn saved(self) -> Seq<PlaylistFileView> {
        self.playlists.map_values(|list: PlaylistView| self.file_of(list))
    }
}

} // verus!
