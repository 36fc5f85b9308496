//! The player: its catalog, its playlists, what is selected and what plays.

use crate::display::{progress_text, progress_thousandths, push_decimal, song_details};
use crate::manifest::{render_manifest, texts_of};
use crate::model::{
    all_songs, arranged, mark_all, outcome, plays, ActionView, AppView, Direction, Mark, RowView,
    VOLUME_MAX, VOLUME_STEP,
};
use crate::names::escape_name;
use crate::order::{lemma_filter_none, lemma_sorted_is_permutation};
use crate::playback::Playback;
use crate::playlist::{
    copy_ids, find_id, has_id, lemma_inserted_len, without_id, PlaylistStore, PlaylistView,
};
use crate::scroll::{end_offset, scroll_to};
use crate::song::{ids_of, views_of, Song, SongView};
use crate::storage::{files_of, restore, restored, PlaylistFile};
use crate::text::{lower_chars, lowercase, occurs_in};
use crate::utils::{
    catalog_of, lemma_catalog_unmarked, scan_folder_for_music, scans_of, PopupState, ScannedFile,
    SearchCriteria, SortCriteria,
};
use vstd::prelude::*;

verus! {

/// What the audio sink and the surroundings are asked to do after a command.
#[derive(Debug)]
pub enum Action {
    /// Nothing.
    Nothing,
    /// Clear the sink, load the song of this identifier and play it, as one
    /// step.
    Play(u128),
    /// Clear the sink.
    Stop,
    /// Pause the sink.
    Pause,
    /// Let the sink play on.
    Resume,
    /// Move the sink to this position of the loaded song, in milliseconds,
    /// if it can.
    Seek(u64),
    /// Set the sink's volume, in hundredths.
    SetVolume(u8),
    /// Write the playlists out; the player is about to leave.
    SavePlaylists,
    /// Remove what was written out under this name, the escaped name of a
    /// playlist.
    RemovePlaylist(String),
}

impl View for Action {
    type V = ActionView;

    open spec fn view(&self) -> ActionView {
        match self {
            Action::Nothing => ActionView::Nothing,
            Action::Play(id) => ActionView::Play(*id),
            Action::Stop => ActionView::Stop,
            Action::Pause => ActionView::Pause,
            Action::Resume => ActionView::Resume,
            Action::Seek(ms) => ActionView::Seek(*ms),
            Action::SetVolume(volume) => ActionView::SetVolume(*volume),
            Action::SavePlaylists => ActionView::SavePlaylists,
            Action::RemovePlaylist(name) => ActionView::RemovePlaylist(name@),
        }
    }
}

/// A row of the song list: the title of a song and how the row stands out.
#[derive(Debug)]
pub struct Row {
    pub title: String,
    pub mark: Mark,
}

impl View for Row {
    type V = RowView;

    open spec fn view(&self) -> RowView {
        RowView { title: self.title@, mark: self.mark }
    }
}

/// The rows as plain values.
pub open spec fn rows_of(rows: Seq<Row>) -> Seq<RowView> {
    rows.map_values(|r: Row| r@)
}

/// The state of the player.
#[derive(Debug)]
pub struct MyApp {
    songs: Vec<Song>,
    selected_song_id: Option<u128>,
    session: Playback,
    search_criteria: SearchCriteria,
    sort_criteria: SortCriteria,
    hint_popup_state: PopupState,
    playlist_input_popup: PopupState,
    selected_playlist_index: usize,
    playlist_name_input: String,
    playlists: PlaylistStore,
    search_text: String,
    volume: u8,
    previous_volume: u8,
    list_offset: usize,
    playlist_list_offset: usize,
    chosen_song_ids: Vec<u128>,
    repeat_song: bool,
}

impl View for MyApp {
    type V = AppView;

    closed spec fn view(&self) -> AppView {
        AppView {
            songs: views_of(self.songs@),
            selected_song_id: self.selected_song_id,
            session: self.session,
            search_criteria: self.search_criteria,
            sort_criteria: self.sort_criteria,
            hint_visible: self.hint_popup_state.visible,
            input_visible: self.playlist_input_popup.visible,
            selected_playlist_index: self.selected_playlist_index,
            playlist_name_input: self.playlist_name_input@,
            playlists: self.playlists@,
            search_text: self.search_text@,
            volume: self.volume,
            previous_volume: self.previous_volume,
            list_offset: self.list_offset,
            playlist_list_offset: self.playlist_list_offset,
            chosen_song_ids: self.chosen_song_ids@,
            repeat_song: self.repeat_song,
        }
    }
}

/// The place of the first song of this identifier among `songs`.
pub fn find_song(songs: &Vec<Song>, id: u128) -> (found: Option<usize>)
    ensures
        match found {
            Some(at) => ids_of(views_of(songs@)).index_of_first(id) == Some(at as int) && at
                < songs@.len(),
            None => ids_of(views_of(songs@)).index_of_first(id) is None,
        },
{
    let ghost ids = ids_of(views_of(songs@));
    proof {
        ids.index_of_first_ensures(id);
    }
    let mut i: usize = 0;
    while i < songs.len()
        invariant
            i <= songs.len(),
            ids == ids_of(views_of(songs@)),
            forall|j: int| 0 <= j < i ==> ids[j] != id,
        decreases songs.len() - i,
    {
        if songs[i].id == id {
            proof {
                ids.index_of_first_ensures(id);
                assert(ids[i as int] == id);
            }
            return Some(i);
        }
        i += 1;
    }
    None
}

/// Give each song the playing mark that the session asks for.
fn mark_songs(songs: &mut Vec<Song>, session: Playback)
    ensures
        views_of(final(songs)@) == mark_all(views_of(old(songs)@), session),
{
    let mut i: usize = 0;
    while i < songs.len()
        invariant
            i <= songs.len(),
            songs.len() == old(songs).len(),
            forall|j: int|
                0 <= j < i ==> (#[trigger] songs@[j])@ == old(songs)@[j]@.marked(
                    plays(session, old(songs)@[j].id),
                ),
            forall|j: int| i <= j < songs.len() ==> songs@[j] == old(songs)@[j],
        decreases songs.len() - i,
    {
        let playing: bool = match session {
            Playback::Playing { track_id, .. } => track_id == songs[i].id,
            _ => false,
        };
        songs[i].is_playing = playing;
        i += 1;
    }
    proof {
        assert(views_of(songs@) =~= mark_all(views_of(old(songs)@), session));
    }
}

/// Marking leaves the identifiers, and with them everything that the view
/// is made from, as they were.
pub proof fn lemma_mark_all(songs: Seq<SongView>, session: Playback)
    ensures
        mark_all(songs, session).len() == songs.len(),
        ids_of(mark_all(songs, session)) == ids_of(songs),
        forall|i: int|
            0 <= i < songs.len() ==> (#[trigger] mark_all(songs, session)[i]) == songs[i].marked(
                plays(session, songs[i].id),
            ),
{
    assert(ids_of(mark_all(songs, session)) =~= ids_of(songs));
}

/// Arranging keeps the songs: the same ones, as many.
pub proof fn lemma_arranged_same_songs(songs: Seq<SongView>, from: Seq<SongView>, by: SortCriteria)
    requires
        arranged(songs, from, by),
    ensures
        songs.len() == from.len(),
        songs.to_multiset() == from.to_multiset(),
        forall|s: SongView| songs.contains(s) <==> from.contains(s),
{
    if by != SortCriteria::Shuffle {
        lemma_sorted_is_permutation(from, by);
    }
    vstd::seq_lib::to_multiset_len(songs);
    vstd::seq_lib::to_multiset_len(from);
    assert forall|s: SongView| songs.contains(s) <==> from.contains(s) by {
        vstd::seq_lib::to_multiset_contains(songs, s);
        vstd::seq_lib::to_multiset_contains(from, s);
    }
}

impl MyApp {
    /// The invariant of the player holds.
    pub open spec fn wf(&self) -> bool {
        self@.wf()
    }

    /// A player without songs and playlists, at full volume.
    pub fn new() -> (app: MyApp)
        ensures
            app@ == AppView::initial(),
            app.wf(),
    {
        let app = MyApp {
            songs: Vec::new(),
            selected_song_id: None,
            session: Playback::Idle,
            search_criteria: SearchCriteria::Title,
            sort_criteria: SortCriteria::Title,
            hint_popup_state: PopupState { visible: false },
            playlist_input_popup: PopupState { visible: false },
            selected_playlist_index: 0,
            playlist_name_input: String::new(),
            playlists: PlaylistStore::new(),
            search_text: String::new(),
            volume: VOLUME_MAX,
            previous_volume: 0,
            list_offset: 0,
            playlist_list_offset: 0,
            chosen_song_ids: Vec::new(),
            repeat_song: false,
        };
        proof {
            assert(app@.songs =~= Seq::<SongView>::empty());
        }
        app
    }

    fn set_session(&mut self, session: Playback)
        requires
            old(self).wf(),
        ensures
            final(self)@ == old(self)@.with_session(session),
            final(self).wf(),
    {
        self.session = session;
        mark_songs(&mut self.songs, session);
        proof {
            lemma_mark_all(old(self)@.songs, session);
        }
    }

    /// The songs of the catalog, in its order.
    pub fn songs(&self) -> (songs: &Vec<Song>)
        ensures
            views_of(songs@) == self@.songs,
    {
        &self.songs
    }

    /// The first song of this identifier in the catalog.
    pub fn find_song_by_id(&self, id: u128) -> (found: Option<&Song>)
        ensures
            match found {
                Some(song) => self@.has_song(id) && song@ == self@.song_of(id),
                None => !self@.has_song(id),
            },
    {
        proof {
            ids_of(self@.songs).index_of_first_ensures(id);
        }
        match find_song(&self.songs, id) {
            Some(at) => Some(&self.songs[at]),
            None => None,
        }
    }

    fn active(&self) -> (ids: Option<&Vec<u128>>)
        ensures
            match ids {
                Some(ids) => ids@ == self@.active_ids() && self@.selected_playlist_index
                    < self@.playlists.len(),
                None => self@.selected_playlist_index >= self@.playlists.len(),
            },
    {
        match self.playlists.get(self.selected_playlist_index) {
            Some(list) => Some(&list.ids),
            None => None,
        }
    }

    fn is_shown(&self, song: &Song, needle: &Vec<char>, active: &Vec<u128>) -> (shown: bool)
        requires
            needle@ == lowercase(self@.search_text),
            active@ == self@.active_ids(),
        ensures
            shown == self@.shows(song@),
    {
        let field: &String = match self.search_criteria {
            SearchCriteria::Title => &song.title,
            SearchCriteria::Artist => &song.artist,
            SearchCriteria::Album => &song.album,
        };
        let hay = lower_chars(field.as_str());
        occurs_in(needle, &hay) && has_id(active, song.id)
    }

    /// The filtered view: the songs of the selected playlist in whose
    /// searched field the search text stands, case apart, in the order of
    /// the catalog.
    pub fn filtered_songs(&self) -> (view: Vec<Song>)
        ensures
            views_of(view@) == self@.filtered(),
    {
        let mut view: Vec<Song> = Vec::new();
        let active = match self.active() {
            Some(ids) => ids,
            None => {
                proof {
                    assert forall|i: int| 0 <= i < self@.songs.len() implies !(self@.shown())(
                        #[trigger] self@.songs[i],
                    ) by {
                        assert(self@.active_ids() =~= Seq::<u128>::empty());
                    }
                    lemma_filter_none(self@.songs, self@.shown());
                    assert(views_of(view@) =~= Seq::<SongView>::empty());
                }
                return view;
            },
        };
        let needle = lower_chars(self.search_text.as_str());
        let mut i: usize = 0;
        proof {
            assert(self@.songs.take(0) =~= Seq::<SongView>::empty());
            lemma_filter_none(self@.songs.take(0), self@.shown());
            assert(views_of(view@) =~= Seq::<SongView>::empty());
        }
        while i < self.songs.len()
            invariant
                i <= self.songs.len(),
                needle@ == lowercase(self@.search_text),
                active@ == self@.active_ids(),
                views_of(view@) == self@.songs.take(i as int).filter(self@.shown()),
            decreases self.songs.len() - i,
        {
            let song = &self.songs[i];
            proof {
                assert(self@.songs.take(i + 1) =~= self@.songs.take(i as int).push(song@));
                Seq::lemma_filter_push(self@.songs.take(i as int), song@, self@.shown());
            }
            if self.is_shown(song, &needle, active) {
                let copy = song.clone();
                proof {
                    assert(views_of(view@.push(copy)) =~= views_of(view@).push(copy@));
                }
                view.push(copy);
            }
            i += 1;
        }
        proof {
            assert(self@.songs.take(self@.songs.len() as int) =~= self@.songs);
        }
        view
    }

    /// The identifiers of the filtered view.
    pub fn visible_ids(&self) -> (ids: Vec<u128>)
        ensures
            ids@ == self@.filtered_ids(),
    {
        let view = self.filtered_songs();
        let mut ids: Vec<u128> = Vec::new();
        let mut i: usize = 0;
        while i < view.len()
            invariant
                i <= view.len(),
                ids@ == ids_of(views_of(view@)).take(i as int),
            decreases view.len() - i,
        {
            ids.push(view[i].id);
            proof {
                assert(ids@ =~= ids_of(views_of(view@)).take(i + 1));
            }
            i += 1;
        }
        proof {
            assert(ids@ =~= ids_of(views_of(view@)));
        }
        ids
    }

    fn normalize_with(&mut self, ids: &Vec<u128>)
        requires
            old(self).wf(),
            ids@ == old(self)@.filtered_ids(),
        ensures
            final(self)@ == old(self)@.normalized(),
            final(self).wf(),
    {
        let kept: bool = match self.selected_song_id {
            Some(id) => has_id(ids, id),
            None => false,
        };
        if !kept {
            if ids.len() > 0 {
                self.selected_song_id = Some(ids[0]);
                self.list_offset = 0;
            } else {
                self.selected_song_id = None;
            }
        }
    }

    /// Make the selection valid: where the selected song is not in the
    /// filtered view, select the view's first song and scroll the list to
    /// its top, or select nothing where the view is empty.
    pub fn refresh_selection(&mut self)
        requires
            old(self).wf(),
        ensures
            final(self)@ == old(self)@.normalized(),
            final(self).wf(),
    {
        let ids = self.visible_ids();
        self.normalize_with(&ids);
    }

    /// Select the song of this identifier.
    pub fn select_song(&mut self, id: u128)
        requires
            old(self).wf(),
        ensures
            final(self)@ == old(self)@.select_song(id),
            final(self).wf(),
    {
        self.selected_song_id = Some(id);
    }

    /// Play the song of this identifier from its beginning, whatever played
    /// before. The song is marked as playing and no other is. Where the
    /// catalog has no such song, nothing plays afterwards.
    pub fn start(&mut self, id: u128, now: u64) -> (action: Action)
        requires
            old(self).wf(),
        ensures
            outcome(final(self)@, action@) == old(self)@.start(id, now),
            final(self).wf(),
    {
        proof {
            ids_of(self@.songs).index_of_first_ensures(id);
        }
        match find_song(&self.songs, id) {
            Some(_) => {
                self.set_session(Playback::start(id, now));
                Action::Play(id)
            },
            None => {
                self.set_session(Playback::Idle);
                Action::Stop
            },
        }
    }

    /// Stop whatever plays; no song is marked as playing afterwards.
    pub fn stop_song(&mut self) -> (action: Action)
        requires
            old(self).wf(),
        ensures
            outcome(final(self)@, action@) == old(self)@.stop(),
            final(self).wf(),
    {
        self.set_session(Playback::Idle);
        Action::Stop
    }

    /// Pause the song that plays, keeping the time it has played, or let the
    /// paused song play on from there. Without a song nothing happens.
    pub fn toggle_play_pause(&mut self, now: u64) -> (action: Action)
        requires
            old(self).wf(),
        ensures
            outcome(final(self)@, action@) == old(self)@.toggle_play_pause(now),
            final(self).wf(),
    {
        let action = match self.session {
            Playback::Idle => Action::Nothing,
            Playback::Playing { .. } => Action::Pause,
            Playback::Paused { .. } => Action::Resume,
        };
        let next = self.session.toggle(now);
        self.set_session(next);
        action
    }

    /// Play the song of this identifier, or, where it is the song that is
    /// loaded, stop it.
    pub fn toggle_select(&mut self, id: u128, now: u64) -> (action: Action)
        requires
            old(self).wf(),
        ensures
            outcome(final(self)@, action@) == old(self)@.toggle_select(id, now),
            final(self).wf(),
    {
        if self.session.current_track() == Some(id) {
            self.stop_song()
        } else {
            self.start(id, now)
        }
    }

    /// Move the position in the loaded song by `delta` milliseconds, held
    /// within the song. The sink is asked to follow; whether it can is its
    /// own matter.
    pub fn seek(&mut self, delta: i64, now: u64) -> (action: Action)
        requires
            old(self).wf(),
        ensures
            outcome(final(self)@, action@) == old(self)@.seek(delta, now),
            final(self).wf(),
    {
        let id: u128 = match self.session.current_track() {
            Some(id) => id,
            None => {
                return Action::Nothing;
            },
        };
        proof {
            ids_of(self@.songs).index_of_first_ensures(id);
        }
        match find_song(&self.songs, id) {
            Some(at) => {
                let duration: u64 = self.songs[at].duration;
                let target: u64 = self.session.target_of_seek(delta, duration, now);
                let next = self.session.seek(delta, duration, now);
                self.set_session(next);
                Action::Seek(target)
            },
            None => self.stop_song(),
        }
    }

    fn play_from_view(&mut self, id: u128, now: u64) -> (action: Action)
        requires
            old(self).wf(),
        ensures
            outcome(final(self)@, action@) == old(self)@.play_from_view(id, now),
            final(self).wf(),
    {
        let action = self.start(id, now);
        self.selected_song_id = Some(id);
        action
    }

    /// Go to the neighbour of the loaded song in the filtered view: play it
    /// and select it. At the first song there is no previous one and at the
    /// last no next; nothing changes then.
    pub fn advance(&mut self, direction: Direction, now: u64) -> (action: Action)
        requires
            old(self).wf(),
        ensures
            outcome(final(self)@, action@) == old(self)@.advance(direction, now),
            final(self).wf(),
    {
        let current: u128 = match self.session.current_track() {
            Some(id) => id,
            None => {
                return Action::Nothing;
            },
        };
        let ids = self.visible_ids();
        proof {
            ids@.index_of_first_ensures(current);
        }
        match find_id(&ids, current) {
            Some(at) => match direction {
                Direction::Next => if at + 1 < ids.len() {
                    self.play_from_view(ids[at + 1], now)
                } else {
                    Action::Nothing
                },
                Direction::Previous => if at > 0 {
                    self.play_from_view(ids[at - 1], now)
                } else {
                    Action::Nothing
                },
            },
            None => Action::Nothing,
        }
    }

    fn finish(&mut self, id: u128, now: u64) -> (action: Action)
        requires
            old(self).wf(),
        ensures
            outcome(final(self)@, action@) == old(self)@.finish(id, now),
            final(self).wf(),
    {
        if self.repeat_song {
            return self.start(id, now);
        }
        let ids = self.visible_ids();
        if ids.len() == 0 {
            return self.stop_song();
        }
        proof {
            ids@.index_of_first_ensures(id);
        }
        let next: u128 = match find_id(&ids, id) {
            Some(at) => if at + 1 < ids.len() {
                ids[at + 1]
            } else {
                ids[0]
            },
            None => ids[0],
        };
        self.play_from_view(next, now)
    }

    /// A tick of the clock. Where the song that plays has reached its end:
    /// with repeat on it starts again; else the song that follows it in the
    /// filtered view plays and is selected, the first following the last;
    /// with an empty view nothing plays any more. A song of unknown
    /// duration, which is zero, has reached its end as soon as it plays.
    pub fn tick(&mut self, now: u64) -> (action: Action)
        requires
            old(self).wf(),
        ensures
            outcome(final(self)@, action@) == old(self)@.tick(now),
            final(self).wf(),
    {
        let id: u128 = match self.session {
            Playback::Playing { track_id, .. } => track_id,
            _ => {
                return Action::Nothing;
            },
        };
        proof {
            ids_of(self@.songs).index_of_first_ensures(id);
        }
        match find_song(&self.songs, id) {
            Some(at) => {
                let duration: u64 = self.songs[at].duration;
                if self.session.is_finished(now, duration) {
                    self.finish(id, now)
                } else {
                    Action::Nothing
                }
            },
            None => self.stop_song(),
        }
    }

    /// Move the selection one song along the filtered view, shown
    /// `capacity` rows at a time, and scroll the list so that the selected
    /// song is seen. Below the last song the selection goes to the first,
    /// above the first to the last.
    pub fn move_selection(&mut self, direction: Direction, capacity: usize)
        requires
            old(self).wf(),
        ensures
            final(self)@ == old(self)@.move_selection(direction, capacity),
            final(self).wf(),
    {
        let ids = self.visible_ids();
        let len: usize = ids.len();
        if len == 0 {
            return ;
        }
        let place: Option<usize> = match self.selected_song_id {
            Some(id) => {
                proof {
                    ids@.index_of_first_ensures(id);
                }
                find_id(&ids, id)
            },
            None => None,
        };
        match place {
            Some(at) => match direction {
                Direction::Next => if at + 1 < len {
                    self.selected_song_id = Some(ids[at + 1]);
                    self.list_offset = scroll_to(self.list_offset, at + 1, len, capacity);
                } else {
                    self.selected_song_id = Some(ids[0]);
                    self.list_offset = 0;
                },
                Direction::Previous => if at > 0 {
                    self.selected_song_id = Some(ids[at - 1]);
                    self.list_offset = scroll_to(self.list_offset, at - 1, len, capacity);
                } else {
                    self.selected_song_id = Some(ids[len - 1]);
                    self.list_offset = end_offset(len, capacity);
                },
            },
            None => {
                self.selected_song_id = Some(ids[0]);
                self.list_offset = 0;
            },
        }
    }

    fn set_playlist(&mut self, index: usize, offset: usize)
        requires
            old(self).wf(),
            index < old(self)@.playlists.len(),
        ensures
            final(self)@ == old(self)@.with_playlist(index, offset),
            final(self).wf(),
    {
        if index == self.selected_playlist_index {
            self.playlist_list_offset = offset;
        } else {
            self.selected_playlist_index = index;
            self.playlist_list_offset = offset;
            self.selected_song_id = None;
            self.refresh_selection();
        }
    }

    /// Move the playlist selection one along the playlists, shown
    /// `capacity` rows at a time, wrapping at both ends. With another
    /// playlist selected, the song selection starts anew in its view.
    pub fn move_playlist(&mut self, direction: Direction, capacity: usize)
        requires
            old(self).wf(),
        ensures
            final(self)@ == old(self)@.move_playlist(direction, capacity),
            final(self).wf(),
    {
        let len: usize = self.playlists.len();
        let at: usize = self.selected_playlist_index;
        if len == 0 {
            return ;
        }
        match direction {
            Direction::Next => if at + 1 < len {
                let offset = scroll_to(self.playlist_list_offset, at + 1, len, capacity);
                self.set_playlist(at + 1, offset);
            } else {
                self.set_playlist(0, 0);
            },
            Direction::Previous => if at > 0 {
                let offset = scroll_to(self.playlist_list_offset, at - 1, len, capacity);
                self.set_playlist(at - 1, offset);
            } else {
                self.set_playlist(len - 1, end_offset(len, capacity));
            },
        }
    }

    /// Take a typed character: into the playlist name while its popup is
    /// open, else into the search text, after which the selection is made
    /// valid for the new view.
    pub fn type_char(&mut self, c: char)
        requires
            old(self).wf(),
        ensures
            final(self)@ == old(self)@.type_char(c),
            final(self).wf(),
    {
        if self.playlist_input_popup.visible {
            self.playlist_name_input.push(c);
        } else {
            self.search_text.push(c);
            self.refresh_selection();
        }
    }

    /// Take the last character back: from the playlist name while its popup
    /// is open, else from the search text.
    pub fn erase_char(&mut self)
        requires
            old(self).wf(),
        ensures
            final(self)@ == old(self)@.erase_char(),
            final(self).wf(),
    {
        if self.playlist_input_popup.visible {
            let _ = self.playlist_name_input.pop();
        } else {
            let _ = self.search_text.pop();
            self.refresh_selection();
        }
    }

    /// Search the next field: title, artist, album, and round again.
    pub fn cycle_search(&mut self)
        requires
            old(self).wf(),
        ensures
            final(self)@ == old(self)@.cycle_search(),
            final(self).wf(),
    {
        self.search_criteria = self.search_criteria.next();
        self.refresh_selection();
    }

    /// Lower the volume by one step, not below silence.
    pub fn volume_down(&mut self) -> (action: Action)
        requires
            old(self).wf(),
        ensures
            outcome(final(self)@, action@) == old(self)@.volume_down(),
            final(self).wf(),
    {
        self.volume = if self.volume >= VOLUME_STEP {
            self.volume - VOLUME_STEP
        } else {
            0
        };
        Action::SetVolume(self.volume)
    }

    /// Raise the volume by one step, not above the full volume.
    pub fn volume_up(&mut self) -> (action: Action)
        requires
            old(self).wf(),
        ensures
            outcome(final(self)@, action@) == old(self)@.volume_up(),
            final(self).wf(),
    {
        self.volume = if self.volume <= VOLUME_MAX - VOLUME_STEP {
            self.volume + VOLUME_STEP
        } else {
            VOLUME_MAX
        };
        Action::SetVolume(self.volume)
    }

    /// Mute and keep the volume for later; or, when already silent, go back
    /// to the volume that was kept. Muting what is silent keeps nothing, so
    /// the kept volume is never lost.
    pub fn toggle_mute(&mut self) -> (action: Action)
        requires
            old(self).wf(),
        ensures
            outcome(final(self)@, action@) == old(self)@.toggle_mute(),
            final(self).wf(),
    {
        if self.volume > 0 {
            self.previous_volume = self.volume;
            self.volume = 0;
        } else {
            self.volume = self.previous_volume;
        }
        Action::SetVolume(self.volume)
    }

    /// Create a playlist of the chosen songs under the name that was typed.
    /// Where the name, the songs or both are missing, the input shows which,
    /// and nothing else changes. Else the playlist is there, the popup
    /// closes and the choice is empty again.
    pub fn create_playlist(&mut self)
        requires
            old(self).wf(),
        ensures
            final(self)@ == old(self)@.create_playlist(),
            final(self).wf(),
    {
        let name = self.playlist_name_input.clone();
        let ids = copy_ids(&self.chosen_song_ids);
        proof {
            lemma_inserted_len(self@.playlists, PlaylistView { name: name@, ids: ids@ });
        }
        match self.playlists.create(name, ids) {
            Ok(()) => {
                self.playlist_input_popup.visible = false;
                self.chosen_song_ids.clear();
                self.refresh_selection();
            },
            Err(error) => {
                self.playlist_name_input = error.message();
            },
        }
    }

    /// Delete the selected playlist and select the first. The surroundings
    /// are asked to remove what was written out for it.
    pub fn delete_playlist(&mut self) -> (action: Action)
        requires
            old(self).wf(),
        ensures
            outcome(final(self)@, action@) == old(self)@.delete_playlist(),
            final(self).wf(),
    {
        if self.selected_playlist_index < self.playlists.len() {
            let list = self.playlists.remove_at(self.selected_playlist_index);
            self.selected_playlist_index = 0;
            self.selected_song_id = None;
            self.refresh_selection();
            Action::RemovePlaylist(escape_name(list.name.as_str()))
        } else {
            Action::Nothing
        }
    }

    /// Take the selected song into the choice for the next playlist, or out
    /// of it where it is in. Without a selection nothing is chosen.
    pub fn toggle_chosen(&mut self)
        requires
            old(self).wf(),
        ensures
            final(self)@ == old(self)@.toggle_chosen(),
            final(self).wf(),
    {
        match self.selected_song_id {
            Some(id) => {
                if has_id(&self.chosen_song_ids, id) {
                    self.chosen_song_ids = without_id(&self.chosen_song_ids, id);
                } else {
                    self.chosen_song_ids.push(id);
                }
            },
            None => {},
        }
    }

    /// Close the popups and empty the playlist name.
    pub fn escape(&mut self)
        requires
            old(self).wf(),
        ensures
            final(self)@ == old(self)@.escape(),
            final(self).wf(),
    {
        self.playlist_input_popup.visible = false;
        self.playlist_name_input = String::new();
        self.hint_popup_state.visible = false;
    }

    /// Show the hints, or hide them where they are shown.
    pub fn toggle_popup(&mut self)
        requires
            old(self).wf(),
        ensures
            final(self)@ == (AppView { hint_visible: !old(self)@.hint_visible, ..old(self)@ }),
            final(self).wf(),
    {
        self.hint_popup_state.toggle();
    }

    /// Open the popup that takes the name of a new playlist.
    pub fn open_playlist_input(&mut self)
        requires
            old(self).wf(),
        ensures
            final(self)@ == (AppView { input_visible: true, ..old(self)@ }),
            final(self).wf(),
    {
        self.playlist_input_popup.visible = true;
    }

    /// Turn the repeat of the playing song on, or off where it is on.
    pub fn toggle_repeat(&mut self)
        requires
            old(self).wf(),
        ensures
            final(self)@ == (AppView { repeat_song: !old(self)@.repeat_song, ..old(self)@ }),
            final(self).wf(),
    {
        self.repeat_song = !self.repeat_song;
    }

    /// Order the catalog by this criterion from now on, and put it in that
    /// order: sorted by title, artist or duration, or shuffled anew.
    pub fn set_sort_criteria(&mut self, criteria: SortCriteria)
        requires
            old(self).wf(),
        ensures
            arranged(final(self)@.songs, old(self)@.songs, criteria),
            final(self)@ == (AppView {
                songs: final(self)@.songs,
                sort_criteria: criteria,
                ..old(self)@
            }),
            final(self).wf(),
    {
        self.sort_criteria = criteria;
        crate::utils::sort_songs(&mut self.songs, &criteria);
        proof {
            let before = old(self)@.songs;
            let after = self@.songs;
            lemma_arranged_same_songs(after, before, criteria);
            assert forall|i: int| 0 <= i < after.len() implies (#[trigger] after[i]).wf()
                && after[i].is_playing == plays(self@.session, after[i].id) by {
                assert(after.contains(after[i]));
                let j = choose|j: int| 0 <= j < before.len() && before[j] == after[i];
                assert(before[j].wf());
            }
        }
    }

    /// Put the catalog in the order of the criterion that is set.
    pub fn sort_songs(&mut self)
        requires
            old(self).wf(),
        ensures
            arranged(final(self)@.songs, old(self)@.songs, old(self)@.sort_criteria),
            final(self)@ == (AppView { songs: final(self)@.songs, ..old(self)@ }),
            final(self).wf(),
    {
        let criteria = self.sort_criteria;
        self.set_sort_criteria(criteria);
    }

    /// Take the songs of a scan as the catalog, in the order of the
    /// criterion that is set. The playlist "All Songs" then holds every song
    /// of the catalog. A session whose song is not in the new catalog ends,
    /// and the sink is asked to stop; the selection is made valid.
    pub fn load_songs(&mut self, files: &Vec<ScannedFile>) -> (action: Action)
        requires
            old(self).wf(),
        ensures
            arranged(
                mark_all(final(self)@.songs, Playback::Idle),
                catalog_of(scans_of(files@)),
                old(self)@.sort_criteria,
            ),
            final(self)@ == old(self)@.with_catalog(mark_all(final(self)@.songs, Playback::Idle)),
            action@ == if final(self)@.session == old(self)@.session {
                ActionView::Nothing
            } else {
                ActionView::Stop
            },
            final(self)@.songs.len() > 0,
            final(self).wf(),
    {
        let mut songs = scan_folder_for_music(files);
        let ghost catalog = views_of(songs@);
        crate::utils::sort_songs(&mut songs, &self.sort_criteria);
        let ghost sorted = views_of(songs@);
        proof {
            lemma_arranged_same_songs(sorted, catalog, self@.sort_criteria);
            assert forall|i: int| 0 <= i < sorted.len() implies (#[trigger] sorted[i]).wf()
                && !sorted[i].is_playing by {
                assert(sorted.contains(sorted[i]));
                let j = choose|j: int| 0 <= j < catalog.len() && catalog[j] == sorted[i];
                assert(songs@.len() == sorted.len());
                lemma_catalog_unmarked(scans_of(files@), j);
            }
        }
        let mut ids: Vec<u128> = Vec::new();
        let mut i: usize = 0;
        while i < songs.len()
            invariant
                i <= songs.len(),
                ids@ == ids_of(views_of(songs@)).take(i as int),
            decreases songs.len() - i,
        {
            ids.push(songs[i].id);
            proof {
                assert(ids@ =~= ids_of(views_of(songs@)).take(i + 1));
            }
            i += 1;
        }
        proof {
            assert(ids@ =~= ids_of(sorted));
            if self@.session.track() is Some {
                ids_of(sorted).index_of_first_ensures(self@.session.track().unwrap());
            }
            lemma_inserted_len(self@.playlists, PlaylistView { name: all_songs(), ids: ids@ });
        }
        let kept: bool = match self.session.current_track() {
            Some(id) => find_song(&songs, id).is_some(),
            None => false,
        };
        let session = if kept {
            self.session
        } else {
            Playback::Idle
        };
        let action = if self.session == session {
            Action::Nothing
        } else {
            Action::Stop
        };
        mark_songs(&mut songs, session);
        proof {
            lemma_mark_all(sorted, session);
            assert(mark_all(mark_all(sorted, session), Playback::Idle) =~= sorted);
        }
        self.playlists.insert("All Songs".to_owned(), ids);
        self.songs = songs;
        self.session = session;
        self.refresh_selection();
        action
    }

    fn paths_for(&self, ids: &Vec<u128>) -> (paths: Vec<String>)
        ensures
            texts_of(paths@) == self@.paths_of(ids@),
    {
        let mut paths: Vec<String> = Vec::new();
        let mut i: usize = 0;
        proof {
            assert(ids@.take(0) =~= Seq::<u128>::empty());
            lemma_filter_none(ids@.take(0), self@.known());
            assert(texts_of(paths@) =~= self@.paths_of(ids@.take(0)));
        }
        while i < ids.len()
            invariant
                i <= ids.len(),
                texts_of(paths@) == self@.paths_of(ids@.take(i as int)),
            decreases ids.len() - i,
        {
            let id: u128 = ids[i];
            proof {
                assert(ids@.take(i + 1) =~= ids@.take(i as int).push(id));
                Seq::lemma_filter_push(ids@.take(i as int), id, self@.known());
                ids_of(self@.songs).index_of_first_ensures(id);
            }
            match find_song(&self.songs, id) {
                Some(at) => {
                    let path = self.songs[at].path.clone();
                    proof {
                        let kept = ids@.take(i as int).filter(self@.known());
                        assert(path@ == (self@.path_at())(id));
                        assert(kept.push(id).map_values(self@.path_at()) =~= kept.map_values(
                            self@.path_at(),
                        ).push(path@));
                        assert(texts_of(paths@.push(path)) =~= texts_of(paths@).push(path@));
                    }
                    paths.push(path);
                },
                None => {},
            }
            i += 1;
        }
        proof {
            assert(ids@.take(ids@.len() as int) =~= ids@);
        }
        paths
    }

    /// What is to be written out: for each playlist its escaped name and a
    /// manifest with the path of each of its songs that the catalog holds.
    pub fn save_playlist(&self) -> (files: Vec<PlaylistFile>)
        ensures
            files_of(files@) == self@.saved(),
    {
        let lists = self.playlists.lists();
        let mut files: Vec<PlaylistFile> = Vec::new();
        let mut i: usize = 0;
        while i < lists.len()
            invariant
                i <= lists.len(),
                crate::playlist::lists_of(lists@) == self@.playlists,
                files_of(files@) == self@.saved().take(i as int),
            decreases lists.len() - i,
        {
            let list = &lists[i];
            let paths = self.paths_for(&list.ids);
            let file = PlaylistFile {
                name: escape_name(list.name.as_str()),
                text: render_manifest(&paths),
            };
            proof {
                assert(crate::playlist::lists_of(lists@)[i as int] == list@);
                assert(self@.saved().len() == lists@.len());
                assert(self@.saved()[i as int] == self@.file_of(list@));
                assert(file@ == self@.file_of(list@));
                assert(files_of(files@.push(file)) =~= files_of(files@).push(file@));
                assert(self@.saved().take(i + 1) =~= self@.saved().take(i as int).push(file@));
            }
            files.push(file);
            i += 1;
        }
        proof {
            assert(self@.saved().take(lists@.len() as int) =~= self@.saved());
        }
        files
    }

    /// Take the playlists that written manifests hold in place of the own
    /// ones. The selected playlist stays where it still exists, else the
    /// first is selected; the selection is made valid.
    pub fn load_playlists(&mut self, files: &Vec<PlaylistFile>)
        requires
            old(self).wf(),
        ensures
            final(self)@ == old(self)@.with_playlists(restored(files_of(files@))),
            final(self).wf(),
    {
        self.playlists = restore(files);
        if self.selected_playlist_index >= self.playlists.len() {
            self.selected_playlist_index = 0;
        }
        self.refresh_selection();
    }

    /// Whether the clock has to tick: it does while a song plays, and stops
    /// when the session is paused or idle.
    pub fn needs_ticks(&self) -> (ticking: bool)
        ensures
            ticking == (self@.session is Playing),
    {
        self.session.is_playing()
    }

    /// The time played of the loaded song as a progress display shows it:
    /// never beyond the song's duration, and zero without a song.
    pub fn elapsed(&self, now: u64) -> (ms: u64)
        ensures
            ms == self@.shown_elapsed(now),
    {
        match self.session.current_track() {
            Some(id) => {
                proof {
                    ids_of(self@.songs).index_of_first_ensures(id);
                }
                match find_song(&self.songs, id) {
                    Some(at) => self.session.shown(now, self.songs[at].duration),
                    None => 0,
                }
            },
            None => 0,
        }
    }

    /// The selected song, if any.
    pub fn selected_song_id(&self) -> (id: Option<u128>)
        ensures
            id == self@.selected_song_id,
    {
        self.selected_song_id
    }

    /// The playback session.
    pub fn session(&self) -> (session: Playback)
        ensures
            session == self@.session,
    {
        self.session
    }

    /// The field that is searched.
    pub fn search_criteria(&self) -> (criteria: SearchCriteria)
        ensures
            criteria == self@.search_criteria,
    {
        self.search_criteria
    }

    /// The criterion by which the catalog is ordered.
    pub fn sort_criteria(&self) -> (criteria: SortCriteria)
        ensures
            criteria == self@.sort_criteria,
    {
        self.sort_criteria
    }

    /// Whether the hints are shown.
    pub fn hint_popup_state(&self) -> (popup: PopupState)
        ensures
            popup.visible == self@.hint_visible,
    {
        self.hint_popup_state
    }

    /// Whether the popup for a playlist name is open.
    pub fn playlist_input_popup(&self) -> (popup: PopupState)
        ensures
            popup.visible == self@.input_visible,
    {
        self.playlist_input_popup
    }

    /// The place of the selected playlist in the order of the names.
    pub fn selected_playlist_index(&self) -> (index: usize)
        ensures
            index == self@.selected_playlist_index,
    {
        self.selected_playlist_index
    }

    /// What was typed as the name of a new playlist, or the words that say
    /// what a refused playlist was missing.
    pub fn playlist_name_input(&self) -> (text: &String)
        ensures
            text@ == self@.playlist_name_input,
    {
        &self.playlist_name_input
    }

    /// The playlists, in the order of their names.
    pub fn playlists(&self) -> (store: &PlaylistStore)
        ensures
            store@ == self@.playlists,
    {
        &self.playlists
    }

    /// The search text.
    pub fn search_text(&self) -> (text: &String)
        ensures
            text@ == self@.search_text,
    {
        &self.search_text
    }

    /// The volume, in hundredths.
    pub fn volume(&self) -> (volume: u8)
        ensures
            volume == self@.volume,
    {
        self.volume
    }

    /// The volume that the last mute kept, in hundredths.
    pub fn previous_volume(&self) -> (volume: u8)
        ensures
            volume == self@.previous_volume,
    {
        self.previous_volume
    }

    /// The first row of the song list that is shown.
    pub fn list_offset(&self) -> (offset: usize)
        ensures
            offset == self@.list_offset,
    {
        self.list_offset
    }

    /// The first row of the list of playlists that is shown.
    pub fn playlist_list_offset(&self) -> (offset: usize)
        ensures
            offset == self@.playlist_list_offset,
    {
        self.playlist_list_offset
    }

    /// The songs chosen for the next playlist, in the order of the choice.
    pub fn chosen_song_ids(&self) -> (ids: &Vec<u128>)
        ensures
            ids@ == self@.chosen_song_ids,
    {
        &self.chosen_song_ids
    }

    /// Whether the playing song starts again at its end.
    pub fn repeat_song(&self) -> (repeat: bool)
        ensures
            repeat == self@.repeat_song,
    {
        self.repeat_song
    }

    /// The rows of the song list that are on the screen, `capacity` at
    /// most, from the list's offset on. The selected song stands out as
    /// selected, a song chosen for the next playlist as chosen.
    pub fn song_rows(&self, capacity: usize) -> (rows: Vec<Row>)
        ensures
            rows_of(rows@) == self@.rows(capacity),
    {
        let view = self.filtered_songs();
        let from: usize = if self.list_offset <= view.len() {
            self.list_offset
        } else {
            view.len()
        };
        let to: usize = if capacity <= view.len() - from {
            from + capacity
        } else {
            view.len()
        };
        let mut rows: Vec<Row> = Vec::new();
        let mut i: usize = from;
        let ghost shown = self@.filtered().subrange(from as int, to as int);
        while i < to
            invariant
                from <= i <= to <= view.len(),
                views_of(view@) == self@.filtered(),
                shown == self@.filtered().subrange(from as int, to as int),
                rows_of(rows@) == shown.take(i - from).map_values(self@.row_of()),
            decreases to - i,
        {
            let song = &view[i];
            let mark = if self.selected_song_id == Some(song.id) {
                Mark::Selected
            } else if has_id(&self.chosen_song_ids, song.id) {
                Mark::Chosen
            } else {
                Mark::Plain
            };
            let row = Row { title: song.title.clone(), mark };
            proof {
                assert(views_of(view@)[i as int] == song@);
                assert(shown[i - from] == song@);
                assert(row@ == (self@.row_of())(song@));
                assert(rows_of(rows@.push(row)) =~= rows_of(rows@).push(row@));
                assert(shown.take(i + 1 - from) =~= shown.take(i - from).push(song@));
                assert(shown.take(i + 1 - from).map_values(self@.row_of()) =~= shown.take(
                    i - from,
                ).map_values(self@.row_of()).push(row@));
            }
            rows.push(row);
            i += 1;
        }
        proof {
            assert(shown.take(to - from) =~= shown);
        }
        rows
    }

    /// The rows of the list of playlists that are on the screen, `capacity`
    /// at most, from the list's offset on. The selected playlist stands out
    /// as selected.
    pub fn playlist_rows(&self, capacity: usize) -> (rows: Vec<Row>)
        ensures
            rows_of(rows@) == self@.playlist_rows(capacity),
    {
        let lists = self.playlists.lists();
        let len: usize = lists.len();
        let from: usize = if self.playlist_list_offset <= len {
            self.playlist_list_offset
        } else {
            len
        };
        let to: usize = if capacity <= len - from {
            from + capacity
        } else {
            len
        };
        let mut rows: Vec<Row> = Vec::new();
        let mut i: usize = from;
        while i < to
            invariant
                from <= i <= to <= len,
                len == lists@.len(),
                crate::playlist::lists_of(lists@) == self@.playlists,
                rows@.len() == i - from,
                forall|k: int|
                    0 <= k < i - from ==> (#[trigger] rows@[k])@ == self@.playlist_row_at(from + k),
            decreases to - i,
        {
            let list = &lists[i];
            let mark = if i == self.selected_playlist_index {
                Mark::Selected
            } else {
                Mark::Plain
            };
            proof {
                assert(crate::playlist::lists_of(lists@)[i as int] == list@);
            }
            rows.push(Row { title: list.name.clone(), mark });
            i += 1;
        }
        proof {
            assert(self@.playlists.len() == len);
            assert(rows_of(rows@) =~= self@.playlist_rows(capacity));
        }
        rows
    }

    /// The details of the selected song, wrapped for the side of the
    /// screen, or the words that none is selected.
    pub fn selected_details(&self) -> (text: String)
        ensures
            text@ == self@.selected_details(),
    {
        let found = match self.selected_song_id {
            Some(id) => self.find_song_by_id(id),
            None => None,
        };
        match found {
            Some(song) => song_details(song),
            None => "No song selected".to_owned(),
        }
    }

    /// The details of the loaded song, wrapped for the side of the screen,
    /// or the words that none plays.
    pub fn playing_details(&self) -> (text: String)
        ensures
            text@ == self@.playing_details(),
    {
        let found = match self.session.current_track() {
            Some(id) => self.find_song_by_id(id),
            None => None,
        };
        match found {
            Some(song) => song_details(song),
            None => "No song playing".to_owned(),
        }
    }

    fn progress_song(&self) -> (found: Option<&Song>)
        ensures
            match found {
                Some(song) => self@.progress_song() is Some && self@.has_song(
                    self@.progress_song().unwrap(),
                ) && song@ == self@.song_of(self@.progress_song().unwrap()),
                None => !(self@.progress_song() is Some && self@.has_song(
                    self@.progress_song().unwrap(),
                )),
            },
    {
        let id: Option<u128> = match self.session.current_track() {
            Some(id) => Some(id),
            None => match self.selected_song_id {
                Some(id) => Some(id),
                None => if self.songs.len() > 0 {
                    Some(self.songs[0].id)
                } else {
                    None
                },
            },
        };
        match id {
            Some(id) => self.find_song_by_id(id),
            None => None,
        }
    }

    /// The progress as a text, `mm:ss/mm:ss`: the time played, held within
    /// the song, and the duration of the song whose progress is shown, the
    /// loaded one before the selected one before the first of the catalog.
    pub fn progress_label(&self, now: u64) -> (text: String)
        ensures
            text@ == self@.progress_label(now),
    {
        match self.progress_song() {
            Some(song) => progress_text(self.elapsed(now), song.duration),
            None => "No song selected".to_owned(),
        }
    }

    /// The progress in thousandths of the song whose progress is shown.
    pub fn progress_part(&self, now: u64) -> (part: u16)
        ensures
            part == self@.progress_part(now),
            part < 1000,
    {
        match self.progress_song() {
            Some(song) => progress_thousandths(self.elapsed(now), song.duration),
            None => 0,
        }
    }

    /// The volume as a text, in hundredths: `60%`.
    pub fn volume_label(&self) -> (text: String)
        ensures
            text@ == self@.volume_label(),
    {
        let mut text = String::new();
        push_decimal(&mut text, self.volume as u64);
        text.push('%');
        proof {
            assert(text@ =~= self@.volume_label());
        }
        text
    }
}

} // verus!
