//! What each key of the user means, and what it does to the player.

use crate::app::{Action, MyApp};
use crate::model::{arranged, outcome, ActionView, AppView, Direction, Outcome};
use crate::playlist::has_id;
use crate::song::SongView;
use crate::text::{last_upper, upper};
use vstd::prelude::*;

verus! {

/// How far one seek goes, in milliseconds.
pub const SEEK_STEP: i64 = 5000;

/// The key of a key event, as far as the player gives it a meaning.
#[derive(Clone, Copy, Debug, PartialEq, Eq, Structural)]
pub enum KeyCode {
    /// A character key.
    Char(char),
    Up,
    Down,
    Left,
    Right,
    Backspace,
    Enter,
    Esc,
    /// A function key, by its number.
    F(u8),
    /// Any other key.
    Other,
}

/// The modifier keys that are held down with a key.
#[derive(Clone, Copy, Debug, PartialEq, Eq, Structural)]
pub enum KeyModifiers {
    /// No modifier is held.
    Unmodified,
    /// Control alone.
    Control,
    /// Shift alone.
    Shift,
    /// Any other modifier, or more than one.
    Other,
}

/// A key event of the terminal as plain values.
#[derive(Clone, Copy, Debug, PartialEq, Eq, Structural)]
pub struct KeyEvent {
    pub code: KeyCode,
    pub modifiers: KeyModifiers,
    /// The key went down; it was neither released nor is it a repeat.
    pub pressed: bool,
    /// The event carries no state of the keyboard such as caps lock.
    pub plain: bool,
}

/// A command of the user.
#[derive(Clone, Copy, Debug, PartialEq, Eq, Structural)]
pub enum Command {
    /// Leave the player.
    Quit,
    /// Select the next song of the view.
    SelectNext,
    /// Select the previous song of the view.
    SelectPrevious,
    /// Select the next playlist.
    PlaylistNext,
    /// Select the previous playlist.
    PlaylistPrevious,
    /// Play the selected song, or stop it where it is the loaded one.
    ToggleSelected,
    /// Pause or resume.
    TogglePause,
    /// Open the popup for the name of a new playlist.
    OpenPlaylistInput,
    /// Play the previous song of the view.
    PlayPrevious,
    /// Play the next song of the view.
    PlayNext,
    /// Lower the volume.
    VolumeDown,
    /// Raise the volume.
    VolumeUp,
    /// Mute or unmute.
    ToggleMute,
    /// A character was typed.
    Type(char),
    /// The last character is taken back.
    Erase,
    /// Search the next field.
    CycleSearch,
    /// Order the catalog by the next criterion.
    CycleSort,
    /// Seek forward by one step.
    SeekForward,
    /// Seek backward by one step.
    SeekBackward,
    /// Show or hide the hints.
    ToggleHints,
    /// Close the popups.
    Escape,
    /// Create the playlist that was typed and chosen.
    Confirm,
    /// Take the selected song into the choice for a playlist, or out of it.
    ToggleChosen,
    /// Delete the selected playlist.
    DeletePlaylist,
    /// Turn the repeat of the playing song on or off.
    ToggleRepeat,
    /// A key that means nothing.
    Ignored,
}

/// The command that a key with control held stands for.
pub open spec fn control_command(code: KeyCode) -> Command {
    match code {
        KeyCode::Char(c) => if c == 'q' {
            Command::Quit
        } else if c == 'j' {
            Command::PlaylistNext
        } else if c == 'k' {
            Command::PlaylistPrevious
        } else if c == ' ' {
            Command::ToggleSelected
        } else if c == 'p' {
            Command::TogglePause
        } else if c == 'c' {
            Command::OpenPlaylistInput
        } else if c == 'h' {
            Command::PlayPrevious
        } else if c == 'l' {
            Command::PlayNext
        } else if c == 'm' {
            Command::ToggleMute
        } else if c == 's' {
            Command::CycleSearch
        } else if c == 't' {
            Command::CycleSort
        } else if c == 'a' {
            Command::ToggleChosen
        } else if c == 'x' {
            Command::DeletePlaylist
        } else if c == 'r' {
            Command::ToggleRepeat
        } else {
            Command::Ignored
        },
        KeyCode::Left => Command::VolumeDown,
        KeyCode::Right => Command::VolumeUp,
        _ => Command::Ignored,
    }
}

/// The command that a key without a modifier stands for.
pub open spec fn plain_command(code: KeyCode) -> Command {
    match code {
        KeyCode::Down => Command::SelectNext,
        KeyCode::Up => Command::SelectPrevious,
        KeyCode::Char(c) => Command::Type(c),
        KeyCode::Backspace => Command::Erase,
        KeyCode::Right => Command::SeekForward,
        KeyCode::Left => Command::SeekBackward,
        KeyCode::F(n) => if n == 1 {
            Command::ToggleHints
        } else {
            Command::Ignored
        },
        KeyCode::Esc => Command::Escape,
        KeyCode::Enter => Command::Confirm,
        KeyCode::Other => Command::Ignored,
    }
}

/// The command that a key event stands for. Only a key that went down
/// counts, and only with exactly the modifier that the command asks for. A
/// character typed with shift is taken in upper case.
pub open spec fn command_of(key: KeyEvent) -> Command {
    if !key.pressed || !key.plain {
        Command::Ignored
    } else {
        match key.modifiers {
            KeyModifiers::Control => control_command(key.code),
            KeyModifiers::Unmodified => plain_command(key.code),
            KeyModifiers::Shift => match key.code {
                KeyCode::Char(c) => Command::Type(upper(c)),
                _ => Command::Ignored,
            },
            KeyModifiers::Other => Command::Ignored,
        }
    }
}

/// What a command makes of the player at the instant `now`, with
/// `song_rows` rows of songs and `playlist_rows` rows of playlists on the
/// screen. `arrangement` is the catalog after the command; it matters for
/// `CycleSort` alone, whose order may be left to chance.
pub open spec fn handled(
    app: AppView,
    key: Command,
    now: u64,
    song_rows: usize,
    playlist_rows: usize,
    arrangement: Seq<SongView>,
) -> Outcome {
    match key {
        Command::Quit => outcome(app, ActionView::SavePlaylists),
        Command::SelectNext => outcome(
            app.move_selection(Direction::Next, song_rows),
            ActionView::Nothing,
        ),
        Command::SelectPrevious => outcome(
            app.move_selection(Direction::Previous, song_rows),
            ActionView::Nothing,
        ),
        Command::PlaylistNext => outcome(
            app.move_playlist(Direction::Next, playlist_rows),
            ActionView::Nothing,
        ),
        Command::PlaylistPrevious => outcome(
            app.move_playlist(Direction::Previous, playlist_rows),
            ActionView::Nothing,
        ),
        Command::ToggleSelected => if app.selected_song_id is Some
            && app.filtered_ids().contains(app.selected_song_id.unwrap()) {
            app.toggle_select(app.selected_song_id.unwrap(), now)
        } else {
            outcome(app, ActionView::Nothing)
        },
        Command::TogglePause => app.toggle_play_pause(now),
        Command::OpenPlaylistInput => outcome(
            AppView { input_visible: true, ..app },
            ActionView::Nothing,
        ),
        Command::PlayPrevious => app.advance(Direction::Previous, now),
        Command::PlayNext => app.advance(Direction::Next, now),
        Command::VolumeDown => app.volume_down(),
        Command::VolumeUp => app.volume_up(),
        Command::ToggleMute => app.toggle_mute(),
        Command::Type(c) => outcome(app.type_char(c), ActionView::Nothing),
        Command::Erase => outcome(app.erase_char(), ActionView::Nothing),
        Command::CycleSearch => outcome(app.cycle_search(), ActionView::Nothing),
        Command::CycleSort => outcome(
            AppView { songs: arrangement, sort_criteria: app.sort_criteria.successor(), ..app },
            ActionView::Nothing,
        ),
        Command::SeekForward => app.seek(SEEK_STEP, now),
        Command::SeekBackward => app.seek((-SEEK_STEP) as i64, now),
        Command::ToggleHints => outcome(
            AppView { hint_visible: !app.hint_visible, ..app },
            ActionView::Nothing,
        ),
        Command::Escape => outcome(app.escape(), ActionView::Nothing),
        Command::Confirm => outcome(app.create_playlist(), ActionView::Nothing),
        Command::ToggleChosen => outcome(app.toggle_chosen(), ActionView::Nothing),
        Command::DeletePlaylist => app.delete_playlist(),
        Command::ToggleRepeat => outcome(
            AppView { repeat_song: !app.repeat_song, ..app },
            ActionView::Nothing,
        ),
        Command::Ignored => outcome(app, ActionView::Nothing),
    }
}

/// The command that a key event stands for.
pub fn decode(key: KeyEvent) -> (command: Command)
    ensures
        command == command_of(key),
{
    if !key.pressed || !key.plain {
        return Command::Ignored;
    }
    match key.modifiers {
        KeyModifiers::Control => match key.code {
            KeyCode::Char(c) => if c == 'q' {
                Command::Quit
            } else if c == 'j' {
                Command::PlaylistNext
            } else if c == 'k' {
                Command::PlaylistPrevious
            } else if c == ' ' {
                Command::ToggleSelected
            } else if c == 'p' {
                Command::TogglePause
            } else if c == 'c' {
                Command::OpenPlaylistInput
            } else if c == 'h' {
                Command::PlayPrevious
            } else if c == 'l' {
                Command::PlayNext
            } else if c == 'm' {
                Command::ToggleMute
            } else if c == 's' {
                Command::CycleSearch
            } else if c == 't' {
                Command::CycleSort
            } else if c == 'a' {
                Command::ToggleChosen
            } else if c == 'x' {
                Command::DeletePlaylist
            } else if c == 'r' {
                Command::ToggleRepeat
            } else {
                Command::Ignored
            },
            KeyCode::Left => Command::VolumeDown,
            KeyCode::Right => Command::VolumeUp,
            _ => Command::Ignored,
        },
        KeyModifiers::Unmodified => match key.code {
            KeyCode::Down => Command::SelectNext,
            KeyCode::Up => Command::SelectPrevious,
            KeyCode::Char(c) => Command::Type(c),
            KeyCode::Backspace => Command::Erase,
            KeyCode::Right => Command::SeekForward,
            KeyCode::Left => Command::SeekBackward,
            KeyCode::F(n) => if n == 1 {
                Command::ToggleHints
            } else {
                Command::Ignored
            },
            KeyCode::Esc => Command::Escape,
            KeyCode::Enter => Command::Confirm,
            KeyCode::Other => Command::Ignored,
        },
        KeyModifiers::Shift => match key.code {
            KeyCode::Char(c) => Command::Type(last_upper(c)),
            _ => Command::Ignored,
        },
        KeyModifiers::Other => Command::Ignored,
    }
}

/// Carry out a key event of the user at the instant `now`: the command that
/// the key stands for is carried out as `handle_command` does it.
pub fn handle_key_event(
    key: KeyEvent,
    myapp: &mut MyApp,
    now: u64,
    visible_song_count: usize,
    visible_playlist_count: usize,
    exit_flag: &mut bool,
) -> (action: Action)
    requires
        old(myapp).wf(),
    ensures
        outcome(final(myapp)@, action@) == handled(
            old(myapp)@,
            command_of(key),
            now,
            visible_song_count,
            visible_playlist_count,
            final(myapp)@.songs,
        ),
        command_of(key) == Command::CycleSort ==> arranged(
            final(myapp)@.songs,
            old(myapp)@.songs,
            old(myapp)@.sort_criteria.successor(),
        ),
        *final(exit_flag) == (*old(exit_flag) || command_of(key) == Command::Quit),
        final(myapp).wf(),
{
    handle_command(
        decode(key),
        myapp,
        now,
        visible_song_count,
        visible_playlist_count,
        exit_flag,
    )
}

/// Carry out a command of the user at the instant `now`. The player changes
/// as `handled` says, and what the audio sink and the surroundings have to
/// do is handed back. `Quit` raises the exit flag; no other command touches
/// it.
pub fn handle_command(
    key: Command,
    myapp: &mut MyApp,
    now: u64,
    visible_song_count: usize,
    visible_playlist_count: usize,
    exit_flag: &mut bool,
) -> (action: Action)
    requires
        old(myapp).wf(),
    ensures
        outcome(final(myapp)@, action@) == handled(
            old(myapp)@,
            key,
            now,
            visible_song_count,
            visible_playlist_count,
            final(myapp)@.songs,
        ),
        key == Command::CycleSort ==> arranged(
            final(myapp)@.songs,
            old(myapp)@.songs,
            old(myapp)@.sort_criteria.successor(),
        ),
        *final(exit_flag) == (*old(exit_flag) || key == Command::Quit),
        final(myapp).wf(),
{
    match key {
        Command::Quit => {
            *exit_flag = true;
            Action::SavePlaylists
        },
        Command::SelectNext => {
            myapp.move_selection(Direction::Next, visible_song_count);
            Action::Nothing
        },
        Command::SelectPrevious => {
            myapp.move_selection(Direction::Previous, visible_song_count);
            Action::Nothing
        },
        Command::PlaylistNext => {
            myapp.move_playlist(Direction::Next, visible_playlist_count);
            Action::Nothing
        },
        Command::PlaylistPrevious => {
            myapp.move_playlist(Direction::Previous, visible_playlist_count);
            Action::Nothing
        },
        Command::ToggleSelected => {
            match myapp.selected_song_id() {
                Some(id) => {
                    let ids = myapp.visible_ids();
                    if has_id(&ids, id) {
                        myapp.toggle_select(id, now)
                    } else {
                        Action::Nothing
                    }
                },
                None => Action::Nothing,
            }
        },
        Command::TogglePause => myapp.toggle_play_pause(now),
        Command::OpenPlaylistInput => {
            myapp.open_playlist_input();
            Action::Nothing
        },
        Command::PlayPrevious => myapp.advance(Direction::Previous, now),
        Command::PlayNext => myapp.advance(Direction::Next, now),
        Command::VolumeDown => myapp.volume_down(),
        Command::VolumeUp => myapp.volume_up(),
        Command::ToggleMute => myapp.toggle_mute(),
        Command::Type(c) => {
            myapp.type_char(c);
            Action::Nothing
        },
        Command::Erase => {
            myapp.erase_char();
            Action::Nothing
        },
        Command::CycleSearch => {
            myapp.cycle_search();
            Action::Nothing
        },
        Command::CycleSort => {
            let criteria = myapp.sort_criteria().next();
            myapp.set_sort_criteria(criteria);
            Action::Nothing
        },
        Command::SeekForward => myapp.seek(SEEK_STEP, now),
        Command::SeekBackward => myapp.seek(-SEEK_STEP, now),
        Command::ToggleHints => {
            myapp.toggle_popup();
            Action::Nothing
        },
        Command::Escape => {
            myapp.escape();
            Action::Nothing
        },
        Command::Confirm => {
            myapp.create_playlist();
            Action::Nothing
        },
        Command::ToggleChosen => {
            myapp.toggle_chosen();
            Action::Nothing
        },
        Command::DeletePlaylist => myapp.delete_playlist(),
        Command::ToggleRepeat => {
            myapp.toggle_repeat();
            Action::Nothing
        },
        Command::Ignored => Action::Nothing,
    }
}

} // verus!
