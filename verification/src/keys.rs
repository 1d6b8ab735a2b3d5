//! The key map of the terminal interface: which command a key press means
//! in each mode.

use vstd::prelude::*;

use crate::app::{App, AppView, ListFocus, Mode};

verus! {

/// A key press, as far as the key map tells keys apart.
#[derive(Debug, Clone, Copy, PartialEq, Eq, Structural)]
pub enum Key {
    Char(char),
    Esc,
    Enter,
    Backspace,
    Delete,
    Tab,
    BackTab,
    Up,
    Down,
    Left,
    Right,
    Other,
}

/// What a key press asks the player to do.
#[derive(Debug, Clone, Copy, PartialEq, Eq, Structural)]
pub enum Command {
    Nothing,
    Quit,
    ShowHelp,
    BackToBrowse,
    QueryBackspace,
    QueryType(char),
    CancelSearch,
    SubmitSearch,
    CancelOpenFile,
    SubmitOpenFile,
    CancelYtPlaylistInput,
    SubmitYtPlaylist,
    CancelSavePlaylist,
    SubmitSavePlaylist,
    EnterSearch,
    EnterOpenFile,
    ToggleNerd,
    ToggleCaptions,
    YankUrl,
    EnterYtPlaylistInput,
    OpenParams,
    SwitchFocus,
    SwitchFocusBack,
    AddToPlaylist,
    RemoveLibraryEntry,
    RemoveFromPlaylist,
    CycleLoop,
    ToggleShuffle,
    EnterSavePlaylist,
    ToggleShortcuts,
    VolumeDown,
    VolumeUp,
    TogglePause,
    PlaySelected,
    NextTrack,
    PrevTrack,
    ToggleLibraryFavorite,
    /// Seek by this many seconds.
    Seek(i64),
    MoveSelection(i32),
    CloseParams,
    ParamsChange(i32),
    ParamsMove(i32),
}

/// The command of a key typed into a text prompt, given the prompt's own
/// cancel and submit commands.
pub open spec fn prompt_command(key: Key, cancel: Command, submit: Command) -> Command {
    match key {
        Key::Esc => cancel,
        Key::Enter => submit,
        Key::Backspace => Command::QueryBackspace,
        Key::Char(c) => Command::QueryType(c),
        _ => Command::Nothing,
    }
}

/// The command of a key while browsing.
pub open spec fn browse_command(focus: ListFocus, key: Key, ctrl: bool, shift: bool) -> Command {
    let lib = focus == ListFocus::YtLibrary;
    if ctrl && key == Key::Char('c') {
        Command::Quit
    } else {
        match key {
            Key::Char('q') => Command::Quit,
            Key::Char('s') => Command::EnterSearch,
            Key::Char('o') => Command::EnterOpenFile,
            Key::Char('?') => Command::ShowHelp,
            Key::Char('/') => Command::ToggleNerd,
            Key::Char('c') => Command::ToggleCaptions,
            Key::Char('y') => Command::YankUrl,
            Key::Char('p') => Command::EnterYtPlaylistInput,
            Key::Char('`') => Command::OpenParams,
            Key::Tab => if shift {
                Command::SwitchFocusBack
            } else {
                Command::SwitchFocus
            },
            Key::BackTab => Command::SwitchFocusBack,
            Key::Char('+') => Command::AddToPlaylist,
            Key::Char('-') | Key::Backspace | Key::Delete => if lib {
                Command::RemoveLibraryEntry
            } else {
                Command::RemoveFromPlaylist
            },
            Key::Char('d') | Key::Char('D') => if lib {
                Command::RemoveLibraryEntry
            } else {
                Command::Nothing
            },
            Key::Char('L') | Key::Char('l') => Command::CycleLoop,
            Key::Char('H') | Key::Char('h') => Command::ToggleShuffle,
            Key::Char('S') => Command::EnterSavePlaylist,
            Key::Char('.') => Command::ToggleShortcuts,
            Key::Char('z') => Command::VolumeDown,
            Key::Char('x') => Command::VolumeUp,
            Key::Char(' ') => Command::TogglePause,
            Key::Enter => Command::PlaySelected,
            Key::Char('n') => Command::NextTrack,
            Key::Char('b') => Command::PrevTrack,
            Key::Char('f') => if lib {
                Command::ToggleLibraryFavorite
            } else {
                Command::Seek(10i64)
            },
            Key::Char('F') => if lib {
                Command::ToggleLibraryFavorite
            } else {
                Command::Seek(60i64)
            },
            Key::Char('r') => Command::Seek(-10i64),
            Key::Char('R') => Command::Seek(-60i64),
            Key::Char('j') | Key::Down => Command::MoveSelection(1i32),
            Key::Char('k') | Key::Up => Command::MoveSelection(-1i32),
            _ => Command::Nothing,
        }
    }
}

/// The command of a key in each mode.
pub open spec fn key_command_of(mode: Mode, focus: ListFocus, key: Key, ctrl: bool, shift: bool) -> Command {
    match mode {
        Mode::Help => Command::BackToBrowse,
        Mode::Nerd => match key {
            Key::Esc | Key::Char('/') | Key::Char('q') => Command::BackToBrowse,
            _ => Command::Nothing,
        },
        Mode::Searching => prompt_command(key, Command::CancelSearch, Command::SubmitSearch),
        Mode::OpenFile => prompt_command(key, Command::CancelOpenFile, Command::SubmitOpenFile),
        Mode::YtPlaylistInput => prompt_command(
            key,
            Command::CancelYtPlaylistInput,
            Command::SubmitYtPlaylist,
        ),
        Mode::SavePlaylist => prompt_command(
            key,
            Command::CancelSavePlaylist,
            Command::SubmitSavePlaylist,
        ),
        Mode::Browse => browse_command(focus, key, ctrl, shift),
        Mode::Params => match key {
            Key::Esc | Key::Char('`') | Key::Char('q') => Command::CloseParams,
            Key::Left | Key::Char('h') => Command::ParamsChange(-1i32),
            Key::Right | Key::Char('l') | Key::Enter => Command::ParamsChange(1i32),
            Key::Up | Key::Char('k') => Command::ParamsMove(-1i32),
            Key::Down | Key::Char('j') => Command::ParamsMove(1i32),
            _ => Command::Nothing,
        },
    }
}

fn prompt_key(key: Key, cancel: Command, submit: Command) -> (r: Command)
    ensures
        r == prompt_command(key, cancel, submit),
{
    match key {
        Key::Esc => cancel,
        Key::Enter => submit,
        Key::Backspace => Command::QueryBackspace,
        Key::Char(c) => Command::QueryType(c),
        _ => Command::Nothing,
    }
}

fn browse_key(focus: ListFocus, key: Key, ctrl: bool, shift: bool) -> (r: Command)
    ensures
        r == browse_command(focus, key, ctrl, shift),
{
    let lib = focus == ListFocus::YtLibrary;
    if ctrl && key == Key::Char('c') {
        return Command::Quit;
    }
    match key {
        Key::Char('q') => Command::Quit,
        Key::Char('s') => Command::EnterSearch,
        Key::Char('o') => Command::EnterOpenFile,
        Key::Char('?') => Command::ShowHelp,
        Key::Char('/') => Command::ToggleNerd,
        Key::Char('c') => Command::ToggleCaptions,
        Key::Char('y') => Command::YankUrl,
        Key::Char('p') => Command::EnterYtPlaylistInput,
        Key::Char('`') => Command::OpenParams,
        Key::Tab => if shift {
            Command::SwitchFocusBack
        } else {
            Command::SwitchFocus
        },
        Key::BackTab => Command::SwitchFocusBack,
        Key::Char('+') => Command::AddToPlaylist,
        Key::Char('-') | Key::Backspace | Key::Delete => if lib {
            Command::RemoveLibraryEntry
        } else {
            Command::RemoveFromPlaylist
        },
        Key::Char('d') | Key::Char('D') => if lib {
            Command::RemoveLibraryEntry
        } else {
            Command::Nothing
        },
        Key::Char('L') | Key::Char('l') => Command::CycleLoop,
        Key::Char('H') | Key::Char('h') => Command::ToggleShuffle,
        Key::Char('S') => Command::EnterSavePlaylist,
        Key::Char('.') => Command::ToggleShortcuts,
        Key::Char('z') => Command::VolumeDown,
        Key::Char('x') => Command::VolumeUp,
        Key::Char(' ') => Command::TogglePause,
        Key::Enter => Command::PlaySelected,
        Key::Char('n') => Command::NextTrack,
        Key::Char('b') => Command::PrevTrack,
        Key::Char('f') => if lib {
            Command::ToggleLibraryFavorite
        } else {
            Command::Seek(10)
        },
        Key::Char('F') => if lib {
            Command::ToggleLibraryFavorite
        } else {
            Command::Seek(60)
        },
        Key::Char('r') => Command::Seek(-10),
        Key::Char('R') => Command::Seek(-60),
        Key::Char('j') | Key::Down => Command::MoveSelection(1),
        Key::Char('k') | Key::Up => Command::MoveSelection(-1),
        _ => Command::Nothing,
    }
}

/// The command a key press means in the current mode; `ctrl` and `shift`
/// tell whether those modifiers were held.
pub fn key_command(mode: Mode, focus: ListFocus, key: Key, ctrl: bool, shift: bool) -> (r: Command)
    ensures
        r == key_command_of(mode, focus, key, ctrl, shift),
        mode == Mode::Browse && key == Key::Char('n') ==> r == Command::NextTrack,
        mode == Mode::Browse && key == Key::Char('b') ==> r == Command::PrevTrack,
{
    proof {
        lemma_next_prev_keys(focus, ctrl, shift);
    }
    match mode {
        Mode::Help => Command::BackToBrowse,
        Mode::Nerd => match key {
            Key::Esc | Key::Char('/') | Key::Char('q') => Command::BackToBrowse,
            _ => Command::Nothing,
        },
        Mode::Searching => prompt_key(key, Command::CancelSearch, Command::SubmitSearch),
        Mode::OpenFile => prompt_key(key, Command::CancelOpenFile, Command::SubmitOpenFile),
        Mode::YtPlaylistInput => prompt_key(
            key,
            Command::CancelYtPlaylistInput,
            Command::SubmitYtPlaylist,
        ),
        Mode::SavePlaylist => prompt_key(key, Command::CancelSavePlaylist, Command::SubmitSavePlaylist),
        Mode::Browse => browse_key(focus, key, ctrl, shift),
        Mode::Params => match key {
            Key::Esc | Key::Char('`') | Key::Char('q') => Command::CloseParams,
            Key::Left | Key::Char('h') => Command::ParamsChange(-1),
            Key::Right | Key::Char('l') | Key::Enter => Command::ParamsChange(1),
            Key::Up | Key::Char('k') => Command::ParamsMove(-1),
            Key::Down | Key::Char('j') => Command::ParamsMove(1),
            _ => Command::Nothing,
        },
    }
}

impl App {
    /// Backspace in a prompt: the last typed character goes.
    pub fn query_backspace(&mut self)
        ensures
            final(self)@ == (AppView {
                query: if old(self)@.query.len() > 0 {
                    old(self)@.query.drop_last()
                } else {
                    old(self)@.query
                },
                ..old(self)@
            }),
    {
        let mut q = crate::text::str_chars(self.query.as_str());
        if q.len() > 0 {
            let ghost q0 = q@;
            q.pop();
            assert(q@ =~= q0.drop_last());
            self.query = crate::text::string_from_chars(q.as_slice());
        }
    }

    /// A character typed into a prompt.
    pub fn query_type(&mut self, c: char)
        ensures
            final(self)@ == (AppView { query: old(self)@.query.push(c), ..old(self)@ }),
    {
        let mut q = crate::text::str_chars(self.query.as_str());
        q.push(c);
        self.query = crate::text::string_from_chars(q.as_slice());
    }

    /// `?`: the help overlay.
    pub fn show_help(&mut self)
        ensures
            final(self)@ == (AppView { mode: Mode::Help, ..old(self)@ }),
    {
        self.mode = Mode::Help;
    }

    /// Leaves an overlay for the browsing view.
    pub fn back_to_browse(&mut self)
        ensures
            final(self)@ == (AppView { mode: Mode::Browse, ..old(self)@ }),
    {
        self.mode = Mode::Browse;
    }

    /// `q` or Ctrl-C.
    pub fn quit(&mut self)
        ensures
            final(self)@ == (AppView { should_quit: true, ..old(self)@ }),
    {
        self.should_quit = true;
    }
}

/// While browsing, `n` skips to the next track and `b` goes back to the
/// previous one, whichever list has the focus and whatever modifier is held.
pub proof fn lemma_next_prev_keys(focus: ListFocus, ctrl: bool, shift: bool)
    ensures
        key_command_of(Mode::Browse, focus, Key::Char('n'), ctrl, shift) == Command::NextTrack,
        key_command_of(Mode::Browse, focus, Key::Char('b'), ctrl, shift) == Command::PrevTrack,
{
}

} // verus!
