use ytmtui::app::{ListFocus, Mode};
use ytmtui::keys::{key_command, Command, Key};

#[test]
fn browse_keys() {
    let k = |key| key_command(Mode::Browse, ListFocus::Results, key, false, false);
    assert_eq!(k(Key::Char('q')), Command::Quit);
    assert_eq!(k(Key::Char('f')), Command::Seek(10));
    assert_eq!(k(Key::Char('R')), Command::Seek(-60));
    assert_eq!(k(Key::Down), Command::MoveSelection(1));
    assert_eq!(k(Key::Char('d')), Command::Nothing);
    assert_eq!(k(Key::Delete), Command::RemoveFromPlaylist);
    assert_eq!(key_command(Mode::Browse, ListFocus::YtLibrary, Key::Char('f'), false, false), Command::ToggleLibraryFavorite);
    assert_eq!(key_command(Mode::Browse, ListFocus::YtLibrary, Key::Char('d'), false, false), Command::RemoveLibraryEntry);
    assert_eq!(key_command(Mode::Browse, ListFocus::Results, Key::Char('c'), true, false), Command::Quit);
    assert_eq!(key_command(Mode::Browse, ListFocus::Results, Key::Tab, false, true), Command::SwitchFocusBack);
}

#[test]
fn prompt_and_overlay_keys() {
    assert_eq!(key_command(Mode::Searching, ListFocus::Results, Key::Char('q'), false, false), Command::QueryType('q'));
    assert_eq!(key_command(Mode::OpenFile, ListFocus::Results, Key::Enter, false, false), Command::SubmitOpenFile);
    assert_eq!(key_command(Mode::SavePlaylist, ListFocus::Results, Key::Esc, false, false), Command::CancelSavePlaylist);
    assert_eq!(key_command(Mode::Help, ListFocus::Results, Key::Other, false, false), Command::BackToBrowse);
    assert_eq!(key_command(Mode::Nerd, ListFocus::Results, Key::Char('x'), false, false), Command::Nothing);
    assert_eq!(key_command(Mode::Params, ListFocus::Results, Key::Enter, false, false), Command::ParamsChange(1));
    assert_eq!(key_command(Mode::Params, ListFocus::Results, Key::Char('k'), false, false), Command::ParamsMove(-1));
}
