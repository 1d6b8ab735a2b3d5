use ytmtui::playlist::Playlist;
use ytmtui::app::{App, CaptionStatus, ListFocus, Mode};
use ytmtui::config::Config;
use ytmtui::library::PlaylistLibrary;
use ytmtui::sprites::{Registry, SpriteFile};
use ytmtui::view::{
    caption_box, now_playing_title, search_box, shortcut_bar, tab_title, time_label, title_room,
    track_row, volume_line, Piece, Tone,
};
use ytmtui::ytdlp::{Platform, Track};

fn text(ps: &[Piece]) -> String {
    ps.iter().map(|p| p.text.as_str()).collect()
}

fn app() -> App {
    let f = SpriteFile {
        name: Some("Nyan".to_string()),
        frames: vec!["=^.^=".to_string(), "=^o^=".to_string()],
        trail_left: "~".to_string(),
        trail_right: ".".to_string(),
        accent: "magenta".to_string(),
        order: 1,
        animate_on: None,
    };
    App::new(
        Config::default(),
        Registry::load(vec![("nyan".to_string(), f)], vec![]),
        Playlist::default(),
        Playlist::default(),
        Playlist::default(),
        PlaylistLibrary::new(),
    )
}

#[test]
fn shortcut_bar_texts() {
    assert_eq!(text(&shortcut_bar(false)), " . show shortcuts");
    assert_eq!(
        text(&shortcut_bar(true)),
        " ? help  ·  ` params  ·  / nerd  ·  q quit  ·  . hide"
    );
}

#[test]
fn track_rows_show_duration_glyph_and_uploader() {
    let t = Track {
        id: "x".into(),
        title: "Song".into(),
        uploader: "Band".into(),
        duration: Some(65),
        source: None,
        local_depth: None,
        platform: Some(Platform::YouTube),
    };
    assert_eq!(text(&track_row(&t, true, true)), "▶  1:05  Y  Song  — Band");
    let l = Track {
        id: "/a".into(),
        title: "File".into(),
        uploader: "ignored".into(),
        duration: None,
        source: Some("/a".into()),
        local_depth: Some(2),
        platform: Some(Platform::Local),
    };
    assert_eq!(text(&track_row(&l, false, true)), "  --:--  ⌂  R//  File");
    assert_eq!(text(&track_row(&l, false, false)), "  --:--  ⌂  File");
}

#[test]
fn tab_title_marks_focus_and_counts() {
    let mut a = app();
    assert_eq!(
        text(&tab_title(&a)),
        " [ Results (0) ]  Library (0)  ⌂: — (0)    ·  ⇥ switch  ·  + add  ·  ↵ play  ·  y URL "
    );
    a.focus = ListFocus::YtLibrary;
    a.config.show_shortcuts = false;
    a.searching = true;
    assert_eq!(
        text(&tab_title(&a)),
        " Results (searching…)  [ Library (0) ]  ⌂: — (0)   "
    );
}

#[test]
fn now_playing_title_shows_states() {
    let mut a = app();
    a.config.show_shortcuts = false;
    assert_eq!(text(&now_playing_title(&a)), " Now Playing · loop:off · shuffle:off ");
    a.config.show_shortcuts = true;
    let t = text(&now_playing_title(&a));
    assert!(t.starts_with(" Now Playing   ·  L loop:off  ·  H shuffle:off"));
    assert!(t.ends_with("c CC "));
}

#[test]
fn search_box_by_mode() {
    let mut a = app();
    let (title, body, tone) = search_box(&a);
    assert_eq!(text(&title), " Search   ·  s search  ·  o open file  ·  p yt playlist ");
    assert_eq!(body, "Press `s` to search, `o` to open file, `p` to load a YT playlist...");
    assert_eq!(tone, Tone::Dim);
    a.mode = Mode::OpenFile;
    a.query = "/tmp".into();
    let (title, body, tone) = search_box(&a);
    assert_eq!(text(&title), " Open file   ·  ↵ play  ·  esc cancel ");
    assert_eq!(body, "/tmp_");
    assert_eq!(tone, Tone::Yellow);
}

#[test]
fn caption_box_labels() {
    assert_eq!(caption_box(CaptionStatus::Idle).1, Some("(off)"));
    assert_eq!(caption_box(CaptionStatus::Error).2, Tone::Alert);
    assert_eq!(caption_box(CaptionStatus::Ready).1, None);
    assert_eq!(caption_box(CaptionStatus::Empty).0, " CC — none available [c] ");
}

#[test]
fn volume_popup_line() {
    assert_eq!(text(&volume_line(80)), " ████████████████░░░░  80% (•O•))) ♪♬♪");
    assert_eq!(text(&volume_line(0)), " ░░░░░░░░░░░░░░░░░░░░   0% (˘_˘) zZz");
}

#[test]
fn time_and_room() {
    assert_eq!(time_label(65, 3725), "  1:05  /  1:02:05");
    assert_eq!(title_room(40, 2, 10), 28);
    assert_eq!(title_room(10, 2, 10), 8);
}
