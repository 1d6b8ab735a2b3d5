use ytmtui::playlist::Playlist;
use ytmtui::app::{App, Effect, ListFocus};
use ytmtui::config::Config;
use ytmtui::gui::{chip_query, clamp, current_title, focus_tab, rows, tab_focus, GuiList};
use ytmtui::library::PlaylistLibrary;
use ytmtui::mpris::metadata;
use ytmtui::sprites::Registry;
use ytmtui::stats::{byte_scale, ByteScale};
use ytmtui::ytdlp::{Platform, Track};

fn app() -> App {
    App::new(
        Config::default(),
        Registry::load(vec![], vec![]),
        Playlist::default(),
        Playlist::default(),
        Playlist::default(),
        PlaylistLibrary::new(),
    )
}

fn track(id: &str) -> Track {
    Track {
        id: id.into(),
        title: format!("T{id}"),
        uploader: "U".into(),
        duration: Some(3),
        source: None,
        local_depth: None,
        platform: Some(Platform::YouTube),
    }
}

#[test]
fn search_chips_prefix_the_query() {
    assert_eq!(chip_query("cats", "youtube").as_deref(), Some("#Y cats"));
    assert_eq!(chip_query("cats", "local").as_deref(), Some("#H cats"));
    assert_eq!(chip_query("cats", "").as_deref(), Some("cats"));
    assert_eq!(chip_query("   ", "bilibili"), None);
}

#[test]
fn tabs_map_to_focus_and_back() {
    assert_eq!(tab_focus(ListFocus::Results, 1), ListFocus::YtLibrary);
    assert_eq!(tab_focus(ListFocus::YtPlaylist, 1), ListFocus::YtPlaylist);
    assert_eq!(tab_focus(ListFocus::Results, 2), ListFocus::LocalFolder);
    assert_eq!(tab_focus(ListFocus::LocalFolder, 7), ListFocus::LocalFolder);
    for t in 0..3 {
        assert_eq!(focus_tab(tab_focus(ListFocus::Results, t)), t);
    }
}

#[test]
fn clicks_select_rows_that_exist() {
    assert_eq!(clamp(-1, 3), None);
    assert_eq!(clamp(3, 3), None);
    assert_eq!(clamp(2, 3), Some(2));
    let mut a = app();
    a.local_folder = vec![track("a"), track("b")];
    a.gui_select(GuiList::Local, 1);
    assert_eq!(a.focus, ListFocus::LocalFolder);
    assert_eq!(a.local_folder_selected, 1);
    a.gui_select(GuiList::Results, 0);
    assert_eq!(a.focus, ListFocus::LocalFolder);
}

#[test]
fn slider_saves_only_changes() {
    let mut a = app();
    let v = a.config.volume;
    assert!(a.gui_set_volume(v).is_empty());
    let fx = a.gui_set_volume(33);
    assert_eq!(a.config.volume, 33);
    assert!(matches!(fx[0], Effect::SetVolume(33)));
}

#[test]
fn gui_rows_mark_playing_track() {
    let r = rows(&[track("a"), track("b")], Some("b".to_string()));
    assert!(!r[0].is_playing);
    assert!(r[1].is_playing);
    assert_eq!(r[0].duration, "0:03");
    assert_eq!(r[0].platform_glyph, "Y");
}

#[test]
fn memory_units() {
    assert_eq!(byte_scale(1023), ByteScale::B);
    assert_eq!(byte_scale(1024), ByteScale::Kb);
    assert_eq!(byte_scale(5 * 1024 * 1024), ByteScale::Mb);
    assert_eq!(byte_scale(1 << 30), ByteScale::Gb);
}

#[test]
fn media_metadata_of_playing_track() {
    let mut a = app();
    let m = metadata(&a);
    assert_eq!(m.trackid, "/org/mpris/MediaPlayer2/TrackList/NoTrack");
    a.results = vec![track("x-1")];
    a.play_selected();
    let m = metadata(&a);
    assert_eq!(m.trackid, "/org/mpris/MediaPlayer2/TrackList/x_1");
    assert_eq!(m.artist.as_deref(), Some("U"));
    assert_eq!(m.length_us, Some(3_000_000));
    assert_eq!(m.url.as_deref(), Some("https://www.youtube.com/watch?v=x-1"));
}

#[test]
fn media_length_saturates() {
    let mut a = app();
    let mut t = track("y");
    t.duration = Some(u64::MAX);
    a.results = vec![t];
    a.play_selected();
    assert_eq!(metadata(&a).length_us, Some(i64::MAX));
}

#[test]
fn empty_registry_falls_back_to_one_sprite() {
    let a = app();
    assert_eq!(a.sprites().all().len(), 1);
    assert_eq!(a.current_sprite().id, "fallback");
}

#[test]
fn current_title_names_track_and_uploader() {
    let mut a = app();
    assert_eq!(current_title(&a), "ytmtui");
    a.queue = vec![track("a"), track("b")];
    a.current = Some(1);
    assert_eq!(current_title(&a), "Tb - U");
}

#[test]
fn start_up_sets_saved_volume_and_keeps_lists() {
    let mut cfg = Config::default();
    cfg.volume = 42;
    let a = App::new(
        cfg,
        Registry::load(vec![], vec![]),
        Playlist { tracks: vec![track("p")] },
        Playlist::default(),
        Playlist { tracks: vec![track("l1"), track("l2")] },
        PlaylistLibrary::new(),
    );
    assert_eq!(a.playlist.len(), 1);
    assert_eq!(a.local_folder.len(), 2);
    let fx = a.startup_effects();
    assert_eq!(fx.len(), 1);
    assert!(matches!(fx[0], Effect::SetVolume(42)));
}
