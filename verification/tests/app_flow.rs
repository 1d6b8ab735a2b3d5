use ytmtui::playlist::Playlist;
use ytmtui::app::{ActiveLibrary, App, CaptionStatus, ConfigNote, Effect, ListFocus, Mode, QueueSource};
use ytmtui::config::{Config, LoopMode};
use ytmtui::library::PlaylistLibrary;
use ytmtui::sprites::{Registry, SpriteFile};
use ytmtui::ytdlp::{Platform, Track};

fn sprite_file(name: &str) -> SpriteFile {
    SpriteFile {
        name: Some(name.to_string()),
        frames: vec!["=^.^=".to_string()],
        trail_left: "-".to_string(),
        trail_right: ".".to_string(),
        accent: "magenta".to_string(),
        order: 1,
        animate_on: None,
    }
}

fn registry() -> Registry {
    Registry::load(
        vec![
            ("nyan".to_string(), sprite_file("Nyan")),
            ("dot".to_string(), sprite_file("Dot")),
        ],
        vec![],
    )
}

fn track(id: &str, title: &str, duration: Option<u64>) -> Track {
    Track {
        id: id.to_string(),
        title: title.to_string(),
        uploader: "someone".to_string(),
        duration,
        source: None,
        local_depth: None,
        platform: Some(Platform::YouTube),
    }
}

fn local(path: &str, title: &str, duration: Option<u64>) -> Track {
    Track {
        id: path.to_string(),
        title: title.to_string(),
        uploader: String::new(),
        duration,
        source: Some(path.to_string()),
        local_depth: Some(0),
        platform: Some(Platform::Local),
    }
}

fn app() -> App {
    App::new(
        Config::default(),
        registry(),
        Playlist::default(),
        Playlist::default(),
        Playlist::default(),
        PlaylistLibrary::new(),
    )
}

fn ids(v: &[Track]) -> Vec<String> {
    v.iter().map(|t| t.id.clone()).collect()
}

#[test]
fn new_app_starts_browsing_results() {
    let a = app();
    assert_eq!(a.mode, Mode::Browse);
    assert_eq!(a.focus, ListFocus::Results);
    assert_eq!(a.status, "Press `s` to search, `?` for help, `q` to quit.");
    assert!(a.current.is_none());
}

#[test]
fn play_selected_queues_results_and_loads_track() {
    let mut a = app();
    a.results = vec![track("a", "A", Some(61)), track("b", "B", None)];
    a.selected = 1;
    let fx = a.play_selected();
    assert_eq!(ids(&a.queue), vec!["a", "b"]);
    assert_eq!(a.current, Some(1));
    assert!(matches!(a.queue_source, QueueSource::Results));
    // A track played from the results is mirrored into the unsaved list.
    assert_eq!(ids(&a.playlist), vec!["b"]);
    assert!(matches!(fx[0], Effect::SavePlaylist { report: false }));
    match &fx[1] {
        Effect::Load { url, ok_status, mark_added } => {
            assert_eq!(url, "https://www.youtube.com/watch?v=b");
            assert_eq!(ok_status, "[2/2] B — someone");
            assert!(*mark_added);
        }
        other => panic!("unexpected {:?}", other),
    }
    assert!(matches!(fx[2], Effect::ClearCaptions));
    assert_eq!(fx.len(), 3);
    a.after_load("[2/2] B — someone", None, true);
    assert_eq!(a.status, "+ [2/2] B — someone");
    a.after_load("x", Some("boom"), false);
    assert_eq!(a.status, "mpv load failed: boom");
}

#[test]
fn next_and_previous_walk_the_queue() {
    let mut a = app();
    a.results = vec![track("a", "A", None), track("b", "B", None), track("c", "C", None)];
    a.play_selected();
    assert_eq!(a.current, Some(0));
    a.next_track(7);
    assert_eq!(a.current, Some(1));
    a.prev_track(7);
    assert_eq!(a.current, Some(0));
    // At the start without looping, Previous restarts the first track.
    a.prev_track(7);
    assert_eq!(a.current, Some(0));
    a.play_at(2);
    let fx = a.next_track(7);
    assert!(fx.is_empty());
    assert_eq!(a.status, "end of queue");
    a.cycle_loop();
    assert_eq!(a.config.loop_mode, LoopMode::All);
    a.next_track(7);
    assert_eq!(a.current, Some(0));
    a.prev_track(7);
    assert_eq!(a.current, Some(2));
}

#[test]
fn end_of_track_follows_loop_mode() {
    let mut a = app();
    a.results = vec![track("a", "A", None), track("b", "B", None)];
    a.play_selected();
    a.advance_after_eof(3);
    assert_eq!(a.current, Some(1));
    let fx = a.advance_after_eof(3);
    assert!(fx.is_empty());
    assert_eq!(a.current, None);
    assert_eq!(a.status, "queue finished");
    a.play_at(1);
    a.config.loop_mode = LoopMode::One;
    a.advance_after_eof(3);
    assert_eq!(a.current, Some(1));
    a.config.loop_mode = LoopMode::All;
    a.advance_after_eof(3);
    assert_eq!(a.current, Some(0));
}

#[test]
fn shuffle_never_repeats_the_current_track() {
    let mut a = app();
    a.results = vec![track("a", "A", None), track("b", "B", None), track("c", "C", None)];
    a.play_selected();
    a.toggle_shuffle();
    assert_eq!(a.status, "shuffle: on");
    for r in 0..50u64 {
        let before = a.current.unwrap();
        a.next_track(r.wrapping_mul(2654435761));
        assert_ne!(a.current.unwrap(), before);
    }
}

#[test]
fn loop_mode_cycles_through_three_states() {
    let mut a = app();
    let fx = a.cycle_loop();
    assert!(matches!(fx[0], Effect::SaveConfig { note: ConfigNote::Silent }));
    assert_eq!(a.status, "loop: all");
    a.cycle_loop();
    assert_eq!(a.status, "loop: one");
    a.cycle_loop();
    assert_eq!(a.config.loop_mode, LoopMode::Off);
    assert_eq!(a.status, "loop: off");
}

#[test]
fn focus_cycles_and_back_undoes() {
    let mut a = app();
    let order = [ListFocus::YtLibrary, ListFocus::YtPlaylist, ListFocus::LocalFolder, ListFocus::Results];
    for f in order {
        a.switch_focus();
        assert_eq!(a.focus, f);
    }
    a.switch_focus();
    a.switch_focus_back();
    assert_eq!(a.focus, ListFocus::Results);
}

#[test]
fn move_selection_clamps() {
    let mut a = app();
    a.results = vec![track("a", "A", None), track("b", "B", None)];
    a.move_selection(5);
    assert_eq!(a.selected, 1);
    a.move_selection(-9);
    assert_eq!(a.selected, 0);
}

#[test]
fn add_and_remove_unsaved_entries() {
    let mut a = app();
    a.results = vec![track("a", "A", None)];
    let fx = a.add_focused_to_playlist();
    assert_eq!(a.status, "added — A");
    assert!(matches!(fx[0], Effect::SavePlaylist { report: false }));
    let fx = a.add_focused_to_playlist();
    assert!(fx.is_empty());
    assert_eq!(a.status, "not added — already on the list (A)");
    a.focus = ListFocus::YtPlaylist;
    a.remove_focused_from_playlist();
    assert!(a.playlist.is_empty());
    assert_eq!(a.status, "kicked - A");
    a.focus = ListFocus::Results;
    a.results.clear();
    a.add_focused_to_playlist();
    assert_eq!(a.status, "nothing to add — pick a track first");
}

#[test]
fn search_runs_local_and_remote_and_drops_stale_answers() {
    let mut a = app();
    a.local_folder = vec![local("/m/Song One.mp3", "Song One", Some(10)), local("/m/x.mp3", "Other", None)];
    a.enter_search();
    assert_eq!(a.mode, Mode::Searching);
    for c in "song".chars() {
        a.query_type(c);
    }
    let fx = a.submit_search();
    assert_eq!(a.mode, Mode::Browse);
    assert_eq!(ids(&a.results), vec!["/m/Song One.mp3"]);
    assert_eq!(fx.len(), 2);
    assert!(matches!(&fx[0], Effect::Search { query, platform: Platform::YouTube, limit: 5 } if query == "song"));
    assert!(matches!(&fx[1], Effect::Search { query, platform: Platform::Bilibili, limit: 5 } if query == "song"));
    assert_eq!(a.status, "Searching (all): song ...");
    assert!(a.searching);
    a.on_search_done("old query", Ok(vec![track("z", "Z", None)]));
    assert_eq!(a.results.len(), 1);
    a.on_search_done("song", Ok(vec![track("y", "Y", None)]));
    assert_eq!(a.results.len(), 2);
    assert!(a.searching);
    a.on_search_done("song", Err("network down".to_string()));
    assert!(!a.searching);
    assert_eq!(a.status, "Found 2 results for \"song\".");
}

#[test]
fn scoped_local_search_finishes_at_once() {
    let mut a = app();
    a.local_folder = vec![local("/m/a.mp3", "Alpha", None)];
    a.query = "#home ALP".to_string();
    let fx = a.submit_search();
    assert!(fx.is_empty());
    assert!(!a.searching);
    assert_eq!(a.status, "Local results: 1 for \"ALP\".");
    a.query = "#yt   ".to_string();
    let fx = a.submit_search();
    assert!(fx.is_empty());
    assert_eq!(a.status, "Empty search after filter");
    a.query = "#B cats".to_string();
    let fx = a.submit_search();
    assert_eq!(fx.len(), 1);
    assert_eq!(a.status, "Searching (B): cats ...");
}

#[test]
fn playlist_fetch_registers_and_refreshes_library_entry() {
    let mut a = app();
    a.enter_yt_playlist_input();
    a.query = "  'https://www.bilibili.com/list/1'  ".to_string();
    let fx = a.submit_yt_playlist();
    let url = "https://www.bilibili.com/list/1";
    assert_eq!(a.config.yt_playlist_url.as_deref(), Some(url));
    assert!(a.yt_playlist_loading);
    assert_eq!(a.focus, ListFocus::YtPlaylist);
    assert_eq!(a.status, "Fetching B playlist...");
    assert!(matches!(fx[0], Effect::SaveLibrary));
    assert!(matches!(&fx[2], Effect::FetchPlaylist { url: u } if u == url));
    assert_eq!(a.library.entries.len(), 1);
    assert_eq!(a.library.entries[0].title, url);
    let fx = a.on_yt_playlist_done("https://other", Ok(vec![]));
    assert!(fx.is_empty());
    assert!(a.yt_playlist_loading);
    let fx = a.on_yt_playlist_done(url, Ok(vec![track("a", "A", None), track("b", "B", None)]));
    assert_eq!(fx.len(), 2);
    assert!(!a.yt_playlist_loading);
    assert_eq!(a.status, "B playlist loaded (2 tracks)");
    assert_eq!(a.library.entries[0].track_count, 2);
    assert_eq!(a.library_selected, 0);
    a.on_yt_playlist_done(url, Err("HTTP 429".to_string()));
    assert_eq!(a.status, "YT playlist failed: HTTP 429");
}

#[test]
fn library_favorites_stay_on_top() {
    let mut a = app();
    a.library.upsert("u1", "One", Platform::YouTube, 1);
    a.library.upsert("u2", "Two", Platform::YouTube, 2);
    a.focus = ListFocus::YtLibrary;
    a.library_selected = 1;
    let fx = a.toggle_library_favorite();
    assert!(matches!(fx[0], Effect::SaveLibrary));
    assert_eq!(a.library.entries[0].url, "u2");
    assert!(a.library.entries[0].favorite);
    assert_eq!(a.library_selected, 0);
    a.remove_library_entry();
    assert_eq!(a.library.entries.len(), 1);
    assert_eq!(a.status, "removed from library: Two");
}

#[test]
fn activating_unsaved_row_and_saved_entry() {
    let mut a = app();
    a.playlist = vec![track("a", "A", None)];
    a.library.upsert("u1", "One", Platform::YouTube, 1);
    a.focus = ListFocus::YtLibrary;
    a.library_selected = 0;
    a.play_selected();
    assert_eq!(a.active_library, ActiveLibrary::Unsaved);
    assert_eq!(a.status, "Active: Unsaved");
    a.library_selected = 1;
    let fx = a.play_selected();
    assert_eq!(a.active_library, ActiveLibrary::Saved(0));
    assert!(matches!(&fx[2], Effect::FetchPlaylist { url } if url == "u1"));
}

#[test]
fn volume_steps_are_bounded() {
    let mut a = app();
    a.config.volume = 95;
    let fx = a.volume_up();
    assert_eq!(a.config.volume, 100);
    assert!(matches!(fx[0], Effect::SetVolume(100)));
    assert!(matches!(fx[1], Effect::ShowVolume { ms: 2000 }));
    a.volume_up();
    assert_eq!(a.config.volume, 100);
    a.config.volume = 5;
    a.volume_down();
    assert_eq!(a.config.volume, 0);
}

#[test]
fn settings_writes_report_in_the_status_line() {
    let mut a = app();
    a.status = "keep".to_string();
    a.config_saved(&ConfigNote::Plain, None);
    assert_eq!(a.status, "keep");
    a.config_saved(&ConfigNote::Plain, Some("disk full"));
    assert_eq!(a.status, "config write failed: disk full");
    a.config_saved(&ConfigNote::Cursor("Nyan".to_string()), None);
    assert_eq!(a.status, "Cursor: Nyan");
    a.config_saved(&ConfigNote::CaptionLang("fr".to_string()), Some("ro"));
    assert_eq!(a.status, "Saved CC lang (config write failed: ro)");
    a.config_saved(&ConfigNote::Silent, Some("x"));
    assert_eq!(a.status, "Saved CC lang (config write failed: ro)");
}

#[test]
fn parameter_menu_cycles_sprites_and_languages() {
    let mut a = app();
    a.open_params();
    assert_eq!(a.mode, Mode::Params);
    let fx = a.params_change(1);
    assert_eq!(a.config.progress_sprite, "dot");
    assert!(matches!(&fx[0], Effect::SaveConfig { note: ConfigNote::Cursor(n) } if n == "Dot"));
    a.params_change(1);
    assert_eq!(a.config.progress_sprite, "nyan");
    a.params_change(-1);
    assert_eq!(a.config.progress_sprite, "dot");
    a.params_move(1);
    assert_eq!(a.params_row, 1);
    a.params_move(1);
    assert_eq!(a.params_row, 1);
    a.params_change(-1);
    assert_eq!(a.config.caption_lang, "ru");
    a.params_change(1);
    assert_eq!(a.config.caption_lang, "en");
    a.params_change(1);
    assert_eq!(a.config.caption_lang, "vi");
    a.close_params();
    assert_eq!(a.mode, Mode::Browse);
}

#[test]
fn captions_fetch_when_turned_on_for_a_playing_track() {
    let mut a = app();
    a.results = vec![track("a", "A", None)];
    a.play_selected();
    let fx = a.toggle_captions();
    assert!(a.show_captions);
    assert_eq!(a.caption_status, CaptionStatus::Loading);
    assert!(matches!(&fx[1], Effect::FetchCaptions { track_id } if track_id == "a"));
    assert!(!a.on_captions_done("other", Ok(2)));
    assert_eq!(a.caption_status, CaptionStatus::Loading);
    assert!(a.on_captions_done("a", Ok(0)));
    assert_eq!(a.caption_status, CaptionStatus::Empty);
    a.toggle_captions();
    let fx = a.toggle_captions();
    assert!(fx.is_empty());
    assert!(a.on_captions_done("a", Err("x".to_string())));
    a.toggle_captions();
    let fx = a.toggle_captions();
    assert_eq!(fx.len(), 2);
}

#[test]
fn paste_drops_line_breaks_only_in_prompts() {
    let mut a = app();
    a.handle_paste("ignored");
    assert_eq!(a.query, "");
    a.enter_open_file();
    a.handle_paste("/a/b\r\n c\n");
    assert_eq!(a.query, "/a/b c");
    a.query_backspace();
    assert_eq!(a.query, "/a/b ");
    assert_eq!(a.take_open_file_input(), Some("/a/b".to_string()));
    assert_eq!(a.mode, Mode::Browse);
    assert_eq!(a.take_open_file_input(), None);
}

#[test]
fn opening_a_file_plays_it_from_the_unsaved_list() {
    let mut a = app();
    let fx = a.open_file("/m/x.mp3".to_string(), "x".to_string(), Some(42));
    assert_eq!(a.focus, ListFocus::YtPlaylist);
    assert_eq!(ids(&a.playlist), vec!["/m/x.mp3"]);
    assert_eq!(a.current, Some(0));
    assert!(matches!(fx[0], Effect::SavePlaylist { report: false }));
    assert!(matches!(&fx[1], Effect::Load { url, .. } if url == "/m/x.mp3"));
    // Opening it again adds nothing.
    let fx = a.open_file("/m/x.mp3".to_string(), "x".to_string(), Some(42));
    assert_eq!(a.playlist.len(), 1);
    assert!(matches!(fx[0], Effect::Load { .. }));
}

#[test]
fn probed_durations_fill_missing_ones_first_probe_wins() {
    let mut a = app();
    a.playlist = vec![local("/p", "p", None), local("/q", "q", Some(5))];
    a.local_folder = vec![local("/q", "q", None)];
    let fx = a.on_durations(&vec![("/p".to_string(), 7), ("/p".to_string(), 9), ("/q".to_string(), 3)]);
    assert_eq!(a.playlist[0].duration, Some(7));
    assert_eq!(a.playlist[1].duration, Some(5));
    assert_eq!(a.local_folder[0].duration, Some(3));
    assert_eq!(fx.len(), 2);
    assert!(matches!(fx[0], Effect::SavePlaylist { report: true }));
    assert!(matches!(fx[1], Effect::SaveLocalFolder { report: true }));
    let fx = a.on_durations(&vec![("/p".to_string(), 1)]);
    assert!(fx.is_empty());
}

#[test]
fn backfill_targets_list_each_local_id_once() {
    let mut a = app();
    a.playlist = vec![local("/p", "p", None), track("y", "y", None)];
    a.local_folder = vec![local("/p", "p", None), local("/r", "r", None), local("/s", "s", Some(1))];
    let t = a.duration_backfill_targets();
    assert_eq!(t, vec![("/p".to_string(), "/p".to_string()), ("/r".to_string(), "/r".to_string())]);
}

#[test]
fn copying_urls_reports_result() {
    let mut a = app();
    let fx = a.yank_selected_url();
    assert!(fx.is_empty());
    assert_eq!(a.status, "nothing to copy");
    a.results = vec![track("abc", "A", None)];
    let fx = a.yank_selected_url();
    assert!(matches!(&fx[0], Effect::CopyUrl { url } if url == "https://www.youtube.com/watch?v=abc"));
    a.after_copy("u", None);
    assert_eq!(a.status, "Copied URL: u");
    a.after_copy("u", Some("no tool"));
    assert_eq!(a.status, "Copy failed: no tool");
}

#[test]
fn folder_scan_results_replace_the_folder_list() {
    let mut a = app();
    let fx = a.start_local_folder_scan("/music".to_string(), "music".to_string());
    assert_eq!(a.status, "Scanning /music...");
    assert!(matches!(&fx[1], Effect::ScanFolder { path } if path == "/music"));
    let fx = a.on_local_folder_done("/elsewhere", vec![]);
    assert!(fx.is_empty());
    assert!(a.local_folder_scanning);
    a.on_local_folder_done("/music", vec![local("/music/a.mp3", "a", None)]);
    assert!(!a.local_folder_scanning);
    assert_eq!(a.status, "Folder scan: 1 files");
}

#[test]
fn list_writes_report_only_when_asked() {
    let mut a = app();
    a.status = "s".to_string();
    a.list_saved(&Effect::SavePlaylist { report: false }, Some("e"));
    assert_eq!(a.status, "s");
    a.list_saved(&Effect::SaveYtPlaylist { report: true }, Some("e"));
    assert_eq!(a.status, "yt playlist saved (write failed: e)");
    a.list_saved(&Effect::SaveLocalFolder { report: true }, None);
    assert_eq!(a.status, "yt playlist saved (write failed: e)");
}

#[test]
fn save_prompt_needs_tracks() {
    let mut a = app();
    a.focus = ListFocus::YtLibrary;
    a.enter_save_playlist();
    assert_eq!(a.status, "nothing to save - Unsaved is empty");
    a.playlist = vec![track("a", "A", None)];
    a.last_saved_as = Some("mix".to_string());
    a.enter_save_playlist();
    assert_eq!(a.mode, Mode::SavePlaylist);
    assert_eq!(a.query, "mix");
    a.cancel_save_playlist();
    assert_eq!(a.mode, Mode::Browse);
}

#[test]
fn save_prompt_keeps_unsaved_list() {
    let mut a = app();
    a.playlist = vec![track("a", "A", Some(1))];
    a.focus = ListFocus::YtLibrary;
    a.enter_save_playlist();
    assert_eq!(a.mode, Mode::SavePlaylist);
    assert_eq!(a.status, "Save Unsaved as: type a name. Same name overwrites.");
    a.query = "   ".to_string();
    a.submit_save_playlist();
    assert_eq!(a.mode, Mode::Browse);
    assert_eq!(a.status, "save cancelled - empty name");
    a.enter_save_playlist();
    a.query = "mix".to_string();
    a.submit_save_playlist();
    assert_eq!(a.mode, Mode::Browse);
    assert!(a.query.is_empty());
    assert_eq!(a.status, "cannot save: saved playlists keep no tracks");
    assert_eq!(a.playlist.len(), 1);
}
