use ytmtui::ytdlp::{search_args, search_target, Platform};

#[test]
fn youtube_search_uses_flat_listing() {
    let args = search_args("lofi beats", 5, Platform::YouTube).unwrap();
    assert_eq!(
        args,
        vec![
            "--flat-playlist",
            "--default-search",
            "ytsearch",
            "--dump-json",
            "--no-warnings",
            "--skip-download",
            "ytsearch5:lofi beats",
        ]
    );
}

#[test]
fn bilibili_search_resolves_entries_with_referer() {
    let args = search_args("cat", 12, Platform::Bilibili).unwrap();
    assert_eq!(
        args,
        vec![
            "--ignore-errors",
            "--add-header",
            "Referer: https://www.bilibili.com/",
            "--default-search",
            "bilisearch",
            "--dump-json",
            "--no-warnings",
            "--skip-download",
            "bilisearch12:cat",
        ]
    );
}

#[test]
fn local_files_cannot_be_searched_by_ytdlp() {
    assert_eq!(
        search_args("x", 5, Platform::Local),
        Err("yt-dlp cannot search local files".to_string())
    );
    assert_eq!(search_target("x", 5, Platform::Local), Err("yt-dlp cannot search local files".to_string()));
}
