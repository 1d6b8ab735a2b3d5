use ytmtui::captions::{
    canonical_lang, infer_lang_from_text, langs_with_vtt, non_empty, safe_lang, select_langs,
    strip_tags, ytdlp_option_args, AvailableLangs, FetchOptions, LangTracks,
};

#[test]
fn selects_original_plus_preferred_translation() {
    let available = AvailableLangs {
        original_lang: Some("zh-Hans-orig".into()),
        langs: ["zh-Hans-orig", "en"]
            .into_iter()
            .map(str::to_string)
            .collect(),
    };
    assert_eq!(
        select_langs(&available, &["en".into()]),
        vec!["zh-Hans-orig".to_string(), "en".to_string()]
    );
}

#[test]
fn does_not_duplicate_original_base_language() {
    let available = AvailableLangs {
        original_lang: Some("vi-orig".into()),
        langs: ["vi-orig", "vi", "en"]
            .into_iter()
            .map(str::to_string)
            .collect(),
    };
    assert_eq!(select_langs(&available, &["vi".into()]), vec!["vi-orig"]);
}

#[test]
fn falls_back_to_preferred_when_original_is_unknown() {
    let available = AvailableLangs {
        original_lang: None,
        langs: ["en"].into_iter().map(str::to_string).collect(),
    };
    assert_eq!(select_langs(&available, &["en".into()]), vec!["en"]);
}

#[test]
fn tries_later_preferred_languages() {
    let available = AvailableLangs {
        original_lang: Some("vi-orig".into()),
        langs: ["vi-orig", "en"].into_iter().map(str::to_string).collect(),
    };
    assert_eq!(
        select_langs(&available, &["vi".into(), "en".into()]),
        vec!["vi-orig".to_string(), "en".to_string()]
    );
}

#[test]
fn infers_vietnamese_from_title_text() {
    assert_eq!(
        infer_lang_from_text("Đen - một triệu like ft. Thành Đồng"),
        Some("vi")
    );
}

#[test]
fn ignores_subtitle_entries_without_vtt_tracks() {
    let raw = vec![
        LangTracks {
            lang: "live_chat".to_string(),
            exts: vec![Some("json".to_string())],
        },
        LangTracks {
            lang: "vi".to_string(),
            exts: vec![Some("vtt".to_string())],
        },
    ];
    assert_eq!(langs_with_vtt(&raw), vec!["vi"]);
}

#[test]
fn empty_preferences_fall_back_to_english() {
    let available = AvailableLangs {
        original_lang: None,
        langs: vec!["en".to_string(), "fr".to_string()],
    };
    assert_eq!(select_langs(&available, &["  ".into()]), vec!["en"]);
    assert_eq!(select_langs(&available, &[]), vec!["en"]);
}

#[test]
fn preferred_language_must_be_available() {
    let available = AvailableLangs {
        original_lang: None,
        langs: vec!["fr".to_string()],
    };
    assert!(select_langs(&available, &["de".into()]).is_empty());
    assert_eq!(select_langs(&available, &[" fr ".into()]), vec!["fr"]);
}

#[test]
fn infers_other_scripts() {
    assert_eq!(infer_lang_from_text("안녕하세요"), Some("ko"));
    assert_eq!(infer_lang_from_text("ひらがな"), Some("ja"));
    assert_eq!(infer_lang_from_text("中文"), Some("zh"));
    assert_eq!(infer_lang_from_text("plain title"), None);
}

#[test]
fn canonical_drops_orig_suffix() {
    assert_eq!(canonical_lang("vi-orig"), "vi");
    assert_eq!(canonical_lang("en"), "en");
}

#[test]
fn non_empty_trims() {
    assert_eq!(non_empty(Some("  chrome ")), Some("chrome".to_string()));
    assert_eq!(non_empty(Some("   ")), None);
    assert_eq!(non_empty(None), None);
}

#[test]
fn safe_lang_replaces_non_alphanumerics() {
    assert_eq!(safe_lang("zh-Hans.x"), "zh-Hans-x");
}

#[test]
fn strip_tags_drops_markup() {
    assert_eq!(strip_tags("Hello<00:00:01.500><c> world</c>"), "Hello world");
}

#[test]
fn cookie_options_become_ytdlp_arguments() {
    let options = FetchOptions {
        cookies_from_browser: Some("  firefox ".into()),
        cookies: Some("/tmp/cookies.txt".into()),
    };
    assert_eq!(
        ytdlp_option_args(&options),
        vec![
            "--cookies-from-browser".to_string(),
            "firefox".to_string(),
            "--cookies".to_string(),
            "/tmp/cookies.txt".to_string(),
        ]
    );
}

#[test]
fn blank_cookie_options_add_nothing() {
    let options = FetchOptions { cookies_from_browser: Some("   ".into()), cookies: None };
    assert!(ytdlp_option_args(&options).is_empty());
    assert!(ytdlp_option_args(&FetchOptions::default()).is_empty());
}
