use ytmtui::app::normalize_path_input;

#[test]
fn strips_double_quotes() {
    assert_eq!(
        normalize_path_input("\"/foo/bar baz.webm\""),
        "/foo/bar baz.webm"
    );
}

#[test]
fn strips_single_quotes() {
    assert_eq!(
        normalize_path_input("'/foo/bar baz.webm'"),
        "/foo/bar baz.webm"
    );
}

#[test]
fn unescapes_shell_spaces_and_parens() {
    assert_eq!(
        normalize_path_input(r"/foo/Main\ Title\ \(2024\).webm"),
        "/foo/Main Title (2024).webm"
    );
}

#[test]
fn keeps_unrelated_backslashes() {
    // Windows-style separators must survive.
    assert_eq!(normalize_path_input(r"C:\Users\foo"), r"C:\Users\foo");
}

#[test]
fn decodes_file_uri() {
    assert_eq!(
        normalize_path_input("file:///foo/Main%20Title.webm"),
        "/foo/Main Title.webm"
    );
    assert_eq!(
        normalize_path_input("file://localhost/foo/Main%20Title.webm"),
        "/foo/Main Title.webm"
    );
}

#[test]
fn keeps_full_width_chars() {
    // Quotes stripped, full-width punctuation preserved.
    assert_eq!(
        normalize_path_input("\"/tmp/Arknights： ｜ Theme.webm\""),
        "/tmp/Arknights： ｜ Theme.webm"
    );
}

#[test]
fn passthrough_plain_path() {
    assert_eq!(normalize_path_input("/foo/bar.webm"), "/foo/bar.webm");
}

#[test]
fn trims_whitespace() {
    assert_eq!(normalize_path_input("  /foo/bar.webm  "), "/foo/bar.webm");
}

#[test]
fn strips_smart_quotes_and_backticks() {
    assert_eq!(normalize_path_input("\u{201C}/a b\u{201D}"), "/a b");
    assert_eq!(normalize_path_input("\u{2018}/a\u{2019}"), "/a");
    assert_eq!(normalize_path_input("`/a`"), "/a");
}

#[test]
fn single_quote_char_is_not_stripped() {
    assert_eq!(normalize_path_input("\""), "\"");
}

#[test]
fn percent_escape_needs_two_hex_digits() {
    assert_eq!(normalize_path_input("file:///a%2"), "/a%2");
    assert_eq!(normalize_path_input("file:///a%zz.b"), "/a%zz.b");
    assert_eq!(normalize_path_input("file:///%41%62"), "/Ab");
}

#[test]
fn invalid_utf8_after_decoding_becomes_replacement_char() {
    assert_eq!(normalize_path_input("file:///a%FFb"), "/a\u{FFFD}b");
}

#[test]
fn fuzzy_key_collapses_spaces_and_lowercases() {
    assert_eq!(ytmtui::app::fuzzy_key("  Main   Title\t(2024) "), "main title (2024)");
    assert_eq!(ytmtui::app::fuzzy_key("ÀB"), "àb");
}
