//! Application state and the decisions the player makes on it.
//! This file starts with the helpers that clean up typed or pasted input.

use vstd::prelude::*;
use vstd::string::StringSliceAdditionalSpecFns;
use vstd::utf8::{decode_utf8, encode_utf8, is_char_boundary, valid_utf8};

use crate::audio::{DeviceView, OutputDevice};
use crate::config::{Config, ConfigView, LoopMode};
use crate::library::{EntryView, PlaylistLibrary};
use crate::playlist::Playlist;
use crate::sprites::{Registry, SpriteView};
use crate::ytdlp::{opt_view, Platform, Track, TrackView};
use crate::text::{
    dec, push_dec, char_lowercase, char_to_lowercase, copy_range, has_prefix, is_whitespace, is_ws, push_chars,
    push_str, starts_with, str_chars, string_from_chars, to_uppercase, trim, trim_chars, uppercase,
};

verus! {

broadcast use vstd::utf8::encode_utf8_decode_utf8;

/// What the interface is doing: browsing, or one of its input modes and
/// overlays.
#[derive(Debug, Clone, Copy, PartialEq, Eq, Structural)]
pub enum Mode {
    Browse,
    Searching,
    Help,
    Params,
    Nerd,
    OpenFile,
    YtPlaylistInput,
    SavePlaylist,
}

/// The lists Tab cycles through: search results, the saved-playlist pane,
/// the tracks of the active playlist, and the scanned local folder.
#[derive(Debug, Clone, Copy, PartialEq, Eq, Structural)]
pub enum ListFocus {
    Results,
    YtLibrary,
    YtPlaylist,
    LocalFolder,
}

/// Which library row feeds the tracks pane: the live unsaved list, or
/// saved entry `i`.
#[derive(Debug, Clone, Copy, PartialEq, Eq, Structural)]
pub enum ActiveLibrary {
    Unsaved,
    Saved(usize),
}

/// State of the closed-captions strip.
#[derive(Debug, Clone, Copy, PartialEq, Eq, Structural)]
pub enum CaptionStatus {
    Idle,
    Loading,
    Ready,
    /// The track has no captions.
    Empty,
    Error,
}

// ---------------------------------------------------------------------
// Cleaning up a pasted path
// ---------------------------------------------------------------------

/// The closing quote that pairs with an opening quote character, for the
/// quote styles a paste may carry: ASCII double and single quotes, smart
/// double and single quotes, and backticks.
pub open spec fn closing_quote(c: char) -> Option<char> {
    if c == '"' {
        Some('"')
    } else if c == '\'' {
        Some('\'')
    } else if c == '\u{201C}' {
        Some('\u{201D}')
    } else if c == '\u{2018}' {
        Some('\u{2019}')
    } else if c == '`' {
        Some('`')
    } else {
        None
    }
}

/// `s` without one pair of matching surrounding quotes, if it has one.
pub open spec fn strip_quotes(s: Seq<char>) -> Seq<char> {
    if s.len() >= 2 && closing_quote(s[0]) == Some(s.last()) {
        s.subrange(1, s.len() - 1)
    } else {
        s
    }
}

fn closing_quote_of(c: char) -> (r: Option<char>)
    ensures
        r == closing_quote(c),
{
    if c == '"' {
        Some('"')
    } else if c == '\'' {
        Some('\'')
    } else if c == '\u{201C}' {
        Some('\u{201D}')
    } else if c == '\u{2018}' {
        Some('\u{2019}')
    } else if c == '`' {
        Some('`')
    } else {
        None
    }
}

fn strip_outer_quotes(s: &[char]) -> (r: Vec<char>)
    ensures
        r@ == strip_quotes(s@),
{
    let n = s.len();
    if n >= 2 {
        if let Some(close) = closing_quote_of(s[0]) {
            if s[n - 1] == close {
                return copy_range(s, 1, n - 1);
            }
        }
    }
    copy_range(s, 0, n)
}

/// Characters that a shell escapes with a backslash.
pub open spec fn is_shell_meta(c: char) -> bool {
    c == ' ' || c == '(' || c == ')' || c == '[' || c == ']' || c == '{' || c == '}' || c == '\''
        || c == '"' || c == '\\' || c == '&' || c == ';' || c == '`' || c == '$' || c == '!' || c
        == '*' || c == '?'
}

fn shell_meta(c: char) -> (r: bool)
    ensures
        r == is_shell_meta(c),
{
    c == ' ' || c == '(' || c == ')' || c == '[' || c == ']' || c == '{' || c == '}' || c == '\''
        || c == '"' || c == '\\' || c == '&' || c == ';' || c == '`' || c == '$' || c == '!' || c
        == '*' || c == '?'
}

/// `s` with each backslash that escapes a shell metacharacter dropped;
/// other backslashes (Windows separators, say) stay.
pub open spec fn unescape(s: Seq<char>) -> Seq<char>
    decreases s.len(),
{
    if s.len() == 0 {
        Seq::empty()
    } else if s[0] == '\\' && s.len() >= 2 && is_shell_meta(s[1]) {
        seq![s[1]] + unescape(s.skip(2))
    } else {
        seq![s[0]] + unescape(s.skip(1))
    }
}

fn unescape_shell(s: &[char]) -> (r: Vec<char>)
    ensures
        r@ == unescape(s@),
{
    let mut out: Vec<char> = Vec::new();
    let mut i: usize = 0;
    assert(s@.skip(0) =~= s@);
    while i < s.len()
        invariant
            i <= s@.len(),
            unescape(s@) == out@ + unescape(s@.skip(i as int)),
        decreases s@.len() - i,
    {
        let c = s[i];
        if c == '\\' && i + 1 < s.len() && shell_meta(s[i + 1]) {
            assert(s@.skip(i as int).skip(2) =~= s@.skip(i + 2));
            out.push(s[i + 1]);
            i += 2;
        } else {
            assert(s@.skip(i as int).skip(1) =~= s@.skip(i + 1));
            out.push(c);
            i += 1;
        }
    }
    assert(s@.skip(i as int) =~= Seq::<char>::empty());
    assert(out@ + Seq::<char>::empty() =~= out@);
    out
}

/// Value of a hexadecimal digit byte, as `char::to_digit(16)` gives it.
pub open spec fn hex_value(b: u8) -> Option<u8> {
    if 48 <= b <= 57 {
        Some((b - 48) as u8)
    } else if 97 <= b <= 102 {
        Some((b - 87) as u8)
    } else if 65 <= b <= 70 {
        Some((b - 55) as u8)
    } else {
        None
    }
}

fn hex_digit(b: u8) -> (r: Option<u8>)
    ensures
        r == hex_value(b),
{
    if 48 <= b && b <= 57 {
        Some(b - 48)
    } else if 97 <= b && b <= 102 {
        Some(b - 87)
    } else if 65 <= b && b <= 70 {
        Some(b - 55)
    } else {
        None
    }
}

/// `b` with each `%XY` (two hex digits) replaced by the byte it names.
pub open spec fn pct_decode(b: Seq<u8>) -> Seq<u8>
    decreases b.len(),
{
    if b.len() == 0 {
        Seq::empty()
    } else if b[0] == 37 && b.len() >= 3 && hex_value(b[1]) is Some && hex_value(b[2]) is Some {
        seq![(hex_value(b[1])->0 * 16 + hex_value(b[2])->0) as u8] + pct_decode(b.skip(3))
    } else {
        seq![b[0]] + pct_decode(b.skip(1))
    }
}

/// What `String::from_utf8_lossy` returns for bytes `b`.
pub uninterp spec fn utf8_lossy(b: Seq<u8>) -> Seq<char>;

/// Calls `String::from_utf8_lossy`. Claims that the result depends on the
/// bytes alone, and that valid UTF-8 comes back unchanged, as its
/// documentation says; how invalid sequences are replaced is not restated.
#[verifier::external_body]
pub(crate) fn from_utf8_lossy(b: &[u8]) -> (r: String)
    ensures
        r@ == utf8_lossy(b@),
        valid_utf8(b@) ==> r@ == decode_utf8(b@),
{
    String::from_utf8_lossy(b).into_owned()
}

fn percent_decode_bytes(b: &[u8]) -> (r: Vec<u8>)
    ensures
        r@ == pct_decode(b@),
{
    let mut out: Vec<u8> = Vec::new();
    let mut i: usize = 0;
    assert(b@.skip(0) =~= b@);
    while i < b.len()
        invariant
            i <= b@.len(),
            pct_decode(b@) == out@ + pct_decode(b@.skip(i as int)),
        decreases b@.len() - i,
    {
        let ghost rest = b@.skip(i as int);
        if b[i] == 37 && b.len() - i >= 3 {
            let hi = hex_digit(b[i + 1]);
            let lo = hex_digit(b[i + 2]);
            if let (Some(x), Some(y)) = (hi, lo) {
                assert(rest[1] == b@[i + 1] && rest[2] == b@[i + 2]);
                assert(rest.skip(3) =~= b@.skip(i + 3));
                out.push(x * 16 + y);
                i += 3;
                continue;
            }
        }
        assert(rest.skip(1) =~= b@.skip(i + 1));
        assert(rest[0] == b@[i as int]);
        out.push(b[i]);
        i += 1;
    }
    assert(b@.skip(i as int) =~= Seq::<u8>::empty());
    assert(out@ + Seq::<u8>::empty() =~= out@);
    out
}

/// Percent-decoding of the UTF-8 encoding of `s`, read back leniently.
pub open spec fn percent_decoded(s: Seq<char>) -> Seq<char> {
    utf8_lossy(pct_decode(encode_utf8(s)))
}

fn percent_decode(s: &str) -> (r: String)
    ensures
        r@ == percent_decoded(s@),
        valid_utf8(pct_decode(encode_utf8(s@))) ==> r@ == decode_utf8(pct_decode(encode_utf8(s@))),
{
    let bytes = s.as_bytes();
    let out = percent_decode_bytes(bytes);
    from_utf8_lossy(out.as_slice())
}

/// For a pasted `file://` URI (after trimming and removing one pair of
/// surrounding quotes; optionally naming `localhost`), the bytes its path
/// percent-decodes to.
pub open spec fn file_uri_bytes(raw: Seq<char>) -> Option<Seq<u8>> {
    let u = strip_quotes(trim(raw));
    if starts_with(u, "file://"@) {
        let rest = u.skip(7);
        let after = if starts_with(rest, "localhost"@) {
            rest.skip(9)
        } else {
            rest
        };
        Some(pct_decode(encode_utf8(after)))
    } else {
        None
    }
}

/// The cleaned-up form of a pasted path: trimmed, one pair of surrounding
/// quotes removed; then a `file://` URI is percent-decoded and read back
/// as UTF-8, and anything else has its shell escapes undone.
pub open spec fn normalized_path(raw: Seq<char>) -> Seq<char> {
    match file_uri_bytes(raw) {
        Some(b) => utf8_lossy(b),
        None => unescape(strip_quotes(trim(raw))),
    }
}

proof fn lemma_unescape_plain(s: Seq<char>)
    requires
        forall|i: int| 0 <= i < s.len() ==> #[trigger] s[i] != '\\',
    ensures
        unescape(s) == s,
    decreases s.len(),
{
    if s.len() > 0 {
        assert forall|i: int| 0 <= i < s.skip(1).len() implies #[trigger] s.skip(1)[i] != '\\' by {
            assert(s.skip(1)[i] == s[i + 1]);
        }
        lemma_unescape_plain(s.skip(1));
        assert(seq![s[0]] + s.skip(1) =~= s);
    }
}

/// A path typed plainly (no surrounding whitespace or quotes, no
/// backslash, not a `file://` URI) comes out of the clean-up unchanged.
pub proof fn lemma_plain_path_unchanged(s: Seq<char>)
    requires
        trim(s) == s,
        !(s.len() >= 2 && closing_quote(s[0]) == Some(s.last())),
        !starts_with(s, "file://"@),
        forall|i: int| 0 <= i < s.len() ==> #[trigger] s[i] != '\\',
    ensures
        normalized_path(s) == s,
{
    lemma_unescape_plain(s);
}

proof fn lemma_unescape_prefix(p: Seq<char>, x: Seq<char>)
    requires
        forall|i: int| 0 <= i < p.len() ==> #[trigger] p[i] != '\\',
    ensures
        unescape(p + x) == p + unescape(x),
    decreases p.len(),
{
    if p.len() == 0 {
        assert(p + x =~= x);
        assert(p + unescape(x) =~= unescape(x));
    } else {
        let s = p + x;
        assert(s[0] == p[0]);
        assert(s.skip(1) =~= p.skip(1) + x);
        assert forall|i: int| 0 <= i < p.skip(1).len() implies #[trigger] p.skip(1)[i] != '\\' by {
            assert(p.skip(1)[i] == p[i + 1]);
        }
        lemma_unescape_prefix(p.skip(1), x);
        assert(seq![p[0]] + (p.skip(1) + unescape(x)) =~= p + unescape(x));
    }
}

/// A backslash before a shell metacharacter (space ( ) [ ] { } ' " \\ & ; `
/// $ ! * ?) is dropped and the character kept; what follows is cleaned up
/// on its own.
pub proof fn lemma_unescape_meta(c: char, rest: Seq<char>)
    requires
        c == ' ' || c == '(' || c == ')' || c == '[' || c == ']' || c == '{' || c == '}' || c == '\''
            || c == '"' || c == '\\' || c == '&' || c == ';' || c == '`' || c == '$' || c == '!'
            || c == '*' || c == '?',
    ensures
        unescape(seq!['\\', c] + rest) == seq![c] + unescape(rest),
{
    let s = seq!['\\', c] + rest;
    assert(s[0] == '\\' && s[1] == c);
    assert(s.skip(2) =~= rest);
}

/// A plainly typed path with one shell-escaped metacharacter comes out of
/// the clean-up with that backslash gone and everything else as typed.
pub proof fn lemma_escaped_path(p: Seq<char>, c: char, q: Seq<char>)
    requires
        c == ' ' || c == '(' || c == ')' || c == '[' || c == ']' || c == '{' || c == '}' || c == '\''
            || c == '"' || c == '\\' || c == '&' || c == ';' || c == '`' || c == '$' || c == '!'
            || c == '*' || c == '?',
        forall|i: int| 0 <= i < p.len() ==> #[trigger] p[i] != '\\',
        forall|i: int| 0 <= i < q.len() ==> #[trigger] q[i] != '\\',
        trim(p + seq!['\\', c] + q) == p + seq!['\\', c] + q,
        !((p + seq!['\\', c] + q).len() >= 2 && closing_quote((p + seq!['\\', c] + q)[0]) == Some(
            (p + seq!['\\', c] + q).last(),
        )),
        !starts_with(p + seq!['\\', c] + q, "file://"@),
    ensures
        normalized_path(p + seq!['\\', c] + q) == p + seq![c] + q,
{
    let s = p + seq!['\\', c] + q;
    assert(s =~= p + (seq!['\\', c] + q));
    lemma_unescape_prefix(p, seq!['\\', c] + q);
    lemma_unescape_meta(c, q);
    lemma_unescape_plain(q);
    assert(p + (seq![c] + q) =~= p + seq![c] + q);
}

/// Massages copy-paste artifacts out of a path string before it reaches
/// the filesystem.
pub fn normalize_path_input(raw: &str) -> (r: String)
    ensures
        r@ == normalized_path(raw@),
        match file_uri_bytes(raw@) {
            Some(b) => valid_utf8(b) ==> r@ == decode_utf8(b),
            None => true,
        },
{
    let chars = str_chars(raw);
    let trimmed = trim_chars(chars.as_slice());
    let unquoted = strip_outer_quotes(trimmed.as_slice());
    let file_prefix = str_chars("file://");
    proof {
        reveal_strlit("file://");
        reveal_strlit("localhost");
    }
    if has_prefix(unquoted.as_slice(), file_prefix.as_slice()) {
        let rest = copy_range(unquoted.as_slice(), 7, unquoted.len());
        assert(rest@ =~= unquoted@.skip(7));
        let host = str_chars("localhost");
        let after = if has_prefix(rest.as_slice(), host.as_slice()) {
            let a = copy_range(rest.as_slice(), 9, rest.len());
            assert(a@ =~= rest@.skip(9));
            a
        } else {
            rest
        };
        let after_str = string_from_chars(after.as_slice());
        return percent_decode(after_str.as_str());
    }
    let out = unescape_shell(unquoted.as_slice());
    string_from_chars(out.as_slice())
}

// ---------------------------------------------------------------------
// Fuzzy file-name matching, search filters, labels, shuffle
// ---------------------------------------------------------------------

/// Runs of whitespace collapsed to one space (`prev_space` says whether
/// the text before `s` ended in one), everything else lower-cased.
pub open spec fn collapse(s: Seq<char>, prev_space: bool) -> Seq<char>
    decreases s.len(),
{
    if s.len() == 0 {
        Seq::empty()
    } else if is_ws(s[0]) {
        (if prev_space {
            Seq::empty()
        } else {
            seq![' ']
        }) + collapse(s.skip(1), true)
    } else {
        char_lowercase(s[0]) + collapse(s.skip(1), false)
    }
}

/// The key under which two file names count as the same: whitespace runs
/// collapsed, lower-cased, trimmed.
pub open spec fn fuzzy_key_of(s: Seq<char>) -> Seq<char> {
    trim(collapse(s, false))
}

pub fn fuzzy_key(s: &str) -> (r: String)
    ensures
        r@ == fuzzy_key_of(s@),
{
    let v = str_chars(s);
    let mut out: Vec<char> = Vec::new();
    let mut prev_space = false;
    let mut i: usize = 0;
    assert(v@.skip(0) =~= v@);
    while i < v.len()
        invariant
            i <= v@.len(),
            collapse(v@, false) == out@ + collapse(v@.skip(i as int), prev_space),
        decreases v@.len() - i,
    {
        let c = v[i];
        let ghost rest = v@.skip(i as int);
        assert(rest.skip(1) =~= v@.skip(i + 1));
        assert(rest[0] == c);
        if is_whitespace(c) {
            if !prev_space {
                out.push(' ');
            }
            assert(out@ + collapse(rest.skip(1), true) =~= old_out_plus(
                prev_space,
                out@,
                collapse(rest.skip(1), true),
            ));
            prev_space = true;
        } else {
            let lower = char_to_lowercase(c);
            let ghost before = out@;
            push_chars(&mut out, lower.as_slice());
            assert(before + (char_lowercase(c) + collapse(rest.skip(1), false)) =~= out@
                + collapse(rest.skip(1), false));
            prev_space = false;
        }
        i += 1;
    }
    assert(v@.skip(i as int) =~= Seq::<char>::empty());
    assert(out@ + Seq::<char>::empty() =~= out@);
    let t = trim_chars(out.as_slice());
    string_from_chars(t.as_slice())
}

spec fn old_out_plus(prev_space: bool, out: Seq<char>, rest: Seq<char>) -> Seq<char> {
    out + rest
}

/// Index of the first whitespace character of `s`, or its length.
pub open spec fn ws_index(s: Seq<char>) -> nat
    decreases s.len(),
{
    if s.len() == 0 {
        0
    } else if is_ws(s[0]) {
        0
    } else {
        1 + ws_index(s.skip(1))
    }
}

pub(crate) proof fn lemma_ws_index_bound(s: Seq<char>)
    ensures
        ws_index(s) <= s.len(),
        ws_index(s) < s.len() ==> is_ws(s[ws_index(s) as int]),
    decreases s.len(),
{
    if s.len() > 0 && !is_ws(s[0]) {
        lemma_ws_index_bound(s.skip(1));
    }
}

pub(crate) fn first_ws(s: &[char]) -> (r: usize)
    ensures
        r == ws_index(s@),
{
    let mut i: usize = 0;
    assert(s@.skip(0) =~= s@);
    while i < s.len() && !is_whitespace(s[i])
        invariant
            i <= s@.len(),
            ws_index(s@) == i + ws_index(s@.skip(i as int)),
        decreases s@.len() - i,
    {
        assert(s@.skip(i as int).skip(1) =~= s@.skip(i + 1));
        i += 1;
    }
    i
}

/// The platforms a search queries and the query text: a leading `#Y`,
/// `#B` or `#home` token (and their longer spellings, any case) scopes the
/// search to one platform; anything else searches all three.
pub open spec fn search_filter(input: Seq<char>) -> (Seq<Platform>, Seq<char>) {
    let t = trim(input);
    let k = ws_index(t);
    let rest = if k < t.len() {
        trim(t.skip(k + 1 as int))
    } else {
        Seq::empty()
    };
    let up = uppercase(t.take(k as int));
    if up == "#Y"@ || up == "#YT"@ || up == "#YOUTUBE"@ {
        (seq![Platform::YouTube], rest)
    } else if up == "#B"@ || up == "#BILI"@ || up == "#BILIBILI"@ {
        (seq![Platform::Bilibili], rest)
    } else if up == "#H"@ || up == "#HOME"@ || up == "#LOCAL"@ {
        (seq![Platform::Local], rest)
    } else {
        (seq![Platform::YouTube, Platform::Bilibili, Platform::Local], t)
    }
}

pub fn parse_search_filter(input: &str) -> (r: (Vec<Platform>, String))
    ensures
        r.0@ == search_filter(input@).0,
        r.1@ == search_filter(input@).1,
{
    let v = str_chars(input);
    let t = trim_chars(v.as_slice());
    let k = first_ws(t.as_slice());
    proof {
        lemma_ws_index_bound(t@);
    }
    let rest: Vec<char> = if k < t.len() {
        let tail = copy_range(t.as_slice(), k + 1, t.len());
        assert(tail@ =~= t@.skip(k + 1));
        trim_chars(tail.as_slice())
    } else {
        Vec::new()
    };
    let first = copy_range(t.as_slice(), 0, k);
    assert(first@ =~= t@.take(k as int));
    let first_s = string_from_chars(first.as_slice());
    let up = to_uppercase(first_s.as_str());
    let u = up.as_str();
    let rest_s = string_from_chars(rest.as_slice());
    if crate::text::str_eq(u, "#Y") || crate::text::str_eq(u, "#YT") || crate::text::str_eq(u, "#YOUTUBE") {
        (vec![Platform::YouTube], rest_s)
    } else if crate::text::str_eq(u, "#B") || crate::text::str_eq(u, "#BILI") || crate::text::str_eq(u, "#BILIBILI") {
        (vec![Platform::Bilibili], rest_s)
    } else if crate::text::str_eq(u, "#H") || crate::text::str_eq(u, "#HOME") || crate::text::str_eq(u, "#LOCAL") {
        (vec![Platform::Local], rest_s)
    } else {
        let r = vec![Platform::YouTube, Platform::Bilibili, Platform::Local];
        assert(r@ =~= seq![Platform::YouTube, Platform::Bilibili, Platform::Local]);
        (r, string_from_chars(t.as_slice()))
    }
}

/// Short platform name used in status messages.
pub open spec fn platform_short_name(p: Platform) -> Seq<char> {
    match p {
        Platform::YouTube => "YT"@,
        Platform::Bilibili => "B"@,
        Platform::Local => "local"@,
    }
}

pub fn platform_short(p: Platform) -> (r: &'static str)
    ensures
        r@ == platform_short_name(p),
{
    match p {
        Platform::YouTube => "YT",
        Platform::Bilibili => "B",
        Platform::Local => "local",
    }
}

/// A library title cut to its first 60 bytes, with an ellipsis.
pub open spec fn short_label_of(title: Seq<char>) -> Seq<char> {
    let b = encode_utf8(title);
    if b.len() > 60 {
        decode_utf8(b.take(60)) + "…"@
    } else {
        title
    }
}

/// Byte 60 of the title is where a character starts (or there are no more
/// than 60 bytes), so that cutting there is possible.
pub open spec fn short_label_cuttable(title: Seq<char>) -> bool {
    encode_utf8(title).len() > 60 ==> is_char_boundary(encode_utf8(title), 60)
}

pub fn short_label(entry: &crate::library::PlaylistEntry) -> (r: String)
    requires
        short_label_cuttable(entry.title@),
    ensures
        r@ == short_label_of(entry.title@),
{
    let t = entry.title.as_str();
    let bytes = t.as_bytes();
    if bytes.len() > 60 {
        let (head, _tail) = t.split_at(60);
        assert(head@ == decode_utf8(head.spec_bytes()));
        assert(head.spec_bytes() =~= encode_utf8(entry.title@).take(60));
        let mut out = str_chars(head);
        push_str(&mut out, "…");
        string_from_chars(out.as_slice())
    } else {
        entry.title.clone()
    }
}

/// One step of the xorshift generator used for shuffle.
pub open spec fn xorshift(s: u64) -> u64 {
    let a = s ^ (s << 13u64);
    let b = a ^ (a >> 7u64);
    b ^ (b << 17u64)
}

pub fn xorshift_step(s: u64) -> (r: u64)
    ensures
        r == xorshift(s),
{
    let mut s = s;
    s ^= s << 13u64;
    s ^= s >> 7u64;
    s ^= s << 17u64;
    s
}

/// The shuffle pick: `rand` reduced mod `n`, bumped by one when it lands on
/// `except`.
pub open spec fn index_excluding(n: usize, except: usize, rand: u64) -> usize {
    if n <= 1 {
        0
    } else {
        let idx = ((rand as usize) % n) as usize;
        if idx == except {
            ((idx + 1) % (n as int)) as usize
        } else {
            idx
        }
    }
}

pub fn rand_index_excluding(n: usize, except: usize, rand: u64) -> (r: usize)
    ensures
        r == index_excluding(n, except, rand),
{
    if n <= 1 {
        return 0;
    }
    let mut idx = (rand as usize) % n;
    if idx == except {
        idx = (idx + 1) % n;
    }
    idx
}

/// A shuffle pick is a valid index, and with two or more tracks it never
/// replays the current one.
pub proof fn lemma_shuffle_pick(n: usize, except: usize, rand: u64)
    requires
        n >= 1,
    ensures
        index_excluding(n, except, rand) < n,
        n >= 2 ==> index_excluding(n, except, rand) != except,
{
    if n >= 2 {
        let idx = ((rand as usize) % n) as usize;
        if idx == except {
            if idx + 1 < n {
                assert((idx + 1) % (n as int) == idx + 1) by (nonlinear_arith)
                    requires
                        0 <= idx + 1 < n,
                ;
            } else {
                assert((idx + 1) % (n as int) == 0) by (nonlinear_arith)
                    requires
                        idx + 1 == n,
                        n >= 2,
                ;
            }
        }
    }
}

// ---------------------------------------------------------------------
// Application state
// ---------------------------------------------------------------------

/// Where the playback queue was taken from.
#[derive(Debug)]
pub enum QueueSource {
    Results,
    Unsaved,
    Saved { name: String },
    LocalFolder,
}

pub enum QueueSourceView {
    Results,
    Unsaved,
    Saved(Seq<char>),
    LocalFolder,
}

impl View for QueueSource {
    type V = QueueSourceView;

    open spec fn view(&self) -> QueueSourceView {
        match self {
            QueueSource::Results => QueueSourceView::Results,
            QueueSource::Unsaved => QueueSourceView::Unsaved,
            QueueSource::Saved { name } => QueueSourceView::Saved(name@),
            QueueSource::LocalFolder => QueueSourceView::LocalFolder,
        }
    }
}

/// A finished search: the query it ran for and its tracks or error text.
pub enum SearchEvent {
    Done(String, Result<Vec<Track>, String>),
}

/// A finished playlist fetch: its URL and its tracks or error text.
pub enum YtPlaylistEvent {
    Done(String, Result<Vec<Track>, String>),
}

/// A finished folder scan: the folder and the tracks found.
pub enum LocalFolderEvent {
    Done(String, Vec<Track>),
}

/// Probed durations: (track id, seconds). Local track ids are absolute
/// paths, so one value fills duplicates across lists.
pub enum DurationBackfillEvent {
    Done(Vec<(String, u64)>),
}

/// Work for the program to carry out after a state change, in order.
#[derive(Debug)]
pub enum Effect {
    /// Write the unsaved playlist; on failure, report it only if `report`.
    SavePlaylist { report: bool },
    SaveYtPlaylist { report: bool },
    SaveLocalFolder { report: bool },
    /// Write the settings; what a failure (or success) reports is `note`.
    SaveConfig { note: ConfigNote },
    /// Write the library; failures are not reported.
    SaveLibrary,
    /// Set the player's volume.
    SetVolume(u8),
    /// Show the volume pop-up for `ms` milliseconds.
    ShowVolume { ms: u64 },
    /// Load `url` into the player; see [`App::after_load`].
    Load { url: String, ok_status: String, mark_added: bool },
    /// Drop the caption cues held for the previous track.
    ClearCaptions,
    /// Fetch captions for a track.
    FetchCaptions { track_id: String },
    /// Run a search on a streaming platform for up to `limit` results.
    Search { query: String, platform: Platform, limit: u64 },
    /// Fetch a remote playlist.
    FetchPlaylist { url: String },
    /// Scan a folder for playable files.
    ScanFolder { path: String },
    TogglePause,
    SetPause(bool),
    /// Seek by this many seconds.
    Seek(i64),
    /// Put a URL on the clipboard; see [`App::after_copy`].
    CopyUrl { url: String },
}

/// What a settings write reports.
#[derive(Debug)]
pub enum ConfigNote {
    /// Nothing on success; `config write failed: ..` on failure.
    Plain,
    /// Nothing either way (a later message replaces it).
    Silent,
    /// `Cursor: <name>`, or `Saved cursor (config write failed: ..)`.
    Cursor(String),
    /// `CC language: <lang>`, or `Saved CC lang (config write failed: ..)`.
    CaptionLang(String),
}

pub enum ConfigNoteView {
    Plain,
    Silent,
    Cursor(Seq<char>),
    CaptionLang(Seq<char>),
}

pub enum EffectView {
    SavePlaylist { report: bool },
    SaveYtPlaylist { report: bool },
    SaveLocalFolder { report: bool },
    SaveConfig { note: ConfigNoteView },
    SaveLibrary,
    SetVolume(u8),
    ShowVolume { ms: u64 },
    Load { url: Seq<char>, ok_status: Seq<char>, mark_added: bool },
    ClearCaptions,
    FetchCaptions { track_id: Seq<char> },
    Search { query: Seq<char>, platform: Platform, limit: u64 },
    FetchPlaylist { url: Seq<char> },
    ScanFolder { path: Seq<char> },
    TogglePause,
    SetPause(bool),
    Seek(i64),
    CopyUrl { url: Seq<char> },
}

impl View for ConfigNote {
    type V = ConfigNoteView;

    open spec fn view(&self) -> ConfigNoteView {
        match self {
            ConfigNote::Plain => ConfigNoteView::Plain,
            ConfigNote::Silent => ConfigNoteView::Silent,
            ConfigNote::Cursor(n) => ConfigNoteView::Cursor(n@),
            ConfigNote::CaptionLang(l) => ConfigNoteView::CaptionLang(l@),
        }
    }
}

impl DeepView for Effect {
    type V = EffectView;

    open spec fn deep_view(&self) -> EffectView {
        match self {
            Effect::SavePlaylist { report } => EffectView::SavePlaylist { report: *report },
            Effect::SaveYtPlaylist { report } => EffectView::SaveYtPlaylist { report: *report },
            Effect::SaveLocalFolder { report } => EffectView::SaveLocalFolder { report: *report },
            Effect::SaveConfig { note } => EffectView::SaveConfig { note: note@ },
            Effect::SaveLibrary => EffectView::SaveLibrary,
            Effect::SetVolume(v) => EffectView::SetVolume(*v),
            Effect::ShowVolume { ms } => EffectView::ShowVolume { ms: *ms },
            Effect::Load { url, ok_status, mark_added } => EffectView::Load {
                url: url@,
                ok_status: ok_status@,
                mark_added: *mark_added,
            },
            Effect::ClearCaptions => EffectView::ClearCaptions,
            Effect::FetchCaptions { track_id } => EffectView::FetchCaptions { track_id: track_id@ },
            Effect::Search { query, platform, limit } => EffectView::Search {
                query: query@,
                platform: *platform,
                limit: *limit,
            },
            Effect::FetchPlaylist { url } => EffectView::FetchPlaylist { url: url@ },
            Effect::ScanFolder { path } => EffectView::ScanFolder { path: path@ },
            Effect::TogglePause => EffectView::TogglePause,
            Effect::SetPause(b) => EffectView::SetPause(*b),
            Effect::Seek(s) => EffectView::Seek(*s),
            Effect::CopyUrl { url } => EffectView::CopyUrl { url: url@ },
        }
    }
}

/// The player's state: lists, selections, queue, modes and settings. The
/// program around it owns the audio player, the background workers and the
/// screen, performs the [`Effect`]s its methods return, and feeds results
/// back through the `after_*` and `on_*` methods.
pub struct App {
    pub mode: Mode,
    pub query: String,
    pub results: Vec<Track>,
    pub selected: usize,
    pub queue: Vec<Track>,
    pub queue_source: QueueSource,
    pub current: Option<usize>,
    pub status: String,
    pub searching: bool,
    pub should_quit: bool,
    pub show_captions: bool,
    pub caption_status: CaptionStatus,
    pub captions_track_id: Option<String>,
    pub config: Config,
    pub params_row: usize,
    pub sprites: Registry,
    pub playlist: Vec<Track>,
    pub focus: ListFocus,
    pub output_device: Option<OutputDevice>,
    pub yt_playlist: Vec<Track>,
    pub yt_playlist_selected: usize,
    pub yt_playlist_loading: bool,
    pub local_folder: Vec<Track>,
    pub local_folder_selected: usize,
    pub local_folder_scanning: bool,
    pub pending_searches: usize,
    pub current_search_query: Option<String>,
    pub library: PlaylistLibrary,
    pub library_selected: usize,
    pub active_library: ActiveLibrary,
    pub last_saved_as: Option<String>,
}

pub struct AppView {
    pub mode: Mode,
    pub query: Seq<char>,
    pub results: Seq<TrackView>,
    pub selected: usize,
    pub queue: Seq<TrackView>,
    pub queue_source: QueueSourceView,
    pub current: Option<usize>,
    pub status: Seq<char>,
    pub searching: bool,
    pub should_quit: bool,
    pub show_captions: bool,
    pub caption_status: CaptionStatus,
    pub captions_track_id: Option<Seq<char>>,
    pub config: ConfigView,
    pub params_row: usize,
    pub sprites: Seq<SpriteView>,
    pub playlist: Seq<TrackView>,
    pub focus: ListFocus,
    pub output_device: Option<DeviceView>,
    pub yt_playlist: Seq<TrackView>,
    pub yt_playlist_selected: usize,
    pub yt_playlist_loading: bool,
    pub local_folder: Seq<TrackView>,
    pub local_folder_selected: usize,
    pub local_folder_scanning: bool,
    pub pending_searches: usize,
    pub current_search_query: Option<Seq<char>>,
    pub library: Seq<EntryView>,
    pub library_selected: usize,
    pub active_library: ActiveLibrary,
    pub last_saved_as: Option<Seq<char>>,
}

impl View for App {
    type V = AppView;

    open spec fn view(&self) -> AppView {
        AppView {
            mode: self.mode,
            query: self.query@,
            results: self.results.deep_view(),
            selected: self.selected,
            queue: self.queue.deep_view(),
            queue_source: self.queue_source@,
            current: self.current,
            status: self.status@,
            searching: self.searching,
            should_quit: self.should_quit,
            show_captions: self.show_captions,
            caption_status: self.caption_status,
            captions_track_id: opt_view(self.captions_track_id),
            config: self.config@,
            params_row: self.params_row,
            sprites: self.sprites@,
            playlist: self.playlist.deep_view(),
            focus: self.focus,
            output_device: match self.output_device {
                Some(d) => Some(d@),
                None => None,
            },
            yt_playlist: self.yt_playlist.deep_view(),
            yt_playlist_selected: self.yt_playlist_selected,
            yt_playlist_loading: self.yt_playlist_loading,
            local_folder: self.local_folder.deep_view(),
            local_folder_selected: self.local_folder_selected,
            local_folder_scanning: self.local_folder_scanning,
            pending_searches: self.pending_searches,
            current_search_query: opt_view(self.current_search_query),
            library: self.library@,
            library_selected: self.library_selected,
            active_library: self.active_library,
            last_saved_as: opt_view(self.last_saved_as),
        }
    }
}

/// The Unsaved row shows in the saved-playlist pane when it has tracks.
pub open spec fn unsaved_visible_of(a: AppView) -> bool {
    a.playlist.len() > 0
}

/// Rows of the saved-playlist pane: library entries plus the Unsaved row.
pub open spec fn row_count_of(a: AppView) -> int {
    a.library.len() + if unsaved_visible_of(a) {
        1int
    } else {
        0int
    }
}

/// What row `idx` of the saved-playlist pane is: Unsaved on top when
/// visible, then the library entries.
pub open spec fn saved_row_of(a: AppView, idx: usize) -> Option<ActiveLibrary> {
    if unsaved_visible_of(a) {
        if idx == 0 {
            Some(ActiveLibrary::Unsaved)
        } else if idx - 1 < a.library.len() {
            Some(ActiveLibrary::Saved((idx - 1) as usize))
        } else {
            None
        }
    } else if idx < a.library.len() {
        Some(ActiveLibrary::Saved(idx))
    } else {
        None
    }
}

/// The tracks behind the active library row: the unsaved list, or (for a
/// saved remote playlist) the last fetched playlist.
pub open spec fn active_tracks_of(a: AppView) -> Seq<TrackView> {
    match a.active_library {
        ActiveLibrary::Unsaved => a.playlist,
        ActiveLibrary::Saved(i) => if i < a.library.len() {
            a.yt_playlist
        } else {
            Seq::empty()
        },
    }
}

/// Length of the focused list.
pub open spec fn focused_len_of(a: AppView) -> int {
    match a.focus {
        ListFocus::Results => a.results.len() as int,
        ListFocus::YtLibrary => row_count_of(a),
        ListFocus::YtPlaylist => active_tracks_of(a).len() as int,
        ListFocus::LocalFolder => a.local_folder.len() as int,
    }
}

/// Selection in the focused list.
pub open spec fn focused_selected_of(a: AppView) -> usize {
    match a.focus {
        ListFocus::Results => a.selected,
        ListFocus::YtLibrary => a.library_selected,
        ListFocus::YtPlaylist => a.yt_playlist_selected,
        ListFocus::LocalFolder => a.local_folder_selected,
    }
}

/// The tracks of the focused list (the saved-playlist pane has none).
pub open spec fn focused_tracks_of(a: AppView) -> Seq<TrackView> {
    match a.focus {
        ListFocus::Results => a.results,
        ListFocus::YtLibrary => Seq::empty(),
        ListFocus::YtPlaylist => active_tracks_of(a),
        ListFocus::LocalFolder => a.local_folder,
    }
}

/// The app with the selection of the focused list set to `v`.
pub open spec fn with_focused_selected(a: AppView, v: usize) -> AppView {
    match a.focus {
        ListFocus::Results => AppView { selected: v, ..a },
        ListFocus::YtLibrary => AppView { library_selected: v, ..a },
        ListFocus::YtPlaylist => AppView { yt_playlist_selected: v, ..a },
        ListFocus::LocalFolder => AppView { local_folder_selected: v, ..a },
    }
}

/// The focus after Tab.
pub open spec fn next_focus(f: ListFocus) -> ListFocus {
    match f {
        ListFocus::Results => ListFocus::YtLibrary,
        ListFocus::YtLibrary => ListFocus::YtPlaylist,
        ListFocus::YtPlaylist => ListFocus::LocalFolder,
        ListFocus::LocalFolder => ListFocus::Results,
    }
}

/// The focus after Shift-Tab.
pub open spec fn prev_focus(f: ListFocus) -> ListFocus {
    match f {
        ListFocus::Results => ListFocus::LocalFolder,
        ListFocus::YtLibrary => ListFocus::Results,
        ListFocus::YtPlaylist => ListFocus::YtLibrary,
        ListFocus::LocalFolder => ListFocus::YtPlaylist,
    }
}

/// Tab and Shift-Tab undo each other, and four Tabs come back around.
pub proof fn lemma_focus_cycle(f: ListFocus)
    ensures
        prev_focus(next_focus(f)) == f,
        next_focus(prev_focus(f)) == f,
        next_focus(next_focus(next_focus(next_focus(f)))) == f,
{
}

/// The selection a move by `delta` lands on: clamped to the list, with the
/// selection taken as `i32`.
pub open spec fn moved_selection(len: int, cur: usize, delta: i32) -> usize {
    let l = len;
    let n = (cur as i32) + delta;
    let n1 = if n < 0 {
        0
    } else {
        n
    };
    let n2 = if n1 >= l {
        l - 1
    } else {
        n1
    };
    n2 as usize
}

/// The status line after a track starts: position in the queue, title and
/// uploader.
pub open spec fn playing_status(idx: usize, qlen: nat, t: TrackView) -> Seq<char> {
    seq!['['] + dec((idx + 1) as nat) + seq!['/'] + dec(qlen) + "] "@ + t.title + " — "@ + t.uploader
}

pub(crate) fn vec_clone_tracks(v: &Vec<Track>) -> (r: Vec<Track>)
    ensures
        r.deep_view() == v.deep_view(),
{
    let mut out: Vec<Track> = Vec::new();
    let mut i: usize = 0;
    while i < v.len()
        invariant
            i <= v@.len(),
            out.deep_view() =~= v.deep_view().take(i as int),
        decreases v@.len() - i,
    {
        let t = v[i].clone();
        let ghost before = out.deep_view();
        out.push(t);
        assert(out.deep_view() =~= before.push(v.deep_view()[i as int]));
        i += 1;
    }
    assert(v.deep_view().take(v@.len() as int) =~= v.deep_view());
    out
}

fn slice_clone_tracks(v: &[Track]) -> (r: Vec<Track>)
    ensures
        r.deep_view() == v@.map_values(|t: Track| t@),
{
    let mut out: Vec<Track> = Vec::new();
    let mut i: usize = 0;
    while i < v.len()
        invariant
            i <= v@.len(),
            out.deep_view() =~= v@.map_values(|t: Track| t@).take(i as int),
        decreases v@.len() - i,
    {
        let t = v[i].clone();
        let ghost before = out.deep_view();
        out.push(t);
        assert(out.deep_view() =~= before.push(v@[i as int]@));
        i += 1;
    }
    out
}

impl App {
    /// The state at start-up, from the saved settings, sprites, lists and
    /// library.
    pub fn new(
        config: Config,
        sprites: Registry,
        playlist: Playlist,
        yt_playlist: Playlist,
        local_folder: Playlist,
        library: PlaylistLibrary,
    ) -> (r: App)
        ensures
            r@ == (AppView {
                mode: Mode::Browse,
                query: Seq::empty(),
                results: Seq::empty(),
                selected: 0,
                queue: Seq::empty(),
                queue_source: QueueSourceView::Unsaved,
                current: None,
                status: "Press `s` to search, `?` for help, `q` to quit."@,
                searching: false,
                should_quit: false,
                show_captions: false,
                caption_status: CaptionStatus::Idle,
                captions_track_id: None,
                config: config@,
                params_row: 0,
                sprites: sprites@,
                playlist: playlist.tracks.deep_view(),
                focus: ListFocus::Results,
                output_device: None,
                yt_playlist: yt_playlist.tracks.deep_view(),
                yt_playlist_selected: 0,
                yt_playlist_loading: false,
                local_folder: local_folder.tracks.deep_view(),
                local_folder_selected: 0,
                local_folder_scanning: false,
                pending_searches: 0,
                current_search_query: None,
                library: library@,
                library_selected: 0,
                active_library: ActiveLibrary::Unsaved,
                last_saved_as: None,
            }),
    {
        let results: Vec<Track> = Vec::new();
        let queue: Vec<Track> = Vec::new();
        assert(results.deep_view() =~= Seq::<TrackView>::empty());
        assert(queue.deep_view() =~= Seq::<TrackView>::empty());
        App {
            mode: Mode::Browse,
            query: String::new(),
            results,
            selected: 0,
            queue,
            queue_source: QueueSource::Unsaved,
            current: None,
            status: crate::text::str_to_string("Press `s` to search, `?` for help, `q` to quit."),
            searching: false,
            should_quit: false,
            show_captions: false,
            caption_status: CaptionStatus::Idle,
            captions_track_id: None,
            config,
            params_row: 0,
            sprites,
            playlist: playlist.tracks,
            focus: ListFocus::Results,
            output_device: None,
            yt_playlist: yt_playlist.tracks,
            yt_playlist_selected: 0,
            yt_playlist_loading: false,
            local_folder: local_folder.tracks,
            local_folder_selected: 0,
            local_folder_scanning: false,
            pending_searches: 0,
            current_search_query: None,
            library,
            library_selected: 0,
            active_library: ActiveLibrary::Unsaved,
            last_saved_as: None,
        }
    }

    /// What start-up asks of the player: the saved volume.
    pub fn startup_effects(&self) -> (r: Vec<Effect>)
        ensures
            effects_view(r@) == seq![EffectView::SetVolume(self@.config.volume)],
    {
        let r = vec![Effect::SetVolume(self.config.volume)];
        assert(effects_view(r@) =~= seq![EffectView::SetVolume(self@.config.volume)]);
        r
    }

    pub fn unsaved_visible(&self) -> (r: bool)
        ensures
            r == unsaved_visible_of(self@),
    {
        self.playlist.len() > 0
    }

    pub fn saved_playlist_row_count(&self) -> (r: usize)
        requires
            row_count_of(self@) <= usize::MAX,
        ensures
            r == row_count_of(self@),
    {
        self.library.entries.len() + if self.unsaved_visible() {
            1
        } else {
            0
        }
    }

    /// Maps a row of the saved-playlist pane to the Unsaved row or a
    /// library entry.
    pub fn saved_row_at(&self, idx: usize) -> (r: Option<ActiveLibrary>)
        ensures
            r == saved_row_of(self@, idx),
    {
        if self.unsaved_visible() {
            if idx == 0 {
                return Some(ActiveLibrary::Unsaved);
            }
            if idx - 1 < self.library.entries.len() {
                Some(ActiveLibrary::Saved(idx - 1))
            } else {
                None
            }
        } else if idx < self.library.entries.len() {
            Some(ActiveLibrary::Saved(idx))
        } else {
            None
        }
    }

    /// The list feeding the tracks pane.
    pub fn active_tracks(&self) -> (r: &[Track])
        ensures
            r@.map_values(|t: Track| t@) == active_tracks_of(self@),
    {
        match self.active_library {
            ActiveLibrary::Unsaved => {
                let r = self.playlist.as_slice();
                assert(r@.map_values(|t: Track| t@) =~= self.playlist.deep_view());
                r
            },
            ActiveLibrary::Saved(i) => {
                if i < self.library.entries.len() {
                    let r = self.yt_playlist.as_slice();
                    assert(r@.map_values(|t: Track| t@) =~= self.yt_playlist.deep_view());
                    r
                } else {
                    let r: &[Track] = &[];
                    assert(r@.map_values(|t: Track| t@) =~= Seq::<TrackView>::empty());
                    r
                }
            },
        }
    }

    /// Title of the active library row.
    pub fn active_title(&self) -> (r: String)
        ensures
            r@ == match self@.active_library {
                ActiveLibrary::Unsaved => "Unsaved"@,
                ActiveLibrary::Saved(i) => if i < self@.library.len() {
                    self@.library[i as int].title
                } else {
                    "Saved Playlist"@
                },
            },
    {
        match self.active_library {
            ActiveLibrary::Unsaved => crate::text::str_to_string("Unsaved"),
            ActiveLibrary::Saved(i) => if i < self.library.entries.len() {
                self.library.entries[i].title.clone()
            } else {
                crate::text::str_to_string("Saved Playlist")
            },
        }
    }

    pub fn focused_len(&self) -> (r: usize)
        requires
            row_count_of(self@) <= usize::MAX,
        ensures
            r == focused_len_of(self@),
    {
        match self.focus {
            ListFocus::Results => self.results.len(),
            ListFocus::YtLibrary => self.saved_playlist_row_count(),
            ListFocus::YtPlaylist => self.active_tracks().len(),
            ListFocus::LocalFolder => self.local_folder.len(),
        }
    }

    pub fn focused_selected(&self) -> (r: usize)
        ensures
            r == focused_selected_of(self@),
    {
        match self.focus {
            ListFocus::Results => self.selected,
            ListFocus::YtLibrary => self.library_selected,
            ListFocus::YtPlaylist => self.yt_playlist_selected,
            ListFocus::LocalFolder => self.local_folder_selected,
        }
    }

    pub fn focused_tracks(&self) -> (r: &[Track])
        ensures
            r@.map_values(|t: Track| t@) == focused_tracks_of(self@),
    {
        match self.focus {
            ListFocus::Results => {
                let r = self.results.as_slice();
                assert(r@.map_values(|t: Track| t@) =~= self.results.deep_view());
                r
            },
            ListFocus::YtLibrary => {
                let r: &[Track] = &[];
                assert(r@.map_values(|t: Track| t@) =~= Seq::<TrackView>::empty());
                r
            },
            ListFocus::YtPlaylist => self.active_tracks(),
            ListFocus::LocalFolder => {
                let r = self.local_folder.as_slice();
                assert(r@.map_values(|t: Track| t@) =~= self.local_folder.deep_view());
                r
            },
        }
    }

    pub fn switch_focus(&mut self)
        ensures
            final(self)@ == (AppView { focus: next_focus(old(self)@.focus), ..old(self)@ }),
    {
        self.focus = match self.focus {
            ListFocus::Results => ListFocus::YtLibrary,
            ListFocus::YtLibrary => ListFocus::YtPlaylist,
            ListFocus::YtPlaylist => ListFocus::LocalFolder,
            ListFocus::LocalFolder => ListFocus::Results,
        };
    }

    pub fn switch_focus_back(&mut self)
        ensures
            final(self)@ == (AppView { focus: prev_focus(old(self)@.focus), ..old(self)@ }),
    {
        self.focus = match self.focus {
            ListFocus::Results => ListFocus::LocalFolder,
            ListFocus::YtLibrary => ListFocus::Results,
            ListFocus::YtPlaylist => ListFocus::YtLibrary,
            ListFocus::LocalFolder => ListFocus::YtPlaylist,
        };
    }

    /// Moves the selection of the focused list by `delta`, clamped to the
    /// list; nothing happens on an empty list.
    pub fn move_selection(&mut self, delta: i32)
        requires
            row_count_of(old(self)@) <= usize::MAX,
            focused_len_of(old(self)@) <= i32::MAX,
            i32::MIN <= (focused_selected_of(old(self)@) as i32) + delta <= i32::MAX,
        ensures
            final(self)@ == if focused_len_of(old(self)@) == 0 {
                old(self)@
            } else {
                with_focused_selected(
                    old(self)@,
                    moved_selection(
                        focused_len_of(old(self)@),
                        focused_selected_of(old(self)@),
                        delta,
                    ),
                )
            },
    {
        let len = self.focused_len() as i32;
        if len == 0 {
            return;
        }
        let cur = #[verifier::truncate] (self.focused_selected() as i32);
        let mut new = cur + delta;
        if new < 0 {
            new = 0;
        }
        if new >= len {
            new = len - 1;
        }
        match self.focus {
            ListFocus::Results => self.selected = new as usize,
            ListFocus::YtLibrary => self.library_selected = new as usize,
            ListFocus::YtPlaylist => self.yt_playlist_selected = new as usize,
            ListFocus::LocalFolder => self.local_folder_selected = new as usize,
        }
    }

    /// The track at the playing position of the queue.
    pub fn current_track(&self) -> (r: Option<&Track>)
        ensures
            match self.current {
                Some(i) => if i < self@.queue.len() {
                    r is Some && r->0@ == self@.queue[i as int]
                } else {
                    r is None
                },
                None => r is None,
            },
    {
        match self.current {
            Some(i) => if i < self.queue.len() {
                Some(&self.queue[i])
            } else {
                None
            },
            None => None,
        }
    }
}

/// Some track of `s` has this id.
pub open spec fn has_id(s: Seq<TrackView>, id: Seq<char>) -> bool {
    exists|i: int| 0 <= i < s.len() && #[trigger] s[i].id == id
}

fn tracks_have_id(v: &Vec<Track>, id: &str) -> (r: bool)
    ensures
        r == has_id(v.deep_view(), id@),
{
    let mut i: usize = 0;
    while i < v.len()
        invariant
            i <= v@.len(),
            forall|j: int| 0 <= j < i ==> #[trigger] v.deep_view()[j].id != id@,
        decreases v@.len() - i,
    {
        if crate::text::str_eq(v[i].id.as_str(), id) {
            assert(v.deep_view()[i as int].id == id@);
            return true;
        }
        i += 1;
    }
    false
}

/// The caption fields after a track starts playing.
pub open spec fn started_captions(a: AppView, t: TrackView) -> AppView {
    if a.show_captions {
        AppView { captions_track_id: Some(t.id), caption_status: CaptionStatus::Loading, ..a }
    } else {
        AppView { captions_track_id: None, caption_status: CaptionStatus::Idle, ..a }
    }
}

/// State after starting queue entry `idx` (nothing changes when there is
/// no such entry).
pub open spec fn play_at_state(a: AppView, idx: usize) -> AppView {
    if idx < a.queue.len() {
        started_captions(AppView { current: Some(idx), ..a }, a.queue[idx as int])
    } else {
        a
    }
}

/// What starting queue entry `idx` asks of the program: load it, drop the
/// old captions, and fetch new ones when the caption strip is on.
pub open spec fn play_at_effects(a: AppView, idx: usize, mark_added: bool) -> Seq<EffectView> {
    if idx < a.queue.len() {
        let t = a.queue[idx as int];
        let load = EffectView::Load {
            url: crate::ytdlp::url_of(t),
            ok_status: playing_status(idx, a.queue.len(), t),
            mark_added,
        };
        if a.show_captions {
            seq![load, EffectView::ClearCaptions, EffectView::FetchCaptions { track_id: t.id }]
        } else {
            seq![load, EffectView::ClearCaptions]
        }
    } else {
        Seq::empty()
    }
}

/// Where Next goes from the current track: a shuffle pick, the next
/// track, the first one when looping the whole queue, or nowhere.
pub open spec fn next_index(a: AppView, rand: u64) -> Option<usize> {
    match a.current {
        None => None,
        Some(i) => {
            let n = a.queue.len();
            if n == 0 {
                None
            } else if a.config.shuffle {
                Some(index_excluding(n as usize, i, rand))
            } else if i + 1 < n {
                Some((i + 1) as usize)
            } else if a.config.loop_mode == LoopMode::All {
                Some(0)
            } else {
                None
            }
        },
    }
}

/// Where Previous goes from the current track: a shuffle pick, the
/// previous track, the last one when looping the whole queue, or the first.
pub open spec fn prev_index(a: AppView, rand: u64) -> Option<usize> {
    match a.current {
        None => None,
        Some(i) => {
            let n = a.queue.len();
            if n == 0 {
                None
            } else if a.config.shuffle {
                Some(index_excluding(n as usize, i, rand))
            } else if i > 0 {
                Some((i - 1) as usize)
            } else if a.config.loop_mode == LoopMode::All {
                Some((n - 1) as usize)
            } else {
                Some(0)
            }
        },
    }
}

/// Where playback continues when a track ends: the same track when
/// repeating one, a shuffle pick, the next track (wrapping when looping
/// the queue), or nowhere at the end of the queue.
pub open spec fn eof_index(a: AppView, rand: u64) -> Option<usize> {
    match a.current {
        None => None,
        Some(cur) => {
            let n = a.queue.len();
            if n == 0 {
                None
            } else if a.config.loop_mode == LoopMode::One {
                Some(cur)
            } else if a.config.shuffle {
                Some(index_excluding(n as usize, cur, rand))
            } else if a.config.loop_mode == LoopMode::All {
                Some(((cur + 1) % (n as int)) as usize)
            } else if cur + 1 < n {
                Some((cur + 1) as usize)
            } else {
                None
            }
        },
    }
}

/// When a track ends without shuffle: loop-one plays the same track again;
/// loop-all plays the next one, and the first after the last; with looping
/// off the next one plays, and after the last nothing does. Whatever plays
/// becomes the current track.
pub proof fn lemma_end_of_track(a: AppView, rand: u64, cur: usize)
    requires
        !a.config.shuffle,
        a.current == Some(cur),
        cur < a.queue.len(),
    ensures
        a.config.loop_mode == LoopMode::One ==> eof_index(a, rand) == Some(cur),
        a.config.loop_mode == LoopMode::All && cur + 1 < a.queue.len() ==> eof_index(a, rand) == Some(
            (cur + 1) as usize,
        ),
        a.config.loop_mode == LoopMode::All && cur + 1 == a.queue.len() ==> eof_index(a, rand)
            == Some(0usize),
        a.config.loop_mode == LoopMode::Off && cur + 1 < a.queue.len() ==> eof_index(a, rand) == Some(
            (cur + 1) as usize,
        ),
        a.config.loop_mode == LoopMode::Off && cur + 1 == a.queue.len() ==> eof_index(a, rand)
            is None,
        forall|k: usize| k < a.queue.len() ==> (#[trigger] play_at_state(a, k)).current == Some(k),
{
    let n = a.queue.len() as int;
    let c = cur + 1;
    if c == n {
        assert(c % n == 0) by (nonlinear_arith)
            requires
                c == n,
                n > 0,
        ;
    }
    if c < n {
        assert(c % n == c) by (nonlinear_arith)
            requires
                0 <= c < n,
        ;
    }
}

/// Without shuffle, Previous undoes Next whenever Next moved forward
/// within the queue.
pub proof fn lemma_prev_undoes_next(a: AppView, rand: u64, i: usize)
    requires
        !a.config.shuffle,
        a.current == Some(i),
        i + 1 < a.queue.len(),
        a.queue.len() <= usize::MAX,
    ensures
        next_index(a, rand) == Some((i + 1) as usize),
        prev_index(AppView { current: next_index(a, rand), ..a }, rand) == Some(i),
{
}

/// Playback always lands on a track of the queue.
pub proof fn lemma_navigation_in_queue(a: AppView, rand: u64)
    requires
        a.current matches Some(i) && i < a.queue.len(),
        a.queue.len() <= usize::MAX,
    ensures
        next_index(a, rand) matches Some(k) ==> k < a.queue.len(),
        prev_index(a, rand) matches Some(k) ==> k < a.queue.len(),
        eof_index(a, rand) matches Some(k) ==> k < a.queue.len(),
{
    let n = a.queue.len();
    if n >= 1 {
        lemma_shuffle_pick(n as usize, a.current->0, rand);
        let cur = a.current->0;
        assert(((cur + 1) % (n as int)) < n) by (nonlinear_arith)
            requires
                n >= 1,
        ;
    }
}

pub open spec fn effects_view(v: Seq<Effect>) -> Seq<EffectView> {
    Seq::new(v.len(), |i: int| v[i].deep_view())
}

pub open spec fn added_status(title: Seq<char>) -> Seq<char> {
    "added — "@ + title
}

pub open spec fn duplicate_status(title: Seq<char>) -> Seq<char> {
    "not added — already on the list ("@ + title + ")"@
}

/// The track `add_focused_to_playlist` picks: the selected one of the
/// focused list (none for the saved-playlist pane).
pub open spec fn focused_pick(a: AppView) -> Option<TrackView> {
    let ts = focused_tracks_of(a);
    let k = focused_selected_of(a);
    if a.focus == ListFocus::YtLibrary || k >= ts.len() {
        None
    } else {
        Some(ts[k as int])
    }
}

impl App {
    /// Starts queue entry `idx`, if there is one.
    pub fn play_at(&mut self, idx: usize) -> (r: Vec<Effect>)
        ensures
            final(self)@ == play_at_state(old(self)@, idx),
            effects_view(r@) == play_at_effects(old(self)@, idx, false),
    {
        self.play_at_marked(idx, false)
    }

    fn play_at_marked(&mut self, idx: usize, mark_added: bool) -> (r: Vec<Effect>)
        ensures
            final(self)@ == play_at_state(old(self)@, idx),
            effects_view(r@) == play_at_effects(old(self)@, idx, mark_added),
    {
        let mut effects: Vec<Effect> = Vec::new();
        if idx >= self.queue.len() {
            assert(effects_view(effects@) =~= Seq::<EffectView>::empty());
            return effects;
        }
        let track = self.queue[idx].clone();
        self.current = Some(idx);
        let mut st: Vec<char> = Vec::new();
        st.push('[');
        push_dec(&mut st, (idx as u64) + 1);
        st.push('/');
        push_dec(&mut st, self.queue.len() as u64);
        push_str(&mut st, "] ");
        push_str(&mut st, track.title.as_str());
        push_str(&mut st, " — ");
        push_str(&mut st, track.uploader.as_str());
        assert(st@ =~= playing_status(idx, old(self)@.queue.len(), old(self)@.queue[idx as int]));
        effects.push(
            Effect::Load { url: track.url(), ok_status: string_from_chars(st.as_slice()), mark_added },
        );
        effects.push(Effect::ClearCaptions);
        if self.show_captions {
            self.caption_status = CaptionStatus::Loading;
            self.captions_track_id = Some(track.id.clone());
            effects.push(Effect::FetchCaptions { track_id: track.id.clone() });
        } else {
            self.caption_status = CaptionStatus::Idle;
            self.captions_track_id = None;
        }
        assert(effects_view(effects@) =~= play_at_effects(old(self)@, idx, mark_added));
        effects
    }

    /// Sets the status once the player has answered a load: the track line,
    /// or the player's error; `+ ` in front when the track was just added to
    /// the unsaved list.
    pub fn after_load(&mut self, ok_status: &str, error: Option<&str>, mark_added: bool)
        ensures
            final(self)@ == (AppView {
                status: (if mark_added {
                    "+ "@
                } else {
                    Seq::empty()
                }) + match error {
                    Some(e) => "mpv load failed: "@ + e@,
                    None => ok_status@,
                },
                ..old(self)@
            }),
    {
        let mut st: Vec<char> = Vec::new();
        if mark_added {
            push_str(&mut st, "+ ");
        }
        match error {
            Some(e) => {
                push_str(&mut st, "mpv load failed: ");
                push_str(&mut st, e);
            },
            None => push_str(&mut st, ok_status),
        }
        assert(st@ =~= (if mark_added {
            "+ "@
        } else {
            Seq::empty()
        }) + match error {
            Some(e) => "mpv load failed: "@ + e@,
            None => ok_status@,
        });
        self.status = string_from_chars(st.as_slice());
    }

    /// Skips to the next track (see [`next_index`]); at the end of an
    /// unlooped queue it only says so. `rand` drives the shuffle pick.
    pub fn next_track(&mut self, rand: u64) -> (r: Vec<Effect>)
        ensures
            match next_index(old(self)@, rand) {
                Some(k) => final(self)@ == play_at_state(old(self)@, k) && effects_view(r@)
                    == play_at_effects(old(self)@, k, false),
                None => r@.len() == 0 && final(self)@ == if old(self)@.current is Some
                    && old(self)@.queue.len() > 0 {
                    AppView { status: "end of queue"@, ..old(self)@ }
                } else {
                    old(self)@
                },
            },
    {
        let i = match self.current {
            Some(i) => i,
            None => return Vec::new(),
        };
        let n = self.queue.len();
        if n == 0 {
            return Vec::new();
        }
        let idx = if self.config.shuffle {
            rand_index_excluding(n, i, rand)
        } else if i < n - 1 {
            i + 1
        } else if self.config.loop_mode == LoopMode::All {
            0
        } else {
            self.status = crate::text::str_to_string("end of queue");
            return Vec::new();
        };
        self.play_at(idx)
    }

    /// Goes back one track (see [`prev_index`]). `rand` drives the shuffle
    /// pick.
    pub fn prev_track(&mut self, rand: u64) -> (r: Vec<Effect>)
        ensures
            match prev_index(old(self)@, rand) {
                Some(k) => final(self)@ == play_at_state(old(self)@, k) && effects_view(r@)
                    == play_at_effects(old(self)@, k, false),
                None => r@.len() == 0 && final(self)@ == old(self)@,
            },
    {
        let i = match self.current {
            Some(i) => i,
            None => return Vec::new(),
        };
        let n = self.queue.len();
        if n == 0 {
            return Vec::new();
        }
        let idx = if self.config.shuffle {
            rand_index_excluding(n, i, rand)
        } else if i > 0 {
            i - 1
        } else if self.config.loop_mode == LoopMode::All {
            n - 1
        } else {
            0
        };
        self.play_at(idx)
    }

    /// Continues after the current track ended (see [`eof_index`]); at the
    /// end of the queue playback stops with "queue finished".
    pub fn advance_after_eof(&mut self, rand: u64) -> (r: Vec<Effect>)
        requires
            old(self)@.current matches Some(c) ==> c < usize::MAX,
        ensures
            match eof_index(old(self)@, rand) {
                Some(k) => final(self)@ == play_at_state(old(self)@, k) && effects_view(r@)
                    == play_at_effects(old(self)@, k, false),
                None => r@.len() == 0 && final(self)@ == match old(self)@.current {
                    None => old(self)@,
                    Some(_) => if old(self)@.queue.len() == 0 {
                        AppView { current: None, ..old(self)@ }
                    } else {
                        AppView { current: None, status: "queue finished"@, ..old(self)@ }
                    },
                },
            },
            match old(self)@.current {
                Some(c) => (!old(self)@.config.shuffle && old(self)@.config.loop_mode == LoopMode::All
                    && c < old(self)@.queue.len()) ==> final(self)@.current == Some(
                    if c + 1 < old(self)@.queue.len() {
                        (c + 1) as usize
                    } else {
                        0usize
                    },
                ),
                None => true,
            },
    {
        proof {
            if let Some(c) = self@.current {
                if c < self@.queue.len() && !self@.config.shuffle {
                    lemma_end_of_track(self@, rand, c);
                }
            }
        }
        let cur = match self.current {
            Some(c) => c,
            None => return Vec::new(),
        };
        let n = self.queue.len();
        if n == 0 {
            self.current = None;
            return Vec::new();
        }
        let next = if self.config.loop_mode == LoopMode::One {
            Some(cur)
        } else if self.config.shuffle {
            Some(rand_index_excluding(n, cur, rand))
        } else if self.config.loop_mode == LoopMode::All {
            Some((cur + 1) % n)
        } else if cur < n - 1 {
            Some(cur + 1)
        } else {
            None
        };
        match next {
            Some(idx) => self.play_at(idx),
            None => {
                self.current = None;
                self.status = crate::text::str_to_string("queue finished");
                Vec::new()
            },
        }
    }

    pub fn toggle_pause(&self) -> (r: Vec<Effect>)
        ensures
            effects_view(r@) == seq![EffectView::TogglePause],
    {
        let r = vec![Effect::TogglePause];
        assert(effects_view(r@) =~= seq![EffectView::TogglePause]);
        r
    }

    pub fn pause(&self) -> (r: Vec<Effect>)
        ensures
            effects_view(r@) == seq![EffectView::SetPause(true)],
    {
        let r = vec![Effect::SetPause(true)];
        assert(effects_view(r@) =~= seq![EffectView::SetPause(true)]);
        r
    }

    /// Resumes playback when there is a current track.
    pub fn play(&self) -> (r: Vec<Effect>)
        ensures
            effects_view(r@) == if self@.current matches Some(i) && i < self@.queue.len() {
                seq![EffectView::SetPause(false)]
            } else {
                Seq::empty()
            },
    {
        if self.current_track().is_some() {
            let r = vec![Effect::SetPause(false)];
            assert(effects_view(r@) =~= seq![EffectView::SetPause(false)]);
            r
        } else {
            let r: Vec<Effect> = Vec::new();
            assert(effects_view(r@) =~= Seq::<EffectView>::empty());
            r
        }
    }

    pub fn seek(&self, seconds: i64) -> (r: Vec<Effect>)
        ensures
            effects_view(r@) == seq![EffectView::Seek(seconds)],
    {
        let r = vec![Effect::Seek(seconds)];
        assert(effects_view(r@) =~= seq![EffectView::Seek(seconds)]);
        r
    }

    fn focused_pick_track(&self) -> (r: Option<Track>)
        ensures
            match (r, focused_pick(self@)) {
                (Some(t), Some(v)) => t@ == v,
                (None, None) => true,
                _ => false,
            },
    {
        if self.focus == ListFocus::YtLibrary {
            return None;
        }
        let ts = self.focused_tracks();
        let k = self.focused_selected();
        if k < ts.len() {
            assert(ts@.map_values(|t: Track| t@)[k as int] == ts@[k as int]@);
            Some(ts[k].clone())
        } else {
            None
        }
    }

    /// Adds the selected track of the focused list to the unsaved list,
    /// unless a track with its id is already there.
    pub fn add_focused_to_playlist(&mut self) -> (r: Vec<Effect>)
        ensures
            old(self)@.focus == ListFocus::YtLibrary ==> final(self)@ == old(self)@ && r@.len() == 0,
            old(self)@.focus != ListFocus::YtLibrary ==> match focused_pick(old(self)@) {
                None => r@.len() == 0 && final(self)@ == (AppView {
                    status: "nothing to add — pick a track first"@,
                    ..old(self)@
                }),
                Some(t) => if has_id(old(self)@.playlist, t.id) {
                    r@.len() == 0 && final(self)@ == (AppView {
                        status: duplicate_status(t.title),
                        ..old(self)@
                    })
                } else {
                    effects_view(r@) == seq![EffectView::SavePlaylist { report: false }]
                        && final(self)@ == (AppView {
                        playlist: old(self)@.playlist.push(t),
                        status: added_status(t.title),
                        ..old(self)@
                    })
                },
            },
    {
        if self.focus == ListFocus::YtLibrary {
            return Vec::new();
        }
        let track = match self.focused_pick_track() {
            Some(t) => t,
            None => {
                self.status = crate::text::str_to_string("nothing to add — pick a track first");
                return Vec::new();
            },
        };
        if tracks_have_id(&self.playlist, track.id.as_str()) {
            let mut st: Vec<char> = Vec::new();
            push_str(&mut st, "not added — already on the list (");
            push_str(&mut st, track.title.as_str());
            push_str(&mut st, ")");
            self.status = string_from_chars(st.as_slice());
            return Vec::new();
        }
        let mut st: Vec<char> = Vec::new();
        push_str(&mut st, "added — ");
        push_str(&mut st, track.title.as_str());
        let ghost before = self.playlist.deep_view();
        let ghost tv = track@;
        self.playlist.push(track);
        assert(self.playlist.deep_view() =~= before.push(tv));
        self.status = string_from_chars(st.as_slice());
        let r = vec![Effect::SavePlaylist { report: false }];
        assert(effects_view(r@) =~= seq![EffectView::SavePlaylist { report: false }]);
        r
    }

    /// Removes the selected track from the unsaved list, when the tracks
    /// pane shows that list; the selection stays on a row.
    pub fn remove_focused_from_playlist(&mut self) -> (r: Vec<Effect>)
        ensures
            ({
                let a = old(self)@;
                let idx = a.yt_playlist_selected;
                if a.focus != ListFocus::YtPlaylist || a.active_library != ActiveLibrary::Unsaved
                    || idx >= a.playlist.len() {
                    final(self)@ == a && r@.len() == 0
                } else {
                    let rest = a.playlist.remove(idx as int);
                    effects_view(r@) == seq![EffectView::SavePlaylist { report: false }]
                        && final(self)@ == (AppView {
                        playlist: rest,
                        yt_playlist_selected: if idx >= rest.len() && idx > 0 {
                            (idx - 1) as usize
                        } else {
                            idx
                        },
                        status: "kicked - "@ + a.playlist[idx as int].title,
                        ..a
                    })
                }
            }),
    {
        if self.focus != ListFocus::YtPlaylist || self.active_library != ActiveLibrary::Unsaved {
            return Vec::new();
        }
        let removed_idx = self.yt_playlist_selected;
        if removed_idx >= self.playlist.len() {
            return Vec::new();
        }
        let ghost before = self.playlist@;
        let removed = self.playlist.remove(removed_idx);
        assert(self.playlist.deep_view() =~= old(self)@.playlist.remove(removed_idx as int));
        if self.yt_playlist_selected >= self.playlist.len() && self.yt_playlist_selected > 0 {
            self.yt_playlist_selected = self.yt_playlist_selected - 1;
        }
        let mut st: Vec<char> = Vec::new();
        push_str(&mut st, "kicked - ");
        push_str(&mut st, removed.title.as_str());
        self.status = string_from_chars(st.as_slice());
        let r = vec![Effect::SavePlaylist { report: false }];
        assert(effects_view(r@) =~= seq![EffectView::SavePlaylist { report: false }]);
        r
    }
}

/// The first index of an entry with this url (meaningful when there is one).
pub open spec fn first_url_index(s: Seq<EntryView>, url: Seq<char>) -> usize {
    (choose|k: int| crate::library::is_first_url(s, url, k)) as usize
}

/// The library after a fetch of `url` registers it: a provisional entry
/// titled with the url itself, 0 tracks, and its platform.
pub open spec fn provisional_library(s: Seq<EntryView>, url: Seq<char>) -> Seq<EntryView> {
    crate::library::favorites_first(
        crate::library::upserted(s, url, url, crate::ytdlp::platform_of_url(url), 0),
    )
}

/// The state once a playlist fetch of `url` has been started.
pub open spec fn fetch_started(a: AppView, url: Seq<char>) -> AppView {
    let lib = provisional_library(a.library, url);
    AppView {
        library: lib,
        library_selected: first_url_index(lib, url),
        config: ConfigView { yt_playlist_url: Some(url), ..a.config },
        yt_playlist_loading: true,
        focus: ListFocus::YtPlaylist,
        yt_playlist_selected: 0,
        status: "Fetching "@ + platform_short_name(crate::ytdlp::platform_of_url(url))
            + " playlist..."@,
        ..a
    }
}

pub open spec fn fetch_effects(url: Seq<char>) -> Seq<EffectView> {
    seq![
        EffectView::SaveLibrary,
        EffectView::SaveConfig { note: ConfigNoteView::Silent },
        EffectView::FetchPlaylist { url },
    ]
}

/// The state after Enter on the saved-playlist pane: the Unsaved row
/// becomes active, or the saved entry becomes active and is refetched.
pub open spec fn activate_state(a: AppView) -> AppView {
    match saved_row_of(a, a.library_selected) {
        Some(ActiveLibrary::Unsaved) => AppView {
            active_library: ActiveLibrary::Unsaved,
            yt_playlist_selected: 0,
            status: "Active: Unsaved"@,
            ..a
        },
        Some(ActiveLibrary::Saved(i)) => fetch_started(
            AppView { active_library: ActiveLibrary::Saved(i), ..a },
            a.library[i as int].url,
        ),
        None => a,
    }
}

pub open spec fn activate_effects(a: AppView) -> Seq<EffectView> {
    match saved_row_of(a, a.library_selected) {
        Some(ActiveLibrary::Saved(i)) => fetch_effects(a.library[i as int].url),
        _ => Seq::empty(),
    }
}

/// The list Enter plays from: its tracks, the queue source it becomes,
/// the selected index, and whether the played track is mirrored into the
/// unsaved list.
pub open spec fn play_source(a: AppView) -> (Seq<TrackView>, QueueSourceView, usize, bool) {
    match a.focus {
        ListFocus::YtPlaylist => (
            active_tracks_of(a),
            match a.active_library {
                ActiveLibrary::Unsaved => QueueSourceView::Unsaved,
                ActiveLibrary::Saved(i) => QueueSourceView::Saved(
                    if i < a.library.len() {
                        a.library[i as int].title
                    } else {
                        "Saved Playlist"@
                    },
                ),
            },
            a.yt_playlist_selected,
            a.active_library != ActiveLibrary::Unsaved,
        ),
        ListFocus::LocalFolder => (
            a.local_folder,
            QueueSourceView::LocalFolder,
            a.local_folder_selected,
            true,
        ),
        _ => (a.results, QueueSourceView::Results, a.selected, true),
    }
}

/// The state after Enter outside the saved-playlist pane: the list becomes
/// the queue, the track is mirrored into the unsaved list if new there,
/// and it starts.
pub open spec fn play_selected_state(a: AppView) -> AppView {
    let (ts, src, k, mirror) = play_source(a);
    if k >= ts.len() {
        a
    } else {
        let t = ts[k as int];
        let added = mirror && !has_id(a.playlist, t.id);
        play_at_state(
            AppView {
                queue: ts,
                queue_source: src,
                playlist: if added {
                    a.playlist.push(t)
                } else {
                    a.playlist
                },
                ..a
            },
            k,
        )
    }
}

pub open spec fn play_selected_effects(a: AppView) -> Seq<EffectView> {
    let (ts, src, k, mirror) = play_source(a);
    if k >= ts.len() {
        Seq::empty()
    } else {
        let t = ts[k as int];
        let added = mirror && !has_id(a.playlist, t.id);
        let a1 = AppView {
            queue: ts,
            queue_source: src,
            playlist: if added {
                a.playlist.push(t)
            } else {
                a.playlist
            },
            ..a
        };
        (if added {
            seq![EffectView::SavePlaylist { report: false }]
        } else {
            Seq::empty()
        }) + play_at_effects(a1, k, added)
    }
}

/// The saved entry a row of the pane names, when it names one.
pub open spec fn selected_saved(a: AppView) -> Option<usize> {
    match saved_row_of(a, a.library_selected) {
        Some(ActiveLibrary::Saved(i)) => Some(i),
        _ => None,
    }
}

/// The query text a playlist-URL submission goes to.
pub open spec fn submitted_url(a: AppView) -> Seq<char> {
    normalized_path(trim(a.query))
}

/// What the effects of two lists of effects appended are.
pub proof fn lemma_effects_view_add(a: Seq<Effect>, b: Seq<Effect>)
    ensures
        effects_view(a + b) == effects_view(a) + effects_view(b),
{
    assert(effects_view(a + b) =~= effects_view(a) + effects_view(b));
}

impl App {
    /// The list Enter plays from, as `play_source` describes it.
    fn selected_source(&self) -> (r: (Vec<Track>, QueueSource, usize, bool))
        requires
            self@.focus != ListFocus::YtLibrary,
        ensures
            r.0.deep_view() == play_source(self@).0,
            r.1@ == play_source(self@).1,
            r.2 == play_source(self@).2,
            r.3 == play_source(self@).3,
    {
        match self.focus {
            ListFocus::YtPlaylist => {
                let tracks = slice_clone_tracks(self.active_tracks());
                let src = match self.active_library {
                    ActiveLibrary::Unsaved => QueueSource::Unsaved,
                    ActiveLibrary::Saved(i) => QueueSource::Saved {
                        name: if i < self.library.entries.len() {
                            self.library.entries[i].title.clone()
                        } else {
                            crate::text::str_to_string("Saved Playlist")
                        },
                    },
                };
                let mirror = self.active_library != ActiveLibrary::Unsaved;
                (tracks, src, self.yt_playlist_selected, mirror)
            },
            ListFocus::LocalFolder => (
                vec_clone_tracks(&self.local_folder),
                QueueSource::LocalFolder,
                self.local_folder_selected,
                true,
            ),
            _ => (vec_clone_tracks(&self.results), QueueSource::Results, self.selected, true),
        }
    }
}

impl App {
    fn start_yt_playlist_fetch(&mut self, url: String) -> (r: Vec<Effect>)
        ensures
            final(self)@ == fetch_started(old(self)@, url@),
            effects_view(r@) == fetch_effects(url@),
    {
        let platform = crate::ytdlp::platform_from_url(url.as_str());
        let ghost lib0 = self.library@;
        let k = self.library.upsert(url.as_str(), url.as_str(), platform, 0);
        proof {
            let lib = self.library@;
            let c = choose|j: int| crate::library::is_first_url(lib, url@, j);
            crate::library::lemma_first_url_unique(lib, url@, c, k as int);
        }
        self.library_selected = match self.library.position(url.as_str()) {
            Some(j) => j,
            None => 0,
        };
        proof {
            let lib = self.library@;
            if self.library_selected != k {
                crate::library::lemma_first_url_unique(lib, url@, self.library_selected as int, k as int);
            }
        }
        self.config.yt_playlist_url = Some(url.clone());
        self.yt_playlist_loading = true;
        self.focus = ListFocus::YtPlaylist;
        self.yt_playlist_selected = 0;
        let mut st: Vec<char> = Vec::new();
        push_str(&mut st, "Fetching ");
        push_str(&mut st, platform_short(platform));
        push_str(&mut st, " playlist...");
        self.status = string_from_chars(st.as_slice());
        let r = vec![
            Effect::SaveLibrary,
            Effect::SaveConfig { note: ConfigNote::Silent },
            Effect::FetchPlaylist { url },
        ];
        assert(effects_view(r@) =~= fetch_effects(url@));
        r
    }

    /// Enter on the saved-playlist pane.
    pub fn activate_library_entry(&mut self) -> (r: Vec<Effect>)
        ensures
            final(self)@ == activate_state(old(self)@),
            effects_view(r@) == activate_effects(old(self)@),
    {
        match self.saved_row_at(self.library_selected) {
            Some(ActiveLibrary::Unsaved) => {
                self.active_library = ActiveLibrary::Unsaved;
                self.yt_playlist_selected = 0;
                self.status = crate::text::str_to_string("Active: Unsaved");
                let r: Vec<Effect> = Vec::new();
                assert(effects_view(r@) =~= Seq::<EffectView>::empty());
                r
            },
            Some(ActiveLibrary::Saved(i)) => {
                let url = self.library.entries[i].url.clone();
                self.active_library = ActiveLibrary::Saved(i);
                self.start_yt_playlist_fetch(url)
            },
            None => {
                let r: Vec<Effect> = Vec::new();
                assert(effects_view(r@) =~= Seq::<EffectView>::empty());
                r
            },
        }
    }

    /// Enter: plays the selected track of the focused list (on the
    /// saved-playlist pane it activates the row instead).
    pub fn play_selected(&mut self) -> (r: Vec<Effect>)
        ensures
            old(self)@.focus == ListFocus::YtLibrary ==> final(self)@ == activate_state(old(self)@)
                && effects_view(r@) == activate_effects(old(self)@),
            old(self)@.focus != ListFocus::YtLibrary ==> final(self)@ == play_selected_state(
                old(self)@,
            ) && effects_view(r@) == play_selected_effects(old(self)@),
    {
        if self.focus == ListFocus::YtLibrary {
            return self.activate_library_entry();
        }
        let ghost a = self@;
        let (source_tracks, source, sel_idx, mirror) = self.selected_source();
        assert(source_tracks.deep_view() == play_source(a).0);
        assert(source@ == play_source(a).1);
        if sel_idx >= source_tracks.len() {
            let r: Vec<Effect> = Vec::new();
            assert(effects_view(r@) =~= Seq::<EffectView>::empty());
            return r;
        }
        let track = source_tracks[sel_idx].clone();
        assert(track@ == play_source(a).0[sel_idx as int]);
        self.queue = source_tracks;
        self.queue_source = source;
        let mut effects: Vec<Effect> = Vec::new();
        let was_new = mirror && !tracks_have_id(&self.playlist, track.id.as_str());
        if was_new {
            let ghost before = self.playlist.deep_view();
            let ghost tv = track@;
            self.playlist.push(track);
            assert(self.playlist.deep_view() =~= before.push(tv));
            effects.push(Effect::SavePlaylist { report: false });
        }
        let mut more = self.play_at_marked(sel_idx, was_new);
        let ghost m0 = more@;
        let ghost f0 = effects@;
        effects.append(&mut more);
        proof {
            lemma_effects_view_add(f0, m0);
        }
        effects
    }

    /// Stars or un-stars the selected saved playlist; the selection follows
    /// the entry to where the re-sort puts it.
    pub fn toggle_library_favorite(&mut self) -> (r: Vec<Effect>)
        requires
            row_count_of(old(self)@) <= usize::MAX,
        ensures
            ({
                let a = old(self)@;
                if a.focus != ListFocus::YtLibrary || selected_saved(a) is None {
                    final(self)@ == a && r@.len() == 0
                } else {
                    let i = selected_saved(a)->0;
                    let lib = crate::library::favorites_first(crate::library::toggled(a.library, i as int));
                    &&& effects_view(r@) == seq![EffectView::SaveLibrary]
                    &&& final(self)@ == (AppView {
                        library: lib,
                        library_selected: (first_url_index(lib, a.library[i as int].url) + if unsaved_visible_of(a) {
                            1int
                        } else {
                            0int
                        }) as usize,
                        ..a
                    })
                }
            }),
    {
        if self.focus != ListFocus::YtLibrary {
            return Vec::new();
        }
        let saved_idx = match self.saved_row_at(self.library_selected) {
            Some(ActiveLibrary::Saved(i)) => i,
            _ => return Vec::new(),
        };
        let url = self.library.entries[saved_idx].url.clone();
        let ghost old_lib = self.library@;
        self.library.toggle_favorite(saved_idx);
        proof {
            let t = crate::library::toggled(old_lib, saved_idx as int);
            assert(t[saved_idx as int].url == url@);
            crate::library::lemma_favorites_first_permutes(t);
            let lib = self.library@;
            assert(lib == crate::library::favorites_first(t));
            t.to_multiset_ensures();
            lib.to_multiset_ensures();
            assert(t.contains(t[saved_idx as int]));
            assert(lib.to_multiset().count(t[saved_idx as int]) > 0);
            assert(lib.contains(t[saved_idx as int]));
        }
        match self.library.position(url.as_str()) {
            Some(new_idx) => {
                proof {
                    let lib = self.library@;
                    let c = choose|j: int| crate::library::is_first_url(lib, url@, j);
                    crate::library::lemma_first_url_unique(lib, url@, c, new_idx as int);
                }
                self.library_selected = new_idx + if self.unsaved_visible() {
                    1
                } else {
                    0
                };
            },
            None => {
                proof {
                    let m = choose|m: int| 0 <= m < self.library@.len() && self.library@[m] == crate::library::toggled(old_lib, saved_idx as int)[saved_idx as int];
                    assert(self.library@[m].url == url@);
                }
            },
        }
        let r = vec![Effect::SaveLibrary];
        assert(effects_view(r@) =~= seq![EffectView::SaveLibrary]);
        r
    }

    /// Deletes the selected saved playlist; the active row falls back to
    /// Unsaved if it was the deleted one, later entries shift down, and the
    /// selection stays on a row.
    #[verifier::spinoff_prover]
    #[verifier::rlimit(40)]
    pub fn remove_library_entry(&mut self) -> (r: Vec<Effect>)
        requires
            (old(self)@.focus == ListFocus::YtLibrary && selected_saved(old(self)@) is Some)
                ==> short_label_cuttable(old(self)@.library[selected_saved(old(self)@)->0 as int].title),
        ensures
            ({
                let a = old(self)@;
                if a.focus != ListFocus::YtLibrary || selected_saved(a) is None {
                    final(self)@ == a && r@.len() == 0
                } else {
                    let i = selected_saved(a)->0;
                    let lib = a.library.remove(i as int);
                    let a1 = AppView {
                        library: lib,
                        active_library: match a.active_library {
                            ActiveLibrary::Saved(j) => if j == i {
                                ActiveLibrary::Unsaved
                            } else if j > i {
                                ActiveLibrary::Saved((j - 1) as usize)
                            } else {
                                ActiveLibrary::Saved(j)
                            },
                            ActiveLibrary::Unsaved => ActiveLibrary::Unsaved,
                        },
                        status: "removed from library: "@ + short_label_of(a.library[i as int].title),
                        ..a
                    };
                    let total = row_count_of(a1);
                    &&& effects_view(r@) == seq![EffectView::SaveLibrary]
                    &&& final(self)@ == if a.library_selected >= total && total > 0 {
                        AppView { library_selected: (total - 1) as usize, ..a1 }
                    } else {
                        a1
                    }
                }
            }),
    {
        if self.focus != ListFocus::YtLibrary {
            return Vec::new();
        }
        let saved_idx = match self.saved_row_at(self.library_selected) {
            Some(ActiveLibrary::Saved(i)) => i,
            _ => return Vec::new(),
        };
        let n0 = self.library.entries.len();
        assert(old(self)@.library.len() == n0);
        let removed = match self.library.remove(saved_idx) {
            Some(e) => e,
            None => return Vec::new(),
        };
        match self.active_library {
            ActiveLibrary::Saved(j) => {
                if j == saved_idx {
                    self.active_library = ActiveLibrary::Unsaved;
                } else if j > saved_idx {
                    self.active_library = ActiveLibrary::Saved(j - 1);
                }
            },
            ActiveLibrary::Unsaved => {},
        }
        assert(self.library@.len() < old(self)@.library.len());
        assert(row_count_of(self@) <= row_count_of(old(self)@));
        let total = self.saved_playlist_row_count();
        if self.library_selected >= total && total > 0 {
            self.library_selected = total - 1;
        }
        let label = short_label(&removed);
        let mut st: Vec<char> = Vec::new();
        push_str(&mut st, "removed from library: ");
        push_str(&mut st, label.as_str());
        self.status = string_from_chars(st.as_slice());
        let r = vec![Effect::SaveLibrary];
        assert(effects_view(r@) =~= seq![EffectView::SaveLibrary]);
        r
    }

    /// Enter in the playlist-URL prompt: back to browsing and, for a
    /// non-blank entry, fetch the cleaned-up URL.
    pub fn submit_yt_playlist(&mut self) -> (r: Vec<Effect>)
        ensures
            ({
                let a = old(self)@;
                let a1 = AppView { mode: Mode::Browse, query: Seq::empty(), ..a };
                if trim(a.query).len() == 0 {
                    final(self)@ == a1 && r@.len() == 0
                } else {
                    final(self)@ == fetch_started(a1, submitted_url(a)) && effects_view(r@)
                        == fetch_effects(submitted_url(a))
                }
            }),
    {
        let q = str_chars(self.query.as_str());
        let raw_v = trim_chars(q.as_slice());
        self.mode = Mode::Browse;
        self.query = String::new();
        if raw_v.len() == 0 {
            return Vec::new();
        }
        let raw = string_from_chars(raw_v.as_slice());
        let url = normalize_path_input(raw.as_str());
        self.start_yt_playlist_fetch(url)
    }
}

} // verus!
