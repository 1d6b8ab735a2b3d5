//! What the terminal interface shows: titles, rows and boxes as runs of
//! text with a tone each. Drawing them on the terminal is left to the
//! program; every word and number shown is decided here.

use vstd::prelude::*;

use crate::app::{
    active_tracks_of, row_count_of, App, AppView, CaptionStatus, ListFocus, Mode, QueueSource,
    QueueSourceView,
};
use crate::audio::{volume_block_index, volume_blocks, DeviceKind};
use crate::config::LoopMode;
use crate::library::EntryView;
use crate::local_scan::depth_mark;
use crate::sprites::Accent;
use crate::text::{dec, push_dec, push_str, str_to_string, string_from_chars};
use crate::ui::{total_duration_text, volume_face_of};
use crate::ytdlp::{duration_text, effective_platform_of, platform_glyph, Platform, Track, TrackView};

verus! {

broadcast use vstd::seq_lib::group_seq_properties;

/// How a run of text is shown.
#[derive(Debug, Clone, Copy, PartialEq, Eq, Structural)]
pub enum Tone {
    /// Default colours.
    Plain,
    /// Dark grey: labels, hints, secondary text.
    Dim,
    /// Dark grey and bold.
    DimBold,
    /// Cyan and bold: a key in a shortcut hint.
    Key,
    /// Yellow and bold: something active.
    On,
    /// Yellow.
    Yellow,
    /// Green: the playing-row marker.
    Marker,
    /// Magenta and bold: platform glyphs.
    Glyph,
    /// Bold.
    Bold,
    /// Red.
    Alert,
    /// White.
    Bright,
    /// A sprite's colour.
    Accent(Accent),
    /// A sprite's colour, bold.
    AccentBold(Accent),
}

/// A run of text with its tone.
#[derive(Debug)]
pub struct Piece {
    pub text: String,
    pub tone: Tone,
}

pub struct PieceView {
    pub text: Seq<char>,
    pub tone: Tone,
}

impl View for Piece {
    type V = PieceView;

    open spec fn view(&self) -> PieceView {
        PieceView { text: self.text@, tone: self.tone }
    }
}

pub open spec fn pieces_view(v: Seq<Piece>) -> Seq<PieceView> {
    Seq::new(v.len(), |i: int| v[i]@)
}

pub open spec fn pv(text: Seq<char>, tone: Tone) -> PieceView {
    PieceView { text, tone }
}

fn piece(text: &str, tone: Tone) -> (r: Piece)
    ensures
        r@ == pv(text@, tone),
{
    Piece { text: str_to_string(text), tone }
}

fn piece_of(text: String, tone: Tone) -> (r: Piece)
    ensures
        r@ == pv(text@, tone),
{
    Piece { text, tone }
}

/// Appends one piece.
fn put(out: &mut Vec<Piece>, p: Piece)
    ensures
        pieces_view(final(out)@) == pieces_view(old(out)@).push(p@),
{
    let ghost before = pieces_view(out@);
    out.push(p);
    assert(pieces_view(out@) =~= before.push(p@));
}

/// The separator between two shortcut hints.
pub open spec fn sep() -> PieceView {
    pv("  ·  "@, Tone::Dim)
}

/// A shortcut hint: the key, then what it does.
pub open spec fn hint(k: Seq<char>, l: Seq<char>) -> Seq<PieceView> {
    seq![pv(k, Tone::Key), pv(" "@ + l, Tone::Dim)]
}

/// Appends a hint.
fn add_hint(out: &mut Vec<Piece>, k: &str, l: &str)
    ensures
        pieces_view(final(out)@) == pieces_view(old(out)@) + hint(k@, l@),
{
    let ghost before = pieces_view(out@);
    put(out, piece(k, Tone::Key));
    let mut t: Vec<char> = Vec::new();
    push_str(&mut t, " ");
    push_str(&mut t, l);
    put(out, piece_of(string_from_chars(t.as_slice()), Tone::Dim));
    assert(pieces_view(out@) =~= before + hint(k@, l@));
}

/// The bottom bar: the global shortcuts, or how to show them.
pub open spec fn shortcut_bar_of(show: bool) -> Seq<PieceView> {
    if !show {
        seq![pv(" ."@, Tone::DimBold), pv(" show shortcuts"@, Tone::Dim)]
    } else {
        seq![pv(" "@, Tone::Plain)] + hint("?"@, "help"@) + seq![sep()] + hint("`"@, "params"@)
            + seq![sep()] + hint("/"@, "nerd"@) + seq![sep()] + hint("q"@, "quit"@) + seq![sep()]
            + hint("."@, "hide"@)
    }
}

pub fn shortcut_bar(show: bool) -> (r: Vec<Piece>)
    ensures
        pieces_view(r@) == shortcut_bar_of(show),
{
    let mut out: Vec<Piece> = Vec::new();
    if !show {
        put(&mut out, piece(" .", Tone::DimBold));
        put(&mut out, piece(" show shortcuts", Tone::Dim));
        assert(pieces_view(out@) =~= shortcut_bar_of(show));
        return out;
    }
    put(&mut out, piece(" ", Tone::Plain));
    add_hint(&mut out, "?", "help");
    put(&mut out, piece("  ·  ", Tone::Dim));
    add_hint(&mut out, "`", "params");
    put(&mut out, piece("  ·  ", Tone::Dim));
    add_hint(&mut out, "/", "nerd");
    put(&mut out, piece("  ·  ", Tone::Dim));
    add_hint(&mut out, "q", "quit");
    put(&mut out, piece("  ·  ", Tone::Dim));
    add_hint(&mut out, ".", "hide");
    assert(pieces_view(out@) =~= shortcut_bar_of(show));
    out
}

/// `s` right-aligned in `w` columns (counting characters), as `{:>w}`
/// pads it.
pub open spec fn pad_left(s: Seq<char>, w: nat) -> Seq<char> {
    if s.len() >= w {
        s
    } else {
        Seq::new((w - s.len()) as nat, |i: int| ' ') + s
    }
}

fn pad_left_to(s: &str, w: usize) -> (r: String)
    ensures
        r@ == pad_left(s@, w as nat),
{
    let v = crate::text::str_chars(s);
    let mut out: Vec<char> = Vec::new();
    if v.len() < w {
        let n = w - v.len();
        let mut i: usize = 0;
        while i < n
            invariant
                i <= n,
                out@ == Seq::new(i as nat, |k: int| ' '),
            decreases n - i,
        {
            out.push(' ');
            i += 1;
            assert(out@ =~= Seq::new(i as nat, |k: int| ' '));
        }
    }
    crate::text::push_chars(&mut out, v.as_slice());
    assert(out@ =~= pad_left(s@, w as nat));
    string_from_chars(out.as_slice())
}

/// One row of a track list: playing marker, duration, platform glyph,
/// folder depth (in the results and folder lists), title and uploader
/// (for streamed tracks).
pub open spec fn track_row_of(t: TrackView, playing: bool, show_depth: bool) -> Seq<PieceView> {
    seq![
        pv(if playing { "▶ "@ } else { "  "@ }, Tone::Marker),
        pv(pad_left(duration_text(t.duration), 5) + "  "@, Tone::Plain),
        pv(platform_glyph(effective_platform_of(t)), Tone::Glyph),
        pv("  "@, Tone::Plain),
    ] + (if show_depth && t.local_depth is Some {
        seq![pv(depth_mark(t.local_depth->0), Tone::Dim), pv("  "@, Tone::Plain)]
    } else {
        Seq::empty()
    }) + seq![pv(t.title, Tone::Bold)] + (if effective_platform_of(t) != Platform::Local
        && t.uploader.len() > 0 {
        seq![pv("  "@, Tone::Plain), pv("— "@ + t.uploader, Tone::Dim)]
    } else {
        Seq::empty()
    })
}

pub fn track_row(t: &Track, playing: bool, show_depth: bool) -> (r: Vec<Piece>)
    ensures
        pieces_view(r@) == track_row_of(t@, playing, show_depth),
{
    let mut out: Vec<Piece> = Vec::new();
    put(&mut out, piece(if playing { "▶ " } else { "  " }, Tone::Marker));
    let d = t.duration_str();
    let padded = pad_left_to(d.as_str(), 5);
    let mut cell = crate::text::str_chars(padded.as_str());
    push_str(&mut cell, "  ");
    put(&mut out, piece_of(string_from_chars(cell.as_slice()), Tone::Plain));
    put(&mut out, piece(t.source_glyph(), Tone::Glyph));
    put(&mut out, piece("  ", Tone::Plain));
    let ghost head = pieces_view(out@);
    if show_depth {
        if let Some(depth) = t.local_depth {
            put(&mut out, piece_of(crate::local_scan::depth_marker(depth), Tone::Dim));
            put(&mut out, piece("  ", Tone::Plain));
        }
    }
    let ghost mid = pieces_view(out@);
    put(&mut out, piece_of(t.title.clone(), Tone::Bold));
    if !t.is_local() && !t.uploader.as_str().is_empty() {
        put(&mut out, piece("  ", Tone::Plain));
        let mut u: Vec<char> = Vec::new();
        push_str(&mut u, "— ");
        push_str(&mut u, t.uploader.as_str());
        put(&mut out, piece_of(string_from_chars(u.as_slice()), Tone::Dim));
    }
    assert(pieces_view(out@) =~= track_row_of(t@, playing, show_depth));
    out
}

/// Where the queue came from, as the now-playing title names it.
pub open spec fn queue_source_text(a: AppView) -> Seq<char> {
    match a.queue_source {
        QueueSourceView::Results => "search results"@,
        QueueSourceView::Unsaved => "Unsaved"@,
        QueueSourceView::Saved(name) => name,
        QueueSourceView::LocalFolder => "⌂: "@ + match a.config.local_folder_label {
            Some(l) => l,
            None => "folder"@,
        },
    }
}

pub fn queue_source_label(app: &App) -> (r: String)
    ensures
        r@ == queue_source_text(app@),
{
    match &app.queue_source {
        QueueSource::Results => str_to_string("search results"),
        QueueSource::Unsaved => str_to_string("Unsaved"),
        QueueSource::Saved { name } => name.clone(),
        QueueSource::LocalFolder => {
            let mut out: Vec<char> = Vec::new();
            push_str(&mut out, "⌂: ");
            match &app.config.local_folder_label {
                Some(l) => push_str(&mut out, l.as_str()),
                None => push_str(&mut out, "folder"),
            }
            string_from_chars(out.as_slice())
        },
    }
}

/// The output device line in the nerd overlay.
pub open spec fn device_name_text(a: AppView) -> Seq<char> {
    match a.output_device {
        Some(d) => d.name,
        None => "(default system output)"@,
    }
}

pub fn device_name_str(app: &App) -> (r: String)
    ensures
        r@ == device_name_text(app@),
{
    match &app.output_device {
        Some(d) => d.name.clone(),
        None => str_to_string("(default system output)"),
    }
}

/// The device kind and transport line in the nerd overlay.
pub open spec fn device_model_text(a: AppView) -> Seq<char> {
    match a.output_device {
        Some(d) => d.kind.spec_label() + ", "@ + d.transport,
        None => "(generic audio)"@,
    }
}

pub fn device_model_str(app: &App) -> (r: String)
    ensures
        r@ == device_model_text(app@),
{
    match &app.output_device {
        Some(d) => {
            let mut out: Vec<char> = Vec::new();
            push_str(&mut out, d.kind.label());
            push_str(&mut out, ", ");
            push_str(&mut out, d.transport.as_str());
            string_from_chars(out.as_slice())
        },
        None => str_to_string("(generic audio)"),
    }
}

/// The right-hand title of the now-playing box: device face, Bluetooth
/// rune, and the volume block.
pub open spec fn device_title_of(a: AppView) -> Seq<PieceView> {
    let (kind, bt) = match a.output_device {
        Some(d) => (d.kind, d.bluetooth),
        None => (DeviceKind::Unknown, false),
    };
    seq![pv(" "@, Tone::Plain), pv(kind.spec_kaomoji(), Tone::On)] + (if bt {
        seq![pv(" "@, Tone::Plain), pv("ᛒ"@, Tone::On)]
    } else {
        Seq::empty()
    }) + seq![
        pv(" "@, Tone::Plain),
        pv(volume_blocks()[volume_block_index(a.config.volume)], Tone::On),
        pv(" "@, Tone::Plain),
    ]
}

pub fn device_title(app: &App) -> (r: Vec<Piece>)
    ensures
        pieces_view(r@) == device_title_of(app@),
{
    let (kind, bt) = match &app.output_device {
        Some(d) => (d.kind, d.bluetooth),
        None => (DeviceKind::Unknown, false),
    };
    let mut out: Vec<Piece> = Vec::new();
    put(&mut out, piece(" ", Tone::Plain));
    put(&mut out, piece(kind.kaomoji(), Tone::On));
    if bt {
        put(&mut out, piece(" ", Tone::Plain));
        put(&mut out, piece("ᛒ", Tone::On));
    }
    put(&mut out, piece(" ", Tone::Plain));
    put(&mut out, piece(crate::audio::volume_block(app.config.volume), Tone::On));
    put(&mut out, piece(" ", Tone::Plain));
    assert(pieces_view(out@) =~= device_title_of(app@));
    out
}

/// The volume pop-up: a bar of 20 cells, filled to the nearest cell, the
/// percentage right-aligned in three columns, and the face.
pub open spec fn volume_line_of(v: u8) -> Seq<PieceView> {
    let filled = ((v * 20 + 50) / 100) as nat;
    seq![
        pv(" "@, Tone::Plain),
        pv(Seq::new(filled, |i: int| '█'), Tone::Key),
        pv(Seq::new((20 - filled) as nat, |i: int| '░'), Tone::Dim),
        pv(" "@ + pad_left(dec(v as nat), 3) + "% "@, Tone::On),
        pv(volume_face_of(v), Tone::Glyph),
    ]
}

fn repeat_char(c: char, n: usize) -> (r: String)
    ensures
        r@ == Seq::new(n as nat, |i: int| c),
{
    let mut out: Vec<char> = Vec::new();
    let mut i: usize = 0;
    while i < n
        invariant
            i <= n,
            out@ == Seq::new(i as nat, |k: int| c),
        decreases n - i,
    {
        out.push(c);
        i += 1;
        assert(out@ =~= Seq::new(i as nat, |k: int| c));
    }
    string_from_chars(out.as_slice())
}

pub fn volume_line(v: u8) -> (r: Vec<Piece>)
    requires
        (v * 20 + 50) / 100 <= 20,
    ensures
        pieces_view(r@) == volume_line_of(v),
{
    let filled: usize = ((v as usize) * 20 + 50) / 100;
    let mut out: Vec<Piece> = Vec::new();
    put(&mut out, piece(" ", Tone::Plain));
    put(&mut out, piece_of(repeat_char('█', filled), Tone::Key));
    put(&mut out, piece_of(repeat_char('░', 20 - filled), Tone::Dim));
    let mut digits: Vec<char> = Vec::new();
    push_dec(&mut digits, v as u64);
    let ds = string_from_chars(digits.as_slice());
    let padded = pad_left_to(ds.as_str(), 3);
    let mut pct: Vec<char> = Vec::new();
    push_str(&mut pct, " ");
    push_str(&mut pct, padded.as_str());
    push_str(&mut pct, "% ");
    put(&mut out, piece_of(string_from_chars(pct.as_slice()), Tone::On));
    put(&mut out, piece(crate::ui::volume_face(v), Tone::Glyph));
    assert(pieces_view(out@) =~= volume_line_of(v));
    out
}

/// A tab of the title bar: bracketed and bright when focused.
pub open spec fn tab_slot(label: Seq<char>, on: bool) -> Seq<PieceView> {
    if on {
        seq![pv("[ "@, Tone::Plain), pv(label, Tone::On), pv(" ]  "@, Tone::Plain)]
    } else {
        seq![pv(label, Tone::Dim), pv("  "@, Tone::Plain)]
    }
}

/// The title bar of the lists: the three tabs with their counts, and the
/// focused list's shortcuts.
pub open spec fn tab_title_of(a: AppView) -> Seq<PieceView> {
    seq![pv(" "@, Tone::Plain)] + tab_slot(results_label_of(a), a.focus == ListFocus::Results)
        + tab_slot(
        "Library ("@ + dec(row_count_of(a) as nat) + ")"@,
        a.focus == ListFocus::YtPlaylist || a.focus == ListFocus::YtLibrary,
    ) + tab_slot(local_label_of(a), a.focus == ListFocus::LocalFolder) + tab_context_of(a) + seq![
        pv(" "@, Tone::Plain),
    ]
}

fn put_slot(out: &mut Vec<Piece>, label: String, on: bool)
    ensures
        pieces_view(final(out)@) == pieces_view(old(out)@) + tab_slot(label@, on),
{
    let ghost before = pieces_view(out@);
    let ghost l = label@;
    if on {
        put(out, piece("[ ", Tone::Plain));
        put(out, piece_of(label, Tone::On));
        put(out, piece(" ]  ", Tone::Plain));
    } else {
        put(out, piece_of(label, Tone::Dim));
        put(out, piece("  ", Tone::Plain));
    }
    assert(pieces_view(out@) =~= before + tab_slot(l, on));
}

/// Appends a separator and a hint.
fn put_sep_hint(out: &mut Vec<Piece>, k: &str, l: &str)
    ensures
        pieces_view(final(out)@) == pieces_view(old(out)@) + seq![sep()] + hint(k@, l@),
{
    let ghost before = pieces_view(out@);
    put(out, piece("  ·  ", Tone::Dim));
    add_hint(out, k, l);
    assert(pieces_view(out@) =~= before + seq![sep()] + hint(k@, l@));
}

pub open spec fn results_label_of(a: AppView) -> Seq<char> {
    if a.searching {
        "Results (searching…)"@
    } else {
        "Results ("@ + dec(a.results.len()) + ")"@
    }
}

pub open spec fn local_label_of(a: AppView) -> Seq<char> {
    let name = match a.config.local_folder_label {
        Some(l) => l,
        None => "—"@,
    };
    if a.local_folder_scanning {
        "⌂: "@ + name + " (scanning…)"@
    } else {
        "⌂: "@ + name + " ("@ + dec(a.local_folder.len()) + ")"@
    }
}

pub open spec fn tab_context_of(a: AppView) -> Seq<PieceView> {
    if !a.config.show_shortcuts {
        Seq::empty()
    } else {
        match a.focus {
            ListFocus::Results => seq![sep()] + hint("⇥"@, "switch"@) + seq![sep()] + hint(
                "+"@,
                "add"@,
            ) + seq![sep()] + hint("↵"@, "play"@) + seq![sep()] + hint("y"@, "URL"@),
            ListFocus::LocalFolder => seq![sep()] + hint("⇥"@, "switch"@) + seq![sep()] + hint(
                "+"@,
                "add"@,
            ) + seq![sep()] + hint("↵"@, "play"@) + seq![sep()] + hint("o"@, "change folder"@),
            _ => seq![sep()] + hint("⇥"@, "switch"@) + seq![sep()] + hint("p"@, "add URL"@) + seq![
                sep(),
            ] + hint("S"@, "save Unsaved"@),
        }
    }
}

fn results_label(app: &App) -> (r: String)
    ensures
        r@ == results_label_of(app@),
{
    if app.searching {
        str_to_string("Results (searching…)")
    } else {
        let mut t: Vec<char> = Vec::new();
        push_str(&mut t, "Results (");
        push_dec(&mut t, app.results.len() as u64);
        push_str(&mut t, ")");
        string_from_chars(t.as_slice())
    }
}

fn local_label(app: &App) -> (r: String)
    ensures
        r@ == local_label_of(app@),
{
    let mut local: Vec<char> = Vec::new();
    push_str(&mut local, "⌂: ");
    match &app.config.local_folder_label {
        Some(l) => push_str(&mut local, l.as_str()),
        None => push_str(&mut local, "—"),
    }
    if app.local_folder_scanning {
        push_str(&mut local, " (scanning…)");
    } else {
        push_str(&mut local, " (");
        push_dec(&mut local, app.local_folder.len() as u64);
        push_str(&mut local, ")");
    }
    string_from_chars(local.as_slice())
}

fn put_tab_context(out: &mut Vec<Piece>, app: &App)
    ensures
        pieces_view(final(out)@) == pieces_view(old(out)@) + tab_context_of(app@),
{
    let ghost before = pieces_view(out@);
    if app.config.show_shortcuts {
        match app.focus {
            ListFocus::Results => {
                put_sep_hint(out, "⇥", "switch");
                put_sep_hint(out, "+", "add");
                put_sep_hint(out, "↵", "play");
                put_sep_hint(out, "y", "URL");
            },
            ListFocus::LocalFolder => {
                put_sep_hint(out, "⇥", "switch");
                put_sep_hint(out, "+", "add");
                put_sep_hint(out, "↵", "play");
                put_sep_hint(out, "o", "change folder");
            },
            _ => {
                put_sep_hint(out, "⇥", "switch");
                put_sep_hint(out, "p", "add URL");
                put_sep_hint(out, "S", "save Unsaved");
            },
        }
    }
    assert(pieces_view(out@) =~= before + tab_context_of(app@));
}

pub fn tab_title(app: &App) -> (r: Vec<Piece>)
    requires
        row_count_of(app@) <= usize::MAX,
    ensures
        pieces_view(r@) == tab_title_of(app@),
{
    let mut out: Vec<Piece> = Vec::new();
    put(&mut out, piece(" ", Tone::Plain));
    let mut lib: Vec<char> = Vec::new();
    push_str(&mut lib, "Library (");
    push_dec(&mut lib, app.saved_playlist_row_count() as u64);
    push_str(&mut lib, ")");
    put_slot(&mut out, results_label(app), app.focus == ListFocus::Results);
    put_slot(
        &mut out,
        string_from_chars(lib.as_slice()),
        app.focus == ListFocus::YtPlaylist || app.focus == ListFocus::YtLibrary,
    );
    put_slot(&mut out, local_label(app), app.focus == ListFocus::LocalFolder);
    put_tab_context(&mut out, app);
    put(&mut out, piece(" ", Tone::Plain));
    assert(pieces_view(out@) =~= tab_title_of(app@));
    out
}

/// The left-hand title of the now-playing box: where the queue came from,
/// and the loop and shuffle states (with their keys when shortcuts show).
pub open spec fn now_playing_title_of(a: AppView) -> Seq<PieceView> {
    let head = seq![pv(" Now Playing "@, Tone::Plain)] + if crate::settings::current_of(a) is Some {
        seq![pv("· from: "@, Tone::Dim), pv(queue_source_text(a) + " "@, Tone::On)]
    } else {
        Seq::empty()
    };
    let lm = a.config.loop_mode;
    if !a.config.show_shortcuts {
        head + seq![
            match lm {
                LoopMode::Off => pv("· loop:off "@, Tone::Dim),
                LoopMode::All => pv("· loop:all "@, Tone::On),
                LoopMode::One => pv("· loop:one "@, Tone::On),
            },
            if a.config.shuffle {
                pv("· shuffle "@, Tone::On)
            } else {
                pv("· shuffle:off "@, Tone::Dim)
            },
        ]
    } else {
        head + seq![
            sep(),
            pv("L"@, Tone::Key),
            pv(" loop:"@ + lm.spec_label(), if lm == LoopMode::Off { Tone::Dim } else { Tone::On }),
            sep(),
            pv("H"@, Tone::Key),
            if a.config.shuffle {
                pv(" shuffle"@, Tone::On)
            } else {
                pv(" shuffle:off"@, Tone::Dim)
            },
        ] + seq![sep()] + hint("␣"@, "pause"@) + seq![sep()] + hint("n/b"@, "skip"@) + seq![sep()]
            + hint("f/r"@, "±10s"@) + seq![sep()] + hint("z/x"@, "vol"@) + seq![sep()] + hint(
            "c"@,
            "CC"@,
        ) + seq![pv(" "@, Tone::Plain)]
    }
}

pub fn now_playing_title(app: &App) -> (r: Vec<Piece>)
    ensures
        pieces_view(r@) == now_playing_title_of(app@),
{
    let mut out: Vec<Piece> = Vec::new();
    put(&mut out, piece(" Now Playing ", Tone::Plain));
    if app.current_track().is_some() {
        put(&mut out, piece("· from: ", Tone::Dim));
        let mut t = crate::text::str_chars(queue_source_label(app).as_str());
        push_str(&mut t, " ");
        put(&mut out, piece_of(string_from_chars(t.as_slice()), Tone::On));
    }
    let lm = app.config.loop_mode;
    if !app.config.show_shortcuts {
        put(
            &mut out,
            match lm {
                LoopMode::Off => piece("· loop:off ", Tone::Dim),
                LoopMode::All => piece("· loop:all ", Tone::On),
                LoopMode::One => piece("· loop:one ", Tone::On),
            },
        );
        put(
            &mut out,
            if app.config.shuffle {
                piece("· shuffle ", Tone::On)
            } else {
                piece("· shuffle:off ", Tone::Dim)
            },
        );
        assert(pieces_view(out@) =~= now_playing_title_of(app@));
        return out;
    }
    put(&mut out, piece("  ·  ", Tone::Dim));
    put(&mut out, piece("L", Tone::Key));
    let mut l: Vec<char> = Vec::new();
    push_str(&mut l, " loop:");
    push_str(&mut l, lm.label());
    put(
        &mut out,
        piece_of(
            string_from_chars(l.as_slice()),
            if lm == LoopMode::Off {
                Tone::Dim
            } else {
                Tone::On
            },
        ),
    );
    put(&mut out, piece("  ·  ", Tone::Dim));
    put(&mut out, piece("H", Tone::Key));
    put(
        &mut out,
        if app.config.shuffle {
            piece(" shuffle", Tone::On)
        } else {
            piece(" shuffle:off", Tone::Dim)
        },
    );
    put_sep_hint(&mut out, "␣", "pause");
    put_sep_hint(&mut out, "n/b", "skip");
    put_sep_hint(&mut out, "f/r", "±10s");
    put_sep_hint(&mut out, "z/x", "vol");
    put_sep_hint(&mut out, "c", "CC");
    put(&mut out, piece(" ", Tone::Plain));
    assert(pieces_view(out@) =~= now_playing_title_of(app@));
    out
}

/// The right-hand title of a list: the known total playing time, except
/// for the search results and for empty lists.
pub open spec fn total_for_focus_of(a: AppView, ts: Seq<TrackView>) -> Option<Seq<PieceView>> {
    if a.focus == ListFocus::Results || ts.len() == 0 {
        None
    } else {
        match total_duration_text(crate::ui::known_total(ts) as u64) {
            Some(body) => Some(
                seq![pv(" total "@, Tone::Dim), pv(body, Tone::On), pv(" "@, Tone::Plain)],
            ),
            None => None,
        }
    }
}

pub fn total_for_focus(app: &App, tracks: &[Track]) -> (r: Option<Vec<Piece>>)
    requires
        crate::ui::known_total(crate::ui::track_views(tracks@)) <= u64::MAX,
    ensures
        match (r, total_for_focus_of(app@, crate::ui::track_views(tracks@))) {
            (Some(v), Some(w)) => pieces_view(v@) == w,
            (None, None) => true,
            _ => false,
        },
{
    if app.focus == ListFocus::Results || tracks.len() == 0 {
        return None;
    }
    let total = crate::ui::total_duration(tracks);
    let body = match crate::ui::fmt_total_duration(total) {
        Some(b) => b,
        None => return None,
    };
    let mut out: Vec<Piece> = Vec::new();
    put(&mut out, piece(" total ", Tone::Dim));
    put(&mut out, piece_of(body, Tone::On));
    put(&mut out, piece(" ", Tone::Plain));
    assert(pieces_view(out@) =~= total_for_focus_of(app@, crate::ui::track_views(tracks@))->0);
    Some(out)
}

pub open spec fn rows_view(v: Seq<Vec<Piece>>) -> Seq<Seq<PieceView>> {
    Seq::new(v.len(), |i: int| pieces_view(v[i]@))
}

/// The row of saved playlist `i`.
pub open spec fn entry_row_of(a: AppView, i: int, e: EntryView) -> Seq<PieceView> {
    seq![
        pv(
            if a.active_library == crate::app::ActiveLibrary::Saved(i as usize) {
                "▶ "@
            } else {
                "  "@
            },
            Tone::Marker,
        ),
        pv(
            if e.favorite {
                "★ "@
            } else {
                "☆ "@
            },
            if e.favorite {
                Tone::On
            } else {
                Tone::Dim
            },
        ),
        pv(platform_glyph(e.platform) + " "@, Tone::Glyph),
        pv(e.title, Tone::Bold),
        pv("  "@, Tone::Plain),
        pv("("@ + dec(e.track_count as nat) + ")"@, Tone::Dim),
        pv("  "@, Tone::Plain),
        pv("--"@, Tone::Dim),
    ]
}

/// The Unsaved row: its track count and known total.
pub open spec fn unsaved_row_of(a: AppView) -> Seq<PieceView> {
    seq![
        pv(
            if a.active_library == crate::app::ActiveLibrary::Unsaved {
                "▶ "@
            } else {
                "  "@
            },
            Tone::Marker,
        ),
        pv("✎ "@, Tone::On),
        pv("  "@, Tone::Plain),
        pv("Unsaved"@, Tone::On),
        pv("  "@, Tone::Plain),
        pv("("@ + dec(a.playlist.len()) + ")"@, Tone::Dim),
        pv("  "@, Tone::Plain),
        pv(
            match total_duration_text(crate::ui::known_total(a.playlist) as u64) {
                Some(t) => t,
                None => "--"@,
            },
            Tone::Dim,
        ),
    ]
}

/// The rows of the saved-playlist pane.
pub open spec fn library_rows_of(a: AppView) -> Seq<Seq<PieceView>> {
    let rows = (if crate::app::unsaved_visible_of(a) {
        seq![unsaved_row_of(a)]
    } else {
        Seq::empty()
    }) + Seq::new(a.library.len(), |i: int| entry_row_of(a, i, a.library[i]));
    if rows.len() == 0 {
        seq![
            seq![
                pv(
                    "  Empty. Press `p` to add a playlist URL, or play tracks to seed Unsaved."@,
                    Tone::Dim,
                ),
            ],
        ]
    } else {
        rows
    }
}

fn entry_row(app: &App, i: usize) -> (r: Vec<Piece>)
    requires
        i < app@.library.len(),
    ensures
        pieces_view(r@) == entry_row_of(app@, i as int, app@.library[i as int]),
{
    let e = &app.library.entries[i];
    let mut out: Vec<Piece> = Vec::new();
    put(
        &mut out,
        piece(
            if app.active_library == crate::app::ActiveLibrary::Saved(i) {
                "▶ "
            } else {
                "  "
            },
            Tone::Marker,
        ),
    );
    put(
        &mut out,
        if e.favorite {
            piece("★ ", Tone::On)
        } else {
            piece("☆ ", Tone::Dim)
        },
    );
    let mut g: Vec<char> = Vec::new();
    push_str(
        &mut g,
        match e.platform {
            Platform::Bilibili => "B",
            Platform::Local => "⌂",
            Platform::YouTube => "Y",
        },
    );
    push_str(&mut g, " ");
    put(&mut out, piece_of(string_from_chars(g.as_slice()), Tone::Glyph));
    put(&mut out, piece_of(e.title.clone(), Tone::Bold));
    put(&mut out, piece("  ", Tone::Plain));
    let mut c: Vec<char> = Vec::new();
    push_str(&mut c, "(");
    push_dec(&mut c, e.track_count as u64);
    push_str(&mut c, ")");
    put(&mut out, piece_of(string_from_chars(c.as_slice()), Tone::Dim));
    put(&mut out, piece("  ", Tone::Plain));
    put(&mut out, piece("--", Tone::Dim));
    assert(pieces_view(out@) =~= entry_row_of(app@, i as int, app@.library[i as int]));
    out
}

fn unsaved_row(app: &App) -> (r: Vec<Piece>)
    requires
        crate::ui::known_total(app@.playlist) <= u64::MAX,
    ensures
        pieces_view(r@) == unsaved_row_of(app@),
{
    let mut out: Vec<Piece> = Vec::new();
    put(
        &mut out,
        piece(
            if app.active_library == crate::app::ActiveLibrary::Unsaved {
                "▶ "
            } else {
                "  "
            },
            Tone::Marker,
        ),
    );
    put(&mut out, piece("✎ ", Tone::On));
    put(&mut out, piece("  ", Tone::Plain));
    put(&mut out, piece("Unsaved", Tone::On));
    put(&mut out, piece("  ", Tone::Plain));
    let mut c: Vec<char> = Vec::new();
    push_str(&mut c, "(");
    push_dec(&mut c, app.playlist.len() as u64);
    push_str(&mut c, ")");
    put(&mut out, piece_of(string_from_chars(c.as_slice()), Tone::Dim));
    put(&mut out, piece("  ", Tone::Plain));
    assert(crate::ui::track_views(app.playlist@) =~= app@.playlist);
    let total = crate::ui::total_duration(app.playlist.as_slice());
    let dur = match crate::ui::fmt_total_duration(total) {
        Some(t) => t,
        None => str_to_string("--"),
    };
    put(&mut out, piece_of(dur, Tone::Dim));
    assert(pieces_view(out@) =~= unsaved_row_of(app@));
    out
}

pub fn library_rows(app: &App) -> (r: Vec<Vec<Piece>>)
    requires
        crate::ui::known_total(app@.playlist) <= u64::MAX,
    ensures
        rows_view(r@) == library_rows_of(app@),
{
    let mut rows: Vec<Vec<Piece>> = Vec::new();
    if app.unsaved_visible() {
        rows.push(unsaved_row(app));
    }
    let ghost head = rows_view(rows@);
    let mut i: usize = 0;
    while i < app.library.entries.len()
        invariant
            i <= app@.library.len(),
            app@.library.len() == app.library.entries@.len(),
            head == (if crate::app::unsaved_visible_of(app@) {
                seq![unsaved_row_of(app@)]
            } else {
                Seq::<Seq<PieceView>>::empty()
            }),
            rows_view(rows@) == head + Seq::new(i as nat, |k: int| entry_row_of(app@, k, app@.library[k])),
        decreases app@.library.len() - i,
    {
        let ghost before = rows_view(rows@);
        let row = entry_row(app, i);
        let ghost rv = pieces_view(row@);
        rows.push(row);
        assert(rows_view(rows@) =~= before.push(rv));
        assert(rows_view(rows@) =~= head + Seq::new((i + 1) as nat, |k: int| entry_row_of(app@, k, app@.library[k])));
        i += 1;
    }
    if rows.len() == 0 {
        let mut only: Vec<Piece> = Vec::new();
        put(
            &mut only,
            piece("  Empty. Press `p` to add a playlist URL, or play tracks to seed Unsaved.", Tone::Dim),
        );
        let ghost ov = pieces_view(only@);
        assert(ov =~= seq![
            pv("  Empty. Press `p` to add a playlist URL, or play tracks to seed Unsaved."@, Tone::Dim),
        ]);
        let ghost r0 = rows_view(rows@);
        assert(r0.len() == 0);
        rows.push(only);
        assert(rows_view(rows@) =~= seq![ov]);
        let ghost all = (if crate::app::unsaved_visible_of(app@) {
            seq![unsaved_row_of(app@)]
        } else {
            Seq::<Seq<PieceView>>::empty()
        }) + Seq::new(app@.library.len(), |k: int| entry_row_of(app@, k, app@.library[k]));
        assert(all.len() == 0);
        assert(rows_view(rows@) =~= library_rows_of(app@));
        return rows;
    }
    assert(rows_view(rows@) =~= library_rows_of(app@));
    rows
}

/// The title of the saved-playlist pane.
pub open spec fn library_title_of(a: AppView, focused: bool) -> Seq<PieceView> {
    seq![
        pv(" "@, Tone::Plain),
        pv(
            "Saved Playlists ("@ + dec(row_count_of(a) as nat) + ")"@,
            if focused {
                Tone::On
            } else {
                Tone::Dim
            },
        ),
        pv(" "@, Tone::Plain),
    ] + if a.config.show_shortcuts {
        seq![sep()] + hint("⇥"@, "switch"@) + seq![sep()] + hint("↵"@, "activate"@) + seq![sep()]
            + hint("S"@, "save Unsaved"@) + seq![sep()] + hint("f"@, "fav"@) + seq![sep()] + hint(
            "d/⌫"@,
            "remove"@,
        ) + seq![pv(" "@, Tone::Plain)]
    } else {
        Seq::empty()
    }
}

pub fn library_title(app: &App, focused: bool) -> (r: Vec<Piece>)
    requires
        row_count_of(app@) <= usize::MAX,
    ensures
        pieces_view(r@) == library_title_of(app@, focused),
{
    let mut out: Vec<Piece> = Vec::new();
    put(&mut out, piece(" ", Tone::Plain));
    let mut t: Vec<char> = Vec::new();
    push_str(&mut t, "Saved Playlists (");
    push_dec(&mut t, app.saved_playlist_row_count() as u64);
    push_str(&mut t, ")");
    put(
        &mut out,
        piece_of(
            string_from_chars(t.as_slice()),
            if focused {
                Tone::On
            } else {
                Tone::Dim
            },
        ),
    );
    put(&mut out, piece(" ", Tone::Plain));
    if app.config.show_shortcuts {
        put_sep_hint(&mut out, "⇥", "switch");
        put_sep_hint(&mut out, "↵", "activate");
        put_sep_hint(&mut out, "S", "save Unsaved");
        put_sep_hint(&mut out, "f", "fav");
        put_sep_hint(&mut out, "d/⌫", "remove");
        put(&mut out, piece(" ", Tone::Plain));
    }
    assert(pieces_view(out@) =~= library_title_of(app@, focused));
    out
}

/// The row of a track is marked when it is the playing one (by id).
pub open spec fn playing(a: AppView, t: TrackView) -> bool {
    match crate::settings::current_of(a) {
        Some(c) => c.id == t.id,
        None => false,
    }
}

/// Rows for a list of tracks.
pub open spec fn track_rows_of(a: AppView, ts: Seq<TrackView>, show_depth: bool) -> Seq<Seq<PieceView>> {
    Seq::new(ts.len(), |i: int| track_row_of(ts[i], playing(a, ts[i]), show_depth))
}

pub fn track_rows(app: &App, tracks: &[Track], show_depth: bool) -> (r: Vec<Vec<Piece>>)
    ensures
        rows_view(r@) == track_rows_of(app@, crate::ui::track_views(tracks@), show_depth),
{
    let current_id: Option<String> = match app.current_track() {
        Some(t) => Some(t.id.clone()),
        None => None,
    };
    let ghost tv = crate::ui::track_views(tracks@);
    let mut rows: Vec<Vec<Piece>> = Vec::new();
    let mut i: usize = 0;
    while i < tracks.len()
        invariant
            i <= tracks@.len(),
            tv == crate::ui::track_views(tracks@),
            match current_id {
                Some(c) => crate::settings::current_of(app@) is Some && c@ == crate::settings::current_of(app@)->0.id,
                None => crate::settings::current_of(app@) is None,
            },
            rows_view(rows@) == Seq::new(i as nat, |k: int| track_row_of(tv[k], playing(app@, tv[k]), show_depth)),
        decreases tracks@.len() - i,
    {
        let t = &tracks[i];
        assert(tv[i as int] == t@);
        let is_playing = match &current_id {
            Some(c) => crate::text::str_eq(c.as_str(), t.id.as_str()),
            None => false,
        };
        assert(is_playing == playing(app@, tv[i as int]));
        let ghost before = rows_view(rows@);
        let row = track_row(t, is_playing, show_depth);
        let ghost rv = pieces_view(row@);
        rows.push(row);
        assert(rows_view(rows@) =~= before.push(rv));
        assert(rows_view(rows@) =~= Seq::new((i + 1) as nat, |k: int| track_row_of(tv[k], playing(app@, tv[k]), show_depth)));
        i += 1;
    }
    rows
}

/// What an empty results or folder list says.
pub open spec fn results_hint_of(a: AppView) -> Seq<char> {
    if a.focus == ListFocus::LocalFolder {
        if a.local_folder_scanning {
            "  scanning..."@
        } else {
            "  Press `o` and give a directory path to scan (recursive, up to depth 4)."@
        }
    } else {
        "  Press `s` to search YouTube, `o` to open a local file or folder..."@
    }
}

pub fn results_hint(app: &App) -> (r: &'static str)
    ensures
        r@ == results_hint_of(app@),
{
    if app.focus == ListFocus::LocalFolder {
        if app.local_folder_scanning {
            "  scanning..."
        } else {
            "  Press `o` and give a directory path to scan (recursive, up to depth 4)."
        }
    } else {
        "  Press `s` to search YouTube, `o` to open a local file or folder..."
    }
}

/// What an empty tracks pane says.
pub open spec fn tracks_hint_of(a: AppView) -> Seq<char> {
    if a.yt_playlist_loading {
        "  loading..."@
    } else if a.active_library == crate::app::ActiveLibrary::Unsaved {
        "  Unsaved is empty. Play something from Results, ⌂, or a saved entry."@
    } else {
        "  No tracks. Pick an entry in Saved Playlists and press Enter."@
    }
}

pub fn tracks_hint(app: &App) -> (r: &'static str)
    ensures
        r@ == tracks_hint_of(app@),
{
    if app.yt_playlist_loading {
        "  loading..."
    } else if app.active_library == crate::app::ActiveLibrary::Unsaved {
        "  Unsaved is empty. Play something from Results, ⌂, or a saved entry."
    } else {
        "  No tracks. Pick an entry in Saved Playlists and press Enter."
    }
}

/// The title of the tracks pane: the active playlist and its size.
pub open spec fn tracks_title_of(a: AppView, focused: bool) -> Seq<PieceView> {
    let name = match a.active_library {
        crate::app::ActiveLibrary::Unsaved => "Unsaved"@,
        crate::app::ActiveLibrary::Saved(i) => if i < a.library.len() {
            a.library[i as int].title
        } else {
            "Saved Playlist"@
        },
    };
    let label = if a.yt_playlist_loading {
        "Tracks · "@ + name + " (loading…)"@
    } else {
        "Tracks · "@ + name + " ("@ + dec(active_tracks_of(a).len()) + ")"@
    };
    seq![
        pv(" "@, Tone::Plain),
        pv(label, if focused { Tone::On } else { Tone::Dim }),
        pv(" "@, Tone::Plain),
    ] + if a.config.show_shortcuts {
        seq![sep()] + hint("⇥"@, "switch"@) + seq![sep()] + hint("+"@, "add"@) + seq![sep()]
            + hint("↵"@, "play"@) + seq![sep()] + hint("y"@, "URL"@) + seq![pv(" "@, Tone::Plain)]
    } else {
        Seq::empty()
    }
}

pub fn tracks_title(app: &App, focused: bool) -> (r: Vec<Piece>)
    ensures
        pieces_view(r@) == tracks_title_of(app@, focused),
{
    let mut t: Vec<char> = Vec::new();
    push_str(&mut t, "Tracks · ");
    push_str(&mut t, app.active_title().as_str());
    if app.yt_playlist_loading {
        push_str(&mut t, " (loading…)");
    } else {
        push_str(&mut t, " (");
        push_dec(&mut t, app.active_tracks().len() as u64);
        push_str(&mut t, ")");
    }
    let mut out: Vec<Piece> = Vec::new();
    put(&mut out, piece(" ", Tone::Plain));
    put(
        &mut out,
        piece_of(
            string_from_chars(t.as_slice()),
            if focused {
                Tone::On
            } else {
                Tone::Dim
            },
        ),
    );
    put(&mut out, piece(" ", Tone::Plain));
    if app.config.show_shortcuts {
        put_sep_hint(&mut out, "⇥", "switch");
        put_sep_hint(&mut out, "+", "add");
        put_sep_hint(&mut out, "↵", "play");
        put_sep_hint(&mut out, "y", "URL");
        put(&mut out, piece(" ", Tone::Plain));
    }
    assert(pieces_view(out@) =~= tracks_title_of(app@, focused));
    out
}

/// The search bar: its title with the prompt's keys, its text, and the
/// text's tone.
pub open spec fn search_box_of(a: AppView) -> (Seq<PieceView>, Seq<char>, Tone) {
    let prompt = |name: Seq<char>, verb: Seq<char>|
        seq![pv(name, Tone::Plain), sep()] + hint("↵"@, verb) + seq![sep()] + hint("esc"@, "cancel"@)
            + seq![pv(" "@, Tone::Plain)];
    match a.mode {
        Mode::Searching => (prompt(" Search "@, "submit"@), a.query + "_"@, Tone::Yellow),
        Mode::OpenFile => (prompt(" Open file "@, "play"@), a.query + "_"@, Tone::Yellow),
        Mode::YtPlaylistInput => (prompt(" YT playlist URL "@, "load"@), a.query + "_"@, Tone::Yellow),
        Mode::SavePlaylist => (prompt(" Save Unsaved as "@, "save"@), a.query + "_"@, Tone::Yellow),
        _ => (
            seq![pv(" Search "@, Tone::Plain), sep()] + hint("s"@, "search"@) + seq![sep()] + hint(
                "o"@,
                "open file"@,
            ) + seq![sep()] + hint("p"@, "yt playlist"@) + seq![pv(" "@, Tone::Plain)],
            if a.query.len() == 0 {
                "Press `s` to search, `o` to open file, `p` to load a YT playlist..."@
            } else {
                a.query
            },
            Tone::Dim,
        ),
    }
}

fn prompt_title(name: &str, verb: &str) -> (r: Vec<Piece>)
    ensures
        pieces_view(r@) == seq![pv(name@, Tone::Plain), sep()] + hint("↵"@, verb@) + seq![sep()]
            + hint("esc"@, "cancel"@) + seq![pv(" "@, Tone::Plain)],
{
    let mut out: Vec<Piece> = Vec::new();
    put(&mut out, piece(name, Tone::Plain));
    put_sep_hint(&mut out, "↵", verb);
    put_sep_hint(&mut out, "esc", "cancel");
    put(&mut out, piece(" ", Tone::Plain));
    assert(pieces_view(out@) =~= seq![pv(name@, Tone::Plain), sep()] + hint("↵"@, verb@) + seq![sep()]
        + hint("esc"@, "cancel"@) + seq![pv(" "@, Tone::Plain)]);
    out
}

pub fn search_box(app: &App) -> (r: (Vec<Piece>, String, Tone))
    ensures
        pieces_view(r.0@) == search_box_of(app@).0,
        r.1@ == search_box_of(app@).1,
        r.2 == search_box_of(app@).2,
{
    let typed = {
        let mut t = crate::text::str_chars(app.query.as_str());
        push_str(&mut t, "_");
        string_from_chars(t.as_slice())
    };
    match app.mode {
        Mode::Searching => (prompt_title(" Search ", "submit"), typed, Tone::Yellow),
        Mode::OpenFile => (prompt_title(" Open file ", "play"), typed, Tone::Yellow),
        Mode::YtPlaylistInput => (prompt_title(" YT playlist URL ", "load"), typed, Tone::Yellow),
        Mode::SavePlaylist => (prompt_title(" Save Unsaved as ", "save"), typed, Tone::Yellow),
        _ => {
            let mut out: Vec<Piece> = Vec::new();
            put(&mut out, piece(" Search ", Tone::Plain));
            put_sep_hint(&mut out, "s", "search");
            put_sep_hint(&mut out, "o", "open file");
            put_sep_hint(&mut out, "p", "yt playlist");
            put(&mut out, piece(" ", Tone::Plain));
            assert(pieces_view(out@) =~= search_box_of(app@).0);
            let text = if app.query.as_str().is_empty() {
                str_to_string("Press `s` to search, `o` to open file, `p` to load a YT playlist...")
            } else {
                app.query.clone()
            };
            (out, text, Tone::Dim)
        },
    }
}

/// The caption box: its label, its text (none when ready: the cues are
/// shown), and the text's tone.
pub open spec fn caption_box_of(status: CaptionStatus) -> (Seq<char>, Option<Seq<char>>, Tone) {
    match status {
        CaptionStatus::Idle => (" CC [c] "@, Some("(off)"@), Tone::Dim),
        CaptionStatus::Loading => (" CC — loading [c] "@, Some("…"@), Tone::Dim),
        CaptionStatus::Empty => (
            " CC — none available [c] "@,
            Some("(this track has no captions)"@),
            Tone::Dim,
        ),
        CaptionStatus::Error => (
            " CC — error [c] "@,
            Some("(yt-dlp failed to fetch captions)"@),
            Tone::Alert,
        ),
        CaptionStatus::Ready => (" CC [c] "@, None, Tone::Bright),
    }
}

pub fn caption_box(status: CaptionStatus) -> (r: (&'static str, Option<&'static str>, Tone))
    ensures
        r.0@ == caption_box_of(status).0,
        match (r.1, caption_box_of(status).1) {
            (Some(a), Some(b)) => a@ == b,
            (None, None) => true,
            _ => false,
        },
        r.2 == caption_box_of(status).2,
{
    match status {
        CaptionStatus::Idle => (" CC [c] ", Some("(off)"), Tone::Dim),
        CaptionStatus::Loading => (" CC — loading [c] ", Some("…"), Tone::Dim),
        CaptionStatus::Empty => (" CC — none available [c] ", Some("(this track has no captions)"), Tone::Dim),
        CaptionStatus::Error => (" CC — error [c] ", Some("(yt-dlp failed to fetch captions)"), Tone::Alert),
        CaptionStatus::Ready => (" CC [c] ", None, Tone::Bright),
    }
}

/// The first line of the now-playing box: pause or play marker and the
/// title (with the uploader for streamed tracks).
pub open spec fn now_playing_text_of(a: AppView, paused: bool) -> (Seq<char>, Seq<char>) {
    match crate::settings::current_of(a) {
        Some(t) => (
            if paused {
                "⏸ "@
            } else {
                "▶ "@
            },
            if effective_platform_of(t) == Platform::Local || t.uploader.len() == 0 {
                t.title
            } else {
                t.title + " — "@ + t.uploader
            },
        ),
        None => ("  "@, "(nothing playing — pick a track and press Enter)"@),
    }
}

pub fn now_playing_text(app: &App, paused: bool) -> (r: (&'static str, String))
    ensures
        r.0@ == now_playing_text_of(app@, paused).0,
        r.1@ == now_playing_text_of(app@, paused).1,
{
    match app.current_track() {
        Some(t) => {
            let marker = if paused {
                "⏸ "
            } else {
                "▶ "
            };
            let body = if t.is_local() || t.uploader.as_str().is_empty() {
                t.title.clone()
            } else {
                let mut b = crate::text::str_chars(t.title.as_str());
                push_str(&mut b, " — ");
                push_str(&mut b, t.uploader.as_str());
                string_from_chars(b.as_slice())
            };
            (marker, body)
        },
        None => ("  ", str_to_string("(nothing playing — pick a track and press Enter)")),
    }
}

/// `  pos  /  dur` for a playing track, in whole seconds.
pub fn time_label(pos: u64, dur: u64) -> (r: String)
    ensures
        r@ == "  "@ + crate::ui::clock_text(pos) + "  /  "@ + crate::ui::clock_text(dur),
{
    let mut out: Vec<char> = Vec::new();
    push_str(&mut out, "  ");
    push_str(&mut out, crate::ui::fmt_secs(pos).as_str());
    push_str(&mut out, "  /  ");
    push_str(&mut out, crate::ui::fmt_secs(dur).as_str());
    string_from_chars(out.as_slice())
}

/// Columns left for the title beside the marker and the time, at least 8.
pub fn title_room(row_w: usize, marker_w: usize, label_w: usize) -> (r: usize)
    ensures
        r == if row_w - marker_w - label_w > 8 {
            (row_w - marker_w - label_w) as usize
        } else {
            8
        },
{
    let w = row_w.saturating_sub(marker_w).saturating_sub(label_w);
    if w > 8 {
        w
    } else {
        8
    }
}

/// `s` centred in `w` columns (counting characters), as `{:^w}` pads it:
/// an odd leftover space goes to the right.
pub open spec fn center(s: Seq<char>, w: nat) -> Seq<char> {
    if s.len() >= w {
        s
    } else {
        let pad = (w - s.len()) as nat;
        Seq::new(pad / 2, |i: int| ' ') + s + Seq::new((pad - pad / 2) as nat, |i: int| ' ')
    }
}

fn center_in(s: &str, w: usize) -> (r: String)
    ensures
        r@ == center(s@, w as nat),
{
    let v = crate::text::str_chars(s);
    if v.len() >= w {
        return string_from_chars(v.as_slice());
    }
    let pad = w - v.len();
    let left = repeat_char(' ', pad / 2);
    let right = repeat_char(' ', pad - pad / 2);
    let mut out = crate::text::str_chars(left.as_str());
    crate::text::push_chars(&mut out, v.as_slice());
    push_str(&mut out, right.as_str());
    string_from_chars(out.as_slice())
}

/// `(k/n)`.
pub open spec fn of_text(k: nat, n: nat) -> Seq<char> {
    "("@ + dec(k) + "/"@ + dec(n) + ")"@
}

fn of_string(k: u64, n: u64) -> (r: String)
    ensures
        r@ == of_text(k as nat, n as nat),
{
    let mut out: Vec<char> = Vec::new();
    push_str(&mut out, "(");
    push_dec(&mut out, k);
    push_str(&mut out, "/");
    push_dec(&mut out, n);
    push_str(&mut out, ")");
    string_from_chars(out.as_slice())
}

/// The parameter menu, line by line.
pub open spec fn params_rows_of(a: AppView) -> Seq<Seq<PieceView>> {
    let sprites = a.sprites;
    let k = crate::sprites::index_of_id(sprites, a.config.progress_sprite);
    let sp = sprites[k];
    let marker = |r: usize| pv(if a.params_row == r { " ▶ "@ } else { "   "@ }, Tone::On);
    let lang_idx = crate::settings::caption_lang_index(a.config.caption_lang);
    seq![
        seq![pv(" Parameters "@, Tone::Bold)],
        Seq::empty(),
        seq![
            marker(0),
            pv("Progress cursor    "@, Tone::Plain),
            pv("◀ "@, Tone::Dim),
            pv(center(sp.name, 12), Tone::AccentBold(sp.accent)),
            pv(" ▶"@, Tone::Dim),
        ],
        seq![
            pv("      preview: "@, Tone::Plain),
            pv(crate::sprites::frame_at(sp, 0), Tone::AccentBold(sp.accent)),
            pv("   "@, Tone::Plain),
            pv(of_text((crate::sprites::index_of_id(sprites, sp.id) + 1) as nat, sprites.len()), Tone::Dim),
        ],
        Seq::empty(),
        seq![
            marker(1),
            pv("CC language        "@, Tone::Plain),
            pv("◀ "@, Tone::Dim),
            pv(center(a.config.caption_lang, 12), Tone::Key),
            pv(" ▶"@, Tone::Dim),
            pv("  "@, Tone::Plain),
            pv(of_text((lang_idx + 1) as nat, crate::config::caption_lang_list().len()), Tone::Dim),
        ],
        Seq::empty(),
        seq![
            pv("  ↑/↓ "@, Tone::Yellow),
            pv("row   "@, Tone::Dim),
            pv("←/→ "@, Tone::Yellow),
            pv("change   "@, Tone::Dim),
            pv("`/Esc "@, Tone::Yellow),
            pv("close"@, Tone::Dim),
        ],
    ]
}

fn marker_piece(app: &App, r: usize) -> (p: Piece)
    ensures
        p@ == pv(if app@.params_row == r { " ▶ "@ } else { "   "@ }, Tone::On),
{
    piece(if app.params_row == r { " ▶ " } else { "   " }, Tone::On)
}

pub fn params_rows(app: &App) -> (r: Vec<Vec<Piece>>)
    ensures
        rows_view(r@) == params_rows_of(app@),
{
    let sprite = app.current_sprite();
    let registry = app.sprites();
    let total = registry.all().len();
    let idx = registry.index_of(sprite.id.as_str());
    let langs = crate::config::caption_langs();
    let lang_idx = crate::settings::caption_lang_position(&langs, app.config.caption_lang.as_str());
    let mut rows: Vec<Vec<Piece>> = Vec::new();
    let mut r0: Vec<Piece> = Vec::new();
    put(&mut r0, piece(" Parameters ", Tone::Bold));
    let mut r2: Vec<Piece> = Vec::new();
    put(&mut r2, marker_piece(app, 0));
    put(&mut r2, piece("Progress cursor    ", Tone::Plain));
    put(&mut r2, piece("◀ ", Tone::Dim));
    put(&mut r2, piece_of(center_in(sprite.name.as_str(), 12), Tone::AccentBold(sprite.accent)));
    put(&mut r2, piece(" ▶", Tone::Dim));
    let mut r3: Vec<Piece> = Vec::new();
    put(&mut r3, piece("      preview: ", Tone::Plain));
    put(&mut r3, piece(sprite.frame(0), Tone::AccentBold(sprite.accent)));
    put(&mut r3, piece("   ", Tone::Plain));
    put(&mut r3, piece_of(of_string(idx as u64 + 1, total as u64), Tone::Dim));
    let mut r5: Vec<Piece> = Vec::new();
    put(&mut r5, marker_piece(app, 1));
    put(&mut r5, piece("CC language        ", Tone::Plain));
    put(&mut r5, piece("◀ ", Tone::Dim));
    put(&mut r5, piece_of(center_in(app.config.caption_lang.as_str(), 12), Tone::Key));
    put(&mut r5, piece(" ▶", Tone::Dim));
    put(&mut r5, piece("  ", Tone::Plain));
    put(&mut r5, piece_of(of_string(lang_idx as u64 + 1, langs.len() as u64), Tone::Dim));
    let mut r7: Vec<Piece> = Vec::new();
    put(&mut r7, piece("  ↑/↓ ", Tone::Yellow));
    put(&mut r7, piece("row   ", Tone::Dim));
    put(&mut r7, piece("←/→ ", Tone::Yellow));
    put(&mut r7, piece("change   ", Tone::Dim));
    put(&mut r7, piece("`/Esc ", Tone::Yellow));
    put(&mut r7, piece("close", Tone::Dim));
    let ghost v0 = pieces_view(r0@);
    let ghost v2 = pieces_view(r2@);
    let ghost v3 = pieces_view(r3@);
    let ghost v5 = pieces_view(r5@);
    let ghost v7 = pieces_view(r7@);
    rows.push(r0);
    rows.push(Vec::new());
    rows.push(r2);
    rows.push(r3);
    rows.push(Vec::new());
    rows.push(r5);
    rows.push(Vec::new());
    rows.push(r7);
    let ghost e = pieces_view(Seq::<Piece>::empty());
    assert(e =~= Seq::<PieceView>::empty());
    assert(rows_view(rows@) =~= seq![v0, e, v2, v3, e, v5, e, v7]);
    let ghost pr = params_rows_of(app@);
    assert(v0 =~= pr[0]);
    assert(e =~= pr[1]);
    assert(v2 =~= pr[2]);
    assert(v3 =~= pr[3]);
    assert(v5 =~= pr[5]);
    assert(v7 =~= pr[7]);
    assert(rows_view(rows@) =~= params_rows_of(app@));
    rows
}

/// The widest frame of a sprite, each width counted in characters and
/// cut to 16 bits.
pub open spec fn max_frame_width(frames: Seq<Seq<char>>) -> u16
    decreases frames.len(),
{
    if frames.len() == 0 {
        0
    } else {
        let rest = max_frame_width(frames.drop_last());
        let w = frames.last().len() as u16;
        if w > rest {
            w
        } else {
            rest
        }
    }
}

/// The cells the cursor can move over on a bar of `width` cells; none
/// when the bar is too narrow for the widest frame and a margin of two.
pub open spec fn cursor_track_of(sp: crate::sprites::SpriteView, width: u16) -> Option<u16> {
    let mw = max_frame_width(sp.frames);
    if width < mw + 2 {
        None
    } else {
        Some((width - mw) as u16)
    }
}

pub fn cursor_track_width(sprite: &crate::sprites::Sprite, width: u16) -> (r: Option<u16>)
    requires
        max_frame_width(sprite@.frames) + 2 <= u16::MAX,
    ensures
        r == cursor_track_of(sprite@, width),
{
    let mut mw: u16 = 0;
    let mut i: usize = 0;
    while i < sprite.frames.len()
        invariant
            i <= sprite@.frames.len(),
            sprite@.frames.len() == sprite.frames@.len(),
            mw == max_frame_width(sprite@.frames.take(i as int)),
        decreases sprite@.frames.len() - i,
    {
        assert(sprite@.frames.take(i + 1).drop_last() =~= sprite@.frames.take(i as int));
        assert(sprite@.frames[i as int] == sprite.frames@[i as int]@);
        let n = crate::text::str_chars(sprite.frames[i].as_str()).len();
        let w = n as u16;
        if w > mw {
            mw = w;
        }
        i += 1;
    }
    assert(sprite@.frames.take(sprite@.frames.len() as int) =~= sprite@.frames);
    if width < mw + 2 {
        None
    } else {
        Some(width - mw)
    }
}

/// The progress bar: the trail behind the cursor, the cursor's frame and
/// the trail ahead; `raw_pos` is the cursor's cell before it is kept on
/// the track, and `now_ms` paces sprites that animate on a timer. On a bar
/// too narrow for the cursor, the first frame alone.
pub open spec fn cursor_pieces_of(
    sp: crate::sprites::SpriteView,
    width: u16,
    raw_pos: u16,
    now_ms: u64,
) -> Seq<PieceView> {
    match cursor_track_of(sp, width) {
        None => seq![pv(crate::sprites::frame_at(sp, 0), Tone::Plain)],
        Some(track_w) => {
            let pos = if raw_pos < track_w {
                raw_pos
            } else {
                track_w
            };
            let n = if sp.frames.len() == 0 {
                1
            } else {
                sp.frames.len()
            };
            let idx = match sp.animate_on {
                crate::sprites::AnimateOn::Move => (pos as int) % (n as int),
                crate::sprites::AnimateOn::Tick => (((now_ms / 250) as usize) as int) % (n as int),
            };
            let cat = crate::sprites::frame_at(sp, idx as usize);
            let cat_w = cat.len() as u16;
            let after_pos = if width > pos {
                width - pos
            } else {
                0
            };
            let lead_w = if after_pos > cat_w {
                after_pos - cat_w
            } else {
                0
            };
            seq![
                pv(crate::ui::fill_left_text(sp.trail_left, pos as nat), Tone::Accent(sp.accent)),
                pv(cat, Tone::AccentBold(sp.accent)),
                pv(crate::ui::fill_right_text(sp.trail_right, lead_w as nat), Tone::Dim),
            ]
        },
    }
}

pub fn cursor_pieces(sprite: &crate::sprites::Sprite, width: u16, raw_pos: u16, now_ms: u64) -> (r: Vec<
    Piece,
>)
    requires
        max_frame_width(sprite@.frames) + 2 <= u16::MAX,
    ensures
        pieces_view(r@) == cursor_pieces_of(sprite@, width, raw_pos, now_ms),
{
    let mut out: Vec<Piece> = Vec::new();
    let track_w = match cursor_track_width(sprite, width) {
        None => {
            put(&mut out, piece(sprite.frame(0), Tone::Plain));
            assert(pieces_view(out@) =~= cursor_pieces_of(sprite@, width, raw_pos, now_ms));
            return out;
        },
        Some(t) => t,
    };
    let pos = if raw_pos < track_w {
        raw_pos
    } else {
        track_w
    };
    let n = sprite.frame_count();
    let idx = match sprite.animate_on {
        crate::sprites::AnimateOn::Move => (pos as usize) % n,
        crate::sprites::AnimateOn::Tick => ((now_ms / 250) as usize) % n,
    };
    let cat = sprite.frame(idx);
    let cat_w = crate::text::str_chars(cat).len() as u16;
    let trail = crate::ui::fill_left(sprite.trail_left.as_str(), pos as usize);
    let lead_w = width.saturating_sub(pos).saturating_sub(cat_w);
    let lead = crate::ui::fill_right(sprite.trail_right.as_str(), lead_w as usize);
    put(&mut out, piece_of(trail, Tone::Accent(sprite.accent)));
    put(&mut out, piece(cat, Tone::AccentBold(sprite.accent)));
    put(&mut out, piece_of(lead, Tone::Dim));
    assert(pieces_view(out@) =~= cursor_pieces_of(sprite@, width, raw_pos, now_ms));
    out
}

} // verus!
