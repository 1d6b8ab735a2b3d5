//! The desktop interface's decisions: which list and row a click names,
//! what its search chips and tabs mean, and the rows and labels it shows.
//! The window itself belongs to the program.

use vstd::prelude::*;

use crate::app::{
    active_tracks_of, effects_view, row_count_of, ActiveLibrary, App, AppView, CaptionStatus,
    ConfigNote, ConfigNoteView, Effect, EffectView, ListFocus,
};
use crate::config::ConfigView;
use crate::library::EntryView;
use crate::text::{dec, dec2, push_dec, push_dec2, push_str, str_to_string, string_from_chars, trim};
use crate::ytdlp::{duration_text, effective_platform_of, platform_glyph, Platform, Track, TrackView};

verus! {

/// A row index from the interface, if it names a row of a list of `len`.
pub open spec fn clamped(i: i32, len: usize) -> Option<usize> {
    if i < 0 || len == 0 || i >= len {
        None
    } else {
        Some(i as usize)
    }
}

pub fn clamp(i: i32, len: usize) -> (r: Option<usize>)
    ensures
        r == clamped(i, len),
{
    if i < 0 || len == 0 {
        return None;
    }
    let i = i as usize;
    if i >= len {
        None
    } else {
        Some(i)
    }
}

/// `m:ss` for a whole number of seconds.
pub open spec fn mmss(s: u64) -> Seq<char> {
    dec((s / 60) as nat) + seq![':'] + dec2((s % 60) as nat)
}

pub fn fmt_secs(s: u64) -> (r: String)
    ensures
        r@ == mmss(s),
{
    let mut out: Vec<char> = Vec::new();
    push_dec(&mut out, s / 60);
    out.push(':');
    push_dec2(&mut out, s % 60);
    string_from_chars(out.as_slice())
}

/// The caption indicator's text.
pub open spec fn caption_label_of(s: CaptionStatus) -> Seq<char> {
    match s {
        CaptionStatus::Idle => "CC idle"@,
        CaptionStatus::Loading => "CC loading…"@,
        CaptionStatus::Empty => "CC none"@,
        CaptionStatus::Error => "CC error"@,
        CaptionStatus::Ready => "CC ready"@,
    }
}

pub fn caption_label(s: CaptionStatus) -> (r: &'static str)
    ensures
        r@ == caption_label_of(s),
{
    match s {
        CaptionStatus::Idle => "CC idle",
        CaptionStatus::Loading => "CC loading…",
        CaptionStatus::Empty => "CC none",
        CaptionStatus::Error => "CC error",
        CaptionStatus::Ready => "CC ready",
    }
}

/// The glyph of a library row's platform.
pub open spec fn library_glyph_of(p: Platform) -> Seq<char> {
    match p {
        Platform::Bilibili => "B"@,
        Platform::Local => "⌂"@,
        _ => "Y"@,
    }
}

pub fn library_glyph(p: Platform) -> (r: &'static str)
    ensures
        r@ == library_glyph_of(p),
{
    match p {
        Platform::Bilibili => "B",
        Platform::Local => "⌂",
        _ => "Y",
    }
}

/// The query a search from the search bar runs: the chip's scope token in
/// front of the typed text; nothing for blank text.
pub open spec fn chip_query_of(q: Seq<char>, chip: Seq<char>) -> Option<Seq<char>> {
    let prefix = if chip == "youtube"@ {
        "#Y "@
    } else if chip == "bilibili"@ {
        "#B "@
    } else if chip == "local"@ {
        "#H "@
    } else {
        Seq::empty()
    };
    if trim(q).len() == 0 {
        None
    } else {
        Some(prefix + q)
    }
}

pub fn chip_query(q: &str, chip: &str) -> (r: Option<String>)
    ensures
        match (r, chip_query_of(q@, chip@)) {
            (Some(a), Some(b)) => a@ == b,
            (None, None) => true,
            _ => false,
        },
{
    let qv = crate::text::str_chars(q);
    let t = crate::text::trim_chars(qv.as_slice());
    if t.len() == 0 {
        return None;
    }
    let mut out: Vec<char> = Vec::new();
    if crate::text::str_eq(chip, "youtube") {
        push_str(&mut out, "#Y ");
    } else if crate::text::str_eq(chip, "bilibili") {
        push_str(&mut out, "#B ");
    } else if crate::text::str_eq(chip, "local") {
        push_str(&mut out, "#H ");
    }
    push_str(&mut out, q);
    Some(string_from_chars(out.as_slice()))
}

/// The focus after clicking tab `tab`: the library tab keeps whichever of
/// its two panes had focus.
pub open spec fn tab_focus_of(current: ListFocus, tab: i32) -> ListFocus {
    if tab == 0 {
        ListFocus::Results
    } else if tab == 1 {
        if current == ListFocus::YtLibrary || current == ListFocus::YtPlaylist {
            current
        } else {
            ListFocus::YtLibrary
        }
    } else if tab == 2 {
        ListFocus::LocalFolder
    } else {
        current
    }
}

pub fn tab_focus(current: ListFocus, tab: i32) -> (r: ListFocus)
    ensures
        r == tab_focus_of(current, tab),
{
    if tab == 0 {
        ListFocus::Results
    } else if tab == 1 {
        if current == ListFocus::YtLibrary || current == ListFocus::YtPlaylist {
            current
        } else {
            ListFocus::YtLibrary
        }
    } else if tab == 2 {
        ListFocus::LocalFolder
    } else {
        current
    }
}

/// The tab showing a focus.
pub open spec fn focus_tab_of(f: ListFocus) -> i32 {
    match f {
        ListFocus::Results => 0,
        ListFocus::YtLibrary | ListFocus::YtPlaylist => 1,
        ListFocus::LocalFolder => 2,
    }
}

pub fn focus_tab(f: ListFocus) -> (r: i32)
    ensures
        r == focus_tab_of(f),
{
    match f {
        ListFocus::Results => 0,
        ListFocus::YtLibrary | ListFocus::YtPlaylist => 1,
        ListFocus::LocalFolder => 2,
    }
}

/// Taking a tab switch back: the focus it set shows that tab again.
pub proof fn lemma_tab_roundtrip(current: ListFocus, tab: i32)
    requires
        0 <= tab <= 2,
    ensures
        focus_tab_of(tab_focus_of(current, tab)) == tab,
{
}

/// The lists a click can name.
#[derive(Debug, Clone, Copy, PartialEq, Eq, Structural)]
pub enum GuiList {
    Results,
    Tracks,
    Local,
    Library,
}

pub open spec fn list_len(a: AppView, l: GuiList) -> int {
    match l {
        GuiList::Results => a.results.len() as int,
        GuiList::Tracks => active_tracks_of(a).len() as int,
        GuiList::Local => a.local_folder.len() as int,
        GuiList::Library => row_count_of(a),
    }
}

/// The state after a click on row `i` of a list: focus on the list and
/// that row selected; a click that names no row changes nothing.
pub open spec fn clicked(a: AppView, l: GuiList, i: i32) -> AppView {
    if i < 0 || i >= list_len(a, l) {
        a
    } else {
        let idx = i as usize;
        match l {
            GuiList::Results => AppView { focus: ListFocus::Results, selected: idx, ..a },
            GuiList::Tracks => AppView { focus: ListFocus::YtPlaylist, yt_playlist_selected: idx, ..a },
            GuiList::Local => AppView { focus: ListFocus::LocalFolder, local_folder_selected: idx, ..a },
            GuiList::Library => AppView { focus: ListFocus::YtLibrary, library_selected: idx, ..a },
        }
    }
}

/// The state after the volume slider settled on `v`.
pub open spec fn slider_effects(a: AppView, v: u8) -> Seq<EffectView> {
    if a.config.volume == v {
        Seq::empty()
    } else {
        seq![EffectView::SetVolume(v), EffectView::SaveConfig { note: ConfigNoteView::Plain }]
    }
}

/// One row of a track list in the desktop interface.
#[derive(Debug)]
pub struct TrackRow {
    pub id: String,
    pub title: String,
    pub uploader: String,
    pub duration: String,
    pub platform_glyph: String,
    pub depth: String,
    pub is_playing: bool,
}

pub struct TrackRowView {
    pub id: Seq<char>,
    pub title: Seq<char>,
    pub uploader: Seq<char>,
    pub duration: Seq<char>,
    pub platform_glyph: Seq<char>,
    pub depth: Seq<char>,
    pub is_playing: bool,
}

impl View for TrackRow {
    type V = TrackRowView;

    open spec fn view(&self) -> TrackRowView {
        TrackRowView {
            id: self.id@,
            title: self.title@,
            uploader: self.uploader@,
            duration: self.duration@,
            platform_glyph: self.platform_glyph@,
            depth: self.depth@,
            is_playing: self.is_playing,
        }
    }
}

pub open spec fn track_row_of(t: TrackView, playing_id: Option<Seq<char>>) -> TrackRowView {
    TrackRowView {
        id: t.id,
        title: t.title,
        uploader: t.uploader,
        duration: duration_text(t.duration),
        platform_glyph: platform_glyph(effective_platform_of(t)),
        depth: match t.local_depth {
            Some(d) => crate::local_scan::depth_mark(d),
            None => Seq::empty(),
        },
        is_playing: playing_id == Some(t.id),
    }
}

pub open spec fn track_rows_of(ts: Seq<TrackView>, playing_id: Option<Seq<char>>) -> Seq<TrackRowView> {
    Seq::new(ts.len(), |i: int| track_row_of(ts[i], playing_id))
}

pub open spec fn row_views(v: Seq<TrackRow>) -> Seq<TrackRowView> {
    Seq::new(v.len(), |i: int| v[i]@)
}

fn row_of(t: &Track, playing_id: &Option<String>) -> (r: TrackRow)
    ensures
        r@ == track_row_of(t@, crate::ytdlp::opt_view(*playing_id)),
{
    TrackRow {
        id: t.id.clone(),
        title: t.title.clone(),
        uploader: t.uploader.clone(),
        duration: t.duration_str(),
        platform_glyph: str_to_string(t.source_glyph()),
        depth: match t.local_depth {
            Some(d) => crate::local_scan::depth_marker(d),
            None => String::new(),
        },
        is_playing: match playing_id {
            Some(p) => crate::text::str_eq(p.as_str(), t.id.as_str()),
            None => false,
        },
    }
}

/// The rows of a track list, the playing track (by id) marked.
pub fn rows(tracks: &[Track], playing_id: Option<String>) -> (r: Vec<TrackRow>)
    ensures
        row_views(r@) == track_rows_of(crate::ui::track_views(tracks@), crate::ytdlp::opt_view(playing_id)),
{
    let ghost tv = crate::ui::track_views(tracks@);
    let mut out: Vec<TrackRow> = Vec::new();
    let mut i: usize = 0;
    while i < tracks.len()
        invariant
            i <= tracks@.len(),
            tv == crate::ui::track_views(tracks@),
            row_views(out@) == Seq::new(i as nat, |k: int| track_row_of(tv[k], crate::ytdlp::opt_view(playing_id))),
        decreases tracks@.len() - i,
    {
        let ghost before = row_views(out@);
        let r = row_of(&tracks[i], &playing_id);
        let ghost rv = r@;
        out.push(r);
        assert(row_views(out@) =~= before.push(rv));
        assert(row_views(out@) =~= Seq::new((i + 1) as nat, |k: int| track_row_of(tv[k], crate::ytdlp::opt_view(playing_id))));
        i += 1;
    }
    out
}

/// The id of the playing track.
pub fn current_id(app: &App) -> (r: Option<String>)
    ensures
        crate::ytdlp::opt_view(r) == match crate::settings::current_of(app@) {
            Some(t) => Some(t.id),
            None => None,
        },
{
    match app.current_track() {
        Some(t) => Some(t.id.clone()),
        None => None,
    }
}

/// The title the desktop window shows for what plays: `<title> - <uploader>`,
/// or `ytmtui` when nothing plays.
pub open spec fn current_title_of(a: AppView) -> Seq<char> {
    match crate::settings::current_of(a) {
        Some(t) => t.title + " - "@ + t.uploader,
        None => "ytmtui"@,
    }
}

pub fn current_title(app: &App) -> (r: String)
    ensures
        r@ == current_title_of(app@),
{
    match app.current_track() {
        Some(t) => {
            let mut out = crate::text::str_chars(t.title.as_str());
            push_str(&mut out, " - ");
            push_str(&mut out, t.uploader.as_str());
            string_from_chars(out.as_slice())
        },
        None => str_to_string("ytmtui"),
    }
}

/// One row of the saved-playlist list in the desktop interface.
#[derive(Debug)]
pub struct LibraryRow {
    pub title: String,
    pub count_label: String,
    pub duration_label: String,
    pub favorite: bool,
    pub glyph: String,
    pub is_active: bool,
    pub is_unsaved: bool,
}

pub struct LibraryRowView {
    pub title: Seq<char>,
    pub count_label: Seq<char>,
    pub duration_label: Seq<char>,
    pub favorite: bool,
    pub glyph: Seq<char>,
    pub is_active: bool,
    pub is_unsaved: bool,
}

impl View for LibraryRow {
    type V = LibraryRowView;

    open spec fn view(&self) -> LibraryRowView {
        LibraryRowView {
            title: self.title@,
            count_label: self.count_label@,
            duration_label: self.duration_label@,
            favorite: self.favorite,
            glyph: self.glyph@,
            is_active: self.is_active,
            is_unsaved: self.is_unsaved,
        }
    }
}

/// `(n tracks)`.
pub open spec fn count_label_of(n: nat) -> Seq<char> {
    "("@ + dec(n) + " tracks)"@
}

fn count_label(n: u64) -> (r: String)
    ensures
        r@ == count_label_of(n as nat),
{
    let mut out: Vec<char> = Vec::new();
    push_str(&mut out, "(");
    push_dec(&mut out, n);
    push_str(&mut out, " tracks)");
    string_from_chars(out.as_slice())
}

/// The row of saved playlist `i`.
pub open spec fn library_row_of(a: AppView, i: int, e: EntryView) -> LibraryRowView {
    LibraryRowView {
        title: e.title,
        count_label: count_label_of(e.track_count as nat),
        duration_label: "--"@,
        favorite: e.favorite,
        glyph: library_glyph_of(e.platform),
        is_active: a.active_library == ActiveLibrary::Saved(i as usize),
        is_unsaved: false,
    }
}

pub fn library_row_from(app: &App, i: usize) -> (r: LibraryRow)
    requires
        i < app@.library.len(),
    ensures
        r@ == library_row_of(app@, i as int, app@.library[i as int]),
{
    let e = &app.library.entries[i];
    LibraryRow {
        title: e.title.clone(),
        count_label: count_label(e.track_count as u64),
        duration_label: str_to_string("--"),
        favorite: e.favorite,
        glyph: str_to_string(library_glyph(e.platform)),
        is_active: app.active_library == ActiveLibrary::Saved(i),
        is_unsaved: false,
    }
}

/// The Unsaved row: its size and its known total.
pub open spec fn unsaved_row_of(a: AppView) -> LibraryRowView {
    LibraryRowView {
        title: "Unsaved"@,
        count_label: count_label_of(a.playlist.len()),
        duration_label: match crate::ui::total_duration_text(crate::ui::known_total(a.playlist) as u64) {
            Some(t) => t,
            None => "--"@,
        },
        favorite: false,
        glyph: "✎"@,
        is_active: a.active_library == ActiveLibrary::Unsaved,
        is_unsaved: true,
    }
}

pub open spec fn library_rows_of(a: AppView) -> Seq<LibraryRowView> {
    (if crate::app::unsaved_visible_of(a) {
        seq![unsaved_row_of(a)]
    } else {
        Seq::empty()
    }) + Seq::new(a.library.len(), |i: int| library_row_of(a, i, a.library[i]))
}

pub open spec fn library_views(v: Seq<LibraryRow>) -> Seq<LibraryRowView> {
    Seq::new(v.len(), |i: int| v[i]@)
}

/// The rows of the saved-playlist list.
pub fn library_rows(app: &App) -> (r: Vec<LibraryRow>)
    requires
        crate::ui::known_total(app@.playlist) <= u64::MAX,
    ensures
        library_views(r@) == library_rows_of(app@),
{
    let mut out: Vec<LibraryRow> = Vec::new();
    if app.unsaved_visible() {
        assert(crate::ui::track_views(app.playlist@) =~= app@.playlist);
        let total = crate::ui::total_duration(app.playlist.as_slice());
        let dur = match crate::ui::fmt_total_duration(total) {
            Some(t) => t,
            None => str_to_string("--"),
        };
        out.push(LibraryRow {
            title: str_to_string("Unsaved"),
            count_label: count_label(app.playlist.len() as u64),
            duration_label: dur,
            favorite: false,
            glyph: str_to_string("✎"),
            is_active: app.active_library == ActiveLibrary::Unsaved,
            is_unsaved: true,
        });
    }
    let ghost head = library_views(out@);
    assert(head =~= (if crate::app::unsaved_visible_of(app@) {
        seq![unsaved_row_of(app@)]
    } else {
        Seq::<LibraryRowView>::empty()
    }));
    let mut i: usize = 0;
    while i < app.library.entries.len()
        invariant
            i <= app@.library.len(),
            app@.library.len() == app.library.entries@.len(),
            library_views(out@) == head + Seq::new(i as nat, |k: int| library_row_of(app@, k, app@.library[k])),
        decreases app@.library.len() - i,
    {
        let ghost before = library_views(out@);
        let r = library_row_from(app, i);
        let ghost rv = r@;
        out.push(r);
        assert(library_views(out@) =~= before.push(rv));
        assert(library_views(out@) =~= head + Seq::new((i + 1) as nat, |k: int| library_row_of(app@, k, app@.library[k])));
        i += 1;
    }
    out
}

impl App {
    /// A click on row `i` of a list: focus on the list and select the row.
    pub fn gui_select(&mut self, list: GuiList, i: i32)
        requires
            row_count_of(old(self)@) <= usize::MAX,
        ensures
            final(self)@ == clicked(old(self)@, list, i),
    {
        let len = match list {
            GuiList::Results => self.results.len(),
            GuiList::Tracks => self.active_tracks().len(),
            GuiList::Local => self.local_folder.len(),
            GuiList::Library => self.saved_playlist_row_count(),
        };
        let idx = match clamp(i, len) {
            Some(idx) => idx,
            None => return ,
        };
        match list {
            GuiList::Results => {
                self.focus = ListFocus::Results;
                self.selected = idx;
            },
            GuiList::Tracks => {
                self.focus = ListFocus::YtPlaylist;
                self.yt_playlist_selected = idx;
            },
            GuiList::Local => {
                self.focus = ListFocus::LocalFolder;
                self.local_folder_selected = idx;
            },
            GuiList::Library => {
                self.focus = ListFocus::YtLibrary;
                self.library_selected = idx;
            },
        }
    }

    /// The volume slider settled on `v`: a new value is set and saved.
    pub fn gui_set_volume(&mut self, v: u8) -> (r: Vec<Effect>)
        ensures
            final(self)@ == (AppView { config: ConfigView { volume: v, ..old(self)@.config }, ..old(self)@ }),
            effects_view(r@) == slider_effects(old(self)@, v),
    {
        if self.config.volume == v {
            let r: Vec<Effect> = Vec::new();
            assert(effects_view(r@) =~= Seq::<EffectView>::empty());
            return r;
        }
        self.config.volume = v;
        let r = vec![Effect::SetVolume(v), Effect::SaveConfig { note: ConfigNote::Plain }];
        assert(effects_view(r@) =~= seq![
            EffectView::SetVolume(v),
            EffectView::SaveConfig { note: ConfigNoteView::Plain },
        ]);
        r
    }
}

} // verus!
