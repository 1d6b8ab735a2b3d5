//! The input prompts, the settings the keyboard changes, and the parameter
//! menu.

use vstd::prelude::*;

use crate::app::{
    effects_view, App, AppView, CaptionStatus, ConfigNote, ConfigNoteView, Effect, EffectView,
    ListFocus, Mode,
};
use crate::config::{caption_lang_list, caption_langs, ConfigView, LoopMode};
use crate::sprites::{index_of_id, Sprite, Registry};
use crate::text::{push_str, str_eq, str_to_string, string_from_chars};
use crate::ytdlp::TrackView;

verus! {

/// `s` without its line breaks, so a pasted text cannot submit a prompt.
pub open spec fn without_line_breaks(s: Seq<char>) -> Seq<char>
    decreases s.len(),
{
    if s.len() == 0 {
        Seq::empty()
    } else if s.last() == '\n' || s.last() == '\r' {
        without_line_breaks(s.drop_last())
    } else {
        without_line_breaks(s.drop_last()).push(s.last())
    }
}

/// The modes with a text prompt.
pub open spec fn is_prompt(m: Mode) -> bool {
    m == Mode::Searching || m == Mode::OpenFile || m == Mode::YtPlaylistInput || m
        == Mode::SavePlaylist
}

/// The track at the playing position of the queue.
pub open spec fn current_of(a: AppView) -> Option<TrackView> {
    match a.current {
        Some(i) => if i < a.queue.len() {
            Some(a.queue[i as int])
        } else {
            None
        },
        None => None,
    }
}

/// The state once a caption fetch for `id` has been asked for.
pub open spec fn fetching_captions(a: AppView, id: Seq<char>) -> AppView {
    AppView { caption_status: CaptionStatus::Loading, captions_track_id: Some(id), ..a }
}

pub open spec fn fetch_caption_effects(id: Seq<char>) -> Seq<EffectView> {
    seq![EffectView::ClearCaptions, EffectView::FetchCaptions { track_id: id }]
}

/// Turning the caption strip on fetches for the current track unless its
/// captions are already loaded or loading.
pub open spec fn captions_need_fetch(a: AppView, t: TrackView) -> bool {
    a.captions_track_id != Some(t.id) || a.caption_status == CaptionStatus::Idle
        || a.caption_status == CaptionStatus::Error
}

/// Volume after one step up: ten more, at most 100.
pub open spec fn volume_up_of(v: u8) -> u8 {
    if v + 10 > 100 {
        100
    } else {
        (v + 10) as u8
    }
}

/// Volume after one step down: ten less, at least 0.
pub open spec fn volume_down_of(v: u8) -> u8 {
    if v < 10 {
        0
    } else {
        (v - 10) as u8
    }
}

/// How long the volume pop-up stays after a volume change, in milliseconds.
pub const VOLUME_POPUP_MS: u64 = 2000;

pub open spec fn volume_effects(v: u8) -> Seq<EffectView> {
    seq![
        EffectView::SetVolume(v),
        EffectView::ShowVolume { ms: VOLUME_POPUP_MS },
        EffectView::SaveConfig { note: ConfigNoteView::Plain },
    ]
}

/// Index of `lang` in the caption language list, or 0 when it is not there.
pub open spec fn caption_lang_index(lang: Seq<char>) -> int {
    let l = caption_lang_list();
    if exists|i: int| 0 <= i < l.len() && l[i] == lang {
        choose|i: int| 0 <= i < l.len() && l[i] == lang && forall|j: int| 0 <= j < i ==> l[j] != lang
    } else {
        0
    }
}

/// The caption language one step from `lang` in the list, wrapping around;
/// backwards for a negative `delta`.
pub open spec fn caption_lang_step(lang: Seq<char>, delta: i32) -> Seq<char> {
    let l = caption_lang_list();
    let n = l.len() as int;
    let cur = caption_lang_index(lang);
    if delta < 0 {
        l[(cur + n - 1) % n]
    } else {
        l[(cur + 1) % n]
    }
}

/// The sprite one step from the configured one, backwards for a negative
/// `delta`.
pub open spec fn sprite_step(sprites: Seq<crate::sprites::SpriteView>, id: Seq<char>, delta: i32) -> Seq<
    char,
> {
    let n = sprites.len() as int;
    let cur = index_of_id(sprites, id);
    if delta < 0 {
        sprites[(cur + n - 1) % n].id
    } else {
        sprites[(cur + 1) % n].id
    }
}

/// What a settings write answers in the status line: `r` is the error
/// text of a failed write.
pub open spec fn config_saved_status(status: Seq<char>, note: ConfigNoteView, r: Option<Seq<char>>) -> Seq<
    char,
> {
    match note {
        ConfigNoteView::Plain => match r {
            Some(e) => "config write failed: "@ + e,
            None => status,
        },
        ConfigNoteView::Silent => status,
        ConfigNoteView::Cursor(name) => match r {
            Some(e) => "Saved cursor (config write failed: "@ + e + ")"@,
            None => "Cursor: "@ + name,
        },
        ConfigNoteView::CaptionLang(lang) => match r {
            Some(e) => "Saved CC lang (config write failed: "@ + e + ")"@,
            None => "CC language: "@ + lang,
        },
    }
}

/// Index of `lang` in the caption languages, as `caption_lang_index` says.
pub(crate) fn caption_lang_position(langs: &Vec<&'static str>, lang: &str) -> (r: usize)
    requires
        langs@.len() == caption_lang_list().len(),
        forall|i: int| 0 <= i < langs@.len() ==> #[trigger] langs@[i]@ == caption_lang_list()[i],
    ensures
        r == caption_lang_index(lang@),
        r < caption_lang_list().len(),
{
    let ghost l = caption_lang_list();
    let mut i: usize = 0;
    while i < langs.len()
        invariant
            i <= langs@.len(),
            l == caption_lang_list(),
            langs@.len() == l.len(),
            forall|k: int| 0 <= k < langs@.len() ==> #[trigger] langs@[k]@ == l[k],
            forall|j: int| 0 <= j < i ==> l[j] != lang@,
        decreases langs@.len() - i,
    {
        if str_eq(langs[i], lang) {
            proof {
                let k = i as int;
                assert(l[k] == lang@);
                assert(0 <= k < l.len() && l[k] == lang@ && forall|j: int| 0 <= j < k ==> l[j] != lang@);
                let c = choose|k: int| 0 <= k < l.len() && l[k] == lang@ && forall|j: int| 0 <= j < k ==> l[j] != lang@;
                if c < k {
                    assert(l[c] != lang@);
                }
                if c > k {
                    assert(l[k] != lang@);
                }
                assert(c == k);
            }
            return i;
        }
        i += 1;
    }
    proof {
        assert forall|k: int| 0 <= k < l.len() implies l[k] != lang@ by {}
    }
    0
}

impl App {
    /// `s`: the search prompt, over the results list.
    pub fn enter_search(&mut self)
        ensures
            final(self)@ == (AppView {
                mode: Mode::Searching,
                focus: ListFocus::Results,
                query: Seq::empty(),
                status: "Type your search and press Enter. Esc to cancel."@,
                ..old(self)@
            }),
    {
        self.mode = Mode::Searching;
        self.focus = ListFocus::Results;
        self.query = String::new();
        self.status = str_to_string("Type your search and press Enter. Esc to cancel.");
    }

    /// Esc in the search prompt keeps the typed query.
    pub fn cancel_search(&mut self)
        ensures
            final(self)@ == (AppView { mode: Mode::Browse, status: Seq::empty(), ..old(self)@ }),
    {
        self.mode = Mode::Browse;
        self.status = String::new();
    }

    /// `o`: the file-or-folder prompt.
    pub fn enter_open_file(&mut self)
        ensures
            final(self)@ == (AppView {
                mode: Mode::OpenFile,
                query: Seq::empty(),
                status: "Type a file path (~ ok) and press Enter. Esc to cancel."@,
                ..old(self)@
            }),
    {
        self.mode = Mode::OpenFile;
        self.query = String::new();
        self.status = str_to_string("Type a file path (~ ok) and press Enter. Esc to cancel.");
    }

    /// A pasted text goes to the open prompt, without its line breaks;
    /// outside a prompt it is ignored.
    pub fn handle_paste(&mut self, text: &str)
        ensures
            final(self)@ == if is_prompt(old(self)@.mode) {
                AppView { query: old(self)@.query + without_line_breaks(text@), ..old(self)@ }
            } else {
                old(self)@
            },
    {
        if !(self.mode == Mode::Searching || self.mode == Mode::OpenFile || self.mode
            == Mode::YtPlaylistInput || self.mode == Mode::SavePlaylist) {
            return;
        }
        let chars = crate::text::str_chars(text);
        let mut out = crate::text::str_chars(self.query.as_str());
        let ghost q0 = out@;
        let mut i: usize = 0;
        while i < chars.len()
            invariant
                i <= chars@.len(),
                chars@ == text@,
                out@ == q0 + without_line_breaks(chars@.take(i as int)),
            decreases chars@.len() - i,
        {
            assert(chars@.take(i + 1).drop_last() =~= chars@.take(i as int));
            let c = chars[i];
            if c != '\n' && c != '\r' {
                out.push(c);
            }
            i += 1;
        }
        assert(chars@.take(chars@.len() as int) =~= chars@);
        self.query = string_from_chars(out.as_slice());
    }

    /// `p`: the playlist-URL prompt, prefilled with the current URL.
    pub fn enter_yt_playlist_input(&mut self)
        ensures
            final(self)@ == (AppView {
                mode: Mode::YtPlaylistInput,
                query: match old(self)@.config.yt_playlist_url {
                    Some(u) => u,
                    None => Seq::empty(),
                },
                status: "Paste a YouTube or Bilibili playlist URL and press Enter. Esc to cancel."@,
                ..old(self)@
            }),
    {
        self.mode = Mode::YtPlaylistInput;
        self.query = match &self.config.yt_playlist_url {
            Some(u) => u.clone(),
            None => String::new(),
        };
        self.status = str_to_string(
            "Paste a YouTube or Bilibili playlist URL and press Enter. Esc to cancel.",
        );
    }

    /// `S` on the saved-playlist pane: the save-as prompt, prefilled with
    /// the last name saved to; refused when the unsaved list is empty.
    pub fn enter_save_playlist(&mut self)
        ensures
            final(self)@ == if old(self)@.focus != ListFocus::YtLibrary {
                old(self)@
            } else if old(self)@.playlist.len() == 0 {
                AppView { status: "nothing to save - Unsaved is empty"@, ..old(self)@ }
            } else {
                AppView {
                    mode: Mode::SavePlaylist,
                    query: match old(self)@.last_saved_as {
                        Some(n) => n,
                        None => Seq::empty(),
                    },
                    status: "Save Unsaved as: type a name. Same name overwrites."@,
                    ..old(self)@
                }
            },
    {
        if self.focus != ListFocus::YtLibrary {
            return;
        }
        if self.playlist.len() == 0 {
            self.status = str_to_string("nothing to save - Unsaved is empty");
            return;
        }
        self.mode = Mode::SavePlaylist;
        self.query = match &self.last_saved_as {
            Some(n) => n.clone(),
            None => String::new(),
        };
        self.status = str_to_string("Save Unsaved as: type a name. Same name overwrites.");
    }

    /// Esc in the save-as prompt.
    pub fn cancel_save_playlist(&mut self)
        ensures
            final(self)@ == (AppView {
                mode: Mode::Browse,
                query: Seq::empty(),
                status: Seq::empty(),
                ..old(self)@
            }),
    {
        self.mode = Mode::Browse;
        self.query = String::new();
        self.status = String::new();
    }

    /// Enter in the save-as prompt. A blank name cancels the save. Saved
    /// playlists keep a URL, title, platform and track count but no tracks,
    /// so a named save cannot be stored: the prompt closes with the unsaved
    /// list left as it was, and the status says so.
    pub fn submit_save_playlist(&mut self)
        ensures
            final(self)@ == (AppView {
                mode: Mode::Browse,
                query: Seq::empty(),
                status: if crate::text::trim(old(self)@.query).len() == 0 {
                    "save cancelled - empty name"@
                } else {
                    "cannot save: saved playlists keep no tracks"@
                },
                ..old(self)@
            }),
    {
        let q = crate::text::str_chars(self.query.as_str());
        let name = crate::text::trim_chars(q.as_slice());
        self.mode = Mode::Browse;
        self.query = String::new();
        if name.len() == 0 {
            self.status = str_to_string("save cancelled - empty name");
        } else {
            self.status = str_to_string("cannot save: saved playlists keep no tracks");
        }
    }

    /// Esc in the playlist-URL prompt.
    pub fn cancel_yt_playlist_input(&mut self)
        ensures
            final(self)@ == (AppView {
                mode: Mode::Browse,
                query: Seq::empty(),
                status: Seq::empty(),
                ..old(self)@
            }),
    {
        self.mode = Mode::Browse;
        self.query = String::new();
        self.status = String::new();
    }

    /// Esc in the file prompt.
    pub fn cancel_open_file(&mut self)
        ensures
            final(self)@ == (AppView {
                mode: Mode::Browse,
                query: Seq::empty(),
                status: Seq::empty(),
                ..old(self)@
            }),
    {
        self.mode = Mode::Browse;
        self.query = String::new();
        self.status = String::new();
    }

    /// `l`: the next loop mode.
    pub fn cycle_loop(&mut self) -> (r: Vec<Effect>)
        ensures
            final(self)@ == (AppView {
                config: ConfigView {
                    loop_mode: old(self)@.config.loop_mode.spec_next(),
                    ..old(self)@.config
                },
                status: "loop: "@ + old(self)@.config.loop_mode.spec_next().spec_label(),
                ..old(self)@
            }),
            effects_view(r@) == seq![EffectView::SaveConfig { note: ConfigNoteView::Silent }],
    {
        self.config.loop_mode = self.config.loop_mode.next();
        let mut st: Vec<char> = Vec::new();
        push_str(&mut st, "loop: ");
        push_str(&mut st, self.config.loop_mode.label());
        self.status = string_from_chars(st.as_slice());
        let r = vec![Effect::SaveConfig { note: ConfigNote::Silent }];
        assert(effects_view(r@) =~= seq![EffectView::SaveConfig { note: ConfigNoteView::Silent }]);
        r
    }

    /// `h`: shuffle on or off.
    pub fn toggle_shuffle(&mut self) -> (r: Vec<Effect>)
        ensures
            final(self)@ == (AppView {
                config: ConfigView { shuffle: !old(self)@.config.shuffle, ..old(self)@.config },
                status: "shuffle: "@ + if old(self)@.config.shuffle {
                    "off"@
                } else {
                    "on"@
                },
                ..old(self)@
            }),
            effects_view(r@) == seq![EffectView::SaveConfig { note: ConfigNoteView::Silent }],
    {
        self.config.shuffle = !self.config.shuffle;
        let mut st: Vec<char> = Vec::new();
        push_str(&mut st, "shuffle: ");
        push_str(&mut st, if self.config.shuffle { "on" } else { "off" });
        self.status = string_from_chars(st.as_slice());
        let r = vec![Effect::SaveConfig { note: ConfigNote::Silent }];
        assert(effects_view(r@) =~= seq![EffectView::SaveConfig { note: ConfigNoteView::Silent }]);
        r
    }

    /// `.`: show or hide the shortcut bar.
    pub fn toggle_shortcuts(&mut self) -> (r: Vec<Effect>)
        ensures
            final(self)@ == (AppView {
                config: ConfigView {
                    show_shortcuts: !old(self)@.config.show_shortcuts,
                    ..old(self)@.config
                },
                ..old(self)@
            }),
            effects_view(r@) == seq![EffectView::SaveConfig { note: ConfigNoteView::Plain }],
    {
        self.config.show_shortcuts = !self.config.show_shortcuts;
        let r = vec![Effect::SaveConfig { note: ConfigNote::Plain }];
        assert(effects_view(r@) =~= seq![EffectView::SaveConfig { note: ConfigNoteView::Plain }]);
        r
    }

    /// Sets the volume, shows the pop-up and saves the settings.
    pub fn set_volume(&mut self, v: u8) -> (r: Vec<Effect>)
        ensures
            final(self)@ == (AppView {
                config: ConfigView { volume: v, ..old(self)@.config },
                ..old(self)@
            }),
            effects_view(r@) == volume_effects(v),
    {
        self.config.volume = v;
        let r = vec![
            Effect::SetVolume(v),
            Effect::ShowVolume { ms: VOLUME_POPUP_MS },
            Effect::SaveConfig { note: ConfigNote::Plain },
        ];
        assert(effects_view(r@) =~= volume_effects(v));
        r
    }

    /// `x`: ten louder, at most 100.
    pub fn volume_up(&mut self) -> (r: Vec<Effect>)
        ensures
            final(self)@ == (AppView {
                config: ConfigView { volume: volume_up_of(old(self)@.config.volume), ..old(self)@.config },
                ..old(self)@
            }),
            effects_view(r@) == volume_effects(volume_up_of(old(self)@.config.volume)),
    {
        let v = self.config.volume.saturating_add(10);
        let v = if v > 100 { 100 } else { v };
        self.set_volume(v)
    }

    /// `z`: ten quieter, at least 0.
    pub fn volume_down(&mut self) -> (r: Vec<Effect>)
        ensures
            final(self)@ == (AppView {
                config: ConfigView {
                    volume: volume_down_of(old(self)@.config.volume),
                    ..old(self)@.config
                },
                ..old(self)@
            }),
            effects_view(r@) == volume_effects(volume_down_of(old(self)@.config.volume)),
    {
        let v = self.config.volume.saturating_sub(10);
        self.set_volume(v)
    }

    /// Writes the settings as they are.
    pub fn save_config(&self) -> (r: Vec<Effect>)
        ensures
            effects_view(r@) == seq![EffectView::SaveConfig { note: ConfigNoteView::Plain }],
    {
        let r = vec![Effect::SaveConfig { note: ConfigNote::Plain }];
        assert(effects_view(r@) =~= seq![EffectView::SaveConfig { note: ConfigNoteView::Plain }]);
        r
    }

    /// Reports how a settings write went; `error` is the failure's text.
    pub fn config_saved(&mut self, note: &ConfigNote, error: Option<&str>)
        ensures
            final(self)@ == (AppView {
                status: config_saved_status(
                    old(self)@.status,
                    note@,
                    match error {
                        Some(e) => Some(e@),
                        None => None,
                    },
                ),
                ..old(self)@
            }),
    {
        let mut st: Vec<char> = Vec::new();
        match note {
            ConfigNote::Plain => match error {
                Some(e) => {
                    push_str(&mut st, "config write failed: ");
                    push_str(&mut st, e);
                },
                None => return ,
            },
            ConfigNote::Silent => return ,
            ConfigNote::Cursor(name) => match error {
                Some(e) => {
                    push_str(&mut st, "Saved cursor (config write failed: ");
                    push_str(&mut st, e);
                    push_str(&mut st, ")");
                },
                None => {
                    push_str(&mut st, "Cursor: ");
                    push_str(&mut st, name.as_str());
                },
            },
            ConfigNote::CaptionLang(lang) => match error {
                Some(e) => {
                    push_str(&mut st, "Saved CC lang (config write failed: ");
                    push_str(&mut st, e);
                    push_str(&mut st, ")");
                },
                None => {
                    push_str(&mut st, "CC language: ");
                    push_str(&mut st, lang.as_str());
                },
            },
        }
        self.status = string_from_chars(st.as_slice());
    }

    /// The progress-bar sprite the settings name.
    pub fn current_sprite(&self) -> (r: &Sprite)
        ensures
            r@ == self@.sprites[index_of_id(self@.sprites, self@.config.progress_sprite)],
    {
        self.sprites.get(self.config.progress_sprite.as_str())
    }

    /// All sprites.
    pub fn sprites(&self) -> (r: &Registry)
        ensures
            r@ == self@.sprites,
    {
        &self.sprites
    }

    /// `` ` ``: the parameter menu, on its first row.
    pub fn open_params(&mut self)
        ensures
            final(self)@ == (AppView { mode: Mode::Params, params_row: 0, ..old(self)@ }),
    {
        self.mode = Mode::Params;
        self.params_row = 0;
    }

    pub fn close_params(&mut self)
        ensures
            final(self)@ == (AppView { mode: Mode::Browse, ..old(self)@ }),
    {
        self.mode = Mode::Browse;
    }

    /// `/`: the statistics overlay on or off.
    pub fn toggle_nerd(&mut self)
        ensures
            final(self)@ == (AppView {
                mode: if old(self)@.mode == Mode::Nerd {
                    Mode::Browse
                } else {
                    Mode::Nerd
                },
                ..old(self)@
            }),
    {
        self.mode = if self.mode == Mode::Nerd {
            Mode::Browse
        } else {
            Mode::Nerd
        };
    }

    /// Up/down in the parameter menu, which has two rows.
    pub fn params_move(&mut self, delta: i32)
        requires
            old(self)@.params_row <= i32::MAX,
            i32::MIN <= old(self)@.params_row + delta <= i32::MAX,
        ensures
            final(self)@ == (AppView {
                params_row: if old(self)@.params_row + delta < 0 {
                    0
                } else if old(self)@.params_row + delta >= 2 {
                    1
                } else {
                    (old(self)@.params_row + delta) as usize
                },
                ..old(self)@
            }),
    {
        let row_count: i32 = 2;
        let mut new = self.params_row as i32 + delta;
        if new < 0 {
            new = 0;
        }
        if new >= row_count {
            new = row_count - 1;
        }
        self.params_row = new as usize;
    }

    /// Asks for the current track's captions.
    fn spawn_caption_fetch(&mut self, track_id: &str) -> (r: Vec<Effect>)
        ensures
            final(self)@ == fetching_captions(old(self)@, track_id@),
            effects_view(r@) == fetch_caption_effects(track_id@),
    {
        self.caption_status = CaptionStatus::Loading;
        self.captions_track_id = Some(str_to_string(track_id));
        let r = vec![Effect::ClearCaptions, Effect::FetchCaptions { track_id: str_to_string(track_id) }];
        assert(effects_view(r@) =~= fetch_caption_effects(track_id@));
        r
    }

    /// `c`: the caption strip on or off; turning it on fetches captions
    /// for the current track unless they are loaded or loading.
    pub fn toggle_captions(&mut self) -> (r: Vec<Effect>)
        ensures
            ({
                let a = AppView { show_captions: !old(self)@.show_captions, ..old(self)@ };
                if a.show_captions && current_of(a) is Some && captions_need_fetch(
                    a,
                    current_of(a)->0,
                ) {
                    final(self)@ == fetching_captions(a, current_of(a)->0.id) && effects_view(r@)
                        == fetch_caption_effects(current_of(a)->0.id)
                } else {
                    final(self)@ == a && r@.len() == 0
                }
            }),
    {
        self.show_captions = !self.show_captions;
        if self.show_captions {
            let id = match self.current_track() {
                Some(t) => {
                    let loaded = match &self.captions_track_id {
                        Some(c) => str_eq(c.as_str(), t.id.as_str()),
                        None => false,
                    };
                    if !loaded || self.caption_status == CaptionStatus::Idle || self.caption_status
                        == CaptionStatus::Error {
                        Some(t.id.clone())
                    } else {
                        None
                    }
                },
                None => None,
            };
            if let Some(id) = id {
                return self.spawn_caption_fetch(id.as_str());
            }
        }
        Vec::new()
    }
    /// Left/right on the sprite row: the next or previous sprite.
    fn params_cycle_sprite(&mut self, delta: i32) -> (r: Vec<Effect>)
        ensures
            ({
                let a = old(self)@;
                let id = sprite_step(a.sprites, a.config.progress_sprite, delta);
                &&& final(self)@ == (AppView {
                    config: ConfigView { progress_sprite: id, ..a.config },
                    ..a
                })
                &&& effects_view(r@) == seq![
                    EffectView::SaveConfig {
                        note: ConfigNoteView::Cursor(a.sprites[index_of_id(a.sprites, id)].name),
                    },
                ]
            }),
    {
        let new_id = if delta < 0 {
            self.sprites.prev_id(self.config.progress_sprite.as_str())
        } else {
            self.sprites.next_id(self.config.progress_sprite.as_str())
        };
        self.config.progress_sprite = new_id;
        let name = self.sprites.get(self.config.progress_sprite.as_str()).name.clone();
        let r = vec![Effect::SaveConfig { note: ConfigNote::Cursor(name) }];
        assert(effects_view(r@) =~= seq![
            EffectView::SaveConfig {
                note: ConfigNoteView::Cursor(
                    self@.sprites[index_of_id(self@.sprites, self@.config.progress_sprite)].name,
                ),
            },
        ]);
        r
    }

    /// Left/right on the caption-language row: the next or previous
    /// language, and new captions for the playing track when the strip is
    /// on.
    fn params_cycle_caption_lang(&mut self, delta: i32) -> (r: Vec<Effect>)
        ensures
            ({
                let a = old(self)@;
                let lang = caption_lang_step(a.config.caption_lang, delta);
                let a1 = AppView { config: ConfigView { caption_lang: lang, ..a.config }, ..a };
                let save = seq![EffectView::SaveConfig { note: ConfigNoteView::CaptionLang(lang) }];
                if a1.show_captions && current_of(a1) is Some {
                    &&& final(self)@ == fetching_captions(a1, current_of(a1)->0.id)
                    &&& effects_view(r@) == save + fetch_caption_effects(current_of(a1)->0.id)
                } else {
                    &&& final(self)@ == a1
                    &&& effects_view(r@) == save
                }
            }),
    {
        let langs = caption_langs();
        let cur = caption_lang_position(&langs, self.config.caption_lang.as_str());
        let n = langs.len();
        let next = if delta < 0 {
            (cur + n - 1) % n
        } else {
            (cur + 1) % n
        };
        let lang = str_to_string(langs[next]);
        self.config.caption_lang = lang.clone();
        let mut r = vec![Effect::SaveConfig { note: ConfigNote::CaptionLang(lang) }];
        let ghost r0 = r@;
        assert(effects_view(r0) =~= seq![
            EffectView::SaveConfig { note: ConfigNoteView::CaptionLang(self@.config.caption_lang) },
        ]);
        if self.show_captions {
            let id = match self.current_track() {
                Some(t) => Some(t.id.clone()),
                None => None,
            };
            if let Some(id) = id {
                let mut more = self.spawn_caption_fetch(id.as_str());
                let ghost m0 = more@;
                r.append(&mut more);
                proof {
                    crate::app::lemma_effects_view_add(r0, m0);
                }
            }
        }
        r
    }

    /// Left/right in the parameter menu changes the selected row's value.
    pub fn params_change(&mut self, delta: i32) -> (r: Vec<Effect>)
        ensures
            old(self)@.params_row == 0 ==> ({
                let a = old(self)@;
                let id = sprite_step(a.sprites, a.config.progress_sprite, delta);
                &&& final(self)@ == (AppView {
                    config: ConfigView { progress_sprite: id, ..a.config },
                    ..a
                })
                &&& effects_view(r@) == seq![
                    EffectView::SaveConfig {
                        note: ConfigNoteView::Cursor(a.sprites[index_of_id(a.sprites, id)].name),
                    },
                ]
            }),
            old(self)@.params_row == 1 ==> ({
                let a = old(self)@;
                let lang = caption_lang_step(a.config.caption_lang, delta);
                let a1 = AppView { config: ConfigView { caption_lang: lang, ..a.config }, ..a };
                let save = seq![EffectView::SaveConfig { note: ConfigNoteView::CaptionLang(lang) }];
                if a1.show_captions && current_of(a1) is Some {
                    &&& final(self)@ == fetching_captions(a1, current_of(a1)->0.id)
                    &&& effects_view(r@) == save + fetch_caption_effects(current_of(a1)->0.id)
                } else {
                    &&& final(self)@ == a1
                    &&& effects_view(r@) == save
                }
            }),
            old(self)@.params_row > 1 ==> final(self)@ == old(self)@ && r@.len() == 0,
    {
        if self.params_row == 0 {
            self.params_cycle_sprite(delta)
        } else if self.params_row == 1 {
            self.params_cycle_caption_lang(delta)
        } else {
            Vec::new()
        }
    }
}

/// Ten up and then ten down comes back to the same volume, below 91.
pub proof fn lemma_volume_up_down(v: u8)
    requires
        v <= 90,
    ensures
        volume_down_of(volume_up_of(v)) == v,
        volume_up_of(v) == v + 10,
{
}

/// The volume never leaves 0..=100 through the volume keys once inside it.
pub proof fn lemma_volume_bounds(v: u8)
    requires
        v <= 100,
    ensures
        volume_up_of(v) <= 100,
        volume_down_of(v) <= 100,
        volume_up_of(v) >= v,
        volume_down_of(v) <= v,
{
}

proof fn lemma_caption_lang_index_exact(lang: Seq<char>)
    ensures
        0 <= caption_lang_index(lang) < caption_lang_list().len(),
        (exists|i: int| 0 <= i < caption_lang_list().len() && caption_lang_list()[i] == lang)
            ==> caption_lang_list()[caption_lang_index(lang)] == lang,
{
    let l = caption_lang_list();
    if exists|i: int| 0 <= i < l.len() && l[i] == lang {
        let w = choose|i: int| 0 <= i < l.len() && l[i] == lang;
        lemma_first_match(l, lang, w);
    }
}

proof fn lemma_first_match(l: Seq<Seq<char>>, lang: Seq<char>, w: int)
    requires
        0 <= w < l.len(),
        l[w] == lang,
    ensures
        exists|i: int| 0 <= i < l.len() && l[i] == lang && forall|j: int| 0 <= j < i ==> l[j] != lang,
    decreases w,
{
    if exists|j: int| 0 <= j < w && l[j] == lang {
        let j = choose|j: int| 0 <= j < w && l[j] == lang;
        lemma_first_match(l, lang, j);
    } else {
        assert(0 <= w < l.len() && l[w] == lang && forall|j: int| 0 <= j < w ==> l[j] != lang);
    }
}

/// The languages of the menu are distinct, so each has one place.
proof fn lemma_caption_langs_distinct()
    ensures
        forall|i: int, j: int|
            0 <= i < j < caption_lang_list().len() ==> caption_lang_list()[i] != caption_lang_list()[j],
{
    let l = caption_lang_list();
    assert forall|i: int, j: int| 0 <= i < j < l.len() implies l[i] != l[j] by {
        reveal_strlit("en");
        reveal_strlit("vi");
        reveal_strlit("fr");
        reveal_strlit("de");
        reveal_strlit("es");
        reveal_strlit("it");
        reveal_strlit("pt");
        reveal_strlit("ja");
        reveal_strlit("ko");
        reveal_strlit("zh");
        reveal_strlit("ru");
        if l[i] == l[j] {
            assert(l[i][0] == l[j][0] && l[i][1] == l[j][1]);
        }
    }
}

/// Right then left on the caption-language row comes back to the
/// language, for a language of the menu.
pub proof fn lemma_caption_lang_step_back(lang: Seq<char>)
    requires
        exists|i: int| 0 <= i < caption_lang_list().len() && caption_lang_list()[i] == lang,
    ensures
        caption_lang_step(caption_lang_step(lang, 1i32), -1i32) == lang,
        caption_lang_step(caption_lang_step(lang, -1i32), 1i32) == lang,
{
    let l = caption_lang_list();
    let n = l.len() as int;
    lemma_caption_lang_index_exact(lang);
    lemma_caption_langs_distinct();
    let c = caption_lang_index(lang);
    let up = l[(c + 1) % n];
    let down = l[(c + n - 1) % n];
    assert(n == 11);
    assert(0 <= (c + 1) % n < n && 0 <= (c + n - 1) % n < n) by (nonlinear_arith)
        requires
            n == 11,
            0 <= c < n,
    ;
    assert(((c + 1) % n + n - 1) % n == c && ((c + n - 1) % n + 1) % n == c) by (nonlinear_arith)
        requires
            n == 11,
            0 <= c < n,
    ;
    lemma_caption_lang_index_exact(up);
    lemma_caption_lang_index_exact(down);
    let iu = caption_lang_index(up);
    let id = caption_lang_index(down);
    let ku = (c + 1) % n;
    let kd = (c + n - 1) % n;
    assert(l[ku] == up);
    assert(l[iu] == up);
    if iu < ku {
        assert(l[iu] != l[ku]);
    }
    if iu > ku {
        assert(l[ku] != l[iu]);
    }
    assert(l[kd] == down);
    assert(l[id] == down);
    if id < kd {
        assert(l[id] != l[kd]);
    }
    if id > kd {
        assert(l[kd] != l[id]);
    }
    assert(caption_lang_step(lang, 1i32) == up);
    assert(caption_lang_step(lang, -1i32) == down);
}

/// Text pasted into a prompt never brings a line break with it.
pub proof fn lemma_no_line_breaks(s: Seq<char>)
    ensures
        forall|i: int|
            0 <= i < without_line_breaks(s).len() ==> #[trigger] without_line_breaks(s)[i] != '\n'
                && without_line_breaks(s)[i] != '\r',
    decreases s.len(),
{
    if s.len() > 0 {
        lemma_no_line_breaks(s.drop_last());
        let r = without_line_breaks(s.drop_last());
        let w = without_line_breaks(s);
        assert forall|i: int| 0 <= i < w.len() implies #[trigger] w[i] != '\n' && w[i] != '\r' by {
            if i < r.len() {
                assert(w[i] == r[i]);
            }
        }
    }
}

} // verus!
