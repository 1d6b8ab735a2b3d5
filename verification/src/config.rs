//! Persisted player settings (the file I/O lives with the program).

use vstd::prelude::*;

use crate::text::str_to_string;
use crate::ytdlp::opt_view;

verus! {

/// What happens when the queue reaches its end.
#[derive(Debug, Clone, Copy, PartialEq, Eq, Structural)]
pub enum LoopMode {
    Off,
    All,
    One,
}

impl LoopMode {
    /// The mode that follows `self` in the cycle off -> all -> one -> off.
    pub open spec fn spec_next(self) -> LoopMode {
        match self {
            LoopMode::Off => LoopMode::All,
            LoopMode::All => LoopMode::One,
            LoopMode::One => LoopMode::Off,
        }
    }

    pub open spec fn spec_label(self) -> Seq<char> {
        match self {
            LoopMode::Off => "off"@,
            LoopMode::All => "all"@,
            LoopMode::One => "one"@,
        }
    }

    pub fn next(self) -> (r: LoopMode)
        ensures
            r == self.spec_next(),
    {
        match self {
            LoopMode::Off => LoopMode::All,
            LoopMode::All => LoopMode::One,
            LoopMode::One => LoopMode::Off,
        }
    }

    pub fn label(self) -> (r: &'static str)
        ensures
            r@ == self.spec_label(),
    {
        match self {
            LoopMode::Off => "off",
            LoopMode::All => "all",
            LoopMode::One => "one",
        }
    }
}

/// Cycling the loop mode three times brings it back to where it started,
/// and no fewer steps do.
pub proof fn lemma_loop_mode_cycle(m: LoopMode)
    ensures
        m.spec_next().spec_next().spec_next() == m,
        m.spec_next() != m,
        m.spec_next().spec_next() != m,
{
}

/// User settings.
#[derive(Debug)]
pub struct Config {
    pub progress_sprite: String,
    pub loop_mode: LoopMode,
    pub shuffle: bool,
    pub show_shortcuts: bool,
    pub volume: u8,
    pub yt_playlist_url: Option<String>,
    pub local_folder: Option<String>,
    pub local_folder_label: Option<String>,
    pub caption_lang: String,
}

/// The value of a [`Config`].
pub struct ConfigView {
    pub progress_sprite: Seq<char>,
    pub loop_mode: LoopMode,
    pub shuffle: bool,
    pub show_shortcuts: bool,
    pub volume: u8,
    pub yt_playlist_url: Option<Seq<char>>,
    pub local_folder: Option<Seq<char>>,
    pub local_folder_label: Option<Seq<char>>,
    pub caption_lang: Seq<char>,
}

impl View for Config {
    type V = ConfigView;

    open spec fn view(&self) -> ConfigView {
        ConfigView {
            progress_sprite: self.progress_sprite@,
            loop_mode: self.loop_mode,
            shuffle: self.shuffle,
            show_shortcuts: self.show_shortcuts,
            volume: self.volume,
            yt_playlist_url: opt_view(self.yt_playlist_url),
            local_folder: opt_view(self.local_folder),
            local_folder_label: opt_view(self.local_folder_label),
            caption_lang: self.caption_lang@,
        }
    }
}

/// The settings of a fresh install.
pub open spec fn default_config() -> ConfigView {
    ConfigView {
        progress_sprite: "nyan"@,
        loop_mode: LoopMode::Off,
        shuffle: false,
        show_shortcuts: true,
        volume: 80,
        yt_playlist_url: None,
        local_folder: None,
        local_folder_label: None,
        caption_lang: "en"@,
    }
}

impl Default for Config {
    fn default() -> (r: Self)
        ensures
            r@ == default_config(),
    {
        Config {
            progress_sprite: str_to_string("nyan"),
            loop_mode: LoopMode::Off,
            shuffle: false,
            show_shortcuts: true,
            volume: 80,
            yt_playlist_url: None,
            local_folder: None,
            local_folder_label: None,
            caption_lang: str_to_string("en"),
        }
    }
}

/// Selectable caption languages, "en" first since the default falls back there.
pub open spec fn caption_lang_list() -> Seq<Seq<char>> {
    seq!["en"@, "vi"@, "fr"@, "de"@, "es"@, "it"@, "pt"@, "ja"@, "ko"@, "zh"@, "ru"@]
}

/// The caption languages offered in the settings menu.
pub fn caption_langs() -> (r: Vec<&'static str>)
    ensures
        r@.len() == caption_lang_list().len(),
        forall|i: int| 0 <= i < r@.len() ==> #[trigger] r@[i]@ == caption_lang_list()[i],
{
    let r = vec!["en", "vi", "fr", "de", "es", "it", "pt", "ja", "ko", "zh", "ru"];
    assert(r@.len() == 11);
    r
}

} // verus!
