//! Caption language selection and caption text clean-up. Fetching the
//! files runs yt-dlp and lives with the program; what it decides is here.

use vstd::prelude::*;

use crate::text::{
    ends_with, has_suffix, push_chars, push_str, str_chars, str_eq, str_to_string,
    string_from_chars, trim, trim_chars,
};

verus! {

/// The caption languages a video offers.
#[derive(Debug)]
pub struct AvailableLangs {
    /// The video's own spoken-language track, when it can be told.
    pub original_lang: Option<String>,
    /// Every language with a VTT track, manual or automatic.
    pub langs: Vec<String>,
}

/// `lang` is one of the languages in `langs`.
pub open spec fn lang_listed(langs: Seq<String>, lang: Seq<char>) -> bool {
    exists|i: int| 0 <= i < langs.len() && #[trigger] langs[i]@ == lang
}

impl AvailableLangs {
    pub fn has(&self, lang: &str) -> (r: bool)
        ensures
            r == lang_listed(self.langs@, lang@),
    {
        let mut i: usize = 0;
        while i < self.langs.len()
            invariant
                i <= self.langs@.len(),
                forall|j: int| 0 <= j < i ==> #[trigger] self.langs@[j]@ != lang@,
            decreases self.langs@.len() - i,
        {
            if str_eq(self.langs[i].as_str(), lang) {
                return true;
            }
            i += 1;
        }
        false
    }
}

/// A language code without its `-orig` marker.
pub open spec fn canonical(lang: Seq<char>) -> Seq<char> {
    if ends_with(lang, "-orig"@) {
        lang.take(lang.len() - 5)
    } else {
        lang
    }
}

pub fn canonical_lang(lang: &str) -> (r: String)
    ensures
        r@ == canonical(lang@),
{
    let v = str_chars(lang);
    let suffix = str_chars("-orig");
    proof {
        reveal_strlit("-orig");
    }
    if has_suffix(v.as_slice(), suffix.as_slice()) {
        let out = crate::text::copy_range(v.as_slice(), 0, v.len() - 5);
        assert(out@ =~= v@.take(v@.len() - 5));
        string_from_chars(out.as_slice())
    } else {
        string_from_chars(v.as_slice())
    }
}

/// The preferred languages that are left after trimming and dropping
/// blank entries, in order.
pub open spec fn cleaned_prefs(prefs: Seq<String>) -> Seq<Seq<char>>
    decreases prefs.len(),
{
    if prefs.len() == 0 {
        Seq::empty()
    } else {
        let rest = cleaned_prefs(prefs.drop_last());
        let t = trim(prefs.last()@);
        if t.len() > 0 {
            rest.push(t)
        } else {
            rest
        }
    }
}

/// The preference list actually used: the cleaned list, or English alone
/// when nothing is left.
pub open spec fn effective_prefs(prefs: Seq<String>) -> Seq<Seq<char>> {
    if cleaned_prefs(prefs).len() == 0 {
        seq!["en"@]
    } else {
        cleaned_prefs(prefs)
    }
}

/// The first preferred language that is available and is not the same
/// base language as the original track.
pub open spec fn first_translation(
    prefs: Seq<Seq<char>>,
    langs: Seq<String>,
    original: Option<Seq<char>>,
) -> Option<Seq<char>>
    decreases prefs.len(),
{
    if prefs.len() == 0 {
        None
    } else {
        let p = prefs[0];
        let clash = match original {
            Some(o) => canonical(o) == canonical(p),
            None => false,
        };
        if lang_listed(langs, p) && !clash {
            Some(p)
        } else {
            first_translation(prefs.skip(1), langs, original)
        }
    }
}

/// The caption tracks to fetch: the original when known, then the first
/// preferred language that differs from it.
pub open spec fn selected_langs(
    original: Option<Seq<char>>,
    langs: Seq<String>,
    prefs: Seq<String>,
) -> Seq<Seq<char>> {
    let head = match original {
        Some(o) => seq![o],
        None => Seq::empty(),
    };
    match first_translation(effective_prefs(prefs), langs, original) {
        Some(p) => head.push(p),
        None => head,
    }
}

proof fn lemma_first_translation(
    prefs: Seq<Seq<char>>,
    langs: Seq<String>,
    original: Option<Seq<char>>,
)
    ensures
        first_translation(prefs, langs, original) matches Some(p) ==> lang_listed(langs, p) && (
        original matches Some(o) ==> canonical(o) != canonical(p)),
    decreases prefs.len(),
{
    if prefs.len() > 0 {
        lemma_first_translation(prefs.skip(1), langs, original);
    }
}

/// At most two caption tracks are fetched: the original first when it is
/// known, and any other one is an offered language whose base language
/// differs from the original's.
pub proof fn lemma_selected_langs(original: Option<Seq<char>>, langs: Seq<String>, prefs: Seq<String>)
    ensures
        selected_langs(original, langs, prefs).len() <= 2,
        original matches Some(o) ==> selected_langs(original, langs, prefs)[0] == o,
        original is None ==> forall|i: int|
            0 <= i < selected_langs(original, langs, prefs).len() ==> lang_listed(
                langs,
                #[trigger] selected_langs(original, langs, prefs)[i],
            ),
        selected_langs(original, langs, prefs).len() == 2 ==> lang_listed(
            langs,
            selected_langs(original, langs, prefs)[1],
        ) && canonical(selected_langs(original, langs, prefs)[0]) != canonical(
            selected_langs(original, langs, prefs)[1],
        ),
{
    lemma_first_translation(effective_prefs(prefs), langs, original);
}

pub open spec fn strings_view(v: Seq<String>) -> Seq<Seq<char>> {
    Seq::new(v.len(), |i: int| v[i]@)
}

fn clean_prefs(prefs: &[String]) -> (r: Vec<String>)
    ensures
        strings_view(r@) == effective_prefs(prefs@),
{
    let mut out: Vec<String> = Vec::new();
    let mut i: usize = 0;
    while i < prefs.len()
        invariant
            i <= prefs@.len(),
            strings_view(out@) == cleaned_prefs(prefs@.take(i as int)),
        decreases prefs@.len() - i,
    {
        assert(prefs@.take(i + 1).drop_last() =~= prefs@.take(i as int));
        let v = str_chars(prefs[i].as_str());
        let t = trim_chars(v.as_slice());
        if t.len() > 0 {
            let ghost before = out@;
            out.push(string_from_chars(t.as_slice()));
            assert(strings_view(out@) =~= strings_view(before).push(t@));
        }
        i += 1;
    }
    assert(prefs@.take(prefs@.len() as int) =~= prefs@);
    if out.len() == 0 {
        out.push(str_to_string("en"));
        assert(strings_view(out@) =~= seq!["en"@]);
    }
    out
}

/// Chooses which caption languages to fetch: the original track (when the
/// video exposes one) plus the first preferred language that is available
/// and not the same base language as the original.
pub fn select_langs(available: &AvailableLangs, preferred_langs: &[String]) -> (r: Vec<String>)
    ensures
        strings_view(r@) == selected_langs(
            crate::ytdlp::opt_view(available.original_lang),
            available.langs@,
            preferred_langs@,
        ),
{
    let ghost original = crate::ytdlp::opt_view(available.original_lang);
    let mut wanted: Vec<String> = Vec::new();
    if let Some(o) = &available.original_lang {
        wanted.push(o.clone());
    }
    assert(strings_view(wanted@) =~= match original {
        Some(o) => seq![o],
        None => Seq::<Seq<char>>::empty(),
    });
    let prefs = clean_prefs(preferred_langs);
    let ghost p = strings_view(prefs@);
    let mut i: usize = 0;
    assert(p.skip(0) =~= p);
    while i < prefs.len()
        invariant
            i <= prefs@.len(),
            p == strings_view(prefs@),
            p == effective_prefs(preferred_langs@),
            original == crate::ytdlp::opt_view(available.original_lang),
            first_translation(p, available.langs@, original) == first_translation(
                p.skip(i as int),
                available.langs@,
                original,
            ),
            strings_view(wanted@) == match original {
                Some(o) => seq![o],
                None => Seq::<Seq<char>>::empty(),
            },
        decreases prefs@.len() - i,
    {
        let lang = prefs[i].as_str();
        assert(p.skip(i as int)[0] == lang@);
        assert(p.skip(i as int).skip(1) =~= p.skip(i + 1));
        let clash = match &available.original_lang {
            Some(o) => {
                let a = canonical_lang(o.as_str());
                let b = canonical_lang(lang);
                str_eq(a.as_str(), b.as_str())
            },
            None => false,
        };
        let ghost spec_clash = match original {
            Some(o) => canonical(o) == canonical(lang@),
            None => false,
        };
        assert(clash == spec_clash);
        assert(first_translation(p.skip(i as int), available.langs@, original) == if lang_listed(
            available.langs@,
            lang@,
        ) && !spec_clash {
            Some(lang@)
        } else {
            first_translation(p.skip(i + 1), available.langs@, original)
        });
        if available.has(lang) && !clash {
            let ghost before = strings_view(wanted@);
            wanted.push(str_to_string(lang));
            assert(strings_view(wanted@) =~= before.push(lang@));
            return wanted;
        }
        i += 1;
    }
    assert(p.skip(i as int) =~= Seq::<Seq<char>>::empty());
    wanted
}

/// The language a title's script suggests: Vietnamese letters, Hangul,
/// kana, or CJK ideographs, checked in that order.
pub open spec fn any_in(s: Seq<char>, lo: u32, hi: u32) -> bool {
    exists|i: int| 0 <= i < s.len() && lo <= #[trigger] (s[i] as u32) <= hi
}

pub open spec fn inferred_lang(text: Seq<char>) -> Option<Seq<char>> {
    if any_in(text, 0xC0, 0x1EF9) {
        Some("vi"@)
    } else if any_in(text, 0xAC00, 0xD7AF) {
        Some("ko"@)
    } else if any_in(text, 0x3040, 0x30FF) {
        Some("ja"@)
    } else if any_in(text, 0x4E00, 0x9FFF) {
        Some("zh"@)
    } else {
        None
    }
}

fn has_char_in(s: &[char], lo: u32, hi: u32) -> (r: bool)
    ensures
        r == any_in(s@, lo, hi),
{
    let mut i: usize = 0;
    while i < s.len()
        invariant
            i <= s@.len(),
            forall|j: int| 0 <= j < i ==> !(lo <= #[trigger] (s@[j] as u32) <= hi),
        decreases s@.len() - i,
    {
        let u = s[i] as u32;
        if lo <= u && u <= hi {
            return true;
        }
        i += 1;
    }
    false
}

pub fn infer_lang_from_text(text: &str) -> (r: Option<&'static str>)
    ensures
        match (r, inferred_lang(text@)) {
            (Some(a), Some(b)) => a@ == b,
            (None, None) => true,
            _ => false,
        },
{
    let v = str_chars(text);
    if has_char_in(v.as_slice(), 0xC0, 0x1EF9) {
        Some("vi")
    } else if has_char_in(v.as_slice(), 0xAC00, 0xD7AF) {
        Some("ko")
    } else if has_char_in(v.as_slice(), 0x3040, 0x30FF) {
        Some("ja")
    } else if has_char_in(v.as_slice(), 0x4E00, 0x9FFF) {
        Some("zh")
    } else {
        None
    }
}

/// An option's trimmed text, unless it is blank.
pub open spec fn non_empty_of(value: Option<Seq<char>>) -> Option<Seq<char>> {
    match value {
        Some(v) => if trim(v).len() > 0 {
            Some(trim(v))
        } else {
            None
        },
        None => None,
    }
}

pub fn non_empty(value: Option<&str>) -> (r: Option<String>)
    ensures
        crate::ytdlp::opt_view(r) == non_empty_of(match value {
            Some(v) => Some(v@),
            None => None,
        }),
{
    match value {
        Some(v) => {
            let c = str_chars(v);
            let t = trim_chars(c.as_slice());
            if t.len() > 0 {
                Some(string_from_chars(t.as_slice()))
            } else {
                None
            }
        },
        None => None,
    }
}

/// Cookie settings handed to yt-dlp when captions are fetched.
#[derive(Debug, Clone)]
pub struct FetchOptions {
    pub cookies_from_browser: Option<String>,
    pub cookies: Option<String>,
}

impl Default for FetchOptions {
    fn default() -> (r: Self)
        ensures
            r.cookies_from_browser is None,
            r.cookies is None,
    {
        FetchOptions { cookies_from_browser: None, cookies: None }
    }
}

/// The yt-dlp arguments that carry the cookie settings: a browser to read
/// cookies from, then a cookies file, each only when it is not blank.
pub open spec fn option_args_of(browser: Option<Seq<char>>, cookies: Option<Seq<char>>) -> Seq<
    Seq<char>,
> {
    (match non_empty_of(browser) {
        Some(b) => seq!["--cookies-from-browser"@, b],
        None => Seq::empty(),
    }) + (match non_empty_of(cookies) {
        Some(p) => seq!["--cookies"@, p],
        None => Seq::empty(),
    })
}

fn opt_as_str(o: &Option<String>) -> (r: Option<&str>)
    ensures
        match r {
            Some(s) => o.is_some() && s@ == o.unwrap()@,
            None => o.is_none(),
        },
{
    match o {
        Some(s) => Some(s.as_str()),
        None => None,
    }
}

/// The arguments that `options` adds to a yt-dlp command line.
pub fn ytdlp_option_args(options: &FetchOptions) -> (r: Vec<String>)
    ensures
        strings_view(r@) == option_args_of(
            crate::ytdlp::opt_view(options.cookies_from_browser),
            crate::ytdlp::opt_view(options.cookies),
        ),
{
    let mut out: Vec<String> = Vec::new();
    let browser = non_empty(opt_as_str(&options.cookies_from_browser));
    match browser {
        Some(b) => {
            out.push(str_to_string("--cookies-from-browser"));
            out.push(b);
        },
        None => {},
    }
    let path = non_empty(opt_as_str(&options.cookies));
    match path {
        Some(p) => {
            out.push(str_to_string("--cookies"));
            out.push(p);
        },
        None => {},
    }
    assert(strings_view(out@) =~= option_args_of(
        crate::ytdlp::opt_view(options.cookies_from_browser),
        crate::ytdlp::opt_view(options.cookies),
    ));
    out
}

/// Caption text with `<...>` markup removed (`in_tag` says whether the
/// text before `s` left a tag open).
pub open spec fn untagged(s: Seq<char>, in_tag: bool) -> Seq<char>
    decreases s.len(),
{
    if s.len() == 0 {
        Seq::empty()
    } else if s[0] == '<' {
        untagged(s.skip(1), true)
    } else if s[0] == '>' {
        untagged(s.skip(1), false)
    } else if !in_tag {
        seq![s[0]] + untagged(s.skip(1), false)
    } else {
        untagged(s.skip(1), true)
    }
}

pub fn strip_tag_chars(s: &[char]) -> (r: Vec<char>)
    ensures
        r@ == untagged(s@, false),
{
    let mut out: Vec<char> = Vec::new();
    let mut in_tag = false;
    let mut i: usize = 0;
    assert(s@.skip(0) =~= s@);
    while i < s.len()
        invariant
            i <= s@.len(),
            untagged(s@, false) == out@ + untagged(s@.skip(i as int), in_tag),
        decreases s@.len() - i,
    {
        let ch = s[i];
        let ghost rest = s@.skip(i as int);
        assert(rest[0] == ch);
        assert(rest.skip(1) =~= s@.skip(i + 1));
        if ch == '<' {
            in_tag = true;
        } else if ch == '>' {
            in_tag = false;
        } else if !in_tag {
            let ghost before = out@;
            out.push(ch);
            assert(before + (seq![ch] + untagged(rest.skip(1), false)) =~= out@ + untagged(
                rest.skip(1),
                false,
            ));
        }
        i += 1;
    }
    assert(s@.skip(i as int) =~= Seq::<char>::empty());
    assert(out@ + Seq::<char>::empty() =~= out@);
    out
}

pub fn strip_tags(line: &str) -> (r: String)
    ensures
        r@ == untagged(line@, false),
{
    let v = str_chars(line);
    let out = strip_tag_chars(v.as_slice());
    string_from_chars(out.as_slice())
}

/// The first automatic track marked as the original (`-orig`).
pub open spec fn first_orig(auto: Seq<String>) -> Option<Seq<char>>
    decreases auto.len(),
{
    if auto.len() == 0 {
        None
    } else if ends_with(auto[0]@, "-orig"@) {
        Some(auto[0]@)
    } else {
        first_orig(auto.skip(1))
    }
}

/// The original caption language of a video: an automatic `-orig` track;
/// else its declared language, if a track exists for it; else the language
/// its title suggests, if a track exists for it; else the only manual track.
pub open spec fn original_lang_of(
    subs: Seq<String>,
    auto: Seq<String>,
    language: Option<Seq<char>>,
    title: Option<Seq<char>>,
) -> Option<Seq<char>> {
    match first_orig(auto) {
        Some(o) => Some(o),
        None => {
            let declared = match language {
                Some(l) => if lang_listed(subs, l) || lang_listed(auto, l) {
                    Some(l)
                } else {
                    None
                },
                None => None,
            };
            match declared {
                Some(l) => Some(l),
                None => {
                    let guessed = match title {
                        Some(t) => match inferred_lang(t) {
                            Some(l) => if lang_listed(subs, l) || lang_listed(auto, l) {
                                Some(l)
                            } else {
                                None
                            },
                            None => None,
                        },
                        None => None,
                    };
                    match guessed {
                        Some(l) => Some(l),
                        None => if subs.len() == 1 {
                            Some(subs[0]@)
                        } else {
                            None
                        },
                    }
                },
            }
        },
    }
}

fn listed(v: &Vec<String>, lang: &str) -> (r: bool)
    ensures
        r == lang_listed(v@, lang@),
{
    let mut i: usize = 0;
    while i < v.len()
        invariant
            i <= v@.len(),
            forall|j: int| 0 <= j < i ==> #[trigger] v@[j]@ != lang@,
        decreases v@.len() - i,
    {
        if str_eq(v[i].as_str(), lang) {
            return true;
        }
        i += 1;
    }
    false
}

fn find_orig(auto: &Vec<String>) -> (r: Option<String>)
    ensures
        crate::ytdlp::opt_view(r) == first_orig(auto@),
{
    let mut i: usize = 0;
    assert(auto@.skip(0) =~= auto@);
    while i < auto.len()
        invariant
            i <= auto@.len(),
            first_orig(auto@) == first_orig(auto@.skip(i as int)),
        decreases auto@.len() - i,
    {
        assert(auto@.skip(i as int)[0] == auto@[i as int]);
        assert(auto@.skip(i as int).skip(1) =~= auto@.skip(i + 1));
        if crate::text::str_ends_with(auto[i].as_str(), "-orig") {
            return Some(auto[i].clone());
        }
        i += 1;
    }
    assert(auto@.skip(i as int) =~= Seq::<String>::empty());
    None
}

/// Works out which caption track is the video's original from what
/// yt-dlp reports about it.
pub fn original_lang(
    subtitles: &Vec<String>,
    auto: &Vec<String>,
    language: Option<&str>,
    title: Option<&str>,
) -> (r: Option<String>)
    ensures
        crate::ytdlp::opt_view(r) == original_lang_of(
            subtitles@,
            auto@,
            match language {
                Some(l) => Some(l@),
                None => None,
            },
            match title {
                Some(t) => Some(t@),
                None => None,
            },
        ),
{
    if let Some(o) = find_orig(auto) {
        return Some(o);
    }
    if let Some(l) = language {
        if listed(subtitles, l) || listed(auto, l) {
            return Some(str_to_string(l));
        }
    }
    if let Some(t) = title {
        if let Some(l) = infer_lang_from_text(t) {
            if listed(subtitles, l) || listed(auto, l) {
                return Some(str_to_string(l));
            }
        }
    }
    if subtitles.len() == 1 {
        Some(subtitles[0].clone())
    } else {
        None
    }
}

/// One language key of yt-dlp's subtitle listing, with the `ext` of each
/// track it offers (`None` where a track names none).
#[derive(Debug)]
pub struct LangTracks {
    pub lang: String,
    pub exts: Vec<Option<String>>,
}

pub struct LangTracksView {
    pub lang: Seq<char>,
    pub exts: Seq<Option<Seq<char>>>,
}

impl View for LangTracks {
    type V = LangTracksView;

    open spec fn view(&self) -> LangTracksView {
        LangTracksView {
            lang: self.lang@,
            exts: self.exts@.map_values(|e: Option<String>| crate::ytdlp::opt_view(e)),
        }
    }
}

pub open spec fn tracks_view(ts: Seq<LangTracks>) -> Seq<LangTracksView> {
    ts.map_values(|t: LangTracks| t@)
}

/// Some track of `t` is a VTT file.
pub open spec fn has_vtt(t: LangTracksView) -> bool {
    exists|i: int| 0 <= i < t.exts.len() && #[trigger] t.exts[i] == Some("vtt"@)
}

/// The languages that offer a VTT track, in listing order.
pub open spec fn vtt_langs(ts: Seq<LangTracksView>) -> Seq<Seq<char>>
    decreases ts.len(),
{
    if ts.len() == 0 {
        Seq::empty()
    } else {
        let rest = vtt_langs(ts.drop_last());
        if has_vtt(ts.last()) {
            rest.push(ts.last().lang)
        } else {
            rest
        }
    }
}

fn has_vtt_track(t: &LangTracks) -> (r: bool)
    ensures
        r == has_vtt(t@),
{
    let mut i: usize = 0;
    while i < t.exts.len()
        invariant
            i <= t.exts@.len(),
            forall|j: int| 0 <= j < i ==> #[trigger] t@.exts[j] != Some("vtt"@),
        decreases t.exts@.len() - i,
    {
        if let Some(e) = &t.exts[i] {
            if str_eq(e.as_str(), "vtt") {
                assert(t@.exts[i as int] == Some("vtt"@));
                return true;
            }
        }
        assert(t@.exts[i as int] != Some("vtt"@));
        i += 1;
    }
    false
}

/// Language keys of a subtitle listing that have a VTT track.
pub fn langs_with_vtt(entries: &Vec<LangTracks>) -> (r: Vec<String>)
    ensures
        strings_view(r@) == vtt_langs(tracks_view(entries@)),
{
    let mut out: Vec<String> = Vec::new();
    let mut i: usize = 0;
    while i < entries.len()
        invariant
            i <= entries@.len(),
            strings_view(out@) == vtt_langs(tracks_view(entries@.take(i as int))),
        decreases entries@.len() - i,
    {
        assert(tracks_view(entries@.take(i + 1)).drop_last() =~= tracks_view(entries@.take(i as int)));
        assert(tracks_view(entries@.take(i + 1)).last() == entries@[i as int]@);
        if has_vtt_track(&entries[i]) {
            let ghost before = strings_view(out@);
            out.push(entries[i].lang.clone());
            assert(strings_view(out@) =~= before.push(entries@[i as int].lang@));
        }
        i += 1;
    }
    assert(entries@.take(entries@.len() as int) =~= entries@);
    out
}

/// What yt-dlp's metadata of one video says about its captions: the
/// manual and automatic subtitle listings, the declared language and the
/// title.
#[derive(Debug)]
pub struct CaptionMeta {
    pub subtitles: Vec<LangTracks>,
    pub automatic: Vec<LangTracks>,
    pub language: Option<String>,
    pub title: Option<String>,
}

pub struct CaptionMetaView {
    pub subtitles: Seq<LangTracksView>,
    pub automatic: Seq<LangTracksView>,
    pub language: Option<Seq<char>>,
    pub title: Option<Seq<char>>,
}

impl View for CaptionMeta {
    type V = CaptionMetaView;

    open spec fn view(&self) -> CaptionMetaView {
        CaptionMetaView {
            subtitles: tracks_view(self.subtitles@),
            automatic: tracks_view(self.automatic@),
            language: crate::ytdlp::opt_view(self.language),
            title: crate::ytdlp::opt_view(self.title),
        }
    }
}

/// The caption metadata that `serde_json::from_slice` reads from the bytes
/// `b` (`None` where they are not JSON).
pub uninterp spec fn caption_meta_of(b: Seq<u8>) -> Option<CaptionMetaView>;

/// Calls `serde_json::from_slice` into a JSON value and copies out the
/// `subtitles` and `automatic_captions` objects (each language key with the
/// `ext` of each of its tracks), `language` and `title`. Claims only that
/// the result is a function of the bytes; JSON itself is not restated.
/// A listing that is not an object, or a track list that is not an array,
/// comes out empty; a field that is not a string comes out `None`.
#[verifier::external_body]
fn caption_meta(b: &[u8]) -> (r: Option<CaptionMeta>)
    ensures
        match r {
            Some(m) => caption_meta_of(b@) == Some(m@),
            None => caption_meta_of(b@) is None,
        },
{
    let v: serde_json::Value = serde_json::from_slice(b).ok()?;
    let st = |x: &serde_json::Value| x.as_str().map(String::from);
    let listing = |k: &str| v[k].as_object().map(|o| o.iter().map(|(l, ts)| LangTracks {
        lang: l.clone(),
        exts: ts.as_array().map(|a| a.iter().map(|t| st(&t["ext"])).collect()).unwrap_or_default(),
    }).collect()).unwrap_or_default();
    Some(CaptionMeta { subtitles: listing("subtitles"), automatic: listing("automatic_captions"), language: st(&v["language"]), title: st(&v["title"]) })
}

/// `langs` and `original` are what metadata `m` offers: the languages with
/// a VTT track, manual ones first, and the original track chosen among them.
pub open spec fn offers(langs: Seq<String>, original: Option<Seq<char>>, m: CaptionMetaView) -> bool {
    let k = vtt_langs(m.subtitles).len() as int;
    &&& strings_view(langs) == vtt_langs(m.subtitles) + vtt_langs(m.automatic)
    &&& original == original_lang_of(langs.take(k), langs.skip(k), m.language, m.title)
}

/// The caption languages a video offers, from its metadata.
pub fn available_langs_of(m: &CaptionMeta) -> (r: AvailableLangs)
    ensures
        offers(r.langs@, crate::ytdlp::opt_view(r.original_lang), m@),
{
    let subs = langs_with_vtt(&m.subtitles);
    let auto = langs_with_vtt(&m.automatic);
    let original = original_lang(&subs, &auto, opt_as_str(&m.language), opt_as_str(&m.title));
    let ghost s0 = subs@;
    let ghost a0 = auto@;
    let mut langs = subs;
    let mut rest = auto;
    langs.append(&mut rest);
    proof {
        let k = vtt_langs(m@.subtitles).len() as int;
        assert(strings_view(s0).len() == s0.len());
        assert(langs@ =~= s0 + a0);
        assert(langs@.take(k) =~= s0);
        assert(langs@.skip(k) =~= a0);
        assert(strings_view(langs@) =~= strings_view(s0) + strings_view(a0));
        assert(m.language is Some ==> m@.language == Some(m.language.unwrap()@));
        assert(m.title is Some ==> m@.title == Some(m.title.unwrap()@));
    }
    AvailableLangs { original_lang: original, langs }
}

/// Reads yt-dlp's metadata output into the caption languages it offers;
/// output that is not JSON is an error.
pub fn parse_caption_meta(stdout: &[u8]) -> (r: Result<AvailableLangs, String>)
    ensures
        match (r, caption_meta_of(stdout@)) {
            (Ok(a), Some(m)) => offers(a.langs@, crate::ytdlp::opt_view(a.original_lang), m),
            (Err(e), None) => e@ == "parse yt-dlp metadata"@,
            _ => false,
        },
{
    match caption_meta(stdout) {
        Some(m) => Ok(available_langs_of(&m)),
        None => Err(str_to_string("parse yt-dlp metadata")),
    }
}

/// ASCII letters and digits.
pub open spec fn is_ascii_alnum(c: char) -> bool {
    ('0' <= c <= '9') || ('a' <= c <= 'z') || ('A' <= c <= 'Z')
}

/// A language code made safe for a file name: anything but ASCII letters
/// and digits becomes `-`.
pub open spec fn safe_lang_of(lang: Seq<char>) -> Seq<char> {
    Seq::new(lang.len(), |i: int| if is_ascii_alnum(lang[i]) { lang[i] } else { '-' })
}

pub fn safe_lang(lang: &str) -> (r: String)
    ensures
        r@ == safe_lang_of(lang@),
{
    let v = str_chars(lang);
    let mut out: Vec<char> = Vec::new();
    let mut i: usize = 0;
    while i < v.len()
        invariant
            i <= v@.len(),
            v@ == lang@,
            out@ =~= safe_lang_of(lang@).take(i as int),
        decreases v@.len() - i,
    {
        let c = v[i];
        if ('0' <= c && c <= '9') || ('a' <= c && c <= 'z') || ('A' <= c && c <= 'Z') {
            out.push(c);
        } else {
            out.push('-');
        }
        i += 1;
    }
    assert(safe_lang_of(lang@).take(v@.len() as int) =~= safe_lang_of(lang@));
    string_from_chars(out.as_slice())
}

/// The caption tracks fetched so far, each non-empty, in order.
pub open spec fn kept_tracks<T, E>(rs: Seq<Result<Vec<T>, E>>) -> Seq<Seq<T>>
    decreases rs.len(),
{
    if rs.len() == 0 {
        Seq::empty()
    } else {
        let rest = kept_tracks(rs.drop_last());
        match rs.last() {
            Ok(v) => if v@.len() > 0 {
                rest.push(v@)
            } else {
                rest
            },
            Err(_) => rest,
        }
    }
}

/// The last error among the fetches.
pub open spec fn last_error<T, E>(rs: Seq<Result<Vec<T>, E>>) -> Option<E>
    decreases rs.len(),
{
    if rs.len() == 0 {
        None
    } else {
        match rs.last() {
            Err(e) => Some(e),
            Ok(_) => last_error(rs.drop_last()),
        }
    }
}

pub open spec fn vecs_view<T>(v: Seq<Vec<T>>) -> Seq<Seq<T>> {
    Seq::new(v.len(), |i: int| v[i]@)
}

/// Combines the per-language caption fetches: every non-empty track, in
/// order; an error only when no track came back and some fetch failed (the
/// last failure is reported).
pub fn combine_caption_results<T, E>(results: Vec<Result<Vec<T>, E>>) -> (r: Result<
    Vec<Vec<T>>,
    E,
>)
    ensures
        match r {
            Ok(v) => vecs_view(v@) == kept_tracks(results@) && !(kept_tracks(results@).len() == 0
                && last_error(results@) is Some),
            Err(e) => kept_tracks(results@).len() == 0 && last_error(results@) == Some(e),
        },
{
    let ghost rs = results@;
    let mut out: Vec<Vec<T>> = Vec::new();
    let mut last_err: Option<E> = None;
    let mut results = results;
    let len = results.len();
    let mut rev: Vec<Result<Vec<T>, E>> = Vec::new();
    while results.len() > 0
        invariant
            results@.len() + rev@.len() == len == rs.len(),
            results@ == rs.take(results@.len() as int),
            forall|j: int| 0 <= j < rev@.len() ==> #[trigger] rev@[j] == rs[len - 1 - j],
        decreases results@.len(),
    {
        let ghost before = results@;
        let x = results.pop().unwrap();
        assert(x == rs[results@.len() as int]);
        assert(results@ =~= rs.take(results@.len() as int));
        rev.push(x);
    }
    let mut n: usize = 0;
    while rev.len() > 0
        invariant
            n + rev@.len() == len == rs.len(),
            forall|j: int| 0 <= j < rev@.len() ==> #[trigger] rev@[j] == rs[len - 1 - j],
            vecs_view(out@) == kept_tracks(rs.take(n as int)),
            last_err == last_error(rs.take(n as int)),
        decreases rev@.len(),
    {
        let item = rev.pop().unwrap();
        assert(item == rs[n as int]);
        assert(rs.take(n + 1).drop_last() =~= rs.take(n as int));
        assert(rs.take(n + 1).last() == rs[n as int]);
        match item {
            Ok(cues) => {
                if cues.len() > 0 {
                    let ghost before = vecs_view(out@);
                    let ghost c = cues@;
                    out.push(cues);
                    assert(vecs_view(out@) =~= before.push(c));
                }
            },
            Err(e) => {
                last_err = Some(e);
            },
        }
        n += 1;
    }
    assert(rs.take(n as int) =~= rs);
    if out.len() == 0 {
        if let Some(e) = last_err {
            return Err(e);
        }
    }
    Ok(out)
}

} // verus!
