//! Tracks, their origin platforms, and the pieces of the yt-dlp search and
//! playlist flows that decide things (the subprocess itself runs elsewhere).

use vstd::prelude::*;

use crate::text::{
    contains, dec, dec2, push_chars, push_dec, push_dec2, push_str, str_chars, str_contains,
    str_to_string, string_from_chars, trim, trim_chars,
};

verus! {

/// Where a track comes from.
#[derive(Debug, Clone, Copy, PartialEq, Eq, Structural)]
pub enum Platform {
    YouTube,
    Bilibili,
    Local,
}

/// One playable item: a streaming video or a local file.
#[derive(Debug)]
pub struct Track {
    pub id: String,
    pub title: String,
    pub uploader: String,
    pub duration: Option<u64>,
    /// When set, the absolute path or URL handed straight to the player.
    pub source: Option<String>,
    /// Depth below a scanned folder root, for tracks found by a folder scan.
    pub local_depth: Option<u8>,
    /// Origin platform; `None` marks a track cached before the field existed.
    pub platform: Option<Platform>,
}

/// The value of a [`Track`], with its strings as character sequences.
pub struct TrackView {
    pub id: Seq<char>,
    pub title: Seq<char>,
    pub uploader: Seq<char>,
    pub duration: Option<u64>,
    pub source: Option<Seq<char>>,
    pub local_depth: Option<u8>,
    pub platform: Option<Platform>,
}

impl View for Track {
    type V = TrackView;

    open spec fn view(&self) -> TrackView {
        TrackView {
            id: self.id@,
            title: self.title@,
            uploader: self.uploader@,
            duration: self.duration,
            source: match self.source {
                Some(s) => Some(s@),
                None => None,
            },
            local_depth: self.local_depth,
            platform: self.platform,
        }
    }
}

impl DeepView for Track {
    type V = TrackView;

    open spec fn deep_view(&self) -> TrackView {
        self@
    }
}

pub fn clone_opt_string(s: &Option<String>) -> (r: Option<String>)
    ensures
        r == *s,
{
    match s {
        Some(x) => Some(x.clone()),
        None => None,
    }
}

impl Clone for Track {
    fn clone(&self) -> (r: Self)
        ensures
            r@ == self@,
    {
        Track {
            id: self.id.clone(),
            title: self.title.clone(),
            uploader: self.uploader.clone(),
            duration: self.duration,
            source: clone_opt_string(&self.source),
            local_depth: self.local_depth,
            platform: self.platform,
        }
    }
}

/// Platform with the fallback for old caches: a track without a recorded
/// platform is Local when it has a `source`, else YouTube.
pub open spec fn effective_platform_of(t: TrackView) -> Platform {
    match t.platform {
        Some(p) => p,
        None => if t.source is Some {
            Platform::Local
        } else {
            Platform::YouTube
        },
    }
}

/// The address handed to the player for a track.
pub open spec fn url_of(t: TrackView) -> Seq<char> {
    match t.source {
        Some(s) => s,
        None => match effective_platform_of(t) {
            Platform::Bilibili => "https://www.bilibili.com/video/"@ + t.id,
            _ => "https://www.youtube.com/watch?v="@ + t.id,
        },
    }
}

/// `m:ss` for a known duration, `--:--` otherwise.
pub open spec fn duration_text(d: Option<u64>) -> Seq<char> {
    match d {
        Some(s) => dec((s / 60) as nat) + seq![':'] + dec2((s % 60) as nat),
        None => "--:--"@,
    }
}

/// One-glyph marker of a platform.
pub open spec fn platform_glyph(p: Platform) -> Seq<char> {
    match p {
        Platform::YouTube => "Y"@,
        Platform::Bilibili => "B"@,
        Platform::Local => "⌂"@,
    }
}

impl Track {
    pub fn effective_platform(&self) -> (r: Platform)
        ensures
            r == effective_platform_of(self@),
    {
        if let Some(p) = self.platform {
            return p;
        }
        if self.source.is_some() {
            Platform::Local
        } else {
            Platform::YouTube
        }
    }

    pub fn url(&self) -> (r: String)
        ensures
            r@ == url_of(self@),
    {
        if let Some(s) = &self.source {
            return s.clone();
        }
        let mut out: Vec<char> = Vec::new();
        match self.effective_platform() {
            Platform::Bilibili => push_str(&mut out, "https://www.bilibili.com/video/"),
            _ => push_str(&mut out, "https://www.youtube.com/watch?v="),
        }
        push_str(&mut out, self.id.as_str());
        string_from_chars(out.as_slice())
    }

    pub fn duration_str(&self) -> (r: String)
        ensures
            r@ == duration_text(self.duration),
    {
        match self.duration {
            Some(s) => {
                let mut out: Vec<char> = Vec::new();
                push_dec(&mut out, s / 60);
                out.push(':');
                push_dec2(&mut out, s % 60);
                string_from_chars(out.as_slice())
            },
            None => str_to_string("--:--"),
        }
    }

    pub fn source_glyph(&self) -> (r: &'static str)
        ensures
            r@ == platform_glyph(effective_platform_of(self@)),
    {
        match self.effective_platform() {
            Platform::YouTube => "Y",
            Platform::Bilibili => "B",
            Platform::Local => "⌂",
        }
    }

    pub fn is_local(&self) -> (r: bool)
        ensures
            r == (effective_platform_of(self@) == Platform::Local),
    {
        matches!(self.effective_platform(), Platform::Local)
    }
}

/// Which streaming platform a URL belongs to; YouTube unless it names a
/// Bilibili host.
pub open spec fn platform_of_url(url: Seq<char>) -> Platform {
    if contains(url, "bilibili.com"@) || contains(url, "b23.tv"@) {
        Platform::Bilibili
    } else {
        Platform::YouTube
    }
}

pub fn platform_from_url(url: &str) -> (r: Platform)
    ensures
        r == platform_of_url(url@),
{
    if str_contains(url, "bilibili.com") || str_contains(url, "b23.tv") {
        Platform::Bilibili
    } else {
        Platform::YouTube
    }
}

/// One line of yt-dlp's `--dump-json` output, with the fields the player
/// reads. `duration` is already whole seconds.
#[derive(Debug)]
pub struct FlatEntry {
    pub id: Option<String>,
    pub title: Option<String>,
    pub uploader: Option<String>,
    pub channel: Option<String>,
    pub duration: Option<u64>,
}

pub open spec fn opt_view(s: Option<String>) -> Option<Seq<char>> {
    match s {
        Some(x) => Some(x@),
        None => None,
    }
}

/// The track an entry yields on `platform`, or `None` for an entry
/// without an id.
pub open spec fn entry_track(e: FlatEntry, platform: Platform) -> Option<TrackView> {
    match e.id {
        None => None,
        Some(id) => Some(
            TrackView {
                id: id@,
                title: match e.title {
                    Some(t) => t@,
                    None => "(untitled)"@,
                },
                uploader: match e.uploader {
                    Some(u) => u@,
                    None => match e.channel {
                        Some(c) => c@,
                        None => "(unknown)"@,
                    },
                },
                duration: e.duration,
                source: None,
                local_depth: None,
                platform: Some(platform),
            },
        ),
    }
}

/// The tracks that a list of entries yields on `platform`, in order.
pub open spec fn entries_tracks(es: Seq<FlatEntry>, platform: Platform) -> Seq<TrackView>
    decreases es.len(),
{
    if es.len() == 0 {
        Seq::empty()
    } else {
        let rest = entries_tracks(es.drop_last(), platform);
        match entry_track(es.last(), platform) {
            Some(t) => rest.push(t),
            None => rest,
        }
    }
}

/// Every track built from yt-dlp entries carries the platform that was
/// searched or fetched, and comes from an entry with that id; entries
/// without an id are the only ones dropped.
pub proof fn lemma_entries_platform(es: Seq<FlatEntry>, p: Platform)
    ensures
        forall|k: int|
            0 <= k < entries_tracks(es, p).len() ==> (#[trigger] entries_tracks(es, p)[k]).platform
                == Some(p) && exists|j: int|
                0 <= j < es.len() && es[j].id is Some && es[j].id->0@ == entries_tracks(es, p)[k].id,
        entries_tracks(es, p).len() <= es.len(),
        (forall|j: int| 0 <= j < es.len() ==> (#[trigger] es[j]).id is Some) ==> entries_tracks(
            es,
            p,
        ).len() == es.len(),
    decreases es.len(),
{
    if es.len() > 0 {
        let t = es.drop_last();
        lemma_entries_platform(t, p);
        let r = entries_tracks(es, p);
        let rt = entries_tracks(t, p);
        assert forall|k: int| 0 <= k < r.len() implies (#[trigger] r[k]).platform == Some(p)
            && exists|j: int| 0 <= j < es.len() && es[j].id is Some && es[j].id->0@ == r[k].id by {
            if k < rt.len() {
                assert(r[k] == rt[k]);
                let j = choose|j: int| 0 <= j < t.len() && t[j].id is Some && t[j].id->0@ == rt[k].id;
                assert(es[j] == t[j]);
            } else {
                assert(es[es.len() - 1] == es.last());
            }
        }
        if forall|j: int| 0 <= j < es.len() ==> (#[trigger] es[j]).id is Some {
            assert forall|j: int| 0 <= j < t.len() implies (#[trigger] t[j]).id is Some by {
                assert(t[j] == es[j]);
            }
            assert(es[es.len() - 1] == es.last());
        }
    }
}

fn opt_string_or(s: &Option<String>, fallback: &str) -> (r: String)
    ensures
        r@ == match *s {
            Some(x) => x@,
            None => fallback@,
        },
{
    match s {
        Some(x) => x.clone(),
        None => str_to_string(fallback),
    }
}

/// Builds the track list from parsed yt-dlp entries, skipping entries
/// without an id and filling defaults for missing title and uploader.
pub fn tracks_from_entries(entries: &Vec<FlatEntry>, platform: Platform) -> (r: Vec<Track>)
    ensures
        r.deep_view() == entries_tracks(entries@, platform),
        forall|k: int| 0 <= k < r@.len() ==> (#[trigger] r@[k]).platform == Some(platform),
{
    proof {
        lemma_entries_platform(entries@, platform);
    }
    let mut out: Vec<Track> = Vec::new();
    let mut i: usize = 0;
    while i < entries.len()
        invariant
            i <= entries@.len(),
            out.deep_view() == entries_tracks(entries@.take(i as int), platform),
        decreases entries@.len() - i,
    {
        let e = &entries[i];
        assert(entries@.take(i + 1).drop_last() =~= entries@.take(i as int));
        if let Some(id) = &e.id {
            let title = opt_string_or(&e.title, "(untitled)");
            let uploader = match &e.uploader {
                Some(u) => u.clone(),
                None => opt_string_or(&e.channel, "(unknown)"),
            };
            let t = Track {
                id: id.clone(),
                title,
                uploader,
                duration: e.duration,
                source: None,
                local_depth: None,
                platform: Some(platform),
            };
            let ghost before = out.deep_view();
            out.push(t);
            assert(out.deep_view() =~= before.push(entry_track(entries@[i as int], platform)->0));
        }
        i += 1;
    }
    assert(entries@.take(entries@.len() as int) =~= entries@);
    assert forall|k: int| 0 <= k < out@.len() implies (#[trigger] out@[k]).platform == Some(platform) by {
        assert(out.deep_view()[k] == out@[k]@);
    }
    out
}

/// The yt-dlp search prefix of a platform; Local has none.
pub open spec fn search_prefix(p: Platform) -> Option<Seq<char>> {
    match p {
        Platform::YouTube => Some("ytsearch"@),
        Platform::Bilibili => Some("bilisearch"@),
        Platform::Local => None,
    }
}

/// The search target handed to yt-dlp, `<prefix><limit>:<query>`, or the
/// error for a platform yt-dlp cannot search.
pub open spec fn search_target_of(query: Seq<char>, limit: nat, p: Platform) -> Result<
    Seq<char>,
    Seq<char>,
> {
    match search_prefix(p) {
        Some(prefix) => Ok(prefix + dec(limit) + seq![':'] + query),
        None => Err("yt-dlp cannot search local files"@),
    }
}

pub fn search_target(query: &str, limit: u64, platform: Platform) -> (r: Result<String, String>)
    ensures
        match (r, search_target_of(query@, limit as nat, platform)) {
            (Ok(a), Ok(b)) => a@ == b,
            (Err(a), Err(b)) => a@ == b,
            _ => false,
        },
{
    let mut out: Vec<char> = Vec::new();
    match platform {
        Platform::YouTube => push_str(&mut out, "ytsearch"),
        Platform::Bilibili => push_str(&mut out, "bilisearch"),
        Platform::Local => {
            return Err(str_to_string("yt-dlp cannot search local files"));
        },
    }
    push_dec(&mut out, limit);
    out.push(':');
    push_str(&mut out, query);
    Ok(string_from_chars(out.as_slice()))
}

/// The yt-dlp arguments of a search: YouTube's search page already carries
/// titles, durations and uploaders, so the flat listing suffices; Bilibili's
/// flat rows are bare links, so each entry is resolved, failing entries are
/// skipped and the Referer header is sent.
pub open spec fn search_args_of(query: Seq<char>, limit: nat, p: Platform) -> Result<
    Seq<Seq<char>>,
    Seq<char>,
> {
    match search_prefix(p) {
        Some(prefix) => {
            let head: Seq<Seq<char>> = if p == Platform::YouTube {
                seq!["--flat-playlist"@]
            } else {
                seq!["--ignore-errors"@, "--add-header"@, "Referer: https://www.bilibili.com/"@]
            };
            Ok(
                head + seq![
                    "--default-search"@,
                    prefix,
                    "--dump-json"@,
                    "--no-warnings"@,
                    "--skip-download"@,
                    prefix + dec(limit) + seq![':'] + query,
                ],
            )
        },
        None => Err("yt-dlp cannot search local files"@),
    }
}

pub open spec fn strings_of(v: Seq<String>) -> Seq<Seq<char>> {
    v.map_values(|s: String| s@)
}

/// The command line of a search, as `search_args_of` says.
pub fn search_args(query: &str, limit: u64, platform: Platform) -> (r: Result<Vec<String>, String>)
    ensures
        match (r, search_args_of(query@, limit as nat, platform)) {
            (Ok(a), Ok(b)) => strings_of(a@) == b,
            (Err(a), Err(b)) => a@ == b,
            _ => false,
        },
{
    let target = match search_target(query, limit, platform) {
        Ok(t) => t,
        Err(e) => {
            return Err(e);
        },
    };
    let mut out: Vec<String> = Vec::new();
    let prefix: &str;
    if platform == Platform::YouTube {
        out.push(str_to_string("--flat-playlist"));
        prefix = "ytsearch";
    } else {
        out.push(str_to_string("--ignore-errors"));
        out.push(str_to_string("--add-header"));
        out.push(str_to_string("Referer: https://www.bilibili.com/"));
        prefix = "bilisearch";
    }
    out.push(str_to_string("--default-search"));
    out.push(str_to_string(prefix));
    out.push(str_to_string("--dump-json"));
    out.push(str_to_string("--no-warnings"));
    out.push(str_to_string("--skip-download"));
    out.push(target);
    proof {
        if platform == Platform::YouTube {
            assert(strings_of(out@) =~= seq!["--flat-playlist"@] + seq![
                "--default-search"@,
                "ytsearch"@,
                "--dump-json"@,
                "--no-warnings"@,
                "--skip-download"@,
                out@[6]@,
            ]);
        } else {
            assert(strings_of(out@) =~= seq![
                "--ignore-errors"@,
                "--add-header"@,
                "Referer: https://www.bilibili.com/"@,
            ] + seq![
                "--default-search"@,
                "bilisearch"@,
                "--dump-json"@,
                "--no-warnings"@,
                "--skip-download"@,
                out@[8]@,
            ]);
        }
    }
    Ok(out)
}

/// What a finished yt-dlp run yields: its tracks, unless it produced none
/// and failed, in which case the error carries its trimmed stderr.
pub open spec fn run_outcome(tracks_empty: bool, success: bool, stderr: Seq<char>) -> Option<
    Seq<char>,
> {
    if tracks_empty && !success {
        Some("yt-dlp failed: "@ + trim(stderr))
    } else {
        None
    }
}

/// Decides a search's result from what yt-dlp printed: partial success
/// keeps the rows that resolved; nothing back and a failing exit is an error.
pub fn search_outcome(tracks: Vec<Track>, success: bool, stderr: &str) -> (r: Result<
    Vec<Track>,
    String,
>)
    ensures
        match (r, run_outcome(tracks@.len() == 0, success, stderr@)) {
            (Ok(t), None) => t.deep_view() == tracks.deep_view(),
            (Err(e), Some(m)) => e@ == m,
            _ => false,
        },
{
    if tracks.len() == 0 && !success {
        Err(failure_message(stderr))
    } else {
        Ok(tracks)
    }
}

/// `yt-dlp failed: <trimmed stderr>`.
pub fn failure_message(stderr: &str) -> (r: String)
    ensures
        r@ == "yt-dlp failed: "@ + trim(stderr@),
{
    let mut out: Vec<char> = Vec::new();
    push_str(&mut out, "yt-dlp failed: ");
    let e = str_chars(stderr);
    let t = trim_chars(e.as_slice());
    push_chars(&mut out, t.as_slice());
    string_from_chars(out.as_slice())
}

} // verus!
