//! Turning the files found under a folder into a track list. Reading the
//! directories is the program's job; which entries a walk descends into or
//! takes, how files become tracks and in what order they are listed is
//! decided here.

use vstd::prelude::*;

use crate::sort::{
    key_lt, lemma_stable_sorted_props, lex_lt, pairs_view, sort_by_key, stable_sorted, KeyView,
    SortKey,
};
use crate::text::{
    chars_eq_ignore_ascii_case, eq_ignore_ascii_case, lowercase, push_str, str_chars,
    string_from_chars, to_lowercase,
};
use crate::ytdlp::{Track, TrackView};

verus! {

/// How many directory levels below the root a scan descends.
pub const MAX_DEPTH: u8 = 4;

/// File extensions the player can play: audio, and video whose audio
/// track the player plays.
pub open spec fn playable_exts() -> Seq<Seq<char>> {
    seq![
        "mp3"@, "m4a"@, "aac"@, "opus"@, "ogg"@, "flac"@, "wav"@, "wma"@, "alac"@,
        "mp4"@, "webm"@, "mkv"@, "avi"@, "mov"@, "m4v"@, "ts"@, "flv"@,
    ]
}

/// A file with this extension (if any) is playable.
pub open spec fn playable(ext: Option<Seq<char>>) -> bool {
    match ext {
        Some(e) => exists|i: int| 0 <= i < playable_exts().len() && eq_ignore_ascii_case(
            #[trigger] playable_exts()[i],
            e,
        ),
        None => false,
    }
}

fn playable_list() -> (r: Vec<&'static str>)
    ensures
        r@.len() == playable_exts().len(),
        forall|i: int| 0 <= i < r@.len() ==> #[trigger] r@[i]@ == playable_exts()[i],
{
    let r = vec![
        "mp3", "m4a", "aac", "opus", "ogg", "flac", "wav", "wma", "alac", "mp4", "webm", "mkv",
        "avi", "mov", "m4v", "ts", "flv",
    ];
    assert(r@.len() == 17);
    r
}

/// Whether a file with extension `ext` is playable (extensions compare
/// without regard to ASCII case).
pub fn is_playable(ext: Option<&str>) -> (r: bool)
    ensures
        r == playable(
            match ext {
                Some(e) => Some(e@),
                None => None,
            },
        ),
{
    let e = match ext {
        Some(e) => e,
        None => return false,
    };
    let ev = str_chars(e);
    let list = playable_list();
    let mut i: usize = 0;
    while i < list.len()
        invariant
            i <= list@.len(),
            list@.len() == playable_exts().len(),
            forall|k: int| 0 <= k < list@.len() ==> #[trigger] list@[k]@ == playable_exts()[k],
            forall|k: int| 0 <= k < i ==> !eq_ignore_ascii_case(#[trigger] playable_exts()[k], ev@),
            ev@ == e@,
            ext == Some(e),
        decreases list@.len() - i,
    {
        let x = str_chars(list[i]);
        if chars_eq_ignore_ascii_case(x.as_slice(), ev.as_slice()) {
            assert(eq_ignore_ascii_case(playable_exts()[i as int], e@));
            assert(exists|k: int| 0 <= k < playable_exts().len() && eq_ignore_ascii_case(
                #[trigger] playable_exts()[k],
                e@,
            ));
            return true;
        }
        i += 1;
    }
    false
}

/// What a folder walk does with one directory entry.
#[derive(Debug, Clone, Copy, PartialEq, Eq, Structural)]
pub enum WalkStep {
    /// Walk into this directory, one level deeper.
    Descend,
    /// Keep this file as a track.
    Take,
    /// Leave this entry alone.
    Skip,
}

/// The walk's rule for an entry named `name`, found `depth` levels below
/// the root: hidden entries (a leading `.`) are skipped; a directory is
/// walked while the level below it is at most [`MAX_DEPTH`]; a regular
/// file with a playable extension is taken; anything else (a symlink, a
/// device, an unplayable file) is skipped.
pub open spec fn walk_step_of(
    name: Seq<char>,
    is_dir: bool,
    is_file: bool,
    ext: Option<Seq<char>>,
    depth: u8,
) -> WalkStep {
    if name.len() > 0 && name[0] == '.' {
        WalkStep::Skip
    } else if is_dir {
        if depth < MAX_DEPTH {
            WalkStep::Descend
        } else {
            WalkStep::Skip
        }
    } else if is_file && playable(ext) {
        WalkStep::Take
    } else {
        WalkStep::Skip
    }
}

/// A walk from the root never reads a directory more than [`MAX_DEPTH`]
/// levels down, never enters or takes a hidden entry, and takes only
/// regular files with a playable extension.
pub proof fn lemma_walk_bounds(name: Seq<char>, is_dir: bool, is_file: bool, ext: Option<Seq<char>>, depth: u8)
    ensures
        walk_step_of(name, is_dir, is_file, ext, depth) == WalkStep::Descend ==> depth + 1 <= MAX_DEPTH,
        name.len() > 0 && name[0] == '.' ==> walk_step_of(name, is_dir, is_file, ext, depth) == WalkStep::Skip,
        walk_step_of(name, is_dir, is_file, ext, depth) == WalkStep::Take ==> !is_dir && is_file && playable(ext),
{
}

/// What to do with one entry of a directory `depth` levels below the root.
pub fn walk_step(name: &str, is_dir: bool, is_file: bool, ext: Option<&str>, depth: u8) -> (r:
    WalkStep)
    ensures
        r == walk_step_of(
            name@,
            is_dir,
            is_file,
            match ext {
                Some(e) => Some(e@),
                None => None,
            },
            depth,
        ),
{
    let cs = str_chars(name);
    if cs.len() > 0 && cs[0] == '.' {
        WalkStep::Skip
    } else if is_dir {
        if depth < MAX_DEPTH {
            WalkStep::Descend
        } else {
            WalkStep::Skip
        }
    } else if is_file && is_playable(ext) {
        WalkStep::Take
    } else {
        WalkStep::Skip
    }
}

/// A playable file found by a scan.
#[derive(Debug)]
pub struct ScannedFile {
    /// Full path, as text.
    pub path: String,
    /// File name without its extension, when the path has one.
    pub stem: Option<String>,
    /// Directory levels below the scanned root.
    pub depth: u8,
}

/// The track a scanned file becomes.
pub open spec fn file_track(f: ScannedFile) -> TrackView {
    TrackView {
        id: f.path@,
        title: match f.stem {
            Some(s) => s@,
            None => f.path@,
        },
        uploader: Seq::empty(),
        duration: None,
        source: Some(f.path@),
        local_depth: Some(f.depth),
        platform: None,
    }
}

/// The listing key of a scanned file: its title, lower-cased.
pub open spec fn file_key(f: ScannedFile) -> KeyView {
    KeyView { rank: 0, text: lowercase(file_track(f).title) }
}

/// The scan's track list: one track per file, listed by lower-cased title,
/// files with equal keys in the order they were found.
pub open spec fn scan_listing(files: Seq<ScannedFile>) -> Seq<TrackView> {
    stable_sorted(files.map_values(|f: ScannedFile| (file_key(f), file_track(f)))).map_values(
        |p: (KeyView, TrackView)| p.1,
    )
}

/// Builds the track list for the files a folder scan found.
pub fn scan_folder(files: Vec<ScannedFile>) -> (r: Vec<Track>)
    ensures
        r.deep_view() == scan_listing(files@),
        r@.len() == files@.len(),
        forall|k: int|
            0 <= k < r.deep_view().len() ==> exists|j: int|
                0 <= j < files@.len() && lists_file(#[trigger] r.deep_view()[k], #[trigger] files@[j]),
{
    let ghost fs = files@;
    let mut pairs: Vec<(SortKey, Track)> = Vec::new();
    let mut i: usize = 0;
    while i < files.len()
        invariant
            i <= fs.len(),
            files@ == fs,
            pairs_view(pairs@) == fs.take(i as int).map_values(
                |f: ScannedFile| (file_key(f), file_track(f)),
            ),
        decreases fs.len() - i,
    {
        let f = &files[i];
        let title = match &f.stem {
            Some(s) => s.clone(),
            None => f.path.clone(),
        };
        let lower = to_lowercase(title.as_str());
        let key = SortKey { rank: 0, text: str_chars(lower.as_str()) };
        let t = Track {
            id: f.path.clone(),
            title,
            uploader: String::new(),
            duration: None,
            source: Some(f.path.clone()),
            local_depth: Some(f.depth),
            platform: None,
        };
        let ghost before = pairs_view(pairs@);
        pairs.push((key, t));
        assert(pairs_view(pairs@) =~= before.push((file_key(fs[i as int]), file_track(fs[i as int]))));
        assert(fs.take(i + 1).map_values(|f: ScannedFile| (file_key(f), file_track(f))) =~= fs.take(
            i as int,
        ).map_values(|f: ScannedFile| (file_key(f), file_track(f))).push(
            (file_key(fs[i as int]), file_track(fs[i as int])),
        ));
        i += 1;
    }
    assert(fs.take(fs.len() as int) =~= fs);
    let sorted = sort_by_key(pairs);
    let ghost sv = pairs_view(sorted@);
    let mut out: Vec<Track> = Vec::new();
    let mut sorted = sorted;
    let mut k: usize = 0;
    let total = sorted.len();
    while sorted.len() > 0
        invariant
            k + sorted@.len() == total,
            sv.len() == total,
            pairs_view(sorted@) == sv.skip(k as int),
            out.deep_view() == sv.take(k as int).map_values(|p: (KeyView, TrackView)| p.1),
        decreases sorted@.len(),
    {
        let ghost before = sorted@;
        let (_key, t) = sorted.remove(0);
        assert(pairs_view(before)[0] == sv[k as int]);
        assert(sorted@ =~= before.skip(1));
        assert(pairs_view(sorted@) =~= pairs_view(before).skip(1));
        assert(pairs_view(sorted@) =~= sv.skip(k + 1));
        let ghost ob = out.deep_view();
        out.push(t);
        assert(out.deep_view() =~= ob.push(sv[k as int].1));
        assert(sv.take(k + 1).map_values(|p: (KeyView, TrackView)| p.1) =~= sv.take(
            k as int,
        ).map_values(|p: (KeyView, TrackView)| p.1).push(sv[k as int].1));
        k += 1;
    }
    assert(sv.take(k as int) =~= sv);
    proof {
        lemma_scan_listing(fs);
    }
    out
}

/// The depth marker shown in list rows: `R:` at the root, then one `/`
/// per level below it.
pub open spec fn depth_mark(depth: u8) -> Seq<char> {
    if depth == 0 {
        "R:"@
    } else {
        seq!['R'] + Seq::new(depth as nat, |i: int| '/')
    }
}

pub fn depth_marker(depth: u8) -> (r: String)
    ensures
        r@ == depth_mark(depth),
{
    if depth == 0 {
        return crate::text::str_to_string("R:");
    }
    let mut out: Vec<char> = Vec::new();
    out.push('R');
    let mut i: u8 = 0;
    while i < depth
        invariant
            i <= depth,
            out@ =~= seq!['R'] + Seq::new(i as nat, |k: int| '/'),
        decreases depth - i,
    {
        out.push('/');
        i += 1;
    }
    string_from_chars(out.as_slice())
}

/// `t` is the track for scanned file `f`: the path as id and source, the
/// file name without its extension as title (the path only when there is
/// no such name), no uploader, no known duration, the file's depth and no
/// platform.
pub open spec fn lists_file(t: TrackView, f: ScannedFile) -> bool {
    &&& t.id == f.path@
    &&& t.source == Some(f.path@)
    &&& t.title == match f.stem {
        Some(s) => s@,
        None => f.path@,
    }
    &&& t.uploader.len() == 0
    &&& t.duration is None
    &&& t.local_depth == Some(f.depth)
    &&& t.platform is None
}

/// A folder scan lists as many tracks as files were found, each the track
/// of one of those files (see `lists_file`), with titles in order when
/// compared lower-cased.
pub proof fn lemma_scan_listing(files: Seq<ScannedFile>)
    ensures
        scan_listing(files).len() == files.len(),
        forall|k: int|
            0 <= k < scan_listing(files).len() ==> exists|j: int|
                0 <= j < files.len() && lists_file(
                    #[trigger] scan_listing(files)[k],
                    #[trigger] files[j],
                ),
        forall|i: int, k: int|
            0 <= i < k < scan_listing(files).len() ==> !lex_lt(
                lowercase((#[trigger] scan_listing(files)[k]).title),
                lowercase((#[trigger] scan_listing(files)[i]).title),
            ),
{
    broadcast use vstd::seq_lib::to_multiset_contains;

    let pairs = files.map_values(|f: ScannedFile| (file_key(f), file_track(f)));
    let sorted = stable_sorted(pairs);
    lemma_stable_sorted_props(pairs);
    let out = scan_listing(files);
    assert(out =~= sorted.map_values(|p: (KeyView, TrackView)| p.1));
    assert forall|k: int| 0 <= k < sorted.len() implies exists|j: int|
        0 <= j < files.len() && #[trigger] sorted[k] == (file_key(files[j]), file_track(files[j])) by {
        assert(sorted.to_multiset().count(sorted[k]) > 0);
        assert(pairs.contains(sorted[k]));
        let j = choose|j: int| 0 <= j < pairs.len() && pairs[j] == sorted[k];
        assert(pairs[j] == (file_key(files[j]), file_track(files[j])));
    }
    assert forall|k: int| 0 <= k < out.len() implies exists|j: int|
        0 <= j < files.len() && lists_file(#[trigger] out[k], #[trigger] files[j]) by {
        assert(out[k] == sorted[k].1);
        let j = choose|j: int| 0 <= j < files.len() && sorted[k] == (file_key(files[j]), file_track(files[j]));
        assert(out[k] == file_track(files[j]));
        assert(lists_file(out[k], files[j]));
    }
    assert forall|i: int, k: int| 0 <= i < k < out.len() implies !lex_lt(
        lowercase((#[trigger] out[k]).title),
        lowercase((#[trigger] out[i]).title),
    ) by {
        assert(out[k] == sorted[k].1 && out[i] == sorted[i].1);
        assert(!key_lt(sorted[k].0, sorted[i].0));
        let jk = choose|j: int| 0 <= j < files.len() && sorted[k] == (file_key(files[j]), file_track(files[j]));
        let ji = choose|j: int| 0 <= j < files.len() && sorted[i] == (file_key(files[j]), file_track(files[j]));
        assert(sorted[k].0.text == lowercase(out[k].title));
        assert(sorted[i].0.text == lowercase(out[i].title));
    }
}

} // verus!
