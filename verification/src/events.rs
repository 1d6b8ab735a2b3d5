//! Searches, fetches, folder scans and the answers of the background work:
//! what the player asks for, and what it makes of each answer.

use vstd::prelude::*;

use crate::app::{
    effects_view, first_url_index, parse_search_filter, platform_short, platform_short_name,
    search_filter, App, AppView, CaptionStatus, ConfigNote, ConfigNoteView, Effect, EffectView,
    ListFocus, Mode,
};
use crate::audio::OutputDevice;
use crate::config::ConfigView;
use crate::library::{favorites_first, upserted};
use crate::text::{
    contains, dec, lowercase, push_dec, push_str, str_chars, str_contains, str_eq, str_to_string,
    string_from_chars, to_lowercase, trim, trim_chars,
};
use crate::ytdlp::{platform_from_url, platform_of_url, url_of, Platform, Track, TrackView};

verus! {

broadcast use vstd::seq_lib::group_seq_properties;

/// The glyph a search scope shows for one platform.
pub open spec fn scope_glyph(p: Platform) -> Seq<char> {
    match p {
        Platform::YouTube => "Y"@,
        Platform::Bilibili => "B"@,
        Platform::Local => "⌂"@,
    }
}

/// The platforms' glyphs joined with `+`.
pub open spec fn joined_glyphs(ps: Seq<Platform>) -> Seq<char>
    decreases ps.len(),
{
    if ps.len() == 0 {
        Seq::empty()
    } else if ps.len() == 1 {
        scope_glyph(ps[0])
    } else {
        joined_glyphs(ps.drop_last()) + "+"@ + scope_glyph(ps.last())
    }
}

/// How the status line names a search scope: `all` for every platform.
pub open spec fn scope_label(ps: Seq<Platform>) -> Seq<char> {
    if ps.len() == 3 {
        "all"@
    } else {
        joined_glyphs(ps)
    }
}

/// The local tracks whose title holds the query, ignoring case.
pub open spec fn local_hits(ts: Seq<TrackView>, q: Seq<char>) -> Seq<TrackView>
    decreases ts.len(),
{
    if ts.len() == 0 {
        Seq::empty()
    } else if contains(lowercase(ts.last().title), lowercase(q)) {
        local_hits(ts.drop_last(), q).push(ts.last())
    } else {
        local_hits(ts.drop_last(), q)
    }
}

/// How many results a search asks of each streaming platform.
pub const SEARCH_LIMIT: u64 = 5;

/// One search per streaming platform of the scope, in scope order.
pub open spec fn search_effects(ps: Seq<Platform>, q: Seq<char>) -> Seq<EffectView>
    decreases ps.len(),
{
    if ps.len() == 0 {
        Seq::empty()
    } else if ps.last() == Platform::Local {
        search_effects(ps.drop_last(), q)
    } else {
        search_effects(ps.drop_last(), q).push(
            EffectView::Search { query: q, platform: ps.last(), limit: SEARCH_LIMIT },
        )
    }
}

/// The state after Enter in the search prompt.
pub open spec fn search_started(a: AppView) -> AppView {
    let raw = trim(a.query);
    if raw.len() == 0 {
        AppView { mode: Mode::Browse, ..a }
    } else {
        let ps = search_filter(raw).0;
        let q = search_filter(raw).1;
        if q.len() == 0 {
            AppView { mode: Mode::Browse, status: "Empty search after filter"@, ..a }
        } else {
            let hits = if ps.contains(Platform::Local) {
                local_hits(a.local_folder, q)
            } else {
                Seq::empty()
            };
            let n = search_effects(ps, q).len();
            AppView {
                mode: Mode::Browse,
                results: hits,
                selected: 0,
                current_search_query: Some(q),
                pending_searches: n as usize,
                searching: n > 0,
                status: if n == 0 {
                    "Local results: "@ + dec(hits.len()) + " for \""@ + q + "\"."@
                } else {
                    "Searching ("@ + scope_label(ps) + "): "@ + q + " ..."@
                },
                ..a
            }
        }
    }
}

/// What Enter in the search prompt asks for.
pub open spec fn search_started_effects(a: AppView) -> Seq<EffectView> {
    let raw = trim(a.query);
    let q = search_filter(raw).1;
    if raw.len() == 0 || q.len() == 0 {
        Seq::empty()
    } else {
        search_effects(search_filter(raw).0, q)
    }
}

/// The state after one platform answered the search for `q`.
pub open spec fn search_answered(a: AppView, q: Seq<char>, found: Result<Seq<TrackView>, Seq<char>>) -> AppView {
    if a.current_search_query != Some(q) {
        a
    } else {
        let a1 = match found {
            Ok(ts) => AppView { results: a.results + ts, ..a },
            Err(e) => AppView { status: "Search failed: "@ + e, ..a },
        };
        let p = if a.pending_searches > 0 {
            (a.pending_searches - 1) as usize
        } else {
            0usize
        };
        if p == 0 {
            AppView {
                pending_searches: 0,
                searching: false,
                status: "Found "@ + dec(a1.results.len()) + " results for \""@ + q + "\"."@,
                ..a1
            }
        } else {
            AppView { pending_searches: p, ..a1 }
        }
    }
}

/// The state after the playlist fetch of `url` answered.
pub open spec fn playlist_answered(a: AppView, url: Seq<char>, found: Result<Seq<TrackView>, Seq<char>>) -> AppView {
    if a.config.yt_playlist_url != Some(url) {
        a
    } else {
        match found {
            Ok(ts) => {
                let p = platform_of_url(url);
                let lib = favorites_first(upserted(a.library, url, url, p, ts.len() as usize));
                AppView {
                    yt_playlist_loading: false,
                    yt_playlist: ts,
                    yt_playlist_selected: 0,
                    library: lib,
                    library_selected: first_url_index(lib, url),
                    status: platform_short_name(p) + " playlist loaded ("@ + dec(ts.len())
                        + " tracks)"@,
                    ..a
                }
            },
            Err(e) => AppView {
                yt_playlist_loading: false,
                status: "YT playlist failed: "@ + e,
                ..a
            },
        }
    }
}

pub open spec fn tracks_result_view(r: Result<Vec<Track>, String>) -> Result<Seq<TrackView>, Seq<char>> {
    match r {
        Ok(v) => Ok(v.deep_view()),
        Err(e) => Err(e@),
    }
}

/// The lower-case title of each track, found to hold `q` or not, in order.
fn local_matches(ts: &Vec<Track>, q: &str) -> (r: Vec<Track>)
    ensures
        r.deep_view() == local_hits(ts.deep_view(), q@),
{
    let ql = to_lowercase(q);
    let mut out: Vec<Track> = Vec::new();
    let mut i: usize = 0;
    while i < ts.len()
        invariant
            i <= ts@.len(),
            ql@ == lowercase(q@),
            out.deep_view() == local_hits(ts.deep_view().take(i as int), q@),
        decreases ts@.len() - i,
    {
        assert(ts.deep_view().take(i + 1).drop_last() =~= ts.deep_view().take(i as int));
        let tl = to_lowercase(ts[i].title.as_str());
        if str_contains(tl.as_str(), ql.as_str()) {
            let ghost before = out.deep_view();
            let t = ts[i].clone();
            out.push(t);
            assert(out.deep_view() =~= before.push(ts.deep_view()[i as int]));
        }
        i += 1;
    }
    assert(ts.deep_view().take(ts@.len() as int) =~= ts.deep_view());
    out
}

/// Scope label for the status line, as `scope_label` says.
fn scope_text(ps: &Vec<Platform>) -> (r: Vec<char>)
    ensures
        r@ == scope_label(ps@),
{
    let mut out: Vec<char> = Vec::new();
    if ps.len() == 3 {
        push_str(&mut out, "all");
        return out;
    }
    let mut i: usize = 0;
    while i < ps.len()
        invariant
            i <= ps@.len(),
            ps@.len() != 3,
            out@ == joined_glyphs(ps@.take(i as int)),
        decreases ps@.len() - i,
    {
        assert(ps@.take(i + 1).drop_last() =~= ps@.take(i as int));
        if i > 0 {
            push_str(&mut out, "+");
        }
        let g = match ps[i] {
            Platform::YouTube => "Y",
            Platform::Bilibili => "B",
            Platform::Local => "⌂",
        };
        push_str(&mut out, g);
        proof {
            if i == 0 {
                assert(joined_glyphs(ps@.take(1)) == scope_glyph(ps@[0]));
                assert(joined_glyphs(ps@.take(0)) =~= Seq::<char>::empty());
            }
        }
        i += 1;
    }
    assert(ps@.take(ps@.len() as int) =~= ps@);
    out
}

/// The search effects of a scope, as `search_effects` says.
fn search_requests(ps: &Vec<Platform>, q: &String) -> (r: Vec<Effect>)
    ensures
        effects_view(r@) == search_effects(ps@, q@),
{
    let mut out: Vec<Effect> = Vec::new();
    let mut i: usize = 0;
    while i < ps.len()
        invariant
            i <= ps@.len(),
            effects_view(out@) == search_effects(ps@.take(i as int), q@),
        decreases ps@.len() - i,
    {
        assert(ps@.take(i + 1).drop_last() =~= ps@.take(i as int));
        let p = ps[i];
        if p != Platform::Local {
            let ghost before = out@;
            out.push(Effect::Search { query: q.clone(), platform: p, limit: SEARCH_LIMIT });
            assert(effects_view(out@) =~= effects_view(before).push(
                EffectView::Search { query: q@, platform: p, limit: SEARCH_LIMIT },
            ));
        }
        i += 1;
    }
    assert(ps@.take(ps@.len() as int) =~= ps@);
    out
}

/// Whether the scope includes local files.
fn has_local(ps: &Vec<Platform>) -> (r: bool)
    ensures
        r == ps@.contains(Platform::Local),
{
    let mut i: usize = 0;
    while i < ps.len()
        invariant
            i <= ps@.len(),
            forall|j: int| 0 <= j < i ==> ps@[j] != Platform::Local,
        decreases ps@.len() - i,
    {
        if ps[i] == Platform::Local {
            assert(ps@[i as int] == Platform::Local);
            return true;
        }
        i += 1;
    }
    false
}

/// Probed durations as values: (track id, seconds).
pub open spec fn updates_view(v: Seq<(String, u64)>) -> Seq<(Seq<char>, u64)> {
    Seq::new(v.len(), |i: int| (v[i].0@, v[i].1))
}

/// The first duration probed for `id`, if any.
pub open spec fn first_dur(ups: Seq<(Seq<char>, u64)>, id: Seq<char>) -> Option<u64>
    decreases ups.len(),
{
    if ups.len() == 0 {
        None
    } else {
        match first_dur(ups.drop_last(), id) {
            Some(d) => Some(d),
            None => if ups.last().0 == id {
                Some(ups.last().1)
            } else {
                None
            },
        }
    }
}

/// A track with its missing duration filled in from the probes.
pub open spec fn filled(t: TrackView, ups: Seq<(Seq<char>, u64)>) -> TrackView {
    if t.duration is None && first_dur(ups, t.id) is Some {
        TrackView { duration: first_dur(ups, t.id), ..t }
    } else {
        t
    }
}

pub open spec fn filled_all(ts: Seq<TrackView>, ups: Seq<(Seq<char>, u64)>) -> Seq<TrackView> {
    Seq::new(ts.len(), |i: int| filled(ts[i], ups))
}

/// Some track of `ts` gets a duration from the probes.
pub open spec fn fills_any(ts: Seq<TrackView>, ups: Seq<(Seq<char>, u64)>) -> bool {
    exists|i: int| 0 <= i < ts.len() && #[trigger] ts[i].duration is None && first_dur(ups, ts[i].id) is Some
}

/// One probe applied to one track.
pub open spec fn fill_step(t: TrackView, id: Seq<char>, d: u64) -> TrackView {
    if t.id == id && t.duration is None {
        TrackView { duration: Some(d), ..t }
    } else {
        t
    }
}

/// The effects of a batch of probed durations: the lists that changed are
/// written, and a failed write is reported.
pub open spec fn durations_effects(a: AppView, ups: Seq<(Seq<char>, u64)>) -> Seq<EffectView> {
    (if fills_any(a.playlist, ups) {
        seq![EffectView::SavePlaylist { report: true }]
    } else {
        Seq::empty()
    }) + (if fills_any(a.local_folder, ups) {
        seq![EffectView::SaveLocalFolder { report: true }]
    } else {
        Seq::empty()
    })
}

proof fn lemma_fill_step(ts: Seq<TrackView>, ups: Seq<(Seq<char>, u64)>, j: int)
    requires
        0 <= j < ups.len(),
    ensures
        forall|i: int|
            0 <= i < ts.len() ==> #[trigger] filled(ts[i], ups.take(j + 1)) == fill_step(
                filled(ts[i], ups.take(j)),
                ups[j].0,
                ups[j].1,
            ),
        fills_any(ts, ups.take(j + 1)) == (fills_any(ts, ups.take(j)) || exists|i: int|
            0 <= i < ts.len() && (#[trigger] filled(ts[i], ups.take(j))).id == ups[j].0 && filled(
                ts[i],
                ups.take(j),
            ).duration is None),
{
    let u1 = ups.take(j + 1);
    let u0 = ups.take(j);
    assert(u1.drop_last() =~= u0);
    assert(u1.last() == ups[j]);
    assert forall|i: int| 0 <= i < ts.len() implies #[trigger] filled(ts[i], u1) == fill_step(
        filled(ts[i], u0),
        ups[j].0,
        ups[j].1,
    ) by {
        assert(first_dur(u1, ts[i].id) == match first_dur(u0, ts[i].id) {
            Some(d) => Some(d),
            None => if ups[j].0 == ts[i].id {
                Some(ups[j].1)
            } else {
                None
            },
        });
    }
    if fills_any(ts, u1) {
        let i = choose|i: int| 0 <= i < ts.len() && #[trigger] ts[i].duration is None && first_dur(u1, ts[i].id) is Some;
        assert(first_dur(u1, ts[i].id) == match first_dur(u0, ts[i].id) {
            Some(d) => Some(d),
            None => if ups[j].0 == ts[i].id {
                Some(ups[j].1)
            } else {
                None
            },
        });
        if first_dur(u0, ts[i].id) is None {
            assert(filled(ts[i], u0).id == ups[j].0);
        }
    }
    if fills_any(ts, u0) {
        let i = choose|i: int| 0 <= i < ts.len() && #[trigger] ts[i].duration is None && first_dur(u0, ts[i].id) is Some;
        assert(first_dur(u1, ts[i].id) == first_dur(u0, ts[i].id));
        assert(ts[i].duration is None && first_dur(u1, ts[i].id) is Some);
    }
    if exists|i: int|
        0 <= i < ts.len() && (#[trigger] filled(ts[i], u0)).id == ups[j].0 && filled(ts[i], u0).duration is None {
        let i = choose|i: int|
            0 <= i < ts.len() && (#[trigger] filled(ts[i], u0)).id == ups[j].0 && filled(ts[i], u0).duration is None;
        assert(first_dur(u1, ts[i].id) == match first_dur(u0, ts[i].id) {
            Some(d) => Some(d),
            None => if ups[j].0 == ts[i].id {
                Some(ups[j].1)
            } else {
                None
            },
        });
        assert(ts[i].duration is None && first_dur(u1, ts[i].id) is Some);
    }
}

/// Probing settles: the same durations applied again change nothing and
/// fill nothing, so a second batch asks for no writes.
pub proof fn lemma_fill_settles(ts: Seq<TrackView>, ups: Seq<(Seq<char>, u64)>)
    ensures
        filled_all(filled_all(ts, ups), ups) == filled_all(ts, ups),
        !fills_any(filled_all(ts, ups), ups),
{
    let f = filled_all(ts, ups);
    assert(filled_all(f, ups) =~= f);
    if fills_any(f, ups) {
        let i = choose|i: int| 0 <= i < f.len() && #[trigger] f[i].duration is None && first_dur(ups, f[i].id) is Some;
        assert(f[i] == filled(ts[i], ups));
    }
}

/// Fills in the duration of every track of `ts` with this id that has none.
fn fill_list(ts: &mut Vec<Track>, id: &str, dur: u64) -> (changed: bool)
    ensures
        final(ts)@.len() == old(ts)@.len(),
        forall|i: int|
            0 <= i < old(ts)@.len() ==> #[trigger] final(ts).deep_view()[i] == fill_step(
                old(ts).deep_view()[i],
                id@,
                dur,
            ),
        changed == exists|i: int|
            0 <= i < old(ts)@.len() && (#[trigger] old(ts).deep_view()[i]).id == id@ && old(
                ts,
            ).deep_view()[i].duration is None,
{
    let ghost t0 = ts.deep_view();
    let mut changed = false;
    let mut i: usize = 0;
    while i < ts.len()
        invariant
            i <= ts@.len(),
            ts@.len() == t0.len(),
            forall|k: int| 0 <= k < i ==> #[trigger] ts.deep_view()[k] == fill_step(t0[k], id@, dur),
            forall|k: int| i <= k < ts@.len() ==> #[trigger] ts.deep_view()[k] == t0[k],
            changed == exists|k: int| 0 <= k < i && (#[trigger] t0[k]).id == id@ && t0[k].duration is None,
        decreases ts@.len() - i,
    {
        assert(ts.deep_view()[i as int] == ts@[i as int]@);
        if ts[i].duration.is_none() && str_eq(ts[i].id.as_str(), id) {
            let mut t = ts[i].clone();
            t.duration = Some(dur);
            let ghost before = ts.deep_view();
            let ghost tv = t@;
            ts.set(i, t);
            assert(ts.deep_view() =~= before.update(i as int, tv));
            changed = true;
            assert(t0[i as int].id == id@ && t0[i as int].duration is None);
        } else {
            assert(!(t0[i as int].id == id@ && t0[i as int].duration is None));
        }
        i += 1;
    }
    changed
}

/// A file opened from the prompt, as a track of the unsaved list.
pub open spec fn opened_track(path: Seq<char>, title: Seq<char>, duration: Option<u64>) -> TrackView {
    TrackView {
        id: path,
        title,
        uploader: Seq::empty(),
        duration,
        source: Some(path),
        local_depth: None,
        platform: Some(Platform::Local),
    }
}

/// The first index of a track with this id.
pub open spec fn id_index(s: Seq<TrackView>, id: Seq<char>) -> Option<int>
    decreases s.len(),
{
    if s.len() == 0 {
        None
    } else {
        match id_index(s.drop_last(), id) {
            Some(k) => Some(k),
            None => if s.last().id == id {
                Some(s.len() - 1)
            } else {
                None
            },
        }
    }
}

/// The unsaved list after opening a file, the index the file is at, and
/// whether the list changed.
pub open spec fn opened_list(pl: Seq<TrackView>, t: TrackView) -> (Seq<TrackView>, int, bool) {
    match id_index(pl, t.id) {
        Some(i) => if pl[i].duration is None && t.duration is Some {
            (pl.update(i, TrackView { duration: t.duration, ..pl[i] }), i, true)
        } else {
            (pl, i, false)
        },
        None => (pl.push(t), pl.len() as int, true),
    }
}

/// The state just before the opened file starts: the tracks pane shows the
/// unsaved list with the file selected, and the list is the queue.
pub open spec fn opened_state(a: AppView, t: TrackView) -> AppView {
    let (pl, idx, _) = opened_list(a.playlist, t);
    AppView {
        playlist: pl,
        focus: ListFocus::YtPlaylist,
        active_library: crate::app::ActiveLibrary::Unsaved,
        yt_playlist_selected: idx as usize,
        queue: pl,
        queue_source: crate::app::QueueSourceView::Unsaved,
        ..a
    }
}

proof fn lemma_id_index(s: Seq<TrackView>, id: Seq<char>)
    ensures
        id_index(s, id) matches Some(k) ==> 0 <= k < s.len() && s[k].id == id && forall|j: int|
            0 <= j < k ==> #[trigger] s[j].id != id,
        id_index(s, id) is None ==> forall|j: int| 0 <= j < s.len() ==> #[trigger] s[j].id != id,
    decreases s.len(),
{
    if s.len() > 0 {
        lemma_id_index(s.drop_last(), id);
        assert forall|j: int| 0 <= j < s.len() - 1 implies #[trigger] s[j] == s.drop_last()[j] by {}
    }
}

/// Index of the first track with this id, as `id_index` says.
fn find_id(v: &Vec<Track>, id: &str) -> (r: Option<usize>)
    ensures
        match r {
            Some(k) => id_index(v.deep_view(), id@) == Some(k as int),
            None => id_index(v.deep_view(), id@) is None,
        },
{
    let mut i: usize = 0;
    while i < v.len()
        invariant
            i <= v@.len(),
            forall|j: int| 0 <= j < i ==> #[trigger] v.deep_view()[j].id != id@,
        decreases v@.len() - i,
    {
        assert(v.deep_view()[i as int] == v@[i as int]@);
        if str_eq(v[i].id.as_str(), id) {
            proof {
                let s = v.deep_view();
                lemma_id_index(s, id@);
                if id_index(s, id@) is None {
                    assert(s[i as int].id == id@);
                } else {
                    let k = id_index(s, id@)->0;
                    if k < i {
                        assert(s[k].id != id@);
                    }
                    if k > i {
                        assert(s[i as int].id != id@);
                    }
                }
            }
            return Some(i);
        }
        i += 1;
    }
    proof {
        let s = v.deep_view();
        lemma_id_index(s, id@);
        if id_index(s, id@) is Some {
            let k = id_index(s, id@)->0;
            assert(s[k].id != id@);
        }
    }
    None
}

/// The (id, source) pairs of local tracks still missing a duration, each
/// id once, in list order.
pub open spec fn backfill_targets(l: Seq<TrackView>) -> Seq<(Seq<char>, Seq<char>)>
    decreases l.len(),
{
    if l.len() == 0 {
        Seq::empty()
    } else {
        let r = backfill_targets(l.drop_last());
        let t = l.last();
        if t.duration is None && t.source is Some && !(exists|k: int| 0 <= k < r.len() && #[trigger] r[k].0 == t.id) {
            r.push((t.id, t.source->0))
        } else {
            r
        }
    }
}

pub open spec fn pairs_view(v: Seq<(String, String)>) -> Seq<(Seq<char>, Seq<char>)> {
    Seq::new(v.len(), |i: int| (v[i].0@, v[i].1@))
}

/// Whether some pair already has this id.
fn has_target(out: &Vec<(String, String)>, id: &str) -> (r: bool)
    ensures
        r == exists|k: int| 0 <= k < out@.len() && #[trigger] pairs_view(out@)[k].0 == id@,
{
    let mut i: usize = 0;
    while i < out.len()
        invariant
            i <= out@.len(),
            forall|k: int| 0 <= k < i ==> #[trigger] pairs_view(out@)[k].0 != id@,
        decreases out@.len() - i,
    {
        if str_eq(out[i].0.as_str(), id) {
            assert(pairs_view(out@)[i as int].0 == id@);
            return true;
        }
        i += 1;
    }
    false
}

/// Adds the targets of one more list.
fn collect_targets(out: &mut Vec<(String, String)>, ts: &Vec<Track>, Ghost(prefix): Ghost<Seq<TrackView>>)
    requires
        pairs_view(old(out)@) == backfill_targets(prefix),
    ensures
        pairs_view(final(out)@) == backfill_targets(prefix + ts.deep_view()),
{
    let mut i: usize = 0;
    while i < ts.len()
        invariant
            i <= ts@.len(),
            pairs_view(out@) == backfill_targets(prefix + ts.deep_view().take(i as int)),
        decreases ts@.len() - i,
    {
        let ghost l1 = prefix + ts.deep_view().take(i + 1);
        assert(l1.drop_last() =~= prefix + ts.deep_view().take(i as int));
        assert(l1.last() == ts.deep_view()[i as int]);
        if ts[i].duration.is_none() {
            if let Some(src) = &ts[i].source {
                if !has_target(out, ts[i].id.as_str()) {
                    let ghost before = out@;
                    out.push((ts[i].id.clone(), src.clone()));
                    assert(pairs_view(out@) =~= pairs_view(before).push((ts.deep_view()[i as int].id, src@)));
                }
            }
        }
        i += 1;
    }
    assert(ts.deep_view().take(ts@.len() as int) =~= ts.deep_view());
}

impl App {
    /// Enter in the search prompt: local files are searched at once, and a
    /// search is asked for on each streaming platform of the scope.
    pub fn submit_search(&mut self) -> (r: Vec<Effect>)
        ensures
            final(self)@ == search_started(old(self)@),
            effects_view(r@) == search_started_effects(old(self)@),
    {
        let qv = str_chars(self.query.as_str());
        let raw_v = trim_chars(qv.as_slice());
        self.mode = Mode::Browse;
        if raw_v.len() == 0 {
            return Vec::new();
        }
        let raw = string_from_chars(raw_v.as_slice());
        let (platforms, query) = parse_search_filter(raw.as_str());
        if query.as_str().is_empty() {
            self.status = str_to_string("Empty search after filter");
            return Vec::new();
        }
        let local = has_local(&platforms);
        let hits = if local {
            local_matches(&self.local_folder, query.as_str())
        } else {
            Vec::new()
        };
        assert(!local ==> hits.deep_view() =~= Seq::<TrackView>::empty());
        let effects = search_requests(&platforms, &query);
        let n = effects.len();
        let hit_count = hits.len();
        self.results = hits;
        self.selected = 0;
        self.current_search_query = Some(query.clone());
        self.pending_searches = n;
        self.searching = n > 0;
        let mut st: Vec<char> = Vec::new();
        if n == 0 {
            push_str(&mut st, "Local results: ");
            push_dec(&mut st, hit_count as u64);
            push_str(&mut st, " for \"");
            push_str(&mut st, query.as_str());
            push_str(&mut st, "\".");
        } else {
            push_str(&mut st, "Searching (");
            let label = scope_text(&platforms);
            crate::text::push_chars(&mut st, label.as_slice());
            push_str(&mut st, "): ");
            push_str(&mut st, query.as_str());
            push_str(&mut st, " ...");
        }
        self.status = string_from_chars(st.as_slice());
        effects
    }

    /// One platform answered the search for `query`; answers to an older
    /// query are dropped.
    pub fn on_search_done(&mut self, query: &str, result: Result<Vec<Track>, String>)
        ensures
            final(self)@ == search_answered(old(self)@, query@, tracks_result_view(result)),
    {
        let current = match &self.current_search_query {
            Some(c) => str_eq(c.as_str(), query),
            None => false,
        };
        if !current {
            return;
        }
        match result {
            Ok(tracks) => {
                let mut tracks = tracks;
                let ghost r0 = self.results.deep_view();
                let ghost t0 = tracks.deep_view();
                self.results.append(&mut tracks);
                assert(self.results.deep_view() =~= r0 + t0);
            },
            Err(e) => {
                let mut st: Vec<char> = Vec::new();
                push_str(&mut st, "Search failed: ");
                push_str(&mut st, e.as_str());
                self.status = string_from_chars(st.as_slice());
            },
        }
        if self.pending_searches > 0 {
            self.pending_searches -= 1;
        }
        if self.pending_searches == 0 {
            self.searching = false;
            let mut st: Vec<char> = Vec::new();
            push_str(&mut st, "Found ");
            push_dec(&mut st, self.results.len() as u64);
            push_str(&mut st, " results for \"");
            push_str(&mut st, query);
            push_str(&mut st, "\".");
            self.status = string_from_chars(st.as_slice());
        }
    }

    /// The audio output changed (or went away).
    pub fn on_device(&mut self, device: Option<OutputDevice>)
        ensures
            final(self)@ == (AppView {
                output_device: match device {
                    Some(d) => Some(d@),
                    None => None,
                },
                ..old(self)@
            }),
    {
        self.output_device = device;
    }

    /// The fetch of playlist `url` answered; answers for a URL that is no
    /// longer the current one are dropped.
    pub fn on_yt_playlist_done(&mut self, url: &str, result: Result<Vec<Track>, String>) -> (r: Vec<
        Effect,
    >)
        ensures
            final(self)@ == playlist_answered(old(self)@, url@, tracks_result_view(result)),
            old(self)@.config.yt_playlist_url == Some(url@) && result is Ok ==> effects_view(r@)
                == seq![EffectView::SaveYtPlaylist { report: false }, EffectView::SaveLibrary],
            !(old(self)@.config.yt_playlist_url == Some(url@) && result is Ok) ==> r@.len() == 0,
    {
        let current = match &self.config.yt_playlist_url {
            Some(c) => str_eq(c.as_str(), url),
            None => false,
        };
        if !current {
            return Vec::new();
        }
        self.yt_playlist_loading = false;
        match result {
            Ok(tracks) => {
                let n = tracks.len();
                self.yt_playlist = tracks;
                self.yt_playlist_selected = 0;
                let platform = platform_from_url(url);
                let k = self.library.upsert(url, url, platform, n);
                proof {
                    let lib = self.library@;
                    let c = choose|j: int| crate::library::is_first_url(lib, url@, j);
                    crate::library::lemma_first_url_unique(lib, url@, c, k as int);
                }
                self.library_selected = match self.library.position(url) {
                    Some(j) => j,
                    None => 0,
                };
                proof {
                    let lib = self.library@;
                    if self.library_selected != k {
                        crate::library::lemma_first_url_unique(lib, url@, self.library_selected as int, k as int);
                    }
                }
                let mut st: Vec<char> = Vec::new();
                push_str(&mut st, platform_short(platform));
                push_str(&mut st, " playlist loaded (");
                push_dec(&mut st, n as u64);
                push_str(&mut st, " tracks)");
                self.status = string_from_chars(st.as_slice());
                let r = vec![Effect::SaveYtPlaylist { report: false }, Effect::SaveLibrary];
                assert(effects_view(r@) =~= seq![
                    EffectView::SaveYtPlaylist { report: false },
                    EffectView::SaveLibrary,
                ]);
                r
            },
            Err(e) => {
                let mut st: Vec<char> = Vec::new();
                push_str(&mut st, "YT playlist failed: ");
                push_str(&mut st, e.as_str());
                self.status = string_from_chars(st.as_slice());
                Vec::new()
            },
        }
    }

    /// The scan of `folder` finished; a scan of a folder that is no longer
    /// the configured one is dropped.
    pub fn on_local_folder_done(&mut self, folder: &str, tracks: Vec<Track>) -> (r: Vec<Effect>)
        ensures
            old(self)@.config.local_folder != Some(folder@) ==> final(self)@ == old(self)@ && r@.len()
                == 0,
            old(self)@.config.local_folder == Some(folder@) ==> final(self)@ == (AppView {
                local_folder_scanning: false,
                local_folder: tracks.deep_view(),
                local_folder_selected: 0,
                status: "Folder scan: "@ + dec(tracks@.len()) + " files"@,
                ..old(self)@
            }) && effects_view(r@) == seq![EffectView::SaveLocalFolder { report: false }],
    {
        let current = match &self.config.local_folder {
            Some(c) => str_eq(c.as_str(), folder),
            None => false,
        };
        if !current {
            return Vec::new();
        }
        let n = tracks.len();
        self.local_folder_scanning = false;
        self.local_folder = tracks;
        self.local_folder_selected = 0;
        let mut st: Vec<char> = Vec::new();
        push_str(&mut st, "Folder scan: ");
        push_dec(&mut st, n as u64);
        push_str(&mut st, " files");
        self.status = string_from_chars(st.as_slice());
        let r = vec![Effect::SaveLocalFolder { report: false }];
        assert(effects_view(r@) =~= seq![EffectView::SaveLocalFolder { report: false }]);
        r
    }

    /// The caption fetch for track `id` answered with this many caption
    /// tracks, or failed. Returns whether the answer is for the track the
    /// captions are wanted for (else it is stale and the cues are dropped).
    pub fn on_captions_done(&mut self, id: &str, result: Result<usize, String>) -> (r: bool)
        ensures
            r == (old(self)@.captions_track_id == Some(id@)),
            !r ==> final(self)@ == old(self)@,
            r ==> final(self)@ == (AppView {
                caption_status: match result {
                    Ok(n) => if n == 0 {
                        CaptionStatus::Empty
                    } else {
                        CaptionStatus::Ready
                    },
                    Err(_) => CaptionStatus::Error,
                },
                ..old(self)@
            }),
    {
        let current = match &self.captions_track_id {
            Some(c) => str_eq(c.as_str(), id),
            None => false,
        };
        if !current {
            return false;
        }
        self.caption_status = match result {
            Ok(n) => if n == 0 {
                CaptionStatus::Empty
            } else {
                CaptionStatus::Ready
            },
            Err(_) => CaptionStatus::Error,
        };
        true
    }

    /// `y`: copy the selected track's URL.
    pub fn yank_selected_url(&mut self) -> (r: Vec<Effect>)
        ensures
            ({
                let a = old(self)@;
                let ts = crate::app::focused_tracks_of(a);
                let k = crate::app::focused_selected_of(a);
                if k < ts.len() {
                    final(self)@ == a && effects_view(r@) == seq![
                        EffectView::CopyUrl { url: url_of(ts[k as int]) },
                    ]
                } else {
                    final(self)@ == (AppView { status: "nothing to copy"@, ..a }) && r@.len() == 0
                }
            }),
    {
        let idx = self.focused_selected();
        let tracks = self.focused_tracks();
        if idx >= tracks.len() {
            self.status = str_to_string("nothing to copy");
            return Vec::new();
        }
        let url = tracks[idx].url();
        let r = vec![Effect::CopyUrl { url }];
        assert(effects_view(r@) =~= seq![
            EffectView::CopyUrl { url: url_of(crate::app::focused_tracks_of(self@)[idx as int]) },
        ]);
        r
    }

    /// Reports how copying `url` went; `error` is the failure's text.
    pub fn after_copy(&mut self, url: &str, error: Option<&str>)
        ensures
            final(self)@ == (AppView {
                status: match error {
                    Some(e) => "Copy failed: "@ + e@,
                    None => "Copied URL: "@ + url@,
                },
                ..old(self)@
            }),
    {
        let mut st: Vec<char> = Vec::new();
        match error {
            Some(e) => {
                push_str(&mut st, "Copy failed: ");
                push_str(&mut st, e);
            },
            None => {
                push_str(&mut st, "Copied URL: ");
                push_str(&mut st, url);
            },
        }
        self.status = string_from_chars(st.as_slice());
    }

    /// Reports a failed write of one of the track lists, when the effect
    /// asked for it to be reported.
    pub fn list_saved(&mut self, effect: &Effect, error: Option<&str>)
        ensures
            final(self)@ == match (effect.deep_view(), error) {
                (EffectView::SavePlaylist { report: true }, Some(e)) => AppView {
                    status: "playlist saved (write failed: "@ + e@ + ")"@,
                    ..old(self)@
                },
                (EffectView::SaveYtPlaylist { report: true }, Some(e)) => AppView {
                    status: "yt playlist saved (write failed: "@ + e@ + ")"@,
                    ..old(self)@
                },
                (EffectView::SaveLocalFolder { report: true }, Some(e)) => AppView {
                    status: "local folder saved (write failed: "@ + e@ + ")"@,
                    ..old(self)@
                },
                _ => old(self)@,
            },
    {
        let e = match error {
            Some(e) => e,
            None => return ,
        };
        let what = match effect {
            Effect::SavePlaylist { report: true } => "playlist saved (write failed: ",
            Effect::SaveYtPlaylist { report: true } => "yt playlist saved (write failed: ",
            Effect::SaveLocalFolder { report: true } => "local folder saved (write failed: ",
            _ => return ,
        };
        let mut st: Vec<char> = Vec::new();
        push_str(&mut st, what);
        push_str(&mut st, e);
        push_str(&mut st, ")");
        self.status = string_from_chars(st.as_slice());
    }

    /// Starts scanning `folder` (shown as `label`) and makes it the
    /// configured local folder.
    pub fn start_local_folder_scan(&mut self, folder: String, label: String) -> (r: Vec<Effect>)
        ensures
            final(self)@ == (AppView {
                config: ConfigView {
                    local_folder: Some(folder@),
                    local_folder_label: Some(label@),
                    ..old(self)@.config
                },
                local_folder_scanning: true,
                focus: ListFocus::LocalFolder,
                local_folder_selected: 0,
                status: "Scanning "@ + folder@ + "..."@,
                ..old(self)@
            }),
            effects_view(r@) == seq![
                EffectView::SaveConfig { note: ConfigNoteView::Silent },
                EffectView::ScanFolder { path: folder@ },
            ],
    {
        let mut st: Vec<char> = Vec::new();
        push_str(&mut st, "Scanning ");
        push_str(&mut st, folder.as_str());
        push_str(&mut st, "...");
        self.config.local_folder = Some(folder.clone());
        self.config.local_folder_label = Some(label);
        self.local_folder_scanning = true;
        self.focus = ListFocus::LocalFolder;
        self.local_folder_selected = 0;
        self.status = string_from_chars(st.as_slice());
        let r = vec![
            Effect::SaveConfig { note: ConfigNote::Silent },
            Effect::ScanFolder { path: folder },
        ];
        assert(effects_view(r@) =~= seq![
            EffectView::SaveConfig { note: ConfigNoteView::Silent },
            EffectView::ScanFolder { path: folder@ },
        ]);
        r
    }
    /// A batch of probed durations: each track missing a duration gets the
    /// first one probed for its id, in the unsaved list, the folder list and
    /// the queue; the changed lists are written.
    pub fn on_durations(&mut self, updates: &Vec<(String, u64)>) -> (r: Vec<Effect>)
        ensures
            ({
                let a = old(self)@;
                let u = updates_view(updates@);
                &&& final(self)@ == (AppView {
                    playlist: filled_all(a.playlist, u),
                    local_folder: filled_all(a.local_folder, u),
                    queue: filled_all(a.queue, u),
                    ..a
                })
                &&& effects_view(r@) == durations_effects(a, u)
            }),
    {
        let ghost a = self@;
        let ghost u = updates_view(updates@);
        let mut changed_playlist = false;
        let mut changed_local = false;
        let mut j: usize = 0;
        assert(filled_all(a.playlist, u.take(0)) =~= a.playlist);
        assert(filled_all(a.local_folder, u.take(0)) =~= a.local_folder);
        assert(filled_all(a.queue, u.take(0)) =~= a.queue);
        while j < updates.len()
            invariant
                j <= updates@.len(),
                u == updates_view(updates@),
                self@ == (AppView {
                    playlist: filled_all(a.playlist, u.take(j as int)),
                    local_folder: filled_all(a.local_folder, u.take(j as int)),
                    queue: filled_all(a.queue, u.take(j as int)),
                    ..a
                }),
                changed_playlist == fills_any(a.playlist, u.take(j as int)),
                changed_local == fills_any(a.local_folder, u.take(j as int)),
            decreases updates@.len() - j,
        {
            let id = updates[j].0.as_str();
            let dur = updates[j].1;
            assert(u[j as int] == (id@, dur));
            proof {
                lemma_fill_step(a.playlist, u, j as int);
                lemma_fill_step(a.local_folder, u, j as int);
                lemma_fill_step(a.queue, u, j as int);
            }
            let ghost p0 = self.playlist.deep_view();
            let ghost l0 = self.local_folder.deep_view();
            let ghost q0 = self.queue.deep_view();
            let cp = fill_list(&mut self.playlist, id, dur);
            let ghost p1 = self.playlist.deep_view();
            assert(p1.len() == p0.len());
            assert(forall|i: int| 0 <= i < p0.len() ==> #[trigger] p1[i] == fill_step(p0[i], id@, dur));
            let cl = fill_list(&mut self.local_folder, id, dur);
            let ghost l1 = self.local_folder.deep_view();
            assert(l1.len() == l0.len());
            assert(forall|i: int| 0 <= i < l0.len() ==> #[trigger] l1[i] == fill_step(l0[i], id@, dur));
            fill_list(&mut self.queue, id, dur);
            let ghost q1 = self.queue.deep_view();
            assert(q1.len() == q0.len());
            assert(forall|i: int| 0 <= i < q0.len() ==> #[trigger] q1[i] == fill_step(q0[i], id@, dur));
            assert(self.playlist.deep_view() == p1);
            assert(self.local_folder.deep_view() == l1);
            proof {
                let u0 = u.take(j as int);
                let u1 = u.take(j as int + 1);
                assert forall|i: int| 0 <= i < a.playlist.len() implies #[trigger] self.playlist.deep_view()[i] == filled(a.playlist[i], u1) by {
                    assert(p0[i] == filled(a.playlist[i], u0));
                    assert(p1[i] == fill_step(p0[i], id@, dur));
                    assert(filled(a.playlist[i], u1) == fill_step(filled(a.playlist[i], u0), u[j as int].0, u[j as int].1));
                }
                assert forall|i: int| 0 <= i < a.local_folder.len() implies #[trigger] self.local_folder.deep_view()[i] == filled(a.local_folder[i], u1) by {
                    assert(l0[i] == filled(a.local_folder[i], u0));
                    assert(l1[i] == fill_step(l0[i], id@, dur));
                    assert(filled(a.local_folder[i], u1) == fill_step(filled(a.local_folder[i], u0), u[j as int].0, u[j as int].1));
                }
                assert forall|i: int| 0 <= i < a.queue.len() implies #[trigger] self.queue.deep_view()[i] == filled(a.queue[i], u1) by {
                    assert(q0[i] == filled(a.queue[i], u0));
                    assert(q1[i] == fill_step(q0[i], id@, dur));
                    assert(filled(a.queue[i], u1) == fill_step(filled(a.queue[i], u0), u[j as int].0, u[j as int].1));
                }
                assert(self.playlist.deep_view() =~= filled_all(a.playlist, u1));
                assert(self.local_folder.deep_view() =~= filled_all(a.local_folder, u1));
                assert(self.queue.deep_view() =~= filled_all(a.queue, u1));
                if cp {
                    let i = choose|i: int| 0 <= i < p0.len() && (#[trigger] p0[i]).id == id@ && p0[i].duration is None;
                    assert(p0[i] == filled(a.playlist[i], u.take(j as int)));
                }
                if exists|i: int| 0 <= i < a.playlist.len() && (#[trigger] filled(a.playlist[i], u.take(j as int))).id == u[j as int].0 && filled(a.playlist[i], u.take(j as int)).duration is None {
                    let i = choose|i: int| 0 <= i < a.playlist.len() && (#[trigger] filled(a.playlist[i], u.take(j as int))).id == u[j as int].0 && filled(a.playlist[i], u.take(j as int)).duration is None;
                    assert(p0[i] == filled(a.playlist[i], u.take(j as int)));
                }
                if cl {
                    let i = choose|i: int| 0 <= i < l0.len() && (#[trigger] l0[i]).id == id@ && l0[i].duration is None;
                    assert(l0[i] == filled(a.local_folder[i], u.take(j as int)));
                }
                if exists|i: int| 0 <= i < a.local_folder.len() && (#[trigger] filled(a.local_folder[i], u.take(j as int))).id == u[j as int].0 && filled(a.local_folder[i], u.take(j as int)).duration is None {
                    let i = choose|i: int| 0 <= i < a.local_folder.len() && (#[trigger] filled(a.local_folder[i], u.take(j as int))).id == u[j as int].0 && filled(a.local_folder[i], u.take(j as int)).duration is None;
                    assert(l0[i] == filled(a.local_folder[i], u.take(j as int)));
                }
            }
            changed_playlist = changed_playlist || cp;
            changed_local = changed_local || cl;
            j += 1;
        }
        assert(u.take(updates@.len() as int) =~= u);
        let mut r: Vec<Effect> = Vec::new();
        if changed_playlist {
            r.push(Effect::SavePlaylist { report: true });
        }
        if changed_local {
            r.push(Effect::SaveLocalFolder { report: true });
        }
        assert(effects_view(r@) =~= durations_effects(a, u));
        r
    }

    /// Enter in the file prompt: the cleaned-up path typed, if any; the
    /// prompt closes either way.
    pub fn take_open_file_input(&mut self) -> (r: Option<String>)
        ensures
            final(self)@ == (AppView { mode: Mode::Browse, query: Seq::empty(), ..old(self)@ }),
            trim(old(self)@.query).len() == 0 ==> r is None,
            trim(old(self)@.query).len() > 0 ==> r is Some && r->0@ == crate::app::normalized_path(
                trim(old(self)@.query),
            ),
    {
        let q = str_chars(self.query.as_str());
        let raw_v = trim_chars(q.as_slice());
        self.mode = Mode::Browse;
        self.query = String::new();
        if raw_v.len() == 0 {
            return None;
        }
        let raw = string_from_chars(raw_v.as_slice());
        Some(crate::app::normalize_path_input(raw.as_str()))
    }

    /// The typed path matches nothing on disk.
    pub fn open_not_found(&mut self, expanded: &str, log_path: &str)
        ensures
            final(self)@ == (AppView {
                status: "not found: "@ + expanded@ + " -- debug log at "@ + log_path@,
                ..old(self)@
            }),
    {
        let mut st: Vec<char> = Vec::new();
        push_str(&mut st, "not found: ");
        push_str(&mut st, expanded);
        push_str(&mut st, " -- debug log at ");
        push_str(&mut st, log_path);
        self.status = string_from_chars(st.as_slice());
    }

    /// The typed path is neither a file nor a folder.
    pub fn open_not_a_file(&mut self, path: &str)
        ensures
            final(self)@ == (AppView { status: "not a file or folder: "@ + path@, ..old(self)@ }),
    {
        let mut st: Vec<char> = Vec::new();
        push_str(&mut st, "not a file or folder: ");
        push_str(&mut st, path);
        self.status = string_from_chars(st.as_slice());
    }

    /// Plays a file opened from the prompt: it joins the unsaved list (or
    /// its entry there gets the probed duration), the unsaved list becomes
    /// the queue, and the file starts.
    pub fn open_file(&mut self, path: String, title: String, duration: Option<u64>) -> (r: Vec<Effect>)
        ensures
            ({
                let a = old(self)@;
                let t = opened_track(path@, title@, duration);
                let (_, idx, saved) = opened_list(a.playlist, t);
                let a1 = opened_state(a, t);
                &&& final(self)@ == crate::app::play_at_state(a1, idx as usize)
                &&& effects_view(r@) == (if saved {
                    seq![EffectView::SavePlaylist { report: false }]
                } else {
                    Seq::empty()
                }) + crate::app::play_at_effects(a1, idx as usize, false)
            }),
    {
        let ghost a = self@;
        let ghost tv = opened_track(path@, title@, duration);
        let mut effects: Vec<Effect> = Vec::new();
        let idx = match find_id(&self.playlist, path.as_str()) {
            Some(i) => {
                proof {
                    lemma_id_index(a.playlist, path@);
                }
                if self.playlist[i].duration.is_none() && duration.is_some() {
                    let mut t = self.playlist[i].clone();
                    t.duration = duration;
                    let ghost before = self.playlist.deep_view();
                    self.playlist.set(i, t);
                    assert(self.playlist.deep_view() =~= before.update(
                        i as int,
                        TrackView { duration, ..before[i as int] },
                    ));
                    effects.push(Effect::SavePlaylist { report: false });
                }
                i
            },
            None => {
                let track = Track {
                    id: path.clone(),
                    title,
                    uploader: String::new(),
                    duration,
                    source: Some(path),
                    local_depth: None,
                    platform: Some(Platform::Local),
                };
                let ghost before = self.playlist.deep_view();
                self.playlist.push(track);
                assert(self.playlist.deep_view() =~= before.push(tv));
                effects.push(Effect::SavePlaylist { report: false });
                self.playlist.len() - 1
            },
        };
        self.focus = ListFocus::YtPlaylist;
        self.active_library = crate::app::ActiveLibrary::Unsaved;
        self.yt_playlist_selected = idx;
        self.queue = crate::app::vec_clone_tracks(&self.playlist);
        self.queue_source = crate::app::QueueSource::Unsaved;
        assert(self@ == opened_state(a, tv));
        let ghost e0 = effects@;
        let mut more = self.play_at(idx);
        let ghost m0 = more@;
        effects.append(&mut more);
        proof {
            crate::app::lemma_effects_view_add(e0, m0);
        }
        assert(effects_view(e0) =~= (if opened_list(a.playlist, tv).2 {
            seq![EffectView::SavePlaylist { report: false }]
        } else {
            Seq::empty()
        }));
        effects
    }

    /// The local tracks of the unsaved list, the folder list and the last
    /// playlist (in that order) that still miss a duration, each id once:
    /// (id, path to probe).
    pub fn duration_backfill_targets(&self) -> (r: Vec<(String, String)>)
        ensures
            pairs_view(r@) == backfill_targets(
                self@.playlist + self@.local_folder + self@.yt_playlist,
            ),
    {
        let mut out: Vec<(String, String)> = Vec::new();
        assert(pairs_view(out@) =~= backfill_targets(Seq::<TrackView>::empty()));
        collect_targets(&mut out, &self.playlist, Ghost(Seq::empty()));
        assert(Seq::<TrackView>::empty() + self@.playlist =~= self@.playlist);
        collect_targets(&mut out, &self.local_folder, Ghost(self@.playlist));
        collect_targets(&mut out, &self.yt_playlist, Ghost(self@.playlist + self@.local_folder));
        out
    }
}

} // verus!
