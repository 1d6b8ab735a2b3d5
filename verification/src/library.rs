//! The library of saved playlists: favorites first, otherwise in the order
//! the entries were added.

use vstd::multiset::Multiset;
use vstd::prelude::*;

use crate::text::str_eq;
use crate::ytdlp::Platform;

verus! {

broadcast use vstd::seq_lib::group_seq_properties;

/// One saved playlist.
#[derive(Debug)]
pub struct PlaylistEntry {
    pub url: String,
    pub title: String,
    pub platform: Platform,
    pub favorite: bool,
    pub track_count: usize,
}

/// The value of a [`PlaylistEntry`].
pub struct EntryView {
    pub url: Seq<char>,
    pub title: Seq<char>,
    pub platform: Platform,
    pub favorite: bool,
    pub track_count: usize,
}

impl View for PlaylistEntry {
    type V = EntryView;

    open spec fn view(&self) -> EntryView {
        EntryView {
            url: self.url@,
            title: self.title@,
            platform: self.platform,
            favorite: self.favorite,
            track_count: self.track_count,
        }
    }
}

impl DeepView for PlaylistEntry {
    type V = EntryView;

    open spec fn deep_view(&self) -> EntryView {
        self@
    }
}

impl Clone for PlaylistEntry {
    fn clone(&self) -> (r: Self)
        ensures
            r@ == self@,
    {
        PlaylistEntry {
            url: self.url.clone(),
            title: self.title.clone(),
            platform: self.platform,
            favorite: self.favorite,
            track_count: self.track_count,
        }
    }
}

/// All saved playlists.
#[derive(Debug)]
pub struct PlaylistLibrary {
    pub entries: Vec<PlaylistEntry>,
}

impl View for PlaylistLibrary {
    type V = Seq<EntryView>;

    open spec fn view(&self) -> Seq<EntryView> {
        self.entries.deep_view()
    }
}

/// The favorite entries of `s`, in their order in `s`.
pub open spec fn favorites(s: Seq<EntryView>) -> Seq<EntryView>
    decreases s.len(),
{
    if s.len() == 0 {
        Seq::empty()
    } else if s.last().favorite {
        favorites(s.drop_last()).push(s.last())
    } else {
        favorites(s.drop_last())
    }
}

/// The other entries of `s`, in their order in `s`.
pub open spec fn others(s: Seq<EntryView>) -> Seq<EntryView>
    decreases s.len(),
{
    if s.len() == 0 {
        Seq::empty()
    } else if !s.last().favorite {
        others(s.drop_last()).push(s.last())
    } else {
        others(s.drop_last())
    }
}

/// The library order: a stable sort with favorites first.
pub open spec fn favorites_first(s: Seq<EntryView>) -> Seq<EntryView> {
    favorites(s) + others(s)
}

/// No entry that is not a favorite comes before a favorite.
pub open spec fn is_favorites_first(s: Seq<EntryView>) -> bool {
    forall|i: int, j: int| 0 <= i < j < s.len() && #[trigger] s[j].favorite ==> #[trigger] s[i].favorite
}

/// `i` is the first index of an entry with this url.
pub open spec fn is_first_url(s: Seq<EntryView>, url: Seq<char>, i: int) -> bool {
    &&& 0 <= i < s.len()
    &&& s[i].url == url
    &&& forall|j: int| 0 <= j < i ==> #[trigger] s[j].url != url
}

/// What `position` answers for `url`.
pub open spec fn position_spec(s: Seq<EntryView>, url: Seq<char>, r: Option<usize>) -> bool {
    match r {
        Some(i) => is_first_url(s, url, i as int),
        None => forall|j: int| 0 <= j < s.len() ==> #[trigger] s[j].url != url,
    }
}

/// The entry `upsert` refreshes in place.
pub open spec fn refreshed(e: EntryView, title: Seq<char>, platform: Platform, track_count: usize) -> EntryView {
    EntryView {
        url: e.url,
        title: if title.len() > 0 {
            title
        } else {
            e.title
        },
        platform,
        favorite: e.favorite,
        track_count,
    }
}

/// The entry list `upsert` sorts: the first entry with `url` refreshed, or
/// a new non-favorite entry appended.
pub open spec fn upserted(
    s: Seq<EntryView>,
    url: Seq<char>,
    title: Seq<char>,
    platform: Platform,
    track_count: usize,
) -> Seq<EntryView> {
    if exists|i: int| is_first_url(s, url, i) {
        let i = choose|i: int| is_first_url(s, url, i);
        s.update(i, refreshed(s[i], title, platform, track_count))
    } else {
        s.push(EntryView { url, title, platform, favorite: false, track_count })
    }
}

/// The entry list `toggle_favorite` sorts.
pub open spec fn toggled(s: Seq<EntryView>, idx: int) -> Seq<EntryView> {
    if 0 <= idx < s.len() {
        s.update(idx, EntryView { favorite: !s[idx].favorite, ..s[idx] })
    } else {
        s
    }
}

/// An entry list has at most one first entry with a given URL, so the
/// entry that `upsert` refreshes is well defined.
pub proof fn lemma_first_url_unique(s: Seq<EntryView>, url: Seq<char>, i: int, j: int)
    requires
        is_first_url(s, url, i),
        is_first_url(s, url, j),
    ensures
        i == j,
{
    if i < j {
        assert(s[i].url != url);
    } else if j < i {
        assert(s[j].url != url);
    }
}

proof fn lemma_parts_len(s: Seq<EntryView>)
    ensures
        favorites(s).len() + others(s).len() == s.len(),
    decreases s.len(),
{
    if s.len() > 0 {
        lemma_parts_len(s.drop_last());
    }
}

proof fn lemma_favorites_all_fav(s: Seq<EntryView>)
    ensures
        forall|k: int| 0 <= k < favorites(s).len() ==> (#[trigger] favorites(s)[k]).favorite,
        forall|k: int| 0 <= k < others(s).len() ==> !(#[trigger] others(s)[k]).favorite,
    decreases s.len(),
{
    if s.len() > 0 {
        lemma_favorites_all_fav(s.drop_last());
    }
}

/// Every entry of `s` with a given property is in one of the two parts.
proof fn lemma_parts_contain(s: Seq<EntryView>, k: int)
    requires
        0 <= k < s.len(),
    ensures
        s[k].favorite ==> favorites(s).contains(s[k]),
        !s[k].favorite ==> others(s).contains(s[k]),
    decreases s.len(),
{
    if k < s.len() - 1 {
        lemma_parts_contain(s.drop_last(), k);
        assert(s.drop_last()[k] == s[k]);
    }
}

proof fn lemma_parts_multiset(s: Seq<EntryView>)
    ensures
        favorites(s).to_multiset().add(others(s).to_multiset()) =~= s.to_multiset(),
    decreases s.len(),
{
    broadcast use vstd::multiset::group_multiset_axioms;
    broadcast use vstd::seq_lib::to_multiset_build;

    if s.len() == 0 {
        assert(favorites(s).to_multiset() =~= Multiset::empty());
        assert(others(s).to_multiset() =~= Multiset::empty());
        assert(s.to_multiset() =~= Multiset::empty());
    } else {
        lemma_parts_multiset(s.drop_last());
        assert(s =~= s.drop_last().push(s.last()));
    }
}

/// The library order keeps every entry: it is a rearrangement of `s`
/// with the same number of each entry.
pub proof fn lemma_favorites_first_permutes(s: Seq<EntryView>)
    ensures
        favorites_first(s).to_multiset() == s.to_multiset(),
        favorites_first(s).len() == s.len(),
{
    broadcast use vstd::seq_lib::lemma_multiset_commutative;

    lemma_parts_multiset(s);
    lemma_parts_len(s);
}

/// In the library order every favorite comes before every other entry.
pub proof fn lemma_favorites_first_sorted(s: Seq<EntryView>)
    ensures
        is_favorites_first(favorites_first(s)),
{
    lemma_favorites_all_fav(s);
    let r = favorites_first(s);
    let f = favorites(s);
    assert forall|i: int, j: int| 0 <= i < j < r.len() && #[trigger] r[j].favorite implies #[trigger] r[i].favorite by {
        if j >= f.len() {
            assert(r[j] == others(s)[j - f.len()]);
        } else {
            assert(r[i] == f[i]);
        }
    }
}

proof fn lemma_favorites_of_sorted(s: Seq<EntryView>)
    requires
        is_favorites_first(s),
    ensures
        favorites_first(s) == s,
    decreases s.len(),
{
    if s.len() == 0 {
        assert(favorites_first(s) =~= s);
    } else {
        let t = s.drop_last();
        assert(s =~= t.push(s.last()));
        assert(is_favorites_first(t)) by {
            assert forall|i: int, j: int| 0 <= i < j < t.len() && #[trigger] t[j].favorite implies #[trigger] t[i].favorite by {
                assert(s[j].favorite);
            }
        }
        lemma_favorites_of_sorted(t);
        lemma_favorites_all_fav(t);
        if s.last().favorite {
            assert(others(t).len() == 0) by {
                if others(t).len() > 0 {
                    lemma_parts_len(t);
                    let k = favorites(t).len() as int;
                    assert(t[k] == others(t)[0]);
                    assert(s[k] == t[k]);
                    assert(s[s.len() - 1].favorite);
                }
            }
            assert(favorites(t) =~= favorites_first(t));
            assert(favorites_first(s) =~= t.push(s.last()));
        } else {
            assert(favorites_first(s) =~= (favorites(t) + others(t)).push(s.last()));
        }
    }
}

/// Sorting a library that is already in library order changes nothing.
pub proof fn lemma_favorites_first_idempotent(s: Seq<EntryView>)
    ensures
        favorites_first(favorites_first(s)) == favorites_first(s),
{
    lemma_favorites_first_sorted(s);
    lemma_favorites_of_sorted(favorites_first(s));
}

/// Removing an entry from a library in library order keeps it in order.
pub proof fn lemma_remove_keeps_order(s: Seq<EntryView>, idx: int)
    requires
        is_favorites_first(s),
        0 <= idx < s.len(),
    ensures
        is_favorites_first(s.remove(idx)),
{
    let t = s.remove(idx);
    assert forall|i: int, j: int| 0 <= i < j < t.len() && #[trigger] t[j].favorite implies #[trigger] t[i].favorite by {
        let si = if i < idx { i } else { i + 1 };
        let sj = if j < idx { j } else { j + 1 };
        assert(t[i] == s[si]);
        assert(t[j] == s[sj]);
    }
}

impl PlaylistLibrary {
    pub fn new() -> (r: PlaylistLibrary)
        ensures
            r@ == Seq::<EntryView>::empty(),
    {
        PlaylistLibrary { entries: Vec::new() }
    }

    /// Index of the first entry with this url.
    pub fn position(&self, url: &str) -> (r: Option<usize>)
        ensures
            position_spec(self@, url@, r),
    {
        let mut i: usize = 0;
        while i < self.entries.len()
            invariant
                i <= self@.len(),
                self@.len() == self.entries@.len(),
                forall|j: int| 0 <= j < i ==> #[trigger] self@[j].url != url@,
            decreases self@.len() - i,
        {
            if str_eq(self.entries[i].url.as_str(), url) {
                return Some(i);
            }
            i += 1;
        }
        None
    }

    /// Stable sort: favorites first, otherwise keep insertion order.
    fn sort(&mut self)
        ensures
            final(self)@ == favorites_first(old(self)@),
    {
        let ghost s = old(self)@;
        let mut favs: Vec<PlaylistEntry> = Vec::new();
        let mut rest: Vec<PlaylistEntry> = Vec::new();
        let mut i: usize = 0;
        while i < self.entries.len()
            invariant
                self@ == s,
                i <= s.len(),
                self.entries@.len() == s.len(),
                favs.deep_view() == favorites(s.take(i as int)),
                rest.deep_view() == others(s.take(i as int)),
            decreases s.len() - i,
        {
            let e = self.entries[i].clone();
            assert(s.take(i + 1).drop_last() =~= s.take(i as int));
            assert(s.take(i + 1).last() == s[i as int]);
            if e.favorite {
                let ghost before = favs.deep_view();
                favs.push(e);
                assert(favs.deep_view() =~= before.push(s[i as int]));
            } else {
                let ghost before = rest.deep_view();
                rest.push(e);
                assert(rest.deep_view() =~= before.push(s[i as int]));
            }
            i += 1;
        }
        assert(s.take(s.len() as int) =~= s);
        let ghost fv = favs.deep_view();
        let ghost rv = rest.deep_view();
        favs.append(&mut rest);
        assert(favs.deep_view() =~= fv + rv);
        self.entries = favs;
    }

    /// Inserts an entry, or refreshes the first one with this url (its
    /// track count, its platform, and its title when `title` is not empty),
    /// then re-sorts. Returns the index of the touched row after the sort.
    pub fn upsert(&mut self, url: &str, title: &str, platform: Platform, track_count: usize) -> (r:
        usize)
        ensures
            final(self)@ == favorites_first(upserted(old(self)@, url@, title@, platform, track_count)),
            is_first_url(final(self)@, url@, r as int),
    {
        let ghost s = self@;
        let ghost u = upserted(s, url@, title@, platform, track_count);
        match self.position(url) {
            Some(i) => {
                proof {
                    let c = choose|k: int| is_first_url(s, url@, k);
                    lemma_first_url_unique(s, url@, c, i as int);
                }
                self.entries[i].track_count = track_count;
                if !title.is_empty() {
                    self.entries[i].title = crate::text::str_to_string(title);
                }
                self.entries[i].platform = platform;
                assert(self@ =~= u);
                proof {
                    assert(u[i as int].url == url@);
                }
            },
            None => {
                let e = PlaylistEntry {
                    url: crate::text::str_to_string(url),
                    title: crate::text::str_to_string(title),
                    platform,
                    favorite: false,
                    track_count,
                };
                self.entries.push(e);
                assert(self@ =~= u);
                assert(u[u.len() - 1].url == url@);
            },
        }
        proof {
            assert(exists|k: int| 0 <= k < u.len() && u[k].url == url@);
        }
        let ghost k = choose|k: int| 0 <= k < u.len() && u[k].url == url@;
        self.sort();
        proof {
            lemma_parts_contain(u, k);
            assert(self@.contains(u[k]));
        }
        match self.position(url) {
            Some(j) => j,
            None => {
                proof {
                    let m = choose|m: int| 0 <= m < self@.len() && self@[m] == u[k];
                    assert(self@[m].url == url@);
                }
                0
            },
        }
    }

    /// Flips the favorite mark of entry `idx` (if there is one), then re-sorts.
    pub fn toggle_favorite(&mut self, idx: usize)
        ensures
            final(self)@ == favorites_first(toggled(old(self)@, idx as int)),
    {
        let ghost s = self@;
        if idx < self.entries.len() {
            let f = self.entries[idx].favorite;
            self.entries[idx].favorite = !f;
        }
        assert(self@ =~= toggled(s, idx as int));
        self.sort();
    }

    /// Takes entry `idx` out of the library, if there is one.
    pub fn remove(&mut self, idx: usize) -> (r: Option<PlaylistEntry>)
        ensures
            idx < old(self)@.len() ==> r is Some && r->0@ == old(self)@[idx as int],
            idx < old(self)@.len() ==> final(self)@ == old(self)@.remove(idx as int),
            idx >= old(self)@.len() ==> r is None && final(self)@ == old(self)@,
    {
        if idx < self.entries.len() {
            let ghost s = self@;
            let e = self.entries.remove(idx);
            assert(self@ =~= s.remove(idx as int));
            Some(e)
        } else {
            None
        }
    }
}

} // verus!
