//! A stable sort by a key made of a number and a text, the order that
//! `slice::sort_by` gives with `Ord` on such keys (texts compare as
//! strings do: character by character, by code point, which is also the
//! byte order of their UTF-8 encodings).

use vstd::prelude::*;

verus! {

broadcast use vstd::seq_lib::group_seq_properties;

/// A sort key: first a number, then a text.
#[derive(Debug)]
pub struct SortKey {
    pub rank: i64,
    pub text: Vec<char>,
}

pub struct KeyView {
    pub rank: int,
    pub text: Seq<char>,
}

impl View for SortKey {
    type V = KeyView;

    open spec fn view(&self) -> KeyView {
        KeyView { rank: self.rank as int, text: self.text@ }
    }
}

/// `a` comes strictly before `b` in string order.
pub open spec fn lex_lt(a: Seq<char>, b: Seq<char>) -> bool
    decreases a.len(),
{
    if a.len() == 0 {
        b.len() > 0
    } else if b.len() == 0 {
        false
    } else if a[0] < b[0] {
        true
    } else if a[0] > b[0] {
        false
    } else {
        lex_lt(a.skip(1), b.skip(1))
    }
}

/// Key `a` comes strictly before key `b`.
pub open spec fn key_lt(a: KeyView, b: KeyView) -> bool {
    a.rank < b.rank || (a.rank == b.rank && lex_lt(a.text, b.text))
}

/// Where a stable insertion puts an item with key `k`: after every item
/// whose key is not greater.
pub open spec fn ins_pos<V>(s: Seq<(KeyView, V)>, k: KeyView) -> nat
    decreases s.len(),
{
    if s.len() == 0 {
        0
    } else if key_lt(k, s[0].0) {
        0
    } else {
        1 + ins_pos(s.skip(1), k)
    }
}

/// The stably sorted order of `s`: items in key order, items with equal
/// keys in their original order.
pub open spec fn stable_sorted<V>(s: Seq<(KeyView, V)>) -> Seq<(KeyView, V)>
    decreases s.len(),
{
    if s.len() == 0 {
        Seq::empty()
    } else {
        let r = stable_sorted(s.drop_last());
        r.insert(ins_pos(r, s.last().0) as int, s.last())
    }
}

/// `s` is in key order.
pub open spec fn is_key_sorted<V>(s: Seq<(KeyView, V)>) -> bool {
    forall|i: int, j: int| 0 <= i < j < s.len() ==> !key_lt(#[trigger] s[j].0, #[trigger] s[i].0)
}

/// The keys and values of exec pairs, as values.
pub open spec fn pairs_view<T: DeepView>(s: Seq<(SortKey, T)>) -> Seq<(KeyView, T::V)> {
    s.map_values(|p: (SortKey, T)| (p.0@, p.1.deep_view()))
}

proof fn lemma_lex_irreflexive(a: Seq<char>)
    ensures
        !lex_lt(a, a),
    decreases a.len(),
{
    if a.len() > 0 {
        lemma_lex_irreflexive(a.skip(1));
    }
}

proof fn lemma_lex_total(a: Seq<char>, b: Seq<char>)
    ensures
        lex_lt(a, b) || lex_lt(b, a) || a == b,
    decreases a.len(),
{
    if a.len() > 0 && b.len() > 0 && a[0] == b[0] {
        lemma_lex_total(a.skip(1), b.skip(1));
        if a.skip(1) == b.skip(1) {
            assert(a =~= seq![a[0]] + a.skip(1));
            assert(b =~= seq![b[0]] + b.skip(1));
        }
    } else if a.len() == 0 && b.len() == 0 {
        assert(a =~= b);
    }
}

proof fn lemma_lex_trans(a: Seq<char>, b: Seq<char>, c: Seq<char>)
    requires
        lex_lt(a, b),
        lex_lt(b, c),
    ensures
        lex_lt(a, c),
    decreases a.len(),
{
    if a.len() > 0 && b.len() > 0 && c.len() > 0 && a[0] == b[0] && b[0] == c[0] {
        lemma_lex_trans(a.skip(1), b.skip(1), c.skip(1));
    }
}

proof fn lemma_lex_asym(a: Seq<char>, b: Seq<char>)
    requires
        lex_lt(a, b),
    ensures
        !lex_lt(b, a),
    decreases a.len(),
{
    if a.len() > 0 && b.len() > 0 && a[0] == b[0] {
        lemma_lex_asym(a.skip(1), b.skip(1));
    }
}

/// Keys are totally ordered: two keys are equal or one comes first.
pub proof fn lemma_key_total(a: KeyView, b: KeyView)
    ensures
        key_lt(a, b) || key_lt(b, a) || a == b,
        !(key_lt(a, b) && key_lt(b, a)),
        !key_lt(a, a),
{
    lemma_lex_total(a.text, b.text);
    lemma_lex_irreflexive(a.text);
    if lex_lt(a.text, b.text) {
        lemma_lex_asym(a.text, b.text);
    }
}

/// Key order is transitive.
pub proof fn lemma_key_trans(a: KeyView, b: KeyView, c: KeyView)
    requires
        key_lt(a, b),
        key_lt(b, c),
    ensures
        key_lt(a, c),
{
    if a.rank == b.rank && b.rank == c.rank {
        lemma_lex_trans(a.text, b.text, c.text);
    }
}

proof fn lemma_ins_pos_props<V>(s: Seq<(KeyView, V)>, k: KeyView)
    ensures
        ins_pos(s, k) <= s.len(),
        forall|i: int| 0 <= i < ins_pos(s, k) ==> !key_lt(k, #[trigger] s[i].0),
        ins_pos(s, k) < s.len() ==> key_lt(k, s[ins_pos(s, k) as int].0),
    decreases s.len(),
{
    if s.len() > 0 && !key_lt(k, s[0].0) {
        lemma_ins_pos_props(s.skip(1), k);
        assert forall|i: int| 0 <= i < ins_pos(s, k) implies !key_lt(k, #[trigger] s[i].0) by {
            if i > 0 {
                assert(s[i] == s.skip(1)[i - 1]);
            }
        }
    }
}

/// The stably sorted order is in key order and holds exactly the items of
/// `s`.
pub proof fn lemma_stable_sorted_props<V>(s: Seq<(KeyView, V)>)
    ensures
        is_key_sorted(stable_sorted(s)),
        stable_sorted(s).to_multiset() == s.to_multiset(),
        stable_sorted(s).len() == s.len(),
    decreases s.len(),
{
    broadcast use vstd::seq_lib::to_multiset_build, vstd::seq_lib::to_multiset_insert;
    broadcast use vstd::multiset::group_multiset_axioms;

    if s.len() == 0 {
        assert(stable_sorted(s).to_multiset() =~= s.to_multiset());
    } else {
        let t = s.drop_last();
        let x = s.last();
        lemma_stable_sorted_props(t);
        let r = stable_sorted(t);
        let p = ins_pos(r, x.0) as int;
        lemma_ins_pos_props(r, x.0);
        let out = r.insert(p, x);
        assert(out == stable_sorted(s));
        assert forall|i: int, j: int| 0 <= i < j < out.len() implies !key_lt(
            #[trigger] out[j].0,
            #[trigger] out[i].0,
        ) by {
            if j < p {
                assert(out[i] == r[i] && out[j] == r[j]);
            } else if j == p {
                assert(out[i] == r[i]);
                assert(!key_lt(x.0, r[i].0));
            } else if i == p {
                assert(out[j] == r[j - 1]);
                assert(key_lt(x.0, r[p].0));
                if j - 1 > p {
                    assert(!key_lt(r[j - 1].0, r[p].0));
                    lemma_key_total(r[j - 1].0, r[p].0);
                    if key_lt(r[j - 1].0, x.0) {
                        lemma_key_trans(r[j - 1].0, x.0, r[p].0);
                    }
                } else {
                    lemma_key_total(r[p].0, x.0);
                }
            } else if i < p {
                assert(out[i] == r[i] && out[j] == r[j - 1]);
            } else {
                assert(out[i] == r[i - 1] && out[j] == r[j - 1]);
            }
        }
        assert(s =~= t.push(x));
    }
}

/// Whether key `a` comes strictly before key `b`.
pub fn key_less(a: &SortKey, b: &SortKey) -> (r: bool)
    ensures
        r == key_lt(a@, b@),
{
    if a.rank != b.rank {
        return a.rank < b.rank;
    }
    let x = &a.text;
    let y = &b.text;
    let mut i: usize = 0;
    assert(x@.skip(0) =~= x@);
    assert(y@.skip(0) =~= y@);
    while i < x.len() && i < y.len() && x[i] == y[i]
        invariant
            i <= x@.len(),
            i <= y@.len(),
            lex_lt(x@, y@) == lex_lt(x@.skip(i as int), y@.skip(i as int)),
        decreases x@.len() - i,
    {
        assert(x@.skip(i as int).skip(1) =~= x@.skip(i + 1));
        assert(y@.skip(i as int).skip(1) =~= y@.skip(i + 1));
        i += 1;
    }
    if i == x.len() {
        i < y.len()
    } else if i == y.len() {
        false
    } else {
        assert(x@.skip(i as int)[0] == x@[i as int]);
        assert(y@.skip(i as int)[0] == y@[i as int]);
        x[i] < y[i]
    }
}

/// Sorts `items` stably by key.
pub fn sort_by_key<T: DeepView>(items: Vec<(SortKey, T)>) -> (r: Vec<(SortKey, T)>)
    ensures
        pairs_view(r@) == stable_sorted(pairs_view(items@)),
        r@.len() == items@.len(),
{
    let ghost s = items@;
    let mut items = items;
    let total = items.len();
    let mut out: Vec<(SortKey, T)> = Vec::new();
    let mut n: usize = 0;
    while items.len() > 0
        invariant
            n + items@.len() == s.len(),
            s.len() == total,
            items@ == s.skip(n as int),
            pairs_view(out@) == stable_sorted(pairs_view(s.take(n as int))),
            out@.len() == n,
        decreases items@.len(),
    {
        let x = items.remove(0);
        assert(x == s[n as int]);
        assert(items@ =~= s.skip(n + 1));
        let ghost pv = pairs_view(s.take(n + 1));
        assert(pv.drop_last() =~= pairs_view(s.take(n as int)));
        assert(pv.last() == (x.0@, x.1.deep_view()));
        let ghost ov = pairs_view(out@);
        let mut j: usize = 0;
        assert(ov.skip(0) =~= ov);
        while j < out.len() && !key_less(&x.0, &out[j].0)
            invariant
                j <= out@.len(),
                ov == pairs_view(out@),
                ins_pos(ov, x.0@) == j + ins_pos(ov.skip(j as int), x.0@),
            decreases out@.len() - j,
        {
            assert(ov.skip(j as int)[0] == ov[j as int]);
            assert(ov.skip(j as int).skip(1) =~= ov.skip(j + 1));
            j += 1;
        }
        proof {
            if j < out@.len() {
                assert(ov.skip(j as int)[0] == ov[j as int]);
            }
        }
        out.insert(j, x);
        assert(pairs_view(out@) =~= ov.insert(j as int, (x.0@, x.1.deep_view())));
        n += 1;
    }
    assert(s.take(n as int) =~= s);
    out
}

} // verus!
