//! WebVTT caption files: their lines, cue timings and cue texts. Times
//! are kept as the decimal fields written in the file; turning them into
//! seconds is floating-point work left to the program.

use vstd::prelude::*;

use crate::captions::untagged;
use crate::text::{push_chars, str_chars, trim, trim_chars};

verus! {

broadcast use vstd::seq_lib::group_seq_properties;

// ---------------------------------------------------------------------
// Lines
// ---------------------------------------------------------------------

/// Index of the first `c` in `s`, or its length.
pub open spec fn index_of_char(s: Seq<char>, c: char) -> nat
    decreases s.len(),
{
    if s.len() == 0 {
        0
    } else if s[0] == c {
        0
    } else {
        1 + index_of_char(s.drop_first(), c)
    }
}

proof fn lemma_index_of_char(s: Seq<char>, c: char)
    ensures
        index_of_char(s, c) <= s.len(),
        index_of_char(s, c) < s.len() ==> s[index_of_char(s, c) as int] == c,
        forall|j: int| 0 <= j < index_of_char(s, c) ==> #[trigger] s[j] != c,
    decreases s.len(),
{
    if s.len() > 0 && s[0] != c {
        lemma_index_of_char(s.drop_first(), c);
        assert forall|j: int| 0 <= j < index_of_char(s, c) implies #[trigger] s[j] != c by {
            if j > 0 {
                assert(s[j] == s.drop_first()[j - 1]);
            }
        }
    }
}

/// Index of the first `c` in `s` from `from` on, or the length of `s`.
fn find_char(s: &[char], from: usize, c: char) -> (r: usize)
    requires
        from <= s@.len(),
    ensures
        from <= r <= s@.len(),
        r == from + index_of_char(s@.skip(from as int), c),
        r < s@.len() ==> s@[r as int] == c,
        forall|j: int| from <= j < r ==> #[trigger] s@[j] != c,
{
    let ghost t = s@.skip(from as int);
    proof {
        lemma_index_of_char(t, c);
    }
    let mut i = from;
    while i < s.len()
        invariant
            from <= i <= s@.len(),
            t == s@.skip(from as int),
            index_of_char(t, c) <= t.len(),
            index_of_char(t, c) < t.len() ==> t[index_of_char(t, c) as int] == c,
            forall|j: int| 0 <= j < index_of_char(t, c) ==> #[trigger] t[j] != c,
            forall|j: int| from <= j < i ==> #[trigger] s@[j] != c,
        decreases s@.len() - i,
    {
        if s[i] == c {
            proof {
                let k = index_of_char(t, c);
                if k < i - from {
                    assert(t[k as int] == s@[from + k]);
                }
                if k > i - from {
                    assert(t[i - from] == s@[i as int]);
                }
            }
            return i;
        }
        i += 1;
    }
    proof {
        let k = index_of_char(t, c);
        if k < i - from {
            assert(t[k as int] == s@[from + k]);
        }
    }
    i
}

/// A line without the `\r` of a `\r\n` ending.
pub open spec fn strip_cr(l: Seq<char>) -> Seq<char> {
    if l.len() > 0 && l.last() == '\r' {
        l.drop_last()
    } else {
        l
    }
}

/// The lines of a text as `str::lines` splits it: at each `\n`, with a
/// `\r` before it dropped, and no empty last line after a final `\n` (a
/// `\r` ending the text without a `\n` stays).
#[verifier::opaque]
pub open spec fn lines_of(s: Seq<char>) -> Seq<Seq<char>>
    decreases s.len(),
{
    if s.len() == 0 {
        Seq::empty()
    } else {
        let k = index_of_char(s, '\n');
        if k < s.len() {
            seq![strip_cr(s.take(k as int))] + lines_of(s.skip(k as int + 1))
        } else {
            seq![s]
        }
    }
}

fn strip_cr_range(s: &[char], lo: usize, hi: usize) -> (r: Vec<char>)
    requires
        lo <= hi <= s@.len(),
    ensures
        r@ == strip_cr(s@.subrange(lo as int, hi as int)),
{
    let end = if hi > lo && s[hi - 1] == '\r' {
        hi - 1
    } else {
        hi
    };
    let r = crate::text::copy_range(s, lo, end);
    assert(r@ =~= strip_cr(s@.subrange(lo as int, hi as int)));
    r
}

proof fn lemma_lines_step(s: Seq<char>, pos: int, k: int)
    requires
        0 <= pos < s.len(),
        k == pos + index_of_char(s.skip(pos), '\n'),
    ensures
        pos <= k <= s.len(),
        lines_of(s.skip(pos)) == if k < s.len() {
            seq![strip_cr(s.subrange(pos, k))] + lines_of(s.skip(k + 1))
        } else {
            seq![s.subrange(pos, k)]
        },
{
    let t = s.skip(pos);
    reveal(lines_of);
    lemma_index_of_char(t, '\n');
    assert(t.take(k - pos) =~= s.subrange(pos, k));
    if k < s.len() {
        assert(t.skip(k - pos + 1) =~= s.skip(k + 1));
    } else {
        assert(t.take(k - pos) =~= t);
    }
}

/// The lines of a text, as `lines_of` says.
pub fn split_lines(s: &[char]) -> (r: Vec<Vec<char>>)
    ensures
        r@.len() == lines_of(s@).len(),
        forall|i: int| 0 <= i < r@.len() ==> #[trigger] r@[i]@ == lines_of(s@)[i],
{
    let mut out: Vec<Vec<char>> = Vec::new();
    let ghost mut done: Seq<Seq<char>> = Seq::empty();
    let mut pos: usize = 0;
    assert(s@.skip(0) =~= s@);
    while pos < s.len()
        invariant
            pos <= s@.len(),
            out@.len() == done.len(),
            forall|i: int| 0 <= i < out@.len() ==> #[trigger] out@[i]@ == done[i],
            done + lines_of(s@.skip(pos as int)) == lines_of(s@),
        decreases s@.len() - pos,
    {
        let k = find_char(s, pos, '\n');
        proof {
            lemma_lines_step(s@, pos as int, k as int);
        }
        let line = if k < s.len() {
            strip_cr_range(s, pos, k)
        } else {
            crate::text::copy_range(s, pos, k)
        };
        let ghost d0 = done;
        let ghost p0 = pos;
        proof {
            done = done.push(line@);
        }
        out.push(line);
        if k < s.len() {
            pos = k + 1;
            proof {
                assert(done + lines_of(s@.skip(pos as int)) =~= d0 + lines_of(s@.skip(p0 as int)));
            }
        } else {
            pos = s.len();
            proof {
                assert(s@.skip(pos as int) =~= Seq::<char>::empty());
                reveal(lines_of);
                assert(lines_of(s@.skip(pos as int)) =~= Seq::<Seq<char>>::empty());
                assert(done + lines_of(s@.skip(pos as int)) =~= d0 + lines_of(s@.skip(p0 as int)));
            }
        }
    }
    proof {
        assert(s@.skip(pos as int) =~= Seq::<char>::empty());
        reveal(lines_of);
        assert(done + lines_of(s@.skip(pos as int)) =~= done);
    }
    out
}

// ---------------------------------------------------------------------
// Numbers
// ---------------------------------------------------------------------

pub open spec fn is_digit(c: char) -> bool {
    '0' <= c <= '9'
}

pub open spec fn all_digits(s: Seq<char>) -> bool {
    forall|i: int| 0 <= i < s.len() ==> is_digit(#[trigger] s[i])
}

/// The mantissa of a decimal number: digits with at most one `.`, and at
/// least one digit.
pub open spec fn mantissa_text(m: Seq<char>) -> bool {
    let d = index_of_char(m, '.');
    if d < m.len() {
        let int_part = m.take(d as int);
        let frac = m.skip(d as int + 1);
        all_digits(int_part) && all_digits(frac) && (int_part.len() > 0 || frac.len() > 0)
    } else {
        all_digits(m) && m.len() > 0
    }
}

/// An exponent after the `e`: a sign, then one digit or more.
pub open spec fn exponent_text(x: Seq<char>) -> bool {
    let ds = if x.len() > 0 && (x[0] == '+' || x[0] == '-') {
        x.drop_first()
    } else {
        x
    };
    ds.len() > 0 && all_digits(ds)
}

/// A decimal number with an optional exponent (`e` in either case).
pub open spec fn number_text(b: Seq<char>) -> bool {
    let e = if index_of_char(b, 'e') <= index_of_char(b, 'E') {
        index_of_char(b, 'e')
    } else {
        index_of_char(b, 'E')
    };
    if e < b.len() {
        mantissa_text(b.take(e as int)) && exponent_text(b.skip(e as int + 1))
    } else {
        mantissa_text(b)
    }
}

/// The strings `str::parse::<f64>` accepts, by the grammar its
/// documentation gives: an optional sign, then `inf`, `infinity` or `nan`
/// in any case, or a decimal number.
pub open spec fn float_text(s: Seq<char>) -> bool {
    let b = if s.len() > 0 && (s[0] == '+' || s[0] == '-') {
        s.drop_first()
    } else {
        s
    };
    crate::text::eq_ignore_ascii_case(b, "inf"@) || crate::text::eq_ignore_ascii_case(b, "infinity"@)
        || crate::text::eq_ignore_ascii_case(b, "nan"@) || number_text(b)
}

fn digits_in(s: &[char], lo: usize, hi: usize) -> (r: bool)
    requires
        lo <= hi <= s@.len(),
    ensures
        r == all_digits(s@.subrange(lo as int, hi as int)),
{
    let mut i = lo;
    while i < hi
        invariant
            lo <= i <= hi <= s@.len(),
            forall|j: int| lo <= j < i ==> is_digit(#[trigger] s@[j]),
        decreases hi - i,
    {
        if !('0' <= s[i] && s[i] <= '9') {
            assert(!is_digit(s@.subrange(lo as int, hi as int)[i - lo]));
            return false;
        }
        i += 1;
    }
    assert forall|j: int| 0 <= j < hi - lo implies is_digit(#[trigger] s@.subrange(lo as int, hi as int)[j]) by {
        assert(s@.subrange(lo as int, hi as int)[j] == s@[lo + j]);
    }
    true
}

fn is_mantissa(m: &[char]) -> (r: bool)
    ensures
        r == mantissa_text(m@),
{
    let d = find_char(m, 0, '.');
    assert(m@.skip(0) =~= m@);
    proof {
        lemma_index_of_char(m@, '.');
    }
    if d < m.len() {
        assert(m@.take(d as int) =~= m@.subrange(0, d as int));
        assert(m@.skip(d + 1) =~= m@.subrange(d + 1, m@.len() as int));
        digits_in(m, 0, d) && digits_in(m, d + 1, m.len()) && (d > 0 || m.len() - (d + 1) > 0)
    } else {
        assert(m@ =~= m@.subrange(0, m@.len() as int));
        digits_in(m, 0, m.len()) && m.len() > 0
    }
}

fn is_exponent(x: &[char]) -> (r: bool)
    ensures
        r == exponent_text(x@),
{
    let start: usize = if x.len() > 0 && (x[0] == '+' || x[0] == '-') {
        1
    } else {
        0
    };
    assert(start == 1 ==> x@.drop_first() =~= x@.subrange(1, x@.len() as int));
    assert(start == 0 ==> x@ =~= x@.subrange(0, x@.len() as int));
    x.len() > start && digits_in(x, start, x.len())
}

fn lower_eq(b: &[char], word: &str) -> (r: bool)
    ensures
        r == crate::text::eq_ignore_ascii_case(b@, word@),
{
    let w = str_chars(word);
    crate::text::chars_eq_ignore_ascii_case(b, w.as_slice())
}

/// Whether `str::parse::<f64>` accepts `s`, as `float_text` says.
pub fn is_float_text(s: &[char]) -> (r: bool)
    ensures
        r == float_text(s@),
{
    let b: Vec<char> = if s.len() > 0 && (s[0] == '+' || s[0] == '-') {
        let v = crate::text::copy_range(s, 1, s.len());
        assert(v@ =~= s@.drop_first());
        v
    } else {
        let v = crate::text::copy_range(s, 0, s.len());
        assert(v@ =~= s@);
        v
    };
    if lower_eq(b.as_slice(), "inf") || lower_eq(b.as_slice(), "infinity") || lower_eq(b.as_slice(), "nan") {
        return true;
    }
    let e1 = find_char(b.as_slice(), 0, 'e');
    let e2 = find_char(b.as_slice(), 0, 'E');
    assert(b@.skip(0) =~= b@);
    let e = if e1 <= e2 {
        e1
    } else {
        e2
    };
    proof {
        lemma_index_of_char(b@, 'e');
        lemma_index_of_char(b@, 'E');
    }
    if e < b.len() {
        let m = crate::text::copy_range(b.as_slice(), 0, e);
        let x = crate::text::copy_range(b.as_slice(), e + 1, b.len());
        assert(m@ =~= b@.take(e as int));
        assert(x@ =~= b@.skip(e + 1));
        is_mantissa(m.as_slice()) && is_exponent(x.as_slice())
    } else {
        is_mantissa(b.as_slice())
    }
}

// ---------------------------------------------------------------------
// Timestamps
// ---------------------------------------------------------------------

/// The fields of a cue time `[[hours:]minutes:]seconds[.fraction]`, each a
/// number as written; fields before the hours are ignored.
#[derive(Debug)]
pub struct Timestamp {
    pub hours: Option<String>,
    pub minutes: Option<String>,
    pub seconds: String,
    pub fraction: Option<String>,
}

pub struct TimestampView {
    pub hours: Option<Seq<char>>,
    pub minutes: Option<Seq<char>>,
    pub seconds: Seq<char>,
    pub fraction: Option<Seq<char>>,
}

impl View for Timestamp {
    type V = TimestampView;

    open spec fn view(&self) -> TimestampView {
        TimestampView {
            hours: crate::ytdlp::opt_view(self.hours),
            minutes: crate::ytdlp::opt_view(self.minutes),
            seconds: self.seconds@,
            fraction: crate::ytdlp::opt_view(self.fraction),
        }
    }
}

/// The pieces of `s` between its `:`s, as `str::split(':')` gives them.
pub open spec fn colon_fields(s: Seq<char>) -> Seq<Seq<char>>
    decreases s.len(),
{
    let k = index_of_char(s, ':');
    if k < s.len() {
        seq![s.take(k as int)] + colon_fields(s.skip(k as int + 1))
    } else {
        seq![s]
    }
}

/// A cue time, when every field it uses is a number `str::parse::<f64>`
/// accepts.
pub open spec fn timestamp_of(s: Seq<char>) -> Option<TimestampView> {
    let f = colon_fields(s);
    let n = f.len();
    let last = f[n - 1];
    let d = index_of_char(last, '.');
    let (secs, frac) = if d < last.len() {
        (last.take(d as int), Some(last.skip(d as int + 1)))
    } else {
        (last, None)
    };
    let mins = if n >= 2 {
        Some(f[n - 2])
    } else {
        None
    };
    let hours = if n >= 3 {
        Some(f[n - 3])
    } else {
        None
    };
    if float_text(secs) && (frac matches Some(x) ==> float_text(x)) && (mins matches Some(x)
        ==> float_text(x)) && (hours matches Some(x) ==> float_text(x)) {
        Some(TimestampView { hours, minutes: mins, seconds: secs, fraction: frac })
    } else {
        None
    }
}

proof fn lemma_colon_fields_len(s: Seq<char>)
    ensures
        colon_fields(s).len() >= 1,
    decreases s.len(),
{
    let k = index_of_char(s, ':');
    lemma_index_of_char(s, ':');
    if k < s.len() {
        lemma_colon_fields_len(s.skip(k as int + 1));
    }
}

/// The fields of `s` between its `:`s, as `colon_fields` says.
fn split_colons(s: &[char]) -> (r: Vec<Vec<char>>)
    ensures
        r@.len() == colon_fields(s@).len(),
        forall|i: int| 0 <= i < r@.len() ==> #[trigger] r@[i]@ == colon_fields(s@)[i],
{
    let mut out: Vec<Vec<char>> = Vec::new();
    let ghost mut done: Seq<Seq<char>> = Seq::empty();
    let mut pos: usize = 0;
    loop
        invariant
            pos <= s@.len(),
            out@.len() == done.len(),
            forall|i: int| 0 <= i < out@.len() ==> #[trigger] out@[i]@ == done[i],
            done + colon_fields(s@.skip(pos as int)) == colon_fields(s@),
        decreases s@.len() - pos,
    {
        let k = find_char(s, pos, ':');
        let ghost t = s@.skip(pos as int);
        let field = crate::text::copy_range(s, pos, k);
        assert(field@ =~= t.take(k - pos));
        proof {
            lemma_index_of_char(t, ':');
            done = done.push(field@);
        }
        out.push(field);
        if k < s.len() {
            proof {
                assert(t.skip(k - pos + 1) =~= s@.skip(k + 1));
                assert(done.drop_last() + seq![done.last()] =~= done);
            }
            pos = k + 1;
        } else {
            proof {
                assert(t.take(k - pos) =~= t);
                assert(done.drop_last() + seq![done.last()] =~= done);
                assert(done =~= colon_fields(s@));
            }
            return out;
        }
    }
}

fn opt_string(v: Option<Vec<char>>) -> (r: Option<String>)
    ensures
        match (r, v) {
            (Some(a), Some(b)) => a@ == b@,
            (None, None) => true,
            _ => false,
        },
{
    match v {
        Some(x) => Some(crate::text::string_from_chars(x.as_slice())),
        None => None,
    }
}

/// A cue time, as `timestamp_of` says.
pub fn parse_ts(s: &[char]) -> (r: Option<Timestamp>)
    ensures
        match (r, timestamp_of(s@)) {
            (Some(a), Some(b)) => a@ == b,
            (None, None) => true,
            _ => false,
        },
{
    proof {
        lemma_colon_fields_len(s@);
    }
    let fields = split_colons(s);
    let n = fields.len();
    let last = &fields[n - 1];
    let d = find_char(last.as_slice(), 0, '.');
    assert(last@.skip(0) =~= last@);
    let (secs, frac) = if d < last.len() {
        let a = crate::text::copy_range(last.as_slice(), 0, d);
        let b = crate::text::copy_range(last.as_slice(), d + 1, last.len());
        assert(a@ =~= last@.take(d as int));
        assert(b@ =~= last@.skip(d + 1));
        (a, Some(b))
    } else {
        (crate::text::copy_range(last.as_slice(), 0, last.len()), None)
    };
    assert(d >= last@.len() ==> secs@ =~= last@);
    if !is_float_text(secs.as_slice()) {
        return None;
    }
    if let Some(b) = &frac {
        if !is_float_text(b.as_slice()) {
            return None;
        }
    }
    let mins: Option<Vec<char>> = if n >= 2 {
        Some(crate::text::copy_range(fields[n - 2].as_slice(), 0, fields[n - 2].len()))
    } else {
        None
    };
    if let Some(m) = &mins {
        assert(m@ =~= fields@[n - 2]@);
        if !is_float_text(m.as_slice()) {
            return None;
        }
    }
    let hours: Option<Vec<char>> = if n >= 3 {
        Some(crate::text::copy_range(fields[n - 3].as_slice(), 0, fields[n - 3].len()))
    } else {
        None
    };
    if let Some(h) = &hours {
        assert(h@ =~= fields@[n - 3]@);
        if !is_float_text(h.as_slice()) {
            return None;
        }
    }
    let r = Timestamp {
        hours: opt_string(hours),
        minutes: opt_string(mins),
        seconds: crate::text::string_from_chars(secs.as_slice()),
        fraction: opt_string(frac),
    };
    Some(r)
}

// ---------------------------------------------------------------------
// Cues
// ---------------------------------------------------------------------

/// A `-->` starts at index `i` of `s`.
pub open spec fn arrow_at(s: Seq<char>, i: int) -> bool {
    0 <= i && i + 3 <= s.len() && s[i] == '-' && s[i + 1] == '-' && s[i + 2] == '>'
}

/// The first `-->` of `s` at or after `i`.
pub open spec fn find_arrow(s: Seq<char>, i: int) -> Option<int>
    decreases s.len() - i,
{
    if i < 0 || i + 3 > s.len() {
        None
    } else if arrow_at(s, i) {
        Some(i)
    } else {
        find_arrow(s, i + 1)
    }
}

/// The start and end times of a cue timing line `start --> end
/// [settings]`.
pub open spec fn timing_of(line: Seq<char>) -> Option<(TimestampView, TimestampView)> {
    match find_arrow(line, 0) {
        None => None,
        Some(a) => {
            let lhs = trim(line.take(a));
            let rhs_raw = trim(line.skip(a + 3));
            if rhs_raw.len() == 0 {
                None
            } else {
                let rhs = rhs_raw.take(crate::app::ws_index(rhs_raw) as int);
                match (timestamp_of(lhs), timestamp_of(rhs)) {
                    (Some(x), Some(y)) => Some((x, y)),
                    _ => None,
                }
            }
        }
    }
}

proof fn lemma_find_arrow(s: Seq<char>, i: int)
    ensures
        find_arrow(s, i) matches Some(a) ==> i <= a && arrow_at(s, a),
    decreases s.len() - i,
{
    if i >= 0 && i + 3 <= s.len() && !arrow_at(s, i) {
        lemma_find_arrow(s, i + 1);
    }
}

fn arrow_from(s: &[char], from: usize) -> (r: Option<usize>)
    ensures
        match (r, find_arrow(s@, from as int)) {
            (Some(a), Some(b)) => a == b,
            (None, None) => true,
            _ => false,
        },
    decreases s@.len() - from,
{
    if from > s.len() || s.len() - from < 3 {
        return None;
    }
    if s[from] == '-' && s[from + 1] == '-' && s[from + 2] == '>' {
        return Some(from);
    }
    arrow_from(s, from + 1)
}

/// The times of a cue timing line, as `timing_of` says.
pub fn parse_timing(line: &[char]) -> (r: Option<(Timestamp, Timestamp)>)
    ensures
        match (r, timing_of(line@)) {
            (Some(a), Some(b)) => a.0@ == b.0 && a.1@ == b.1,
            (None, None) => true,
            _ => false,
        },
{
    let a = match arrow_from(line, 0) {
        Some(a) => a,
        None => return None,
    };
    proof {
        lemma_find_arrow(line@, 0);
    }
    let head = crate::text::copy_range(line, 0, a);
    assert(head@ =~= line@.take(a as int));
    let lhs = trim_chars(head.as_slice());
    let n = line.len();
    assert(a + 3 <= n);
    let tail = crate::text::copy_range(line, a + 3, n);
    assert(tail@ =~= line@.skip(a + 3));
    let rhs_raw = trim_chars(tail.as_slice());
    if rhs_raw.len() == 0 {
        return None;
    }
    let k = crate::app::first_ws(rhs_raw.as_slice());
    proof {
        crate::app::lemma_ws_index_bound(rhs_raw@);
    }
    let rhs = crate::text::copy_range(rhs_raw.as_slice(), 0, k);
    assert(rhs@ =~= rhs_raw@.take(k as int));
    let s = match parse_ts(lhs.as_slice()) {
        Some(s) => s,
        None => return None,
    };
    let e = match parse_ts(rhs.as_slice()) {
        Some(e) => e,
        None => return None,
    };
    Some((s, e))
}

/// A line without any `\r` at its end.
pub open spec fn trim_cr(l: Seq<char>) -> Seq<char>
    decreases l.len(),
{
    if l.len() > 0 && l.last() == '\r' {
        trim_cr(l.drop_last())
    } else {
        l
    }
}

fn trim_cr_vec(l: &Vec<char>) -> (r: Vec<char>)
    ensures
        r@ == trim_cr(l@),
{
    let mut end = l.len();
    while end > 0 && l[end - 1] == '\r'
        invariant
            end <= l@.len(),
            trim_cr(l@.take(end as int)) == trim_cr(l@),
        decreases end,
    {
        assert(l@.take(end as int).drop_last() =~= l@.take(end - 1));
        end -= 1;
    }
    let r = crate::text::copy_range(l.as_slice(), 0, end);
    assert(r@ =~= l@.take(end as int));
    r
}

/// Texts joined with single spaces.
pub open spec fn joined(ts: Seq<Seq<char>>) -> Seq<char>
    decreases ts.len(),
{
    if ts.len() == 0 {
        Seq::empty()
    } else if ts.len() == 1 {
        ts[0]
    } else {
        joined(ts.drop_last()) + " "@ + ts.last()
    }
}

/// The first line at or after `i` that is empty once its `\r`s are gone,
/// or the number of lines.
pub open spec fn block_end(ls: Seq<Seq<char>>, i: int) -> int
    decreases ls.len() - i,
{
    if i < 0 || i >= ls.len() {
        ls.len() as int
    } else if trim_cr(ls[i]).len() == 0 {
        i
    } else {
        block_end(ls, i + 1)
    }
}

/// A cue's text block runs from `i` up to the first blank line (or the end):
/// every line before that end has text, and the end line, if any, is blank.
pub proof fn lemma_block_end(ls: Seq<Seq<char>>, i: int)
    requires
        0 <= i,
    ensures
        i <= ls.len() ==> i <= block_end(ls, i) <= ls.len(),
        i > ls.len() ==> block_end(ls, i) == ls.len(),
        block_end(ls, i) < ls.len() ==> trim_cr(ls[block_end(ls, i)]).len() == 0,
        forall|k: int| i <= k < block_end(ls, i) ==> trim_cr(#[trigger] ls[k]).len() > 0,
    decreases ls.len() - i,
{
    if i < ls.len() && trim_cr(ls[i]).len() != 0 {
        lemma_block_end(ls, i + 1);
    }
}

/// The text of the cue whose lines are `ls[i..j]`: each without its tags,
/// joined with spaces, trimmed.
pub open spec fn cue_text(ls: Seq<Seq<char>>, i: int, j: int) -> Seq<char> {
    trim(joined(Seq::new((j - i) as nat, |k: int| untagged(trim_cr(ls[i + k]), false))))
}

/// A cue: when it shows, and its text.
#[derive(Debug)]
pub struct Cue {
    pub start: Timestamp,
    pub end: Timestamp,
    pub text: String,
}

pub struct CueView {
    pub start: TimestampView,
    pub end: TimestampView,
    pub text: Seq<char>,
}

impl View for Cue {
    type V = CueView;

    open spec fn view(&self) -> CueView {
        CueView { start: self.start@, end: self.end@, text: self.text@ }
    }
}

/// The cues of the lines from `i` on: each timing line starts a cue whose
/// text runs to the next empty line; cues without text are dropped.
pub open spec fn cues_from(ls: Seq<Seq<char>>, i: int) -> Seq<CueView>
    decreases ls.len() - i,
{
    if i < 0 || i >= ls.len() {
        Seq::empty()
    } else {
        match timing_of(trim_cr(ls[i])) {
            None => cues_from(ls, i + 1),
            Some((s, e)) => {
                let j = block_end(ls, i + 1);
                proof {
                    lemma_block_end(ls, i + 1);
                }
                let text = cue_text(ls, i + 1, j);
                let head = if text.len() > 0 {
                    seq![CueView { start: s, end: e, text }]
                } else {
                    Seq::empty()
                };
                if j < ls.len() {
                    head + cues_from(ls, j + 1)
                } else {
                    head
                }
            },
        }
    }
}

/// The cues of a WebVTT file.
pub open spec fn vtt_cues(raw: Seq<char>) -> Seq<CueView> {
    cues_from(lines_of(raw), 0)
}

pub open spec fn cues_view(v: Seq<Cue>) -> Seq<CueView> {
    Seq::new(v.len(), |i: int| v[i]@)
}

/// Reads a cue's text lines from line `from` to the next empty line: the
/// text, and the line after the block.
fn cue_block(lines: &Vec<Vec<char>>, from: usize, Ghost(ls): Ghost<Seq<Seq<char>>>) -> (r: (Vec<char>, usize))
    requires
        from <= lines@.len(),
        ls.len() == lines@.len(),
        forall|i: int| 0 <= i < lines@.len() ==> #[trigger] lines@[i]@ == ls[i],
    ensures
        r.0@ == cue_text(ls, from as int, block_end(ls, from as int)),
        r.1 == if block_end(ls, from as int) < ls.len() {
            block_end(ls, from as int) + 1
        } else {
            ls.len() as int
        },
{
    proof {
        lemma_block_end(ls, from as int);
    }
    let ghost j = block_end(ls, from as int);
    let mut text: Vec<char> = Vec::new();
    let mut i = from;
    let ghost parts = |n: int| Seq::new(n as nat, |k: int| untagged(trim_cr(ls[from + k]), false));
    while i < lines.len()
        invariant
            from <= i <= lines@.len(),
            i <= j,
            j == block_end(ls, from as int),
            from <= j <= ls.len(),
            j < ls.len() ==> trim_cr(ls[j]).len() == 0,
            forall|k: int| from <= k < j ==> trim_cr(#[trigger] ls[k]).len() > 0,
            ls.len() == lines@.len(),
            forall|k: int| 0 <= k < lines@.len() ==> #[trigger] lines@[k]@ == ls[k],
            text@ == joined(Seq::new((i - from) as nat, |k: int| untagged(trim_cr(ls[from + k]), false))),
        decreases lines@.len() - i,
    {
        let next = trim_cr_vec(&lines[i]);
        if next.len() == 0 {
            assert(i as int == j);
            let t = trim_chars(text.as_slice());
            return (t, i + 1);
        }
        let stripped = crate::captions::strip_tag_chars(next.as_slice());
        let ghost prev = Seq::new((i - from) as nat, |k: int| untagged(trim_cr(ls[from + k]), false));
        let ghost now = Seq::new((i + 1 - from) as nat, |k: int| untagged(trim_cr(ls[from + k]), false));
        assert(now.drop_last() =~= prev);
        assert(next@ == trim_cr(ls[i as int]));
        assert(now.last() == stripped@);
        let ghost t0 = text@;
        if i > from {
            text.push(' ');
        }
        push_chars(&mut text, stripped.as_slice());
        proof {
            if i == from {
                assert(joined(prev) =~= Seq::<char>::empty());
                assert(now.len() == 1);
                assert(text@ =~= joined(now));
            } else {
                assert(joined(now) == joined(now.drop_last()) + " "@ + now.last());
                reveal_strlit(" ");
                assert(text@ =~= t0 + " "@ + stripped@);
            }
        }
        i += 1;
    }
    assert(i as int == j);
    let t = trim_chars(text.as_slice());
    (t, i)
}

/// The cues of a WebVTT file, as `vtt_cues` says.
pub fn parse_vtt(raw: &str) -> (r: Vec<Cue>)
    ensures
        cues_view(r@) == vtt_cues(raw@),
{
    let chars = str_chars(raw);
    let lines = split_lines(chars.as_slice());
    let ghost ls = lines_of(raw@);
    let mut out: Vec<Cue> = Vec::new();
    let mut i: usize = 0;
    while i < lines.len()
        invariant
            i <= lines@.len(),
            ls.len() == lines@.len(),
            forall|k: int| 0 <= k < lines@.len() ==> #[trigger] lines@[k]@ == ls[k],
            cues_view(out@) + cues_from(ls, i as int) == cues_from(ls, 0),
        decreases lines@.len() - i,
    {
        let ghost i0 = i as int;
        let ghost before = cues_view(out@);
        let line = trim_cr_vec(&lines[i]);
        i += 1;
        match parse_timing(line.as_slice()) {
            None => {
                assert(cues_from(ls, i0) == cues_from(ls, i0 + 1));
            },
            Some((s, e)) => {
                let (text, next) = cue_block(&lines, i, Ghost(ls));
                proof {
                    lemma_block_end(ls, i as int);
                }
                if text.len() > 0 {
                    let c = Cue { start: s, end: e, text: crate::text::string_from_chars(text.as_slice()) };
                    let ghost cv = c@;
                    out.push(c);
                    assert(cues_view(out@) =~= before.push(cv));
                }
                i = next;
                proof {
                    if block_end(ls, i0 + 1) >= ls.len() {
                        assert(cues_from(ls, i as int) =~= Seq::<CueView>::empty());
                    }
                }
            },
        }
    }
    assert(cues_from(ls, i as int) =~= Seq::<CueView>::empty());
    out
}

} // verus!
