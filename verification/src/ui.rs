//! Text helpers of the terminal interface: durations, the volume face,
//! display-cell widths, the scrolling title banner and progress-bar
//! trails. Drawing itself belongs to the program.

use vstd::prelude::*;

use crate::text::{dec, dec2, push_dec, push_dec2, push_str, str_chars, string_from_chars};
use crate::ytdlp::{Track, TrackView};

verus! {

/// `h`h `mm`m for an hour or more, else `m:ss`; nothing for zero.
pub open spec fn total_duration_text(total: u64) -> Option<Seq<char>> {
    if total == 0 {
        None
    } else {
        let h = total / 3600;
        let m = (total % 3600) / 60;
        let s = total % 60;
        if h > 0 {
            Some(dec(h as nat) + "h "@ + dec2(m as nat) + "m"@)
        } else {
            Some(dec(m as nat) + seq![':'] + dec2(s as nat))
        }
    }
}

/// Human-readable total; `None` for zero so callers can render `--`.
pub fn fmt_total_duration(total: u64) -> (r: Option<String>)
    ensures
        match (r, total_duration_text(total)) {
            (Some(a), Some(b)) => a@ == b,
            (None, None) => true,
            _ => false,
        },
{
    if total == 0 {
        return None;
    }
    let h = total / 3600;
    let m = (total % 3600) / 60;
    let s = total % 60;
    let mut out: Vec<char> = Vec::new();
    if h > 0 {
        push_dec(&mut out, h);
        push_str(&mut out, "h ");
        push_dec2(&mut out, m);
        push_str(&mut out, "m");
    } else {
        push_dec(&mut out, m);
        out.push(':');
        push_dec2(&mut out, s);
    }
    Some(string_from_chars(out.as_slice()))
}

/// Clock text for a whole number of seconds: `h:mm:ss` from an hour on,
/// else `m:ss`.
pub open spec fn clock_text(s: u64) -> Seq<char> {
    let h = s / 3600;
    let m = (s % 3600) / 60;
    let sec = s % 60;
    if h > 0 {
        dec(h as nat) + seq![':'] + dec2(m as nat) + seq![':'] + dec2(sec as nat)
    } else {
        dec(m as nat) + seq![':'] + dec2(sec as nat)
    }
}

/// Clock text for a playback position already cut to whole seconds.
pub fn fmt_secs(s: u64) -> (r: String)
    ensures
        r@ == clock_text(s),
{
    let h = s / 3600;
    let m = (s % 3600) / 60;
    let sec = s % 60;
    let mut out: Vec<char> = Vec::new();
    if h > 0 {
        push_dec(&mut out, h);
        out.push(':');
        push_dec2(&mut out, m);
        out.push(':');
        push_dec2(&mut out, sec);
    } else {
        push_dec(&mut out, m);
        out.push(':');
        push_dec2(&mut out, sec);
    }
    string_from_chars(out.as_slice())
}

/// The volume face: the mouth opens wider and more sound waves show as the
/// volume rises.
pub open spec fn volume_face_of(v: u8) -> Seq<char> {
    if v == 0 {
        "(˘_˘) zZz"@
    } else if v <= 20 {
        "(•‿•) ♪"@
    } else if v <= 40 {
        "(•ω•) ♪♬"@
    } else if v <= 60 {
        "(•o•)) ♬♪"@
    } else if v <= 80 {
        "(•O•))) ♪♬♪"@
    } else {
        "(•◯•)))) ♬♪♫♬"@
    }
}

pub fn volume_face(v: u8) -> (r: &'static str)
    ensures
        r@ == volume_face_of(v),
{
    if v == 0 {
        "(˘_˘) zZz"
    } else if v <= 20 {
        "(•‿•) ♪"
    } else if v <= 40 {
        "(•ω•) ♪♬"
    } else if v <= 60 {
        "(•o•)) ♬♪"
    } else if v <= 80 {
        "(•O•))) ♪♬♪"
    } else {
        "(•◯•)))) ♬♪♫♬"
    }
}

/// Control characters (Unicode general category Cc), as `char::is_control`
/// tests.
pub open spec fn is_control(c: char) -> bool {
    (c as u32) <= 0x1F || (0x7F <= (c as u32) <= 0x9F)
}

/// Display cells of one character: none for control characters, two for
/// CJK and full-width forms, one otherwise.
pub open spec fn cells(c: char) -> nat {
    let u = c as u32;
    if is_control(c) {
        0
    } else if (0x1100 <= u <= 0x115F) || (0x2E80 <= u <= 0x303E) || (0x3041 <= u <= 0x33FF) || (
    0x3400 <= u <= 0x4DBF) || (0x4E00 <= u <= 0x9FFF) || (0xA000 <= u <= 0xA4CF) || (0xAC00 <= u
        <= 0xD7A3) || (0xF900 <= u <= 0xFAFF) || (0xFE30 <= u <= 0xFE4F) || (0xFF00 <= u <= 0xFF60)
        || (0xFFE0 <= u <= 0xFFE6) {
        2
    } else {
        1
    }
}

pub fn char_cells(c: char) -> (r: usize)
    ensures
        r == cells(c),
{
    let u = c as u32;
    if u <= 0x1F || (0x7F <= u && u <= 0x9F) {
        return 0;
    }
    let wide = (0x1100 <= u && u <= 0x115F) || (0x2E80 <= u && u <= 0x303E) || (0x3041 <= u && u
        <= 0x33FF) || (0x3400 <= u && u <= 0x4DBF) || (0x4E00 <= u && u <= 0x9FFF) || (0xA000 <= u
        && u <= 0xA4CF) || (0xAC00 <= u && u <= 0xD7A3) || (0xF900 <= u && u <= 0xFAFF) || (0xFE30
        <= u && u <= 0xFE4F) || (0xFF00 <= u && u <= 0xFF60) || (0xFFE0 <= u && u <= 0xFFE6);
    if wide {
        2
    } else {
        1
    }
}

/// Display width of a text: the sum of its characters' cells.
pub open spec fn width(s: Seq<char>) -> nat
    decreases s.len(),
{
    if s.len() == 0 {
        0
    } else {
        width(s.drop_last()) + cells(s.last())
    }
}

proof fn lemma_width_bound(s: Seq<char>)
    ensures
        width(s) <= 2 * s.len(),
    decreases s.len(),
{
    if s.len() > 0 {
        lemma_width_bound(s.drop_last());
    }
}

fn chars_width(v: &[char]) -> (r: usize)
    requires
        2 * v@.len() <= usize::MAX,
    ensures
        r == width(v@),
{
    let mut w: usize = 0;
    let mut i: usize = 0;
    while i < v.len()
        invariant
            i <= v@.len(),
            2 * v@.len() <= usize::MAX,
            w == width(v@.take(i as int)),
        decreases v@.len() - i,
    {
        proof {
            lemma_width_bound(v@.take(i as int));
            assert(v@.take(i + 1).drop_last() =~= v@.take(i as int));
        }
        w = w + char_cells(v[i]);
        i += 1;
    }
    assert(v@.take(v@.len() as int) =~= v@);
    w
}

/// Display width of `s` in terminal cells.
pub fn cell_width(s: &str) -> (r: usize)
    requires
        2 * s@.len() <= usize::MAX,
    ensures
        r == width(s@),
{
    let v = str_chars(s);
    chars_width(v.as_slice())
}

/// `n` spaces.
pub open spec fn spaces(n: nat) -> Seq<char> {
    Seq::new(n, |i: int| ' ')
}

/// The visible window of the scrolling banner: characters of the cycle
/// from `off + i` on, while they fit in `max` cells; a character that would
/// overflow is replaced by one space, and the rest is padded with spaces.
pub open spec fn banner(comb: Seq<char>, off: nat, i: nat, used: nat, max: nat) -> Seq<char>
    decreases 2 * comb.len() - i,
{
    if used >= max || i >= 2 * comb.len() || comb.len() == 0 {
        spaces((max - used) as nat)
    } else {
        let c = comb[((off + i) % comb.len()) as int];
        if used + cells(c) > max {
            seq![' '] + spaces((max - used - 1) as nat)
        } else {
            seq![c] + banner(comb, off, i + 1, used + cells(c), max)
        }
    }
}

/// A title fitted to `max` cells: padded with spaces when it fits,
/// otherwise a window onto the title followed by `   •   `, starting one
/// character further every 300 ms of `now_ms`.
pub open spec fn marquee_text(title: Seq<char>, max: nat, now_ms: u64) -> Seq<char> {
    if max == 0 {
        Seq::empty()
    } else if width(title) <= max {
        title + spaces((max - width(title)) as nat)
    } else {
        let comb = title + "   •   "@;
        let off = (((now_ms / 300) as usize) as nat) % comb.len();
        banner(comb, off, 0, 0, max)
    }
}

/// Pads a short title to `max_cells`, or scrolls it like a banner when it
/// is wider than the row; `now_ms` is the wall clock in milliseconds.
pub fn marquee(title: &str, max_cells: usize, now_ms: u64) -> (r: String)
    requires
        2 * title@.len() + 14 <= usize::MAX,
    ensures
        r@ == marquee_text(title@, max_cells as nat, now_ms),
{
    if max_cells == 0 {
        return String::new();
    }
    let chars = str_chars(title);
    let title_w = chars_width(chars.as_slice());
    if title_w <= max_cells {
        let mut s = chars;
        let mut k: usize = 0;
        let pad = max_cells - title_w;
        while k < pad
            invariant
                k <= pad,
                s@ =~= title@ + spaces(k as nat),
            decreases pad - k,
        {
            s.push(' ');
            k += 1;
        }
        return string_from_chars(s.as_slice());
    }
    let mut combined = chars;
    push_str(&mut combined, "   •   ");
    proof {
        reveal_strlit("   •   ");
    }
    let cycle_len = combined.len();
    let offset = (#[verifier::truncate] ((now_ms / 300) as usize)) % cycle_len;
    let mut out: Vec<char> = Vec::new();
    let mut used: usize = 0;
    let mut i: usize = 0;
    let ghost comb = combined@;
    assert(marquee_text(title@, max_cells as nat, now_ms) == banner(comb, offset as nat, 0, 0, max_cells as nat));
    let mut j = offset;
    assert(offset as int % (cycle_len as int) == offset) by (nonlinear_arith)
        requires
            offset < cycle_len,
    ;
    while used < max_cells && i < cycle_len * 2
        invariant
            j < cycle_len,
            j == (offset + i) % (cycle_len as int),
            comb == combined@,
            marquee_text(title@, max_cells as nat, now_ms) == banner(comb, offset as nat, 0, 0, max_cells as nat),
            cycle_len == comb.len() > 0,
            cycle_len * 2 <= usize::MAX,
            offset < cycle_len,
            used <= max_cells,
            i <= 2 * cycle_len,
            banner(comb, offset as nat, 0, 0, max_cells as nat) == out@ + banner(
                comb,
                offset as nat,
                i as nat,
                used as nat,
                max_cells as nat,
            ),
        decreases 2 * cycle_len - i,
    {
        let c = combined[j];
        let w = char_cells(c);
        if w > max_cells - used {
            let ghost ob = out@;
            let ghost u0 = used;
            assert(banner(comb, offset as nat, i as nat, used as nat, max_cells as nat) == seq![' ']
                + spaces((max_cells - used - 1) as nat));
            out.push(' ');
            used += 1;
            let mut k = used;
            let ghost base = out@;
            while k < max_cells
                invariant
                    used <= k <= max_cells,
                    out@ =~= base + spaces((k - used) as nat),
                decreases max_cells - k,
            {
                out.push(' ');
                k += 1;
            }
            assert(out@ =~= base + spaces((max_cells - used) as nat));
            assert(out@ =~= ob + (seq![' '] + spaces((max_cells - u0 - 1) as nat)));
            return string_from_chars(out.as_slice());
        }
        let ghost before = out@;
        out.push(c);
        assert(before + (seq![c] + banner(comb, offset as nat, (i + 1) as nat, (used + w) as nat, max_cells as nat))
            =~= out@ + banner(comb, offset as nat, (i + 1) as nat, (used + w) as nat, max_cells as nat));
        proof {
            assert((offset + i + 1) % (cycle_len as int) == if j + 1 == cycle_len { 0 } else { j + 1 }) by (nonlinear_arith)
                requires
                    j == (offset + i) % (cycle_len as int),
                    cycle_len > 0,
                    j < cycle_len,
            ;
        }
        j = if j + 1 == cycle_len {
            0
        } else {
            j + 1
        };
        used += w;
        i += 1;
    }
    let ghost base = out@;
    let mut k = used;
    while k < max_cells
        invariant
            used <= k <= max_cells,
            out@ =~= base + spaces((k - used) as nat),
        decreases max_cells - k,
    {
        out.push(' ');
        k += 1;
    }
    string_from_chars(out.as_slice())
}

/// `pattern` repeated over `width` cells so that its last character sits
/// at the right end (spaces for an empty pattern).
pub open spec fn fill_left_text(p: Seq<char>, width: nat) -> Seq<char> {
    if width == 0 {
        Seq::empty()
    } else if p.len() == 0 {
        spaces(width)
    } else {
        let start = (p.len() - width % p.len()) % (p.len() as int);
        Seq::new(width, |i: int| p[(start + i) % (p.len() as int)])
    }
}

/// `pattern` repeated over `width` cells from its first character (spaces
/// for an empty pattern).
pub open spec fn fill_right_text(p: Seq<char>, width: nat) -> Seq<char> {
    if width == 0 {
        Seq::empty()
    } else if p.len() == 0 {
        spaces(width)
    } else {
        Seq::new(width, |i: int| p[i % (p.len() as int)])
    }
}

fn repeat_from(p: &[char], start: usize, width: usize) -> (r: Vec<char>)
    requires
        p@.len() > 0,
        start < p@.len(),
    ensures
        r@ == Seq::new(width as nat, |i: int| p@[(start + i) % (p@.len() as int)]),
{
    let plen = p.len();
    let mut out: Vec<char> = Vec::new();
    let mut j = start;
    let mut i: usize = 0;
    assert(start as int % (plen as int) == start) by (nonlinear_arith)
        requires
            start < plen,
    ;
    while i < width
        invariant
            plen == p@.len() > 0,
            start < plen,
            i <= width,
            j < plen,
            j == (start + i) % (plen as int),
            out@ =~= Seq::new(i as nat, |k: int| p@[(start + k) % (plen as int)]),
        decreases width - i,
    {
        out.push(p[j]);
        proof {
            assert((start + i + 1) % (plen as int) == if j + 1 == plen { 0 } else { j + 1 }) by (nonlinear_arith)
                requires
                    j == (start + i) % (plen as int),
                    plen > 0,
                    j < plen,
            ;
        }
        j = if j + 1 == plen {
            0
        } else {
            j + 1
        };
        i += 1;
    }
    out
}

fn spaces_vec(n: usize) -> (r: Vec<char>)
    ensures
        r@ == spaces(n as nat),
{
    let mut out: Vec<char> = Vec::new();
    let mut i: usize = 0;
    while i < n
        invariant
            i <= n,
            out@ =~= spaces(i as nat),
        decreases n - i,
    {
        out.push(' ');
        i += 1;
    }
    out
}

/// Repeats `pattern` so that its last character sits flush against the
/// cursor; for example "abc" over 5 cells gives "bcabc".
pub fn fill_left(pattern: &str, width: usize) -> (r: String)
    ensures
        r@ == fill_left_text(pattern@, width as nat),
{
    if width == 0 {
        return String::new();
    }
    let p = str_chars(pattern);
    if p.len() == 0 {
        let s = spaces_vec(width);
        return string_from_chars(s.as_slice());
    }
    let plen = p.len();
    let start = (plen - width % plen) % plen;
    let out = repeat_from(p.as_slice(), start, width);
    string_from_chars(out.as_slice())
}

/// Repeats `pattern` so that its first character sits flush against the
/// cursor.
pub fn fill_right(pattern: &str, width: usize) -> (r: String)
    ensures
        r@ == fill_right_text(pattern@, width as nat),
{
    if width == 0 {
        return String::new();
    }
    let p = str_chars(pattern);
    if p.len() == 0 {
        let s = spaces_vec(width);
        return string_from_chars(s.as_slice());
    }
    let out = repeat_from(p.as_slice(), 0, width);
    assert(out@ =~= fill_right_text(pattern@, width as nat));
    string_from_chars(out.as_slice())
}

/// Sum of the known durations of a list of tracks.
pub open spec fn known_total(ts: Seq<TrackView>) -> nat
    decreases ts.len(),
{
    if ts.len() == 0 {
        0
    } else {
        known_total(ts.drop_last()) + match ts.last().duration {
            Some(d) => d as nat,
            None => 0,
        }
    }
}

/// The values of a slice of tracks.
pub open spec fn track_views(ts: Seq<Track>) -> Seq<TrackView> {
    ts.map_values(|t: Track| t@)
}

proof fn lemma_known_total_mono(ts: Seq<TrackView>, i: int)
    requires
        0 <= i <= ts.len(),
    ensures
        known_total(ts.take(i)) <= known_total(ts),
    decreases ts.len(),
{
    if i < ts.len() {
        lemma_known_total_mono(ts.drop_last(), i);
        assert(ts.drop_last().take(i) =~= ts.take(i));
    } else {
        assert(ts.take(i) =~= ts);
    }
}

/// The total playing time of the tracks whose duration is known.
pub fn total_duration(tracks: &[Track]) -> (r: u64)
    requires
        known_total(track_views(tracks@)) <= u64::MAX,
    ensures
        r == known_total(track_views(tracks@)),
{
    let ghost tv = track_views(tracks@);
    let mut total: u64 = 0;
    let mut i: usize = 0;
    while i < tracks.len()
        invariant
            i <= tracks@.len(),
            tv == track_views(tracks@),
            known_total(tv) <= u64::MAX,
            total == known_total(tv.take(i as int)),
        decreases tracks@.len() - i,
    {
        proof {
            assert(tv.take(i + 1).drop_last() =~= tv.take(i as int));
            lemma_known_total_mono(tv, i + 1);
        }
        if let Some(d) = tracks[i].duration {
            total = total + d;
        }
        i += 1;
    }
    assert(tv.take(tracks@.len() as int) =~= tv);
    total
}

} // verus!
