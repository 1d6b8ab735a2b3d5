//! Progress-bar cursors ("sprites") and the registry that lists them.
//! Reading sprite files is the program's job; how they merge, in which
//! order they are listed and how the settings menu steps through them is
//! decided here.

use vstd::prelude::*;

use crate::sort::{pairs_view, sort_by_key, stable_sorted, KeyView, SortKey};
use crate::text::{ascii_lower, str_chars, str_eq, str_to_string, string_from_chars, to_ascii_lower};

verus! {

/// When the cursor's frame advances.
#[derive(Debug, Clone, Copy, PartialEq, Eq, Structural)]
pub enum AnimateOn {
    /// On a fixed 250 ms timer.
    Tick,
    /// Only when the cursor moves to a new cell of the bar.
    Move,
}

/// The terminal colours a sprite can be drawn in.
#[derive(Debug, Clone, Copy, PartialEq, Eq, Structural)]
pub enum Accent {
    Black,
    Red,
    Green,
    Yellow,
    Blue,
    Magenta,
    Cyan,
    White,
    DarkGray,
    LightRed,
    LightGreen,
    LightYellow,
    LightBlue,
    LightMagenta,
    LightCyan,
    Reset,
}

/// A progress-bar cursor of one or more frames; `trail_left` repeats
/// behind it and `trail_right` ahead of it.
#[derive(Debug)]
pub struct Sprite {
    pub id: String,
    pub name: String,
    pub frames: Vec<String>,
    pub trail_left: String,
    pub trail_right: String,
    pub accent: Accent,
    pub order: i32,
    pub animate_on: AnimateOn,
}

pub struct SpriteView {
    pub id: Seq<char>,
    pub name: Seq<char>,
    pub frames: Seq<Seq<char>>,
    pub trail_left: Seq<char>,
    pub trail_right: Seq<char>,
    pub accent: Accent,
    pub order: i32,
    pub animate_on: AnimateOn,
}

pub open spec fn strings_view(v: Seq<String>) -> Seq<Seq<char>> {
    Seq::new(v.len(), |i: int| v[i]@)
}

impl View for Sprite {
    type V = SpriteView;

    open spec fn view(&self) -> SpriteView {
        SpriteView {
            id: self.id@,
            name: self.name@,
            frames: strings_view(self.frames@),
            trail_left: self.trail_left@,
            trail_right: self.trail_right@,
            accent: self.accent,
            order: self.order,
            animate_on: self.animate_on,
        }
    }
}

impl DeepView for Sprite {
    type V = SpriteView;

    open spec fn deep_view(&self) -> SpriteView {
        self@
    }
}

fn clone_strings(v: &Vec<String>) -> (r: Vec<String>)
    ensures
        strings_view(r@) == strings_view(v@),
{
    let mut out: Vec<String> = Vec::new();
    let mut i: usize = 0;
    while i < v.len()
        invariant
            i <= v@.len(),
            strings_view(out@) =~= strings_view(v@).take(i as int),
        decreases v@.len() - i,
    {
        let x = v[i].clone();
        assert(x@ == v@[i as int]@);
        let ghost before = out@;
        out.push(x);
        assert(strings_view(out@) =~= strings_view(before).push(x@));
        i += 1;
    }
    assert(strings_view(v@).take(v@.len() as int) =~= strings_view(v@));
    out
}

impl Clone for Sprite {
    fn clone(&self) -> (r: Self)
        ensures
            r@ == self@,
    {
        Sprite {
            id: self.id.clone(),
            name: self.name.clone(),
            frames: clone_strings(&self.frames),
            trail_left: self.trail_left.clone(),
            trail_right: self.trail_right.clone(),
            accent: self.accent,
            order: self.order,
            animate_on: self.animate_on,
        }
    }
}

/// The frame shown at step `idx`: frames repeat; no frames show nothing.
pub open spec fn frame_at(s: SpriteView, idx: usize) -> Seq<char> {
    if s.frames.len() == 0 {
        Seq::empty()
    } else {
        s.frames[(idx as int) % (s.frames.len() as int)]
    }
}

impl Sprite {
    pub fn frame(&self, idx: usize) -> (r: &str)
        ensures
            r@ == frame_at(self@, idx),
    {
        if self.frames.len() == 0 {
            proof {
                reveal_strlit("");
            }
            ""
        } else {
            self.frames[idx % self.frames.len()].as_str()
        }
    }

    /// Number of frames, at least one.
    pub fn frame_count(&self) -> (r: usize)
        ensures
            r == if self.frames@.len() == 0 {
                1
            } else {
                self.frames@.len()
            },
    {
        if self.frames.len() == 0 {
            1
        } else {
            self.frames.len()
        }
    }
}

/// A sprite definition as read from a file.
#[derive(Debug)]
pub struct SpriteFile {
    pub name: Option<String>,
    pub frames: Vec<String>,
    pub trail_left: String,
    pub trail_right: String,
    pub accent: String,
    pub order: i32,
    pub animate_on: Option<String>,
}

/// The order of a definition that does not give one.
pub fn default_order() -> (r: i32)
    ensures
        r == 1000,
{
    1000
}

/// A colour name, compared without regard to ASCII case.
pub open spec fn accent_named(s: Seq<char>) -> Accent {
    let n = s.map_values(|c: char| ascii_lower(c));
    if n == "black"@ {
        Accent::Black
    } else if n == "red"@ {
        Accent::Red
    } else if n == "green"@ {
        Accent::Green
    } else if n == "yellow"@ {
        Accent::Yellow
    } else if n == "blue"@ {
        Accent::Blue
    } else if n == "magenta"@ {
        Accent::Magenta
    } else if n == "cyan"@ {
        Accent::Cyan
    } else if n == "white"@ {
        Accent::White
    } else if n == "gray"@ || n == "grey"@ || n == "darkgray"@ || n == "dark_gray"@ || n
        == "darkgrey"@ {
        Accent::DarkGray
    } else if n == "lightred"@ || n == "light_red"@ {
        Accent::LightRed
    } else if n == "lightgreen"@ || n == "light_green"@ {
        Accent::LightGreen
    } else if n == "lightyellow"@ || n == "light_yellow"@ {
        Accent::LightYellow
    } else if n == "lightblue"@ || n == "light_blue"@ {
        Accent::LightBlue
    } else if n == "lightmagenta"@ || n == "light_magenta"@ {
        Accent::LightMagenta
    } else if n == "lightcyan"@ || n == "light_cyan"@ {
        Accent::LightCyan
    } else {
        Accent::Reset
    }
}

pub fn color_from_str(s: &str) -> (r: Accent)
    ensures
        r == accent_named(s@),
{
    let v = str_chars(s);
    let mut low: Vec<char> = Vec::new();
    let mut i: usize = 0;
    while i < v.len()
        invariant
            i <= v@.len(),
            v@ == s@,
            low@ =~= s@.map_values(|c: char| ascii_lower(c)).take(i as int),
        decreases v@.len() - i,
    {
        low.push(to_ascii_lower(v[i]));
        i += 1;
    }
    assert(low@ =~= s@.map_values(|c: char| ascii_lower(c)));
    let ls = string_from_chars(low.as_slice());
    let n = ls.as_str();
    if str_eq(n, "black") {
        Accent::Black
    } else if str_eq(n, "red") {
        Accent::Red
    } else if str_eq(n, "green") {
        Accent::Green
    } else if str_eq(n, "yellow") {
        Accent::Yellow
    } else if str_eq(n, "blue") {
        Accent::Blue
    } else if str_eq(n, "magenta") {
        Accent::Magenta
    } else if str_eq(n, "cyan") {
        Accent::Cyan
    } else if str_eq(n, "white") {
        Accent::White
    } else if str_eq(n, "gray") || str_eq(n, "grey") || str_eq(n, "darkgray") || str_eq(n, "dark_gray")
        || str_eq(n, "darkgrey") {
        Accent::DarkGray
    } else if str_eq(n, "lightred") || str_eq(n, "light_red") {
        Accent::LightRed
    } else if str_eq(n, "lightgreen") || str_eq(n, "light_green") {
        Accent::LightGreen
    } else if str_eq(n, "lightyellow") || str_eq(n, "light_yellow") {
        Accent::LightYellow
    } else if str_eq(n, "lightblue") || str_eq(n, "light_blue") {
        Accent::LightBlue
    } else if str_eq(n, "lightmagenta") || str_eq(n, "light_magenta") {
        Accent::LightMagenta
    } else if str_eq(n, "lightcyan") || str_eq(n, "light_cyan") {
        Accent::LightCyan
    } else {
        Accent::Reset
    }
}

/// The sprite a definition with this id describes: the name defaults to
/// the id, `animate_on` is `move` or else the timer.
pub open spec fn sprite_of(f: SpriteFile, id: Seq<char>) -> SpriteView {
    SpriteView {
        id,
        name: match f.name {
            Some(n) => n@,
            None => id,
        },
        frames: strings_view(f.frames@),
        trail_left: f.trail_left@,
        trail_right: f.trail_right@,
        accent: accent_named(f.accent@),
        order: f.order,
        animate_on: match f.animate_on {
            Some(a) => if a@ == "move"@ {
                AnimateOn::Move
            } else {
                AnimateOn::Tick
            },
            None => AnimateOn::Tick,
        },
    }
}

impl SpriteFile {
    pub fn into_sprite(self, id: String) -> (r: Sprite)
        ensures
            r@ == sprite_of(self, id@),
    {
        let animate_on = match &self.animate_on {
            Some(a) => if str_eq(a.as_str(), "move") {
                AnimateOn::Move
            } else {
                AnimateOn::Tick
            },
            None => AnimateOn::Tick,
        };
        let accent = color_from_str(self.accent.as_str());
        let name = match self.name {
            Some(n) => n,
            None => id.clone(),
        };
        Sprite {
            name,
            id,
            frames: self.frames,
            trail_left: self.trail_left,
            trail_right: self.trail_right,
            accent,
            order: self.order,
            animate_on,
        }
    }
}

/// The sprite used when no definition loads.
pub open spec fn fallback_view() -> SpriteView {
    SpriteView {
        id: "fallback"@,
        name: "fallback"@,
        frames: seq!["[ ]"@],
        trail_left: "="@,
        trail_right: " "@,
        accent: Accent::Cyan,
        order: 0,
        animate_on: AnimateOn::Tick,
    }
}

pub fn fallback_sprite() -> (r: Sprite)
    ensures
        r@ == fallback_view(),
{
    let mut frames: Vec<String> = Vec::new();
    frames.push(str_to_string("[ ]"));
    assert(strings_view(frames@) =~= seq!["[ ]"@]);
    Sprite {
        id: str_to_string("fallback"),
        name: str_to_string("fallback"),
        frames,
        trail_left: str_to_string("="),
        trail_right: str_to_string(" "),
        accent: Accent::Cyan,
        order: 0,
        animate_on: AnimateOn::Tick,
    }
}

/// Index of the first sprite with this id.
pub open spec fn first_id(s: Seq<SpriteView>, id: Seq<char>) -> Option<int>
    decreases s.len(),
{
    if s.len() == 0 {
        None
    } else if s[0].id == id {
        Some(0)
    } else {
        match first_id(s.skip(1), id) {
            Some(k) => Some(k + 1),
            None => None,
        }
    }
}

/// The builtin sprites with the user's definitions merged in, in file
/// order: a user sprite replaces the first one with its id, or is added.
pub open spec fn merged(base: Seq<SpriteView>, user: Seq<SpriteView>) -> Seq<SpriteView>
    decreases user.len(),
{
    if user.len() == 0 {
        base
    } else {
        let prev = merged(base, user.drop_last());
        let s = user.last();
        match first_id(prev, s.id) {
            Some(k) => prev.update(k, s),
            None => prev.push(s),
        }
    }
}

/// The listing key of a sprite: its order, then its id.
pub open spec fn sprite_key(s: SpriteView) -> KeyView {
    KeyView { rank: s.order as int, text: s.id }
}

/// The registry's list: merged sprites sorted by order then id (stable),
/// or the fallback sprite alone when there are none.
pub open spec fn registry_list(base: Seq<SpriteView>, user: Seq<SpriteView>) -> Seq<SpriteView> {
    let m = merged(base, user);
    if m.len() == 0 {
        seq![fallback_view()]
    } else {
        stable_sorted(m.map_values(|s: SpriteView| (sprite_key(s), s))).map_values(
            |p: (KeyView, SpriteView)| p.1,
        )
    }
}

/// All known sprites; never empty.
pub struct Registry {
    sprites: Vec<Sprite>,
}

impl View for Registry {
    type V = Seq<SpriteView>;

    closed spec fn view(&self) -> Seq<SpriteView> {
        self.sprites.deep_view()
    }
}

/// Index of the sprite with this id, or of the first sprite.
pub open spec fn index_of_id(s: Seq<SpriteView>, id: Seq<char>) -> int {
    match first_id(s, id) {
        Some(k) => k,
        None => 0,
    }
}

proof fn lemma_first_id(s: Seq<SpriteView>, id: Seq<char>)
    ensures
        match first_id(s, id) {
            Some(k) => 0 <= k < s.len() && s[k].id == id && forall|j: int| 0 <= j < k ==> #[trigger] s[j].id != id,
            None => forall|j: int| 0 <= j < s.len() ==> #[trigger] s[j].id != id,
        },
    decreases s.len(),
{
    if s.len() > 0 && s[0].id != id {
        lemma_first_id(s.skip(1), id);
        assert forall|j: int| 0 < j < s.len() implies #[trigger] s[j] == s.skip(1)[j - 1] by {}
    }
}

fn find_id(v: &Vec<Sprite>, id: &str) -> (r: Option<usize>)
    ensures
        match r {
            Some(k) => first_id(v.deep_view(), id@) == Some(k as int) && k < v@.len(),
            None => first_id(v.deep_view(), id@) is None,
        },
{
    proof {
        lemma_first_id(v.deep_view(), id@);
    }
    let ghost s = v.deep_view();
    let mut i: usize = 0;
    assert(s.skip(0) =~= s);
    while i < v.len()
        invariant
            i <= v@.len(),
            s == v.deep_view(),
            s.len() == v@.len(),
            first_id(s, id@) == match first_id(s.skip(i as int), id@) {
                Some(k) => Some(k + i),
                None => None,
            },
        decreases v@.len() - i,
    {
        assert(s.skip(i as int)[0] == s[i as int]);
        assert(s.skip(i as int).skip(1) =~= s.skip(i + 1));
        if str_eq(v[i].id.as_str(), id) {
            return Some(i);
        }
        i += 1;
    }
    None
}

impl Registry {
    #[verifier::type_invariant]
    spec fn non_empty(self) -> bool {
        self.sprites@.len() > 0
    }

    /// Builds the registry from the builtin definitions and the user's
    /// (each already paired with its id).
    pub fn load(builtin: Vec<(String, SpriteFile)>, user: Vec<(String, SpriteFile)>) -> (r: Registry)
        ensures
            r@ == registry_list(
                builtin@.map_values(|p: (String, SpriteFile)| sprite_of(p.1, p.0@)),
                user@.map_values(|p: (String, SpriteFile)| sprite_of(p.1, p.0@)),
            ),
    {
        let ghost bv = builtin@.map_values(|p: (String, SpriteFile)| sprite_of(p.1, p.0@));
        let ghost uv = user@.map_values(|p: (String, SpriteFile)| sprite_of(p.1, p.0@));
        let mut sprites: Vec<Sprite> = Vec::new();
        let mut builtin = builtin;
        let btotal = builtin.len();
        let mut n: usize = 0;
        let ghost b0 = builtin@;
        while builtin.len() > 0
            invariant
                n + builtin@.len() == btotal == b0.len(),
                builtin@ == b0.skip(n as int),
                bv == b0.map_values(|p: (String, SpriteFile)| sprite_of(p.1, p.0@)),
                sprites.deep_view() == bv.take(n as int),
            decreases builtin@.len(),
        {
            let (id, sf) = builtin.remove(0);
            assert(b0[n as int] == (id, sf));
            assert(builtin@ =~= b0.skip(n + 1));
            let ghost sv = sprite_of(sf, id@);
            assert(bv[n as int] == sv);
            let sp = sf.into_sprite(id);
            let ghost before = sprites.deep_view();
            sprites.push(sp);
            assert(sprites.deep_view() =~= before.push(sv));
            assert(bv.take(n + 1) =~= bv.take(n as int).push(sv));
            n += 1;
        }
        assert(bv.take(n as int) =~= bv);
        let mut user = user;
        let utotal = user.len();
        let ghost u0 = user@;
        let mut m: usize = 0;
        while user.len() > 0
            invariant
                m + user@.len() == utotal == u0.len(),
                user@ == u0.skip(m as int),
                uv == u0.map_values(|p: (String, SpriteFile)| sprite_of(p.1, p.0@)),
                sprites.deep_view() == merged(bv, uv.take(m as int)),
            decreases user@.len(),
        {
            let (id, sf) = user.remove(0);
            assert(u0[m as int] == (id, sf));
            assert(user@ =~= u0.skip(m + 1));
            let ghost uvm = sprite_of(sf, id@);
            assert(uv[m as int] == uvm);
            let sp = sf.into_sprite(id);
            assert(uv.take(m + 1).drop_last() =~= uv.take(m as int));
            assert(uv.take(m + 1).last() == sp@);
            match find_id(&sprites, sp.id.as_str()) {
                Some(pos) => {
                    let ghost before = sprites.deep_view();
                    sprites.set(pos, sp);
                    assert(sprites.deep_view() =~= before.update(pos as int, uv[m as int]));
                },
                None => {
                    let ghost before = sprites.deep_view();
                    sprites.push(sp);
                    assert(sprites.deep_view() =~= before.push(uv[m as int]));
                },
            }
            m += 1;
        }
        assert(uv.take(m as int) =~= uv);
        let ghost mv = sprites.deep_view();
        if sprites.len() == 0 {
            let f = fallback_sprite();
            let mut one: Vec<Sprite> = Vec::new();
            one.push(f);
            assert(one.deep_view() =~= seq![fallback_view()]);
            return Registry { sprites: one };
        }
        let mut pairs: Vec<(SortKey, Sprite)> = Vec::new();
        let mut sprites = sprites;
        let stotal = sprites.len();
        let mut k: usize = 0;
        while sprites.len() > 0
            invariant
                k + sprites@.len() == stotal == mv.len(),
                sprites.deep_view() == mv.skip(k as int),
                pairs_view(pairs@) == mv.take(k as int).map_values(
                    |s: SpriteView| (sprite_key(s), s),
                ),
            decreases sprites@.len(),
        {
            let ghost before = sprites.deep_view();
            let ghost be = sprites@;
            let sp = sprites.remove(0);
            assert(before[0] == mv[k as int]);
            assert(sprites@ =~= be.skip(1));
            assert(sprites.deep_view() =~= before.skip(1));
            assert(sprites.deep_view() =~= mv.skip(k + 1));
            let key = SortKey { rank: sp.order as i64, text: str_chars(sp.id.as_str()) };
            let ghost pb = pairs_view(pairs@);
            pairs.push((key, sp));
            assert(pairs_view(pairs@) =~= pb.push((sprite_key(mv[k as int]), mv[k as int])));
            assert(mv.take(k + 1).map_values(|s: SpriteView| (sprite_key(s), s)) =~= mv.take(
                k as int,
            ).map_values(|s: SpriteView| (sprite_key(s), s)).push(
                (sprite_key(mv[k as int]), mv[k as int]),
            ));
            k += 1;
        }
        assert(mv.take(k as int) =~= mv);
        let sorted = sort_by_key(pairs);
        let ghost sv = pairs_view(sorted@);
        let mut sorted = sorted;
        let mut out: Vec<Sprite> = Vec::new();
        let total = sorted.len();
        let mut j: usize = 0;
        while sorted.len() > 0
            invariant
                j + sorted@.len() == total == sv.len(),
                pairs_view(sorted@) == sv.skip(j as int),
                out.deep_view() == sv.take(j as int).map_values(|p: (KeyView, SpriteView)| p.1),
            decreases sorted@.len(),
        {
            let ghost before = sorted@;
            let (_key, sp) = sorted.remove(0);
            assert(pairs_view(before)[0] == sv[j as int]);
            assert(sorted@ =~= before.skip(1));
            assert(pairs_view(sorted@) =~= pairs_view(before).skip(1));
            let ghost ob = out.deep_view();
            out.push(sp);
            assert(out.deep_view() =~= ob.push(sv[j as int].1));
            assert(sv.take(j + 1).map_values(|p: (KeyView, SpriteView)| p.1) =~= sv.take(
                j as int,
            ).map_values(|p: (KeyView, SpriteView)| p.1).push(sv[j as int].1));
            j += 1;
        }
        assert(sv.take(j as int) =~= sv);
        Registry { sprites: out }
    }

    /// The sprite with this id, or the first sprite.
    pub fn get(&self, id: &str) -> (r: &Sprite)
        ensures
            r@ == self@[index_of_id(self@, id@)],
    {
        proof {
            use_type_invariant(self);
            lemma_first_id(self@, id@);
        }
        match find_id(&self.sprites, id) {
            Some(k) => &self.sprites[k],
            None => &self.sprites[0],
        }
    }

    /// Index of the sprite with this id, or 0.
    pub fn index_of(&self, id: &str) -> (r: usize)
        ensures
            r == index_of_id(self@, id@),
            r < self@.len(),
    {
        proof {
            use_type_invariant(self);
            lemma_first_id(self@, id@);
        }
        match find_id(&self.sprites, id) {
            Some(k) => k,
            None => 0,
        }
    }

    /// The id after `current`'s in the list, wrapping around.
    pub fn next_id(&self, current: &str) -> (r: String)
        ensures
            r@ == self@[(index_of_id(self@, current@) + 1) % (self@.len() as int)].id,
    {
        proof {
            use_type_invariant(self);
        }
        let i = self.index_of(current);
        let n = self.sprites.len();
        let j = if i + 1 == n {
            0
        } else {
            i + 1
        };
        assert(j == (i + 1) % (n as int)) by (nonlinear_arith)
            requires
                i < n,
                j == if i + 1 == n { 0 } else { i + 1 },
        ;
        self.sprites[j].id.clone()
    }

    /// The id before `current`'s in the list, wrapping around.
    pub fn prev_id(&self, current: &str) -> (r: String)
        ensures
            r@ == self@[(index_of_id(self@, current@) + self@.len() - 1) % (self@.len() as int)].id,
    {
        proof {
            use_type_invariant(self);
        }
        let i = self.index_of(current);
        let n = self.sprites.len();
        let j = if i == 0 {
            n - 1
        } else {
            i - 1
        };
        assert(j == (i + n - 1) % (n as int)) by (nonlinear_arith)
            requires
                i < n,
                j == if i == 0 { n - 1 } else { i - 1 },
        ;
        self.sprites[j].id.clone()
    }

    /// Every sprite, in listing order.
    pub fn all(&self) -> (r: &[Sprite])
        ensures
            r@.len() == self@.len(),
            forall|i: int| 0 <= i < r@.len() ==> (#[trigger] r@[i])@ == self@[i],
    {
        self.sprites.as_slice()
    }
}

/// The ids of a sprite list are all different.
pub open spec fn distinct_ids(s: Seq<SpriteView>) -> bool {
    forall|i: int, j: int| 0 <= i < s.len() && 0 <= j < s.len() && i != j ==> #[trigger] s[i].id != #[trigger] s[j].id
}

/// With distinct ids, stepping forward then back through the sprite list
/// returns to the sprite one started from.
pub proof fn lemma_next_then_prev(s: Seq<SpriteView>, k: int)
    requires
        distinct_ids(s),
        0 <= k < s.len(),
    ensures
        ({
            let n = s.len() as int;
            let next = s[(index_of_id(s, s[k].id) + 1) % n].id;
            s[(index_of_id(s, next) + n - 1) % n].id == s[k].id
        }),
{
    let n = s.len() as int;
    lemma_first_id(s, s[k].id);
    assert(index_of_id(s, s[k].id) == k);
    let j = (k + 1) % n;
    assert(0 <= j < n) by (nonlinear_arith)
        requires
            n > 0,
            j == (k + 1) % n,
    ;
    lemma_first_id(s, s[j].id);
    assert(index_of_id(s, s[j].id) == j);
    assert((j + n - 1) % n == k) by (nonlinear_arith)
        requires
            0 <= k < n,
            j == (k + 1) % n,
    ;
}

} // verus!
