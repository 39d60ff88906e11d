//! Shared pieces of the non-blob engines: colour triples, contours, and the
//! drawing context that collects their SVG text.
use vstd::prelude::*;

use crate::palette::Palette;
use crate::svg::begin_text;
use crate::text::{hex_byte, hex_digit, tenths_text, write_hex_byte, write_tenths};

verus! {

/// The three indices that `Ctx::distinct3` picks for a seed: a first index from
/// 0..5, a second from the four others, a third from the remaining three, each
/// in increasing order of the indices still free.
pub open spec fn distinct3_of(seed: u32) -> (int, int, int) {
    let s = seed as int;
    let a = s % 5;
    let b0 = (s / 5) % 4;
    let b = if b0 >= a { b0 + 1 } else { b0 };
    let lo = if a < b { a } else { b };
    let hi = if a < b { b } else { a };
    let c0 = (s / 20) % 3;
    let c1 = if c0 >= lo { c0 + 1 } else { c0 };
    let c = if c1 >= hi { c1 + 1 } else { c1 };
    (a, b, c)
}

/// Three different indices, each below 5.
pub open spec fn distinct_below_5(x: int, y: int, z: int) -> bool {
    0 <= x < 5 && 0 <= y < 5 && 0 <= z < 5 && x != y && y != z && x != z
}

/// Seeds that agree modulo 60 pick the same three indices.
pub proof fn lemma_distinct3_period(seed: u32)
    ensures
        distinct3_of(seed) == distinct3_of((seed % 60) as u32),
{
    let s = seed as int;
    let q = s / 60;
    let r = s % 60;
    assert(s == 60 * q + r && 0 <= r < 60);
    assert(s % 5 == r % 5) by (nonlinear_arith)
        requires s == 60 * q + r, 0 <= r < 60, q >= 0;
    assert((s / 5) % 4 == (r / 5) % 4) by (nonlinear_arith)
        requires s == 60 * q + r, 0 <= r < 60, q >= 0;
    assert((s / 20) % 3 == (r / 20) % 3) by (nonlinear_arith)
        requires s == 60 * q + r, 0 <= r < 60, q >= 0;
}

/// The seeds below 60 pick pairwise different triples, and every ordered
/// triple of distinct indices below 5 is picked by one of them.
pub proof fn lemma_distinct3_covers_triples()
    ensures
        forall|s1: u32, s2: u32| s1 < 60 && s2 < 60 && s1 != s2
            ==> #[trigger] distinct3_of(s1) != #[trigger] distinct3_of(s2),
        forall|x: int, y: int, z: int| #[trigger] distinct_below_5(x, y, z)
            ==> exists|s: u32| s < 60 && #[trigger] distinct3_of(s) == (x, y, z),
{
    assert forall|s1: u32, s2: u32| s1 < 60 && s2 < 60 && s1 != s2
        implies #[trigger] distinct3_of(s1) != #[trigger] distinct3_of(s2) by {
        let a = s1 as int;
        let b = s2 as int;
        assert(a == a % 5 + 5 * ((a / 5) % 4) + 20 * ((a / 20) % 3));
        assert(b == b % 5 + 5 * ((b / 5) % 4) + 20 * ((b / 20) % 3));
    }
    assert forall|x: int, y: int, z: int| #[trigger] distinct_below_5(x, y, z)
        implies exists|s: u32| s < 60 && #[trigger] distinct3_of(s) == (x, y, z) by {
        let b0 = if y > x { y - 1 } else { y };
        let lo = if x < y { x } else { y };
        let hi = if x < y { y } else { x };
        let c0 = if z > hi { z - 2 } else if z > lo { z - 1 } else { z };
        let s = (x + 5 * b0 + 20 * c0) as u32;
        assert((s as int) % 5 == x && ((s as int) / 5) % 4 == b0 && ((s as int) / 20) % 3 == c0);
        assert(distinct3_of(s) == (x, y, z));
    }
}

/// Three distinct palette indices chosen from a seed (60 ordered triples).
fn pick_distinct3(seed: u32) -> (r: [usize; 3])
    ensures
        r[0] == distinct3_of(seed).0,
        r[1] == distinct3_of(seed).1,
        r[2] == distinct3_of(seed).2,
        r[0] < 5 && r[1] < 5 && r[2] < 5,
        r[0] != r[1] && r[1] != r[2] && r[0] != r[2],
{
    let s: u64 = seed as u64;
    let a: u64 = s % 5;
    let mut b: u64 = (s / 5) % 4;
    if b >= a {
        b = b + 1;
    }
    let mut c: u64 = (s / 20) % 3;
    let lo: u64 = if a < b { a } else { b };
    let hi: u64 = if a < b { b } else { a };
    if c >= lo {
        c = c + 1;
    }
    if c >= hi {
        c = c + 1;
    }
    [a as usize, b as usize, c as usize]
}

/// Outer silhouette of an identicon: the single most recognisable trait.
#[derive(Clone, Copy, Debug, PartialEq, Eq, Structural)]
pub enum Contour {
    Circle,
    RoundedSquare,
    Hexagon,
    Shield,
    Diamond,
}

impl Contour {
    /// The contour at position `i` modulo 5, in declaration order.
    pub open spec fn at(i: int) -> Contour {
        if i == 0 {
            Contour::Circle
        } else if i == 1 {
            Contour::RoundedSquare
        } else if i == 2 {
            Contour::Hexagon
        } else if i == 3 {
            Contour::Shield
        } else {
            Contour::Diamond
        }
    }

    pub fn from_index(i: u8) -> (c: Contour)
        ensures
            c == Contour::at(i as int % 5),
    {
        match i % 5 {
            0 => Contour::Circle,
            1 => Contour::RoundedSquare,
            2 => Contour::Hexagon,
            3 => Contour::Shield,
            _ => Contour::Diamond,
        }
    }
}

/// Two numbers in tenths, written `x,y`.
pub open spec fn pt_text(p: (i32, i32)) -> Seq<char> {
    tenths_text(p.0 as int) + seq![','] + tenths_text(p.1 as int)
}

/// Path data of the closed polygon through the first `n` points: `M` before the
/// first point, `L` before each later one.
pub open spec fn polygon_points_text(pts: Seq<(i32, i32)>, n: nat) -> Seq<char>
    decreases n,
{
    if n == 0 {
        Seq::empty()
    } else {
        let k = (n - 1) as nat;
        polygon_points_text(pts, k) + seq![if k == 0 { 'M' } else { 'L' }] + pt_text(pts[k as int])
    }
}

/// Path data of a closed polygon.
pub open spec fn polygon_text(pts: Seq<(i32, i32)>) -> Seq<char> {
    polygon_points_text(pts, pts.len()) + seq!['Z']
}

/// Polygon path data always ends with `Z`, and starts with `M` when there is a point.
pub proof fn lemma_polygon_closed(pts: Seq<(i32, i32)>)
    ensures
        polygon_text(pts).last() == 'Z',
        pts.len() > 0 ==> polygon_text(pts)[0] == 'M',
{
    if pts.len() > 0 {
        lemma_polygon_starts_with_m(pts, pts.len());
    }
}

proof fn lemma_polygon_starts_with_m(pts: Seq<(i32, i32)>, n: nat)
    requires
        n >= 1,
    ensures
        polygon_points_text(pts, n).len() >= 1,
        polygon_points_text(pts, n)[0] == 'M',
    decreases n,
{
    if n > 1 {
        lemma_polygon_starts_with_m(pts, (n - 1) as nat);
    } else {
        assert(polygon_points_text(pts, 0) == Seq::<char>::empty());
    }
}

/// Appends a point in tenths as `x,y`.
pub fn write_pt(out: &mut String, p: (i32, i32))
    ensures
        final(out)@ == old(out)@ + pt_text(p),
{
    write_tenths(out, p.0);
    out.push(',');
    write_tenths(out, p.1);
}

/// Appends the path data of a closed polygon through points given in tenths.
pub fn polygon_d(out: &mut String, pts: &[(i32, i32)])
    ensures
        final(out)@ == old(out)@ + polygon_text(pts@),
{
    let ghost start = out@;
    let mut i: usize = 0;
    while i < pts.len()
        invariant
            i <= pts@.len(),
            out@ == start + polygon_points_text(pts@, i as nat),
        decreases pts@.len() - i,
    {
        out.push(if i == 0 { 'M' } else { 'L' });
        write_pt(out, pts[i]);
        i = i + 1;
    }
    out.push('Z');
}

/// The id `name` made unique to one identicon: `name`, `-`, and the identicon's token.
pub open spec fn scoped_id(name: Seq<char>, uid: Seq<char>) -> Seq<char> {
    name + seq!['-'] + uid
}

/// An identicon's id token: hash bytes 28, 29 and 30 in lower-case hexadecimal.
pub open spec fn id_token(hash: [u8; 32]) -> Seq<char> {
    hex_byte(hash[28]) + hex_byte(hash[29]) + hex_byte(hash[30])
}

proof fn lemma_hex_digit_injective(d: int, e: int)
    requires
        0 <= d < 16,
        0 <= e < 16,
        hex_digit(d) == hex_digit(e),
    ensures
        d == e,
{
}

proof fn lemma_hex_byte_injective(a: u8, b: u8)
    requires
        hex_byte(a) == hex_byte(b),
    ensures
        a == b,
{
    assert(hex_byte(a)[0] == hex_byte(b)[0]);
    assert(hex_byte(a)[1] == hex_byte(b)[1]);
    lemma_hex_digit_injective((a / 16) as int, (b / 16) as int);
    lemma_hex_digit_injective((a % 16) as int, (b % 16) as int);
}

/// Two identicons whose hashes differ in bytes 28, 29 or 30 never share an
/// element id, so both can be inlined in one document.
pub proof fn lemma_ids_differ_across_identicons(name: Seq<char>, h1: [u8; 32], h2: [u8; 32])
    requires
        h1[28] != h2[28] || h1[29] != h2[29] || h1[30] != h2[30],
    ensures
        scoped_id(name, id_token(h1)) != scoped_id(name, id_token(h2)),
{
    let x = scoped_id(name, id_token(h1));
    let y = scoped_id(name, id_token(h2));
    if x == y {
        let k: int = name.len() as int + 1;
        assert(x.subrange(k, k + 6) == id_token(h1));
        assert(y.subrange(k, k + 6) == id_token(h2));
        let t1 = id_token(h1);
        let t2 = id_token(h2);
        assert(t1.subrange(0, 2) == hex_byte(h1[28]));
        assert(t2.subrange(0, 2) == hex_byte(h2[28]));
        assert(t1.subrange(2, 4) == hex_byte(h1[29]));
        assert(t2.subrange(2, 4) == hex_byte(h2[29]));
        assert(t1.subrange(4, 6) == hex_byte(h1[30]));
        assert(t2.subrange(4, 6) == hex_byte(h2[30]));
        lemma_hex_byte_injective(h1[28], h2[28]);
        lemma_hex_byte_injective(h1[29], h2[29]);
        lemma_hex_byte_injective(h1[30], h2[30]);
    }
}

/// Shared drawing context for the non-blob engines.
///
/// All element ids are suffixed with a short hash-derived token so that several
/// identicons can be inlined in the same HTML document without gradient/clip
/// collisions. Coordinates reach it in tenths.
pub struct Ctx {
    /// Canvas side, in pixels.
    pub size: u32,
    pub palette: Palette,
    pub hash: [u8; 32],
    pub animated: bool,
    pub background: bool,
    /// The id token (see [`Ctx::uid_text`]).
    pub uid: Written,
    /// The text written so far.
    pub out: Written,
}

/// Text that only the drawing context's own methods write.
pub struct Written(String);

impl View for Written {
    type V = Seq<char>;

    closed spec fn view(&self) -> Seq<char> {
        self.0@
    }
}

impl Ctx {
    /// The id token: hash bytes 28, 29 and 30 in lower-case hexadecimal.
    pub open spec fn uid_text(&self) -> Seq<char> {
        self.uid@
    }

    /// The text written so far.
    pub open spec fn text(&self) -> Seq<char> {
        self.out@
    }

    /// Everything but the written text is the same in both contexts.
    pub open spec fn same_setup(&self, other: &Ctx) -> bool {
        &&& self.size == other.size
        &&& self.palette == other.palette
        &&& self.hash == other.hash
        &&& self.animated == other.animated
        &&& self.background == other.background
        &&& self.uid_text() == other.uid_text()
    }

    /// The background gradient's accent colour: palette colour `hash[30] % 5`.
    pub open spec fn accent_color(&self) -> Seq<char> {
        self.palette.colors[((self.hash[30] % 5) % 5) as int]@
    }

    /// What `begin` writes.
    pub open spec fn begin_text(&self) -> Seq<char> {
        begin_text(self.size) + if self.background {
            "<radialGradient id=\""@ + scoped_id("bg"@, self.uid_text())
                + "\" cx=\"0.5\" cy=\"0.4\" r=\"0.8\"><stop offset=\"0\" stop-color=\""@
                + self.palette.bg_dark@ + "\" stop-opacity=\"1\"/><stop offset=\"1\" stop-color=\""@
                + self.accent_color() + "\" stop-opacity=\"0.16\"/></radialGradient>"@
        } else {
            Seq::empty()
        }
    }

    /// What `close_defs` writes.
    pub open spec fn close_defs_text(&self) -> Seq<char> {
        "</defs>"@ + if self.background {
            "<rect width=\"100%\" height=\"100%\" fill=\""@ + self.palette.bg_dark@
                + "\"/><rect width=\"100%\" height=\"100%\" fill=\"url(#"@ + scoped_id(
                "bg"@,
                self.uid_text(),
            ) + ")\"/>"@
        } else {
            Seq::empty()
        }
    }

    pub fn new(size: u32, palette: &Palette, hash: &[u8; 32], animated: bool, background: bool) -> (c: Ctx)
        ensures
            c.size == size,
            c.palette == *palette,
            c.hash == *hash,
            c.animated == animated,
            c.background == background,
            c.uid_text() == id_token(*hash),
            c.text() == Seq::<char>::empty(),
    {
        let mut uid = String::new();
        write_hex_byte(&mut uid, hash[28]);
        write_hex_byte(&mut uid, hash[29]);
        write_hex_byte(&mut uid, hash[30]);
        Ctx { size, palette: *palette, hash: *hash, animated, background, uid: Written(uid), out: Written(String::new()) }
    }

    pub fn into_string(self) -> (s: String)
        ensures
            s@ == self.text(),
    {
        self.out.0
    }

    /// The output buffer, for text that the engines write themselves.
    pub fn out(&mut self) -> (o: &mut String)
        ensures
            o@ == old(self).text(),
            final(self).text() == final(o)@,
            final(self).same_setup(old(self)),
    {
        &mut self.out.0
    }

    /// Hash byte `i` reduced modulo `n`; used to allocate dedicated bits to
    /// macroscopic traits so that close inputs diverge on the big features.
    pub fn trait_u8(&self, i: usize, n: u8) -> (t: u8)
        requires
            n > 0,
        ensures
            t == self.hash[(i % 32) as int] % n,
    {
        self.hash[i % 32] % n
    }

    /// `name` made unique to this identicon.
    pub fn id(&self, name: &str) -> (s: String)
        ensures
            s@ == scoped_id(name@, self.uid_text()),
    {
        let mut s = String::new();
        s.push_str(name);
        s.push('-');
        s.push_str(self.uid.0.as_str());
        s
    }

    /// The palette colour at `index` modulo the number of colours.
    pub fn color(&self, index: usize) -> (c: &'static str)
        ensures
            c == self.palette.colors[(index % 5) as int],
    {
        self.palette.colors[index % 5]
    }

    /// Hash byte `i % 32` reduced modulo `n`.
    pub open spec fn trait_of(&self, i: int, n: int) -> int {
        self.hash[i % 32] as int % n
    }

    /// The colour seed of hash bytes `i` and `i + 1`, little-endian.
    pub open spec fn color_seed_of(&self, i: int) -> u32 {
        (self.hash[i] + 256 * self.hash[i + 1]) as u32
    }

    /// The colour seed of hash bytes `i` and `i + 1`, little-endian.
    pub fn color_seed(&self, i: usize) -> (s: u32)
        requires
            i < 31,
        ensures
            s == self.color_seed_of(i as int),
    {
        (self.hash[i] as u32) + 256 * (self.hash[i + 1] as u32)
    }

    /// Three distinct palette indices chosen from a seed (60 ordered triples).
    pub fn distinct3(seed: u32) -> (r: [usize; 3])
        ensures
            r[0] == distinct3_of(seed).0,
            r[1] == distinct3_of(seed).1,
            r[2] == distinct3_of(seed).2,
            r[0] < 5 && r[1] < 5 && r[2] < 5,
            r[0] != r[1] && r[1] != r[2] && r[0] != r[2],
    {
        pick_distinct3(seed)
    }

    pub fn begin(&mut self)
        ensures
            final(self).text() == old(self).text() + old(self).begin_text(),
            final(self).same_setup(old(self)),
    {
        crate::svg::write_svg_open(&mut self.out.0, self.size);
        if self.background {
            let bg = self.id("bg");
            let accent = self.color(self.trait_u8(30, 5) as usize);
            self.out.0.push_str("<radialGradient id=\"");
            self.out.0.push_str(bg.as_str());
            self.out.0.push_str("\" cx=\"0.5\" cy=\"0.4\" r=\"0.8\"><stop offset=\"0\" stop-color=\"");
            self.out.0.push_str(self.palette.bg_dark);
            self.out.0.push_str("\" stop-opacity=\"1\"/><stop offset=\"1\" stop-color=\"");
            self.out.0.push_str(accent);
            self.out.0.push_str("\" stop-opacity=\"0.16\"/></radialGradient>");
        }
    }

    pub fn close_defs(&mut self)
        ensures
            final(self).text() == old(self).text() + old(self).close_defs_text(),
            final(self).same_setup(old(self)),
    {
        self.out.0.push_str("</defs>");
        if self.background {
            let bg = self.id("bg");
            self.out.0.push_str("<rect width=\"100%\" height=\"100%\" fill=\"");
            self.out.0.push_str(self.palette.bg_dark);
            self.out.0.push_str("\"/><rect width=\"100%\" height=\"100%\" fill=\"url(#");
            self.out.0.push_str(bg.as_str());
            self.out.0.push_str(")\"/>");
        }
    }

    pub fn finish(&mut self)
        ensures
            final(self).text() == old(self).text() + "</svg>"@,
            final(self).same_setup(old(self)),
    {
        self.out.0.push_str("</svg>");
    }

    /// A filled circle; `opacity` is the fill opacity in tenths when the fill is
    /// translucent, and `None` when it is opaque (then no opacity is written).
    pub fn write_circle(&mut self, cx: i32, cy: i32, r: i32, fill: &str, opacity: Option<i32>)
        ensures
            final(self).text() == old(self).text() + "<circle cx=\""@ + tenths_text(cx as int)
                + "\" cy=\""@ + tenths_text(cy as int) + "\" r=\""@ + tenths_text(r as int)
                + "\" fill=\""@ + fill@ + (match opacity {
                Some(o) => "\" fill-opacity=\""@ + tenths_text(o as int),
                None => Seq::<char>::empty(),
            }) + "\"/>"@,
            final(self).same_setup(old(self)),
    {
        self.out.0.push_str("<circle cx=\"");
        write_tenths(&mut self.out.0, cx);
        self.out.0.push_str("\" cy=\"");
        write_tenths(&mut self.out.0, cy);
        self.out.0.push_str("\" r=\"");
        write_tenths(&mut self.out.0, r);
        self.out.0.push_str("\" fill=\"");
        self.out.0.push_str(fill);
        if let Some(o) = opacity {
            self.out.0.push_str("\" fill-opacity=\"");
            write_tenths(&mut self.out.0, o);
        }
        self.out.0.push_str("\"/>");
    }

    /// A stroked circle.
    pub fn write_ring(&mut self, cx: i32, cy: i32, r: i32, stroke: &str, width: i32, opacity: i32)
        ensures
            final(self).text() == old(self).text() + "<circle cx=\""@ + tenths_text(cx as int)
                + "\" cy=\""@ + tenths_text(cy as int) + "\" r=\""@ + tenths_text(r as int)
                + "\" fill=\"none\" stroke=\""@ + stroke@ + "\" stroke-width=\""@ + tenths_text(
                width as int,
            ) + "\" stroke-opacity=\""@ + tenths_text(opacity as int) + "\"/>"@,
            final(self).same_setup(old(self)),
    {
        self.out.0.push_str("<circle cx=\"");
        write_tenths(&mut self.out.0, cx);
        self.out.0.push_str("\" cy=\"");
        write_tenths(&mut self.out.0, cy);
        self.out.0.push_str("\" r=\"");
        write_tenths(&mut self.out.0, r);
        self.out.0.push_str("\" fill=\"none\" stroke=\"");
        self.out.0.push_str(stroke);
        self.out.0.push_str("\" stroke-width=\"");
        write_tenths(&mut self.out.0, width);
        self.out.0.push_str("\" stroke-opacity=\"");
        write_tenths(&mut self.out.0, opacity);
        self.out.0.push_str("\"/>");
    }

    /// A round-capped line from `a` to `b`.
    pub fn write_line(&mut self, a: (i32, i32), b: (i32, i32), stroke: &str, width: i32, opacity: i32)
        ensures
            final(self).text() == old(self).text() + "<line x1=\""@ + tenths_text(a.0 as int)
                + "\" y1=\""@ + tenths_text(a.1 as int) + "\" x2=\""@ + tenths_text(b.0 as int)
                + "\" y2=\""@ + tenths_text(b.1 as int) + "\" stroke=\""@ + stroke@
                + "\" stroke-width=\""@ + tenths_text(width as int) + "\" stroke-opacity=\""@
                + tenths_text(opacity as int) + "\" stroke-linecap=\"round\"/>"@,
            final(self).same_setup(old(self)),
    {
        self.out.0.push_str("<line x1=\"");
        write_tenths(&mut self.out.0, a.0);
        self.out.0.push_str("\" y1=\"");
        write_tenths(&mut self.out.0, a.1);
        self.out.0.push_str("\" x2=\"");
        write_tenths(&mut self.out.0, b.0);
        self.out.0.push_str("\" y2=\"");
        write_tenths(&mut self.out.0, b.1);
        self.out.0.push_str("\" stroke=\"");
        self.out.0.push_str(stroke);
        self.out.0.push_str("\" stroke-width=\"");
        write_tenths(&mut self.out.0, width);
        self.out.0.push_str("\" stroke-opacity=\"");
        write_tenths(&mut self.out.0, opacity);
        self.out.0.push_str("\" stroke-linecap=\"round\"/>");
    }

    /// Writes `<path d="..." attrs/>` where `attrs` is raw attribute text.
    pub fn write_path(&mut self, d: &str, attrs: &str)
        ensures
            final(self).text() == old(self).text() + "<path d=\""@ + d@ + "\" "@ + attrs@ + "/>"@,
            final(self).same_setup(old(self)),
    {
        self.out.0.push_str("<path d=\"");
        self.out.0.push_str(d);
        self.out.0.push_str("\" ");
        self.out.0.push_str(attrs);
        self.out.0.push_str("/>");
    }

    /// A closed polygon through points given in tenths.
    pub fn write_polygon(&mut self, pts: &[(i32, i32)], attrs: &str)
        ensures
            final(self).text() == old(self).text() + "<path d=\""@ + polygon_text(pts@) + "\" "@
                + attrs@ + "/>"@,
            final(self).same_setup(old(self)),
    {
        let mut d = String::new();
        polygon_d(&mut d, pts);
        self.write_path(d.as_str(), attrs);
    }
}

} // verus!
