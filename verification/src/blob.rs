//! The plain values that the blob renderer hands to the SVG writer.
//!
//! Blob geometry is computed with floating point by the caller; what reaches
//! this library is already rounded to tenths (`t` stands for the number `t / 10`),
//! the precision at which every coordinate is written.
use vstd::prelude::*;

use crate::palette::Palette;
use crate::prng::{xoshiro_u32, Prng};

verus! {

/// How blob positions repeat across the canvas.
#[derive(Clone, Copy, Debug, PartialEq, Eq, Structural)]
pub enum Symmetry {
    /// No repetition (named `None` elsewhere; that word is reserved here).
    Asymmetric,
    Mirror,
    Radial,
}

/// Whether the background gradient starts from the palette's light or dark tone.
#[derive(Clone, Copy, Debug, PartialEq, Eq, Structural)]
pub enum BackgroundStyle {
    Light,
    Dark,
}

/// A blob ready to be written: its path, three palette indices for its
/// gradient stops, and the gradient's numbers in tenths.
pub struct RenderedBlob {
    /// SVG path data of the blob's outline.
    pub path_d: String,
    /// Palette indices of the first, middle and last gradient stop.
    pub color_indices: [usize; 3],
    /// Opacity of the first stop.
    pub opacity: i32,
    /// Opacity of the middle stop.
    pub mid_opacity: i32,
    /// Radial gradient centred on the blob, or a diagonal linear one.
    pub use_radial: bool,
    /// Blob centre as a fraction of the canvas width (radial gradients only).
    pub cx: i32,
    /// Blob centre as a fraction of the canvas height (radial gradients only).
    pub cy: i32,
}

/// A small accent dot, in tenths.
#[derive(Clone, Copy, Debug, PartialEq, Eq, Structural)]
pub struct Accent {
    pub x: i32,
    pub y: i32,
    pub r: i32,
    /// The radius at the top of the pulse animation.
    pub r_pulse: i32,
    pub color_index: usize,
    pub opacity: i32,
}

/// The background gradient's end point, in tenths, and its style.
#[derive(Clone, Copy, Debug, PartialEq, Eq, Structural)]
pub struct BackgroundGradient {
    pub style: BackgroundStyle,
    pub x2: i32,
    pub y2: i32,
}

/// The palette colour at `index` modulo the number of colours.
pub fn palette_color(palette: &Palette, index: usize) -> (c: &'static str)
    ensures
        c == palette.colors[(index % 5) as int],
{
    palette.colors[index % 5]
}

/// The `k`-th 32-bit draw of the generator seeded with `seed`.
pub open spec fn draw(seed: Seq<u8>, k: int) -> u32 {
    xoshiro_u32(seed, k as nat)
}

/// The symmetry that a draw in `0..=2` selects.
pub open spec fn symmetry_of(v: int) -> Symmetry {
    if v == 0 {
        Symmetry::Asymmetric
    } else if v == 1 {
        Symmetry::Mirror
    } else {
        Symmetry::Radial
    }
}

/// The global parameters of a blob identicon. Fields named `_draw` hold the raw
/// 32-bit draw from which the renderer derives a fractional value (`draw /
/// u32::MAX`, scaled into the field's range).
#[derive(Clone, Copy, Debug, PartialEq, Eq, Structural)]
pub struct RenderParams {
    /// Number of base blobs, 3..=8.
    pub blob_count: u32,
    /// Palette position before reduction modulo the number of palettes.
    pub palette_index: usize,
    pub symmetry: Symmetry,
    /// Light background when its fraction exceeds one half.
    pub background_draw: u32,
    /// Curve strength, in 0.2..0.8.
    pub curve_draw: u32,
    /// Background gradient angle in degrees, in 0..360.
    pub angle_draw: u32,
    /// Blob size factor, in 0.5..1.5.
    pub scale_draw: u32,
    /// Number of accent dots, 2..=6.
    pub accent_count: u32,
}

/// The parameters drawn from the eight draws starting at `k`, in this order:
/// blob count, palette, symmetry, background, curve, angle, scale, accent count.
pub open spec fn params_from(seed: Seq<u8>, k: int) -> RenderParams {
    RenderParams {
        blob_count: (3 + draw(seed, k) % 6) as u32,
        palette_index: draw(seed, k + 1) as usize,
        symmetry: symmetry_of((draw(seed, k + 2) % 3) as int),
        background_draw: draw(seed, k + 3),
        curve_draw: draw(seed, k + 4),
        angle_draw: draw(seed, k + 5),
        scale_draw: draw(seed, k + 6),
        accent_count: (2 + draw(seed, k + 7) % 5) as u32,
    }
}

impl RenderParams {
    /// Draws the parameters: eight draws.
    pub fn from_prng(prng: &mut Prng) -> (p: RenderParams)
        ensures
            p == params_from(old(prng)@.0, old(prng)@.1 as int),
            final(prng)@ == (old(prng)@.0, old(prng)@.1 + 8),
    {
        let blob_count = prng.range_u32(3, 8);
        let palette_index = prng.next_u32() as usize;
        let symmetry = match prng.range_u32(0, 2) {
            0 => Symmetry::Asymmetric,
            1 => Symmetry::Mirror,
            _ => Symmetry::Radial,
        };
        let background_draw = prng.next_u32();
        let curve_draw = prng.next_u32();
        let angle_draw = prng.next_u32();
        let scale_draw = prng.next_u32();
        let accent_count = prng.range_u32(2, 6);
        RenderParams {
            blob_count,
            palette_index,
            symmetry,
            background_draw,
            curve_draw,
            angle_draw,
            scale_draw,
            accent_count,
        }
    }
}

/// Where a blob copy goes relative to the base blob it was drawn for.
#[derive(Clone, Copy, Debug, PartialEq, Eq, Structural)]
pub enum Placement {
    /// At the drawn position.
    Base,
    /// Mirrored across the vertical centre line.
    Mirrored,
    /// Copy `k` of `copies`, turned by `k / copies` of a full turn about the
    /// centre and kept within 0.15..=0.85.
    Rotated { k: u32, copies: u32 },
}

/// One blob before its outline is traced. Fields named `_draw` hold raw draws
/// from which the renderer derives fractional values.
#[derive(Clone, Copy, Debug, PartialEq, Eq)]
pub struct BlobSpec {
    /// Centre, horizontally, in 0.2..0.8 of the canvas.
    pub cx_draw: u32,
    /// Centre, vertically, in 0.2..0.8 of the canvas.
    pub cy_draw: u32,
    /// Base radius, 0.12..0.28 of the canvas times the blob scale.
    pub radius_draw: u32,
    /// Number of outline points, 8..=10.
    pub point_count: usize,
    /// Palette indices (mod 5) of the gradient stops.
    pub color_indices: [usize; 3],
    /// Opacity, in 0.55..0.92.
    pub opacity_draw: u32,
    /// Radial gradient (even base blobs) or linear one (odd base blobs).
    pub use_radial: bool,
    /// Paint order: lower first.
    pub z: u32,
    pub placement: Placement,
}

/// Draws taken by one base blob: nine, and a tenth for the copy count of radial symmetry.
pub open spec fn group_start(sym: Symmetry, k: int, i: int) -> int {
    if sym is Radial {
        k + 10 * i
    } else {
        k + 9 * i
    }
}

/// Base blob `i`, drawn from the draws starting at `k`: centre x, centre y,
/// radius, point count, three colours, opacity, paint order.
pub open spec fn base_blob(seed: Seq<u8>, k: int, i: int) -> BlobSpec {
    BlobSpec {
        cx_draw: draw(seed, k),
        cy_draw: draw(seed, k + 1),
        radius_draw: draw(seed, k + 2),
        point_count: (8 + draw(seed, k + 3) % 3) as usize,
        color_indices: [
            (draw(seed, k + 4) % 5) as usize,
            (draw(seed, k + 5) % 5) as usize,
            (draw(seed, k + 6) % 5) as usize,
        ],
        opacity_draw: draw(seed, k + 7),
        use_radial: i % 2 == 0,
        z: draw(seed, k + 8),
        placement: Placement::Base,
    }
}

/// Number of radial copies: 2..=4, from the draw after the base blob's nine.
pub open spec fn radial_copies(seed: Seq<u8>, k: int) -> int {
    2 + draw(seed, k + 9) % 3
}

/// The copies of base blob `i` that the symmetry asks for.
pub open spec fn blob_group(seed: Seq<u8>, sym: Symmetry, k: int, i: int) -> Seq<BlobSpec> {
    let b = base_blob(seed, k, i);
    match sym {
        Symmetry::Asymmetric => seq![b],
        Symmetry::Mirror => seq![b, BlobSpec { placement: Placement::Mirrored, ..b }],
        Symmetry::Radial => {
            let c = radial_copies(seed, k);
            Seq::new(
                c as nat,
                |j: int| BlobSpec { placement: Placement::Rotated { k: j as u32, copies: c as u32 }, ..b },
            )
        },
    }
}

/// The blobs of the first `n` base blobs, in drawing order.
pub open spec fn expanded_blobs(seed: Seq<u8>, sym: Symmetry, k: int, n: nat) -> Seq<BlobSpec>
    decreases n,
{
    if n == 0 {
        Seq::empty()
    } else {
        let i = n - 1;
        expanded_blobs(seed, sym, k, i as nat) + blob_group(seed, sym, group_start(sym, k, i), i)
    }
}

/// The blobs of `s` whose paint order is `z`, in their order in `s`.
pub open spec fn z_filter(s: Seq<BlobSpec>, z: u32) -> Seq<BlobSpec> {
    s.filter(|b: BlobSpec| b.z == z)
}

pub open spec fn z_sorted(s: Seq<BlobSpec>) -> bool {
    forall|i: int, j: int| 0 <= i < j < s.len() ==> s[i].z <= s[j].z
}

/// `out` is `input` stably sorted by paint order: sorted, and for each paint
/// order holding the same blobs in the same relative order.
pub open spec fn stable_z_sort_of(input: Seq<BlobSpec>, out: Seq<BlobSpec>) -> bool {
    z_sorted(out) && forall|z: u32| #[trigger] z_filter(out, z) == z_filter(input, z)
}

proof fn lemma_filter_none(s: Seq<BlobSpec>, pred: spec_fn(BlobSpec) -> bool)
    requires
        forall|i: int| 0 <= i < s.len() ==> !pred(#[trigger] s[i]),
    ensures
        s.filter(pred) == Seq::<BlobSpec>::empty(),
    decreases s.len(),
{
    reveal(Seq::filter);
    if s.len() > 0 {
        lemma_filter_none(s.drop_last(), pred);
    }
}

proof fn lemma_insert_keeps_order(out: Seq<BlobSpec>, p: int, x: BlobSpec)
    requires
        z_sorted(out),
        0 <= p <= out.len(),
        forall|q: int| 0 <= q < p ==> #[trigger] out[q].z <= x.z,
        forall|q: int| p <= q < out.len() ==> #[trigger] out[q].z > x.z,
    ensures
        z_sorted(out.insert(p, x)),
        forall|z: u32| #[trigger] z_filter(out.insert(p, x), z) == if x.z == z {
            z_filter(out, z).push(x)
        } else {
            z_filter(out, z)
        },
{
    out.insert_ensures(p, x);
    let n = out.insert(p, x);
    assert forall|i: int, j: int| 0 <= i < j < n.len() implies n[i].z <= n[j].z by {
        if j < p {
            assert(n[i] == out[i] && n[j] == out[j]);
        } else if j == p {
            assert(n[i] == out[i]);
        } else if i < p {
            assert(n[i] == out[i] && n[j] == out[j - 1]);
        } else if i == p {
            assert(n[j] == out[j - 1]);
        } else {
            assert(n[i] == out[i - 1] && n[j] == out[j - 1]);
        }
    }
    let a = out.subrange(0, p);
    let b = out.subrange(p, out.len() as int);
    assert(out =~= a + b);
    assert(n =~= a.push(x) + b);
    assert forall|z: u32| #[trigger] z_filter(n, z) == if x.z == z {
        z_filter(out, z).push(x)
    } else {
        z_filter(out, z)
    } by {
        let pred = |bl: BlobSpec| bl.z == z;
        reveal(Seq::filter);
        Seq::filter_distributes_over_add(a.push(x), b, pred);
        Seq::filter_distributes_over_add(a, b, pred);
        assert(a.push(x).drop_last() =~= a);
        if x.z == z {
            assert forall|i: int| 0 <= i < b.len() implies !pred(#[trigger] b[i]) by {
                assert(b[i] == out[p + i]);
            }
            lemma_filter_none(b, pred);
            assert(z_filter(out, z) =~= a.filter(pred));
            assert(z_filter(n, z) =~= a.filter(pred).push(x));
        } else {
            assert(z_filter(n, z) =~= a.filter(pred) + b.filter(pred));
        }
    }
}

proof fn lemma_z_filter_witness(s: Seq<BlobSpec>, z: u32)
    requires
        z_filter(s, z).len() > 0,
    ensures
        exists|i: int| 0 <= i < s.len() && #[trigger] s[i].z == z,
    decreases s.len(),
{
    reveal(Seq::filter);
    if s.len() > 0 {
        if s.last().z == z {
            assert(s[s.len() - 1].z == z);
        } else {
            lemma_z_filter_witness(s.drop_last(), z);
            let i = choose|i: int| 0 <= i < s.drop_last().len() && #[trigger] s.drop_last()[i].z == z;
            assert(s[i].z == z);
        }
    }
}

/// Two sequences sorted by paint order that hold, for every paint order, the
/// same blobs in the same order, are the same sequence: a stable sort has one result.
pub proof fn lemma_stable_z_sort_unique(input: Seq<BlobSpec>, a: Seq<BlobSpec>, b: Seq<BlobSpec>)
    requires
        stable_z_sort_of(input, a),
        stable_z_sort_of(input, b),
    ensures
        a == b,
{
    assert forall|z: u32| #[trigger] z_filter(a, z) == z_filter(b, z) by {
        assert(z_filter(a, z) == z_filter(input, z));
        assert(z_filter(b, z) == z_filter(input, z));
    }
    lemma_sorted_filters_determine(a, b);
}

proof fn lemma_sorted_filters_determine(a: Seq<BlobSpec>, b: Seq<BlobSpec>)
    requires
        z_sorted(a),
        z_sorted(b),
        forall|z: u32| #[trigger] z_filter(a, z) == z_filter(b, z),
    ensures
        a == b,
    decreases a.len(),
{
    reveal(Seq::filter);
    if a.len() == 0 || b.len() == 0 {
        if b.len() > 0 {
            assert(z_filter(b, b.last().z).len() > 0);
            assert(z_filter(a, b.last().z).len() == 0);
        }
        if a.len() > 0 {
            assert(z_filter(a, a.last().z).len() > 0);
            assert(z_filter(b, a.last().z).len() == 0);
        }
        assert(a =~= b);
    } else {
        let x = a.last();
        let y = b.last();
        if x.z < y.z {
            assert(z_filter(b, y.z).len() > 0);
            lemma_z_filter_witness(a, y.z);
            let i = choose|i: int| 0 <= i < a.len() && #[trigger] a[i].z == y.z;
            assert(a[i].z <= a[a.len() - 1].z);
        }
        if y.z < x.z {
            assert(z_filter(a, x.z).len() > 0);
            lemma_z_filter_witness(b, x.z);
            let i = choose|i: int| 0 <= i < b.len() && #[trigger] b[i].z == x.z;
            assert(b[i].z <= b[b.len() - 1].z);
        }
        let m = x.z;
        assert(z_filter(a, m) == z_filter(a.drop_last(), m).push(x));
        assert(z_filter(b, m) == z_filter(b.drop_last(), m).push(y));
        assert(x == z_filter(a, m).last());
        assert(y == z_filter(b, m).last());
        assert forall|z: u32| #[trigger] z_filter(a.drop_last(), z) == z_filter(b.drop_last(), z) by {
            if z == m {
                assert(z_filter(a.drop_last(), z) =~= z_filter(a, z).drop_last());
                assert(z_filter(b.drop_last(), z) =~= z_filter(b, z).drop_last());
            } else {
                assert(z_filter(a.drop_last(), z) == z_filter(a, z));
                assert(z_filter(b.drop_last(), z) == z_filter(b, z));
            }
        }
        lemma_sorted_filters_determine(a.drop_last(), b.drop_last());
        assert(a =~= a.drop_last().push(x));
        assert(b =~= b.drop_last().push(y));
    }
}

/// `v` stably sorted by paint order, by insertion.
pub fn sort_by_z(v: Vec<BlobSpec>) -> (r: Vec<BlobSpec>)
    ensures
        stable_z_sort_of(v@, r@),
        r@.len() == v@.len(),
{
    let mut out: Vec<BlobSpec> = Vec::new();
    let mut i: usize = 0;
    proof {
        reveal(Seq::filter);
        assert(v@.take(0) =~= Seq::<BlobSpec>::empty());
    }
    while i < v.len()
        invariant
            i <= v@.len(),
            out@.len() == i,
            z_sorted(out@),
            forall|z: u32| #[trigger] z_filter(out@, z) == z_filter(v@.take(i as int), z),
        decreases v@.len() - i,
    {
        let x = v[i];
        let mut p: usize = 0;
        while p < out.len() && out[p].z <= x.z
            invariant
                p <= out@.len(),
                forall|q: int| 0 <= q < p ==> #[trigger] out@[q].z <= x.z,
            decreases out@.len() - p,
        {
            p = p + 1;
        }
        proof {
            assert forall|q: int| p <= q < out@.len() implies #[trigger] out@[q].z > x.z by {
                assert(out@[p as int].z > x.z);
                assert(out@[p as int].z <= out@[q].z);
            }
            lemma_insert_keeps_order(out@, p as int, x);
            reveal(Seq::filter);
            assert(v@.take(i + 1).drop_last() =~= v@.take(i as int));
        }
        out.insert(p, x);
        i = i + 1;
    }
    proof {
        assert(v@.take(v@.len() as int) =~= v@);
    }
    out
}

/// `b` moved to placement `p`, all else kept.
pub open spec fn placed(b: BlobSpec, p: Placement) -> BlobSpec {
    BlobSpec { placement: p, ..b }
}

/// Every blob is at its drawn position.
pub open spec fn all_base(s: Seq<BlobSpec>) -> bool {
    forall|j: int| 0 <= j < s.len() ==> (#[trigger] s[j]).placement is Base
}

/// The blobs come in mirror pairs: each is at its drawn position or mirrored,
/// and each has its twin, the same blob placed the other way.
pub open spec fn mirror_paired(s: Seq<BlobSpec>) -> bool {
    forall|j: int| 0 <= j < s.len() ==> {
        &&& ((#[trigger] s[j]).placement is Base || s[j].placement is Mirrored)
        &&& (s[j].placement is Base ==> s.contains(placed(s[j], Placement::Mirrored)))
        &&& (s[j].placement is Mirrored ==> s.contains(placed(s[j], Placement::Base)))
    }
}

/// `b` is copy `k` of `copies` turned copies, with 2 to 4 copies, and every
/// copy of its ring is in `s`.
pub open spec fn in_full_ring(s: Seq<BlobSpec>, b: BlobSpec) -> bool {
    match b.placement {
        Placement::Rotated { k, copies } => {
            &&& 2 <= copies <= 4
            &&& k < copies
            &&& forall|q: u32| q < copies ==> #[trigger] s.contains(placed(b, Placement::Rotated { k: q, copies }))
        },
        _ => false,
    }
}

/// The blobs come in rings: each sits in a full ring of turned copies.
pub open spec fn radially_ringed(s: Seq<BlobSpec>) -> bool {
    forall|j: int| 0 <= j < s.len() ==> in_full_ring(s, #[trigger] s[j])
}

/// The symmetry's arrangement of the blobs, and how many there are for `n` base blobs.
pub open spec fn arranged(sym: Symmetry, s: Seq<BlobSpec>, n: nat) -> bool {
    match sym {
        Symmetry::Asymmetric => all_base(s) && s.len() == n,
        Symmetry::Mirror => mirror_paired(s) && s.len() == 2 * n,
        Symmetry::Radial => radially_ringed(s) && 2 * n <= s.len() <= 4 * n,
    }
}

proof fn lemma_contains_in_sum(a: Seq<BlobSpec>, b: Seq<BlobSpec>, x: BlobSpec)
    ensures
        a.contains(x) ==> (a + b).contains(x),
        b.contains(x) ==> (a + b).contains(x),
{
    if a.contains(x) {
        let i = choose|i: int| 0 <= i < a.len() && a[i] == x;
        assert((a + b)[i] == x);
    }
    if b.contains(x) {
        let i = choose|i: int| 0 <= i < b.len() && b[i] == x;
        assert((a + b)[a.len() + i] == x);
    }
}

proof fn lemma_expanded_arranged(seed: Seq<u8>, sym: Symmetry, k: int, n: nat)
    ensures
        arranged(sym, expanded_blobs(seed, sym, k, n), n),
    decreases n,
{
    if n > 0 {
        let i = n - 1;
        lemma_expanded_arranged(seed, sym, k, i as nat);
        let pre = expanded_blobs(seed, sym, k, i as nat);
        let g = blob_group(seed, sym, group_start(sym, k, i), i);
        let e = expanded_blobs(seed, sym, k, n);
        assert(e == pre + g);
        let b = base_blob(seed, group_start(sym, k, i), i);
        match sym {
            Symmetry::Asymmetric => {
                assert forall|j: int| 0 <= j < e.len() implies (#[trigger] e[j]).placement is Base by {
                    if j < pre.len() {
                        assert(e[j] == pre[j]);
                    }
                }
            },
            Symmetry::Mirror => {
                assert forall|j: int| 0 <= j < e.len() implies {
                    &&& ((#[trigger] e[j]).placement is Base || e[j].placement is Mirrored)
                    &&& (e[j].placement is Base ==> e.contains(placed(e[j], Placement::Mirrored)))
                    &&& (e[j].placement is Mirrored ==> e.contains(placed(e[j], Placement::Base)))
                } by {
                    if j < pre.len() {
                        assert(e[j] == pre[j]);
                        lemma_contains_in_sum(pre, g, placed(pre[j], Placement::Mirrored));
                        lemma_contains_in_sum(pre, g, placed(pre[j], Placement::Base));
                    } else if j == pre.len() {
                        assert(e[j] == b);
                        assert(e[j + 1] == placed(b, Placement::Mirrored));
                    } else {
                        assert(e[j] == placed(b, Placement::Mirrored));
                        assert(placed(e[j], Placement::Base) == b);
                        assert(e[j - 1] == b);
                    }
                }
            },
            Symmetry::Radial => {
                let c = radial_copies(seed, group_start(sym, k, i));
                assert forall|j: int| 0 <= j < e.len() implies in_full_ring(e, #[trigger] e[j]) by {
                    if j < pre.len() {
                        assert(e[j] == pre[j]);
                        assert(in_full_ring(pre, pre[j]));
                        if let Placement::Rotated { k: kk, copies } = pre[j].placement {
                            assert forall|q: u32| q < copies implies #[trigger] e.contains(placed(e[j], Placement::Rotated { k: q, copies })) by {
                                assert(pre.contains(placed(pre[j], Placement::Rotated { k: q, copies })));
                                lemma_contains_in_sum(pre, g, placed(pre[j], Placement::Rotated { k: q, copies }));
                            }
                        }
                    } else {
                        let r = j - pre.len();
                        assert(e[j] == g[r]);
                        assert(g[r] == placed(b, Placement::Rotated { k: r as u32, copies: c as u32 }));
                        assert forall|q: u32| q < c as u32 implies #[trigger] e.contains(placed(e[j], Placement::Rotated { k: q, copies: c as u32 })) by {
                            assert(placed(e[j], Placement::Rotated { k: q, copies: c as u32 }) == g[q as int]);
                            assert(e[pre.len() + q] == g[q as int]);
                        }
                    }
                }
            },
        }
    }
}

proof fn lemma_sorted_keeps_members(input: Seq<BlobSpec>, out: Seq<BlobSpec>, x: BlobSpec)
    requires
        stable_z_sort_of(input, out),
    ensures
        out.contains(x) <==> input.contains(x),
{
    let pred = |bl: BlobSpec| bl.z == x.z;
    assert(z_filter(out, x.z) == z_filter(input, x.z));
    if out.contains(x) {
        let i = choose|i: int| 0 <= i < out.len() && out[i] == x;
        out.lemma_filter_contains(pred, i);
        input.lemma_filter_contains_rev(pred, x);
    }
    if input.contains(x) {
        let i = choose|i: int| 0 <= i < input.len() && input[i] == x;
        input.lemma_filter_contains(pred, i);
        out.lemma_filter_contains_rev(pred, x);
    }
}

/// The blobs of an identicon keep their symmetry through the paint-order
/// sort: under no symmetry every blob is at its drawn position; under mirror
/// symmetry every blob has its mirror twin, two per base blob; under radial
/// symmetry every blob sits in a ring of 2 to 4 turned copies.
pub proof fn lemma_symmetry_kept(seed: Seq<u8>, sym: Symmetry, k: int, n: nat, specs: Seq<BlobSpec>)
    requires
        stable_z_sort_of(expanded_blobs(seed, sym, k, n), specs),
        specs.len() == expanded_blobs(seed, sym, k, n).len(),
    ensures
        arranged(sym, specs, n),
{
    let e = expanded_blobs(seed, sym, k, n);
    lemma_expanded_arranged(seed, sym, k, n);
    assert forall|x: BlobSpec| specs.contains(x) <==> e.contains(x) by {
        lemma_sorted_keeps_members(e, specs, x);
    }
    match sym {
        Symmetry::Asymmetric => {
            assert forall|j: int| 0 <= j < specs.len() implies (#[trigger] specs[j]).placement is Base by {
                assert(specs.contains(specs[j]));
                let m = choose|m: int| 0 <= m < e.len() && e[m] == specs[j];
                assert(e[m].placement is Base);
            }
        },
        Symmetry::Mirror => {
            assert forall|j: int| 0 <= j < specs.len() implies {
                &&& ((#[trigger] specs[j]).placement is Base || specs[j].placement is Mirrored)
                &&& (specs[j].placement is Base ==> specs.contains(placed(specs[j], Placement::Mirrored)))
                &&& (specs[j].placement is Mirrored ==> specs.contains(placed(specs[j], Placement::Base)))
            } by {
                assert(specs.contains(specs[j]));
                let m = choose|m: int| 0 <= m < e.len() && e[m] == specs[j];
                assert(e[m] == specs[j]);
            }
        },
        Symmetry::Radial => {
            assert forall|j: int| 0 <= j < specs.len() implies in_full_ring(specs, #[trigger] specs[j]) by {
                assert(specs.contains(specs[j]));
                let m = choose|m: int| 0 <= m < e.len() && e[m] == specs[j];
                assert(in_full_ring(e, e[m]));
            }
        },
    }
}

/// Draws the base blobs, expands them by the symmetry, and sorts them by paint
/// order (stably, so equal orders keep drawing order).
pub fn generate_blob_specs(prng: &mut Prng, params: &RenderParams) -> (specs: Vec<BlobSpec>)
    ensures
        stable_z_sort_of(
            expanded_blobs(old(prng)@.0, params.symmetry, old(prng)@.1 as int, params.blob_count as nat),
            specs@,
        ),
        specs@.len() == expanded_blobs(old(prng)@.0, params.symmetry, old(prng)@.1 as int, params.blob_count as nat).len(),
        arranged(params.symmetry, specs@, params.blob_count as nat),
        final(prng)@ == (
            old(prng)@.0,
            group_start(params.symmetry, old(prng)@.1 as int, params.blob_count as int) as nat,
        ),
{
    let ghost seed = prng@.0;
    let ghost k0 = prng@.1 as int;
    let sym = params.symmetry;
    let mut specs: Vec<BlobSpec> = Vec::new();
    let mut i: u32 = 0;
    while i < params.blob_count
        invariant
            i <= params.blob_count,
            k0 >= 0,
            sym == params.symmetry,
            prng@ == (seed, group_start(sym, k0, i as int) as nat),
            specs@ == expanded_blobs(seed, sym, k0, i as nat),
        decreases params.blob_count - i,
    {
        let ghost k = group_start(sym, k0, i as int);
        let cx_draw = prng.next_u32();
        let cy_draw = prng.next_u32();
        let radius_draw = prng.next_u32();
        let points: u32 = prng.range_u32(8, 10);
        let point_count = points as usize;
        let d0 = prng.next_u32();
        let d1 = prng.next_u32();
        let d2 = prng.next_u32();
        let c0 = (d0 % 5) as usize;
        let c1 = (d1 % 5) as usize;
        let c2 = (d2 % 5) as usize;
        let opacity_draw = prng.next_u32();
        let use_radial = i % 2 == 0;
        let z = prng.next_u32();
        let base = BlobSpec {
            cx_draw,
            cy_draw,
            radius_draw,
            point_count,
            color_indices: [c0, c1, c2],
            opacity_draw,
            use_radial,
            z,
            placement: Placement::Base,
        };
        assert(base == base_blob(seed, k, i as int));
        let ghost before = specs@;
        match sym {
            Symmetry::Asymmetric => {
                specs.push(base);
                assert(specs@ =~= before + blob_group(seed, sym, k, i as int));
            },
            Symmetry::Mirror => {
                specs.push(base);
                specs.push(BlobSpec { placement: Placement::Mirrored, ..base });
                assert(specs@ =~= before + blob_group(seed, sym, k, i as int));
            },
            Symmetry::Radial => {
                let copies = prng.range_u32(2, 4);
                let mut j: u32 = 0;
                while j < copies
                    invariant
                        j <= copies,
                        specs@ == before + Seq::new(
                            j as nat,
                            |q: int|
                                BlobSpec { placement: Placement::Rotated { k: q as u32, copies: copies }, ..base },
                        ),
                    decreases copies - j,
                {
                    specs.push(BlobSpec { placement: Placement::Rotated { k: j, copies }, ..base });
                    j = j + 1;
                    assert(specs@ =~= before + Seq::new(
                        j as nat,
                        |q: int|
                            BlobSpec { placement: Placement::Rotated { k: q as u32, copies: copies }, ..base },
                    ));
                }
                assert(specs@ =~= before + blob_group(seed, sym, k, i as int));
            },
        }
        i = i + 1;
        assert(expanded_blobs(seed, sym, k0, i as nat) == before + blob_group(seed, sym, k, (i - 1) as int));
    }
    let sorted = sort_by_z(specs);
    proof {
        lemma_symmetry_kept(seed, sym, k0, params.blob_count as nat, sorted@);
    }
    sorted
}

/// Most outline points a blob draws perturbations for.
pub const MAX_POINTS: usize = 14;

/// Outline points of a blob that get a perturbation draw.
pub open spec fn perturbed_points(b: BlobSpec) -> int {
    if b.point_count < MAX_POINTS {
        b.point_count as int
    } else {
        MAX_POINTS as int
    }
}

/// Perturbation draws taken by the blobs before position `j`.
pub open spec fn points_before(specs: Seq<BlobSpec>, j: int) -> int
    decreases j,
{
    if j <= 0 {
        0
    } else {
        points_before(specs, j - 1) + perturbed_points(specs[j - 1])
    }
}

/// The perturbation draws of blob `j`, one per outline point, in blob order.
pub open spec fn perturbations_of(seed: Seq<u8>, k: int, specs: Seq<BlobSpec>, j: int) -> Seq<u32> {
    Seq::new(perturbed_points(specs[j]) as nat, |m: int| draw(seed, k + points_before(specs, j) + m))
}

/// Draws the outline perturbations of every blob (each in -1..1 of the curve
/// strength), blob after blob.
pub fn perturbation_draws(prng: &mut Prng, specs: &Vec<BlobSpec>) -> (r: Vec<Vec<u32>>)
    ensures
        r@.len() == specs@.len(),
        forall|j: int| 0 <= j < specs@.len() ==> #[trigger] r@[j]@ == perturbations_of(
            old(prng)@.0,
            old(prng)@.1 as int,
            specs@,
            j,
        ),
        final(prng)@ == (old(prng)@.0, (old(prng)@.1 + points_before(specs@, specs@.len() as int)) as nat),
        points_before(specs@, specs@.len() as int) >= 0,
{
    let ghost seed = prng@.0;
    let ghost k0 = prng@.1 as int;
    let mut r: Vec<Vec<u32>> = Vec::new();
    let mut j: usize = 0;
    while j < specs.len()
        invariant
            j <= specs@.len(),
            k0 >= 0,
            r@.len() == j,
            points_before(specs@, j as int) >= 0,
            forall|q: int| 0 <= q < j ==> #[trigger] r@[q]@ == perturbations_of(seed, k0, specs@, q),
            prng@ == (seed, (k0 + points_before(specs@, j as int)) as nat),
        decreases specs@.len() - j,
    {
        let n: usize = if specs[j].point_count < MAX_POINTS { specs[j].point_count } else { MAX_POINTS };
        let ghost start = k0 + points_before(specs@, j as int);
        let mut p: Vec<u32> = Vec::new();
        let mut m: usize = 0;
        while m < n
            invariant
                m <= n,
                n == perturbed_points(specs@[j as int]),
                start >= 0,
                prng@ == (seed, (start + m) as nat),
                p@ == Seq::new(m as nat, |t: int| draw(seed, start + t)),
            decreases n - m,
        {
            let d = prng.next_u32();
            p.push(d);
            m = m + 1;
            assert(p@ =~= Seq::new(m as nat, |t: int| draw(seed, start + t)));
        }
        assert(p@ =~= perturbations_of(seed, k0, specs@, j as int));
        r.push(p);
        j = j + 1;
    }
    r
}

/// The raw draws of one accent dot.
#[derive(Clone, Copy, Debug, PartialEq, Eq, Structural)]
pub struct AccentDraws {
    /// Horizontal position, in 0.05..0.95 of the canvas.
    pub x_draw: u32,
    /// Vertical position, in 0.05..0.95 of the canvas.
    pub y_draw: u32,
    /// Radius in pixels, 2..6.
    pub r_draw: u32,
    /// Palette index, already reduced modulo 5.
    pub color_index: usize,
    /// Fill opacity, 0.25..0.55.
    pub opacity_draw: u32,
}

/// Accent `a`, from the five draws starting at `k + 5 a`: x, y, radius, colour, opacity.
pub open spec fn accent_at(seed: Seq<u8>, k: int, a: int) -> AccentDraws {
    AccentDraws {
        x_draw: draw(seed, k + 5 * a),
        y_draw: draw(seed, k + 5 * a + 1),
        r_draw: draw(seed, k + 5 * a + 2),
        color_index: (draw(seed, k + 5 * a + 3) % 5) as usize,
        opacity_draw: draw(seed, k + 5 * a + 4),
    }
}

/// Draws the accent dots: five draws each.
pub fn generate_accents(prng: &mut Prng, params: &RenderParams) -> (r: Vec<AccentDraws>)
    ensures
        r@.len() == params.accent_count,
        forall|a: int| 0 <= a < params.accent_count ==> #[trigger] r@[a] == accent_at(
            old(prng)@.0,
            old(prng)@.1 as int,
            a,
        ),
        final(prng)@ == (old(prng)@.0, (old(prng)@.1 + 5 * params.accent_count) as nat),
{
    let ghost seed = prng@.0;
    let ghost k0 = prng@.1 as int;
    let mut r: Vec<AccentDraws> = Vec::new();
    let mut a: u32 = 0;
    while a < params.accent_count
        invariant
            a <= params.accent_count,
            k0 >= 0,
            r@.len() == a,
            forall|q: int| 0 <= q < a ==> #[trigger] r@[q] == accent_at(seed, k0, q),
            prng@ == (seed, (k0 + 5 * a) as nat),
        decreases params.accent_count - a,
    {
        let x_draw = prng.next_u32();
        let y_draw = prng.next_u32();
        let r_draw = prng.next_u32();
        let color_index = (prng.next_u32() % 5) as usize;
        let opacity_draw = prng.next_u32();
        r.push(AccentDraws { x_draw, y_draw, r_draw, color_index, opacity_draw });
        a = a + 1;
    }
    r
}

} // verus!
