//! The non-geometric half of rendering: palette choice, animation seed,
//! gradient ids, and the order in which the document's parts are written.
use vstd::prelude::*;

use crate::blob::{
    accent_at, expanded_blobs, generate_accents, generate_blob_specs, group_start, params_from,
    lemma_stable_z_sort_unique, perturbation_draws, perturbations_of, points_before, stable_z_sort_of,
    Accent, AccentDraws,
    BackgroundGradient, BlobSpec, RenderParams, RenderedBlob,
};
use crate::hash::{blake3_hash, hash_input, validate_input, validation};
use crate::prng::Prng;
use crate::svg::clamp_size;
use crate::{RenderError, RenderOptions};
use vstd::string::StringSliceAdditionalSpecFns;
use crate::palette::{palette_at, palette_by_index, palette_by_theme, Palette, Theme, PALETTE_COUNT};
use crate::svg::{
    accent_text, background_gradient_text, background_rect_text, begin_text, blob_gradient_text,
    blob_path_text, SvgBuilder,
};
use crate::text::{contains, decimal, matches_at, tenths_text, write_decimal};

verus! {

/// Id of the gradient of blob `i`: `g` and the decimal index.
pub open spec fn grad_id(i: nat) -> Seq<char> {
    seq!['g'] + decimal(i)
}

/// The gradient id of blob `i`. Ids have at most four digits.
pub fn grad_id_buf(i: usize) -> (s: String)
    requires
        i < 10000,
    ensures
        s@ == grad_id(i as nat),
{
    let mut s = String::new();
    s.push('g');
    write_decimal(&mut s, i as u64);
    s
}

/// The seed of the animation timing: the first four hash bytes, little-endian.
pub open spec fn anim_seed_of(hash: Seq<u8>) -> int {
    hash[0] + 256 * hash[1] + 65536 * hash[2] + 16777216 * hash[3]
}

pub fn anim_seed(hash: &[u8; 32]) -> (s: u32)
    ensures
        s == anim_seed_of(hash@),
{
    let b0: u32 = hash[0] as u32;
    let b1: u32 = hash[1] as u32;
    let b2: u32 = hash[2] as u32;
    let b3: u32 = hash[3] as u32;
    b0 + 256 * b1 + 65536 * b2 + 16777216 * b3
}

/// The empty 256-pixel SVG given in place of an identicon for refused input.
pub open spec fn placeholder_text() -> Seq<char> {
    "<svg xmlns=\"http://www.w3.org/2000/svg\" viewBox=\"0 0 256 256\" width=\"256\" height=\"256\"></svg>"@
}

/// The empty 256-pixel SVG given in place of an identicon for refused input.
pub fn placeholder_svg() -> (s: String)
    ensures
        s@ == placeholder_text(),
{
    let mut s = String::new();
    s.push_str("<svg xmlns=\"http://www.w3.org/2000/svg\" viewBox=\"0 0 256 256\" width=\"256\" height=\"256\"></svg>");
    s
}

/// The palette a render uses: the theme's when one is asked for, else the one
/// the generator drew.
pub fn select_palette(theme: Option<Theme>, palette_index: usize) -> (p: Palette)
    ensures
        p == match theme {
            Some(t) => palette_at(t.spec_index()),
            None => palette_at((palette_index % PALETTE_COUNT) as int),
        },
{
    match theme {
        Some(t) => palette_by_theme(t),
        None => palette_by_index(palette_index),
    }
}

/// The gradients of the first `n` blobs, with ids `g0`, `g1`, ...
pub open spec fn gradients_text(
    blobs: Seq<RenderedBlob>,
    palette: Palette,
    animated: bool,
    anim_seed: u32,
    n: nat,
) -> Seq<char>
    decreases n,
{
    if n == 0 {
        Seq::empty()
    } else {
        let k = (n - 1) as nat;
        gradients_text(blobs, palette, animated, anim_seed, k) + blob_gradient_text(
            grad_id(k),
            blobs[k as int],
            palette,
            animated,
            anim_seed,
        )
    }
}

/// The outlines of the first `n` blobs, each filled with its own gradient.
pub open spec fn paths_text(blobs: Seq<RenderedBlob>, animated: bool, n: nat) -> Seq<char>
    decreases n,
{
    if n == 0 {
        Seq::empty()
    } else {
        let k = (n - 1) as nat;
        paths_text(blobs, animated, k) + blob_path_text(grad_id(k), blobs[k as int].path_d@, animated)
    }
}

/// The first `n` accent dots.
pub open spec fn accents_text(accents: Seq<Accent>, palette: Palette, animated: bool, n: nat) -> Seq<char>
    decreases n,
{
    if n == 0 {
        Seq::empty()
    } else {
        let k = (n - 1) as nat;
        accents_text(accents, palette, animated, k) + accent_text(palette, accents[k as int], k as int, animated)
    }
}

/// The whole document: header, background gradient, blob gradients, end of the
/// definitions, background rectangle, blob outlines, accents, end tag. The
/// background parts are present only when a background gradient is given.
pub open spec fn document_text(
    size: u32,
    palette: Palette,
    background: Option<BackgroundGradient>,
    animated: bool,
    anim_seed: u32,
    blobs: Seq<RenderedBlob>,
    accents: Seq<Accent>,
) -> Seq<char> {
    begin_text(size) + (match background {
        Some(bg) => background_gradient_text(palette, bg),
        None => Seq::empty(),
    }) + gradients_text(blobs, palette, animated, anim_seed, blobs.len()) + "</defs>"@ + (
    match background {
        Some(_) => background_rect_text(),
        None => Seq::empty(),
    }) + paths_text(blobs, animated, blobs.len()) + accents_text(accents, palette, animated, accents.len())
        + "</svg>"@
}

/// Writes the identicon document from its already computed parts.
pub fn assemble_identicon(
    size: u32,
    palette: &Palette,
    background: Option<BackgroundGradient>,
    animated: bool,
    anim_seed: u32,
    blobs: &Vec<RenderedBlob>,
    accents: &Vec<Accent>,
) -> (svg: String)
    requires
        blobs@.len() <= 10000,
    ensures
        svg@ == document_text(size, *palette, background, animated, anim_seed, blobs@, accents@),
{
    let mut builder = SvgBuilder::new(4096, animated, anim_seed);
    builder.begin(size);
    if let Some(bg) = background {
        builder.write_background_gradient(palette, bg);
    }
    let ghost head = builder@;
    let mut i: usize = 0;
    while i < blobs.len()
        invariant
            i <= blobs@.len() <= 10000,
            builder.is_animated() == animated,
            builder.seed() == anim_seed,
            builder@ == head + gradients_text(blobs@, *palette, animated, anim_seed, i as nat),
        decreases blobs@.len() - i,
    {
        let id = grad_id_buf(i);
        builder.write_blob_gradient(id.as_str(), &blobs[i], palette);
        i = i + 1;
    }
    builder.close_defs();
    if background.is_some() {
        builder.write_background_rect();
    }
    let ghost mid = builder@;
    let mut i: usize = 0;
    while i < blobs.len()
        invariant
            i <= blobs@.len() <= 10000,
            builder.is_animated() == animated,
            builder.seed() == anim_seed,
            builder@ == mid + paths_text(blobs@, animated, i as nat),
        decreases blobs@.len() - i,
    {
        let id = grad_id_buf(i);
        builder.write_blob_path(id.as_str(), &blobs[i]);
        i = i + 1;
    }
    let ghost tail = builder@;
    let mut i: usize = 0;
    while i < accents.len()
        invariant
            i <= accents@.len(),
            builder.is_animated() == animated,
            builder.seed() == anim_seed,
            builder@ == tail + accents_text(accents@, *palette, animated, i as nat),
        decreases accents@.len() - i,
    {
        builder.write_accent(palette, &accents[i], i);
        i = i + 1;
    }
    builder.finish();
    builder.into_string()
}

/// Everything of a blob identicon but its geometry: the validated input's hash,
/// the canvas, the palette, the animation seed, and every pseudo-random draw,
/// taken in the order the renderer consumes them.
#[derive(Debug, PartialEq, Eq)]
pub struct IdenticonPlan {
    /// BLAKE3 digest of the input, the generator's seed.
    pub hash: [u8; 32],
    /// Canvas side, within 32..=1024.
    pub size: u32,
    pub palette: Palette,
    pub background: bool,
    pub animated: bool,
    pub anim_seed: u32,
    pub params: RenderParams,
    /// The blobs, in paint order.
    pub specs: Vec<BlobSpec>,
    /// Per blob, one draw per outline point.
    pub perturbations: Vec<Vec<u32>>,
    pub accents: Vec<AccentDraws>,
}

/// The clamped canvas side.
pub open spec fn clamped(size: u32) -> u32 {
    if size < 32 {
        32
    } else if size > 1024 {
        1024
    } else {
        size
    }
}

/// The plan of a valid input under `opts`: the generator is seeded with the
/// input's digest; its draws go, in order, to the eight parameters, the base
/// blobs, the outline perturbations of the sorted blobs, and the accents.
pub open spec fn plan_matches(input: &str, opts: RenderOptions, p: IdenticonPlan) -> bool {
    let seed = blake3_hash(input.spec_bytes());
    let params = params_from(seed, 0);
    let kb = group_start(params.symmetry, 8, params.blob_count as int);
    let ka = kb + points_before(p.specs@, p.specs@.len() as int);
    &&& p.hash@ == seed
    &&& p.size == clamped(opts.size)
    &&& p.palette == match opts.theme {
        Some(t) => palette_at(t.spec_index()),
        None => palette_at((params.palette_index % PALETTE_COUNT) as int),
    }
    &&& p.background == opts.background
    &&& p.animated == opts.animated
    &&& p.anim_seed == anim_seed_of(seed)
    &&& p.params == params
    &&& stable_z_sort_of(expanded_blobs(seed, params.symmetry, 8, params.blob_count as nat), p.specs@)
    &&& p.perturbations@.len() == p.specs@.len()
    &&& forall|j: int| 0 <= j < p.specs@.len() ==> #[trigger] p.perturbations@[j]@ == perturbations_of(seed, kb, p.specs@, j)
    &&& p.accents@.len() == params.accent_count
    &&& forall|a: int| 0 <= a < params.accent_count ==> #[trigger] p.accents@[a] == accent_at(seed, ka, a)
}

/// Validates the input and takes every decision of a blob identicon short of
/// its geometry. Refused inputs give the validation error.
pub fn plan_identicon(input: &str, opts: &RenderOptions) -> (r: Result<IdenticonPlan, RenderError>)
    ensures
        r is Err <==> validation(input) is Err,
        r matches Err(e) ==> validation(input) == Err::<(), RenderError>(e),
        r matches Ok(p) ==> plan_matches(input, *opts, p),
{
    if let Err(e) = validate_input(input) {
        return Err(e);
    }
    let hash = hash_input(input);
    let mut prng = Prng::from_seed(hash);
    let params = RenderParams::from_prng(&mut prng);
    let palette = select_palette(opts.theme, params.palette_index);
    let size = clamp_size(opts.size);
    let specs = generate_blob_specs(&mut prng, &params);
    let perturbations = perturbation_draws(&mut prng, &specs);
    let accents = generate_accents(&mut prng, &params);
    let seed = anim_seed(&hash);
    Ok(
        IdenticonPlan {
            hash,
            size,
            palette,
            background: opts.background,
            animated: opts.animated,
            anim_seed: seed,
            params,
            specs,
            perturbations,
            accents,
        },
    )
}

/// Rendering is deterministic: for one input and one set of options there is one
/// plan, whatever produced it (so equal inputs give equal identicons).
pub proof fn lemma_plan_is_determined(input: &str, opts: RenderOptions, p: IdenticonPlan, q: IdenticonPlan)
    requires
        plan_matches(input, opts, p),
        plan_matches(input, opts, q),
    ensures
        p.hash@ == q.hash@,
        p.size == q.size,
        p.palette == q.palette,
        p.background == q.background,
        p.animated == q.animated,
        p.anim_seed == q.anim_seed,
        p.params == q.params,
        p.specs@ == q.specs@,
        p.perturbations@.len() == q.perturbations@.len(),
        forall|j: int| 0 <= j < p.perturbations@.len() ==> #[trigger] p.perturbations@[j]@ == q.perturbations@[j]@,
        p.accents@ == q.accents@,
{
    let seed = blake3_hash(input.spec_bytes());
    let params = params_from(seed, 0);
    lemma_stable_z_sort_unique(
        expanded_blobs(seed, params.symmetry, 8, params.blob_count as nat),
        p.specs@,
        q.specs@,
    );
    assert(p.accents@ =~= q.accents@);
}

proof fn lemma_contains_within(a: Seq<char>, b: Seq<char>, c: Seq<char>, needle: Seq<char>)
    requires
        contains(b, needle),
    ensures
        contains(a + b + c, needle),
{
    let k = choose|k: int| #[trigger] matches_at(b, needle, k);
    let w = a + b + c;
    assert(w.subrange(a.len() + k, a.len() + k + needle.len()) =~= b.subrange(k, k + needle.len()));
    assert(matches_at(w, needle, a.len() + k));
}

proof fn lemma_accents_animate(accents: Seq<Accent>, palette: Palette, n: nat)
    requires
        1 <= n <= accents.len(),
    ensures
        contains(accents_text(accents, palette, true, n), "<animate"@),
    decreases n,
{
    if n == 1 {
        reveal_strlit("<animate");
        let t = accent_text(palette, accents[0], 0, true);
        let head = "<circle cx=\""@ + tenths_text(accents[0].x as int) + "\" cy=\""@ + tenths_text(
            accents[0].y as int,
        ) + "\" r=\""@ + tenths_text(accents[0].r as int) + "\" fill=\""@
            + palette.colors[(accents[0].color_index % 5) as int]@ + "\" fill-opacity=\""@
            + tenths_text(accents[0].opacity as int) + "\""@;
        let tail = "><animate attributeName=\"r\" values=\""@ + tenths_text(accents[0].r as int) + ";"@
            + tenths_text(accents[0].r_pulse as int) + ";"@ + tenths_text(accents[0].r as int)
            + "\" dur=\"4s\" repeatCount=\"indefinite\"/></circle>"@;
        reveal_strlit("><animate attributeName=\"r\" values=\"");
        assert(tail.subrange(1, 9) =~= "<animate"@);
        assert(matches_at(tail, "<animate"@, 1));
        lemma_contains_within(head, tail, Seq::empty(), "<animate"@);
        assert(t =~= head + tail + Seq::<char>::empty());
        assert(accents_text(accents, palette, true, 0) == Seq::<char>::empty());
        assert(accents_text(accents, palette, true, 1) =~= Seq::<char>::empty() + t + Seq::<char>::empty());
        lemma_contains_within(Seq::empty(), t, Seq::empty(), "<animate"@);
    } else {
        lemma_accents_animate(accents, palette, (n - 1) as nat);
        let prev = accents_text(accents, palette, true, (n - 1) as nat);
        let last = accent_text(palette, accents[n - 1], n - 1, true);
        lemma_contains_within(Seq::empty(), prev, last, "<animate"@);
        assert(accents_text(accents, palette, true, n) =~= Seq::<char>::empty() + prev + last);
    }
}

/// An animated identicon with at least one accent dot carries an `<animate`
/// element (the first dot's pulse).
pub proof fn lemma_animated_document_animates(
    size: u32,
    palette: Palette,
    background: Option<BackgroundGradient>,
    anim_seed: u32,
    blobs: Seq<RenderedBlob>,
    accents: Seq<Accent>,
)
    requires
        accents.len() >= 1,
    ensures
        contains(document_text(size, palette, background, true, anim_seed, blobs, accents), "<animate"@),
{
    lemma_accents_animate(accents, palette, accents.len());
    let before = begin_text(size) + (match background {
        Some(bg) => background_gradient_text(palette, bg),
        None => Seq::empty(),
    }) + gradients_text(blobs, palette, true, anim_seed, blobs.len()) + "</defs>"@ + (
    match background {
        Some(_) => background_rect_text(),
        None => Seq::empty(),
    }) + paths_text(blobs, true, blobs.len());
    let acc = accents_text(accents, palette, true, accents.len());
    lemma_contains_within(before, acc, "</svg>"@, "<animate"@);
    assert(document_text(size, palette, background, true, anim_seed, blobs, accents) =~= before + acc + "</svg>"@);
}

/// Every identicon document opens with `<svg` and closes with `</svg>`.
pub proof fn lemma_document_frame(
    size: u32,
    palette: Palette,
    background: Option<BackgroundGradient>,
    animated: bool,
    anim_seed: u32,
    blobs: Seq<RenderedBlob>,
    accents: Seq<Accent>,
)
    ensures
        document_text(size, palette, background, animated, anim_seed, blobs, accents).take(4) == "<svg"@,
        ({
            let d = document_text(size, palette, background, animated, anim_seed, blobs, accents);
            d.subrange(d.len() - 6, d.len() as int) == "</svg>"@
        }),
{
    reveal_strlit("<svg");
    reveal_strlit("<svg xmlns=\"http://www.w3.org/2000/svg\" viewBox=\"0 0 ");
    reveal_strlit("</svg>");
    let d = document_text(size, palette, background, animated, anim_seed, blobs, accents);
    let open = "<svg xmlns=\"http://www.w3.org/2000/svg\" viewBox=\"0 0 "@;
    let rest = d.subrange(open.len() as int, d.len() as int);
    assert(d =~= open + rest);
    assert(d.take(4) =~= "<svg"@);
    let body = d.take(d.len() - 6);
    assert(d =~= body + "</svg>"@);
    assert(d.subrange(d.len() - 6, d.len() as int) =~= "</svg>"@);
}

} // verus!
