//! When a blob identicon animates: its document holds `<animate` exactly when
//! it is rendered animated, provided that the traced outlines hold no `<`.
use vstd::prelude::*;

use crate::blob::{Accent, BackgroundGradient, RenderedBlob};
use crate::palette::{palette_at, Palette, PALETTE_COUNT};
use crate::render::{
    accents_text, document_text, gradients_text, grad_id, lemma_animated_document_animates, paths_text,
};
use crate::svg::{
    accent_text, background_colors, background_gradient_text, background_rect_text, begin_text,
    blob_gradient_text, blob_path_text, stop_text,
};
use crate::text::{contains, decimal, digit, matches_at, signed_decimal, tenths_text};

verus! {

/// No character of `s` is `<`.
pub open spec fn lt_free(s: Seq<char>) -> bool {
    forall|i: int| 0 <= i < s.len() ==> #[trigger] s[i] != '<'
}

/// Every `<` of `s` is followed, within `s`, by a character other than `a`:
/// `s` opens no tag whose name starts with `a`.
#[verifier::opaque]
pub open spec fn tags_plain(s: Seq<char>) -> bool {
    forall|i: int| 0 <= i < s.len() && #[trigger] s[i] == '<' ==> i + 1 < s.len() && s[i + 1] != 'a'
}

/// `tags_plain` from position `i` on, one position at a time.
pub open spec fn plain_from(s: Seq<char>, i: int) -> bool
    decreases s.len() - i,
{
    if i < 0 || i >= s.len() {
        true
    } else {
        (s[i] == '<' ==> i + 1 < s.len() && s[i + 1] != 'a') && plain_from(s, i + 1)
    }
}

/// `lt_free` from position `i` on, one position at a time.
pub open spec fn lt_free_from(s: Seq<char>, i: int) -> bool
    decreases s.len() - i,
{
    if i < 0 || i >= s.len() {
        true
    } else {
        s[i] != '<' && lt_free_from(s, i + 1)
    }
}

proof fn lemma_plain_from(s: Seq<char>, i: int)
    requires
        0 <= i <= s.len(),
        plain_from(s, i),
    ensures
        forall|j: int| i <= j < s.len() && #[trigger] s[j] == '<' ==> j + 1 < s.len() && s[j + 1] != 'a',
    decreases s.len() - i,
{
    if i < s.len() {
        lemma_plain_from(s, i + 1);
    }
}

/// A literal checked position by position has plain tags.
pub proof fn lemma_plain_literal(s: Seq<char>)
    requires
        plain_from(s, 0),
    ensures
        tags_plain(s),
{
    reveal(tags_plain);
    lemma_plain_from(s, 0);
}

proof fn lemma_lt_free_from(s: Seq<char>, i: int)
    requires
        0 <= i <= s.len(),
        lt_free_from(s, i),
    ensures
        forall|j: int| i <= j < s.len() ==> #[trigger] s[j] != '<',
    decreases s.len() - i,
{
    if i < s.len() {
        lemma_lt_free_from(s, i + 1);
    }
}

/// A literal checked position by position holds no `<`.
pub proof fn lemma_lt_free_literal(s: Seq<char>)
    requires
        lt_free_from(s, 0),
    ensures
        lt_free(s),
{
    lemma_lt_free_from(s, 0);
}

/// Text without `<` has plain tags.
pub proof fn lemma_lt_free_plain(s: Seq<char>)
    requires
        lt_free(s),
    ensures
        tags_plain(s),
{
    reveal(tags_plain);
    assert forall|i: int| 0 <= i < s.len() && #[trigger] s[i] == '<' implies i + 1 < s.len() && s[i + 1] != 'a' by {
        assert(s[i] != '<');
    }
}

/// Plain tags survive concatenation: each `<` is followed within its own part.
pub broadcast proof fn lemma_plain_cat(a: Seq<char>, b: Seq<char>)
    requires
        tags_plain(a),
        tags_plain(b),
    ensures
        #[trigger] tags_plain(a + b),
{
    reveal(tags_plain);
    let s = a + b;
    assert forall|i: int| 0 <= i < s.len() && #[trigger] s[i] == '<' implies i + 1 < s.len() && s[i + 1] != 'a' by {
        if i < a.len() {
            assert(a[i] == '<');
            assert(s[i + 1] == a[i + 1]);
        } else {
            assert(b[i - a.len()] == '<');
            assert(s[i + 1] == b[i - a.len() + 1]);
        }
    }
}

proof fn lemma_empty_plain()
    ensures
        tags_plain(Seq::<char>::empty()),
{
    reveal(tags_plain);
}

proof fn lemma_decimal_lt_free(n: nat)
    ensures
        lt_free(decimal(n)),
    decreases n,
{
    if n >= 10 {
        lemma_decimal_lt_free(n / 10);
        let d = decimal(n / 10);
        let s = d.push(digit((n % 10) as int));
        assert forall|i: int| 0 <= i < s.len() implies #[trigger] s[i] != '<' by {
            if i < d.len() {
                assert(s[i] == d[i]);
            }
        }
    }
}

/// Numbers are written without `<`.
pub proof fn lemma_numbers_plain(n: nat, t: int)
    ensures
        tags_plain(decimal(n)),
        tags_plain(tenths_text(t)),
{
    lemma_decimal_lt_free(n);
    lemma_lt_free_plain(decimal(n));
    let s = tenths_text(t);
    if t % 10 == 0 {
        lemma_decimal_lt_free((-(t / 10)) as nat);
        lemma_decimal_lt_free((t / 10) as nat);
        let x = signed_decimal(t / 10);
        assert forall|i: int| 0 <= i < x.len() implies #[trigger] x[i] != '<' by {
            if t / 10 < 0 {
                let d = decimal((-(t / 10)) as nat);
                if i > 0 {
                    assert(x[i] == d[i - 1]);
                }
            }
        }
    } else {
        let a: nat = if t < 0 { (-t) as nat } else { t as nat };
        lemma_decimal_lt_free(a / 10);
        let sign = if t < 0 { seq!['-'] } else { Seq::<char>::empty() };
        let d = decimal(a / 10);
        let tail = seq!['.', digit((a % 10) as int)];
        assert(s == sign + d + tail);
        assert forall|i: int| 0 <= i < s.len() implies #[trigger] s[i] != '<' by {
            if i < sign.len() {
            } else if i < sign.len() + d.len() {
                assert(s[i] == d[i - sign.len()]);
            } else {
                assert(s[i] == tail[i - sign.len() - d.len()]);
            }
        }
    }
    lemma_lt_free_plain(s);
}

/// The colours and tones of a palette hold no `<`.
pub open spec fn palette_lt_free(p: Palette) -> bool {
    &&& lt_free(p.bg_light@)
    &&& lt_free(p.bg_dark@)
    &&& forall|j: int| 0 <= j < 5 ==> lt_free(#[trigger] p.colors[j]@)
}

/// No palette colour or tone holds a `<`.
pub proof fn lemma_palettes_lt_free(i: int)
    requires
        0 <= i < PALETTE_COUNT,
    ensures
        palette_lt_free(palette_at(i)),
{
    reveal_with_fuel(lt_free_from, 8);
    let p = palette_at(i);
    if i == 0 {
        reveal_strlit("#e8f4f8");
        reveal_strlit("#0a1628");
        reveal_strlit("#00d4aa");
        reveal_strlit("#7b68ee");
        reveal_strlit("#ff6b9d");
        reveal_strlit("#ffd93d");
        reveal_strlit("#4ecdc4");
        lemma_lt_free_literal("#e8f4f8"@);
        lemma_lt_free_literal("#0a1628"@);
        lemma_lt_free_literal("#00d4aa"@);
        lemma_lt_free_literal("#7b68ee"@);
        lemma_lt_free_literal("#ff6b9d"@);
        lemma_lt_free_literal("#ffd93d"@);
        lemma_lt_free_literal("#4ecdc4"@);
    } else if i == 1 {
        reveal_strlit("#fff5eb");
        reveal_strlit("#1a0a14");
        reveal_strlit("#ff6b35");
        reveal_strlit("#f7931e");
        reveal_strlit("#ffcd3c");
        reveal_strlit("#c44569");
        reveal_strlit("#e55039");
        lemma_lt_free_literal("#fff5eb"@);
        lemma_lt_free_literal("#1a0a14"@);
        lemma_lt_free_literal("#ff6b35"@);
        lemma_lt_free_literal("#f7931e"@);
        lemma_lt_free_literal("#ffcd3c"@);
        lemma_lt_free_literal("#c44569"@);
        lemma_lt_free_literal("#e55039"@);
    } else if i == 2 {
        reveal_strlit("#f0e6ff");
        reveal_strlit("#0d0221");
        reveal_strlit("#ff00ff");
        reveal_strlit("#00ffff");
        reveal_strlit("#bf00ff");
        reveal_strlit("#ff1493");
        reveal_strlit("#7b2cbf");
        lemma_lt_free_literal("#f0e6ff"@);
        lemma_lt_free_literal("#0d0221"@);
        lemma_lt_free_literal("#ff00ff"@);
        lemma_lt_free_literal("#00ffff"@);
        lemma_lt_free_literal("#bf00ff"@);
        lemma_lt_free_literal("#ff1493"@);
        lemma_lt_free_literal("#7b2cbf"@);
    } else if i == 3 {
        reveal_strlit("#eceff4");
        reveal_strlit("#2e3440");
        reveal_strlit("#88c0d0");
        reveal_strlit("#81a1c1");
        reveal_strlit("#5e81ac");
        reveal_strlit("#b48ead");
        reveal_strlit("#a3be8c");
        lemma_lt_free_literal("#eceff4"@);
        lemma_lt_free_literal("#2e3440"@);
        lemma_lt_free_literal("#88c0d0"@);
        lemma_lt_free_literal("#81a1c1"@);
        lemma_lt_free_literal("#5e81ac"@);
        lemma_lt_free_literal("#b48ead"@);
        lemma_lt_free_literal("#a3be8c"@);
    } else if i == 4 {
        reveal_strlit("#f4f1ec");
        reveal_strlit("#101010");
        reveal_strlit("#f7f4ef");
        reveal_strlit("#c8c2b8");
        reveal_strlit("#6f6a63");
        reveal_strlit("#2c2a28");
        reveal_strlit("#8e8880");
        lemma_lt_free_literal("#f4f1ec"@);
        lemma_lt_free_literal("#101010"@);
        lemma_lt_free_literal("#f7f4ef"@);
        lemma_lt_free_literal("#c8c2b8"@);
        lemma_lt_free_literal("#6f6a63"@);
        lemma_lt_free_literal("#2c2a28"@);
        lemma_lt_free_literal("#8e8880"@);
    } else if i == 5 {
        reveal_strlit("#e6f7ff");
        reveal_strlit("#001a33");
        reveal_strlit("#0077b6");
        reveal_strlit("#00b4d8");
        reveal_strlit("#90e0ef");
        reveal_strlit("#023e8a");
        reveal_strlit("#48cae4");
        lemma_lt_free_literal("#e6f7ff"@);
        lemma_lt_free_literal("#001a33"@);
        lemma_lt_free_literal("#0077b6"@);
        lemma_lt_free_literal("#00b4d8"@);
        lemma_lt_free_literal("#90e0ef"@);
        lemma_lt_free_literal("#023e8a"@);
        lemma_lt_free_literal("#48cae4"@);
    } else if i == 6 {
        reveal_strlit("#f0fff0");
        reveal_strlit("#0a0a0a");
        reveal_strlit("#39ff14");
        reveal_strlit("#ff073a");
        reveal_strlit("#ffff00");
        reveal_strlit("#00ffff");
        reveal_strlit("#ff10f0");
        lemma_lt_free_literal("#f0fff0"@);
        lemma_lt_free_literal("#0a0a0a"@);
        lemma_lt_free_literal("#39ff14"@);
        lemma_lt_free_literal("#ff073a"@);
        lemma_lt_free_literal("#ffff00"@);
        lemma_lt_free_literal("#00ffff"@);
        lemma_lt_free_literal("#ff10f0"@);
    } else if i == 7 {
        reveal_strlit("#fffaf5");
        reveal_strlit("#2d2a32");
        reveal_strlit("#ffb5a7");
        reveal_strlit("#fcd5ce");
        reveal_strlit("#b8e0d2");
        reveal_strlit("#d4a5a5");
        reveal_strlit("#c9b1ff");
        lemma_lt_free_literal("#fffaf5"@);
        lemma_lt_free_literal("#2d2a32"@);
        lemma_lt_free_literal("#ffb5a7"@);
        lemma_lt_free_literal("#fcd5ce"@);
        lemma_lt_free_literal("#b8e0d2"@);
        lemma_lt_free_literal("#d4a5a5"@);
        lemma_lt_free_literal("#c9b1ff"@);
    } else if i == 8 {
        reveal_strlit("#f3f8ff");
        reveal_strlit("#07111f");
        reveal_strlit("#7ec8ff");
        reveal_strlit("#d7ecff");
        reveal_strlit("#f6c453");
        reveal_strlit("#3d7ec9");
        reveal_strlit("#eef6ff");
        lemma_lt_free_literal("#f3f8ff"@);
        lemma_lt_free_literal("#07111f"@);
        lemma_lt_free_literal("#7ec8ff"@);
        lemma_lt_free_literal("#d7ecff"@);
        lemma_lt_free_literal("#f6c453"@);
        lemma_lt_free_literal("#3d7ec9"@);
        lemma_lt_free_literal("#eef6ff"@);
    } else if i == 9 {
        reveal_strlit("#f7f1e6");
        reveal_strlit("#1a120c");
        reveal_strlit("#c46b3a");
        reveal_strlit("#e4c07a");
        reveal_strlit("#6e8b62");
        reveal_strlit("#8d3d2f");
        reveal_strlit("#a97848");
        lemma_lt_free_literal("#f7f1e6"@);
        lemma_lt_free_literal("#1a120c"@);
        lemma_lt_free_literal("#c46b3a"@);
        lemma_lt_free_literal("#e4c07a"@);
        lemma_lt_free_literal("#6e8b62"@);
        lemma_lt_free_literal("#8d3d2f"@);
        lemma_lt_free_literal("#a97848"@);
    } else if i == 10 {
        reveal_strlit("#e7f6f6");
        reveal_strlit("#02161c");
        reveal_strlit("#0f766e");
        reveal_strlit("#2dd4bf");
        reveal_strlit("#d8f6f3");
        reveal_strlit("#083344");
        reveal_strlit("#67e8f9");
        lemma_lt_free_literal("#e7f6f6"@);
        lemma_lt_free_literal("#02161c"@);
        lemma_lt_free_literal("#0f766e"@);
        lemma_lt_free_literal("#2dd4bf"@);
        lemma_lt_free_literal("#d8f6f3"@);
        lemma_lt_free_literal("#083344"@);
        lemma_lt_free_literal("#67e8f9"@);
    } else {
        reveal_strlit("#fff3ea");
        reveal_strlit("#1a0904");
        reveal_strlit("#ff4d00");
        reveal_strlit("#ffb703");
        reveal_strlit("#ffd60a");
        reveal_strlit("#9d0208");
        reveal_strlit("#ff8a3d");
        lemma_lt_free_literal("#fff3ea"@);
        lemma_lt_free_literal("#1a0904"@);
        lemma_lt_free_literal("#ff4d00"@);
        lemma_lt_free_literal("#ffb703"@);
        lemma_lt_free_literal("#ffd60a"@);
        lemma_lt_free_literal("#9d0208"@);
        lemma_lt_free_literal("#ff8a3d"@);
    }
    assert(lt_free(p.colors[0]@) && lt_free(p.colors[1]@) && lt_free(p.colors[2]@));
    assert(lt_free(p.colors[3]@) && lt_free(p.colors[4]@));
    assert forall|j: int| 0 <= j < 5 implies lt_free(#[trigger] p.colors[j]@) by {
        if j == 0 {
        } else if j == 1 {
        } else if j == 2 {
        } else if j == 3 {
        } else {
        }
    }
}


/// The fixed text of a still blob identicon has plain tags.
proof fn lemma_fixed_texts_plain()
    ensures
        tags_plain("<svg xmlns=\"http://www.w3.org/2000/svg\" viewBox=\"0 0 "@),
        tags_plain(" "@),
        tags_plain("\" width=\""@),
        tags_plain("\" height=\""@),
        tags_plain("\" role=\"img\" aria-hidden=\"true\"><defs>"@),
        tags_plain("<stop offset=\""@),
        tags_plain("\" stop-color=\""@),
        tags_plain("\" stop-opacity=\""@),
        tags_plain("\"/>"@),
        tags_plain("<linearGradient id=\"bg\" x1=\"0\" y1=\"0\" x2=\""@),
        tags_plain("\" y2=\""@),
        tags_plain("\">"@),
        tags_plain("</linearGradient>"@),
        tags_plain("<rect width=\"100%\" height=\"100%\" fill=\"url(#bg)\"/>"@),
        tags_plain("<radialGradient id=\""@),
        tags_plain("\" cx=\""@),
        tags_plain("\" cy=\""@),
        tags_plain("\" r=\"0.5\">"@),
        tags_plain("</radialGradient>"@),
        tags_plain("<linearGradient id=\""@),
        tags_plain("\" x1=\"0\" y1=\"0\" x2=\"1\" y2=\"1\">"@),
        tags_plain("<path fill=\"url(#"@),
        tags_plain(")\" d=\""@),
        tags_plain("\""@),
        tags_plain("/>"@),
        tags_plain("<circle cx=\""@),
        tags_plain("\" r=\""@),
        tags_plain("\" fill=\""@),
        tags_plain("\" fill-opacity=\""@),
        tags_plain("</defs>"@),
        tags_plain("</svg>"@),
{
    reveal_with_fuel(plain_from, 64);
    reveal_strlit("<svg xmlns=\"http://www.w3.org/2000/svg\" viewBox=\"0 0 ");
    reveal_strlit(" ");
    reveal_strlit("\" width=\"");
    reveal_strlit("\" height=\"");
    reveal_strlit("\" role=\"img\" aria-hidden=\"true\"><defs>");
    reveal_strlit("<stop offset=\"");
    reveal_strlit("\" stop-color=\"");
    reveal_strlit("\" stop-opacity=\"");
    reveal_strlit("\"/>");
    reveal_strlit("<linearGradient id=\"bg\" x1=\"0\" y1=\"0\" x2=\"");
    reveal_strlit("\" y2=\"");
    reveal_strlit("\">");
    reveal_strlit("</linearGradient>");
    reveal_strlit("<rect width=\"100%\" height=\"100%\" fill=\"url(#bg)\"/>");
    reveal_strlit("<radialGradient id=\"");
    reveal_strlit("\" cx=\"");
    reveal_strlit("\" cy=\"");
    reveal_strlit("\" r=\"0.5\">");
    reveal_strlit("</radialGradient>");
    reveal_strlit("<linearGradient id=\"");
    reveal_strlit("\" x1=\"0\" y1=\"0\" x2=\"1\" y2=\"1\">");
    reveal_strlit("<path fill=\"url(#");
    reveal_strlit(")\" d=\"");
    reveal_strlit("\"");
    reveal_strlit("/>");
    reveal_strlit("<circle cx=\"");
    reveal_strlit("\" r=\"");
    reveal_strlit("\" fill=\"");
    reveal_strlit("\" fill-opacity=\"");
    reveal_strlit("</defs>");
    reveal_strlit("</svg>");
    lemma_plain_literal("<svg xmlns=\"http://www.w3.org/2000/svg\" viewBox=\"0 0 "@);
    lemma_plain_literal(" "@);
    lemma_plain_literal("\" width=\""@);
    lemma_plain_literal("\" height=\""@);
    lemma_plain_literal("\" role=\"img\" aria-hidden=\"true\"><defs>"@);
    lemma_plain_literal("<stop offset=\""@);
    lemma_plain_literal("\" stop-color=\""@);
    lemma_plain_literal("\" stop-opacity=\""@);
    lemma_plain_literal("\"/>"@);
    lemma_plain_literal("<linearGradient id=\"bg\" x1=\"0\" y1=\"0\" x2=\""@);
    lemma_plain_literal("\" y2=\""@);
    lemma_plain_literal("\">"@);
    lemma_plain_literal("</linearGradient>"@);
    lemma_plain_literal("<rect width=\"100%\" height=\"100%\" fill=\"url(#bg)\"/>"@);
    lemma_plain_literal("<radialGradient id=\""@);
    lemma_plain_literal("\" cx=\""@);
    lemma_plain_literal("\" cy=\""@);
    lemma_plain_literal("\" r=\"0.5\">"@);
    lemma_plain_literal("</radialGradient>"@);
    lemma_plain_literal("<linearGradient id=\""@);
    lemma_plain_literal("\" x1=\"0\" y1=\"0\" x2=\"1\" y2=\"1\">"@);
    lemma_plain_literal("<path fill=\"url(#"@);
    lemma_plain_literal(")\" d=\""@);
    lemma_plain_literal("\""@);
    lemma_plain_literal("/>"@);
    lemma_plain_literal("<circle cx=\""@);
    lemma_plain_literal("\" r=\""@);
    lemma_plain_literal("\" fill=\""@);
    lemma_plain_literal("\" fill-opacity=\""@);
    lemma_plain_literal("</defs>"@);
    lemma_plain_literal("</svg>"@);
}


proof fn lemma_stop_plain(offset: int, color: Seq<char>, opacity: int)
    requires
        lt_free(color),
    ensures
        tags_plain(stop_text(offset, color, opacity)),
{
    broadcast use lemma_plain_cat;

    lemma_fixed_texts_plain();
    lemma_lt_free_plain(color);
    lemma_numbers_plain(0, offset);
    lemma_numbers_plain(0, opacity);
}

proof fn lemma_head_plain(size: u32, palette: Palette, background: Option<BackgroundGradient>)
    requires
        palette_lt_free(palette),
    ensures
        tags_plain(begin_text(size)),
        tags_plain(match background {
            Some(bg) => background_gradient_text(palette, bg),
            None => Seq::empty(),
        }),
        tags_plain(match background {
            Some(_) => background_rect_text(),
            None => Seq::empty(),
        }),
{
    broadcast use lemma_plain_cat;

    lemma_fixed_texts_plain();
    lemma_empty_plain();
    lemma_numbers_plain(size as nat, 0);
    if let Some(bg) = background {
        let (start, end) = background_colors(palette, bg.style);
        assert(palette.colors[0]@ == palette.colors[0int]@);
        assert(lt_free(palette.colors[0int]@) && lt_free(palette.colors[2int]@));
        lemma_stop_plain(0, start, 10);
        lemma_stop_plain(10, end, 4);
        lemma_numbers_plain(0, bg.x2 as int);
        lemma_numbers_plain(0, bg.y2 as int);
    }
}

proof fn lemma_id_plain(k: nat)
    ensures
        tags_plain(grad_id(k)),
{
    broadcast use lemma_plain_cat;

    lemma_lt_free_plain(seq!['g']);
    lemma_numbers_plain(k, 0);
}

proof fn lemma_gradients_plain(blobs: Seq<RenderedBlob>, palette: Palette, anim_seed: u32, n: nat)
    requires
        palette_lt_free(palette),
        n <= blobs.len(),
    ensures
        tags_plain(gradients_text(blobs, palette, false, anim_seed, n)),
    decreases n,
{
    broadcast use lemma_plain_cat;

    lemma_empty_plain();
    if n > 0 {
        let k = (n - 1) as nat;
        lemma_gradients_plain(blobs, palette, anim_seed, k);
        lemma_fixed_texts_plain();
        lemma_id_plain(k);
        let b = blobs[k as int];
        lemma_numbers_plain(0, b.cx as int);
        lemma_numbers_plain(0, b.cy as int);
        let i0 = (b.color_indices[0] % 5) as int;
        let i1 = (b.color_indices[1] % 5) as int;
        let i2 = (b.color_indices[2] % 5) as int;
        assert(lt_free(palette.colors[i0]@) && lt_free(palette.colors[i1]@) && lt_free(palette.colors[i2]@));
        lemma_stop_plain(0, palette.colors[i0]@, b.opacity as int);
        lemma_stop_plain(6, palette.colors[i1]@, b.mid_opacity as int);
        lemma_stop_plain(5, palette.colors[i1]@, b.mid_opacity as int);
        lemma_stop_plain(10, palette.colors[i2]@, 2);
        assert(tags_plain(blob_gradient_text(grad_id(k), b, palette, false, anim_seed)));
    }
}

proof fn lemma_paths_plain(blobs: Seq<RenderedBlob>, n: nat)
    requires
        n <= blobs.len(),
        forall|k: int| 0 <= k < blobs.len() ==> lt_free(#[trigger] blobs[k].path_d@),
    ensures
        tags_plain(paths_text(blobs, false, n)),
    decreases n,
{
    broadcast use lemma_plain_cat;

    lemma_empty_plain();
    if n > 0 {
        let k = (n - 1) as nat;
        lemma_paths_plain(blobs, k);
        lemma_fixed_texts_plain();
        lemma_id_plain(k);
        lemma_lt_free_plain(blobs[k as int].path_d@);
        assert(tags_plain(blob_path_text(grad_id(k), blobs[k as int].path_d@, false)));
    }
}

proof fn lemma_accents_plain(accents: Seq<Accent>, palette: Palette, n: nat)
    requires
        palette_lt_free(palette),
        n <= accents.len(),
    ensures
        tags_plain(accents_text(accents, palette, false, n)),
    decreases n,
{
    broadcast use lemma_plain_cat;

    lemma_empty_plain();
    if n > 0 {
        let k = (n - 1) as nat;
        lemma_accents_plain(accents, palette, k);
        lemma_fixed_texts_plain();
        let a = accents[k as int];
        lemma_numbers_plain(0, a.x as int);
        lemma_numbers_plain(0, a.y as int);
        lemma_numbers_plain(0, a.r as int);
        lemma_numbers_plain(0, a.opacity as int);
        let c = (a.color_index % 5) as int;
        assert(lt_free(palette.colors[c]@));
        lemma_lt_free_plain(palette.colors[c]@);
        assert(tags_plain(accent_text(palette, a, k as int, false)));
    }
}

/// A blob identicon animates exactly when it is rendered animated: animated,
/// with at least one accent dot, its document holds `<animate`; still, it
/// holds none, as long as the traced outlines and the palette hold no `<`.
pub proof fn lemma_document_animates_iff_animated(
    size: u32,
    palette: Palette,
    background: Option<BackgroundGradient>,
    animated: bool,
    anim_seed: u32,
    blobs: Seq<RenderedBlob>,
    accents: Seq<Accent>,
)
    requires
        palette_lt_free(palette),
        forall|k: int| 0 <= k < blobs.len() ==> lt_free(#[trigger] blobs[k].path_d@),
    ensures
        animated && accents.len() >= 1 ==> contains(
            document_text(size, palette, background, animated, anim_seed, blobs, accents),
            "<animate"@,
        ),
        !animated ==> !contains(
            document_text(size, palette, background, animated, anim_seed, blobs, accents),
            "<animate"@,
        ),
{
    if animated && accents.len() >= 1 {
        lemma_animated_document_animates(size, palette, background, anim_seed, blobs, accents);
    }
    if !animated {
        broadcast use lemma_plain_cat;

        lemma_fixed_texts_plain();
        lemma_head_plain(size, palette, background);
        lemma_gradients_plain(blobs, palette, anim_seed, blobs.len());
        lemma_paths_plain(blobs, blobs.len());
        lemma_accents_plain(accents, palette, accents.len());
        let d = document_text(size, palette, background, false, anim_seed, blobs, accents);
        assert(tags_plain(d));
        if contains(d, "<animate"@) {
            reveal_strlit("<animate");
            reveal(tags_plain);
            let k = choose|k: int| #[trigger] matches_at(d, "<animate"@, k);
            assert(d.subrange(k, k + 8)[0] == '<');
            assert(d.subrange(k, k + 8)[1] == 'a');
            assert(d[k] == '<');
        }
    }
}

} // verus!
