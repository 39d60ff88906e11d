//! SVG text for the blob renderer, written into one growing buffer.
use vstd::prelude::*;

use crate::blob::{palette_color, Accent, BackgroundGradient, BackgroundStyle, RenderedBlob};
use crate::palette::Palette;
use crate::text::{decimal, tenths_text, write_decimal, write_tenths};

verus! {

/// Opening tag of the document and of its definitions, for a square canvas of `size`.
pub open spec fn begin_text(size: u32) -> Seq<char> {
    "<svg xmlns=\"http://www.w3.org/2000/svg\" viewBox=\"0 0 "@ + decimal(size as nat) + " "@
        + decimal(size as nat) + "\" width=\""@ + decimal(size as nat) + "\" height=\""@
        + decimal(size as nat) + "\" role=\"img\" aria-hidden=\"true\"><defs>"@
}

/// One gradient stop; offset and opacity in tenths.
pub open spec fn stop_text(offset: int, color: Seq<char>, opacity: int) -> Seq<char> {
    "<stop offset=\""@ + tenths_text(offset) + "\" stop-color=\""@ + color
        + "\" stop-opacity=\""@ + tenths_text(opacity) + "\"/>"@
}

/// The background's two colours: light tone to first colour, or dark tone to third colour.
pub open spec fn background_colors(palette: Palette, style: BackgroundStyle) -> (Seq<char>, Seq<char>) {
    match style {
        BackgroundStyle::Light => (palette.bg_light@, palette.colors[0]@),
        BackgroundStyle::Dark => (palette.bg_dark@, palette.colors[2]@),
    }
}

/// The background's linear gradient, from full opacity to 0.35 (written `0.4`).
pub open spec fn background_gradient_text(palette: Palette, bg: BackgroundGradient) -> Seq<char> {
    let (start, end) = background_colors(palette, bg.style);
    "<linearGradient id=\"bg\" x1=\"0\" y1=\"0\" x2=\""@ + tenths_text(bg.x2 as int) + "\" y2=\""@
        + tenths_text(bg.y2 as int) + "\">"@ + stop_text(0, start, 10) + stop_text(10, end, 4)
        + "</linearGradient>"@
}

pub open spec fn background_rect_text() -> Seq<char> {
    "<rect width=\"100%\" height=\"100%\" fill=\"url(#bg)\"/>"@
}

/// Seconds of the linear-gradient sweep animation: 6 to 10, from the seed.
pub open spec fn sweep_seconds(anim_seed: u32) -> nat {
    (6 + anim_seed % 5) as nat
}

/// A blob's gradient, radial (stops at 0, 0.55, 1) or diagonal linear (stops at
/// 0, 0.5, 1, with a sweep animation when animated).
pub open spec fn blob_gradient_text(
    id: Seq<char>,
    blob: RenderedBlob,
    palette: Palette,
    animated: bool,
    anim_seed: u32,
) -> Seq<char> {
    let c0 = palette.colors[(blob.color_indices[0] % 5) as int]@;
    let c1 = palette.colors[(blob.color_indices[1] % 5) as int]@;
    let c2 = palette.colors[(blob.color_indices[2] % 5) as int]@;
    if blob.use_radial {
        "<radialGradient id=\""@ + id + "\" cx=\""@ + tenths_text(blob.cx as int) + "\" cy=\""@
            + tenths_text(blob.cy as int) + "\" r=\"0.5\">"@ + stop_text(0, c0, blob.opacity as int)
            + stop_text(6, c1, blob.mid_opacity as int) + stop_text(10, c2, 2) + "</radialGradient>"@
    } else {
        "<linearGradient id=\""@ + id + "\" x1=\"0\" y1=\"0\" x2=\"1\" y2=\"1\">"@ + stop_text(
            0,
            c0,
            blob.opacity as int,
        ) + stop_text(5, c1, blob.mid_opacity as int) + stop_text(10, c2, 2) + (if animated {
            "<animate attributeName=\"x1\" values=\"0;0.3;0\" dur=\""@ + decimal(sweep_seconds(anim_seed))
                + "s\" repeatCount=\"indefinite\"/>"@
        } else {
            Seq::<char>::empty()
        }) + "</linearGradient>"@
    }
}

/// A blob's outline filled with its gradient, breathing in opacity when animated.
pub open spec fn blob_path_text(grad_id: Seq<char>, path_d: Seq<char>, animated: bool) -> Seq<char> {
    "<path fill=\"url(#"@ + grad_id + ")\" d=\""@ + path_d + "\""@ + (if animated {
        " opacity=\"0.85\"><animate attributeName=\"opacity\" values=\"0.75;0.95;0.75\" dur=\"5s\" repeatCount=\"indefinite\"/></path>"@
    } else {
        "/>"@
    })
}

/// An accent dot; the first one pulses its radius when animated.
pub open spec fn accent_text(palette: Palette, accent: Accent, idx: int, animated: bool) -> Seq<char> {
    "<circle cx=\""@ + tenths_text(accent.x as int) + "\" cy=\""@ + tenths_text(accent.y as int)
        + "\" r=\""@ + tenths_text(accent.r as int) + "\" fill=\""@
        + palette.colors[(accent.color_index % 5) as int]@ + "\" fill-opacity=\""@ + tenths_text(
        accent.opacity as int,
    ) + "\""@ + (if animated && idx == 0 {
        "><animate attributeName=\"r\" values=\""@ + tenths_text(accent.r as int) + ";"@
            + tenths_text(accent.r_pulse as int) + ";"@ + tenths_text(accent.r as int)
            + "\" dur=\"4s\" repeatCount=\"indefinite\"/></circle>"@
    } else {
        "/>"@
    })
}

/// Writes the blob renderer's SVG document piece by piece.
pub struct SvgBuilder {
    out: String,
    animated: bool,
    anim_seed: u32,
}

impl View for SvgBuilder {
    type V = Seq<char>;

    /// The text written so far.
    closed spec fn view(&self) -> Seq<char> {
        self.out@
    }
}

impl SvgBuilder {
    /// Whether the document carries animations.
    pub closed spec fn is_animated(&self) -> bool {
        self.animated
    }

    /// The seed that picks the animation's timing.
    pub closed spec fn seed(&self) -> u32 {
        self.anim_seed
    }

    /// Same animation settings in both builders.
    pub open spec fn same_settings(&self, other: &SvgBuilder) -> bool {
        self.is_animated() == other.is_animated() && self.seed() == other.seed()
    }

    /// An empty document. `capacity` is a size hint for the buffer.
    pub fn new(capacity: usize, animated: bool, anim_seed: u32) -> (b: SvgBuilder)
        ensures
            b@ == Seq::<char>::empty(),
            b.is_animated() == animated,
            b.seed() == anim_seed,
    {
        let _ = capacity;
        SvgBuilder { out: String::new(), animated, anim_seed }
    }

    /// The document written so far.
    pub fn into_string(self) -> (s: String)
        ensures
            s@ == self@,
    {
        self.out
    }

    pub fn begin(&mut self, size: u32)
        ensures
            final(self)@ == old(self)@ + begin_text(size),
            final(self).same_settings(old(self)),
    {
        write_svg_open(&mut self.out, size);
    }

    pub fn close_defs(&mut self)
        ensures
            final(self)@ == old(self)@ + "</defs>"@,
            final(self).same_settings(old(self)),
    {
        self.out.push_str("</defs>");
    }

    pub fn finish(&mut self)
        ensures
            final(self)@ == old(self)@ + "</svg>"@,
            final(self).same_settings(old(self)),
    {
        self.out.push_str("</svg>");
    }

    /// The background's linear gradient, whose end point the caller gives in tenths.
    pub fn write_background_gradient(&mut self, palette: &Palette, bg: BackgroundGradient)
        ensures
            final(self)@ == old(self)@ + background_gradient_text(*palette, bg),
            final(self).same_settings(old(self)),
    {
        let (bg_start, bg_end) = match bg.style {
            BackgroundStyle::Light => (palette.bg_light, palette.colors[0]),
            BackgroundStyle::Dark => (palette.bg_dark, palette.colors[2]),
        };
        self.out.push_str("<linearGradient id=\"bg\" x1=\"0\" y1=\"0\" x2=\"");
        write_tenths(&mut self.out, bg.x2);
        self.out.push_str("\" y2=\"");
        write_tenths(&mut self.out, bg.y2);
        self.out.push_str("\">");
        write_simple_stop(&mut self.out, 0, bg_start, 10);
        write_simple_stop(&mut self.out, 10, bg_end, 4);
        self.out.push_str("</linearGradient>");
    }

    pub fn write_background_rect(&mut self)
        ensures
            final(self)@ == old(self)@ + background_rect_text(),
            final(self).same_settings(old(self)),
    {
        self.out.push_str("<rect width=\"100%\" height=\"100%\" fill=\"url(#bg)\"/>");
    }

    /// The gradient `id` of one blob.
    pub fn write_blob_gradient(&mut self, id: &str, blob: &RenderedBlob, palette: &Palette)
        ensures
            final(self)@ == old(self)@ + blob_gradient_text(
                id@,
                *blob,
                *palette,
                old(self).is_animated(),
                old(self).seed(),
            ),
            final(self).same_settings(old(self)),
    {
        let c0 = palette_color(palette, blob.color_indices[0]);
        let c1 = palette_color(palette, blob.color_indices[1]);
        let c2 = palette_color(palette, blob.color_indices[2]);
        if blob.use_radial {
            self.out.push_str("<radialGradient id=\"");
            self.out.push_str(id);
            self.out.push_str("\" cx=\"");
            write_tenths(&mut self.out, blob.cx);
            self.out.push_str("\" cy=\"");
            write_tenths(&mut self.out, blob.cy);
            self.out.push_str("\" r=\"0.5\">");
            write_simple_stop(&mut self.out, 0, c0, blob.opacity);
            write_simple_stop(&mut self.out, 6, c1, blob.mid_opacity);
            write_simple_stop(&mut self.out, 10, c2, 2);
            self.out.push_str("</radialGradient>");
        } else {
            self.out.push_str("<linearGradient id=\"");
            self.out.push_str(id);
            self.out.push_str("\" x1=\"0\" y1=\"0\" x2=\"1\" y2=\"1\">");
            write_simple_stop(&mut self.out, 0, c0, blob.opacity);
            write_simple_stop(&mut self.out, 5, c1, blob.mid_opacity);
            write_simple_stop(&mut self.out, 10, c2, 2);
            if self.animated {
                let dur: u32 = 6 + (self.anim_seed % 5);
                self.out.push_str("<animate attributeName=\"x1\" values=\"0;0.3;0\" dur=\"");
                write_u32(&mut self.out, dur);
                self.out.push_str("s\" repeatCount=\"indefinite\"/>");
            }
            self.out.push_str("</linearGradient>");
        }
    }

    /// A blob's outline, filled with the gradient `grad_id`.
    pub fn write_blob_path(&mut self, grad_id: &str, blob: &RenderedBlob)
        ensures
            final(self)@ == old(self)@ + blob_path_text(grad_id@, blob.path_d@, old(self).is_animated()),
            final(self).same_settings(old(self)),
    {
        proof {
            reveal_strlit("\"");
        }
        self.out.push_str("<path fill=\"url(#");
        self.out.push_str(grad_id);
        self.out.push_str(")\" d=\"");
        self.out.push_str(blob.path_d.as_str());
        self.out.push('"');
        if self.animated {
            self.out.push_str(
                " opacity=\"0.85\"><animate attributeName=\"opacity\" values=\"0.75;0.95;0.75\" dur=\"5s\" repeatCount=\"indefinite\"/></path>",
            );
        } else {
            self.out.push_str("/>");
        }
    }

    /// Accent dot number `idx`.
    pub fn write_accent(&mut self, palette: &Palette, accent: &Accent, idx: usize)
        ensures
            final(self)@ == old(self)@ + accent_text(*palette, *accent, idx as int, old(self).is_animated()),
            final(self).same_settings(old(self)),
    {
        proof {
            reveal_strlit("\"");
            reveal_strlit(";");
        }
        let color = palette_color(palette, accent.color_index);
        self.out.push_str("<circle cx=\"");
        write_tenths(&mut self.out, accent.x);
        self.out.push_str("\" cy=\"");
        write_tenths(&mut self.out, accent.y);
        self.out.push_str("\" r=\"");
        write_tenths(&mut self.out, accent.r);
        self.out.push_str("\" fill=\"");
        self.out.push_str(color);
        self.out.push_str("\" fill-opacity=\"");
        write_tenths(&mut self.out, accent.opacity);
        self.out.push('"');
        if self.animated && idx == 0 {
            self.out.push_str("><animate attributeName=\"r\" values=\"");
            write_tenths(&mut self.out, accent.r);
            self.out.push(';');
            write_tenths(&mut self.out, accent.r_pulse);
            self.out.push(';');
            write_tenths(&mut self.out, accent.r);
            self.out.push_str("\" dur=\"4s\" repeatCount=\"indefinite\"/></circle>");
        } else {
            self.out.push_str("/>");
        }
    }
}

/// Appends the opening tag of the document and of its definitions.
pub fn write_svg_open(out: &mut String, size: u32)
    ensures
        final(out)@ == old(out)@ + begin_text(size),
{
    proof {
        reveal_strlit(" ");
    }
    out.push_str("<svg xmlns=\"http://www.w3.org/2000/svg\" viewBox=\"0 0 ");
    write_u32(out, size);
    out.push(' ');
    write_u32(out, size);
    out.push_str("\" width=\"");
    write_u32(out, size);
    out.push_str("\" height=\"");
    write_u32(out, size);
    out.push_str("\" role=\"img\" aria-hidden=\"true\"><defs>");
}

/// Appends one gradient stop; offset and opacity in tenths.
pub fn write_simple_stop(out: &mut String, offset: i32, color: &str, opacity: i32)
    ensures
        final(out)@ == old(out)@ + stop_text(offset as int, color@, opacity as int),
{
    out.push_str("<stop offset=\"");
    write_tenths(out, offset);
    out.push_str("\" stop-color=\"");
    out.push_str(color);
    out.push_str("\" stop-opacity=\"");
    write_tenths(out, opacity);
    out.push_str("\"/>");
}

/// Appends the decimal spelling of `v`.
pub fn write_u32(out: &mut String, v: u32)
    ensures
        final(out)@ == old(out)@ + decimal(v as nat),
{
    write_decimal(out, v as u64);
}

/// The canvas size, held within 32..=1024.
pub fn clamp_size(size: u32) -> (s: u32)
    ensures
        s == if size < 32 {
            32
        } else if size > 1024 {
            1024
        } else {
            size
        },
{
    if size < 32 {
        32
    } else if size > 1024 {
        1024
    } else {
        size
    }
}

} // verus!
