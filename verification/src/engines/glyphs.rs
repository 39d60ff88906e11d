//! A geometric stroke alphabet on a 4 x 6 grid (x in 0..=4, y in 0..=6, y grows
//! downwards). Glyphs are SVG path fragments meant to be drawn with a thick
//! round-capped stroke, so the result is portable and font-independent.
use vstd::prelude::*;

use crate::text::{is_alnum, to_upper, upper};

verus! {

/// The stroke path of an upper-case letter or a digit.
pub open spec fn glyph_of(c: char) -> Option<&'static str> {
    match c {
        'A' => Some("M0,6 L2,0 L4,6 M0.8,3.8 L3.2,3.8"),
        'B' => Some("M0,0 L0,6 M0,0 L2.5,0 Q4,0 4,1.5 Q4,3 2.5,3 L0,3 M2.5,3 Q4,3 4,4.5 Q4,6 2.5,6 L0,6"),
        'C' => Some("M4,1.2 Q4,0 2.8,0 L1.2,0 Q0,0 0,1.2 L0,4.8 Q0,6 1.2,6 L2.8,6 Q4,6 4,4.8"),
        'D' => Some("M0,0 L0,6 L2,6 Q4,6 4,4 L4,2 Q4,0 2,0 L0,0"),
        'E' => Some("M4,0 L0,0 L0,6 L4,6 M0,3 L3,3"),
        'F' => Some("M4,0 L0,0 L0,6 M0,3 L3,3"),
        'G' => Some("M4,1.2 Q4,0 2.8,0 L1.2,0 Q0,0 0,1.2 L0,4.8 Q0,6 1.2,6 L2.8,6 Q4,6 4,4.8 L4,3.2 L2.2,3.2"),
        'H' => Some("M0,0 L0,6 M4,0 L4,6 M0,3 L4,3"),
        'I' => Some("M2,0 L2,6 M0.8,0 L3.2,0 M0.8,6 L3.2,6"),
        'J' => Some("M4,0 L4,4.8 Q4,6 2.8,6 L1.2,6 Q0,6 0,4.8 L0,4"),
        'K' => Some("M0,0 L0,6 M4,0 L0,3.6 M1.4,2.5 L4,6"),
        'L' => Some("M0,0 L0,6 L4,6"),
        'M' => Some("M0,6 L0,0 L2,3.2 L4,0 L4,6"),
        'N' => Some("M0,6 L0,0 L4,6 L4,0"),
        'O' => Some("M2,0 Q0,0 0,2 L0,4 Q0,6 2,6 Q4,6 4,4 L4,2 Q4,0 2,0"),
        'P' => Some("M0,6 L0,0 L2.5,0 Q4,0 4,1.75 Q4,3.5 2.5,3.5 L0,3.5"),
        'Q' => Some("M2,0 Q0,0 0,2 L0,4 Q0,6 2,6 Q4,6 4,4 L4,2 Q4,0 2,0 M2.6,4.4 L4,6"),
        'R' => Some("M0,6 L0,0 L2.5,0 Q4,0 4,1.75 Q4,3.5 2.5,3.5 L0,3.5 M2,3.5 L4,6"),
        'S' => Some("M4,1.2 Q4,0 2.8,0 L1.2,0 Q0,0 0,1.5 Q0,3 1.5,3 L2.5,3 Q4,3 4,4.5 Q4,6 2.8,6 L1.2,6 Q0,6 0,4.8"),
        'T' => Some("M0,0 L4,0 M2,0 L2,6"),
        'U' => Some("M0,0 L0,4 Q0,6 2,6 Q4,6 4,4 L4,0"),
        'V' => Some("M0,0 L2,6 L4,0"),
        'W' => Some("M0,0 L1,6 L2,2.6 L3,6 L4,0"),
        'X' => Some("M0,0 L4,6 M4,0 L0,6"),
        'Y' => Some("M0,0 L2,3 L4,0 M2,3 L2,6"),
        'Z' => Some("M0,0 L4,0 L0,6 L4,6"),
        '0' => Some("M2,0 Q0,0 0,2 L0,4 Q0,6 2,6 Q4,6 4,4 L4,2 Q4,0 2,0 M1,4.6 L3,1.4"),
        '1' => Some("M0.8,1.2 L2,0 L2,6"),
        '2' => Some("M0,1.5 Q0,0 2,0 Q4,0 4,1.5 Q4,3 2,4 L0,6 L4,6"),
        '3' => Some("M0,0 L4,0 L2,2.5 Q4,2.5 4,4.25 Q4,6 2,6 Q0,6 0,5"),
        '4' => Some("M3,6 L3,0 L0,4 L4,4"),
        '5' => Some("M4,0 L0,0 L0,2.6 L2.5,2.6 Q4,2.6 4,4.3 Q4,6 2.5,6 Q1,6 0,5"),
        '6' => Some("M3.4,0 L1.2,2.8 Q0,3.8 0,4.5 Q0,6 2,6 Q4,6 4,4.5 Q4,3 2,3 Q0,3 0,4.5"),
        '7' => Some("M0,0 L4,0 L1.5,6"),
        '8' => Some("M2,3 Q0,3 0,1.5 Q0,0 2,0 Q4,0 4,1.5 Q4,3 2,3 Q0,3 0,4.5 Q0,6 2,6 Q4,6 4,4.5 Q4,3 2,3"),
        '9' => Some("M0.6,6 L2.8,3.2 Q4,2.2 4,1.5 Q4,0 2,0 Q0,0 0,1.5 Q0,3 2,3 Q4,3 4,1.5"),
        _ => None,
    }
}

/// The glyph of `ch`, looked up without regard to ASCII case.
pub fn glyph_path(ch: char) -> (g: Option<&'static str>)
    ensures
        g == glyph_of(upper(ch)),
{
    match to_upper(ch) {
        'A' => Some("M0,6 L2,0 L4,6 M0.8,3.8 L3.2,3.8"),
        'B' => Some("M0,0 L0,6 M0,0 L2.5,0 Q4,0 4,1.5 Q4,3 2.5,3 L0,3 M2.5,3 Q4,3 4,4.5 Q4,6 2.5,6 L0,6"),
        'C' => Some("M4,1.2 Q4,0 2.8,0 L1.2,0 Q0,0 0,1.2 L0,4.8 Q0,6 1.2,6 L2.8,6 Q4,6 4,4.8"),
        'D' => Some("M0,0 L0,6 L2,6 Q4,6 4,4 L4,2 Q4,0 2,0 L0,0"),
        'E' => Some("M4,0 L0,0 L0,6 L4,6 M0,3 L3,3"),
        'F' => Some("M4,0 L0,0 L0,6 M0,3 L3,3"),
        'G' => Some("M4,1.2 Q4,0 2.8,0 L1.2,0 Q0,0 0,1.2 L0,4.8 Q0,6 1.2,6 L2.8,6 Q4,6 4,4.8 L4,3.2 L2.2,3.2"),
        'H' => Some("M0,0 L0,6 M4,0 L4,6 M0,3 L4,3"),
        'I' => Some("M2,0 L2,6 M0.8,0 L3.2,0 M0.8,6 L3.2,6"),
        'J' => Some("M4,0 L4,4.8 Q4,6 2.8,6 L1.2,6 Q0,6 0,4.8 L0,4"),
        'K' => Some("M0,0 L0,6 M4,0 L0,3.6 M1.4,2.5 L4,6"),
        'L' => Some("M0,0 L0,6 L4,6"),
        'M' => Some("M0,6 L0,0 L2,3.2 L4,0 L4,6"),
        'N' => Some("M0,6 L0,0 L4,6 L4,0"),
        'O' => Some("M2,0 Q0,0 0,2 L0,4 Q0,6 2,6 Q4,6 4,4 L4,2 Q4,0 2,0"),
        'P' => Some("M0,6 L0,0 L2.5,0 Q4,0 4,1.75 Q4,3.5 2.5,3.5 L0,3.5"),
        'Q' => Some("M2,0 Q0,0 0,2 L0,4 Q0,6 2,6 Q4,6 4,4 L4,2 Q4,0 2,0 M2.6,4.4 L4,6"),
        'R' => Some("M0,6 L0,0 L2.5,0 Q4,0 4,1.75 Q4,3.5 2.5,3.5 L0,3.5 M2,3.5 L4,6"),
        'S' => Some("M4,1.2 Q4,0 2.8,0 L1.2,0 Q0,0 0,1.5 Q0,3 1.5,3 L2.5,3 Q4,3 4,4.5 Q4,6 2.8,6 L1.2,6 Q0,6 0,4.8"),
        'T' => Some("M0,0 L4,0 M2,0 L2,6"),
        'U' => Some("M0,0 L0,4 Q0,6 2,6 Q4,6 4,4 L4,0"),
        'V' => Some("M0,0 L2,6 L4,0"),
        'W' => Some("M0,0 L1,6 L2,2.6 L3,6 L4,0"),
        'X' => Some("M0,0 L4,6 M4,0 L0,6"),
        'Y' => Some("M0,0 L2,3 L4,0 M2,3 L2,6"),
        'Z' => Some("M0,0 L4,0 L0,6 L4,6"),
        '0' => Some("M2,0 Q0,0 0,2 L0,4 Q0,6 2,6 Q4,6 4,4 L4,2 Q4,0 2,0 M1,4.6 L3,1.4"),
        '1' => Some("M0.8,1.2 L2,0 L2,6"),
        '2' => Some("M0,1.5 Q0,0 2,0 Q4,0 4,1.5 Q4,3 2,4 L0,6 L4,6"),
        '3' => Some("M0,0 L4,0 L2,2.5 Q4,2.5 4,4.25 Q4,6 2,6 Q0,6 0,5"),
        '4' => Some("M3,6 L3,0 L0,4 L4,4"),
        '5' => Some("M4,0 L0,0 L0,2.6 L2.5,2.6 Q4,2.6 4,4.3 Q4,6 2.5,6 Q1,6 0,5"),
        '6' => Some("M3.4,0 L1.2,2.8 Q0,3.8 0,4.5 Q0,6 2,6 Q4,6 4,4.5 Q4,3 2,3 Q0,3 0,4.5"),
        '7' => Some("M0,0 L4,0 L1.5,6"),
        '8' => Some("M2,3 Q0,3 0,1.5 Q0,0 2,0 Q4,0 4,1.5 Q4,3 2,3 Q0,3 0,4.5 Q0,6 2,6 Q4,6 4,4.5 Q4,3 2,3"),
        '9' => Some("M0.6,6 L2.8,3.2 Q4,2.2 4,1.5 Q4,0 2,0 Q0,0 0,1.5 Q0,3 2,3 Q4,3 4,1.5"),
        _ => None,
    }
}

/// Exactly the ASCII letters (either case) and digits have a glyph.
pub proof fn lemma_glyphs_cover_alnum(c: char)
    ensures
        glyph_of(upper(c)) is Some <==> is_alnum(c),
{
}
/// The upper-case ASCII letters and the digits.
pub open spec fn is_upper_or_digit(c: char) -> bool {
    ('A' <= c && c <= 'Z') || ('0' <= c && c <= '9')
}

/// The character drawn by the strokes `s`, read back from the glyph table.
spec fn drawn_char(s: Seq<char>) -> char {
    if s == "M0,6 L2,0 L4,6 M0.8,3.8 L3.2,3.8"@ {
        'A'
    } else if s == "M0,0 L0,6 M0,0 L2.5,0 Q4,0 4,1.5 Q4,3 2.5,3 L0,3 M2.5,3 Q4,3 4,4.5 Q4,6 2.5,6 L0,6"@ {
        'B'
    } else if s == "M4,1.2 Q4,0 2.8,0 L1.2,0 Q0,0 0,1.2 L0,4.8 Q0,6 1.2,6 L2.8,6 Q4,6 4,4.8"@ {
        'C'
    } else if s == "M0,0 L0,6 L2,6 Q4,6 4,4 L4,2 Q4,0 2,0 L0,0"@ {
        'D'
    } else if s == "M4,0 L0,0 L0,6 L4,6 M0,3 L3,3"@ {
        'E'
    } else if s == "M4,0 L0,0 L0,6 M0,3 L3,3"@ {
        'F'
    } else if s == "M4,1.2 Q4,0 2.8,0 L1.2,0 Q0,0 0,1.2 L0,4.8 Q0,6 1.2,6 L2.8,6 Q4,6 4,4.8 L4,3.2 L2.2,3.2"@ {
        'G'
    } else if s == "M0,0 L0,6 M4,0 L4,6 M0,3 L4,3"@ {
        'H'
    } else if s == "M2,0 L2,6 M0.8,0 L3.2,0 M0.8,6 L3.2,6"@ {
        'I'
    } else if s == "M4,0 L4,4.8 Q4,6 2.8,6 L1.2,6 Q0,6 0,4.8 L0,4"@ {
        'J'
    } else if s == "M0,0 L0,6 M4,0 L0,3.6 M1.4,2.5 L4,6"@ {
        'K'
    } else if s == "M0,0 L0,6 L4,6"@ {
        'L'
    } else if s == "M0,6 L0,0 L2,3.2 L4,0 L4,6"@ {
        'M'
    } else if s == "M0,6 L0,0 L4,6 L4,0"@ {
        'N'
    } else if s == "M2,0 Q0,0 0,2 L0,4 Q0,6 2,6 Q4,6 4,4 L4,2 Q4,0 2,0"@ {
        'O'
    } else if s == "M0,6 L0,0 L2.5,0 Q4,0 4,1.75 Q4,3.5 2.5,3.5 L0,3.5"@ {
        'P'
    } else if s == "M2,0 Q0,0 0,2 L0,4 Q0,6 2,6 Q4,6 4,4 L4,2 Q4,0 2,0 M2.6,4.4 L4,6"@ {
        'Q'
    } else if s == "M0,6 L0,0 L2.5,0 Q4,0 4,1.75 Q4,3.5 2.5,3.5 L0,3.5 M2,3.5 L4,6"@ {
        'R'
    } else if s == "M4,1.2 Q4,0 2.8,0 L1.2,0 Q0,0 0,1.5 Q0,3 1.5,3 L2.5,3 Q4,3 4,4.5 Q4,6 2.8,6 L1.2,6 Q0,6 0,4.8"@ {
        'S'
    } else if s == "M0,0 L4,0 M2,0 L2,6"@ {
        'T'
    } else if s == "M0,0 L0,4 Q0,6 2,6 Q4,6 4,4 L4,0"@ {
        'U'
    } else if s == "M0,0 L2,6 L4,0"@ {
        'V'
    } else if s == "M0,0 L1,6 L2,2.6 L3,6 L4,0"@ {
        'W'
    } else if s == "M0,0 L4,6 M4,0 L0,6"@ {
        'X'
    } else if s == "M0,0 L2,3 L4,0 M2,3 L2,6"@ {
        'Y'
    } else if s == "M0,0 L4,0 L0,6 L4,6"@ {
        'Z'
    } else if s == "M2,0 Q0,0 0,2 L0,4 Q0,6 2,6 Q4,6 4,4 L4,2 Q4,0 2,0 M1,4.6 L3,1.4"@ {
        '0'
    } else if s == "M0.8,1.2 L2,0 L2,6"@ {
        '1'
    } else if s == "M0,1.5 Q0,0 2,0 Q4,0 4,1.5 Q4,3 2,4 L0,6 L4,6"@ {
        '2'
    } else if s == "M0,0 L4,0 L2,2.5 Q4,2.5 4,4.25 Q4,6 2,6 Q0,6 0,5"@ {
        '3'
    } else if s == "M3,6 L3,0 L0,4 L4,4"@ {
        '4'
    } else if s == "M4,0 L0,0 L0,2.6 L2.5,2.6 Q4,2.6 4,4.3 Q4,6 2.5,6 Q1,6 0,5"@ {
        '5'
    } else if s == "M3.4,0 L1.2,2.8 Q0,3.8 0,4.5 Q0,6 2,6 Q4,6 4,4.5 Q4,3 2,3 Q0,3 0,4.5"@ {
        '6'
    } else if s == "M0,0 L4,0 L1.5,6"@ {
        '7'
    } else if s == "M2,3 Q0,3 0,1.5 Q0,0 2,0 Q4,0 4,1.5 Q4,3 2,3 Q0,3 0,4.5 Q0,6 2,6 Q4,6 4,4.5 Q4,3 2,3"@ {
        '8'
    } else if s == "M0.6,6 L2.8,3.2 Q4,2.2 4,1.5 Q4,0 2,0 Q0,0 0,1.5 Q0,3 2,3 Q4,3 4,1.5"@ {
        '9'
    } else {
        ' '
    }
}

/// Every letter and digit is read back from its own glyph.
proof fn lemma_glyph_read_back(c: char)
    requires
        is_upper_or_digit(c),
    ensures
        glyph_of(c) is Some,
        drawn_char(glyph_of(c).unwrap()@) == c,
{
    reveal_strlit("M0,6 L2,0 L4,6 M0.8,3.8 L3.2,3.8");
    reveal_strlit("M0,0 L0,6 M0,0 L2.5,0 Q4,0 4,1.5 Q4,3 2.5,3 L0,3 M2.5,3 Q4,3 4,4.5 Q4,6 2.5,6 L0,6");
    reveal_strlit("M4,1.2 Q4,0 2.8,0 L1.2,0 Q0,0 0,1.2 L0,4.8 Q0,6 1.2,6 L2.8,6 Q4,6 4,4.8");
    reveal_strlit("M0,0 L0,6 L2,6 Q4,6 4,4 L4,2 Q4,0 2,0 L0,0");
    reveal_strlit("M4,0 L0,0 L0,6 L4,6 M0,3 L3,3");
    reveal_strlit("M4,0 L0,0 L0,6 M0,3 L3,3");
    reveal_strlit("M4,1.2 Q4,0 2.8,0 L1.2,0 Q0,0 0,1.2 L0,4.8 Q0,6 1.2,6 L2.8,6 Q4,6 4,4.8 L4,3.2 L2.2,3.2");
    reveal_strlit("M0,0 L0,6 M4,0 L4,6 M0,3 L4,3");
    reveal_strlit("M2,0 L2,6 M0.8,0 L3.2,0 M0.8,6 L3.2,6");
    reveal_strlit("M4,0 L4,4.8 Q4,6 2.8,6 L1.2,6 Q0,6 0,4.8 L0,4");
    reveal_strlit("M0,0 L0,6 M4,0 L0,3.6 M1.4,2.5 L4,6");
    reveal_strlit("M0,0 L0,6 L4,6");
    reveal_strlit("M0,6 L0,0 L2,3.2 L4,0 L4,6");
    reveal_strlit("M0,6 L0,0 L4,6 L4,0");
    reveal_strlit("M2,0 Q0,0 0,2 L0,4 Q0,6 2,6 Q4,6 4,4 L4,2 Q4,0 2,0");
    reveal_strlit("M0,6 L0,0 L2.5,0 Q4,0 4,1.75 Q4,3.5 2.5,3.5 L0,3.5");
    reveal_strlit("M2,0 Q0,0 0,2 L0,4 Q0,6 2,6 Q4,6 4,4 L4,2 Q4,0 2,0 M2.6,4.4 L4,6");
    reveal_strlit("M0,6 L0,0 L2.5,0 Q4,0 4,1.75 Q4,3.5 2.5,3.5 L0,3.5 M2,3.5 L4,6");
    reveal_strlit("M4,1.2 Q4,0 2.8,0 L1.2,0 Q0,0 0,1.5 Q0,3 1.5,3 L2.5,3 Q4,3 4,4.5 Q4,6 2.8,6 L1.2,6 Q0,6 0,4.8");
    reveal_strlit("M0,0 L4,0 M2,0 L2,6");
    reveal_strlit("M0,0 L0,4 Q0,6 2,6 Q4,6 4,4 L4,0");
    reveal_strlit("M0,0 L2,6 L4,0");
    reveal_strlit("M0,0 L1,6 L2,2.6 L3,6 L4,0");
    reveal_strlit("M0,0 L4,6 M4,0 L0,6");
    reveal_strlit("M0,0 L2,3 L4,0 M2,3 L2,6");
    reveal_strlit("M0,0 L4,0 L0,6 L4,6");
    reveal_strlit("M2,0 Q0,0 0,2 L0,4 Q0,6 2,6 Q4,6 4,4 L4,2 Q4,0 2,0 M1,4.6 L3,1.4");
    reveal_strlit("M0.8,1.2 L2,0 L2,6");
    reveal_strlit("M0,1.5 Q0,0 2,0 Q4,0 4,1.5 Q4,3 2,4 L0,6 L4,6");
    reveal_strlit("M0,0 L4,0 L2,2.5 Q4,2.5 4,4.25 Q4,6 2,6 Q0,6 0,5");
    reveal_strlit("M3,6 L3,0 L0,4 L4,4");
    reveal_strlit("M4,0 L0,0 L0,2.6 L2.5,2.6 Q4,2.6 4,4.3 Q4,6 2.5,6 Q1,6 0,5");
    reveal_strlit("M3.4,0 L1.2,2.8 Q0,3.8 0,4.5 Q0,6 2,6 Q4,6 4,4.5 Q4,3 2,3 Q0,3 0,4.5");
    reveal_strlit("M0,0 L4,0 L1.5,6");
    reveal_strlit("M2,3 Q0,3 0,1.5 Q0,0 2,0 Q4,0 4,1.5 Q4,3 2,3 Q0,3 0,4.5 Q0,6 2,6 Q4,6 4,4.5 Q4,3 2,3");
    reveal_strlit("M0.6,6 L2.8,3.2 Q4,2.2 4,1.5 Q4,0 2,0 Q0,0 0,1.5 Q0,3 2,3 Q4,3 4,1.5");
    assert("M0,6 L2,0 L4,6 M0.8,3.8 L3.2,3.8"@[3] != "M0,0 L0,4 Q0,6 2,6 Q4,6 4,4 L4,0"@[3]);
    assert("M4,0 L0,0 L0,6 L4,6 M0,3 L3,3"@[1] != "M0,0 L0,6 M4,0 L4,6 M0,3 L4,3"@[1]);
    assert("M4,0 L0,0 L0,6 M0,3 L3,3"@[1] != "M0,0 L2,3 L4,0 M2,3 L2,6"@[1]);
    assert("M4,0 L4,4.8 Q4,6 2.8,6 L1.2,6 Q0,6 0,4.8 L0,4"@[1] != "M0,1.5 Q0,0 2,0 Q4,0 4,1.5 Q4,3 2,4 L0,6 L4,6"@[1]);
    assert("M0,0 L0,6 L4,6"@[6] != "M0,0 L2,6 L4,0"@[6]);
    assert("M0,6 L0,0 L2,3.2 L4,0 L4,6"@[3] != "M0,0 L1,6 L2,2.6 L3,6 L4,0"@[3]);
    assert("M0,6 L0,0 L4,6 L4,0"@[3] != "M0,0 L4,0 M2,0 L2,6"@[3]);
    assert("M0,6 L0,0 L4,6 L4,0"@[3] != "M0,0 L4,6 M4,0 L0,6"@[3]);
    assert("M0,6 L0,0 L4,6 L4,0"@[3] != "M0,0 L4,0 L0,6 L4,6"@[3]);
    assert("M0,6 L0,0 L4,6 L4,0"@[1] != "M3,6 L3,0 L0,4 L4,4"@[1]);
    assert("M2,0 Q0,0 0,2 L0,4 Q0,6 2,6 Q4,6 4,4 L4,2 Q4,0 2,0"@[1] != "M0,6 L0,0 L2.5,0 Q4,0 4,1.75 Q4,3.5 2.5,3.5 L0,3.5"@[1]);
    assert("M2,0 Q0,0 0,2 L0,4 Q0,6 2,6 Q4,6 4,4 L4,2 Q4,0 2,0 M2.6,4.4 L4,6"@[52] != "M2,0 Q0,0 0,2 L0,4 Q0,6 2,6 Q4,6 4,4 L4,2 Q4,0 2,0 M1,4.6 L3,1.4"@[52]);
    assert("M0,0 L4,0 M2,0 L2,6"@[8] != "M0,0 L4,6 M4,0 L0,6"@[8]);
    assert("M0,0 L4,0 M2,0 L2,6"@[10] != "M0,0 L4,0 L0,6 L4,6"@[10]);
    assert("M0,0 L4,0 M2,0 L2,6"@[1] != "M3,6 L3,0 L0,4 L4,4"@[1]);
    assert("M0,0 L4,6 M4,0 L0,6"@[8] != "M0,0 L4,0 L0,6 L4,6"@[8]);
    assert("M0,0 L4,6 M4,0 L0,6"@[1] != "M3,6 L3,0 L0,4 L4,4"@[1]);
    assert("M0,0 L4,0 L0,6 L4,6"@[1] != "M3,6 L3,0 L0,4 L4,4"@[1]);
    assert("M3.4,0 L1.2,2.8 Q0,3.8 0,4.5 Q0,6 2,6 Q4,6 4,4.5 Q4,3 2,3 Q0,3 0,4.5"@[1] != "M0.6,6 L2.8,3.2 Q4,2.2 4,1.5 Q4,0 2,0 Q0,0 0,1.5 Q0,3 2,3 Q4,3 4,1.5"@[1]);
    if c == 'A' {
        assert(glyph_of(c).unwrap()@ == "M0,6 L2,0 L4,6 M0.8,3.8 L3.2,3.8"@);
    } else if c == 'B' {
        assert(glyph_of(c).unwrap()@ == "M0,0 L0,6 M0,0 L2.5,0 Q4,0 4,1.5 Q4,3 2.5,3 L0,3 M2.5,3 Q4,3 4,4.5 Q4,6 2.5,6 L0,6"@);
    } else if c == 'C' {
        assert(glyph_of(c).unwrap()@ == "M4,1.2 Q4,0 2.8,0 L1.2,0 Q0,0 0,1.2 L0,4.8 Q0,6 1.2,6 L2.8,6 Q4,6 4,4.8"@);
    } else if c == 'D' {
        assert(glyph_of(c).unwrap()@ == "M0,0 L0,6 L2,6 Q4,6 4,4 L4,2 Q4,0 2,0 L0,0"@);
    } else if c == 'E' {
        assert(glyph_of(c).unwrap()@ == "M4,0 L0,0 L0,6 L4,6 M0,3 L3,3"@);
    } else if c == 'F' {
        assert(glyph_of(c).unwrap()@ == "M4,0 L0,0 L0,6 M0,3 L3,3"@);
    } else if c == 'G' {
        assert(glyph_of(c).unwrap()@ == "M4,1.2 Q4,0 2.8,0 L1.2,0 Q0,0 0,1.2 L0,4.8 Q0,6 1.2,6 L2.8,6 Q4,6 4,4.8 L4,3.2 L2.2,3.2"@);
    } else if c == 'H' {
        assert(glyph_of(c).unwrap()@ == "M0,0 L0,6 M4,0 L4,6 M0,3 L4,3"@);
    } else if c == 'I' {
        assert(glyph_of(c).unwrap()@ == "M2,0 L2,6 M0.8,0 L3.2,0 M0.8,6 L3.2,6"@);
    } else if c == 'J' {
        assert(glyph_of(c).unwrap()@ == "M4,0 L4,4.8 Q4,6 2.8,6 L1.2,6 Q0,6 0,4.8 L0,4"@);
    } else if c == 'K' {
        assert(glyph_of(c).unwrap()@ == "M0,0 L0,6 M4,0 L0,3.6 M1.4,2.5 L4,6"@);
    } else if c == 'L' {
        assert(glyph_of(c).unwrap()@ == "M0,0 L0,6 L4,6"@);
    } else if c == 'M' {
        assert(glyph_of(c).unwrap()@ == "M0,6 L0,0 L2,3.2 L4,0 L4,6"@);
    } else if c == 'N' {
        assert(glyph_of(c).unwrap()@ == "M0,6 L0,0 L4,6 L4,0"@);
    } else if c == 'O' {
        assert(glyph_of(c).unwrap()@ == "M2,0 Q0,0 0,2 L0,4 Q0,6 2,6 Q4,6 4,4 L4,2 Q4,0 2,0"@);
    } else if c == 'P' {
        assert(glyph_of(c).unwrap()@ == "M0,6 L0,0 L2.5,0 Q4,0 4,1.75 Q4,3.5 2.5,3.5 L0,3.5"@);
    } else if c == 'Q' {
        assert(glyph_of(c).unwrap()@ == "M2,0 Q0,0 0,2 L0,4 Q0,6 2,6 Q4,6 4,4 L4,2 Q4,0 2,0 M2.6,4.4 L4,6"@);
    } else if c == 'R' {
        assert(glyph_of(c).unwrap()@ == "M0,6 L0,0 L2.5,0 Q4,0 4,1.75 Q4,3.5 2.5,3.5 L0,3.5 M2,3.5 L4,6"@);
    } else if c == 'S' {
        assert(glyph_of(c).unwrap()@ == "M4,1.2 Q4,0 2.8,0 L1.2,0 Q0,0 0,1.5 Q0,3 1.5,3 L2.5,3 Q4,3 4,4.5 Q4,6 2.8,6 L1.2,6 Q0,6 0,4.8"@);
    } else if c == 'T' {
        assert(glyph_of(c).unwrap()@ == "M0,0 L4,0 M2,0 L2,6"@);
    } else if c == 'U' {
        assert(glyph_of(c).unwrap()@ == "M0,0 L0,4 Q0,6 2,6 Q4,6 4,4 L4,0"@);
    } else if c == 'V' {
        assert(glyph_of(c).unwrap()@ == "M0,0 L2,6 L4,0"@);
    } else if c == 'W' {
        assert(glyph_of(c).unwrap()@ == "M0,0 L1,6 L2,2.6 L3,6 L4,0"@);
    } else if c == 'X' {
        assert(glyph_of(c).unwrap()@ == "M0,0 L4,6 M4,0 L0,6"@);
    } else if c == 'Y' {
        assert(glyph_of(c).unwrap()@ == "M0,0 L2,3 L4,0 M2,3 L2,6"@);
    } else if c == 'Z' {
        assert(glyph_of(c).unwrap()@ == "M0,0 L4,0 L0,6 L4,6"@);
    } else if c == '0' {
        assert(glyph_of(c).unwrap()@ == "M2,0 Q0,0 0,2 L0,4 Q0,6 2,6 Q4,6 4,4 L4,2 Q4,0 2,0 M1,4.6 L3,1.4"@);
    } else if c == '1' {
        assert(glyph_of(c).unwrap()@ == "M0.8,1.2 L2,0 L2,6"@);
    } else if c == '2' {
        assert(glyph_of(c).unwrap()@ == "M0,1.5 Q0,0 2,0 Q4,0 4,1.5 Q4,3 2,4 L0,6 L4,6"@);
    } else if c == '3' {
        assert(glyph_of(c).unwrap()@ == "M0,0 L4,0 L2,2.5 Q4,2.5 4,4.25 Q4,6 2,6 Q0,6 0,5"@);
    } else if c == '4' {
        assert(glyph_of(c).unwrap()@ == "M3,6 L3,0 L0,4 L4,4"@);
    } else if c == '5' {
        assert(glyph_of(c).unwrap()@ == "M4,0 L0,0 L0,2.6 L2.5,2.6 Q4,2.6 4,4.3 Q4,6 2.5,6 Q1,6 0,5"@);
    } else if c == '6' {
        assert(glyph_of(c).unwrap()@ == "M3.4,0 L1.2,2.8 Q0,3.8 0,4.5 Q0,6 2,6 Q4,6 4,4.5 Q4,3 2,3 Q0,3 0,4.5"@);
    } else if c == '7' {
        assert(glyph_of(c).unwrap()@ == "M0,0 L4,0 L1.5,6"@);
    } else if c == '8' {
        assert(glyph_of(c).unwrap()@ == "M2,3 Q0,3 0,1.5 Q0,0 2,0 Q4,0 4,1.5 Q4,3 2,3 Q0,3 0,4.5 Q0,6 2,6 Q4,6 4,4.5 Q4,3 2,3"@);
    } else if c == '9' {
        assert(glyph_of(c).unwrap()@ == "M0.6,6 L2.8,3.2 Q4,2.2 4,1.5 Q4,0 2,0 Q0,0 0,1.5 Q0,3 2,3 Q4,3 4,1.5"@);
    }
}

/// The lookup of `glyph_path` ignores case: a lower-case letter gets the glyph
/// of its capital, capitals and digits their own, and nothing else has one.
pub proof fn lemma_glyph_lookup(c: char)
    ensures
        'a' <= c && c <= 'z' ==> glyph_of(upper(c)) == glyph_of(((c as u32) - 32) as char)
            && glyph_of(upper(c)) is Some,
        is_upper_or_digit(c) ==> glyph_of(upper(c)) == glyph_of(c) && glyph_of(c) is Some,
        !('a' <= c && c <= 'z') && !is_upper_or_digit(c) ==> glyph_of(upper(c)) is None,
{
}

/// Different letters or digits are drawn with different strokes: no two
/// characters share a glyph.
pub proof fn lemma_glyphs_distinct(c1: char, c2: char)
    requires
        is_upper_or_digit(c1),
        is_upper_or_digit(c2),
        c1 != c2,
    ensures
        glyph_of(c1) is Some,
        glyph_of(c2) is Some,
        glyph_of(c1).unwrap()@ != glyph_of(c2).unwrap()@,
{
    lemma_glyph_read_back(c1);
    lemma_glyph_read_back(c2);
}

} // verus!
