//! The twelve colour palettes and the themes that name them.
use vstd::prelude::*;

use crate::text::{lower_seq, lowercase_chars, spells};

verus! {

/// A palette: a name, a light and a dark background, and five colours.
#[derive(Clone, Copy, Debug, PartialEq, Eq)]
pub struct Palette {
    pub name: &'static str,
    pub bg_light: &'static str,
    pub bg_dark: &'static str,
    pub colors: [&'static str; 5],
}

/// Number of palettes.
pub const PALETTE_COUNT: usize = 12;

/// The palette at position `i` (0..=11) of the palette table.
pub open spec fn palette_at(i: int) -> Palette {
    if i == 0 {
        Palette {
            name: "aurora",
            bg_light: "#e8f4f8",
            bg_dark: "#0a1628",
            colors: ["#00d4aa", "#7b68ee", "#ff6b9d", "#ffd93d", "#4ecdc4"],
        }
    } else if i == 1 {
        Palette {
            name: "sunset",
            bg_light: "#fff5eb",
            bg_dark: "#1a0a14",
            colors: ["#ff6b35", "#f7931e", "#ffcd3c", "#c44569", "#e55039"],
        }
    } else if i == 2 {
        Palette {
            name: "synthwave",
            bg_light: "#f0e6ff",
            bg_dark: "#0d0221",
            colors: ["#ff00ff", "#00ffff", "#bf00ff", "#ff1493", "#7b2cbf"],
        }
    } else if i == 3 {
        Palette {
            name: "nord",
            bg_light: "#eceff4",
            bg_dark: "#2e3440",
            colors: ["#88c0d0", "#81a1c1", "#5e81ac", "#b48ead", "#a3be8c"],
        }
    } else if i == 4 {
        Palette {
            name: "monochrome",
            bg_light: "#f4f1ec",
            bg_dark: "#101010",
            colors: ["#f7f4ef", "#c8c2b8", "#6f6a63", "#2c2a28", "#8e8880"],
        }
    } else if i == 5 {
        Palette {
            name: "oceanic",
            bg_light: "#e6f7ff",
            bg_dark: "#001a33",
            colors: ["#0077b6", "#00b4d8", "#90e0ef", "#023e8a", "#48cae4"],
        }
    } else if i == 6 {
        Palette {
            name: "neon",
            bg_light: "#f0fff0",
            bg_dark: "#0a0a0a",
            colors: ["#39ff14", "#ff073a", "#ffff00", "#00ffff", "#ff10f0"],
        }
    } else if i == 7 {
        Palette {
            name: "pastel",
            bg_light: "#fffaf5",
            bg_dark: "#2d2a32",
            colors: ["#ffb5a7", "#fcd5ce", "#b8e0d2", "#d4a5a5", "#c9b1ff"],
        }
    } else if i == 8 {
        Palette {
            name: "ciel",
            bg_light: "#f3f8ff",
            bg_dark: "#07111f",
            colors: ["#7ec8ff", "#d7ecff", "#f6c453", "#3d7ec9", "#eef6ff"],
        }
    } else if i == 9 {
        Palette {
            name: "terre",
            bg_light: "#f7f1e6",
            bg_dark: "#1a120c",
            colors: ["#c46b3a", "#e4c07a", "#6e8b62", "#8d3d2f", "#a97848"],
        }
    } else if i == 10 {
        Palette {
            name: "mer",
            bg_light: "#e7f6f6",
            bg_dark: "#02161c",
            colors: ["#0f766e", "#2dd4bf", "#d8f6f3", "#083344", "#67e8f9"],
        }
    } else {
        Palette {
            name: "feu",
            bg_light: "#fff3ea",
            bg_dark: "#1a0904",
            colors: ["#ff4d00", "#ffb703", "#ffd60a", "#9d0208", "#ff8a3d"],
        }
    }
}

/// The palette table, in order.
pub fn palettes() -> (v: Vec<Palette>)
    ensures
        v@.len() == PALETTE_COUNT,
        forall|i: int| 0 <= i < PALETTE_COUNT ==> #[trigger] v@[i] == palette_at(i),
{
    let mut v: Vec<Palette> = Vec::new();
    let mut i: usize = 0;
    while i < PALETTE_COUNT
        invariant
            i <= PALETTE_COUNT,
            v@.len() == i,
            forall|j: int| 0 <= j < i ==> #[trigger] v@[j] == palette_at(j),
        decreases PALETTE_COUNT - i,
    {
        v.push(palette_by_index(i));
        i = i + 1;
    }
    v
}

/// The palette at `index` modulo the number of palettes.
pub fn palette_by_index(index: usize) -> (p: Palette)
    ensures
        p == palette_at((index % PALETTE_COUNT) as int),
{
    match index % PALETTE_COUNT {
        0 => Palette {
            name: "aurora",
            bg_light: "#e8f4f8",
            bg_dark: "#0a1628",
            colors: ["#00d4aa", "#7b68ee", "#ff6b9d", "#ffd93d", "#4ecdc4"],
        },
        1 => Palette {
            name: "sunset",
            bg_light: "#fff5eb",
            bg_dark: "#1a0a14",
            colors: ["#ff6b35", "#f7931e", "#ffcd3c", "#c44569", "#e55039"],
        },
        2 => Palette {
            name: "synthwave",
            bg_light: "#f0e6ff",
            bg_dark: "#0d0221",
            colors: ["#ff00ff", "#00ffff", "#bf00ff", "#ff1493", "#7b2cbf"],
        },
        3 => Palette {
            name: "nord",
            bg_light: "#eceff4",
            bg_dark: "#2e3440",
            colors: ["#88c0d0", "#81a1c1", "#5e81ac", "#b48ead", "#a3be8c"],
        },
        4 => Palette {
            name: "monochrome",
            bg_light: "#f4f1ec",
            bg_dark: "#101010",
            colors: ["#f7f4ef", "#c8c2b8", "#6f6a63", "#2c2a28", "#8e8880"],
        },
        5 => Palette {
            name: "oceanic",
            bg_light: "#e6f7ff",
            bg_dark: "#001a33",
            colors: ["#0077b6", "#00b4d8", "#90e0ef", "#023e8a", "#48cae4"],
        },
        6 => Palette {
            name: "neon",
            bg_light: "#f0fff0",
            bg_dark: "#0a0a0a",
            colors: ["#39ff14", "#ff073a", "#ffff00", "#00ffff", "#ff10f0"],
        },
        7 => Palette {
            name: "pastel",
            bg_light: "#fffaf5",
            bg_dark: "#2d2a32",
            colors: ["#ffb5a7", "#fcd5ce", "#b8e0d2", "#d4a5a5", "#c9b1ff"],
        },
        8 => Palette {
            name: "ciel",
            bg_light: "#f3f8ff",
            bg_dark: "#07111f",
            colors: ["#7ec8ff", "#d7ecff", "#f6c453", "#3d7ec9", "#eef6ff"],
        },
        9 => Palette {
            name: "terre",
            bg_light: "#f7f1e6",
            bg_dark: "#1a120c",
            colors: ["#c46b3a", "#e4c07a", "#6e8b62", "#8d3d2f", "#a97848"],
        },
        10 => Palette {
            name: "mer",
            bg_light: "#e7f6f6",
            bg_dark: "#02161c",
            colors: ["#0f766e", "#2dd4bf", "#d8f6f3", "#083344", "#67e8f9"],
        },
        _ => Palette {
            name: "feu",
            bg_light: "#fff3ea",
            bg_dark: "#1a0904",
            colors: ["#ff4d00", "#ffb703", "#ffd60a", "#9d0208", "#ff8a3d"],
        },
    }
}

/// The palette of a theme.
pub fn palette_by_theme(theme: Theme) -> (p: Palette)
    ensures
        p == palette_at(theme.spec_index()),
{
    palette_by_index(theme.index())
}

/// A named palette choice; each theme stands for the palette of the same name.
#[derive(Clone, Copy, Debug, PartialEq, Eq, Structural)]
pub enum Theme {
    Aurora,
    Sunset,
    Synthwave,
    Nord,
    Monochrome,
    Oceanic,
    Neon,
    Pastel,
    Ciel,
    Terre,
    Mer,
    Feu,
}

impl Default for Theme {
    fn default() -> (t: Theme)
        ensures
            t == Theme::Aurora,
    {
        Theme::Aurora
    }
}

/// The theme that a lower-case name denotes, if any.
pub open spec fn theme_named(name: Seq<char>) -> Option<Theme> {
    if name == "aurora"@ {
        Some(Theme::Aurora)
    } else if name == "sunset"@ {
        Some(Theme::Sunset)
    } else if name == "synthwave"@ {
        Some(Theme::Synthwave)
    } else if name == "nord"@ {
        Some(Theme::Nord)
    } else if name == "monochrome"@ {
        Some(Theme::Monochrome)
    } else if name == "oceanic"@ {
        Some(Theme::Oceanic)
    } else if name == "neon"@ {
        Some(Theme::Neon)
    } else if name == "pastel"@ {
        Some(Theme::Pastel)
    } else if name == "ciel"@ {
        Some(Theme::Ciel)
    } else if name == "terre"@ {
        Some(Theme::Terre)
    } else if name == "mer"@ {
        Some(Theme::Mer)
    } else if name == "feu"@ {
        Some(Theme::Feu)
    } else {
        None
    }
}

impl Theme {
    /// Position of the theme's palette in the palette table.
    pub open spec fn spec_index(self) -> int {
        match self {
            Theme::Aurora => 0,
            Theme::Sunset => 1,
            Theme::Synthwave => 2,
            Theme::Nord => 3,
            Theme::Monochrome => 4,
            Theme::Oceanic => 5,
            Theme::Neon => 6,
            Theme::Pastel => 7,
            Theme::Ciel => 8,
            Theme::Terre => 9,
            Theme::Mer => 10,
            Theme::Feu => 11,
        }
    }

    /// The theme whose name matches `name` without regard to ASCII case.
    pub fn from_name(name: &str) -> (t: Option<Theme>)
        ensures
            t == theme_named(lower_seq(name@)),
    {
        let lower = lowercase_chars(name);
        if spells(&lower, "aurora") {
            return Some(Theme::Aurora);
        }
        if spells(&lower, "sunset") {
            return Some(Theme::Sunset);
        }
        if spells(&lower, "synthwave") {
            return Some(Theme::Synthwave);
        }
        if spells(&lower, "nord") {
            return Some(Theme::Nord);
        }
        if spells(&lower, "monochrome") {
            return Some(Theme::Monochrome);
        }
        if spells(&lower, "oceanic") {
            return Some(Theme::Oceanic);
        }
        if spells(&lower, "neon") {
            return Some(Theme::Neon);
        }
        if spells(&lower, "pastel") {
            return Some(Theme::Pastel);
        }
        if spells(&lower, "ciel") {
            return Some(Theme::Ciel);
        }
        if spells(&lower, "terre") {
            return Some(Theme::Terre);
        }
        if spells(&lower, "mer") {
            return Some(Theme::Mer);
        }
        if spells(&lower, "feu") {
            return Some(Theme::Feu);
        }
        None
    }

    /// Position of the theme's palette in the palette table.
    pub fn index(self) -> (i: usize)
        ensures
            i == self.spec_index(),
            i < PALETTE_COUNT,
    {
        match self {
            Theme::Aurora => 0,
            Theme::Sunset => 1,
            Theme::Synthwave => 2,
            Theme::Nord => 3,
            Theme::Monochrome => 4,
            Theme::Oceanic => 5,
            Theme::Neon => 6,
            Theme::Pastel => 7,
            Theme::Ciel => 8,
            Theme::Terre => 9,
            Theme::Mer => 10,
            Theme::Feu => 11,
        }
    }
}

/// Every theme is found again from the name of its palette: `from_name` applied to
/// `palette_by_theme(t).name` gives back `t`.
pub proof fn lemma_theme_name_round_trip(t: Theme)
    ensures
        theme_named(lower_seq(palette_at(t.spec_index()).name@)) == Some(t),
{
    reveal_strlit("aurora");
    reveal_strlit("sunset");
    reveal_strlit("synthwave");
    reveal_strlit("nord");
    reveal_strlit("monochrome");
    reveal_strlit("oceanic");
    reveal_strlit("neon");
    reveal_strlit("pastel");
    reveal_strlit("ciel");
    reveal_strlit("terre");
    reveal_strlit("mer");
    reveal_strlit("feu");
    assert("aurora"@.len() == 6 && "aurora"@[0] == 'a' && "aurora"@[1] == 'u');
    assert("sunset"@.len() == 6 && "sunset"@[0] == 's' && "sunset"@[1] == 'u');
    assert("synthwave"@.len() == 9 && "synthwave"@[0] == 's' && "synthwave"@[1] == 'y');
    assert("nord"@.len() == 4 && "nord"@[0] == 'n' && "nord"@[1] == 'o');
    assert("monochrome"@.len() == 10 && "monochrome"@[0] == 'm' && "monochrome"@[1] == 'o');
    assert("oceanic"@.len() == 7 && "oceanic"@[0] == 'o' && "oceanic"@[1] == 'c');
    assert("neon"@.len() == 4 && "neon"@[0] == 'n' && "neon"@[1] == 'e');
    assert("pastel"@.len() == 6 && "pastel"@[0] == 'p' && "pastel"@[1] == 'a');
    assert("ciel"@.len() == 4 && "ciel"@[0] == 'c' && "ciel"@[1] == 'i');
    assert("terre"@.len() == 5 && "terre"@[0] == 't' && "terre"@[1] == 'e');
    assert("mer"@.len() == 3 && "mer"@[0] == 'm' && "mer"@[1] == 'e');
    assert("feu"@.len() == 3 && "feu"@[0] == 'f' && "feu"@[1] == 'e');
    let n = palette_at(t.spec_index()).name@;
    assert(lower_seq(n) =~= n);
}

/// A name that `from_name` accepts is, once lower-cased, the name of the palette
/// of the theme it gives.
pub proof fn lemma_theme_named_is_palette_name(name: Seq<char>)
    ensures
        theme_named(name) matches Some(t) ==> name == palette_at(t.spec_index()).name@,
{
}

} // verus!
