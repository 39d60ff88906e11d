use identicon_core::{palette_by_theme, Theme};

#[test]
fn elemental_themes_resolve() {
    for name in ["ciel", "terre", "mer", "feu", "monochrome"] {
        let theme = Theme::from_name(name).unwrap();
        assert_eq!(palette_by_theme(theme).name, name);
        assert_eq!(palette_by_theme(theme).colors.len(), 5);
    }
}

use identicon_core::{palette_by_index, palettes, PALETTE_COUNT};

#[test]
fn theme_names_ignore_ascii_case() {
    assert_eq!(Theme::from_name("AURORA"), Some(Theme::Aurora));
    assert_eq!(Theme::from_name("SynthWave"), Some(Theme::Synthwave));
    assert_eq!(Theme::from_name("aurora "), None);
    assert_eq!(Theme::from_name(""), None);
    assert_eq!(Theme::from_name("ciel-bleu"), None);
}

#[test]
fn every_theme_round_trips_through_its_palette_name() {
    let all = palettes();
    assert_eq!(all.len(), PALETTE_COUNT);
    for (i, p) in all.iter().enumerate() {
        let t = Theme::from_name(p.name).unwrap();
        assert_eq!(t.index(), i);
        assert_eq!(palette_by_theme(t), *p);
    }
    assert_eq!(Theme::Feu.index(), 11);
    assert_eq!(Theme::default(), Theme::Aurora);
}

#[test]
fn palette_positions_wrap() {
    assert_eq!(palette_by_index(12), palette_by_index(0));
    assert_eq!(palette_by_index(25).name, "sunset");
    assert_eq!(palette_by_index(usize::MAX).name, palettes()[usize::MAX % 12].name);
    assert_eq!(palette_by_index(3).bg_dark, "#2e3440");
}
