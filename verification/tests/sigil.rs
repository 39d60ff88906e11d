use identicon_core::prng::Prng;
use identicon_core::sigil::{BackgroundStyle, CenterGlyph, SigilParams};

#[test]
fn sigil_parameters_come_from_hash_and_draws() {
    let mut hash = [0u8; 32];
    hash[2] = 4;
    hash[3] = 200;
    hash[4] = 9;
    hash[5] = 1;
    hash[6] = 77;
    let mut prng = Prng::from_seed([3u8; 32]);
    let mut twin = Prng::from_seed([3u8; 32]);
    let p = SigilParams::from_hash_and_prng(&hash, &mut prng);
    assert_eq!(p.fold, 12);
    assert_eq!(p.palette_index, 200);
    assert_eq!(p.background_style, BackgroundStyle::Dark);
    assert_eq!(p.center_glyph, CenterGlyph::Triad);
    assert_eq!(p.rotation_byte, 77);
    assert_eq!(p.arc_layers, 2 + twin.next_u32() % 4);
    assert_eq!(p.orbit_rings, 1 + twin.next_u32() % 3);
    assert_eq!(p.nodes_per_ring, 3 + twin.next_u32() % 10);
    assert_eq!(p.stroke_draw, twin.next_u32());
    assert_eq!(prng.next_u32(), twin.next_u32());
}
