use identicon_core::engines::common::Contour;
use identicon_core::engines::constellation::{self, Topology};
use identicon_core::engines::crest::{self, Charge, Partition};
use identicon_core::engines::kaleido;
use identicon_core::engines::monogram::{self, Motif};
use identicon_core::engines::ribbon;
use identicon_core::engines::voronoi::{self, VoronoiSymmetry};
use identicon_core::engines::Ctx;
use identicon_core::palette_by_index;

fn sample_ctx() -> Ctx {
    let mut hash = [0u8; 32];
    hash[..6].copy_from_slice(&[7, 9, 4, 23, 1, 8]);
    Ctx::new(256, &palette_by_index(0), &hash, false, true)
}

#[test]
fn crest_traits_follow_their_bytes() {
    let t = crest::traits(&sample_ctx());
    assert_eq!(t.contour, Contour::Hexagon);
    assert_eq!(t.partition, Partition::Chevron);
    assert_eq!(t.charge, Charge::Chevron);
    // seed 23 + 256 * 1 = 279
    assert_eq!(t.colors, [4, 3, 1]);
    assert!(!t.triple);
}

#[test]
fn constellation_traits_follow_their_bytes() {
    let t = constellation::traits(&sample_ctx());
    assert_eq!(t.count, 7);
    assert_eq!(t.topology, Topology::Chain);
    assert_eq!(t.principal, 4);
    assert_eq!(t.colors, [4, 3, 1]);
    assert_eq!(t.orbit, 2);
}

#[test]
fn kaleido_traits_follow_their_bytes() {
    let t = kaleido::traits(&sample_ctx());
    assert_eq!(t.folds, 5);
    assert!(!t.mirror);
    // seed 4 + 256 * 23 = 5892
    assert_eq!(t.colors, [2, 3, 0]);
    assert!(t.two_layers);
}

#[test]
fn ribbon_traits_follow_their_bytes() {
    let t = ribbon::traits(&sample_ctx());
    assert_eq!(t.ribbon_count, 2);
    assert_eq!(t.frequencies, (3, 5));
    assert_eq!(t.color_pairs, [(2, 3), (3, 0), (0, 2)]);
}

#[test]
fn voronoi_traits_follow_their_bytes() {
    let t = voronoi::traits(&sample_ctx());
    assert_eq!(t.symmetry, VoronoiSymmetry::Rot4);
    assert_eq!(t.contour, Contour::RoundedSquare);
    assert_eq!(t.base_count, 5);
    assert_eq!(t.dominant, 3);
}

#[test]
fn monogram_traits_follow_their_bytes() {
    let t = monogram::traits(&sample_ctx());
    assert_eq!(t.motif, Motif::Split);
    assert_eq!(t.contour, Contour::RoundedSquare);
    assert_eq!(t.colors, [2, 3, 0]);
}

#[test]
fn principal_star_stays_below_the_star_count() {
    for b0 in 0..=255u8 {
        for b2 in [0u8, 6, 7, 8, 200, 255] {
            let mut hash = [0u8; 32];
            hash[0] = b0;
            hash[2] = b2;
            let ctx = Ctx::new(64, &palette_by_index(3), &hash, false, false);
            let t = constellation::traits(&ctx);
            assert!((5..=9).contains(&t.count));
            assert!(t.principal < t.count);
        }
    }
}
