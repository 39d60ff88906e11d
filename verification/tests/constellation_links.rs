use identicon_core::engines::constellation::{link, Topology, F32_MAX_KEY};

/// Squared distances between points on a line, as order keys.
fn line_keys(xs: &[i64]) -> Vec<Vec<u32>> {
    xs.iter()
        .map(|a| xs.iter().map(|b| ((a - b) * (a - b)) as u32).collect())
        .collect()
}

#[test]
fn hub_joins_the_principal_star_to_every_other() {
    let keys = line_keys(&[0, 10, 3, 7]);
    assert_eq!(link(&keys, Topology::Hub, 0), vec![(0, 1), (0, 2), (0, 3)]);
    assert_eq!(link(&keys, Topology::Hub, 2), vec![(2, 0), (2, 1), (2, 3)]);
}

#[test]
fn tree_grows_by_the_shortest_link_out() {
    let keys = line_keys(&[0, 10, 3, 7]);
    assert_eq!(link(&keys, Topology::Tree, 0), vec![(0, 2), (2, 3), (3, 1)]);
    assert_eq!(link(&keys, Topology::Tree, 1), vec![(1, 3), (3, 2), (2, 0)]);
}

#[test]
fn chain_walks_to_the_nearest_unvisited_star() {
    let keys = line_keys(&[0, 10, 3, 7]);
    assert_eq!(link(&keys, Topology::Chain, 0), vec![(0, 2), (2, 3), (3, 1)]);
    assert_eq!(link(&keys, Topology::Chain, 3), vec![(3, 1), (1, 2), (2, 0)]);
}

#[test]
fn ties_go_to_the_first_star() {
    let keys = line_keys(&[0, 5, -5]);
    assert_eq!(link(&keys, Topology::Tree, 0), vec![(0, 1), (0, 2)]);
    assert_eq!(link(&keys, Topology::Chain, 0), vec![(0, 1), (1, 2)]);
}

#[test]
fn one_star_has_no_links() {
    let keys = line_keys(&[4]);
    assert!(link(&keys, Topology::Tree, 0).is_empty());
    assert!(link(&keys, Topology::Chain, 0).is_empty());
    assert!(link(&keys, Topology::Hub, 0).is_empty());
}

#[test]
fn tree_without_a_finite_link_falls_back_to_the_first_star() {
    let keys = vec![vec![F32_MAX_KEY; 3]; 3];
    assert_eq!(link(&keys, Topology::Tree, 2), vec![(0, 0), (0, 0)]);
}

#[test]
fn float_bit_patterns_order_like_the_floats() {
    let stars = [(10.5f32, 3.25f32), (40.0, 80.0), (12.0, 2.0), (11.0, 3.0)];
    let dist = |a: usize, b: usize| {
        (stars[a].0 - stars[b].0).powi(2) + (stars[a].1 - stars[b].1).powi(2)
    };
    let keys: Vec<Vec<u32>> = (0..4)
        .map(|a| (0..4).map(|b| dist(a, b).to_bits()).collect())
        .collect();
    // From star 0: star 3 is nearest, then star 2, then star 1.
    assert_eq!(link(&keys, Topology::Chain, 0), vec![(0, 3), (3, 2), (2, 1)]);
}
