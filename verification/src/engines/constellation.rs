//! The constellation's traits (star count, topology, principal star, colours)
//! and how its stars are linked.
use vstd::prelude::*;

use crate::engines::common::{distinct3_of, Ctx};

verus! {

/// How the stars are linked.
#[derive(Clone, Copy, Debug, PartialEq, Eq, Structural)]
pub enum Topology {
    Chain,
    Tree,
    Hub,
}

pub open spec fn topology_of(v: int) -> Topology {
    if v == 0 {
        Topology::Chain
    } else if v == 1 {
        Topology::Tree
    } else {
        Topology::Hub
    }
}

/// The constellation's macroscopic traits.
#[derive(Clone, Copy, Debug, PartialEq, Eq)]
pub struct ConstellationTraits {
    /// Number of stars, 5..=9.
    pub count: usize,
    pub topology: Topology,
    /// Index of the principal star, below `count`.
    pub principal: usize,
    pub colors: [usize; 3],
    /// Orbit ring size step, 0..=2.
    pub orbit: u8,
}

/// Traits from hash bytes 0 (star count), 1 (topology), 2 (principal star),
/// 3 and 4 (colours) and 5 (orbit ring).
pub fn traits(ctx: &Ctx) -> (t: ConstellationTraits)
    ensures
        t.count == 5 + ctx.trait_of(0, 5),
        t.topology == topology_of(ctx.trait_of(1, 3)),
        t.principal == ctx.trait_of(2, t.count as int),
        t.principal < t.count,
        t.colors@ == seq![
            distinct3_of(ctx.color_seed_of(3)).0 as usize,
            distinct3_of(ctx.color_seed_of(3)).1 as usize,
            distinct3_of(ctx.color_seed_of(3)).2 as usize,
        ],
        t.orbit == ctx.trait_of(5, 3),
{
    let count = 5 + ctx.trait_u8(0, 5) as usize;
    let topology = match ctx.trait_u8(1, 3) {
        0 => Topology::Chain,
        1 => Topology::Tree,
        _ => Topology::Hub,
    };
    let principal = ctx.trait_u8(2, count as u8) as usize;
    let colors = Ctx::distinct3(ctx.color_seed(3));
    let orbit = ctx.trait_u8(5, 3);
    assert(colors@ =~= seq![colors[0], colors[1], colors[2]]);
    ConstellationTraits { count, topology, principal, colors, orbit }
}

// Linking the stars
//
// The links depend only on how the squared distances between stars compare.
// They reach the library as order keys: the bit patterns of those distances,
// which, for non-negative floats, order as the floats themselves do.

/// The order key of `f32::MAX`, the bound that a tree step starts from.
pub const F32_MAX_KEY: u32 = 0x7f7f_ffff;

/// Every row of the key matrix has one key per star.
pub open spec fn is_square(keys: Seq<Vec<u32>>) -> bool {
    forall|i: int| 0 <= i < keys.len() ==> (#[trigger] keys[i]).len() == keys.len()
}

/// The key of the distance from star `a` to star `b`.
pub open spec fn key(keys: Seq<Vec<u32>>, a: int, b: int) -> u32 {
    keys[a]@[b]
}

/// The hub's links: the principal star `p` to each star below `m` but itself,
/// in index order.
pub open spec fn hub_links(p: usize, m: nat) -> Seq<(usize, usize)>
    decreases m,
{
    if m == 0 {
        Seq::empty()
    } else if m - 1 == p {
        hub_links(p, (m - 1) as nat)
    } else {
        hub_links(p, (m - 1) as nat).push((p, (m - 1) as usize))
    }
}

/// The stars reached from `p` by the first `k` links: `p` and the far end of
/// each of those links.
pub open spec fn reached(p: usize, links: Seq<(usize, usize)>, k: int) -> Set<int>
    decreases k,
{
    if k <= 0 {
        set![p as int]
    } else {
        reached(p, links, k - 1).insert(links[k - 1].1 as int)
    }
}

/// `(a, b)` links a star of `tree` to a star outside it, both below `n`.
pub open spec fn crossing(tree: Set<int>, n: int, a: int, b: int) -> bool {
    0 <= a < n && 0 <= b < n && tree.contains(a) && !tree.contains(b)
}

/// The link a tree step adds: among the links out of `tree` whose key is below
/// `F32_MAX_KEY`, one of least key, and the first such in the order of the
/// near end, then the far end; `(0, 0)` where there is none.
pub open spec fn tree_link(keys: Seq<Vec<u32>>, tree: Set<int>, e: (usize, usize)) -> bool {
    let n = keys.len() as int;
    if exists|a: int, b: int| #[trigger] crossing(tree, n, a, b) && key(keys, a, b) < F32_MAX_KEY {
        &&& crossing(tree, n, e.0 as int, e.1 as int)
        &&& key(keys, e.0 as int, e.1 as int) < F32_MAX_KEY
        &&& forall|a: int, b: int| #[trigger] crossing(tree, n, a, b)
            ==> key(keys, e.0 as int, e.1 as int) <= key(keys, a, b)
        &&& forall|a: int, b: int| #[trigger] crossing(tree, n, a, b) && (a < e.0 || (a == e.0 && b < e.1))
            ==> key(keys, e.0 as int, e.1 as int) < key(keys, a, b)
    } else {
        e == (0usize, 0usize)
    }
}

/// The link a walk step adds from `current`: to a star below `n` not yet
/// `visited`, of least key from `current`, and the first such by index.
pub open spec fn walk_link(keys: Seq<Vec<u32>>, visited: Set<int>, current: usize, e: (usize, usize)) -> bool {
    let n = keys.len() as int;
    &&& e.0 == current
    &&& 0 <= e.1 < n
    &&& !visited.contains(e.1 as int)
    &&& forall|b: int| 0 <= b < n && !visited.contains(b)
        ==> key(keys, current as int, e.1 as int) <= #[trigger] key(keys, current as int, b)
    &&& forall|b: int| 0 <= b < e.1 && !visited.contains(b)
        ==> key(keys, current as int, e.1 as int) < #[trigger] key(keys, current as int, b)
}

/// The links a topology draws between `n` stars from the principal star `p`.
pub open spec fn links_of(keys: Seq<Vec<u32>>, topology: Topology, p: usize, links: Seq<(usize, usize)>) -> bool {
    let n = keys.len();
    match topology {
        Topology::Hub => links == hub_links(p, n),
        Topology::Tree => {
            &&& links.len() == n - 1
            &&& forall|k: int| 0 <= k < n - 1 ==> tree_link(keys, reached(p, links, k), #[trigger] links[k])
        },
        Topology::Chain => {
            &&& links.len() == n - 1
            &&& forall|k: int| 0 <= k < n - 1 ==> walk_link(
                keys,
                reached(p, links, k),
                if k == 0 { p } else { links[k - 1].1 },
                #[trigger] links[k],
            )
        },
    }
}

fn hub(n: usize, p: usize) -> (links: Vec<(usize, usize)>)
    ensures
        links@ == hub_links(p, n as nat),
{
    let mut links: Vec<(usize, usize)> = Vec::new();
    let mut i: usize = 0;
    while i < n
        invariant
            i <= n,
            links@ == hub_links(p, i as nat),
        decreases n - i,
    {
        if i != p {
            links.push((p, i));
        }
        i = i + 1;
    }
    links
}

/// The stars that `marks` flags.
pub open spec fn flagged(marks: Seq<bool>) -> Set<int> {
    Set::new(|i: int| 0 <= i < marks.len() && marks[i])
}

/// One step of Prim's algorithm: scans the links out of the flagged stars in
/// order and keeps the first of least key.
fn tree_step(keys: &Vec<Vec<u32>>, in_tree: &Vec<bool>) -> (e: (usize, usize))
    requires
        is_square(keys@),
        in_tree.len() == keys.len(),
    ensures
        tree_link(keys@, flagged(in_tree@), e),
{
    let ghost tree = flagged(in_tree@);
    let ghost ks = keys@;
    let n = keys.len();
    let mut best_key: u32 = F32_MAX_KEY;
    let mut best: (usize, usize) = (0, 0);
    let mut a: usize = 0;
    while a < n
        invariant
            a <= n,
            n == ks.len(),
            ks == keys@,
            tree == flagged(in_tree@),
            in_tree.len() == n,
            is_square(ks),
            best_key <= F32_MAX_KEY,
            best_key < F32_MAX_KEY ==> {
                &&& crossing(tree, n as int, best.0 as int, best.1 as int)
                &&& best.0 < a
                &&& key(ks, best.0 as int, best.1 as int) == best_key
                &&& forall|x: int, y: int| #[trigger] crossing(tree, n as int, x, y) && x < a
                    && (x < best.0 || (x == best.0 && y < best.1)) ==> best_key < key(ks, x, y)
            },
            best_key == F32_MAX_KEY ==> best == (0usize, 0usize),
            forall|x: int, y: int| #[trigger] crossing(tree, n as int, x, y) && x < a ==> best_key <= key(ks, x, y),
        decreases n - a,
    {
        if in_tree[a] {
            let row = &keys[a];
            let mut b: usize = 0;
            while b < n
                invariant
                    a < n,
                    b <= n,
                    n == ks.len(),
                    ks == keys@,
                    row@ == ks[a as int]@,
                    tree == flagged(in_tree@),
                    in_tree.len() == n,
                    in_tree@[a as int],
                    is_square(ks),
                    best_key <= F32_MAX_KEY,
                    best_key < F32_MAX_KEY ==> {
                        &&& crossing(tree, n as int, best.0 as int, best.1 as int)
                        &&& (best.0 < a || (best.0 == a && best.1 < b))
                        &&& key(ks, best.0 as int, best.1 as int) == best_key
                        &&& forall|x: int, y: int| #[trigger] crossing(tree, n as int, x, y)
                            && (x < a || (x == a && y < b))
                            && (x < best.0 || (x == best.0 && y < best.1)) ==> best_key < key(ks, x, y)
                    },
                    best_key == F32_MAX_KEY ==> best == (0usize, 0usize),
                    forall|x: int, y: int| #[trigger] crossing(tree, n as int, x, y) && (x < a || (x == a && y < b))
                        ==> best_key <= key(ks, x, y),
                decreases n - b,
            {
                proof {
                    assert(ks[a as int].len() == n);
                }
                if !in_tree[b] {
                    let d = row[b];
                    assert(crossing(tree, n as int, a as int, b as int));
                    if d < best_key {
                        best_key = d;
                        best = (a, b);
                    }
                }
                b = b + 1;
            }
        } else {
            assert forall|y: int| !#[trigger] crossing(tree, n as int, a as int, y) by {}
        }
        a = a + 1;
    }
    best
}

/// One step of the nearest-neighbour walk: the first unvisited star of least
/// key from `current`.
fn walk_step(keys: &Vec<Vec<u32>>, visited: &Vec<bool>, current: usize) -> (e: (usize, usize))
    requires
        is_square(keys@),
        visited.len() == keys.len(),
        current < keys.len(),
        exists|b: int| 0 <= b < visited.len() && !visited@[b],
    ensures
        walk_link(keys@, flagged(visited@), current, e),
{
    let ghost seen = flagged(visited@);
    let ghost ks = keys@;
    let n = keys.len();
    let row = &keys[current];
    assert(row@.len() == n);
    let mut best: Option<usize> = None;
    let mut best_key: u32 = 0;
    let mut b: usize = 0;
    while b < n
        invariant
            b <= n,
            n == ks.len(),
            ks == keys@,
            current < n,
            row@ == ks[current as int]@,
            row@.len() == n,
            seen == flagged(visited@),
            visited.len() == n,
            match best {
                None => forall|y: int| 0 <= y < b ==> seen.contains(y),
                Some(m) => {
                    &&& m < b
                    &&& !seen.contains(m as int)
                    &&& best_key == key(ks, current as int, m as int)
                    &&& forall|y: int| 0 <= y < b && !seen.contains(y)
                        ==> best_key <= #[trigger] key(ks, current as int, y)
                    &&& forall|y: int| 0 <= y < m && !seen.contains(y)
                        ==> best_key < #[trigger] key(ks, current as int, y)
                },
            },
        decreases n - b,
    {
        if !visited[b] {
            let d = row[b];
            match best {
                None => {
                    best = Some(b);
                    best_key = d;
                },
                Some(_) => {
                    if d < best_key {
                        best = Some(b);
                        best_key = d;
                    }
                },
            }
        }
        b = b + 1;
    }
    match best {
        Some(m) => (current, m),
        None => {
            proof {
                let w = choose|w: int| 0 <= w < visited.len() && !visited@[w];
                assert(seen.contains(w));
            }
            (current, 0)
        },
    }
}

proof fn lemma_reached_prefix(p: usize, links: Seq<(usize, usize)>, e: (usize, usize), k: int)
    requires
        0 <= k <= links.len(),
    ensures
        reached(p, links.push(e), k) == reached(p, links, k),
    decreases k,
{
    if k > 0 {
        lemma_reached_prefix(p, links, e, k - 1);
        assert(links.push(e)[k - 1] == links[k - 1]);
    }
}

proof fn lemma_reached_len(p: usize, links: Seq<(usize, usize)>, k: int)
    requires
        0 <= k,
    ensures
        reached(p, links, k).finite(),
        reached(p, links, k).len() <= k + 1,
    decreases k,
{
    if k > 0 {
        lemma_reached_len(p, links, k - 1);
        vstd::set::axiom_set_insert_len(reached(p, links, k - 1), links[k - 1].1 as int);
    } else {
        assert(set![p as int].len() == 1) by {
            vstd::set::axiom_set_insert_len(Set::<int>::empty(), p as int);
        }
    }
}

/// Some star below `n` is unflagged while fewer than `n` stars are reached.
proof fn lemma_unvisited_exists(marks: Seq<bool>, p: usize, links: Seq<(usize, usize)>, k: int)
    requires
        0 <= k,
        k + 1 < marks.len(),
        flagged(marks) == reached(p, links, k),
    ensures
        exists|b: int| 0 <= b < marks.len() && !marks[b],
{
    let n = marks.len() as int;
    if forall|b: int| 0 <= b < n ==> marks[b] {
        lemma_reached_len(p, links, k);
        vstd::set_lib::lemma_int_range(0, n);
        assert(vstd::set_lib::set_int_range(0, n).subset_of(flagged(marks)));
        vstd::set_lib::lemma_len_subset(vstd::set_lib::set_int_range(0, n), flagged(marks));
    }
}

fn unflagged(n: usize) -> (marks: Vec<bool>)
    ensures
        marks.len() == n,
        flagged(marks@) == Set::<int>::empty(),
{
    let mut marks: Vec<bool> = Vec::new();
    let mut i: usize = 0;
    while i < n
        invariant
            i <= n,
            marks.len() == i,
            forall|j: int| 0 <= j < i ==> !marks@[j],
        decreases n - i,
    {
        marks.push(false);
        i = i + 1;
    }
    assert(flagged(marks@) =~= Set::<int>::empty());
    marks
}

fn tree(keys: &Vec<Vec<u32>>, p: usize) -> (links: Vec<(usize, usize)>)
    requires
        is_square(keys@),
        p < keys.len(),
    ensures
        links_of(keys@, Topology::Tree, p, links@),
{
    let n = keys.len();
    let mut in_tree = unflagged(n);
    in_tree.set(p, true);
    assert(flagged(in_tree@) =~= reached(p, Seq::<(usize, usize)>::empty(), 0));
    let mut links: Vec<(usize, usize)> = Vec::new();
    while links.len() + 1 < n
        invariant
            n == keys.len(),
            p < n,
            is_square(keys@),
            in_tree.len() == n,
            links.len() + 1 <= n,
            flagged(in_tree@) == reached(p, links@, links.len() as int),
            forall|k: int| 0 <= k < links.len() ==> tree_link(keys@, reached(p, links@, k), #[trigger] links@[k]),
        decreases n - links.len(),
    {
        let e = tree_step(keys, &in_tree);
        let ghost before = links@;
        let ghost tree_before = flagged(in_tree@);
        assert(e.1 < n);
        in_tree.set(e.1, true);
        links.push(e);
        proof {
            assert(flagged(in_tree@) =~= tree_before.insert(e.1 as int));
            lemma_reached_prefix(p, before, e, before.len() as int);
            assert forall|k: int| 0 <= k < links.len() implies tree_link(keys@, reached(p, links@, k), #[trigger] links@[k]) by {
                if k < before.len() {
                    lemma_reached_prefix(p, before, e, k);
                    assert(links@[k] == before[k]);
                }
            }
        }
    }
    links
}

fn walk(keys: &Vec<Vec<u32>>, p: usize) -> (links: Vec<(usize, usize)>)
    requires
        is_square(keys@),
        p < keys.len(),
    ensures
        links_of(keys@, Topology::Chain, p, links@),
{
    let n = keys.len();
    let mut visited = unflagged(n);
    visited.set(p, true);
    assert(flagged(visited@) =~= reached(p, Seq::<(usize, usize)>::empty(), 0));
    let mut current = p;
    let mut links: Vec<(usize, usize)> = Vec::new();
    while links.len() + 1 < n
        invariant
            n == keys.len(),
            p < n,
            current < n,
            is_square(keys@),
            visited.len() == n,
            links.len() + 1 <= n,
            current == if links.len() == 0 { p } else { links@[links.len() - 1].1 },
            flagged(visited@) == reached(p, links@, links.len() as int),
            forall|k: int| 0 <= k < links.len() ==> walk_link(
                keys@,
                reached(p, links@, k),
                if k == 0 { p } else { links@[k - 1].1 },
                #[trigger] links@[k],
            ),
        decreases n - links.len(),
    {
        proof {
            lemma_unvisited_exists(visited@, p, links@, links.len() as int);
        }
        let e = walk_step(keys, &visited, current);
        let ghost before = links@;
        let ghost seen_before = flagged(visited@);
        visited.set(e.1, true);
        links.push(e);
        current = e.1;
        proof {
            assert(flagged(visited@) =~= seen_before.insert(e.1 as int));
            lemma_reached_prefix(p, before, e, before.len() as int);
            assert forall|k: int| 0 <= k < links.len() implies walk_link(
                keys@,
                reached(p, links@, k),
                if k == 0 { p } else { links@[k - 1].1 },
                #[trigger] links@[k],
            ) by {
                if k < before.len() {
                    lemma_reached_prefix(p, before, e, k);
                    assert(links@[k] == before[k]);
                    if k > 0 {
                        assert(links@[k - 1] == before[k - 1]);
                    }
                } else if k > 0 {
                    assert(links@[k - 1] == before[k - 1]);
                }
            }
        }
    }
    links
}

/// The links between the stars: the hub joins the principal star `p` to every
/// other; the tree is Prim's, grown from `p`; the chain is the nearest-neighbour
/// walk from `p`. `keys[a][b]` orders the distances between stars `a` and `b`.
pub fn link(keys: &Vec<Vec<u32>>, topology: Topology, p: usize) -> (links: Vec<(usize, usize)>)
    requires
        is_square(keys@),
        topology != Topology::Hub ==> p < keys.len(),
    ensures
        links_of(keys@, topology, p, links@),
{
    match topology {
        Topology::Hub => hub(keys.len(), p),
        Topology::Tree => tree(keys, p),
        Topology::Chain => walk(keys, p),
    }
}

/// Reached sets of the first `k` links of a tree or walk: each link adds a star
/// not reached before, so `k` links reach `k + 1` stars, all below `n`.
proof fn lemma_reached_grows(
    keys: Seq<Vec<u32>>,
    topology: Topology,
    p: usize,
    links: Seq<(usize, usize)>,
    k: int,
)
    requires
        topology != Topology::Hub,
        p < keys.len(),
        links_of(keys, topology, p, links),
        topology == Topology::Tree ==> forall|a: int, b: int|
            0 <= a < keys.len() && 0 <= b < keys.len() ==> #[trigger] key(keys, a, b) < F32_MAX_KEY,
        0 <= k <= keys.len() - 1,
    ensures
        reached(p, links, k).finite(),
        reached(p, links, k).len() == k + 1,
        reached(p, links, k).subset_of(vstd::set_lib::set_int_range(0, keys.len() as int)),
    decreases k,
{
    let n = keys.len() as int;
    if k > 0 {
        lemma_reached_grows(keys, topology, p, links, k - 1);
        let before = reached(p, links, k - 1);
        let e = links[k - 1];
        if topology == Topology::Tree {
            assert(tree_link(keys, before, e));
            // Fewer than `n` stars are reached, so some star lies outside.
            vstd::set_lib::lemma_int_range(0, n);
            let range = vstd::set_lib::set_int_range(0, n);
            if range.subset_of(before) {
                vstd::set_lib::lemma_len_subset(range, before);
            }
            let b = choose|b: int| range.contains(b) && !before.contains(b);
            assert(before.contains(p as int)) by {
                lemma_reached_contains_start(p, links, k - 1);
            }
            assert(crossing(before, n, p as int, b));
            assert(key(keys, p as int, b) < F32_MAX_KEY);
        } else {
            assert(walk_link(keys, before, if k - 1 == 0 { p } else { links[k - 2].1 }, e));
        }
        vstd::set::axiom_set_insert_len(before, e.1 as int);
    } else {
        assert(set![p as int].len() == 1) by {
            vstd::set::axiom_set_insert_len(Set::<int>::empty(), p as int);
        }
    }
}

proof fn lemma_reached_contains_start(p: usize, links: Seq<(usize, usize)>, k: int)
    ensures
        reached(p, links, k).contains(p as int),
    decreases k,
{
    if k > 0 {
        lemma_reached_contains_start(p, links, k - 1);
    }
}

/// When every distance is below `f32::MAX`, the tree reaches every star.
pub proof fn lemma_tree_spans(keys: Seq<Vec<u32>>, p: usize, links: Seq<(usize, usize)>)
    requires
        p < keys.len(),
        links_of(keys, Topology::Tree, p, links),
        forall|a: int, b: int|
            0 <= a < keys.len() && 0 <= b < keys.len() ==> #[trigger] key(keys, a, b) < F32_MAX_KEY,
    ensures
        reached(p, links, keys.len() - 1) == vstd::set_lib::set_int_range(0, keys.len() as int),
{
    lemma_reached_grows(keys, Topology::Tree, p, links, keys.len() - 1);
    vstd::set_lib::lemma_int_range(0, keys.len() as int);
    vstd::set_lib::lemma_subset_equality(
        reached(p, links, keys.len() - 1),
        vstd::set_lib::set_int_range(0, keys.len() as int),
    );
}

/// The chain visits every star, each exactly once.
pub proof fn lemma_walk_visits_each_star_once(keys: Seq<Vec<u32>>, p: usize, links: Seq<(usize, usize)>)
    requires
        p < keys.len(),
        links_of(keys, Topology::Chain, p, links),
    ensures
        reached(p, links, keys.len() - 1) == vstd::set_lib::set_int_range(0, keys.len() as int),
        forall|j: int, k: int| 0 <= j < k < links.len() ==> links[j].1 != links[k].1 && links[k].1 != p,
{
    lemma_reached_grows(keys, Topology::Chain, p, links, keys.len() - 1);
    vstd::set_lib::lemma_int_range(0, keys.len() as int);
    vstd::set_lib::lemma_subset_equality(
        reached(p, links, keys.len() - 1),
        vstd::set_lib::set_int_range(0, keys.len() as int),
    );
    assert forall|j: int, k: int| 0 <= j < k < links.len() implies links[j].1 != links[k].1 && links[k].1 != p by {
        lemma_reached_contains_start(p, links, k);
        lemma_reached_keeps(p, links, j + 1, k);
        assert(walk_link(keys, reached(p, links, k), if k == 0 { p } else { links[k - 1].1 }, links[k]));
    }
}

proof fn lemma_reached_keeps(p: usize, links: Seq<(usize, usize)>, j: int, k: int)
    requires
        0 < j <= k,
    ensures
        reached(p, links, k).contains(links[j - 1].1 as int),
    decreases k - j,
{
    if k > j {
        lemma_reached_keeps(p, links, j, k - 1);
    }
}

} // verus!
