//! Seeded benchmark topology: a ring for guaranteed connectedness plus
//! seeded random extra edges up to the requested per-node budget.
use std::collections::BTreeSet;
use vstd::prelude::*;
use vstd::std_specs::btree::{increasing_seq, spec_btree_keys_iter};
use vstd::laws_cmp::obeys_cmp;
use vstd::std_specs::cmp::OrdSpec;
use vstd::std_specs::iter::IteratorSpec;

use crate::rng::{chacha8_below, draw_below, repeated, seeded, Draw};

verus! {

broadcast use vstd::std_specs::btree::group_btree_axioms, vstd::laws_cmp::group_laws_cmp;

/// The pair `(a, b)` with its smaller index first.
pub open spec fn ordered_pair(a: usize, b: usize) -> (usize, usize) {
    if a <= b { (a, b) } else { (b, a) }
}

/// Ring successor of node `i` among `nodes` nodes, `(i + 1) % nodes`.
pub open spec fn ring_next(i: usize, nodes: usize) -> usize {
    if i + 1 < nodes { (i + 1) as usize } else { 0 }
}

/// `e` is one of the ring edges over `nodes` nodes.
pub open spec fn is_ring_edge(nodes: usize, e: (usize, usize)) -> bool {
    nodes >= 2 && exists|i: usize| i < nodes && e == #[trigger] ordered_pair(i, ring_next(i, nodes))
}

/// `e` comes from one of the drawn partners: node `i` drew `draws[i][k]`,
/// which is not `i` itself.
pub open spec fn is_drawn_edge(draws: Seq<Seq<usize>>, e: (usize, usize)) -> bool {
    exists|i: int, k: int|
        0 <= i < draws.len() && 0 <= k < draws[i].len() && draws[i][k] != i && e
            == ordered_pair(i as usize, #[trigger] draws[i][k])
}

/// The edge set of the topology over `nodes` nodes whose node `i` drew the
/// partners `draws[i]`.
pub open spec fn is_topology_edge(nodes: usize, draws: Seq<Seq<usize>>, e: (usize, usize)) -> bool {
    is_ring_edge(nodes, e) || is_drawn_edge(draws, e)
}

/// The edge from node `i` to node `i + 1`.
pub open spec fn path_edge(i: usize) -> (usize, usize) {
    (i, (i + 1) as usize)
}

/// Lexicographic order on index pairs.
pub open spec fn pair_less(a: (usize, usize), b: (usize, usize)) -> bool {
    a.0 < b.0 || (a.0 == b.0 && a.1 < b.1)
}

/// Strictly increasing in lexicographic order (so also free of repeats).
pub open spec fn strictly_sorted(s: Seq<(usize, usize)>) -> bool {
    forall|i: int, j: int| 0 <= i < j < s.len() ==> pair_less(#[trigger] s[i], #[trigger] s[j])
}

/// Undirected edge set over node indices, stored as ordered pairs.
#[derive(Debug)]
pub struct Topology {
    edges: Vec<(usize, usize)>,
}

impl View for Topology {
    type V = Seq<(usize, usize)>;

    closed spec fn view(&self) -> Seq<(usize, usize)> {
        self.edges@
    }
}

fn ordered(a: usize, b: usize) -> (r: (usize, usize))
    ensures
        r == ordered_pair(a, b),
{
    if a <= b {
        (a, b)
    } else {
        (b, a)
    }
}

proof fn lemma_increasing_is_strictly_sorted(s: Seq<&(usize, usize)>)
    requires
        increasing_seq(s),
    ensures
        strictly_sorted(s.unref()),
{
    let u = s.unref();
    assert(obeys_cmp::<usize>());
    assert(obeys_cmp::<(usize, usize)>());
    assert(obeys_cmp::<&(usize, usize)>());
    assert forall|i: int, j: int| 0 <= i < j < u.len() implies pair_less(#[trigger] u[i], #[trigger] u[j]) by {
        let a: &(usize, usize) = s[i];
        let b: &(usize, usize) = s[j];
        assert(OrdSpec::cmp_spec(&a, &b) is Less);
        assert(u[i] == *s[i] && u[j] == *s[j]);
    }
}

/// Two strictly sorted sequences with the same members are the same sequence.
pub proof fn lemma_sorted_unique(a: Seq<(usize, usize)>, b: Seq<(usize, usize)>)
    requires
        strictly_sorted(a),
        strictly_sorted(b),
        forall|e: (usize, usize)| a.contains(e) <==> b.contains(e),
    ensures
        a == b,
    decreases a.len() + b.len(),
{
    if a.len() == 0 {
        if b.len() > 0 {
            assert(b.contains(b[0]));
        }
        assert(a =~= b);
    } else if b.len() == 0 {
        assert(a.contains(a[0]));
    } else {
        // The first elements are both the least member.
        assert(a.contains(a[0]));
        assert(b.contains(b[0]));
        let ka = choose|k: int| 0 <= k < b.len() && b[k] == a[0];
        let kb = choose|k: int| 0 <= k < a.len() && a[k] == b[0];
        if ka > 0 {
            assert(pair_less(b[0], b[ka]));
            if kb > 0 {
                assert(pair_less(a[0], a[kb]));
            }
        }
        if kb > 0 {
            assert(pair_less(a[0], a[kb]));
        }
        assert(a[0] == b[0]);
        let ta = a.drop_first();
        let tb = b.drop_first();
        assert forall|e: (usize, usize)| ta.contains(e) <==> tb.contains(e) by {
            if ta.contains(e) {
                let k = choose|k: int| 0 <= k < ta.len() && ta[k] == e;
                assert(a[k + 1] == e);
                assert(pair_less(a[0], a[k + 1]));
                assert(a.contains(e));
                let m = choose|m: int| 0 <= m < b.len() && b[m] == e;
                assert(m != 0);
                assert(tb[m - 1] == e);
            }
            if tb.contains(e) {
                let k = choose|k: int| 0 <= k < tb.len() && tb[k] == e;
                assert(b[k + 1] == e);
                assert(pair_less(b[0], b[k + 1]));
                assert(b.contains(e));
                let m = choose|m: int| 0 <= m < a.len() && a[m] == e;
                assert(m != 0);
                assert(ta[m - 1] == e);
            }
        }
        assert forall|i: int, j: int| 0 <= i < j < ta.len() implies pair_less(#[trigger] ta[i], #[trigger] ta[j]) by {
            assert(ta[i] == a[i + 1] && ta[j] == a[j + 1]);
        }
        assert forall|i: int, j: int| 0 <= i < j < tb.len() implies pair_less(#[trigger] tb[i], #[trigger] tb[j]) by {
            assert(tb[i] == b[i + 1] && tb[j] == b[j + 1]);
        }
        lemma_sorted_unique(ta, tb);
        assert(a =~= seq![a[0]] + ta);
        assert(b =~= seq![b[0]] + tb);
    }
}


/// Edges over the first `i` nodes of the ring.
pub open spec fn is_ring_edge_below(nodes: usize, i: int, e: (usize, usize)) -> bool {
    nodes >= 2 && exists|m: usize| m < i && e == #[trigger] ordered_pair(m, ring_next(m, nodes))
}

proof fn lemma_drawn_push(g: Seq<Seq<usize>>, j: usize, e: (usize, usize))
    requires
        g.len() > 0,
    ensures
        ({
            let last = g.len() - 1;
            let g2 = g.update(last, g[last].push(j));
            is_drawn_edge(g2, e) <==> (is_drawn_edge(g, e) || (j != last && e == ordered_pair(
                last as usize,
                j,
            )))
        }),
{
    let last = g.len() - 1;
    let g2 = g.update(last, g[last].push(j));
    if is_drawn_edge(g2, e) {
        let (i, k) = choose|i: int, k: int|
            0 <= i < g2.len() && 0 <= k < g2[i].len() && g2[i][k] != i && e == ordered_pair(
                i as usize,
                #[trigger] g2[i][k],
            );
        if i == last && k == g[last].len() {
        } else {
            assert(g[i][k] == g2[i][k]);
        }
    }
    if is_drawn_edge(g, e) {
        let (i, k) = choose|i: int, k: int|
            0 <= i < g.len() && 0 <= k < g[i].len() && g[i][k] != i && e == ordered_pair(
                i as usize,
                #[trigger] g[i][k],
            );
        assert(g2[i][k] == g[i][k]);
    }
    if j != last && e == ordered_pair(last as usize, j) {
        assert(g2[last][g[last].len() as int] == j);
    }
}

proof fn lemma_drawn_new_row(g: Seq<Seq<usize>>, e: (usize, usize))
    ensures
        is_drawn_edge(g.push(Seq::empty()), e) <==> is_drawn_edge(g, e),
{
    let g2 = g.push(Seq::empty());
    if is_drawn_edge(g2, e) {
        let (i, k) = choose|i: int, k: int|
            0 <= i < g2.len() && 0 <= k < g2[i].len() && g2[i][k] != i && e == ordered_pair(
                i as usize,
                #[trigger] g2[i][k],
            );
        assert(g[i][k] == g2[i][k]);
    }
    if is_drawn_edge(g, e) {
        let (i, k) = choose|i: int, k: int|
            0 <= i < g.len() && 0 <= k < g[i].len() && g[i][k] != i && e == ordered_pair(
                i as usize,
                #[trigger] g[i][k],
            );
        assert(g2[i][k] == g[i][k]);
    }
}

impl Topology {
    /// The ring edges `ordered(i, (i + 1) % nodes)`, when there are at least
    /// two nodes.
    fn ring(nodes: usize) -> (set: BTreeSet<(usize, usize)>)
        ensures
            forall|e: (usize, usize)| set@.contains(e) <==> is_ring_edge(nodes, e),
    {
        let mut set: BTreeSet<(usize, usize)> = BTreeSet::new();
        let mut i: usize = 0;
        while i < nodes
            invariant
                i <= nodes,
                forall|e: (usize, usize)| set@.contains(e) <==> is_ring_edge_below(nodes, i as int, e),
            decreases nodes - i,
        {
            let next: usize = if i + 1 < nodes { i + 1 } else { 0 };
            if nodes >= 2 && i != next {
                let e = ordered(i, next);
                let _ = set.insert(e);
            }
            proof {
                assert(next == ring_next(i, nodes));
                assert forall|e: (usize, usize)| set@.contains(e) <==> is_ring_edge_below(nodes, i + 1, e) by {
                    if e == ordered_pair(i, ring_next(i, nodes)) && nodes >= 2 {
                        assert(i != next);
                    }
                    if is_ring_edge_below(nodes, i + 1, e) {
                        let m = choose|m: usize| m < i + 1 && e == #[trigger] ordered_pair(m, ring_next(m, nodes));
                        if m < i {
                            assert(is_ring_edge_below(nodes, i as int, e));
                        }
                    }
                }
            }
            i = i + 1;
        }
        proof {
            assert forall|e: (usize, usize)| is_ring_edge_below(nodes, nodes as int, e) <==> is_ring_edge(nodes, e) by {
                if is_ring_edge(nodes, e) {
                    let m = choose|m: usize| m < nodes && e == #[trigger] ordered_pair(m, ring_next(m, nodes));
                    assert(is_ring_edge_below(nodes, nodes as int, e));
                }
            }
        }
        set
    }

    /// Record that node `i` drew partner `j`: the edge `ordered(i, j)` unless
    /// `j` is `i` itself.
    fn add_drawn(set: &mut BTreeSet<(usize, usize)>, i: usize, j: usize, Ghost(nodes): Ghost<usize>, Ghost(g): Ghost<Seq<Seq<usize>>>)
        requires
            g.len() == i + 1,
            forall|e: (usize, usize)| old(set)@.contains(e) <==> is_ring_edge(nodes, e) || is_drawn_edge(g, e),
        ensures
            forall|e: (usize, usize)| final(set)@.contains(e) <==> is_ring_edge(nodes, e) || is_drawn_edge(g.update(i as int, g[i as int].push(j)), e),
    {
        let ghost before = set@;
        if j != i {
            let e = ordered(i, j);
            let _ = set.insert(e);
        }
        proof {
            let g2 = g.update(i as int, g[i as int].push(j));
            assert forall|e: (usize, usize)| set@.contains(e) <==> is_ring_edge(nodes, e) || is_drawn_edge(g2, e) by {
                lemma_drawn_push(g, j, e);
                if j != i {
                    assert(set@ == before.insert(ordered_pair(i, j)));
                } else {
                    assert(set@ == before);
                }
            }
        }
    }

    fn from_set(set: &BTreeSet<(usize, usize)>) -> (t: Topology)
        ensures
            strictly_sorted(t@),
            forall|e: (usize, usize)| t@.contains(e) <==> set@.contains(e),
    {
        let mut edges: Vec<(usize, usize)> = Vec::new();
        for e in it: set.iter()
            invariant
                it.seq() == spec_btree_keys_iter(set).remaining(),
                edges@ == it.seq().take(it.index() as int).unref(),
        {
            edges.push(*e);
        }
        proof {
            let r = spec_btree_keys_iter(set).remaining();
            let s = r.unref();
            assert(edges@ =~= s);
            lemma_increasing_is_strictly_sorted(r);
            assert forall|e: (usize, usize)| edges@.contains(e) <==> set@.contains(e) by {
                assert(s.to_set().contains(e) <==> s.contains(e));
            }
        }
        Topology { edges }
    }
}


/// Extra partners each node draws: `edges_per_node - 2`, or none.
pub open spec fn extra_draws(edges_per_node: usize) -> nat {
    if edges_per_node >= 2 { (edges_per_node - 2) as nat } else { 0 }
}

/// The partners drawn for `nodes` nodes, `extra` each, from a generator
/// seeded with `seed`: node `i`'s `k`-th partner is the generator's draw
/// below `nodes` after `i * extra + k` such draws.
pub open spec fn seeded_draws(nodes: usize, extra: nat, seed: u64) -> Seq<Seq<usize>> {
    Seq::new(
        nodes as nat,
        |i: int| Seq::new(extra, |k: int| chacha8_below(seed, repeated(Draw::Below(nodes), (i * extra + k) as nat), nodes)),
    )
}

impl Topology {
    /// `self` holds, sorted and without repeats, exactly the edges of the
    /// topology over `nodes` nodes whose node `i` drew the partners `draws[i]`.
    pub open spec fn built_from(&self, nodes: usize, draws: Seq<Seq<usize>>) -> bool {
        &&& strictly_sorted(self@)
        &&& forall|e: (usize, usize)| self@.contains(e) <==> is_topology_edge(nodes, draws, e)
    }

    /// Ring over all nodes plus, for node `i`, one edge to each partner
    /// in `draws[i]` other than `i` itself (deduplicated).
    pub fn from_draws(nodes: usize, draws: &Vec<Vec<usize>>) -> (t: Topology)
        requires
            draws@.len() == nodes,
        ensures
            t.built_from(nodes, draws.deep_view()),
    {
        let mut set = Self::ring(nodes);
        let ghost dv = draws.deep_view();
        let ghost mut g: Seq<Seq<usize>> = Seq::empty();
        let mut i: usize = 0;
        while i < nodes
            invariant
                i <= nodes,
                draws@.len() == nodes,
                dv == draws.deep_view(),
                g == dv.take(i as int),
                forall|e: (usize, usize)| set@.contains(e) <==> is_ring_edge(nodes, e) || is_drawn_edge(g, e),
            decreases nodes - i,
        {
            proof {
                assert forall|e: (usize, usize)| set@.contains(e) <==> is_ring_edge(nodes, e) || is_drawn_edge(g.push(Seq::empty()), e) by {
                    lemma_drawn_new_row(g, e);
                }
                g = g.push(Seq::empty());
            }
            let row = &draws[i];
            let mut k: usize = 0;
            while k < row.len()
                invariant
                    i < nodes,
                    draws@.len() == nodes,
                    dv == draws.deep_view(),
                    *row == draws@[i as int],
                    k <= row@.len(),
                    g.len() == i + 1,
                    g.take(i as int) == dv.take(i as int),
                    g[i as int] == row@.take(k as int),
                    forall|e: (usize, usize)| set@.contains(e) <==> is_ring_edge(nodes, e) || is_drawn_edge(g, e),
                decreases row@.len() - k,
            {
                let j = row[k];
                Self::add_drawn(&mut set, i, j, Ghost(nodes), Ghost(g));
                proof {
                    let g2 = g.update(i as int, g[i as int].push(j));
                    assert(g2.take(i as int) =~= g.take(i as int));
                    assert(g2[i as int] =~= row@.take(k + 1));
                    g = g2;
                }
                k = k + 1;
            }
            proof {
                assert(g[i as int] =~= row@);
                assert(dv[i as int] == draws@[i as int]@);
                assert(g =~= dv.take(i + 1));
            }
            i = i + 1;
        }
        proof {
            assert(g =~= dv);
        }
        Self::from_set(&set)
    }

    /// Ring over all nodes plus, per node, `edges_per_node - 2` random
    /// extra edges (deduplicated, no self-loops). Deterministic in `seed`:
    /// the partners are `seeded_draws(nodes, extra_draws(edges_per_node), seed)`.
    pub fn ring_plus_random(nodes: usize, edges_per_node: usize, seed: u64) -> (t: Topology)
        ensures
            t.built_from(nodes, seeded_draws(nodes, extra_draws(edges_per_node), seed)),
            forall|i: int, k: int|
                0 <= i < nodes && 0 <= k < extra_draws(edges_per_node) ==> #[trigger] seeded_draws(
                    nodes,
                    extra_draws(edges_per_node),
                    seed,
                )[i][k] < nodes,
            forall|e: (usize, usize)| t@.contains(e) ==> e.0 < e.1 && e.1 < nodes,
            forall|i: usize| i + 1 < nodes ==> t@.contains(#[trigger] path_edge(i)),
    {
        let mut rng = seeded(seed);
        let mut set = Self::ring(nodes);
        let extra_per = edges_per_node.saturating_sub(2);
        let bound: usize = if nodes >= 1 { nodes } else { 1 };
        let ghost extra: nat = extra_draws(edges_per_node);
        let ghost sd = seeded_draws(nodes, extra, seed);
        let ghost mut g: Seq<Seq<usize>> = Seq::empty();
        let mut i: usize = 0;
        while i < nodes
            invariant
                i <= nodes,
                bound == nodes || nodes == 0,
                extra_per == extra,
                extra == extra_draws(edges_per_node),
                sd == seeded_draws(nodes, extra, seed),
                g.len() == i,
                rng@ == (seed, repeated(Draw::Below(nodes), (i * extra) as nat)),
                forall|a: int| 0 <= a < i ==> #[trigger] g[a] == sd[a],
                forall|a: int, k: int| 0 <= a < i && 0 <= k < g[a].len() ==> #[trigger] g[a][k] < nodes,
                forall|e: (usize, usize)| set@.contains(e) <==> is_ring_edge(nodes, e) || is_drawn_edge(g, e),
            decreases nodes - i,
        {
            proof {
                assert forall|e: (usize, usize)| set@.contains(e) <==> is_ring_edge(nodes, e) || is_drawn_edge(g.push(Seq::empty()), e) by {
                    lemma_drawn_new_row(g, e);
                }
                g = g.push(Seq::empty());
            }
            let mut k: usize = 0;
            while k < extra_per
                invariant
                    i < nodes,
                    bound == nodes,
                    k <= extra_per,
                    extra_per == extra,
                    sd == seeded_draws(nodes, extra, seed),
                    g.len() == i + 1,
                    g[i as int] == sd[i as int].take(k as int),
                    rng@ == (seed, repeated(Draw::Below(nodes), (i * extra + k) as nat)),
                    forall|a: int| 0 <= a < i ==> #[trigger] g[a] == sd[a],
                    forall|a: int, m: int| 0 <= a <= i && 0 <= m < g[a].len() ==> #[trigger] g[a][m] < nodes,
                    forall|e: (usize, usize)| set@.contains(e) <==> is_ring_edge(nodes, e) || is_drawn_edge(g, e),
                decreases extra_per - k,
            {
                let j = draw_below(&mut rng, bound);
                Self::add_drawn(&mut set, i, j, Ghost(nodes), Ghost(g));
                proof {
                    let g2 = g.update(i as int, g[i as int].push(j));
                    assert(j == sd[i as int][k as int]);
                    assert(g2[i as int] =~= sd[i as int].take(k + 1));
                    assert(repeated(Draw::Below(nodes), (i * extra + k) as nat).push(Draw::Below(nodes))
                        =~= repeated(Draw::Below(nodes), (i * extra + k + 1) as nat));
                    assert forall|a: int, m: int| 0 <= a <= i && 0 <= m < g2[a].len() implies #[trigger] g2[a][m] < nodes by {
                        if a < i {
                            assert(g2[a] == g[a]);
                        } else if m < k {
                            assert(g2[a][m] == g[a][m]);
                        }
                    }
                    assert forall|a: int| 0 <= a < i implies #[trigger] g2[a] == sd[a] by {
                        assert(g2[a] == g[a]);
                    }
                    g = g2;
                }
                k = k + 1;
            }
            proof {
                assert(g[i as int] =~= sd[i as int]);
                assert(i * extra + extra == (i + 1) * extra) by (nonlinear_arith);
            }
            i = i + 1;
        }
        proof {
            assert(g =~= sd);
            assert forall|a: int, k: int| 0 <= a < nodes && 0 <= k < extra implies #[trigger] sd[a][k] < nodes by {
                assert(g[a] == sd[a]);
            }
        }
        let t = Self::from_set(&set);
        proof {
            lemma_no_self_loops(&t, nodes, g);
            lemma_edges_within_nodes(&t, nodes, g);
            lemma_connected_path(&t, nodes, g);
        }
        t
    }

    /// All undirected edges as ordered index pairs, in increasing order.
    pub fn edges(&self) -> (r: &[(usize, usize)])
        ensures
            r@ == self@,
    {
        self.edges.as_slice()
    }

    /// Number of edges.
    pub fn len(&self) -> (r: usize)
        ensures
            r == self@.len(),
    {
        self.edges.len()
    }

    /// True when no edges exist.
    pub fn is_empty(&self) -> (r: bool)
        ensures
            r == (self@.len() == 0),
    {
        self.edges.len() == 0
    }
}


/// Each node draws `edges_per_node - 2` partners (none when the budget is
/// below two), all from one generator seeded with `seed`: node `i`'s `k`-th
/// partner is the generator's draw below `nodes` after the
/// `i * (edges_per_node - 2) + k` draws taken before it.
pub proof fn lemma_partner_draws(nodes: usize, edges_per_node: usize, seed: u64)
    ensures
        seeded_draws(nodes, extra_draws(edges_per_node), seed).len() == nodes,
        forall|i: int|
            0 <= i < nodes ==> #[trigger] seeded_draws(nodes, extra_draws(edges_per_node), seed)[i].len() == (if edges_per_node >= 2 {
                edges_per_node - 2
            } else {
                0
            }),
        forall|i: int, k: int|
            0 <= i < nodes && edges_per_node >= 2 && 0 <= k < edges_per_node - 2 ==> #[trigger] seeded_draws(
                nodes,
                extra_draws(edges_per_node),
                seed,
            )[i][k] == chacha8_below(seed, repeated(Draw::Below(nodes), (i * (edges_per_node - 2) + k) as nat), nodes),
{
}

/// A topology is fixed by its node count and draws: two topologies built
/// from the same draws have the same edge sequence.
pub proof fn lemma_built_from_unique(t1: &Topology, t2: &Topology, nodes: usize, draws: Seq<Seq<usize>>)
    requires
        t1.built_from(nodes, draws),
        t2.built_from(nodes, draws),
    ensures
        t1@ == t2@,
{
    lemma_sorted_unique(t1@, t2@);
}

/// The topology is deterministic in its inputs: two topologies built for the
/// same node count, edge budget and seed have the same edges.
pub proof fn lemma_same_seed_same_topology(t1: &Topology, t2: &Topology, nodes: usize, edges_per_node: usize, seed: u64)
    requires
        t1.built_from(nodes, seeded_draws(nodes, extra_draws(edges_per_node), seed)),
        t2.built_from(nodes, seeded_draws(nodes, extra_draws(edges_per_node), seed)),
    ensures
        t1@ == t2@,
{
    lemma_built_from_unique(t1, t2, nodes, seeded_draws(nodes, extra_draws(edges_per_node), seed));
}

/// No edge joins a node to itself: every stored pair has its smaller
/// index strictly first.
pub proof fn lemma_no_self_loops(t: &Topology, nodes: usize, draws: Seq<Seq<usize>>)
    requires
        t.built_from(nodes, draws),
        draws.len() <= nodes,
    ensures
        forall|e: (usize, usize)| t@.contains(e) ==> e.0 < e.1,
{
    assert forall|e: (usize, usize)| t@.contains(e) implies e.0 < e.1 by {
        if is_ring_edge(nodes, e) {
            let m = choose|m: usize| m < nodes && e == #[trigger] ordered_pair(m, ring_next(m, nodes));
        } else {
            let (i, k) = choose|i: int, k: int|
                0 <= i < draws.len() && 0 <= k < draws[i].len() && draws[i][k] != i && e == ordered_pair(
                    i as usize,
                    #[trigger] draws[i][k],
                );
        }
    }
}

/// The topology is connected: it holds the path `0 - 1 - ... - (nodes - 1)`.
pub proof fn lemma_connected_path(t: &Topology, nodes: usize, draws: Seq<Seq<usize>>)
    requires
        t.built_from(nodes, draws),
    ensures
        forall|i: usize| i + 1 < nodes ==> t@.contains(#[trigger] path_edge(i)),
{
    assert forall|i: usize| i + 1 < nodes implies t@.contains(#[trigger] path_edge(i)) by {
        assert(ordered_pair(i, ring_next(i, nodes)) == path_edge(i));
        assert(is_ring_edge(nodes, path_edge(i)));
    }
}

/// When every drawn partner is a node index, every edge joins two nodes.
pub proof fn lemma_edges_within_nodes(t: &Topology, nodes: usize, draws: Seq<Seq<usize>>)
    requires
        t.built_from(nodes, draws),
        forall|i: int, k: int| 0 <= i < draws.len() && 0 <= k < draws[i].len() ==> #[trigger] draws[i][k] < nodes,
        draws.len() <= nodes,
    ensures
        forall|e: (usize, usize)| t@.contains(e) ==> e.1 < nodes,
{
    assert forall|e: (usize, usize)| t@.contains(e) implies e.1 < nodes by {
        if is_ring_edge(nodes, e) {
            let m = choose|m: usize| m < nodes && e == #[trigger] ordered_pair(m, ring_next(m, nodes));
        } else {
            let (i, k) = choose|i: int, k: int|
                0 <= i < draws.len() && 0 <= k < draws[i].len() && draws[i][k] != i && e == ordered_pair(
                    i as usize,
                    #[trigger] draws[i][k],
                );
        }
    }
}

} // verus!
