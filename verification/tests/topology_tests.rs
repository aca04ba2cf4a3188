use gossipsub_baseline_bench::topology::Topology;
use std::collections::BTreeSet;

fn reachable_from_zero(t: &Topology, nodes: usize) -> usize {
    let start: BTreeSet<usize> = [0usize].into_iter().collect();
    (0..nodes)
        .fold(start, |acc, _| {
            let grown: BTreeSet<usize> = t
                .edges()
                .iter()
                .copied()
                .filter(|(a, b)| acc.contains(a) || acc.contains(b))
                .flat_map(|(a, b)| [a, b])
                .chain(acc.iter().copied())
                .collect();
            grown
        })
        .len()
}

#[test]
fn topology_is_connected_and_deterministic() -> Result<(), String> {
    let n = 20;
    let t = Topology::ring_plus_random(n, 6, 42);
    let t2 = Topology::ring_plus_random(n, 6, 42);
    let same: Vec<_> = t.edges().to_vec();
    let same2: Vec<_> = t2.edges().to_vec();
    (same == same2)
        .then_some(())
        .ok_or_else(|| "same seed produced different topologies".to_string())?;
    (reachable_from_zero(&t, n) == n)
        .then_some(())
        .ok_or_else(|| "topology is not connected".to_string())
}

#[test]
fn no_self_loops() -> Result<(), String> {
    let t = Topology::ring_plus_random(10, 8, 7);
    let clean = t.edges().iter().all(|(a, b)| a != b);
    clean
        .then_some(())
        .ok_or_else(|| "self-loop found".to_string())
}

#[test]
fn from_draws_exact_edges() {
    // Node 0 drew 2 and itself, node 1 drew 0, node 2 drew 0 (already present).
    let draws = vec![vec![2, 0], vec![0], vec![0]];
    let t = Topology::from_draws(3, &draws);
    assert_eq!(t.edges(), &[(0, 1), (0, 2), (1, 2)]);
    let t5 = Topology::from_draws(5, &vec![vec![3], vec![], vec![], vec![], vec![]]);
    assert_eq!(t5.edges(), &[(0, 1), (0, 3), (0, 4), (1, 2), (2, 3), (3, 4)]);
    assert_eq!(t5.len(), 6);
    assert!(!t5.is_empty());
}

#[test]
fn tiny_topologies() {
    assert!(Topology::ring_plus_random(0, 12, 1).is_empty());
    assert!(Topology::ring_plus_random(1, 12, 1).is_empty());
    assert_eq!(Topology::ring_plus_random(2, 12, 1).edges(), &[(0, 1)]);
    let t = Topology::ring_plus_random(30, 12, 42);
    assert!(t.edges().windows(2).all(|w| w[0] < w[1]));
    assert!(t.edges().iter().all(|(a, b)| a < b && *b < 30));
    assert!((0..29).all(|i| t.edges().contains(&(i, i + 1))));
    // ring edges plus some random ones; different seeds give different draws
    assert!(t.len() > 30);
    assert_ne!(t.edges(), Topology::ring_plus_random(30, 12, 43).edges());
}
