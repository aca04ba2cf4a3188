use gossipsub_baseline_bench::runner::{
    byte_deltas, deterministic_keypair, gathered, keypair_seed, memory_addr, memory_port, outcome_from_events,
    payload, payload_seed, payload_seq, Up,
};

#[test]
fn payload_carries_its_sequence_number() {
    let p = payload(42, 7, 64);
    assert_eq!(p.len(), 64);
    assert_eq!(&p[..8], &7u64.to_le_bytes());
    assert_eq!(payload_seq(&p), Some(7));
    let tiny = payload(42, u64::MAX, 3);
    assert_eq!(tiny.len(), 8);
    assert_eq!(payload_seq(&tiny), Some(u64::MAX));
    assert_eq!(payload_seq(&[1, 2, 3]), None);
    assert_eq!(payload_seq(&0x0102_0304_0506_0708u64.to_le_bytes()), Some(0x0102_0304_0506_0708));
}

#[test]
fn payload_is_seeded() {
    assert_eq!(payload(1, 2, 100), payload(1, 2, 100));
    assert_ne!(payload(1, 2, 100)[8..], payload(1, 3, 100)[8..]);
    assert_ne!(payload(1, 2, 100)[8..], payload(5, 2, 100)[8..]);
}

#[test]
fn seed_mixing() {
    assert_eq!(payload_seed(42, 0), 42);
    assert_eq!(payload_seed(0, 1), 0x2545_f491_4f6c_dd1d);
    assert_eq!(keypair_seed(1, 0), 0x9e37_79b9_7f4a_7c15);
    assert_eq!(keypair_seed(0, 5), 5);
    assert_eq!(keypair_seed(2, 3), 0x9e37_79b9_7f4a_7c15u64.wrapping_mul(2) ^ 3);
}

#[test]
fn keys_are_deterministic_per_node() {
    let a = deterministic_keypair(42, 0).map_err(|e| e.message()).unwrap();
    let b = deterministic_keypair(42, 0).map_err(|e| e.message()).unwrap();
    let c = deterministic_keypair(42, 1).map_err(|e| e.message()).unwrap();
    assert_eq!(a.public().to_peer_id(), b.public().to_peer_id());
    assert_ne!(a.public().to_peer_id(), c.public().to_peer_id());
}

#[test]
fn memory_addresses() {
    assert_eq!(memory_port(0), 1);
    assert_eq!(memory_addr(0).to_string(), "/memory/1");
    assert_eq!(memory_addr(29).to_string(), "/memory/30");
}

#[test]
fn event_filters() {
    assert_eq!(Up::Listening.listening(), Some(()));
    assert_eq!(Up::Mesh { node: 1, mesh: 2, connected: 3 }.listening(), None);
    assert_eq!(Up::Mesh { node: 1, mesh: 2, connected: 3 }.mesh(), Some((1, 2, 3)));
    assert_eq!(Up::Listening.mesh(), None);
    assert!(Up::Delivered { node: 1, seq: 4, at: 0 }.measurement(4).is_some());
    assert!(Up::Delivered { node: 1, seq: 4, at: 0 }.measurement(5).is_none());
    let p = Up::Published { seq: 4, ok: true, err: String::new(), call: 1 };
    assert!(p.measurement(4).is_some());
    assert!(Up::Listening.measurement(4).is_none());
}

#[test]
fn outcome_from_gathered_events() {
    let events = vec![
        Up::Delivered { node: 2, seq: 3, at: 150 },
        Up::Published { seq: 3, ok: true, err: String::new(), call: 9 },
        Up::Published { seq: 3, ok: false, err: "late".to_string(), call: 1 },
        Up::Delivered { node: 1, seq: 3, at: 90 },
    ];
    let o = outcome_from_events(3, 2, 100, &events);
    assert_eq!(o.seq(), 3);
    assert_eq!(o.publish_call(), 9);
    assert!(o.complete());
    let ds: Vec<(usize, u128)> = o.deliveries().iter().map(|d| (d.node(), d.latency())).collect();
    assert_eq!(ds, vec![(2, 50), (1, 0)]);
    let missing = outcome_from_events(4, 1, 0, &vec![Up::Delivered { node: 1, seq: 4, at: 5 }]);
    assert!(!missing.complete());
    assert_eq!(missing.json_line("0.000"), "{\"seq\":4,\"publish_ok\":false,\"publish_err\":\"publish event missing\",\"publish_call_ms\":0.000,\"delivered\":1,\"expected\":1,\"complete\":false}");
}

#[test]
fn byte_growth_per_node() {
    let base = vec![(10, 20), (5, 5), (1, 1)];
    let now = vec![(15, 20), (4, 9)];
    assert_eq!(byte_deltas(&now, &base), vec![(5, 0), (0, 4)]);
}

#[test]
fn setup_phase_needs_every_report() {
    assert_eq!(gathered(vec![1, 2, 3], 3, "mesh report").map_err(|e| e.message()), Ok(vec![1, 2, 3]));
    assert_eq!(
        gathered(vec![(); 2], 3, "listening").map_err(|e| e.message()),
        Err("setup phase timed out: listening".to_string())
    );
}
