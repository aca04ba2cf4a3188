use gossipsub_baseline_bench::report::{percentile, render, Delivery, MessageOutcome, Rendered, Summary};
use std::time::Duration;

fn ns(ms: u64) -> u128 {
    Duration::from_millis(ms).as_nanos()
}

#[test]
fn percentile_nearest_rank() -> Result<(), String> {
    let v: Vec<u128> = (1..=10).map(|m| Duration::from_millis(m).as_nanos()).collect();
    (percentile(&v, 50) == Duration::from_millis(5).as_nanos()
        && percentile(&v, 99) == Duration::from_millis(9).as_nanos()
        && percentile(&[], 50) == Duration::ZERO.as_nanos())
    .then_some(())
    .ok_or_else(|| "percentile math off".to_string())
}

#[test]
fn percentile_grows_with_rank_on_sorted_values() {
    let v: Vec<u128> = vec![3, 3, 7, 10, 12, 40];
    let qs = [0usize, 10, 25, 50, 75, 90, 99, 100];
    let ps: Vec<u128> = qs.iter().map(|q| percentile(&v, *q)).collect();
    assert!(ps.windows(2).all(|w| w[0] <= w[1]));
    assert_eq!(percentile(&v, 100), 40);
    assert_eq!(percentile(&v, 0), 3);
    assert!(ps.iter().all(|p| v.contains(p)));
}

#[test]
fn percentile_saturates_huge_rank() {
    let v: Vec<u128> = vec![1, 2, 3];
    // (3 - 1) * usize::MAX saturates; the index lands past the end.
    assert_eq!(percentile(&v, usize::MAX), 0);
}

fn outcome(seq: u64, ok: bool, lats: &[u64], expected: usize) -> MessageOutcome {
    let ds = lats.iter().enumerate().map(|(i, m)| Delivery::new(i + 1, ns(*m))).collect();
    MessageOutcome::new(seq, ok, String::new(), ns(4), ds, expected)
}

#[test]
fn completion_is_max_latency_when_complete() {
    let o = outcome(0, true, &[30, 10, 20], 3);
    assert!(o.complete());
    assert_eq!(o.completion(), Some(ns(30)));
    let short = outcome(1, true, &[30, 10], 3);
    assert!(!short.complete());
    assert_eq!(short.completion(), None);
    let failed = outcome(2, false, &[30, 10, 20], 3);
    assert!(!failed.complete());
    assert_eq!(failed.completion(), None);
    let empty = outcome(3, true, &[], 0);
    assert!(empty.complete());
    assert_eq!(empty.completion(), None);
}

#[test]
fn delivery_accessors() {
    let d = Delivery::new(7, 123);
    assert_eq!(d.node(), 7);
    assert_eq!(d.latency(), 123);
    let o = outcome(9, true, &[1, 2], 2);
    assert_eq!(o.seq(), 9);
    assert_eq!(o.deliveries().len(), 2);
    assert_eq!(o.deliveries()[1].node(), 2);
}

#[test]
fn json_line_replaces_quotes() {
    let o = MessageOutcome::new(5, false, "bad \"peer\"".to_string(), ns(1), vec![], 4);
    assert_eq!(
        o.json_line("1.000"),
        "{\"seq\":5,\"publish_ok\":false,\"publish_err\":\"bad 'peer'\",\"publish_call_ms\":1.000,\"delivered\":0,\"expected\":4,\"complete\":false}"
    );
}

fn sample_summary() -> Summary {
    let outcomes = vec![outcome(0, true, &[20, 10], 2), outcome(1, true, &[40], 2)];
    Summary::new(
        "{\"k\":1}".to_string(),
        "out".to_string(),
        vec![(0, 3, 4), (1, 5, 6), (2, 2, 2)],
        outcomes,
        vec![(100, 0), (0, 3000), (0, 1500)],
        1000,
        ns(2500),
    )
}

fn rendered(n: usize) -> Rendered {
    Rendered {
        latency_p50: "20.0".to_string(),
        latency_p90: "20.0".to_string(),
        latency_p99: "20.0".to_string(),
        latency_max: "40.0".to_string(),
        completion_p50: "20.0".to_string(),
        completion_max: "20.0".to_string(),
        amplification: "1.125".to_string(),
        wall_seconds: "2.5".to_string(),
        publish_call_ms: vec!["4.000".to_string(); n],
    }
}

#[test]
fn stats_of_sample_summary() {
    let s = sample_summary();
    let st = s.stats();
    assert_eq!((st.mesh_degree_min, st.mesh_degree_max), (2, 5));
    assert_eq!((st.messages_complete, st.messages_total), (1, 2));
    assert_eq!(st.latency_p50, ns(20));
    assert_eq!(st.latency_max, ns(40));
    assert_eq!(st.completion_p50, ns(20));
    assert_eq!(st.completion_max, ns(20));
    assert_eq!(st.wire_bytes_received_total, 4500);
    // 2 receivers * 1000 bytes * 2 messages
    assert_eq!(st.ideal_payload_bytes, 4000);
    assert_eq!((st.amplification_whole, st.amplification_thousandths), (1, 125));
    assert_eq!(st.wall, ns(2500));
    assert_eq!(s.sorted_latencies(), vec![ns(10), ns(20), ns(40)]);
}

#[test]
fn stats_without_ideal_bytes() {
    let s = Summary::new(String::new(), String::new(), vec![], vec![], vec![(1, 2)], 10, 0);
    let st = s.stats();
    assert_eq!(st.ideal_payload_bytes, 0);
    assert_eq!((st.amplification_whole, st.amplification_thousandths), (0, 0));
    assert_eq!((st.mesh_degree_min, st.mesh_degree_max), (0, 0));
    assert_eq!(st.latency_p50, 0);
}

#[test]
fn to_json_sample_document() {
    let s = sample_summary();
    let expected = "{\"config\":{\"k\":1},\n\"mesh_degree_min\":2,\"mesh_degree_max\":5,\n\"messages_complete\":1,\"messages_total\":2,\n\"delivery_latency_ms\":{\"p50\":20.0,\"p90\":20.0,\"p99\":20.0,\"max\":40.0},\n\"completion_ms\":{\"p50\":20.0,\"max\":20.0},\n\"wire_bytes_received_total\":4500,\"ideal_payload_bytes\":4000,\"amplification\":1.125,\n\"wall_seconds\":2.5,\n\"messages\":[{\"seq\":0,\"publish_ok\":true,\"publish_err\":\"\",\"publish_call_ms\":4.000,\"delivered\":2,\"expected\":2,\"complete\":true},\n{\"seq\":1,\"publish_ok\":true,\"publish_err\":\"\",\"publish_call_ms\":4.000,\"delivered\":1,\"expected\":2,\"complete\":false}]}";
    assert_eq!(s.to_json(&rendered(2)), expected);
    assert_eq!(render(&s, &rendered(2)), format!("wrote out/summary.json and deliveries.jsonl\n{expected}"));
    assert_eq!(s.out_dir(), "out");
}

#[test]
fn deliveries_jsonl_one_line_per_delivery() {
    let s = sample_summary();
    let texts = vec![vec!["20.000".to_string(), "10.000".to_string()], vec!["40.000".to_string()]];
    assert_eq!(
        s.deliveries_jsonl(&texts),
        "{\"seq\":0,\"node\":1,\"latency_ms\":20.000}\n{\"seq\":0,\"node\":2,\"latency_ms\":10.000}\n{\"seq\":1,\"node\":1,\"latency_ms\":40.000}"
    );
    let none = Summary::new(String::new(), String::new(), vec![], vec![], vec![], 0, 0);
    assert_eq!(none.deliveries_jsonl(&vec![]), "");
}

#[test]
fn completion_p50_over_sorted_completions() {
    let outcomes = [(0u64, 30u64), (1, 10), (2, 20)]
        .iter()
        .map(|&(q, l)| MessageOutcome::new(q, true, String::new(), 0, vec![Delivery::new(1, ns(l))], 1))
        .collect();
    let s = Summary::new(
        "{}".to_string(),
        "r".to_string(),
        vec![(0, 2, 3), (1, 1, 2)],
        outcomes,
        vec![(300, 0), (0, 450)],
        100,
        0,
    );
    let st = s.stats();
    assert_eq!((st.completion_p50, st.completion_max), (ns(20), ns(30)));
    assert_eq!((st.latency_p50, st.latency_p90, st.latency_p99, st.latency_max), (ns(20), ns(20), ns(20), ns(30)));
    assert_eq!((st.mesh_degree_min, st.mesh_degree_max), (1, 2));
    assert_eq!((st.wire_bytes_received_total, st.ideal_payload_bytes), (450, 300));
    assert_eq!((st.amplification_whole, st.amplification_thousandths), (1, 500));
}

#[test]
fn json_line_escapes_the_error_text() {
    let o = MessageOutcome::new(1, false, "a\\b\"c\n\u{1f}\u{7f}é".to_string(), 0, vec![], 2);
    assert_eq!(
        o.json_line("0.000"),
        "{\"seq\":1,\"publish_ok\":false,\"publish_err\":\"a\\\\b'c\\u000a\\u001f\u{7f}é\",\"publish_call_ms\":0.000,\"delivered\":0,\"expected\":2,\"complete\":false}"
    );
}
