use gossipsub_baseline_bench::shaping::{bytes_u64, schedule, Blocked, Counters, LinkQueue, MAX_QUEUE_BYTES};
use std::sync::Arc;
use std::time::Duration;

fn ns(d: Duration) -> u128 {
    d.as_nanos()
}

#[test]
fn schedule_serializes_back_to_back() -> Result<(), String> {
    let now = ns(Duration::from_secs(7));
    let latency = ns(Duration::from_millis(50));
    let service = ns(Duration::from_millis(10));
    let (r1, f1) = schedule(now, now, service, latency);
    (r1 == now + service + latency && f1 == now + service)
        .then_some(())
        .ok_or_else(|| "first chunk mistimed".to_string())?;
    let (r2, f2) = schedule(now, f1, service, latency);
    (r2 == now + service + service + latency && f2 == now + service + service)
        .then_some(())
        .ok_or_else(|| "second chunk did not queue behind the first".to_string())
}

#[test]
fn schedule_idles_when_link_free() -> Result<(), String> {
    let now = ns(Duration::from_secs(7));
    let earlier = now - ns(Duration::from_secs(1));
    let latency = ns(Duration::from_millis(5));
    let service = ns(Duration::from_millis(2));
    let (r, f) = schedule(now, earlier, service, latency);
    (r == now + service + latency && f == now + service)
        .then_some(())
        .ok_or_else(|| "idle link should serialize from now".to_string())
}

#[test]
fn bytes_u64_converts() {
    assert_eq!(bytes_u64(0), 0);
    assert_eq!(bytes_u64(16384), 16384);
}

#[test]
fn link_releases_in_order_and_not_early() {
    let counters = Arc::new(Counters::new());
    let mut q = LinkQueue::new(1_000, 50, counters.clone());
    // chunk A at t=1000 takes 10 to serialize: released at 1060.
    q.push_chunk(1_000, 10, b"abc");
    // chunk B at t=1005 waits for the serializer: released at 1010 + 20 + 50.
    q.push_chunk(1_005, 20, b"defg");
    assert_eq!(q.queued_bytes(), 7);
    assert_eq!(q.front_release(), Some(1_060));
    let mut buf = [0u8; 16];
    assert_eq!(q.deliver(1_059, &mut buf), 0);
    assert_eq!(q.blocked(false), Blocked::WaitUntil(1_060));
    assert_eq!(q.deliver(1_060, &mut buf), 3);
    assert_eq!(&buf[..3], b"abc");
    assert_eq!(q.front_release(), Some(1_080));
    let mut small = [0u8; 2];
    assert_eq!(q.deliver(2_000, &mut small), 2);
    assert_eq!(&small, b"de");
    assert_eq!(q.deliver(2_000, &mut buf), 2);
    assert_eq!(&buf[..2], b"fg");
    assert_eq!(q.queued_bytes(), 0);
    assert_eq!(q.blocked(false), Blocked::Idle);
    assert_eq!(q.blocked(true), Blocked::Fail);
    q.mark_eof();
    assert_eq!(q.blocked(false), Blocked::Eof);
    assert!(!q.accepts_more(false));
    assert_eq!(counters.snapshot(), (0, 7));
}

#[test]
fn link_fills_buffer_across_chunks() {
    let mut q = LinkQueue::new(0, 0, Arc::new(Counters::new()));
    q.push_chunk(0, 0, b"12");
    q.push_chunk(0, 0, b"345");
    q.push_chunk(0, 0, b"6");
    let mut buf = [0u8; 5];
    assert_eq!(q.deliver(0, &mut buf), 5);
    assert_eq!(&buf, b"12345");
    let mut empty: [u8; 0] = [];
    assert_eq!(q.deliver(0, &mut empty), 0);
    let mut rest = [9u8; 3];
    assert_eq!(q.deliver(0, &mut rest), 1);
    assert_eq!(&rest, &[b'6', 9, 9]);
}

#[test]
fn link_back_pressure_cap() {
    let mut q = LinkQueue::new(0, 0, Arc::new(Counters::new()));
    assert!(q.accepts_more(false));
    assert!(!q.accepts_more(true));
    let chunk = vec![7u8; 16 * 1024];
    while q.accepts_more(false) {
        q.push_chunk(0, 0, &chunk);
    }
    assert!(q.queued_bytes() >= MAX_QUEUE_BYTES);
    assert_eq!(q.queued_bytes(), MAX_QUEUE_BYTES);
}

#[test]
fn counters_count_sent_bytes() {
    let c = Counters::new();
    c.record_sent(10);
    c.record_sent(5);
    assert_eq!(c.snapshot(), (15, 0));
}
