//! In-process link emulation and neutral wire-byte accounting.
//!
//! The link model is a fluid one on the receive path: each chunk read
//! from the underlying channel is released to the reader no earlier than
//! `max(arrival, serializer_free) + len/bandwidth + latency`. Times are
//! nanoseconds on one monotonic clock; spans are nanoseconds too.
use std::collections::VecDeque;
use std::sync::atomic::{AtomicU64, Ordering};
use std::sync::Arc;
use vstd::prelude::*;

verus! {

/// Points in time and spans of time, in nanoseconds.
pub type Nanos = u128;

/// Read granularity for the shaper (also the release-queue chunk size).
pub const CHUNK: usize = 16 * 1024;

/// Max chunks pulled from the inner channel per poll.
pub const MAX_DRAIN_ROUNDS: usize = 64;

/// Cap on bytes buffered in the emulated link before back-pressuring.
pub const MAX_QUEUE_BYTES: usize = 8 * 1024 * 1024;

/// `n` as a `u64`, saturating at `u64::MAX`.
pub fn bytes_u64(n: usize) -> (r: u64)
    ensures
        r == (if n <= u64::MAX { n as u64 } else { u64::MAX }),
{
    if n as u128 <= u64::MAX as u128 {
        n as u64
    } else {
        u64::MAX
    }
}

/// The later of two instants.
pub open spec fn later(a: Nanos, b: Nanos) -> Nanos {
    if a >= b { a } else { b }
}

/// Release schedule for one chunk under the fluid link model.
///
/// Returns `(release_at, serializer_free_after)`: the chunk finishes
/// serializing at `max(now, free_at) + service` and arrives `latency`
/// later.
pub fn schedule(now: Nanos, free_at: Nanos, service: Nanos, latency: Nanos) -> (r: (Nanos, Nanos))
    requires
        later(now, free_at) + service + latency <= u128::MAX,
    ensures
        r.1 == later(now, free_at) + service,
        r.0 == r.1 + latency,
{
    let start = if now >= free_at { now } else { free_at };
    let done = start + service;
    (done + latency, done)
}

/// Chunks queued back to back serialize back to back: when a chunk is
/// scheduled on the serializer the previous one left, it finishes at least
/// its own service time after the previous one, and is released at least
/// that much later too.
pub proof fn lemma_back_to_back(
    now1: Nanos,
    now2: Nanos,
    free_at: Nanos,
    service1: Nanos,
    service2: Nanos,
    latency: Nanos,
)
    requires
        later(now1, free_at) + service1 <= u128::MAX,
    ensures
        ({
            let free1 = later(now1, free_at) + service1;
            let free2 = later(now2, free1 as Nanos) + service2;
            &&& free1 >= free_at + service1
            &&& free2 >= free1 + service2
            &&& free2 + latency >= free1 + latency + service2
            &&& now2 <= free1 ==> free2 == free1 + service2
        }),
{
}

/// Wire-byte counters for one node, summed over all its connections.
#[derive(Debug)]
pub struct Counters {
    sent: AtomicU64,
    received: AtomicU64,
}

impl Counters {
    /// Both counters at zero.
    pub fn new() -> (c: Counters) {
        Counters { sent: AtomicU64::new(0), received: AtomicU64::new(0) }
    }

    fn add_sent(&self, n: u64) {
        let _ = self.sent.fetch_add(n, Ordering::Relaxed);
    }

    fn add_received(&self, n: u64) {
        let _ = self.received.fetch_add(n, Ordering::Relaxed);
    }

    /// Count `n` bytes written to the wire.
    pub fn record_sent(&self, n: usize) {
        self.add_sent(bytes_u64(n));
    }

    /// Current (sent, received) totals in bytes. Other connections may be
    /// counting concurrently, so nothing fixes the values read.
    pub fn snapshot(&self) -> (r: (u64, u64)) {
        (self.sent.load(Ordering::Relaxed), self.received.load(Ordering::Relaxed))
    }
}

/// The bytes of a queue of `(release_at, bytes)` chunks, front first.
pub open spec fn flatten(v: Seq<(Nanos, Seq<u8>)>) -> Seq<u8>
    decreases v.len(),
{
    if v.len() == 0 {
        Seq::empty()
    } else {
        v[0].1 + flatten(v.drop_first())
    }
}

/// How many bytes at the front of the queue are released by `now`: the
/// bytes of the longest prefix of chunks whose release time has come.
pub open spec fn ready_len(v: Seq<(Nanos, Seq<u8>)>, now: Nanos) -> nat
    decreases v.len(),
{
    if v.len() == 0 || v[0].0 > now {
        0
    } else {
        v[0].1.len() + ready_len(v.drop_first(), now)
    }
}

/// Release times never decrease along the queue, and none is later than
/// `horizon`.
pub open spec fn releases_in_order(v: Seq<(Nanos, Seq<u8>)>, horizon: int) -> bool {
    &&& forall|i: int, j: int| 0 <= i < j < v.len() ==> #[trigger] v[i].0 <= #[trigger] v[j].0
    &&& forall|i: int| 0 <= i < v.len() ==> #[trigger] v[i].0 <= horizon
}

/// The smaller of two lengths.
pub open spec fn min_len(a: nat, b: nat) -> nat {
    if a <= b { a } else { b }
}

struct Chunk {
    release_at: Nanos,
    data: Vec<u8>,
    offset: usize,
}

spec fn chunk_view(c: Chunk) -> (Nanos, Seq<u8>) {
    (c.release_at, c.data@.subrange(c.offset as int, c.data@.len() as int))
}

/// The receive side of one emulated link: chunks waiting for their release
/// time, the serializer's next free instant and the one-way latency.
pub struct LinkQueue {
    latency: Nanos,
    free_at: Nanos,
    queue: VecDeque<Chunk>,
    queued_bytes: usize,
    eof: bool,
    counters: Arc<Counters>,
}

impl View for LinkQueue {
    /// Waiting chunks, front first, as (release time, bytes not yet read).
    type V = Seq<(Nanos, Seq<u8>)>;

    closed spec fn view(&self) -> Seq<(Nanos, Seq<u8>)> {
        self.queue@.map_values(|c: Chunk| chunk_view(c))
    }
}

proof fn lemma_flatten_push(v: Seq<(Nanos, Seq<u8>)>, x: (Nanos, Seq<u8>))
    ensures
        flatten(v.push(x)) == flatten(v) + x.1,
    decreases v.len(),
{
    if v.len() == 0 {
        let e = Seq::<(Nanos, Seq<u8>)>::empty();
        assert(v.push(x).drop_first() =~= e);
        assert(flatten(e) =~= Seq::<u8>::empty());
        assert(flatten(v.push(x)) =~= x.1 + flatten(e));
        assert(flatten(v.push(x)) =~= x.1);
    } else {
        lemma_flatten_push(v.drop_first(), x);
        assert(v.push(x).drop_first() =~= v.drop_first().push(x));
        assert(flatten(v.push(x)) =~= flatten(v) + x.1);
    }
}

proof fn lemma_ready_le_len(v: Seq<(Nanos, Seq<u8>)>, now: Nanos)
    ensures
        ready_len(v, now) <= flatten(v).len(),
    decreases v.len(),
{
    if v.len() > 0 {
        lemma_ready_le_len(v.drop_first(), now);
    }
}

impl LinkQueue {
    /// The serializer's next free instant.
    pub closed spec fn free_at(&self) -> Nanos {
        self.free_at
    }

    /// One-way propagation delay.
    pub closed spec fn latency(&self) -> Nanos {
        self.latency
    }

    /// Whether the inner channel has reported end of stream.
    pub closed spec fn at_eof(&self) -> bool {
        self.eof
    }

    /// Internal consistency: every waiting chunk has bytes left and the
    /// byte count matches the queue.
    pub closed spec fn well_formed(&self) -> bool {
        &&& self.queued_bytes == flatten(self@).len()
        &&& forall|i: int| 0 <= i < self.queue@.len() ==> #[trigger] self.queue@[i].offset < self.queue@[i].data@.len()
        &&& releases_in_order(self@, self.free_at + self.latency)
    }

    /// An empty link whose serializer is free from `now`.
    pub fn new(now: Nanos, latency: Nanos, counters: Arc<Counters>) -> (q: LinkQueue)
        ensures
            q.well_formed(),
            q@ == Seq::<(Nanos, Seq<u8>)>::empty(),
            q.free_at() == now,
            q.latency() == latency,
            !q.at_eof(),
    {
        let q = LinkQueue { latency, free_at: now, queue: VecDeque::new(), queued_bytes: 0, eof: false, counters };
        proof {
            assert(q@ =~= Seq::<(Nanos, Seq<u8>)>::empty());
        }
        q
    }

    /// Bytes held in the emulated link.
    pub fn queued_bytes(&self) -> (r: usize)
        requires
            self.well_formed(),
        ensures
            r == flatten(self@).len(),
    {
        self.queued_bytes
    }

    /// Whether another read from the inner channel may be taken: not after
    /// end of stream or an error, and not while the queue holds
    /// `MAX_QUEUE_BYTES` or more.
    pub fn accepts_more(&self, has_pending_err: bool) -> (r: bool)
        requires
            self.well_formed(),
        ensures
            r == !(self.at_eof() || has_pending_err || flatten(self@).len() >= MAX_QUEUE_BYTES),
    {
        !(self.eof || has_pending_err || self.queued_bytes >= MAX_QUEUE_BYTES)
    }

    /// The inner channel reached end of stream.
    pub fn mark_eof(&mut self)
        ensures
            final(self)@ == old(self)@,
            final(self).at_eof(),
            final(self).free_at() == old(self).free_at(),
            final(self).latency() == old(self).latency(),
            old(self).well_formed() ==> final(self).well_formed(),
    {
        self.eof = true;
    }

    /// Queue a chunk read at `now` that takes `service` to serialize: it is
    /// released at `max(now, free_at) + service + latency`, and counted as
    /// received.
    pub fn push_chunk(&mut self, now: Nanos, service: Nanos, data: &[u8])
        requires
            old(self).well_formed(),
            0 < data@.len() <= CHUNK,
            flatten(old(self)@).len() < MAX_QUEUE_BYTES,
            later(now, old(self).free_at()) + service + old(self).latency() <= u128::MAX,
        ensures
            final(self).well_formed(),
            final(self)@ == old(self)@.push(
                ((later(now, old(self).free_at()) + service + old(self).latency()) as Nanos, data@),
            ),
            flatten(final(self)@) == flatten(old(self)@) + data@,
            flatten(final(self)@).len() < MAX_QUEUE_BYTES + CHUNK,
            final(self).free_at() == later(now, old(self).free_at()) + service,
            final(self).latency() == old(self).latency(),
            final(self).at_eof() == old(self).at_eof(),
    {
        let (release_at, free_after) = schedule(now, self.free_at, service, self.latency);
        self.free_at = free_after;
        self.queued_bytes = self.queued_bytes + data.len();
        self.counters.add_received(bytes_u64(data.len()));
        let chunk = Chunk { release_at, data: vstd::slice::slice_to_vec(data), offset: 0 };
        let ghost before = self@;
        self.queue.push_back(chunk);
        proof {
            assert(chunk.data@.subrange(0, chunk.data@.len() as int) =~= data@);
            assert(self@ =~= before.push((release_at, data@)));
            lemma_flatten_push(before, (release_at, data@));
        }
    }

    /// Whether a chunk read at `now` taking `service` can be scheduled
    /// without the release instant leaving the clock's range.
    pub fn schedule_fits(&self, now: Nanos, service: Nanos) -> (r: bool)
        ensures
            r == (later(now, self.free_at()) + service + self.latency() <= u128::MAX),
    {
        let start = if now >= self.free_at { now } else { self.free_at };
        match start.checked_add(service) {
            Some(done) => done.checked_add(self.latency).is_some(),
            None => false,
        }
    }

    /// Release time of the front chunk, if any.
    pub fn front_release(&self) -> (r: Option<Nanos>)
        ensures
            r == (if self@.len() == 0 { None } else { Some(self@[0].0) }),
    {
        if self.queue.len() == 0 {
            None
        } else {
            Some(self.queue[0].release_at)
        }
    }

    fn front_ready(&self, now: Nanos) -> (r: bool)
        ensures
            r == (self@.len() > 0 && self@[0].0 <= now),
    {
        self.queue.len() > 0 && self.queue[0].release_at <= now
    }

    /// Copy from the front chunk into `buf[written..]` as much as fits, and
    /// drop the chunk once it is used up. Returns the new fill level.
    fn copy_front(&mut self, buf: &mut [u8], written: usize) -> (w: usize)
        requires
            old(self).well_formed(),
            written <= old(buf)@.len(),
        ensures
            final(self).well_formed(),
            final(self).free_at() == old(self).free_at(),
            final(self).latency() == old(self).latency(),
            final(self).at_eof() == old(self).at_eof(),
            final(buf)@.len() == old(buf)@.len(),
            ({
                let n = if old(self)@.len() == 0 {
                    0
                } else {
                    min_len((old(buf)@.len() - written) as nat, old(self)@[0].1.len())
                };
                &&& w == written + n
                &&& final(buf)@ == old(buf)@.take(written as int) + flatten(old(self)@).take(n as int)
                    + old(buf)@.skip(written + n)
                &&& flatten(final(self)@) == flatten(old(self)@).skip(n as int)
                &&& old(self)@.len() == 0 ==> final(self)@ == old(self)@
                &&& old(self)@.len() > 0 && n == old(self)@[0].1.len() ==> final(self)@
                    == old(self)@.drop_first()
                &&& old(self)@.len() > 0 && n < old(self)@[0].1.len() ==> final(self)@
                    == old(self)@.update(0, (old(self)@[0].0, old(self)@[0].1.skip(n as int)))
            }),
    {
        if self.queue.len() == 0 {
            self.queued_bytes = self.queued_bytes.saturating_sub(0);
            proof {
                assert(buf@ =~= old(buf)@.take(written as int) + flatten(old(self)@).take(0)
                    + old(buf)@.skip(written as int));
                assert(flatten(self@) =~= flatten(old(self)@).skip(0));
            }
            return written;
        }
        let ghost v0 = self@;
        let ghost q0 = self.queue@;
        let ghost b0 = buf@;
        let mut chunk = self.queue.pop_front().unwrap();
        proof {
            assert(chunk == q0[0]);
            assert(self.queue@ =~= q0.drop_first());
            assert(self@ =~= v0.drop_first());
        }
        let room = buf.len() - written;
        let avail = chunk.data.len() - chunk.offset;
        let n = if room < avail { room } else { avail };
        let mut t: usize = 0;
        while t < n
            invariant
                t <= n,
                written + n <= buf@.len(),
                buf@.len() <= usize::MAX,
                chunk.data@.len() <= usize::MAX,
                chunk.offset + n <= chunk.data@.len(),
                buf@.len() == b0.len(),
                forall|m: int| 0 <= m < written ==> buf@[m] == b0[m],
                forall|m: int| written + t <= m < b0.len() ==> buf@[m] == b0[m],
                forall|m: int| written <= m < written + t ==> #[trigger] buf@[m] == chunk.data@[chunk.offset + m - written],
            decreases n - t,
        {
            buf[written + t] = chunk.data[chunk.offset + t];
            t = t + 1;
        }
        let ghost rest0 = chunk_view(chunk).1;
        proof {
            assert(v0[0] == chunk_view(chunk));
            assert(flatten(v0) == v0[0].1 + flatten(v0.drop_first()));
            assert(flatten(v0).take(n as int) =~= rest0.take(n as int));
            assert(buf@ =~= b0.take(written as int) + flatten(v0).take(n as int) + b0.skip(written + n));
        }
        chunk.offset = chunk.offset + n;
        if chunk.offset < chunk.data.len() {
            self.queue.push_front(chunk);
            proof {
                assert(chunk_view(chunk).1 =~= rest0.skip(n as int));
                assert(self@ =~= v0.update(0, (v0[0].0, v0[0].1.skip(n as int))));
                let v1 = self@;
                assert(v1.drop_first() =~= v0.drop_first());
                assert(flatten(v1) == v1[0].1 + flatten(v1.drop_first()));
                assert(flatten(self@) =~= flatten(v0).skip(n as int));
            }
        } else {
            proof {
                assert(n == rest0.len());
                assert(flatten(self@) =~= flatten(v0).skip(n as int));
            }
        }
        self.queued_bytes = self.queued_bytes.saturating_sub(n);
        written + n
    }

    /// Copy into `buf` the bytes released by `now`, front first, as many as
    /// fit. Returns how many bytes were copied.
    pub fn deliver(&mut self, now: Nanos, buf: &mut [u8]) -> (r: usize)
        requires
            old(self).well_formed(),
        ensures
            final(self).well_formed(),
            final(self).free_at() == old(self).free_at(),
            final(self).latency() == old(self).latency(),
            final(self).at_eof() == old(self).at_eof(),
            r == min_len(old(buf)@.len(), ready_len(old(self)@, now)),
            final(buf)@ == flatten(old(self)@).take(r as int) + old(buf)@.skip(r as int),
            flatten(final(self)@) == flatten(old(self)@).skip(r as int),
            ready_len(final(self)@, now) == ready_len(old(self)@, now) - r,
            r <= flatten(old(self)@).len(),
    {
        let cap: usize = if buf.len() > 1 { buf.len() } else { 1 };
        let mut written: usize = 0;
        let mut rounds: usize = 0;
        proof {
            assert(buf@ =~= flatten(old(self)@).take(0) + old(buf)@.skip(0));
            assert(flatten(self@) =~= flatten(old(self)@).skip(0));
        }
        while rounds < cap && written < buf.len() && self.front_ready(now)
            invariant
                self.well_formed(),
                self.free_at() == old(self).free_at(),
                self.latency() == old(self).latency(),
                self.at_eof() == old(self).at_eof(),
                buf@.len() == old(buf)@.len(),
                cap == (if old(buf)@.len() > 1 { old(buf)@.len() } else { 1 }),
                written <= buf@.len(),
                rounds <= written,
                rounds <= cap,
                buf@ == flatten(old(self)@).take(written as int) + old(buf)@.skip(written as int),
                flatten(self@) == flatten(old(self)@).skip(written as int),
                ready_len(self@, now) + written == ready_len(old(self)@, now),
            decreases cap - rounds,
        {
            let ghost v = self@;
            let ghost b = buf@;
            let ghost f0 = flatten(old(self)@);
            let w = self.copy_front(buf, written);
            proof {
                let n = (w - written) as nat;
                assert(v.len() > 0 && v[0].0 <= now);
                assert(v[0].1.len() > 0) by {
                    assert(flatten(v) == v[0].1 + flatten(v.drop_first()));
                    lemma_ready_le_len(v.drop_first(), now);
                }
                assert(n >= 1);
                assert(ready_len(v, now) == v[0].1.len() + ready_len(v.drop_first(), now));
                if n < v[0].1.len() {
                    let v1 = self@;
                    assert(v1.drop_first() =~= v.drop_first());
                }
                lemma_ready_le_len(v, now);
                lemma_ready_le_len(old(self)@, now);
                assert(flatten(v).len() == f0.len() - written);
                assert(b.take(written as int) =~= f0.take(written as int));
                assert(flatten(v).take(n as int) =~= f0.subrange(written as int, written + n));
                assert(b.skip(w as int) =~= old(buf)@.skip(w as int));
                assert(buf@ =~= f0.take(w as int) + old(buf)@.skip(w as int));
                assert(flatten(self@) =~= f0.skip(w as int));
            }
            written = w;
            rounds = rounds + 1;
        }
        proof {
            lemma_ready_le_len(self@, now);
            lemma_ready_le_len(old(self)@, now);
        }
        written
    }

    /// What a read that found no released bytes should do: wait for the
    /// front chunk's release time, else surface a pending error, else
    /// report end of stream, else stay pending.
    pub fn blocked(&self, has_pending_err: bool) -> (r: Blocked)
        ensures
            r == (if self@.len() > 0 {
                Blocked::WaitUntil(self@[0].0)
            } else if has_pending_err {
                Blocked::Fail
            } else if self.at_eof() {
                Blocked::Eof
            } else {
                Blocked::Idle
            }),
    {
        match self.front_release() {
            Some(at) => Blocked::WaitUntil(at),
            None => {
                if has_pending_err {
                    Blocked::Fail
                } else if self.eof {
                    Blocked::Eof
                } else {
                    Blocked::Idle
                }
            },
        }
    }
}

/// Chunks leave in release order, and none is released later than the
/// serializer's free instant plus the latency.
pub proof fn lemma_release_order(q: &LinkQueue)
    requires
        q.well_formed(),
    ensures
        releases_in_order(q@, q.free_at() + q.latency()),
{
}


/// Outcome of a read that found nothing released yet.
#[derive(Debug, PartialEq, Eq, Structural)]
pub enum Blocked {
    /// Arm a timer for this instant, when the front chunk is released.
    WaitUntil(Nanos),
    /// Surface the stored read error.
    Fail,
    /// The stream ended and everything was delivered.
    Eof,
    /// Nothing to do until the inner channel wakes the reader.
    Idle,
}

/// One thing that happens to a link's bytes: a chunk arrives from the channel
/// (`push_chunk` appends it to `flatten(q@)`), or the reader takes `n`
/// released bytes (`deliver` hands over the first `n` and drops them).
pub ghost enum LinkEvent {
    Arrive(Seq<u8>),
    Take(nat),
}

/// Run `events` on a link holding `pending`: the bytes handed to the reader,
/// in order, and the bytes still waiting.
pub open spec fn run_link(pending: Seq<u8>, events: Seq<LinkEvent>) -> (Seq<u8>, Seq<u8>)
    decreases events.len(),
{
    if events.len() == 0 {
        (Seq::empty(), pending)
    } else {
        match events[0] {
            LinkEvent::Arrive(d) => run_link(pending + d, events.drop_first()),
            LinkEvent::Take(n) => {
                let rest = run_link(pending.skip(n as int), events.drop_first());
                (pending.take(n as int) + rest.0, rest.1)
            },
        }
    }
}

/// Every take asks for no more bytes than are waiting (as `deliver`
/// guarantees).
pub open spec fn takes_fit(pending: Seq<u8>, events: Seq<LinkEvent>) -> bool
    decreases events.len(),
{
    if events.len() == 0 {
        true
    } else {
        match events[0] {
            LinkEvent::Arrive(d) => takes_fit(pending + d, events.drop_first()),
            LinkEvent::Take(n) => n <= pending.len() && takes_fit(pending.skip(n as int), events.drop_first()),
        }
    }
}

/// All bytes that arrive during `events`, in order.
pub open spec fn arrivals(events: Seq<LinkEvent>) -> Seq<u8>
    decreases events.len(),
{
    if events.len() == 0 {
        Seq::empty()
    } else {
        match events[0] {
            LinkEvent::Arrive(d) => d + arrivals(events.drop_first()),
            LinkEvent::Take(_) => arrivals(events.drop_first()),
        }
    }
}

/// The link is a FIFO byte stream: whatever the reader has taken, followed
/// by what still waits, is exactly what was waiting at the start followed by
/// everything that arrived. No byte is lost, duplicated or reordered.
pub proof fn lemma_link_is_fifo(pending: Seq<u8>, events: Seq<LinkEvent>)
    requires
        takes_fit(pending, events),
    ensures
        run_link(pending, events).0 + run_link(pending, events).1 == pending + arrivals(events),
    decreases events.len(),
{
    if events.len() > 0 {
        let rest = events.drop_first();
        match events[0] {
            LinkEvent::Arrive(d) => {
                lemma_link_is_fifo(pending + d, rest);
                assert(pending + d + arrivals(rest) =~= pending + (d + arrivals(rest)));
            },
            LinkEvent::Take(n) => {
                lemma_link_is_fifo(pending.skip(n as int), rest);
                let r = run_link(pending.skip(n as int), rest);
                assert(pending.take(n as int) + r.0 + r.1 =~= pending.take(n as int) + (r.0 + r.1));
                assert(pending.take(n as int) + pending.skip(n as int) =~= pending);
                assert(pending.take(n as int) + (pending.skip(n as int) + arrivals(rest)) =~= pending + arrivals(rest));
            },
        }
    } else {
        assert(pending + Seq::<u8>::empty() =~= pending);
        assert(Seq::<u8>::empty() + pending =~= pending);
    }
}

} // verus!
