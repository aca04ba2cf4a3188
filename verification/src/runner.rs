//! The decisions of the benchmark schedule: seeds, payloads and their
//! sequence numbers, node addresses and keys, and turning the events a run
//! reports into per-message outcomes and byte counts. Driving the swarms
//! themselves is the caller's job.
use libp2p_core::multiaddr::Protocol;
use libp2p_core::Multiaddr;
use libp2p_identity::Keypair;
use vstd::prelude::*;
use vstd::string::*;

use crate::error::{Error, ErrorView};
use crate::report::{Delivery, MessageOutcome, OutcomeView};
use crate::rng::{chacha8_byte, chacha8_bytes32, draw_32_bytes, draw_byte, repeated, seeded, Draw};
use crate::shaping::Nanos;

verus! {

broadcast use vstd::string::group_string_axioms;

/// The `n` bytes of `x` from least to most significant (as
/// `to_le_bytes` lays them out when `x < 256^n`).
pub open spec fn le_bytes(x: nat, n: nat) -> Seq<u8>
    decreases n,
{
    if n == 0 {
        Seq::empty()
    } else {
        seq![(x % 256) as u8] + le_bytes(x / 256, (n - 1) as nat)
    }
}

/// The number that little-endian bytes `s` encode (as `from_le_bytes`
/// reads them).
pub open spec fn le_value(s: Seq<u8>) -> nat
    decreases s.len(),
{
    if s.len() == 0 {
        0
    } else {
        (s[0] as nat) + 256 * le_value(s.drop_first())
    }
}

/// `256^n`.
pub open spec fn pow256(n: nat) -> nat
    decreases n,
{
    if n == 0 { 1 } else { 256 * pow256((n - 1) as nat) }
}

proof fn lemma_le_roundtrip(x: nat, n: nat)
    ensures
        le_bytes(x, n).len() == n,
        le_value(le_bytes(x, n)) == x % pow256(n),
    decreases n,
{
    if n > 0 {
        lemma_le_roundtrip(x / 256, (n - 1) as nat);
        let s = le_bytes(x, n);
        assert(s.drop_first() =~= le_bytes(x / 256, (n - 1) as nat));
        assert(pow256((n - 1) as nat) > 0) by {
            lemma_pow256_positive((n - 1) as nat);
        }
        vstd::arithmetic::div_mod::lemma_breakdown(x as int, 256, pow256((n - 1) as nat) as int);
    }
}

proof fn lemma_pow256_positive(n: nat)
    ensures
        pow256(n) > 0,
    decreases n,
{
    if n > 0 {
        lemma_pow256_positive((n - 1) as nat);
    }
}

proof fn lemma_le_value_bound(s: Seq<u8>)
    ensures
        le_value(s) < pow256(s.len()),
    decreases s.len(),
{
    if s.len() > 0 {
        lemma_le_value_bound(s.drop_first());
    }
}

proof fn lemma_pow256_8()
    ensures
        pow256(8) == 0x1_0000_0000_0000_0000,
{
    reveal_with_fuel(pow256, 9);
}

/// The sequence number a payload carries: its first eight bytes read
/// little-endian, when it has eight.
pub open spec fn payload_seq_spec(data: Seq<u8>) -> Option<u64> {
    if data.len() >= 8 {
        Some(le_value(data.take(8)) as u64)
    } else {
        None
    }
}

/// A payload that starts with the eight little-endian bytes of `seq` carries
/// `seq`: what the publisher writes is what every receiver reads back.
pub proof fn lemma_payload_carries_seq(seq: u64, data: Seq<u8>)
    requires
        data.len() >= 8,
        data.take(8) == le_bytes(seq as nat, 8),
    ensures
        payload_seq_spec(data) == Some(seq),
{
    lemma_le_roundtrip(seq as nat, 8);
    lemma_pow256_8();
}

/// Seed of the generator for payload `seq`.
pub open spec fn payload_seed_spec(seed: u64, seq: u64) -> u64 {
    seed ^ seq.wrapping_mul(0x2545_f491_4f6c_dd1d)
}

/// Seed of the generator for the key of node `idx`.
pub open spec fn keypair_seed_spec(seed: u64, idx: usize) -> u64 {
    seed.wrapping_mul(0x9e37_79b9_7f4a_7c15) ^ (idx as u64)
}

/// The seeded payload for message `seq`: the eight little-endian bytes of
/// `seq`, then `size - 8` bytes from a generator seeded with
/// `payload_seed_spec(seed, seq)` (at least the eight bytes).
pub fn payload(seed: u64, seq: u64, size: usize) -> (r: Vec<u8>)
    ensures
        r@.len() == 8 + (if size >= 8 { size - 8 } else { 0 }),
        r@.take(8) == le_bytes(seq as nat, 8),
        payload_seq_spec(r@) == Some(seq),
        forall|k: int|
            0 <= k < r@.len() - 8 ==> #[trigger] r@[8 + k] == chacha8_byte(payload_seed_spec(seed, seq), repeated(Draw::Byte, k as nat)),
{
    let mut rng = seeded(payload_seed(seed, seq));
    let mut out: Vec<u8> = Vec::new();
    let mut v: u64 = seq;
    let mut k: usize = 0;
    proof {
        assert(out@ + le_bytes(v as nat, 8) =~= le_bytes(seq as nat, 8));
    }
    while k < 8
        invariant
            k <= 8,
            out@.len() == k,
            out@ + le_bytes(v as nat, (8 - k) as nat) == le_bytes(seq as nat, 8),
        decreases 8 - k,
    {
        let b = (v % 256) as u8;
        proof {
            let rest = le_bytes(v as nat, (8 - k) as nat);
            assert(rest == seq![b] + le_bytes((v / 256) as nat, (8 - k - 1) as nat));
            assert(out@.push(b) + le_bytes((v / 256) as nat, (8 - k - 1) as nat) =~= out@ + rest);
        }
        out.push(b);
        v = v / 256;
        k = k + 1;
    }
    proof {
        assert(out@ =~= le_bytes(seq as nat, 8));
    }
    let n = if size >= 8 { size - 8 } else { 0 };
    let mut i: usize = 0;
    while i < n
        invariant
            i <= n,
            out@.len() == 8 + i,
            out@.take(8) == le_bytes(seq as nat, 8),
            rng@ == (payload_seed_spec(seed, seq), repeated(Draw::Byte, i as nat)),
            forall|k: int|
                0 <= k < i ==> #[trigger] out@[8 + k] == chacha8_byte(payload_seed_spec(seed, seq), repeated(Draw::Byte, k as nat)),
        decreases n - i,
    {
        let ghost before = out@;
        out.push(draw_byte(&mut rng));
        proof {
            assert(out@.take(8) =~= before.take(8));
            assert(repeated(Draw::Byte, i as nat).push(Draw::Byte) =~= repeated(Draw::Byte, (i + 1) as nat));
            assert forall|k: int| 0 <= k < i + 1 implies #[trigger] out@[8 + k] == chacha8_byte(payload_seed_spec(seed, seq), repeated(Draw::Byte, k as nat)) by {
                if k < i {
                    assert(out@[8 + k] == before[8 + k]);
                }
            }
        }
        i = i + 1;
    }
    proof {
        lemma_payload_carries_seq(seq, out@);
    }
    out
}

/// The sequence number a received payload carries (its first eight bytes,
/// little-endian), if it has eight bytes.
pub fn payload_seq(data: &[u8]) -> (r: Option<u64>)
    ensures
        r == payload_seq_spec(data@),
{
    if data.len() < 8 {
        return None;
    }
    let ghost head = data@.take(8);
    let mut acc: u64 = 0;
    let mut k: usize = 8;
    proof {
        assert(head.subrange(8, 8) =~= Seq::<u8>::empty());
    }
    while k > 0
        invariant
            k <= 8,
            data@.len() >= 8,
            head == data@.take(8),
            acc == le_value(head.subrange(k as int, 8)),
        decreases k,
    {
        let ghost tail = head.subrange(k as int, 8);
        proof {
            lemma_le_value_bound(tail);
            assert(pow256((8 - k) as nat) <= pow256(7)) by {
                lemma_pow256_monotone((8 - k) as nat, 7);
            }
            reveal_with_fuel(pow256, 8);
            assert(acc < 0x100_0000_0000_0000);
        }
        let b = data[k - 1];
        acc = acc * 256 + b as u64;
        k = k - 1;
        proof {
            let t = head.subrange(k as int, 8);
            assert(t.drop_first() =~= tail);
            assert(t[0] == b);
        }
    }
    proof {
        assert(head.subrange(0, 8) =~= head);
    }
    Some(acc)
}

proof fn lemma_pow256_monotone(a: nat, b: nat)
    requires
        a <= b,
    ensures
        pow256(a) <= pow256(b),
    decreases b,
{
    if a < b {
        lemma_pow256_monotone(a, (b - 1) as nat);
        lemma_pow256_positive((b - 1) as nat);
    }
}

/// The TCP-free memory-transport port of node `idx`: `idx + 1`.
pub fn memory_port(idx: usize) -> (r: u64)
    requires
        idx < u64::MAX,
    ensures
        r == idx + 1,
{
    (idx as u64) + 1
}

/// The address of node `idx` on the memory transport: `/memory/<idx + 1>`.
pub fn memory_addr(idx: usize) -> (r: Multiaddr)
    requires
        idx < u64::MAX,
    ensures
        r == memory_multiaddr_of((idx + 1) as u64),
{
    memory_multiaddr(memory_port(idx))
}

/// `libp2p_core::Multiaddr`, opaque.
#[verifier::external_type_specification]
#[verifier::external_body]
pub struct ExMultiaddr(Multiaddr);

/// `libp2p_identity::Keypair`, opaque.
#[verifier::external_type_specification]
#[verifier::external_body]
pub struct ExKeypair(Keypair);

/// The one-component address `/memory/<port>`.
pub uninterp spec fn memory_multiaddr_of(port: u64) -> Multiaddr;

/// `Multiaddr::empty().with(Protocol::Memory(port))`: the address is a
/// function of the port alone.
#[verifier::external_body]
fn memory_multiaddr(port: u64) -> (r: Multiaddr)
    ensures
        r == memory_multiaddr_of(port),
{
    Multiaddr::empty().with(Protocol::Memory(port))
}

/// The Ed25519 keypair whose secret key is `secret`.
pub uninterp spec fn ed25519_keypair_of(secret: Seq<u8>) -> Keypair;

/// `Keypair::ed25519_from_bytes`. In libp2p-identity 0.2 it only checks
/// that it was given 32 bytes, so with 32 bytes it succeeds, with the
/// keypair of that secret key.
#[verifier::external_body]
fn ed25519_keypair(bytes: [u8; 32]) -> (r: Result<Keypair, String>)
    ensures
        r is Ok,
        r->Ok_0 == ed25519_keypair_of(bytes@),
{
    match Keypair::ed25519_from_bytes(bytes) {
        Ok(k) => Ok(k),
        Err(e) => Err(e.to_string()),
    }
}

/// The Ed25519 identity of node `idx`: the secret key is the first 32
/// bytes of a generator seeded with `keypair_seed_spec(seed, idx)`. Always
/// succeeds.
pub fn deterministic_keypair(seed: u64, idx: usize) -> (r: Result<Keypair, Error>)
    ensures
        r is Ok,
        r->Ok_0 == ed25519_keypair_of(chacha8_bytes32(keypair_seed_spec(seed, idx), Seq::empty())),
{
    let mut rng = seeded(keypair_seed(seed, idx));
    let bytes = draw_32_bytes(&mut rng);
    match ed25519_keypair(bytes) {
        Ok(k) => Ok(k),
        Err(e) => {
            let mut reason = "keypair: ".to_owned();
            reason.append(e.as_str());
            Err(Error::Config(reason))
        },
    }
}


/// Seed of the generator for payload `seq`.
pub fn payload_seed(seed: u64, seq: u64) -> (r: u64)
    ensures
        r == payload_seed_spec(seed, seq),
{
    seed ^ seq.wrapping_mul(0x2545_f491_4f6c_dd1d)
}

/// Seed of the generator for the key of node `idx`.
pub fn keypair_seed(seed: u64, idx: usize) -> (r: u64)
    ensures
        r == keypair_seed_spec(seed, idx),
{
    seed.wrapping_mul(0x9e37_79b9_7f4a_7c15) ^ (idx as u64)
}

/// What a node reports to the orchestrator. Times are on the run's clock.
#[derive(Debug)]
pub enum Up {
    /// The node is listening.
    Listening,
    /// The publisher's publish call for `seq` returned.
    Published { seq: u64, ok: bool, err: String, call: Nanos },
    /// `node` first received message `seq` at `at`.
    Delivered { node: usize, seq: u64, at: Nanos },
    /// `node`'s mesh and connection counts.
    Mesh { node: usize, mesh: usize, connected: usize },
}

impl Up {
    /// `Some` for a listening report.
    pub fn listening(self) -> (r: Option<()>)
        ensures
            r is Some <==> self is Listening,
    {
        match self {
            Up::Listening => Some(()),
            _ => None,
        }
    }

    /// The (node, mesh, connected) of a mesh report.
    pub fn mesh(self) -> (r: Option<(usize, usize, usize)>)
        ensures
            match self {
                Up::Mesh { node, mesh, connected } => r == Some((node, mesh, connected)),
                _ => r is None,
            },
    {
        match self {
            Up::Mesh { node, mesh, connected } => Some((node, mesh, connected)),
            _ => None,
        }
    }

    /// The event itself when it is a publish or delivery report for
    /// `want_seq`.
    pub fn measurement(self, want_seq: u64) -> (r: Option<Up>)
        ensures
            match self {
                Up::Published { seq, .. } => if seq == want_seq { r == Some(self) } else { r is None },
                Up::Delivered { seq, .. } => if seq == want_seq { r == Some(self) } else { r is None },
                _ => r is None,
            },
    {
        let keep = match &self {
            Up::Published { seq, .. } => *seq == want_seq,
            Up::Delivered { seq, .. } => *seq == want_seq,
            _ => false,
        };
        if keep {
            Some(self)
        } else {
            None
        }
    }
}

/// The first publish report among `evs`: (ok, error text, call duration).
pub open spec fn first_publish(evs: Seq<Up>) -> Option<(bool, Seq<char>, Nanos)>
    decreases evs.len(),
{
    if evs.len() == 0 {
        None
    } else {
        match evs[0] {
            Up::Published { ok, err, call, .. } => Some((ok, err@, call)),
            _ => first_publish(evs.drop_first()),
        }
    }
}

/// `at - since`, or zero when `at` is earlier.
pub open spec fn elapsed(at: Nanos, since: Nanos) -> Nanos {
    if at >= since { (at - since) as Nanos } else { 0 }
}

/// The deliveries among `evs`, in order, with their latency after `sent_at`.
pub open spec fn delivered(evs: Seq<Up>, sent_at: Nanos) -> Seq<(usize, Nanos)>
    decreases evs.len(),
{
    if evs.len() == 0 {
        Seq::empty()
    } else {
        delivered(evs.drop_last(), sent_at) + match evs.last() {
            Up::Delivered { node, at, .. } => seq![(node, elapsed(at, sent_at))],
            _ => Seq::empty(),
        }
    }
}

proof fn lemma_first_publish_at(evs: Seq<Up>, i: int)
    requires
        0 <= i <= evs.len(),
        forall|k: int| 0 <= k < i ==> !(#[trigger] evs[k] is Published),
        i < evs.len() ==> evs[i] is Published,
    ensures
        first_publish(evs) == (if i < evs.len() {
            match evs[i] {
                Up::Published { ok, err, call, .. } => Some((ok, err@, call)),
                _ => None,
            }
        } else {
            None
        }),
    decreases i,
{
    if i > 0 {
        lemma_first_publish_at(evs.drop_first(), i - 1);
    }
}

fn is_published(u: &Up) -> (r: bool)
    ensures
        r == (*u is Published),
{
    match u {
        Up::Published { .. } => true,
        _ => false,
    }
}

/// Assemble the outcome of message `seq` from the events gathered for it:
/// the first publish report gives the publish result (or it is missing),
/// every delivery report gives a delivery timed from `sent_at`.
pub fn outcome_from_events(seq: u64, expected: usize, sent_at: Nanos, events: &Vec<Up>) -> (r: MessageOutcome)
    ensures
        r@ == (match first_publish(events@) {
            Some((ok, err, call)) => OutcomeView {
                seq,
                publish_ok: ok,
                publish_err: err,
                publish_call: call,
                deliveries: delivered(events@, sent_at),
                expected,
            },
            None => OutcomeView {
                seq,
                publish_ok: false,
                publish_err: "publish event missing"@,
                publish_call: 0,
                deliveries: delivered(events@, sent_at),
                expected,
            },
        }),
{
    let mut i: usize = 0;
    while i < events.len() && !is_published(&events[i])
        invariant
            i <= events@.len(),
            forall|k: int| 0 <= k < i ==> !(#[trigger] events@[k] is Published),
        decreases events@.len() - i,
    {
        i = i + 1;
    }
    proof {
        lemma_first_publish_at(events@, i as int);
    }
    let found: Option<(bool, String, Nanos)> = if i < events.len() {
        match &events[i] {
            Up::Published { ok, err, call, .. } => Some((*ok, err.clone(), *call)),
            _ => None,
        }
    } else {
        None
    };
    let mut deliveries: Vec<Delivery> = Vec::new();
    let mut j: usize = 0;
    while j < events.len()
        invariant
            j <= events@.len(),
            deliveries@.map_values(|d: Delivery| d@) == delivered(events@.take(j as int), sent_at),
        decreases events@.len() - j,
    {
        proof {
            assert(events@.take(j + 1).drop_last() =~= events@.take(j as int));
            assert(events@.take(j + 1).last() == events@[j as int]);
        }
        match &events[j] {
            Up::Delivered { node, at, .. } => {
                let latency = if *at >= sent_at { *at - sent_at } else { 0 };
                let ghost before = deliveries@;
                deliveries.push(Delivery::new(*node, latency));
                proof {
                    assert(deliveries@.map_values(|d: Delivery| d@) =~= before.map_values(|d: Delivery| d@).push((*node, latency)));
                }
            },
            _ => {
                proof {
                    assert(delivered(events@.take(j + 1), sent_at) =~= delivered(events@.take(j as int), sent_at));
                }
            },
        }
        j = j + 1;
    }
    proof {
        assert(events@.take(j as int) =~= events@);
    }
    proof {
        assert(found matches Some((ok, err, call)) ==> first_publish(events@) == Some((ok, err@, call)));
        assert(found is None ==> first_publish(events@) is None);
    }
    match found {
        Some((ok, err, call)) => MessageOutcome::new(seq, ok, err, call, deliveries, expected),
        None => MessageOutcome::new(seq, false, "publish event missing".to_owned(), 0, deliveries, expected),
    }
}

/// The reports a setup phase waited for: all of them when `want` came in
/// before the deadline, else the phase timed out.
pub fn gathered<T>(got: Vec<T>, want: usize, phase: &'static str) -> (r: Result<Vec<T>, Error>)
    ensures
        got@.len() == want ==> (r matches Ok(v) && v@ == got@),
        got@.len() != want ==> (r matches Err(e) && e@ == ErrorView::SetupTimeout(phase@)),
{
    if got.len() == want {
        Ok(got)
    } else {
        Err(Error::SetupTimeout(phase))
    }
}

/// Per-node (sent, received) growth since `base`, over the nodes both lists
/// cover; a counter that went down counts as zero growth.
pub fn byte_deltas(now: &Vec<(u64, u64)>, base: &Vec<(u64, u64)>) -> (r: Vec<(u64, u64)>)
    ensures
        r@.len() == (if now@.len() <= base@.len() { now@.len() } else { base@.len() }),
        forall|i: int|
            0 <= i < r@.len() ==> #[trigger] r@[i] == (
                (if now@[i].0 >= base@[i].0 { (now@[i].0 - base@[i].0) as u64 } else { 0u64 }),
                (if now@[i].1 >= base@[i].1 { (now@[i].1 - base@[i].1) as u64 } else { 0u64 }),
            ),
{
    let n = if now.len() <= base.len() { now.len() } else { base.len() };
    let mut out: Vec<(u64, u64)> = Vec::new();
    let mut i: usize = 0;
    while i < n
        invariant
            i <= n,
            n <= now@.len(),
            n <= base@.len(),
            out@.len() == i,
            forall|k: int|
                0 <= k < i ==> #[trigger] out@[k] == (
                    (if now@[k].0 >= base@[k].0 { (now@[k].0 - base@[k].0) as u64 } else { 0u64 }),
                    (if now@[k].1 >= base@[k].1 { (now@[k].1 - base@[k].1) as u64 } else { 0u64 }),
                ),
        decreases n - i,
    {
        let (s, r) = now[i];
        let (bs, br) = base[i];
        out.push((s.saturating_sub(bs), r.saturating_sub(br)));
        i = i + 1;
    }
    out
}

} // verus!
