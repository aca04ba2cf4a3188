//! Trace records, aggregate statistics, and hand-rolled JSON rendering
//! (fixed schema, no serde).
//!
//! Durations are nanoseconds. The few numbers the report prints as
//! fractional milliseconds or seconds are rendered by the caller (see
//! [`Rendered`]); everything else in the documents is built here.
use vstd::prelude::*;
use vstd::string::*;

use crate::shaping::Nanos;
use crate::text::{bool_text, dec, lemma_prefix_extends, push_bool, push_char, push_decimal};

verus! {

broadcast use vstd::string::group_string_axioms;

/// One first-delivery observation at a node.
#[derive(Clone, Copy, Debug)]
pub struct Delivery {
    node: usize,
    latency: Nanos,
}

impl View for Delivery {
    /// (receiving node, latency).
    type V = (usize, Nanos);

    closed spec fn view(&self) -> (usize, Nanos) {
        (self.node, self.latency)
    }
}

impl Delivery {
    /// Record a delivery at `node`, `latency` after the publish call.
    pub fn new(node: usize, latency: Nanos) -> (d: Self)
        ensures
            d@ == (node, latency),
    {
        Delivery { node, latency }
    }

    /// Receiving node index.
    pub fn node(&self) -> (r: usize)
        ensures
            r == self@.0,
    {
        self.node
    }

    /// Publish-call-to-delivery latency.
    pub fn latency(&self) -> (r: Nanos)
        ensures
            r == self@.1,
    {
        self.latency
    }
}

/// A message outcome with its texts as character sequences.
pub ghost struct OutcomeView {
    pub seq: u64,
    pub publish_ok: bool,
    pub publish_err: Seq<char>,
    pub publish_call: Nanos,
    pub deliveries: Seq<(usize, Nanos)>,
    pub expected: usize,
}

/// Everything observed for one published message.
#[derive(Clone, Debug)]
pub struct MessageOutcome {
    seq: u64,
    publish_ok: bool,
    publish_err: String,
    publish_call: Nanos,
    deliveries: Vec<Delivery>,
    expected: usize,
}

impl View for MessageOutcome {
    type V = OutcomeView;

    closed spec fn view(&self) -> OutcomeView {
        OutcomeView {
            seq: self.seq,
            publish_ok: self.publish_ok,
            publish_err: self.publish_err@,
            publish_call: self.publish_call,
            deliveries: self.deliveries@.map_values(|d: Delivery| d@),
            expected: self.expected,
        }
    }
}

/// Whether every expected node delivered and the publish call succeeded.
pub open spec fn complete_spec(o: OutcomeView) -> bool {
    o.publish_ok && o.deliveries.len() == o.expected
}

/// The largest value of `s`, or zero when `s` is empty.
pub open spec fn max_of(s: Seq<Nanos>) -> Nanos
    decreases s.len(),
{
    if s.len() == 0 {
        0
    } else {
        let m = max_of(s.drop_last());
        if s.last() >= m { s.last() } else { m }
    }
}

/// The latencies of a list of deliveries, in order.
pub open spec fn latencies_of(ds: Seq<(usize, Nanos)>) -> Seq<Nanos> {
    ds.map_values(|d: (usize, Nanos)| d.1)
}

/// Time the publisher reached every node: the largest delivery latency, when
/// the message is complete and has deliveries.
pub open spec fn completion_spec(o: OutcomeView) -> Option<Nanos> {
    if complete_spec(o) && o.deliveries.len() > 0 {
        Some(max_of(latencies_of(o.deliveries)))
    } else {
        None
    }
}

/// `max_of` of a non-empty list is one of its values and no value exceeds it.
pub proof fn lemma_max_of(s: Seq<Nanos>)
    ensures
        forall|i: int| 0 <= i < s.len() ==> s[i] <= #[trigger] max_of(s),
        s.len() > 0 ==> s.contains(max_of(s)),
    decreases s.len(),
{
    if s.len() > 0 {
        let t = s.drop_last();
        lemma_max_of(t);
        assert forall|i: int| 0 <= i < s.len() implies s[i] <= #[trigger] max_of(s) by {
            if i < s.len() - 1 {
                assert(s[i] == t[i]);
            }
        }
        if s.last() < max_of(t) {
            let k = choose|k: int| 0 <= k < t.len() && t[k] == max_of(t);
            assert(s[k] == max_of(s));
        } else {
            assert(s[s.len() - 1] == max_of(s));
        }
    }
}

/// A complete message's completion time is the latest of its deliveries:
/// one of their latencies, and no delivery came later.
pub proof fn lemma_completion_is_latest(o: OutcomeView)
    requires
        completion_spec(o) is Some,
    ensures
        latencies_of(o.deliveries).contains(completion_spec(o)->0),
        forall|j: int| 0 <= j < o.deliveries.len() ==> #[trigger] o.deliveries[j].1 <= completion_spec(o)->0,
{
    let lats = latencies_of(o.deliveries);
    lemma_max_of(lats);
    assert forall|j: int| 0 <= j < o.deliveries.len() implies #[trigger] o.deliveries[j].1 <= completion_spec(o)->0 by {
        assert(lats[j] == o.deliveries[j].1);
    }
}

/// The lowercase hexadecimal digit for `d < 16`.
pub open spec fn hex_digit(d: u32) -> char {
    if d < 10 {
        ((d + 48) as u8) as char
    } else {
        ((d + 87) as u8) as char
    }
}

/// How one character of a publish error is written inside the JSON string:
/// `"` becomes `'`, a backslash is escaped, and a control character is
/// written as `\u00XX`; any other character stands for itself.
pub open spec fn err_char_text(c: char) -> Seq<char> {
    if c == '"' {
        seq!['\'']
    } else if c == '\\' {
        seq!['\\', '\\']
    } else if (c as u32) < 0x20 {
        seq!['\\', 'u', '0', '0', hex_digit((c as u32) / 16), hex_digit((c as u32) % 16)]
    } else {
        seq![c]
    }
}

/// A publish error as the body of a JSON string, character by character.
pub open spec fn err_json_text(s: Seq<char>) -> Seq<char>
    decreases s.len(),
{
    if s.len() == 0 {
        Seq::empty()
    } else {
        err_json_text(s.drop_last()) + err_char_text(s.last())
    }
}

fn hex_char(d: u32) -> (c: char)
    requires
        d < 16,
    ensures
        c == hex_digit(d),
{
    let b: u8 = if d < 10 { (d + 48) as u8 } else { (d + 87) as u8 };
    b as char
}

fn push_err_char(s: &mut String, c: char)
    ensures
        final(s)@ == old(s)@ + err_char_text(c),
{
    let code = c as u32;
    if c == '"' {
        push_char(s, '\'');
    } else if c == '\\' {
        push_char(s, '\\');
        push_char(s, '\\');
    } else if code < 0x20 {
        push_char(s, '\\');
        push_char(s, 'u');
        push_char(s, '0');
        push_char(s, '0');
        push_char(s, hex_char(code / 16));
        push_char(s, hex_char(code % 16));
    } else {
        push_char(s, c);
    }
    proof {
        assert(final(s)@ =~= old(s)@ + err_char_text(c));
    }
}

/// The JSON line of one outcome, with `call_ms` as the publish-call time.
pub open spec fn outcome_line(o: OutcomeView, call_ms: Seq<char>) -> Seq<char> {
    "{\"seq\":"@ + dec(o.seq as nat) + ",\"publish_ok\":"@ + bool_text(o.publish_ok)
        + ",\"publish_err\":\""@ + err_json_text(o.publish_err) + "\",\"publish_call_ms\":"@
        + call_ms + ",\"delivered\":"@ + dec(o.deliveries.len()) + ",\"expected\":"@ + dec(
        o.expected as nat,
    ) + ",\"complete\":"@ + bool_text(complete_spec(o)) + "}"@
}

impl MessageOutcome {
    /// Assemble the outcome for message `seq`.
    pub fn new(
        seq: u64,
        publish_ok: bool,
        publish_err: String,
        publish_call: Nanos,
        deliveries: Vec<Delivery>,
        expected: usize,
    ) -> (o: Self)
        ensures
            o@ == (OutcomeView {
                seq,
                publish_ok,
                publish_err: publish_err@,
                publish_call,
                deliveries: deliveries@.map_values(|d: Delivery| d@),
                expected,
            }),
    {
        MessageOutcome { seq, publish_ok, publish_err, publish_call, deliveries, expected }
    }

    /// Message sequence number.
    pub fn seq(&self) -> (r: u64)
        ensures
            r == self@.seq,
    {
        self.seq
    }

    /// Duration of the publish call.
    pub fn publish_call(&self) -> (r: Nanos)
        ensures
            r == self@.publish_call,
    {
        self.publish_call
    }

    /// Whether every expected node delivered before the deadline.
    pub fn complete(&self) -> (r: bool)
        ensures
            r == complete_spec(self@),
    {
        self.publish_ok && self.deliveries.len() == self.expected
    }

    /// All recorded deliveries.
    pub fn deliveries(&self) -> (r: &[Delivery])
        ensures
            r@.map_values(|d: Delivery| d@) == self@.deliveries,
    {
        self.deliveries.as_slice()
    }

    /// Time the publisher reached every node (max delivery latency),
    /// when complete.
    pub fn completion(&self) -> (r: Option<Nanos>)
        ensures
            r == completion_spec(self@),
    {
        if !self.complete() || self.deliveries.len() == 0 {
            return None;
        }
        let ghost lats = latencies_of(self@.deliveries);
        let mut best: Nanos = self.deliveries[0].latency;
        let mut i: usize = 1;
        proof {
            assert(lats.len() == self.deliveries@.len());
            assert(lats.take(1).drop_last() =~= Seq::<Nanos>::empty());
            assert(max_of(Seq::<Nanos>::empty()) == 0);
            assert(lats.take(1).last() == lats[0]);
            assert(lats[0] == self.deliveries@[0]@.1);
            assert(max_of(lats.take(1)) == lats[0]);
        }
        while i < self.deliveries.len()
            invariant
                1 <= i <= self.deliveries@.len(),
                lats == latencies_of(self@.deliveries),
                self@.deliveries == self.deliveries@.map_values(|d: Delivery| d@),
                best == max_of(lats.take(i as int)),
            decreases self.deliveries@.len() - i,
        {
            let l = self.deliveries[i].latency;
            proof {
                assert(lats.take(i + 1).drop_last() =~= lats.take(i as int));
                assert(lats[i as int] == l);
            }
            if l >= best {
                best = l;
            }
            i = i + 1;
        }
        proof {
            assert(lats.take(i as int) =~= lats);
        }
        Some(best)
    }

    /// The JSON line of this outcome; `call_ms` is the publish-call time in
    /// milliseconds as `{:.3}` prints it. In the publish error `"` becomes
    /// `'` and backslashes and control characters are escaped.
    pub fn json_line(&self, call_ms: &str) -> (r: String)
        ensures
            r@ == outcome_line(self@, call_ms@),
    {
        let mut s = "{\"seq\":".to_owned();
        push_decimal(&mut s, self.seq as u128);
        s.append(",\"publish_ok\":");
        push_bool(&mut s, self.publish_ok);
        s.append(",\"publish_err\":\"");
        let err = self.publish_err.as_str();
        let n = err.unicode_len();
        let ghost start = s@;
        let mut i: usize = 0;
        while i < n
            invariant
                n == err@.len(),
                err@ == self@.publish_err,
                i <= n,
                s@ == start + err_json_text(err@.take(i as int)),
            decreases n - i,
        {
            let c = err.get_char(i);
            push_err_char(&mut s, c);
            proof {
                assert(err@.take(i + 1).drop_last() =~= err@.take(i as int));
                assert(err@.take(i + 1).last() == c);
                assert(s@ =~= start + err_json_text(err@.take(i + 1)));
            }
            i = i + 1;
        }
        proof {
            assert(err@.take(n as int) =~= err@);
        }
        s.append("\",\"publish_call_ms\":");
        s.append(call_ms);
        s.append(",\"delivered\":");
        push_decimal(&mut s, self.deliveries.len() as u128);
        s.append(",\"expected\":");
        push_decimal(&mut s, self.expected as u128);
        s.append(",\"complete\":");
        push_bool(&mut s, self.complete());
        s.append("}");
        s
    }
}

/// Nearest-rank index into a list of `len` values for the `q`-th percentile:
/// `(len - 1) * q / 100`, the product saturating at `usize::MAX`.
pub open spec fn percentile_index(len: nat, q: usize) -> int {
    let a: int = if len > 0 { len - 1 } else { 0 };
    let p: int = if a * q <= usize::MAX { a * q } else { usize::MAX as int };
    p / 100
}

/// Nearest-rank percentile of `s`: the value at `percentile_index`, or zero
/// when that index is past the end.
pub open spec fn percentile_spec(s: Seq<Nanos>, q: usize) -> Nanos {
    let idx = percentile_index(s.len(), q);
    if idx < s.len() { s[idx] } else { 0 }
}

/// Nearest-rank percentile over an ascending-sorted slice.
pub fn percentile(sorted: &[Nanos], q: usize) -> (r: Nanos)
    ensures
        r == percentile_spec(sorted@, q),
{
    let a = if sorted.len() > 0 { sorted.len() - 1 } else { 0 };
    let p = match a.checked_mul(q) {
        Some(p) => p,
        None => usize::MAX,
    };
    let idx = p / 100;
    if idx < sorted.len() {
        sorted[idx]
    } else {
        0
    }
}

/// Values in ascending order.
pub open spec fn ascending(s: Seq<Nanos>) -> bool {
    forall|i: int, j: int| 0 <= i <= j < s.len() ==> s[i] <= s[j]
}

/// On an ascending list the nearest-rank percentile is one of its values,
/// grows with `q`, and the 100th is the largest.
pub proof fn lemma_percentile_ordered(s: Seq<Nanos>, q1: usize, q2: usize)
    requires
        ascending(s),
        s.len() > 0,
        q1 <= q2 <= 100,
        s.len() * 100 <= usize::MAX,
    ensures
        percentile_spec(s, q1) <= percentile_spec(s, q2),
        s.contains(percentile_spec(s, q1)),
        percentile_spec(s, 100) == s.last(),
        percentile_spec(s, q2) <= s.last(),
{
    let a: int = s.len() - 1;
    assert(a * q1 <= a * q2) by {
        vstd::arithmetic::mul::lemma_mul_inequality(q1 as int, q2 as int, a);
        vstd::arithmetic::mul::lemma_mul_is_commutative(q1 as int, a);
        vstd::arithmetic::mul::lemma_mul_is_commutative(q2 as int, a);
    }
    assert(a * q2 <= a * 100) by {
        vstd::arithmetic::mul::lemma_mul_inequality(q2 as int, 100, a);
        vstd::arithmetic::mul::lemma_mul_is_commutative(q2 as int, a);
        vstd::arithmetic::mul::lemma_mul_is_commutative(100, a);
    }
    assert(a * q1 >= 0) by {
        vstd::arithmetic::mul::lemma_mul_nonnegative(a, q1 as int);
    }
    assert((a * q1) / 100 <= (a * q2) / 100) by {
        vstd::arithmetic::div_mod::lemma_div_is_ordered(a * q1, a * q2, 100);
    }
    assert((a * q2) / 100 <= (a * 100) / 100) by {
        vstd::arithmetic::div_mod::lemma_div_is_ordered(a * q2, a * 100, 100);
    }
    assert((a * 100) / 100 == a) by {
        vstd::arithmetic::div_mod::lemma_div_by_multiple(a, 100);
    }
    assert((a * q1) / 100 >= 0) by {
        vstd::arithmetic::div_mod::lemma_div_pos_is_pos(a * q1, 100);
    }
    assert(s[percentile_index(s.len(), q1)] == percentile_spec(s, q1));
}


/// A run summary with its texts as character sequences.
pub ghost struct SummaryView {
    pub disclosure: Seq<char>,
    pub out_dir: Seq<char>,
    pub mesh: Seq<(usize, usize, usize)>,
    pub outcomes: Seq<OutcomeView>,
    pub node_bytes: Seq<(u64, u64)>,
    pub payload_bytes: usize,
    pub wall: Nanos,
}

/// Full run result: disclosure, mesh state, per-message outcomes, bytes.
#[derive(Debug)]
pub struct Summary {
    disclosure: String,
    out_dir: String,
    mesh: Vec<(usize, usize, usize)>,
    outcomes: Vec<MessageOutcome>,
    node_bytes: Vec<(u64, u64)>,
    payload_bytes: usize,
    wall: Nanos,
}

impl View for Summary {
    type V = SummaryView;

    closed spec fn view(&self) -> SummaryView {
        SummaryView {
            disclosure: self.disclosure@,
            out_dir: self.out_dir@,
            mesh: self.mesh@,
            outcomes: self.outcomes@.map_values(|o: MessageOutcome| o@),
            node_bytes: self.node_bytes@,
            payload_bytes: self.payload_bytes,
            wall: self.wall,
        }
    }
}

/// Every delivery latency of every message, message by message.
pub open spec fn all_latencies(outs: Seq<OutcomeView>) -> Seq<Nanos>
    decreases outs.len(),
{
    if outs.len() == 0 {
        Seq::empty()
    } else {
        all_latencies(outs.drop_last()) + latencies_of(outs.last().deliveries)
    }
}

/// The completion times of the complete messages, in message order.
pub open spec fn completions(outs: Seq<OutcomeView>) -> Seq<Nanos>
    decreases outs.len(),
{
    if outs.len() == 0 {
        Seq::empty()
    } else {
        completions(outs.drop_last()) + match completion_spec(outs.last()) {
            Some(c) => seq![c],
            None => Seq::empty(),
        }
    }
}

/// How many messages are complete.
pub open spec fn complete_count(outs: Seq<OutcomeView>) -> nat
    decreases outs.len(),
{
    if outs.len() == 0 {
        0
    } else {
        complete_count(outs.drop_last()) + if complete_spec(outs.last()) { 1nat } else { 0nat }
    }
}

/// No more messages are complete than were published, and no more
/// completion times are reported than messages are complete.
pub proof fn lemma_complete_at_most_total(outs: Seq<OutcomeView>)
    ensures
        complete_count(outs) <= outs.len(),
        completions(outs).len() <= complete_count(outs),
    decreases outs.len(),
{
    if outs.len() > 0 {
        lemma_complete_at_most_total(outs.drop_last());
    }
}

/// Smallest mesh size reported, or zero without reports.
pub open spec fn mesh_min(m: Seq<(usize, usize, usize)>) -> usize
    decreases m.len(),
{
    if m.len() == 0 {
        0
    } else if m.len() == 1 {
        m[0].1
    } else {
        let r = mesh_min(m.drop_last());
        if m.last().1 < r { m.last().1 } else { r }
    }
}

/// Largest mesh size reported, or zero without reports.
pub open spec fn mesh_max(m: Seq<(usize, usize, usize)>) -> usize
    decreases m.len(),
{
    if m.len() == 0 {
        0
    } else {
        let r = mesh_max(m.drop_last());
        if m.last().1 > r { m.last().1 } else { r }
    }
}

/// Wire bytes received, summed over all nodes.
pub open spec fn received_total(nb: Seq<(u64, u64)>) -> nat
    decreases nb.len(),
{
    if nb.len() == 0 {
        0
    } else {
        received_total(nb.drop_last()) + (nb.last().1 as nat)
    }
}

/// The received total is the sum over every node, the publisher included:
/// one node counts its received bytes, and the total of two groups of nodes
/// is the sum of their totals.
pub proof fn lemma_received_total_sums(a: Seq<(u64, u64)>, b: Seq<(u64, u64)>)
    ensures
        received_total(a + b) == received_total(a) + received_total(b),
        forall|x: (u64, u64)| #[trigger] received_total(seq![x]) == x.1,
    decreases b.len(),
{
    assert forall|x: (u64, u64)| #[trigger] received_total(seq![x]) == x.1 by {
        let e = seq![x];
        assert(e.drop_last() =~= Seq::<(u64, u64)>::empty());
        assert(received_total(e.drop_last()) == 0);
        assert(e.last() == x);
    }
    if b.len() == 0 {
        assert(a + b =~= a);
    } else {
        lemma_received_total_sums(a, b.drop_last());
        assert((a + b).drop_last() =~= a + b.drop_last());
    }
}

/// The complete-message count adds up over any split of the messages, and a
/// single message counts one exactly when it is complete.
pub proof fn lemma_complete_count_sums(a: Seq<OutcomeView>, b: Seq<OutcomeView>)
    ensures
        complete_count(a + b) == complete_count(a) + complete_count(b),
        forall|o: OutcomeView| #[trigger] complete_count(seq![o]) == (if o.publish_ok && o.deliveries.len() == o.expected { 1nat } else { 0nat }),
    decreases b.len(),
{
    assert forall|o: OutcomeView| #[trigger] complete_count(seq![o]) == (if o.publish_ok && o.deliveries.len() == o.expected { 1nat } else { 0nat }) by {
        let e = seq![o];
        assert(e.drop_last() =~= Seq::<OutcomeView>::empty());
        assert(complete_count(e.drop_last()) == 0);
        assert(e.last() == o);
    }
    if b.len() == 0 {
        assert(a + b =~= a);
    } else {
        lemma_complete_count_sums(a, b.drop_last());
        assert((a + b).drop_last() =~= a + b.drop_last());
    }
}

/// The latencies of a run are those of its messages, message after message,
/// every delivery of a single message included, complete or not.
pub proof fn lemma_all_latencies_concat(a: Seq<OutcomeView>, b: Seq<OutcomeView>)
    ensures
        all_latencies(a + b) == all_latencies(a) + all_latencies(b),
        forall|o: OutcomeView| #[trigger] all_latencies(seq![o]) == o.deliveries.map_values(|d: (usize, Nanos)| d.1),
    decreases b.len(),
{
    assert forall|o: OutcomeView| #[trigger] all_latencies(seq![o]) == o.deliveries.map_values(|d: (usize, Nanos)| d.1) by {
        let e = seq![o];
        assert(e.drop_last() =~= Seq::<OutcomeView>::empty());
        assert(all_latencies(e.drop_last()) =~= Seq::<Nanos>::empty());
        assert(e.last() == o);
        assert(all_latencies(e) =~= o.deliveries.map_values(|d: (usize, Nanos)| d.1));
    }
    if b.len() == 0 {
        assert(a + b =~= a);
        assert(all_latencies(a) + Seq::<Nanos>::empty() =~= all_latencies(a));
    } else {
        lemma_all_latencies_concat(a, b.drop_last());
        assert((a + b).drop_last() =~= a + b.drop_last());
        assert((a + b).last() == b.last());
        assert(all_latencies(a + b) =~= all_latencies(a) + all_latencies(b));
    }
}

/// The completion times of a run are those of its messages, message after
/// message; a message contributes its latest delivery exactly when it is
/// complete and has deliveries.
pub proof fn lemma_completions_concat(a: Seq<OutcomeView>, b: Seq<OutcomeView>)
    ensures
        completions(a + b) == completions(a) + completions(b),
        forall|o: OutcomeView| #[trigger] completions(seq![o]).len() == (if o.publish_ok && o.deliveries.len() == o.expected && o.deliveries.len() > 0 { 1nat } else { 0nat }),
    decreases b.len(),
{
    assert forall|o: OutcomeView| #[trigger] completions(seq![o]).len() == (if o.publish_ok && o.deliveries.len() == o.expected && o.deliveries.len() > 0 { 1nat } else { 0nat }) by {
        let e = seq![o];
        assert(e.drop_last() =~= Seq::<OutcomeView>::empty());
        assert(completions(e.drop_last()) =~= Seq::<Nanos>::empty());
        assert(e.last() == o);
    }
    if b.len() == 0 {
        assert(a + b =~= a);
        assert(completions(a) + Seq::<Nanos>::empty() =~= completions(a));
    } else {
        lemma_completions_concat(a, b.drop_last());
        assert((a + b).drop_last() =~= a + b.drop_last());
        assert((a + b).last() == b.last());
        assert(completions(a + b) =~= completions(a) + completions(b));
    }
}

/// The reported mesh degree bounds are the smallest and the largest mesh
/// size reported (zero without reports).
pub proof fn lemma_mesh_bounds(m: Seq<(usize, usize, usize)>)
    ensures
        m.len() == 0 ==> mesh_min(m) == 0 && mesh_max(m) == 0,
        forall|i: int| 0 <= i < m.len() ==> mesh_min(m) <= #[trigger] m[i].1 && m[i].1 <= mesh_max(m),
        m.len() > 0 ==> exists|i: int| 0 <= i < m.len() && m[i].1 == mesh_min(m),
        m.len() > 0 ==> exists|i: int| 0 <= i < m.len() && m[i].1 == mesh_max(m),
    decreases m.len(),
{
    if m.len() > 0 {
        let t = m.drop_last();
        lemma_mesh_bounds(t);
        assert forall|i: int| 0 <= i < m.len() implies mesh_min(m) <= #[trigger] m[i].1 && m[i].1 <= mesh_max(m) by {
            if i < m.len() - 1 {
                assert(m[i] == t[i]);
            }
        }
        if m.len() == 1 {
            assert(m[0].1 == mesh_min(m));
            assert(m[0].1 == mesh_max(m));
        } else {
            if m.last().1 < mesh_min(t) {
                assert(m[m.len() - 1].1 == mesh_min(m));
            } else {
                let k = choose|k: int| 0 <= k < t.len() && t[k].1 == mesh_min(t);
                assert(m[k] == t[k]);
            }
            if m.last().1 > mesh_max(t) {
                assert(m[m.len() - 1].1 == mesh_max(m));
            } else {
                let k = choose|k: int| 0 <= k < t.len() && t[k].1 == mesh_max(t);
                assert(m[k] == t[k]);
            }
        }
    }
}

/// Payload bytes an ideal broadcast would deliver: every node but the
/// publisher receives every payload once.
pub open spec fn ideal_total(s: SummaryView) -> nat {
    let receivers: nat = if s.node_bytes.len() > 0 { (s.node_bytes.len() - 1) as nat } else { 0 };
    receivers * (s.payload_bytes as nat) * s.outcomes.len()
}

/// The integer statistics of a summary; latencies are nanoseconds. The
/// amplification is `whole + thousandths / 1000` (both zero when the ideal
/// byte count is zero).
#[derive(Clone, Copy, Debug)]
pub struct SummaryStats {
    pub mesh_degree_min: usize,
    pub mesh_degree_max: usize,
    pub messages_complete: usize,
    pub messages_total: usize,
    pub latency_p50: Nanos,
    pub latency_p90: Nanos,
    pub latency_p99: Nanos,
    pub latency_max: Nanos,
    pub completion_p50: Nanos,
    pub completion_max: Nanos,
    pub wire_bytes_received_total: u64,
    pub ideal_payload_bytes: u64,
    pub amplification_whole: u32,
    pub amplification_thousandths: u32,
    pub wall: Nanos,
}

/// The latency statistics read off `lat`, the summary's latencies in
/// ascending order.
pub open spec fn latency_stats_hold(lat: Seq<Nanos>, st: SummaryStats) -> bool {
    &&& st.latency_p50 == percentile_spec(lat, 50)
    &&& st.latency_p90 == percentile_spec(lat, 90)
    &&& st.latency_p99 == percentile_spec(lat, 99)
    &&& st.latency_max == (if lat.len() > 0 { lat.last() } else { 0 })
}

/// `st` holds the statistics of `s`.
pub open spec fn stats_hold(s: SummaryView, st: SummaryStats) -> bool {
    let total = received_total(s.node_bytes);
    let ideal = ideal_total(s);
    let comp = completions(s.outcomes);
    &&& st.mesh_degree_min == mesh_min(s.mesh)
    &&& st.mesh_degree_max == mesh_max(s.mesh)
    &&& st.messages_complete == complete_count(s.outcomes)
    &&& st.messages_total == s.outcomes.len()
    &&& exists|lat: Seq<Nanos>|
        {
            &&& ascending(lat)
            &&& lat.to_multiset() == all_latencies(s.outcomes).to_multiset()
            &&& latency_stats_hold(lat, st)
        }
    &&& exists|cs: Seq<Nanos>|
        {
            &&& ascending(cs)
            &&& cs.to_multiset() == comp.to_multiset()
            &&& st.completion_p50 == percentile_spec(cs, 50)
        }
    &&& st.completion_max == max_of(comp)
    &&& st.wire_bytes_received_total == total
    &&& st.ideal_payload_bytes == ideal
    &&& st.amplification_whole == (if ideal == 0 {
        0
    } else if total / ideal <= u32::MAX {
        total / ideal
    } else {
        u32::MAX as nat
    })
    &&& st.amplification_thousandths == (if ideal == 0 {
        0
    } else {
        ((if total * 1000 <= u64::MAX { total * 1000 } else { u64::MAX as nat }) / ideal) % 1000
    })
    &&& st.wall == s.wall
}

/// Two ascending lists of the same values are the same list.
pub proof fn lemma_ascending_unique(a: Seq<Nanos>, b: Seq<Nanos>)
    requires
        ascending(a),
        ascending(b),
        a.to_multiset() == b.to_multiset(),
    ensures
        a == b,
    decreases a.len(),
{
    broadcast use vstd::seq_lib::group_to_multiset_ensures;

    assert(a.len() == a.to_multiset().len());
    assert(b.len() == b.to_multiset().len());
    if a.len() > 0 {
        assert(a.to_multiset().count(a[0]) > 0);
        assert(b.contains(a[0]));
        assert(b.to_multiset().count(b[0]) > 0);
        assert(a.contains(b[0]));
        assert(a[0] == b[0]);
        assert(a.remove(0) =~= a.drop_first());
        assert(b.remove(0) =~= b.drop_first());
        assert(a.drop_first().to_multiset() == a.to_multiset().remove(a[0]));
        assert(b.drop_first().to_multiset() == b.to_multiset().remove(b[0]));
        lemma_ascending_unique(a.drop_first(), b.drop_first());
        assert(a =~= b) by {
            assert forall|i: int| 0 <= i < a.len() implies a[i] == b[i] by {
                if i > 0 {
                    assert(a[i] == a.drop_first()[i - 1]);
                    assert(b[i] == b.drop_first()[i - 1]);
                }
            }
        }
    } else {
        assert(a =~= b);
    }
}

/// The statistics of a summary are determined by it: any two statistics
/// that both hold of it are equal.
pub proof fn lemma_stats_determined(s: SummaryView, st1: SummaryStats, st2: SummaryStats)
    requires
        stats_hold(s, st1),
        stats_hold(s, st2),
    ensures
        st1 == st2,
{
    let lat1 = choose|lat: Seq<Nanos>|
        {
            &&& ascending(lat)
            &&& lat.to_multiset() == all_latencies(s.outcomes).to_multiset()
            &&& latency_stats_hold(lat, st1)
        };
    let lat2 = choose|lat: Seq<Nanos>|
        {
            &&& ascending(lat)
            &&& lat.to_multiset() == all_latencies(s.outcomes).to_multiset()
            &&& latency_stats_hold(lat, st2)
        };
    lemma_ascending_unique(lat1, lat2);
    let comp = completions(s.outcomes);
    let cs1 = choose|cs: Seq<Nanos>|
        {
            &&& ascending(cs)
            &&& cs.to_multiset() == comp.to_multiset()
            &&& st1.completion_p50 == percentile_spec(cs, 50)
        };
    let cs2 = choose|cs: Seq<Nanos>|
        {
            &&& ascending(cs)
            &&& cs.to_multiset() == comp.to_multiset()
            &&& st2.completion_p50 == percentile_spec(cs, 50)
        };
    lemma_ascending_unique(cs1, cs2);
}

/// `slice::sort` on nanosecond values: afterwards the values are in
/// ascending order and are the same values as before, as documented.
#[verifier::external_body]
fn sort_ascending(v: &mut Vec<Nanos>)
    ensures
        ascending(final(v)@),
        final(v)@.to_multiset() == old(v)@.to_multiset(),
{
    v.sort();
}

impl Summary {
    /// Assemble the run summary.
    pub fn new(
        disclosure: String,
        out_dir: String,
        mesh: Vec<(usize, usize, usize)>,
        outcomes: Vec<MessageOutcome>,
        node_bytes: Vec<(u64, u64)>,
        payload_bytes: usize,
        wall: Nanos,
    ) -> (s: Self)
        ensures
            s@ == (SummaryView {
                disclosure: disclosure@,
                out_dir: out_dir@,
                mesh: mesh@,
                outcomes: outcomes@.map_values(|o: MessageOutcome| o@),
                node_bytes: node_bytes@,
                payload_bytes,
                wall,
            }),
    {
        Summary { disclosure, out_dir, mesh, outcomes, node_bytes, payload_bytes, wall }
    }

    /// Output directory this run should persist into.
    pub fn out_dir(&self) -> (r: &str)
        ensures
            r@ == self@.out_dir,
    {
        self.out_dir.as_str()
    }

    /// Per-message outcomes, in publish order.
    pub fn outcomes(&self) -> (r: &[MessageOutcome])
        ensures
            r@.map_values(|o: MessageOutcome| o@) == self@.outcomes,
    {
        self.outcomes.as_slice()
    }

    /// Every delivery latency, in ascending order.
    pub fn sorted_latencies(&self) -> (r: Vec<Nanos>)
        ensures
            ascending(r@),
            r@.to_multiset() == all_latencies(self@.outcomes).to_multiset(),
    {
        let mut all: Vec<Nanos> = Vec::new();
        let mut i: usize = 0;
        while i < self.outcomes.len()
            invariant
                i <= self.outcomes@.len(),
                all@ == all_latencies(self@.outcomes.take(i as int)),
            decreases self.outcomes@.len() - i,
        {
            let o = &self.outcomes[i];
            let ghost before = all@;
            let mut j: usize = 0;
            while j < o.deliveries.len()
                invariant
                    j <= o.deliveries@.len(),
                    all@ == before + latencies_of(o@.deliveries.take(j as int)),
                decreases o.deliveries@.len() - j,
            {
                all.push(o.deliveries[j].latency);
                proof {
                    assert(latencies_of(o@.deliveries.take(j + 1)) =~= latencies_of(o@.deliveries.take(j as int)).push(o.deliveries@[j as int].latency));
                }
                j = j + 1;
            }
            proof {
                assert(o@.deliveries.take(j as int) =~= o@.deliveries);
                let outs = self@.outcomes;
                assert(outs.take(i + 1).drop_last() =~= outs.take(i as int));
                assert(outs.take(i + 1).last() == o@);
            }
            i = i + 1;
        }
        proof {
            assert(self@.outcomes.take(i as int) =~= self@.outcomes);
        }
        sort_ascending(&mut all);
        all
    }
}


/// `lines` joined with `sep` between neighbours.
pub open spec fn join(lines: Seq<Seq<char>>, sep: Seq<char>) -> Seq<char>
    decreases lines.len(),
{
    if lines.len() == 0 {
        Seq::empty()
    } else if lines.len() == 1 {
        lines[0]
    } else {
        join(lines.drop_last(), sep) + sep + lines.last()
    }
}

proof fn lemma_join_push(lines: Seq<Seq<char>>, sep: Seq<char>, l: Seq<char>)
    ensures
        join(lines.push(l), sep) == if lines.len() == 0 { l } else { join(lines, sep) + sep + l },
{
    assert(lines.push(l).drop_last() =~= lines);
}

proof fn lemma_received_prefix(nb: Seq<(u64, u64)>, i: int)
    requires
        0 <= i <= nb.len(),
    ensures
        received_total(nb.take(i)) <= received_total(nb),
    decreases nb.len(),
{
    if i < nb.len() {
        assert(nb.drop_last().take(i) =~= nb.take(i));
        lemma_received_prefix(nb.drop_last(), i);
    } else {
        assert(nb.take(i) =~= nb);
    }
}

/// The ideal byte count and its partial product fit in a `u64`, the type
/// the counts are kept in.
pub open spec fn ideal_fits(s: SummaryView) -> bool {
    let receivers: nat = if s.node_bytes.len() > 0 { (s.node_bytes.len() - 1) as nat } else { 0 };
    &&& receivers * (s.payload_bytes as nat) <= u64::MAX
    &&& ideal_total(s) <= u64::MAX
}

/// The sums the statistics take fit in a `u64`.
pub open spec fn totals_fit(s: SummaryView) -> bool {
    &&& received_total(s.node_bytes) <= u64::MAX
    &&& ideal_fits(s)
}

impl Summary {
    /// Whether the byte totals the statistics take fit in a `u64`.
    pub fn totals_fit(&self) -> (r: bool)
        ensures
            r == totals_fit(self@),
    {
        let mut sum: u64 = 0;
        let mut i: usize = 0;
        while i < self.node_bytes.len()
            invariant
                i <= self.node_bytes@.len(),
                sum == received_total(self@.node_bytes.take(i as int)),
            decreases self.node_bytes@.len() - i,
        {
            proof {
                let nb = self@.node_bytes;
                assert(nb.take(i + 1).drop_last() =~= nb.take(i as int));
            }
            match sum.checked_add(self.node_bytes[i].1) {
                Some(v) => {
                    sum = v;
                },
                None => {
                    proof {
                        lemma_received_prefix(self@.node_bytes, i + 1);
                    }
                    return false;
                },
            }
            i = i + 1;
        }
        proof {
            assert(self@.node_bytes.take(i as int) =~= self@.node_bytes);
        }
        let receivers = if self.node_bytes.len() > 0 { self.node_bytes.len() - 1 } else { 0 };
        let msgs = self.outcomes.len();
        proof {
            assert(self@.outcomes.len() == msgs);
        }
        match (receivers as u64).checked_mul(self.payload_bytes as u64) {
            Some(p) => p.checked_mul(msgs as u64).is_some(),
            None => false,
        }
    }

    fn total_received(&self) -> (r: u64)
        requires
            received_total(self@.node_bytes) <= u64::MAX,
        ensures
            r == received_total(self@.node_bytes),
    {
        let mut sum: u64 = 0;
        let mut i: usize = 0;
        while i < self.node_bytes.len()
            invariant
                i <= self.node_bytes@.len(),
                received_total(self@.node_bytes) <= u64::MAX,
                sum == received_total(self@.node_bytes.take(i as int)),
            decreases self.node_bytes@.len() - i,
        {
            proof {
                let nb = self@.node_bytes;
                assert(nb.take(i + 1).drop_last() =~= nb.take(i as int));
                lemma_received_prefix(nb, i + 1);
            }
            sum = sum + self.node_bytes[i].1;
            i = i + 1;
        }
        proof {
            assert(self@.node_bytes.take(i as int) =~= self@.node_bytes);
        }
        sum
    }

    fn ideal_bytes(&self) -> (r: u64)
        requires
            ideal_fits(self@),
        ensures
            r == ideal_total(self@),
    {
        let receivers = if self.node_bytes.len() > 0 { self.node_bytes.len() - 1 } else { 0 };
        let payload = self.payload_bytes;
        let msgs = self.outcomes.len();
        proof {
            assert(self@.outcomes.len() == msgs);
        }
        (receivers as u64) * (payload as u64) * (msgs as u64)
    }

    fn completions(&self) -> (r: Vec<Nanos>)
        ensures
            r@ == completions(self@.outcomes),
    {
        let mut out: Vec<Nanos> = Vec::new();
        let mut i: usize = 0;
        while i < self.outcomes.len()
            invariant
                i <= self.outcomes@.len(),
                out@ == completions(self@.outcomes.take(i as int)),
            decreases self.outcomes@.len() - i,
        {
            let c = self.outcomes[i].completion();
            proof {
                let outs = self@.outcomes;
                assert(outs.take(i + 1).drop_last() =~= outs.take(i as int));
                assert(outs.take(i + 1).last() == self.outcomes@[i as int]@);
            }
            match c {
                Some(v) => {
                    out.push(v);
                },
                None => {},
            }
            proof {
                let outs = self@.outcomes;
                assert(out@ =~= completions(outs.take(i + 1)));
            }
            i = i + 1;
        }
        proof {
            assert(self@.outcomes.take(i as int) =~= self@.outcomes);
        }
        out
    }

    fn complete_count(&self) -> (r: usize)
        ensures
            r == complete_count(self@.outcomes),
    {
        let mut n: usize = 0;
        let mut i: usize = 0;
        while i < self.outcomes.len()
            invariant
                i <= self.outcomes@.len(),
                n == complete_count(self@.outcomes.take(i as int)),
                n <= i,
            decreases self.outcomes@.len() - i,
        {
            proof {
                let outs = self@.outcomes;
                assert(outs.take(i + 1).drop_last() =~= outs.take(i as int));
                assert(outs.take(i + 1).last() == self.outcomes@[i as int]@);
            }
            if self.outcomes[i].complete() {
                n = n + 1;
            }
            i = i + 1;
        }
        proof {
            assert(self@.outcomes.take(i as int) =~= self@.outcomes);
        }
        n
    }

    fn mesh_bounds(&self) -> (r: (usize, usize))
        ensures
            r == (mesh_min(self@.mesh), mesh_max(self@.mesh)),
    {
        if self.mesh.len() == 0 {
            return (0, 0);
        }
        let mut lo = self.mesh[0].1;
        let mut hi = self.mesh[0].1;
        let mut i: usize = 1;
        proof {
            let m = self@.mesh;
            assert(m.take(1).drop_last() =~= Seq::<(usize, usize, usize)>::empty());
            assert(mesh_max(Seq::<(usize, usize, usize)>::empty()) == 0);
        }
        while i < self.mesh.len()
            invariant
                1 <= i <= self.mesh@.len(),
                lo == mesh_min(self@.mesh.take(i as int)),
                hi == mesh_max(self@.mesh.take(i as int)),
            decreases self.mesh@.len() - i,
        {
            let m = self.mesh[i].1;
            proof {
                let ms = self@.mesh;
                assert(ms.take(i + 1).drop_last() =~= ms.take(i as int));
                assert(ms.take(i + 1).last().1 == m);
            }
            if m < lo {
                lo = m;
            }
            if m > hi {
                hi = m;
            }
            i = i + 1;
        }
        proof {
            assert(self@.mesh.take(i as int) =~= self@.mesh);
        }
        (lo, hi)
    }

    /// The integer statistics of this run.
    pub fn stats(&self) -> (st: SummaryStats)
        requires
            totals_fit(self@),
        ensures
            stats_hold(self@, st),
    {
        let lat = self.sorted_latencies();
        let completions = self.completions();
        let (mesh_min, mesh_max) = self.mesh_bounds();
        let total = self.total_received();
        let ideal = self.ideal_bytes();
        let (whole, thousandths) = if ideal > 0 {
            let q = total / ideal;
            let whole: u32 = if q <= u32::MAX as u64 { q as u32 } else { u32::MAX };
            let scaled = match total.checked_mul(1000) {
                Some(v) => v,
                None => u64::MAX,
            };
            ((whole, (scaled / ideal % 1000) as u32))
        } else {
            (0u32, 0u32)
        };
        let latency_max = if lat.len() > 0 { lat[lat.len() - 1] } else { 0 };
        let mut completion_max: Nanos = 0;
        let mut i: usize = 0;
        while i < completions.len()
            invariant
                i <= completions@.len(),
                completion_max == max_of(completions@.take(i as int)),
            decreases completions@.len() - i,
        {
            proof {
                assert(completions@.take(i + 1).drop_last() =~= completions@.take(i as int));
            }
            if completions[i] >= completion_max {
                completion_max = completions[i];
            }
            i = i + 1;
        }
        proof {
            assert(completions@.take(i as int) =~= completions@);
        }
        let mut comp_sorted = completions;
        sort_ascending(&mut comp_sorted);
        let st = SummaryStats {
            mesh_degree_min: mesh_min,
            mesh_degree_max: mesh_max,
            messages_complete: self.complete_count(),
            messages_total: self.outcomes.len(),
            latency_p50: percentile(lat.as_slice(), 50),
            latency_p90: percentile(lat.as_slice(), 90),
            latency_p99: percentile(lat.as_slice(), 99),
            latency_max,
            completion_p50: percentile(comp_sorted.as_slice(), 50),
            completion_max,
            wire_bytes_received_total: total,
            ideal_payload_bytes: ideal,
            amplification_whole: whole,
            amplification_thousandths: thousandths,
            wall: self.wall,
        };
        proof {
            assert(latency_stats_hold(lat@, st));
            assert(st.completion_p50 == percentile_spec(comp_sorted@, 50));
        }
        st
    }
}


/// The numbers of the summary document that are printed as fractions,
/// rendered by the caller from the statistics: milliseconds with one
/// decimal (`{:.1}`), the amplification with three, wall-clock seconds with
/// one, and each message's publish-call time in milliseconds with three.
#[derive(Clone, Debug)]
pub struct Rendered {
    pub latency_p50: String,
    pub latency_p90: String,
    pub latency_p99: String,
    pub latency_max: String,
    pub completion_p50: String,
    pub completion_max: String,
    pub amplification: String,
    pub wall_seconds: String,
    pub publish_call_ms: Vec<String>,
}

/// Rendered numbers as character sequences.
pub ghost struct RenderedView {
    pub latency_p50: Seq<char>,
    pub latency_p90: Seq<char>,
    pub latency_p99: Seq<char>,
    pub latency_max: Seq<char>,
    pub completion_p50: Seq<char>,
    pub completion_max: Seq<char>,
    pub amplification: Seq<char>,
    pub wall_seconds: Seq<char>,
    pub publish_call_ms: Seq<Seq<char>>,
}

impl View for Rendered {
    type V = RenderedView;

    open spec fn view(&self) -> RenderedView {
        RenderedView {
            latency_p50: self.latency_p50@,
            latency_p90: self.latency_p90@,
            latency_p99: self.latency_p99@,
            latency_max: self.latency_max@,
            completion_p50: self.completion_p50@,
            completion_max: self.completion_max@,
            amplification: self.amplification@,
            wall_seconds: self.wall_seconds@,
            publish_call_ms: self.publish_call_ms@.map_values(|t: String| t@),
        }
    }
}

/// The JSON lines of the outcomes, with their rendered publish-call times.
pub open spec fn outcome_lines(outs: Seq<OutcomeView>, call_ms: Seq<Seq<char>>) -> Seq<Seq<char>> {
    Seq::new(outs.len(), |i: int| outcome_line(outs[i], call_ms[i]))
}

/// Each field of a message line carries its own value: every key is followed
/// by the value of the field of that name (the publish-call text after
/// `publish_call_ms`), and then by the next key.
#[verifier::rlimit(60)]
pub proof fn lemma_outcome_line_fields(o: OutcomeView, call_ms: Seq<char>)
    ensures
        ({
            let t = outcome_line(o, call_ms);
            &&& exists|p: Seq<char>, s: Seq<char>| t == p + "{\"seq\":"@ + dec(o.seq as nat) + ",\"publish_ok\":"@ + s
            &&& exists|p: Seq<char>, s: Seq<char>| t == p + ",\"publish_ok\":"@ + bool_text(o.publish_ok) + ",\"publish_err\":\""@ + s
            &&& exists|p: Seq<char>, s: Seq<char>| t == p + ",\"publish_err\":\""@ + err_json_text(o.publish_err) + "\",\"publish_call_ms\":"@ + s
            &&& exists|p: Seq<char>, s: Seq<char>| t == p + "\",\"publish_call_ms\":"@ + call_ms + ",\"delivered\":"@ + s
            &&& exists|p: Seq<char>, s: Seq<char>| t == p + ",\"delivered\":"@ + dec(o.deliveries.len()) + ",\"expected\":"@ + s
            &&& exists|p: Seq<char>, s: Seq<char>| t == p + ",\"expected\":"@ + dec(o.expected as nat) + ",\"complete\":"@ + s
            &&& exists|p: Seq<char>, s: Seq<char>| t == p + ",\"complete\":"@ + bool_text(complete_spec(o)) + "}"@ + s
        }),
{
    let t = outcome_line(o, call_ms);
    {
        let x = "{\"seq\":"@ + dec(o.seq as nat) + ",\"publish_ok\":"@;
        assert(x.take(x.len() as int) =~= x);
        lemma_prefix_extends(x, bool_text(o.publish_ok), x);
        lemma_prefix_extends(x + bool_text(o.publish_ok), ",\"publish_err\":\""@, x);
        lemma_prefix_extends(x + bool_text(o.publish_ok) + ",\"publish_err\":\""@, err_json_text(o.publish_err), x);
        lemma_prefix_extends(x + bool_text(o.publish_ok) + ",\"publish_err\":\""@ + err_json_text(o.publish_err), "\",\"publish_call_ms\":"@, x);
        lemma_prefix_extends(x + bool_text(o.publish_ok) + ",\"publish_err\":\""@ + err_json_text(o.publish_err) + "\",\"publish_call_ms\":"@, call_ms, x);
        lemma_prefix_extends(x + bool_text(o.publish_ok) + ",\"publish_err\":\""@ + err_json_text(o.publish_err) + "\",\"publish_call_ms\":"@ + call_ms, ",\"delivered\":"@, x);
        lemma_prefix_extends(x + bool_text(o.publish_ok) + ",\"publish_err\":\""@ + err_json_text(o.publish_err) + "\",\"publish_call_ms\":"@ + call_ms + ",\"delivered\":"@, dec(o.deliveries.len()), x);
        lemma_prefix_extends(x + bool_text(o.publish_ok) + ",\"publish_err\":\""@ + err_json_text(o.publish_err) + "\",\"publish_call_ms\":"@ + call_ms + ",\"delivered\":"@ + dec(o.deliveries.len()), ",\"expected\":"@, x);
        lemma_prefix_extends(x + bool_text(o.publish_ok) + ",\"publish_err\":\""@ + err_json_text(o.publish_err) + "\",\"publish_call_ms\":"@ + call_ms + ",\"delivered\":"@ + dec(o.deliveries.len()) + ",\"expected\":"@, dec(o.expected as nat), x);
        lemma_prefix_extends(x + bool_text(o.publish_ok) + ",\"publish_err\":\""@ + err_json_text(o.publish_err) + "\",\"publish_call_ms\":"@ + call_ms + ",\"delivered\":"@ + dec(o.deliveries.len()) + ",\"expected\":"@ + dec(o.expected as nat), ",\"complete\":"@, x);
        lemma_prefix_extends(x + bool_text(o.publish_ok) + ",\"publish_err\":\""@ + err_json_text(o.publish_err) + "\",\"publish_call_ms\":"@ + call_ms + ",\"delivered\":"@ + dec(o.deliveries.len()) + ",\"expected\":"@ + dec(o.expected as nat) + ",\"complete\":"@, bool_text(complete_spec(o)), x);
        lemma_prefix_extends(x + bool_text(o.publish_ok) + ",\"publish_err\":\""@ + err_json_text(o.publish_err) + "\",\"publish_call_ms\":"@ + call_ms + ",\"delivered\":"@ + dec(o.deliveries.len()) + ",\"expected\":"@ + dec(o.expected as nat) + ",\"complete\":"@ + bool_text(complete_spec(o)), "}"@, x);
        let s = t.skip(x.len() as int);
        assert(t =~= x + s);
        assert(x =~= Seq::<char>::empty() + "{\"seq\":"@ + dec(o.seq as nat) + ",\"publish_ok\":"@);
    }
    {
        let x = "{\"seq\":"@ + dec(o.seq as nat) + ",\"publish_ok\":"@ + bool_text(o.publish_ok) + ",\"publish_err\":\""@;
        assert(x.take(x.len() as int) =~= x);
        lemma_prefix_extends(x, err_json_text(o.publish_err), x);
        lemma_prefix_extends(x + err_json_text(o.publish_err), "\",\"publish_call_ms\":"@, x);
        lemma_prefix_extends(x + err_json_text(o.publish_err) + "\",\"publish_call_ms\":"@, call_ms, x);
        lemma_prefix_extends(x + err_json_text(o.publish_err) + "\",\"publish_call_ms\":"@ + call_ms, ",\"delivered\":"@, x);
        lemma_prefix_extends(x + err_json_text(o.publish_err) + "\",\"publish_call_ms\":"@ + call_ms + ",\"delivered\":"@, dec(o.deliveries.len()), x);
        lemma_prefix_extends(x + err_json_text(o.publish_err) + "\",\"publish_call_ms\":"@ + call_ms + ",\"delivered\":"@ + dec(o.deliveries.len()), ",\"expected\":"@, x);
        lemma_prefix_extends(x + err_json_text(o.publish_err) + "\",\"publish_call_ms\":"@ + call_ms + ",\"delivered\":"@ + dec(o.deliveries.len()) + ",\"expected\":"@, dec(o.expected as nat), x);
        lemma_prefix_extends(x + err_json_text(o.publish_err) + "\",\"publish_call_ms\":"@ + call_ms + ",\"delivered\":"@ + dec(o.deliveries.len()) + ",\"expected\":"@ + dec(o.expected as nat), ",\"complete\":"@, x);
        lemma_prefix_extends(x + err_json_text(o.publish_err) + "\",\"publish_call_ms\":"@ + call_ms + ",\"delivered\":"@ + dec(o.deliveries.len()) + ",\"expected\":"@ + dec(o.expected as nat) + ",\"complete\":"@, bool_text(complete_spec(o)), x);
        lemma_prefix_extends(x + err_json_text(o.publish_err) + "\",\"publish_call_ms\":"@ + call_ms + ",\"delivered\":"@ + dec(o.deliveries.len()) + ",\"expected\":"@ + dec(o.expected as nat) + ",\"complete\":"@ + bool_text(complete_spec(o)), "}"@, x);
        let s = t.skip(x.len() as int);
        assert(t =~= x + s);
    }
    {
        let x = "{\"seq\":"@ + dec(o.seq as nat) + ",\"publish_ok\":"@ + bool_text(o.publish_ok) + ",\"publish_err\":\""@ + err_json_text(o.publish_err) + "\",\"publish_call_ms\":"@;
        assert(x.take(x.len() as int) =~= x);
        lemma_prefix_extends(x, call_ms, x);
        lemma_prefix_extends(x + call_ms, ",\"delivered\":"@, x);
        lemma_prefix_extends(x + call_ms + ",\"delivered\":"@, dec(o.deliveries.len()), x);
        lemma_prefix_extends(x + call_ms + ",\"delivered\":"@ + dec(o.deliveries.len()), ",\"expected\":"@, x);
        lemma_prefix_extends(x + call_ms + ",\"delivered\":"@ + dec(o.deliveries.len()) + ",\"expected\":"@, dec(o.expected as nat), x);
        lemma_prefix_extends(x + call_ms + ",\"delivered\":"@ + dec(o.deliveries.len()) + ",\"expected\":"@ + dec(o.expected as nat), ",\"complete\":"@, x);
        lemma_prefix_extends(x + call_ms + ",\"delivered\":"@ + dec(o.deliveries.len()) + ",\"expected\":"@ + dec(o.expected as nat) + ",\"complete\":"@, bool_text(complete_spec(o)), x);
        lemma_prefix_extends(x + call_ms + ",\"delivered\":"@ + dec(o.deliveries.len()) + ",\"expected\":"@ + dec(o.expected as nat) + ",\"complete\":"@ + bool_text(complete_spec(o)), "}"@, x);
        let s = t.skip(x.len() as int);
        assert(t =~= x + s);
    }
    {
        let x = "{\"seq\":"@ + dec(o.seq as nat) + ",\"publish_ok\":"@ + bool_text(o.publish_ok) + ",\"publish_err\":\""@ + err_json_text(o.publish_err) + "\",\"publish_call_ms\":"@ + call_ms + ",\"delivered\":"@;
        assert(x.take(x.len() as int) =~= x);
        lemma_prefix_extends(x, dec(o.deliveries.len()), x);
        lemma_prefix_extends(x + dec(o.deliveries.len()), ",\"expected\":"@, x);
        lemma_prefix_extends(x + dec(o.deliveries.len()) + ",\"expected\":"@, dec(o.expected as nat), x);
        lemma_prefix_extends(x + dec(o.deliveries.len()) + ",\"expected\":"@ + dec(o.expected as nat), ",\"complete\":"@, x);
        lemma_prefix_extends(x + dec(o.deliveries.len()) + ",\"expected\":"@ + dec(o.expected as nat) + ",\"complete\":"@, bool_text(complete_spec(o)), x);
        lemma_prefix_extends(x + dec(o.deliveries.len()) + ",\"expected\":"@ + dec(o.expected as nat) + ",\"complete\":"@ + bool_text(complete_spec(o)), "}"@, x);
        let s = t.skip(x.len() as int);
        assert(t =~= x + s);
    }
    {
        let x = "{\"seq\":"@ + dec(o.seq as nat) + ",\"publish_ok\":"@ + bool_text(o.publish_ok) + ",\"publish_err\":\""@ + err_json_text(o.publish_err) + "\",\"publish_call_ms\":"@ + call_ms + ",\"delivered\":"@ + dec(o.deliveries.len()) + ",\"expected\":"@;
        assert(x.take(x.len() as int) =~= x);
        lemma_prefix_extends(x, dec(o.expected as nat), x);
        lemma_prefix_extends(x + dec(o.expected as nat), ",\"complete\":"@, x);
        lemma_prefix_extends(x + dec(o.expected as nat) + ",\"complete\":"@, bool_text(complete_spec(o)), x);
        lemma_prefix_extends(x + dec(o.expected as nat) + ",\"complete\":"@ + bool_text(complete_spec(o)), "}"@, x);
        let s = t.skip(x.len() as int);
        assert(t =~= x + s);
    }
    {
        let x = "{\"seq\":"@ + dec(o.seq as nat) + ",\"publish_ok\":"@ + bool_text(o.publish_ok) + ",\"publish_err\":\""@ + err_json_text(o.publish_err) + "\",\"publish_call_ms\":"@ + call_ms + ",\"delivered\":"@ + dec(o.deliveries.len()) + ",\"expected\":"@ + dec(o.expected as nat) + ",\"complete\":"@;
        assert(x.take(x.len() as int) =~= x);
        lemma_prefix_extends(x, bool_text(complete_spec(o)), x);
        lemma_prefix_extends(x + bool_text(complete_spec(o)), "}"@, x);
        let s = t.skip(x.len() as int);
        assert(t =~= x + s);
    }
    {
        let x = "{\"seq\":"@ + dec(o.seq as nat) + ",\"publish_ok\":"@ + bool_text(o.publish_ok) + ",\"publish_err\":\""@ + err_json_text(o.publish_err) + "\",\"publish_call_ms\":"@ + call_ms + ",\"delivered\":"@ + dec(o.deliveries.len()) + ",\"expected\":"@ + dec(o.expected as nat) + ",\"complete\":"@ + bool_text(complete_spec(o)) + "}"@;
        assert(x.take(x.len() as int) =~= x);
        let s = t.skip(x.len() as int);
        assert(t =~= x + s);
    }
}

/// Message line `i` of the document is the line of message `i` with its own
/// publish-call text `call_ms[i]`, one line per message.
pub proof fn lemma_message_lines_are_their_own(outs: Seq<OutcomeView>, call_ms: Seq<Seq<char>>)
    ensures
        outcome_lines(outs, call_ms).len() == outs.len(),
        forall|i: int| 0 <= i < outs.len() ==> #[trigger] outcome_lines(outs, call_ms)[i] == outcome_line(outs[i], call_ms[i]),
{
}

/// The summary document.
pub open spec fn summary_json(s: SummaryView, st: SummaryStats, r: RenderedView) -> Seq<char> {
    "{\"config\":"@ + s.disclosure + ",\n\"mesh_degree_min\":"@ + dec(st.mesh_degree_min as nat)
        + ",\"mesh_degree_max\":"@ + dec(st.mesh_degree_max as nat) + ",\n\"messages_complete\":"@
        + dec(st.messages_complete as nat) + ",\"messages_total\":"@ + dec(st.messages_total as nat)
        + ",\n\"delivery_latency_ms\":{\"p50\":"@ + r.latency_p50 + ",\"p90\":"@ + r.latency_p90
        + ",\"p99\":"@ + r.latency_p99 + ",\"max\":"@ + r.latency_max
        + "},\n\"completion_ms\":{\"p50\":"@ + r.completion_p50 + ",\"max\":"@ + r.completion_max
        + "},\n\"wire_bytes_received_total\":"@ + dec(st.wire_bytes_received_total as nat)
        + ",\"ideal_payload_bytes\":"@ + dec(st.ideal_payload_bytes as nat) + ",\"amplification\":"@
        + r.amplification + ",\n\"wall_seconds\":"@ + r.wall_seconds + ",\n\"messages\":["@ + join(
        outcome_lines(s.outcomes, r.publish_call_ms),
        ",\n"@,
    ) + "]}"@
}

/// The JSON line of one delivery, with its latency rendered as `latency_ms`.
pub open spec fn delivery_line(seq: u64, d: (usize, Nanos), latency_ms: Seq<char>) -> Seq<char> {
    "{\"seq\":"@ + dec(seq as nat) + ",\"node\":"@ + dec(d.0 as nat) + ",\"latency_ms\":"@ + latency_ms
        + "}"@
}

/// One line per delivery, message by message, with the rendered latencies
/// `latency_ms[i][j]` of delivery `j` of message `i`.
pub open spec fn delivery_lines(outs: Seq<OutcomeView>, latency_ms: Seq<Seq<Seq<char>>>) -> Seq<Seq<char>>
    decreases outs.len(),
{
    if outs.len() == 0 {
        Seq::empty()
    } else {
        let o = outs.last();
        let ms = latency_ms[outs.len() - 1];
        delivery_lines(outs.drop_last(), latency_ms) + Seq::new(
            o.deliveries.len(),
            |j: int| delivery_line(o.seq, o.deliveries[j], ms[j]),
        )
    }
}

/// `latency_ms` has one rendered latency per delivery of every message.
pub open spec fn shaped_like(outs: Seq<OutcomeView>, latency_ms: Seq<Seq<Seq<char>>>) -> bool {
    &&& latency_ms.len() == outs.len()
    &&& forall|i: int| 0 <= i < outs.len() ==> #[trigger] latency_ms[i].len() == outs[i].deliveries.len()
}

proof fn lemma_delivery_lines_prefix(outs: Seq<OutcomeView>, latency_ms: Seq<Seq<Seq<char>>>, i: int)
    requires
        0 <= i < outs.len(),
    ensures
        delivery_lines(outs.take(i + 1), latency_ms) == delivery_lines(outs.take(i), latency_ms)
            + Seq::new(
            outs[i].deliveries.len(),
            |j: int| delivery_line(outs[i].seq, outs[i].deliveries[j], latency_ms[i][j]),
        ),
{
    assert(outs.take(i + 1).drop_last() =~= outs.take(i));
}

impl Summary {
    /// The JSON summary document, with the fractional numbers as `rendered`
    /// gives them.
    pub fn to_json(&self, rendered: &Rendered) -> (r: String)
        requires
            totals_fit(self@),
            rendered.publish_call_ms@.len() == self@.outcomes.len(),
        ensures
            exists|st: SummaryStats| stats_hold(self@, st) && r@ == summary_json(self@, st, rendered@),
    {
        let st = self.stats();
        let mut s = "{\"config\":".to_owned();
        s.append(self.disclosure.as_str());
        s.append(",\n\"mesh_degree_min\":");
        push_decimal(&mut s, st.mesh_degree_min as u128);
        s.append(",\"mesh_degree_max\":");
        push_decimal(&mut s, st.mesh_degree_max as u128);
        s.append(",\n\"messages_complete\":");
        push_decimal(&mut s, st.messages_complete as u128);
        s.append(",\"messages_total\":");
        push_decimal(&mut s, st.messages_total as u128);
        s.append(",\n\"delivery_latency_ms\":{\"p50\":");
        s.append(rendered.latency_p50.as_str());
        s.append(",\"p90\":");
        s.append(rendered.latency_p90.as_str());
        s.append(",\"p99\":");
        s.append(rendered.latency_p99.as_str());
        s.append(",\"max\":");
        s.append(rendered.latency_max.as_str());
        s.append("},\n\"completion_ms\":{\"p50\":");
        s.append(rendered.completion_p50.as_str());
        s.append(",\"max\":");
        s.append(rendered.completion_max.as_str());
        s.append("},\n\"wire_bytes_received_total\":");
        push_decimal(&mut s, st.wire_bytes_received_total as u128);
        s.append(",\"ideal_payload_bytes\":");
        push_decimal(&mut s, st.ideal_payload_bytes as u128);
        s.append(",\"amplification\":");
        s.append(rendered.amplification.as_str());
        s.append(",\n\"wall_seconds\":");
        s.append(rendered.wall_seconds.as_str());
        s.append(",\n\"messages\":[");
        let ghost head = s@;
        let ghost lines = outcome_lines(self@.outcomes, rendered@.publish_call_ms);
        let mut i: usize = 0;
        while i < self.outcomes.len()
            invariant
                i <= self.outcomes@.len(),
                rendered.publish_call_ms@.len() == self@.outcomes.len(),
                lines == outcome_lines(self@.outcomes, rendered@.publish_call_ms),
                s@ == head + join(lines.take(i as int), ",\n"@),
            decreases self.outcomes@.len() - i,
        {
            if i > 0 {
                s.append(",\n");
            }
            let line = self.outcomes[i].json_line(rendered.publish_call_ms[i].as_str());
            s.append(line.as_str());
            proof {
                assert(lines.take(i + 1) =~= lines.take(i as int).push(lines[i as int]));
                lemma_join_push(lines.take(i as int), ",\n"@, lines[i as int]);
                assert(line@ == lines[i as int]);
            }
            i = i + 1;
        }
        proof {
            assert(lines.take(i as int) =~= lines);
        }
        s.append("]}");
        s
    }

    /// One JSONL line per delivery observation; `latency_ms[i][j]` is the
    /// latency of delivery `j` of message `i` in milliseconds as `{:.3}`
    /// prints it.
    pub fn deliveries_jsonl(&self, latency_ms: &Vec<Vec<String>>) -> (r: String)
        requires
            shaped_like(self@.outcomes, latency_ms@.map_values(|v: Vec<String>| v@.map_values(|t: String| t@))),
        ensures
            r@ == join(
                delivery_lines(self@.outcomes, latency_ms@.map_values(|v: Vec<String>| v@.map_values(|t: String| t@))),
                "\n"@,
            ),
    {
        let ghost lm = latency_ms@.map_values(|v: Vec<String>| v@.map_values(|t: String| t@));
        let mut s: String = String::new();
        let mut any = false;
        let mut i: usize = 0;
        proof {
            assert(self@.outcomes.take(0) =~= Seq::<OutcomeView>::empty());
            assert(s@ =~= join(Seq::<Seq<char>>::empty(), "\n"@));
        }
        while i < self.outcomes.len()
            invariant
                i <= self.outcomes@.len(),
                lm == latency_ms@.map_values(|v: Vec<String>| v@.map_values(|t: String| t@)),
                shaped_like(self@.outcomes, lm),
                s@ == join(delivery_lines(self@.outcomes.take(i as int), lm), "\n"@),
                any == (delivery_lines(self@.outcomes.take(i as int), lm).len() > 0),
            decreases self.outcomes@.len() - i,
        {
            let o = &self.outcomes[i];
            let texts = &latency_ms[i];
            let ghost before = delivery_lines(self@.outcomes.take(i as int), lm);
            let ghost o_view = self@.outcomes[i as int];
            proof {
                assert(o@ == o_view);
                assert(lm[i as int].len() == o_view.deliveries.len());
            }
            let ghost row = Seq::new(
                o_view.deliveries.len(),
                |j: int| delivery_line(o_view.seq, o_view.deliveries[j], lm[i as int][j]),
            );
            let mut j: usize = 0;
            while j < o.deliveries.len()
                invariant
                    j <= o.deliveries@.len(),
                    o@ == o_view,
                    o_view.deliveries.len() == o.deliveries@.len(),
                    *texts == latency_ms@[i as int],
                    texts@.len() == o.deliveries@.len(),
                    lm[i as int] == texts@.map_values(|t: String| t@),
                    row == Seq::new(
                        o_view.deliveries.len(),
                        |j: int| delivery_line(o_view.seq, o_view.deliveries[j], lm[i as int][j]),
                    ),
                    s@ == join(before + row.take(j as int), "\n"@),
                    any == ((before + row.take(j as int)).len() > 0),
                decreases o.deliveries@.len() - j,
            {
                let ghost pre = before + row.take(j as int);
                if any {
                    s.append("\n");
                }
                any = true;
                let d = o.deliveries[j];
                let ghost start = s@;
                s.append("{\"seq\":");
                push_decimal(&mut s, o.seq as u128);
                s.append(",\"node\":");
                push_decimal(&mut s, d.node as u128);
                s.append(",\"latency_ms\":");
                s.append(texts[j].as_str());
                s.append("}");
                proof {
                    assert(o_view.deliveries[j as int] == d@);
                    assert(s@ == start + row[j as int]);
                    assert(before + row.take(j + 1) =~= pre.push(row[j as int]));
                    lemma_join_push(pre, "\n"@, row[j as int]);
                }
                j = j + 1;
            }
            proof {
                assert(row.take(j as int) =~= row);
                lemma_delivery_lines_prefix(self@.outcomes, lm, i as int);
            }
            i = i + 1;
        }
        proof {
            assert(self@.outcomes.take(i as int) =~= self@.outcomes);
        }
        s
    }
}

/// Human-readable digest printed to stdout: where the report went, then the
/// summary document.
pub fn render(s: &Summary, rendered: &Rendered) -> (r: String)
    requires
        totals_fit(s@),
        rendered.publish_call_ms@.len() == s@.outcomes.len(),
    ensures
        exists|st: SummaryStats|
            stats_hold(s@, st) && r@ == "wrote "@ + s@.out_dir + "/summary.json and deliveries.jsonl\n"@
                + summary_json(s@, st, rendered@),
{
    let mut out = "wrote ".to_owned();
    out.append(s.out_dir());
    out.append("/summary.json and deliveries.jsonl\n");
    let json = s.to_json(rendered);
    out.append(json.as_str());
    out
}

} // verus!
