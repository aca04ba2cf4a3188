//! The seeded generator behind topology, keys and payloads.
//!
//! A ChaCha8 generator's output is reproducible from its seed (`rand`'s
//! documentation of its seedable generators, and `rand_chacha`'s value
//! stability). So each draw is named as a function of the seed and of the
//! draws taken before it; the names are not unfolded, only related to the
//! code that makes the draws.
use rand::{Rng, SeedableRng};
use rand_chacha::ChaCha8Rng;
use vstd::prelude::*;

verus! {

/// The ChaCha8 generator of `rand_chacha`, opaque to the proofs.
#[verifier::external_type_specification]
#[verifier::external_body]
pub struct ExChaCha8Rng(ChaCha8Rng);

/// One draw taken from a generator.
pub ghost enum Draw {
    /// A value below the bound.
    Below(usize),
    /// One byte.
    Byte,
    /// Thirty-two bytes.
    Bytes32,
}

/// `n` draws of the same kind.
pub open spec fn repeated(d: Draw, n: nat) -> Seq<Draw> {
    Seq::new(n, |_i: int| d)
}

/// A ChaCha8 generator together with the seed it was made from and the
/// draws taken from it so far.
pub struct SeededRng {
    rng: ChaCha8Rng,
    seed: Ghost<u64>,
    drawn: Ghost<Seq<Draw>>,
}

impl View for SeededRng {
    /// (seed, draws taken so far).
    type V = (u64, Seq<Draw>);

    closed spec fn view(&self) -> (u64, Seq<Draw>) {
        (self.seed@, self.drawn@)
    }
}

/// The value below `bound` that a ChaCha8 generator seeded with `seed`
/// gives after the draws `before`.
pub uninterp spec fn chacha8_below(seed: u64, before: Seq<Draw>, bound: usize) -> usize;

/// The byte that a ChaCha8 generator seeded with `seed` gives after the
/// draws `before`.
pub uninterp spec fn chacha8_byte(seed: u64, before: Seq<Draw>) -> u8;

/// The 32 bytes that a ChaCha8 generator seeded with `seed` gives after the
/// draws `before`.
pub uninterp spec fn chacha8_bytes32(seed: u64, before: Seq<Draw>) -> Seq<u8>;

/// `SeedableRng::seed_from_u64` for `ChaCha8Rng`.
#[verifier::external_body]
fn chacha8_from_seed(seed: u64) -> ChaCha8Rng {
    ChaCha8Rng::seed_from_u64(seed)
}

/// A fresh generator seeded with `seed`.
pub(crate) fn seeded(seed: u64) -> (r: SeededRng)
    ensures
        r@ == (seed, Seq::<Draw>::empty()),
{
    SeededRng { rng: chacha8_from_seed(seed), seed: Ghost(seed), drawn: Ghost(Seq::empty()) }
}

/// `Rng::gen_range(0..bound)`, drawn over `u64` so that the value does not
/// depend on the machine's word size (on 64-bit machines it is the value
/// the same draw over `usize` gives). It lies in `0..bound`, and it is the
/// generator's next draw below `bound`; `gen_range` panics on an empty
/// range, hence `bound > 0`.
#[verifier::external_body]
pub(crate) fn draw_below(rng: &mut SeededRng, bound: usize) -> (r: usize)
    requires
        bound > 0,
    ensures
        r < bound,
        r == chacha8_below(old(rng)@.0, old(rng)@.1, bound),
        final(rng)@ == (old(rng)@.0, old(rng)@.1.push(Draw::Below(bound))),
{
    rng.rng.gen_range(0..bound as u64) as usize
}

/// `Rng::sample(Standard)` for one byte, the step that `sample_iter(Standard)`
/// repeats: the generator's next byte.
#[verifier::external_body]
pub(crate) fn draw_byte(rng: &mut SeededRng) -> (r: u8)
    ensures
        r == chacha8_byte(old(rng)@.0, old(rng)@.1),
        final(rng)@ == (old(rng)@.0, old(rng)@.1.push(Draw::Byte)),
{
    rng.rng.sample(rand::distributions::Standard)
}

/// `Rng::gen::<[u8; 32]>()`: the generator's next 32 bytes.
#[verifier::external_body]
pub(crate) fn draw_32_bytes(rng: &mut SeededRng) -> (r: [u8; 32])
    ensures
        r@ == chacha8_bytes32(old(rng)@.0, old(rng)@.1),
        final(rng)@ == (old(rng)@.0, old(rng)@.1.push(Draw::Bytes32)),
{
    rng.rng.gen()
}

} // verus!
