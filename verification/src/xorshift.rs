//! The session's pseudo-random generator: the xorshift generator of `rand`,
//! as far as this library relies on it.
//!
//! The generator itself is opaque. What is stated of it here is taken on
//! trust from `rand`'s source and is not proved.

use vstd::prelude::*;

verus! {

/// `rand::XorShiftRng`, carried through without a look inside.
#[verifier::external_type_specification]
#[verifier::external_body]
pub struct ExXorShiftRng(rand::XorShiftRng);

/// The four state words of a generator, in the order in which a seed gives
/// them.
pub uninterp spec fn state_words(rng: rand::XorShiftRng) -> Seq<u32>;

/// Whether every word of `seed` is zero: the one seed that the generator
/// does not take.
pub open spec fn all_zero(seed: Seq<u32>) -> bool {
    forall|i: int| 0 <= i < seed.len() ==> seed[i] == 0
}

/// The word that a generator in state `words` gives next.
pub open spec fn next_word(words: Seq<u32>) -> u32 {
    let x = words[0];
    let w = words[3];
    let t = x ^ (x << 11);
    w ^ (w >> 19) ^ (t ^ (t >> 8))
}

/// The state that follows `words`: the words move up by one and the word
/// just given comes last.
pub open spec fn advanced(words: Seq<u32>) -> Seq<u32> {
    seq![words[1], words[2], words[3], next_word(words)]
}

/// `SeedableRng::from_seed` for `XorShiftRng`: the new generator's state is
/// the seed, word for word. An all-zero seed makes it panic, so none is
/// admitted.
#[verifier::external_body]
pub(crate) fn from_seed(seed: [u32; 4]) -> (rng: rand::XorShiftRng)
    requires
        !all_zero(seed@),
    ensures
        state_words(rng) == seed@,
{
    rand::SeedableRng::from_seed(seed)
}

/// `SeedableRng::reseed` for `XorShiftRng`: the generator's state becomes
/// the seed, word for word. An all-zero seed makes it panic, so none is
/// admitted.
#[verifier::external_body]
pub(crate) fn reseed(rng: &mut rand::XorShiftRng, seed: [u32; 4])
    requires
        !all_zero(seed@),
    ensures
        state_words(*final(rng)) == seed@,
{
    rand::SeedableRng::reseed(rng, seed)
}

/// `Rng::next_u32` for `XorShiftRng`: one xorshift step. The word given is
/// `next_word` of the state before, and the state moves on as `advanced`
/// says.
#[verifier::external_body]
pub(crate) fn next_u32(rng: &mut rand::XorShiftRng) -> (word: u32)
    ensures
        word == next_word(state_words(*old(rng))),
        state_words(*final(rng)) == advanced(state_words(*old(rng))),
{
    rand::Rng::next_u32(rng)
}

} // verus!
