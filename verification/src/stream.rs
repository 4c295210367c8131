//! The generator of the `rand` crate, as a stream of words.
//!
//! A generator is modelled by the 32-bit words that it has yet to hand out.
//! Every draw reads words from the front of the stream and drops the ones that
//! it read. What a draw makes of the words is the business of `rand`: each kind
//! of draw has a name here for its result, and the one thing said of each name
//! is that the result depends on nothing but the stream and the arguments.
use rand::rngs::StdRng;
use rand::seq::{IteratorRandom, SliceRandom};
use rand::{Rng, RngCore, SeedableRng};
use vstd::prelude::*;

verus! {

/// The standard generator of `rand`: ChaCha with 12 rounds.
#[verifier::external_type_specification]
#[verifier::external_body]
pub struct ExStdRng(StdRng);

/// The 32-bit words that `rng` has yet to hand out, by position: word 0 is the
/// one that `next_u32` returns next.
pub uninterp spec fn pending(rng: StdRng) -> Map<nat, u32>;

/// The stream of the generator that `StdRng::seed_from_u64` makes from `seed`.
pub uninterp spec fn seeded_stream(seed: u64) -> Map<nat, u32>;

/// What `gen_range(low..high)` returns for `u8` bounds on a generator with this
/// stream, and the number of words that it reads.
pub uninterp spec fn uniform_u8(stream: Map<nat, u32>, low: u8, high: u8) -> (u8, nat);

/// What `gen_range(low..=high)` returns for `u8` bounds on a generator with this
/// stream, and the number of words that it reads.
pub uninterp spec fn uniform_u8_inclusive(stream: Map<nat, u32>, low: u8, high: u8) -> (u8, nat);

/// What `gen_range(low..high)` returns for `u32` bounds on a generator with this
/// stream, and the number of words that it reads.
pub uninterp spec fn uniform_u32(stream: Map<nat, u32>, low: u32, high: u32) -> (u32, nat);

/// What `gen_range(low..=high)` returns for `i32` bounds on a generator with
/// this stream, and the number of words that it reads.
pub uninterp spec fn uniform_i32_inclusive(stream: Map<nat, u32>, low: i32, high: i32) -> (
    i32,
    nat,
);

/// What `gen_range(low..high)` returns for `usize` bounds on a generator with
/// this stream, where `usize` has `bits` bits, and the number of words that it
/// reads.
pub uninterp spec fn uniform_usize(stream: Map<nat, u32>, low: usize, high: usize, bits: u32) -> (
    usize,
    nat,
);

/// What `choose` returns on the characters of `alphabet` with a generator with
/// this stream, and the number of words that it reads.
pub uninterp spec fn chosen_char(stream: Map<nat, u32>, alphabet: Seq<char>) -> (
    Option<char>,
    nat,
);

/// What `shuffle` makes of `items` with a generator with this stream, and the
/// number of words that it reads.
pub uninterp spec fn shuffled(stream: Map<nat, u32>, items: Seq<usize>) -> (Seq<usize>, nat);

/// The stream without its first `count` words.
pub open spec fn skip(stream: Map<nat, u32>, count: nat) -> Map<nat, u32> {
    Map::new(|i: nat| true, |i: nat| stream[i + count])
}

/// `StdRng::seed_from_u64` of `rand`: the generator that it returns depends on
/// the seed alone.
#[verifier::external_body]
pub(crate) fn seeded_rng(seed: u64) -> (rng: StdRng)
    ensures
        pending(rng) == seeded_stream(seed),
{
    StdRng::seed_from_u64(seed)
}

/// A seed from the operating system: the first `next_u64` of `StdRng::from_entropy`
/// of `rand`. Nothing is known of the number. `from_entropy` panics when the system
/// has no entropy to give.
#[verifier::external_body]
pub(crate) fn entropy_seed() -> u64 {
    StdRng::from_entropy().next_u64()
}

/// `RngCore::next_u32` of `rand` on a [`StdRng`]: hands out the first pending word.
#[verifier::external_body]
pub(crate) fn next_word(rng: &mut StdRng) -> (word: u32)
    ensures
        word == pending(*old(rng))[0],
        pending(*final(rng)) == skip(pending(*old(rng)), 1),
{
    rng.next_u32()
}

/// `Rng::gen_range` of `rand` on `low..high` of `u8`: a number of the range that
/// depends on the pending words and the bounds alone. It panics on an empty range.
#[verifier::external_body]
pub(crate) fn draw_u8(rng: &mut StdRng, low: u8, high: u8) -> (value: u8)
    requires
        low < high,
    ensures
        low <= value < high,
        value == uniform_u8(pending(*old(rng)), low, high).0,
        pending(*final(rng)) == skip(
            pending(*old(rng)),
            uniform_u8(pending(*old(rng)), low, high).1,
        ),
{
    rng.gen_range(low..high)
}

/// `Rng::gen_range` of `rand` on `low..=high` of `u8`: a number of the range that
/// depends on the pending words and the bounds alone. It panics on an empty range.
#[verifier::external_body]
pub(crate) fn draw_u8_inclusive(rng: &mut StdRng, low: u8, high: u8) -> (value: u8)
    requires
        low <= high,
    ensures
        low <= value <= high,
        value == uniform_u8_inclusive(pending(*old(rng)), low, high).0,
        pending(*final(rng)) == skip(
            pending(*old(rng)),
            uniform_u8_inclusive(pending(*old(rng)), low, high).1,
        ),
{
    rng.gen_range(low..=high)
}

/// `Rng::gen_range` of `rand` on `low..high` of `u32`: a number of the range that
/// depends on the pending words and the bounds alone. It panics on an empty range.
#[verifier::external_body]
pub(crate) fn draw_u32(rng: &mut StdRng, low: u32, high: u32) -> (value: u32)
    requires
        low < high,
    ensures
        low <= value < high,
        value == uniform_u32(pending(*old(rng)), low, high).0,
        pending(*final(rng)) == skip(
            pending(*old(rng)),
            uniform_u32(pending(*old(rng)), low, high).1,
        ),
{
    rng.gen_range(low..high)
}

/// `Rng::gen_range` of `rand` on `low..=high` of `i32`: a number of the range
/// that depends on the pending words and the bounds alone. It panics on an empty
/// range.
#[verifier::external_body]
pub(crate) fn draw_i32_inclusive(rng: &mut StdRng, low: i32, high: i32) -> (value: i32)
    requires
        low <= high,
    ensures
        low <= value <= high,
        value == uniform_i32_inclusive(pending(*old(rng)), low, high).0,
        pending(*final(rng)) == skip(
            pending(*old(rng)),
            uniform_i32_inclusive(pending(*old(rng)), low, high).1,
        ),
{
    rng.gen_range(low..=high)
}

/// `Rng::gen_range` of `rand` on `low..high` of `usize`: a number of the range
/// that depends on the pending words, the bounds and the width of `usize` alone.
/// It panics on an empty range.
#[verifier::external_body]
pub(crate) fn draw_usize(rng: &mut StdRng, low: usize, high: usize) -> (value: usize)
    requires
        low < high,
    ensures
        low <= value < high,
        value == uniform_usize(pending(*old(rng)), low, high, usize::BITS).0,
        pending(*final(rng)) == skip(
            pending(*old(rng)),
            uniform_usize(pending(*old(rng)), low, high, usize::BITS).1,
        ),
{
    rng.gen_range(low..high)
}

/// `IteratorRandom::choose` of `rand` on the characters of a string: one of them,
/// or nothing if and only if there is none. The choice depends on the pending
/// words and the string alone.
#[verifier::external_body]
pub(crate) fn choose_char(rng: &mut StdRng, alphabet: &str) -> (picked: Option<char>)
    ensures
        picked is None <==> alphabet@.len() == 0,
        picked matches Some(c) ==> alphabet@.contains(c),
        picked == chosen_char(pending(*old(rng)), alphabet@).0,
        pending(*final(rng)) == skip(
            pending(*old(rng)),
            chosen_char(pending(*old(rng)), alphabet@).1,
        ),
{
    alphabet.chars().choose(rng)
}

/// `SliceRandom::shuffle` of `rand` on a vector of numbers: reorders it in place.
/// The new order depends on the pending words and the old order alone.
#[verifier::external_body]
pub(crate) fn shuffle_in_place(rng: &mut StdRng, items: &mut Vec<usize>)
    ensures
        final(items)@.to_multiset() == old(items)@.to_multiset(),
        final(items)@ == shuffled(pending(*old(rng)), old(items)@).0,
        pending(*final(rng)) == skip(
            pending(*old(rng)),
            shuffled(pending(*old(rng)), old(items)@).1,
        ),
{
    items.shuffle(rng)
}

} // verus!
