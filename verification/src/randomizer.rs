//! The one source of randomness of a run.
//!
//! A [`Randomizer`] wraps a seeded generator. Every draw is stated over the
//! stream of words that the generator has yet to hand out, so the seed and the
//! order of the draws fix every result.
use crate::generator::{generated, StringDef, StringDefBuilder};
use crate::stream::{
    draw_i32_inclusive, draw_u8_inclusive, draw_usize, entropy_seed, next_word, pending,
    seeded_rng, seeded_stream, shuffle_in_place, shuffled, skip, uniform_i32_inclusive,
    uniform_u8_inclusive, uniform_usize,
};
use rand::rngs::StdRng;
use std::path::PathBuf;
use vstd::prelude::*;

verus! {

/// An owned file system path of std.
#[verifier::external_type_specification]
#[verifier::external_body]
pub struct ExPathBuf(PathBuf);

/// The path that `PathBuf::from` makes of a string.
pub uninterp spec fn path_of(text: Seq<char>) -> PathBuf;

/// `PathBuf::from` of std on a `String`: the path depends on the text alone.
#[verifier::external_body]
pub(crate) fn path_from(text: String) -> (path: PathBuf)
    ensures
        path == path_of(text@),
{
    PathBuf::from(text)
}

/// A seeded source of random draws.
///
/// Every draw changes the generator, so two randomizers with the same stream
/// give the same results as long as they are asked the same questions in the
/// same order.
pub struct Randomizer {
    /// The generator that the draws come from.
    pub rng: StdRng,
    /// The seed that the generator was made from.
    pub seed: u64,
}

/// The number that [`Randomizer::number_between`] makes of one word.
pub open spec fn number_from(word: u32, min: u32, max: u32) -> int {
    min + (word as int) % (max - min + 1)
}

/// `count` lowercase letters, drawn one after the other, and the stream that is
/// left after them.
pub open spec fn letters(stream: Map<nat, u32>, count: nat) -> (Seq<char>, Map<nat, u32>)
    decreases count,
{
    if count == 0 {
        (Seq::empty(), stream)
    } else {
        let (prefix, rest) = letters(stream, (count - 1) as nat);
        let (byte, used) = uniform_u8_inclusive(rest, 97, 122);
        (prefix.push(byte as char), skip(rest, used))
    }
}

/// The name that [`Randomizer::path`] draws, and the stream that is left: a
/// length from 5 to 10, then as many lowercase letters.
pub open spec fn path_name(stream: Map<nat, u32>) -> (Seq<char>, Map<nat, u32>) {
    let (length, used) = uniform_i32_inclusive(stream, 5, 10);
    letters(skip(stream, used), length as nat)
}

/// `count` positions in a sequence of length `len`, drawn one after the other,
/// and the stream that is left after them.
pub open spec fn picks(stream: Map<nat, u32>, len: usize, count: nat) -> (
    Seq<usize>,
    Map<nat, u32>,
)
    decreases count,
{
    if count == 0 {
        (Seq::empty(), stream)
    } else {
        let (prefix, rest) = picks(stream, len, (count - 1) as nat);
        let (index, used) = uniform_usize(rest, 0, len, usize::BITS);
        (prefix.push(index), skip(rest, used))
    }
}

/// The positions that [`Randomizer::pick_random`] draws in a sequence of length
/// `len`, and the stream that is left: a count from 1 to 10, then as many
/// positions. A position may come more than once.
pub open spec fn sample(stream: Map<nat, u32>, len: usize) -> (Seq<usize>, Map<nat, u32>) {
    let (count, used) = uniform_i32_inclusive(stream, 1, 10);
    picks(skip(stream, used), len, count as nat)
}

/// The positions `0, 1, ..` of a sequence of length `len`, in order.
pub open spec fn positions(len: nat) -> Seq<usize> {
    Seq::new(len, |i: int| i as usize)
}

/// `order` holds each position of a sequence of length `len` exactly once.
pub open spec fn is_permutation(order: Seq<usize>, len: nat) -> bool {
    &&& order.len() == len
    &&& forall|i: int| 0 <= i < len ==> #[trigger] order[i] < len
    &&& forall|i: int, j: int| 0 <= i < j < len ==> #[trigger] order[i] != #[trigger] order[j]
}

/// The order in which [`Randomizer::shuffle`] puts the positions of a sequence of
/// length `len`.
pub open spec fn shuffle_order(stream: Map<nat, u32>, len: nat) -> Seq<usize> {
    shuffled(stream, positions(len)).0
}

/// A sequence with the same numbers as `positions(len)`, each as often, is a
/// permutation of them.
pub proof fn lemma_reordered_positions(order: Seq<usize>, len: nat)
    requires
        len <= usize::MAX,
        order.to_multiset() == positions(len).to_multiset(),
    ensures
        is_permutation(order, len),
{
    let base = positions(len);
    order.to_multiset_ensures();
    base.to_multiset_ensures();
    assert(order.len() == len);
    assert(base.no_duplicates());
    base.lemma_multiset_has_no_duplicates();
    order.lemma_multiset_has_no_duplicates_conv();
    assert forall|i: int| 0 <= i < len implies #[trigger] order[i] < len by {
        assert(order.contains(order[i]));
        assert(base.to_multiset().count(order[i]) > 0);
        assert(base.contains(order[i]));
        let k = choose|k: int| 0 <= k < base.len() && base[k] == order[i];
        assert(base[k] == k);
    }
}

impl Default for Randomizer {
    /// A randomizer with a seed from the operating system. The seed is kept in
    /// [`Randomizer::seed`], so the draws can be had again from
    /// [`Randomizer::with_seed`].
    fn default() -> (randomizer: Self)
        ensures
            randomizer.stream() == seeded_stream(randomizer.seed),
    {
        Self::with_seed(entropy_seed())
    }
}

impl Randomizer {
    /// The words that the generator has yet to hand out.
    pub open spec fn stream(&self) -> Map<nat, u32> {
        pending(self.rng)
    }

    /// A randomizer whose draws are fixed by `seed`.
    #[must_use]
    pub fn with_seed(seed: u64) -> (randomizer: Self)
        ensures
            randomizer.seed == seed,
            randomizer.stream() == seeded_stream(seed),
    {
        Self { rng: seeded_rng(seed), seed }
    }

    /// A number from `min` to `max`, both included: `min` plus the next word
    /// modulo the size of the range.
    ///
    /// `min` may not lie above `max`, and the size of the range has to fit in a
    /// `u32`: the range cannot be all of `u32`.
    pub fn number_between(&mut self, min: u32, max: u32) -> (number: u32)
        requires
            min <= max,
            max - min < u32::MAX,
        ensures
            number == number_from(old(self).stream()[0], min, max),
            min <= number <= max,
            final(self).stream() == skip(old(self).stream(), 1),
            final(self).seed == old(self).seed,
    {
        let word = next_word(&mut self.rng);
        min + word % (max - min + 1)
    }

    /// True or false: whether the next word is even.
    pub fn bool(&mut self) -> (flag: bool)
        ensures
            flag == (old(self).stream()[0] % 2 == 0),
            final(self).stream() == skip(old(self).stream(), 1),
            final(self).seed == old(self).seed,
    {
        let word = next_word(&mut self.rng);
        word % 2 == 0
    }
    /// A string of the kind that `def` describes, yet to be drawn: the builder
    /// can still change the definition.
    pub fn string(&mut self, def: StringDef) -> (builder: StringDefBuilder<'_>)
        ensures
            builder.string_def == def,
            *builder.rng == *old(self),
            *final(builder.rng) == *final(self),
    {
        StringDefBuilder { string_def: def, rng: self }
    }

    /// A file name of 5 to 10 lowercase letters, as a path.
    pub fn path(&mut self) -> (path: PathBuf)
        ensures
            ({
                let (name, rest) = path_name(old(self).stream());
                &&& path == path_of(name)
                &&& 5 <= name.len() <= 10
                &&& forall|i: int| 0 <= i < name.len() ==> 'a' <= #[trigger] name[i] <= 'z'
                &&& final(self).stream() == rest
            }),
            final(self).seed == old(self).seed,
    {
        let path_length = draw_i32_inclusive(&mut self.rng, 5, 10);
        let ghost first = self.stream();
        let mut name = String::new();
        let mut done: i32 = 0;
        while done < path_length
            invariant
                0 <= done <= path_length,
                self.seed == old(self).seed,
                (name@, self.stream()) == letters(first, done as nat),
                forall|i: int| 0 <= i < name@.len() ==> 'a' <= #[trigger] name@[i] <= 'z',
                name@.len() == done,
            decreases path_length - done,
        {
            let byte = draw_u8_inclusive(&mut self.rng, 97, 122);
            name.push(byte as char);
            done += 1;
        }
        path_from(name)
    }

    /// The items of `items` in a random order. `items` itself stays as it is.
    ///
    /// Item `i` of the result is a clone of item `shuffle_order(..)[i]` of `items`,
    /// and that order holds every position once. So where a clone equals what
    /// it was made from, the result holds the same items as `items`, each as
    /// often.
    pub fn shuffle<T: Clone>(&mut self, items: &[T]) -> (mixed: Vec<T>)
        ensures
            ({
                let order = shuffle_order(old(self).stream(), items@.len());
                let read = shuffled(old(self).stream(), positions(items@.len())).1;
                &&& mixed@.len() == items@.len()
                &&& is_permutation(order, items@.len())
                &&& forall|i: int|
                    0 <= i < items@.len() ==> cloned(items@[order[i] as int], #[trigger] mixed@[i])
                &&& (forall|i: int|
                    0 <= i < items@.len() ==> #[trigger] mixed@[i] == items@[order[i] as int])
                    ==> mixed@.to_multiset() == items@.to_multiset()
                &&& final(self).stream() == skip(old(self).stream(), read)
            }),
            final(self).seed == old(self).seed,
    {
        let len = items.len();
        let mut order: Vec<usize> = Vec::new();
        let mut next: usize = 0;
        while next < len
            invariant
                next <= len,
                order@ == positions(next as nat),
            decreases len - next,
        {
            order.push(next);
            next += 1;
            assert(order@ =~= positions(next as nat));
        }
        shuffle_in_place(&mut self.rng, &mut order);
        proof {
            lemma_reordered_positions(order@, len as nat);
        }
        let mut mixed: Vec<T> = Vec::new();
        let mut at: usize = 0;
        while at < len
            invariant
                at <= len,
                len == items@.len(),
                is_permutation(order@, len as nat),
                mixed@.len() == at,
                forall|i: int|
                    0 <= i < at ==> cloned(items@[order@[i] as int], #[trigger] mixed@[i]),
            decreases len - at,
        {
            mixed.push(items[order[at]].clone());
            at += 1;
        }
        proof {
            if forall|i: int| 0 <= i < len ==> #[trigger] mixed@[i] == items@[order@[i] as int] {
                lemma_permutation_keeps_items(items@, order@, mixed@);
            }
        }
        mixed
    }

    /// From 1 to 10 items of `items`, each drawn on its own: an item may come
    /// more than once, and some may not come at all.
    ///
    /// Item `i` of the result is a clone of item `sample(..)[i]` of `items`.
    /// There has to be an item to pick.
    pub fn pick_random<T: Clone>(&mut self, items: &[T]) -> (picked: Vec<T>)
        requires
            items@.len() > 0,
        ensures
            ({
                let (chosen, rest) = sample(old(self).stream(), items@.len() as usize);
                &&& 1 <= picked@.len() <= 10
                &&& picked@.len() == chosen.len()
                &&& forall|i: int| 0 <= i < chosen.len() ==> #[trigger] chosen[i] < items@.len()
                &&& forall|i: int|
                    0 <= i < chosen.len() ==> cloned(
                        items@[chosen[i] as int],
                        #[trigger] picked@[i],
                    )
                &&& final(self).stream() == rest
            }),
            final(self).seed == old(self).seed,
    {
        let len = items.len();
        let count = draw_i32_inclusive(&mut self.rng, 1, 10);
        let ghost first = self.stream();
        let ghost mut indices: Seq<usize> = Seq::empty();
        let mut picked: Vec<T> = Vec::new();
        let mut done: i32 = 0;
        while done < count
            invariant
                0 <= done <= count,
                len == items@.len(),
                len > 0,
                self.seed == old(self).seed,
                (indices, self.stream()) == picks(first, len, done as nat),
                picked@.len() == done,
                indices.len() == done,
                forall|i: int| 0 <= i < done ==> #[trigger] indices[i] < len,
                forall|i: int|
                    0 <= i < done ==> cloned(items@[indices[i] as int], #[trigger] picked@[i]),
            decreases count - done,
        {
            let index = draw_usize(&mut self.rng, 0, len);
            let item = items[index].clone();
            picked.push(item);
            proof {
                indices = indices.push(index);
            }
            done += 1;
        }
        picked
    }

}

/// `order` without its last entry, as an order of the sequence that is left when
/// the item at `gone` leaves: the positions behind `gone` move up by one.
pub open spec fn without_last(order: Seq<usize>, gone: usize) -> Seq<usize> {
    Seq::new(
        (order.len() - 1) as nat,
        |i: int|
            if order[i] > gone {
                (order[i] - 1) as usize
            } else {
                order[i]
            },
    )
}

/// Putting the items of a sequence in the order of a permutation keeps every
/// item, as often as it was there.
pub proof fn lemma_permutation_keeps_items<T>(items: Seq<T>, order: Seq<usize>, mixed: Seq<T>)
    requires
        is_permutation(order, items.len()),
        mixed.len() == items.len(),
        forall|i: int| 0 <= i < mixed.len() ==> mixed[i] == items[#[trigger] order[i] as int],
    ensures
        mixed.to_multiset() == items.to_multiset(),
    decreases items.len(),
{
    broadcast use vstd::seq_lib::to_multiset_build, vstd::seq_lib::to_multiset_remove;

    if items.len() == 0 {
        assert(mixed =~= items);
    } else {
        let last = mixed.len() - 1;
        let gone = order[last];
        let fewer = items.remove(gone as int);
        let shorter = mixed.drop_last();
        let reduced = without_last(order, gone);
        assert forall|i: int| 0 <= i < reduced.len() implies #[trigger] reduced[i]
            < fewer.len() by {
            assert(order[i] < items.len());
            assert(order[i] != order[last]);
        }
        assert forall|i: int, j: int| 0 <= i < j < reduced.len() implies #[trigger] reduced[i]
            != #[trigger] reduced[j] by {
            assert(order[i] != order[j]);
            assert(order[i] != order[last]);
            assert(order[j] != order[last]);
        }
        assert forall|i: int| 0 <= i < shorter.len() implies shorter[i] == fewer[
            #[trigger] reduced[i] as int
        ] by {
            assert(mixed[i] == items[order[i] as int]);
            assert(order[i] != order[last]);
        }
        lemma_permutation_keeps_items(fewer, reduced, shorter);
        assert(mixed =~= shorter.push(mixed[last]));
        assert(mixed[last] == items[gone as int]);
        assert(items =~= fewer.insert(gone as int, items[gone as int]));
        vstd::seq_lib::to_multiset_insert(fewer, gone as int, items[gone as int]);
    }
}

/// One question to a randomizer.
pub enum Draw {
    /// [`Randomizer::number_between`] with these bounds.
    NumberBetween { min: u32, max: u32 },
    /// [`Randomizer::bool`].
    Flag,
    /// A string of this definition, by [`StringDef::generate`] or through
    /// [`Randomizer::string`].
    Text { def: StringDef },
    /// [`Randomizer::path`].
    Path,
    /// [`Randomizer::shuffle`] on this many items.
    Shuffle { len: usize },
    /// [`Randomizer::pick_random`] on this many items.
    PickRandom { len: usize },
}

/// The answer to one question.
pub enum Drawn {
    /// The number.
    Number(int),
    /// The flag.
    Flag(bool),
    /// The characters of the string.
    Text(Seq<char>),
    /// The characters of the path.
    Path(Seq<char>),
    /// For each place of the result, the position of the item that is put there.
    Positions(Seq<usize>),
}

/// The answer that a randomizer with this stream gives to `draw`, and the stream
/// that it is left with: what the contracts of the draws say, in one place.
pub open spec fn outcome(stream: Map<nat, u32>, draw: Draw) -> (Drawn, Map<nat, u32>) {
    match draw {
        Draw::NumberBetween { min, max } => (
            Drawn::Number(number_from(stream[0], min, max)),
            skip(stream, 1),
        ),
        Draw::Flag => (Drawn::Flag(stream[0] % 2 == 0), skip(stream, 1)),
        Draw::Text { def } => (
            Drawn::Text(generated(def, stream).0),
            generated(def, stream).1,
        ),
        Draw::Path => (Drawn::Path(path_name(stream).0), path_name(stream).1),
        Draw::Shuffle { len } => (
            Drawn::Positions(shuffle_order(stream, len as nat)),
            skip(stream, shuffled(stream, positions(len as nat)).1),
        ),
        Draw::PickRandom { len } => (
            Drawn::Positions(sample(stream, len).0),
            sample(stream, len).1,
        ),
    }
}

/// The answers to a sequence of questions, each asked of what the one before
/// left of the stream.
pub open spec fn outcomes(stream: Map<nat, u32>, draws: Seq<Draw>) -> Seq<Drawn>
    decreases draws.len(),
{
    if draws.len() == 0 {
        Seq::empty()
    } else {
        seq![outcome(stream, draws[0]).0] + outcomes(
            outcome(stream, draws[0]).1,
            draws.drop_first(),
        )
    }
}

/// Two randomizers that were made from the same seed and have not drawn yet
/// give the same answers to the same questions in the same order.
pub proof fn lemma_same_seed_same_outcomes(
    first: Randomizer,
    second: Randomizer,
    seed: u64,
    draws: Seq<Draw>,
)
    requires
        first.stream() == seeded_stream(seed),
        second.stream() == seeded_stream(seed),
    ensures
        outcomes(first.stream(), draws) == outcomes(second.stream(), draws),
{
}

} // verus!
