//! Random strings from weighted character classes, and the predicates that tell
//! which classes a string draws on.
use crate::randomizer::{number_from, Randomizer};
use crate::stream::{
    choose_char, chosen_char, draw_u32, draw_u8, draw_u8_inclusive, skip, uniform_u32,
    uniform_u8, uniform_u8_inclusive,
};
use vstd::prelude::*;

verus! {

/// The punctuation that a generated string may hold. The backslash stands twice,
/// so it is picked twice as often as any other symbol.
pub const SYMBOLS: &'static str = "!\\\"#$%&'()*+,-./:;<=>?@[\\]^_`{|}~";

/// What a random string is made of.
///
/// Lowercase ASCII letters can always occur. Each switch lets one more class of
/// characters in.
#[derive(Clone, Copy, Debug)]
pub struct StringDef {
    /// The number of characters of the string.
    pub length: u32,
    /// Lets emoji in.
    pub include_unicode: bool,
    /// Lets punctuation in.
    pub include_symbol: bool,
    /// Lets `A` to `Z` in.
    pub include_capital_letters: bool,
    /// Lets `0` to `9` in.
    pub include_numbers: bool,
}

impl Default for StringDef {
    /// Six lowercase letters.
    fn default() -> (def: Self)
        ensures
            def.length == 6,
            !def.include_unicode,
            !def.include_symbol,
            !def.include_capital_letters,
            !def.include_numbers,
    {
        Self {
            length: 6,
            include_unicode: false,
            include_symbol: false,
            include_capital_letters: false,
            include_numbers: false,
        }
    }
}

/// Whether std's `char::is_numeric` holds of `c`: the character belongs to one of
/// Unicode's general categories for numbers.
pub uninterp spec fn is_numeric_char(c: char) -> bool;

/// Whether std's `char::is_uppercase` holds of `c`: the character has Unicode's
/// `Uppercase` property.
pub uninterp spec fn is_uppercase_char(c: char) -> bool;

/// `char::is_numeric` of std: the answer depends on the character alone.
pub assume_specification[ char::is_numeric ](c: char) -> (b: bool)
    ensures
        b == is_numeric_char(c),
;

/// `char::is_uppercase` of std: the answer depends on the character alone.
pub assume_specification[ char::is_uppercase ](c: char) -> (b: bool)
    ensures
        b == is_uppercase_char(c),
;

/// The character with the code `code`, if there is one: the codes of the
/// surrogates and those above `0x10FFFF` stand for none.
pub open spec fn scalar(code: u32) -> Option<char> {
    if code <= 0xD7FF || 0xE000 <= code <= 0x10FFFF {
        Some(code as char)
    } else {
        None
    }
}

/// `char::from_u32` of std: the character with that code, where there is one.
pub assume_specification[ char::from_u32 ](code: u32) -> (c: Option<char>)
    ensures
        c == scalar(code),
;

/// The ASCII punctuation characters.
pub open spec fn is_symbol(c: char) -> bool {
    ||| '!' <= c <= '/'
    ||| ':' <= c <= '@'
    ||| '[' <= c <= '`'
    ||| '{' <= c <= '~'
}

/// A character outside the ASCII range.
pub open spec fn is_unicode(c: char) -> bool {
    c > '\u{7f}'
}

/// Some character of `s` lies outside the ASCII range.
pub open spec fn has_unicode(s: Seq<char>) -> bool {
    exists|i: int| 0 <= i < s.len() && is_unicode(#[trigger] s[i])
}

/// Some character of `s` is a punctuation symbol.
pub open spec fn has_symbol(s: Seq<char>) -> bool {
    exists|i: int| 0 <= i < s.len() && is_symbol(#[trigger] s[i])
}

/// Some character of `s` is numeric.
pub open spec fn has_number(s: Seq<char>) -> bool {
    exists|i: int| 0 <= i < s.len() && is_numeric_char(#[trigger] s[i])
}

/// Some character of `s` is an uppercase letter.
pub open spec fn has_capital(s: Seq<char>) -> bool {
    exists|i: int| 0 <= i < s.len() && is_uppercase_char(#[trigger] s[i])
}

/// The symbols of [`SYMBOLS`] are exactly the ASCII punctuation characters.
pub proof fn lemma_symbols_are_punctuation()
    ensures
        SYMBOLS@.len() == 33,
        forall|c: char| SYMBOLS@.contains(c) <==> is_symbol(c),
{
    reveal_strlit("!\\\"#$%&'()*+,-./:;<=>?@[\\]^_`{|}~");
    let s = SYMBOLS@;
    assert forall|c: char| is_symbol(c) implies s.contains(c) by {
        let k = c as int;
        let i: int = if k == 0x21 {
            0
        } else if k == 0x22 {
            2
        } else if k <= 0x2f {
            k - 0x20
        } else if k <= 0x40 {
            k - 0x2a
        } else if k <= 0x60 {
            k - 0x44
        } else {
            k - 0x5e
        };
        assert(0 <= i < 33);
        assert(s[i] == c);
    }
    assert forall|c: char| s.contains(c) implies is_symbol(c) by {
        let i = choose|i: int| 0 <= i < s.len() && s[i] == c;
        assert(is_symbol(s[i]));
    }
}

/// Tells whether `c` is one of the [`SYMBOLS`].
pub fn symbol(c: char) -> (found: bool)
    ensures
        found == is_symbol(c),
        found == SYMBOLS@.contains(c),
{
    proof {
        lemma_symbols_are_punctuation();
        assert(SYMBOLS@.contains(c) <==> is_symbol(c));
    }
    ('!' <= c && c <= '/') || (':' <= c && c <= '@') || ('[' <= c && c <= '`') || ('{' <= c && c
        <= '~')
}

/// The next character of a string made by `def`, and the stream that is left.
///
/// A number below 100 picks the class, in this order: emoji below 20, symbols
/// below 40, capital letters below 60, digits below 80, each only where `def`
/// lets the class in. Whatever is left is a lowercase letter. A second draw picks
/// the character in its class.
pub open spec fn drawn_char(def: StringDef, stream: Map<nat, u32>) -> (char, Map<nat, u32>) {
    let (choice, used) = uniform_u8(stream, 0, 100);
    let rest = skip(stream, used);
    if def.include_unicode && choice < 20 {
        let (code, read) = uniform_u32(rest, 0x1F600, 0x1F64F);
        (
            match scalar(code) {
                Some(c) => c,
                None => '?',
            },
            skip(rest, read),
        )
    } else if def.include_symbol && choice < 40 {
        let (picked, read) = chosen_char(rest, SYMBOLS@);
        (
            match picked {
                Some(c) => c,
                None => '#',
            },
            skip(rest, read),
        )
    } else if def.include_capital_letters && choice < 60 {
        let (byte, read) = uniform_u8_inclusive(rest, 65, 90);
        (byte as char, skip(rest, read))
    } else if def.include_numbers && choice < 80 {
        let (byte, read) = uniform_u8_inclusive(rest, 48, 57);
        (byte as char, skip(rest, read))
    } else {
        let (byte, read) = uniform_u8_inclusive(rest, 97, 122);
        (byte as char, skip(rest, read))
    }
}

/// The first `count` characters that `def` draws from `stream`, and the stream
/// that is left after them.
pub open spec fn drawn_chars(def: StringDef, stream: Map<nat, u32>, count: nat) -> (
    Seq<char>,
    Map<nat, u32>,
)
    decreases count,
{
    if count == 0 {
        (Seq::empty(), stream)
    } else {
        let (prefix, rest) = drawn_chars(def, stream, (count - 1) as nat);
        let (c, left) = drawn_char(def, rest);
        (prefix.push(c), left)
    }
}

/// The string that `def` makes from `stream`, and the stream that is left.
pub open spec fn generated(def: StringDef, stream: Map<nat, u32>) -> (Seq<char>, Map<nat, u32>) {
    drawn_chars(def, stream, def.length as nat)
}

/// The definition that [`StringDef::from_randomizer`] draws from `stream`: a
/// length from 1 to 50 from the first word, a switch from each of the next four.
pub open spec fn drawn_def(stream: Map<nat, u32>) -> StringDef {
    StringDef {
        length: number_from(stream[0], 1, 50) as u32,
        include_unicode: stream[1] % 2 == 0,
        include_symbol: stream[2] % 2 == 0,
        include_capital_letters: stream[3] % 2 == 0,
        include_numbers: stream[4] % 2 == 0,
    }
}

impl StringDef {
    /// The characters that a string of this definition may hold.
    pub open spec fn admits(&self, c: char) -> bool {
        ||| 'a' <= c <= 'z'
        ||| self.include_numbers && '0' <= c <= '9'
        ||| self.include_capital_letters && 'A' <= c <= 'Z'
        ||| self.include_symbol && is_symbol(c)
        ||| self.include_unicode && '\u{1F600}' <= c < '\u{1F64F}'
    }

    /// A definition drawn from `randomizer`: five draws, the length first.
    pub fn from_randomizer(randomizer: &mut Randomizer) -> (def: Self)
        ensures
            def == drawn_def(old(randomizer).stream()),
            1 <= def.length <= 50,
            final(randomizer).stream() == skip(old(randomizer).stream(), 5),
            final(randomizer).seed == old(randomizer).seed,
    {
        let ghost start = randomizer.stream();
        let length = randomizer.number_between(1, 50);
        let include_unicode = randomizer.bool();
        let include_symbol = randomizer.bool();
        let include_capital_letters = randomizer.bool();
        let include_numbers = randomizer.bool();
        proof {
            assert(randomizer.stream() =~= skip(start, 5));
        }
        Self { length, include_unicode, include_symbol, include_capital_letters, include_numbers }
    }

    /// Draws one character: first its class, then the character.
    fn next_char(&self, randomizer: &mut Randomizer) -> (c: char)
        ensures
            (c, final(randomizer).stream()) == drawn_char(*self, old(randomizer).stream()),
            self.admits(c),
            final(randomizer).seed == old(randomizer).seed,
    {
        let choice = draw_u8(&mut randomizer.rng, 0, 100);
        if self.include_unicode && choice < 20 {
            let code = draw_u32(&mut randomizer.rng, 0x1F600, 0x1F64F);
            if let Some(unicode_char) = char::from_u32(code) {
                unicode_char
            } else {
                '?'
            }
        } else if self.include_symbol && choice < 40 {
            proof {
                lemma_symbols_are_punctuation();
            }
            if let Some(symbol) = choose_char(&mut randomizer.rng, SYMBOLS) {
                symbol
            } else {
                '#'
            }
        } else if self.include_capital_letters && choice < 60 {
            draw_u8_inclusive(&mut randomizer.rng, 65, 90) as char
        } else if self.include_numbers && choice < 80 {
            draw_u8_inclusive(&mut randomizer.rng, 48, 57) as char
        } else {
            draw_u8_inclusive(&mut randomizer.rng, 97, 122) as char
        }
    }

    /// A random string of `length` characters, each of a class that this
    /// definition lets in.
    ///
    /// The length counts characters, not bytes: an emoji counts once.
    pub fn generate(&self, randomizer: &mut Randomizer) -> (result: String)
        ensures
            (result@, final(randomizer).stream()) == generated(*self, old(randomizer).stream()),
            result@.len() == self.length,
            forall|i: int| 0 <= i < result@.len() ==> self.admits(#[trigger] result@[i]),
            final(randomizer).seed == old(randomizer).seed,
    {
        let ghost start = randomizer.stream();
        let mut result = String::new();
        let mut count: u32 = 0;
        while count < self.length
            invariant
                count <= self.length,
                randomizer.seed == old(randomizer).seed,
                (result@, randomizer.stream()) == drawn_chars(*self, start, count as nat),
                result@.len() == count,
                forall|i: int| 0 <= i < result@.len() ==> self.admits(#[trigger] result@[i]),
            decreases self.length - count,
        {
            let c = self.next_char(randomizer);
            result.push(c);
            count += 1;
        }
        result
    }

    /// Tells whether `s` holds no capital letter, no number, no symbol and no
    /// character outside ASCII.
    pub fn contains_only_lowercase(s: &str) -> (only: bool)
        ensures
            only == (!has_capital(s@) && !has_number(s@) && !has_symbol(s@) && !has_unicode(s@)),
    {
        !Self::contains_capital_letters(s) && !Self::contains_numbers(s)
            && !Self::contains_symbols(s) && !Self::contains_unicode(s)
    }

    /// Tells whether `s` holds a character outside ASCII.
    pub fn contains_unicode(s: &str) -> (found: bool)
        ensures
            found == has_unicode(s@),
    {
        let mut found = false;
        for c in it: s.chars()
            invariant
                it.seq() == s@,
                found == exists|i: int| 0 <= i < it.index() && is_unicode(#[trigger] s@[i]),
        {
            if c > '\u{7f}' {
                found = true;
            }
        }
        found
    }

    /// Tells whether `s` holds one of the [`SYMBOLS`].
    pub fn contains_symbols(s: &str) -> (found: bool)
        ensures
            found == has_symbol(s@),
    {
        let mut found = false;
        for c in it: s.chars()
            invariant
                it.seq() == s@,
                found == exists|i: int| 0 <= i < it.index() && is_symbol(#[trigger] s@[i]),
        {
            if symbol(c) {
                found = true;
            }
        }
        found
    }

    /// Tells whether `s` holds a numeric character.
    pub fn contains_numbers(s: &str) -> (found: bool)
        ensures
            found == has_number(s@),
    {
        let mut found = false;
        for c in it: s.chars()
            invariant
                it.seq() == s@,
                found == exists|i: int| 0 <= i < it.index() && is_numeric_char(#[trigger] s@[i]),
        {
            if c.is_numeric() {
                found = true;
            }
        }
        found
    }

    /// Tells whether `s` holds an uppercase character.
    pub fn contains_capital_letters(s: &str) -> (found: bool)
        ensures
            found == has_capital(s@),
    {
        let mut found = false;
        for c in it: s.chars()
            invariant
                it.seq() == s@,
                found == exists|i: int| 0 <= i < it.index() && is_uppercase_char(
                    #[trigger] s@[i],
                ),
        {
            if c.is_uppercase() {
                found = true;
            }
        }
        found
    }
}

/// A definition on its way to a string: the switches can still be set, and
/// [`StringDefBuilder::to_string`] draws the string.
pub struct StringDefBuilder<'a> {
    /// What the string will be made of.
    pub string_def: StringDef,
    /// Where the draws will come from.
    pub rng: &'a mut Randomizer,
}

impl<'a> StringDefBuilder<'a> {
    /// Sets the number of characters.
    #[must_use]
    pub fn length(self, length: u32) -> (builder: Self)
        ensures
            builder.string_def == (StringDef { length, ..self.string_def }),
            *builder.rng == *old(self.rng),
            *final(builder.rng) == *final(self.rng),
    {
        let mut string_def = self.string_def;
        string_def.length = length;
        Self { string_def, rng: self.rng }
    }

    /// Lets emoji in or keeps them out.
    #[must_use]
    pub fn include_unicode(self, yes: bool) -> (builder: Self)
        ensures
            builder.string_def == (StringDef { include_unicode: yes, ..self.string_def }),
            *builder.rng == *old(self.rng),
            *final(builder.rng) == *final(self.rng),
    {
        let mut string_def = self.string_def;
        string_def.include_unicode = yes;
        Self { string_def, rng: self.rng }
    }

    /// Lets symbols in or keeps them out.
    #[must_use]
    pub fn include_symbol(self, yes: bool) -> (builder: Self)
        ensures
            builder.string_def == (StringDef { include_symbol: yes, ..self.string_def }),
            *builder.rng == *old(self.rng),
            *final(builder.rng) == *final(self.rng),
    {
        let mut string_def = self.string_def;
        string_def.include_symbol = yes;
        Self { string_def, rng: self.rng }
    }

    /// Lets capital letters in or keeps them out.
    #[must_use]
    pub fn include_capital_letters(self, yes: bool) -> (builder: Self)
        ensures
            builder.string_def == (StringDef { include_capital_letters: yes, ..self.string_def }),
            *builder.rng == *old(self.rng),
            *final(builder.rng) == *final(self.rng),
    {
        let mut string_def = self.string_def;
        string_def.include_capital_letters = yes;
        Self { string_def, rng: self.rng }
    }

    /// Lets digits in or keeps them out.
    #[must_use]
    pub fn include_numbers(self, yes: bool) -> (builder: Self)
        ensures
            builder.string_def == (StringDef { include_numbers: yes, ..self.string_def }),
            *builder.rng == *old(self.rng),
            *final(builder.rng) == *final(self.rng),
    {
        let mut string_def = self.string_def;
        string_def.include_numbers = yes;
        Self { string_def, rng: self.rng }
    }

    /// Draws the string. The builder stays as it is, so it can draw again.
    pub fn to_string(&mut self) -> (result: String)
        ensures
            (result@, final(self).rng.stream()) == generated(
                old(self).string_def,
                old(self).rng.stream(),
            ),
            result@.len() == old(self).string_def.length,
            forall|i: int|
                0 <= i < result@.len() ==> old(self).string_def.admits(#[trigger] result@[i]),
            final(self).string_def == old(self).string_def,
            final(self).rng.seed == old(self).rng.seed,
            *final(final(self).rng) == *final(old(self).rng),
    {
        self.string_def.generate(self.rng)
    }
}

/// A lowercase letter may stand in every string, and a definition with more
/// switches on lets in whatever one with fewer lets in.
pub proof fn lemma_switches_only_add(def: StringDef, more: StringDef, c: char)
    requires
        def.include_unicode ==> more.include_unicode,
        def.include_symbol ==> more.include_symbol,
        def.include_capital_letters ==> more.include_capital_letters,
        def.include_numbers ==> more.include_numbers,
    ensures
        'a' <= c <= 'z' ==> def.admits(c),
        def.admits(c) ==> more.admits(c),
{
}

} // verus!
