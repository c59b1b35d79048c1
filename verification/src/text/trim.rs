//! Stripping characters from the ends of a text.

use vstd::prelude::*;
use crate::text::strings::slice_chars;
use crate::text::unicode::{char_is_whitespace, is_whitespace};

verus! {

/// A set of characters to strip from the ends of a text.
#[derive(Debug, Clone, Copy, PartialEq, Eq, Structural)]
pub enum TrimSet {
    /// Unicode whitespace.
    Whitespace,
    /// The hyphen and the space.
    HyphenOrSpace,
}

impl TrimSet {
    /// Whether the set holds the character.
    pub open spec fn holds(self, c: char) -> bool {
        match self {
            TrimSet::Whitespace => is_whitespace(c),
            TrimSet::HyphenOrSpace => c == '-' || c == ' ',
        }
    }

    /// Whether the set holds the character.
    pub fn contains(self, c: char) -> (b: bool)
        ensures
            b == self.holds(c),
    {
        match self {
            TrimSet::Whitespace => char_is_whitespace(c),
            TrimSet::HyphenOrSpace => c == '-' || c == ' ',
        }
    }
}

/// `s` without the characters of `set` at its start.
pub open spec fn trim_start(s: Seq<char>, set: TrimSet) -> Seq<char>
    decreases s.len(),
{
    if s.len() > 0 && set.holds(s[0]) {
        trim_start(s.drop_first(), set)
    } else {
        s
    }
}

/// `s` without the characters of `set` at its end.
pub open spec fn trim_end(s: Seq<char>, set: TrimSet) -> Seq<char>
    decreases s.len(),
{
    if s.len() > 0 && set.holds(s.last()) {
        trim_end(s.drop_last(), set)
    } else {
        s
    }
}

/// `s` without the characters of `set` at its start and at its end.
pub open spec fn trimmed(s: Seq<char>, set: TrimSet) -> Seq<char> {
    trim_end(trim_start(s, set), set)
}

/// What is left after trimming the start is the end of the text, and does
/// not start with a character of the set.
pub proof fn lemma_trim_start(s: Seq<char>, set: TrimSet)
    ensures
        trim_start(s, set).len() <= s.len(),
        trim_start(s, set) == s.skip(s.len() - trim_start(s, set).len()),
        trim_start(s, set).len() > 0 ==> !set.holds(trim_start(s, set)[0]),
    decreases s.len(),
{
    if s.len() > 0 && set.holds(s[0]) {
        let rest = s.drop_first();
        lemma_trim_start(rest, set);
        let r = trim_start(rest, set);
        assert(rest.skip(rest.len() - r.len()) =~= s.skip(s.len() - r.len()));
    } else {
        assert(s.skip(0) =~= s);
    }
}

/// What is left after trimming the end is the start of the text, and does
/// not end with a character of the set.
pub proof fn lemma_trim_end(s: Seq<char>, set: TrimSet)
    ensures
        trim_end(s, set).len() <= s.len(),
        trim_end(s, set) == s.take(trim_end(s, set).len() as int),
        trim_end(s, set).len() > 0 ==> !set.holds(trim_end(s, set).last()),
    decreases s.len(),
{
    if s.len() > 0 && set.holds(s.last()) {
        let rest = s.drop_last();
        lemma_trim_end(rest, set);
        let r = trim_end(rest, set);
        assert(rest.take(r.len() as int) =~= s.take(r.len() as int));
    } else {
        assert(s.take(s.len() as int) =~= s);
    }
}

/// A trimmed text neither starts nor ends with a character of the set.
pub proof fn lemma_trimmed_is_clean(s: Seq<char>, set: TrimSet)
    ensures
        trimmed(s, set).len() > 0 ==> !set.holds(trimmed(s, set)[0]) && !set.holds(
            trimmed(s, set).last(),
        ),
{
    let t = trim_start(s, set);
    lemma_trim_start(s, set);
    lemma_trim_end(t, set);
}

/// The range of `chars` that remains when the characters of `set` at its
/// start and at its end are left out.
pub fn trim_range(chars: &Vec<char>, set: TrimSet) -> (range: (usize, usize))
    ensures
        range.0 <= range.1 <= chars@.len(),
        chars@.subrange(range.0 as int, range.1 as int) == trimmed(chars@, set),
{
    let mut from: usize = 0;
    assert(chars@.subrange(0, chars@.len() as int) =~= chars@);
    while from < chars.len() && set.contains(chars[from])
        invariant
            from <= chars@.len(),
            trim_start(chars@, set) == trim_start(
                chars@.subrange(from as int, chars@.len() as int),
                set,
            ),
        decreases chars@.len() - from,
    {
        assert(chars@.subrange(from as int, chars@.len() as int).drop_first() =~= chars@.subrange(
            from + 1,
            chars@.len() as int,
        ));
        from += 1;
    }
    let mut to: usize = chars.len();
    assert(chars@.subrange(from as int, chars@.len() as int).len() > 0 ==> chars@.subrange(
        from as int,
        chars@.len() as int,
    )[0] == chars@[from as int]);
    while to > from && set.contains(chars[to - 1])
        invariant
            from <= to <= chars@.len(),
            trim_start(chars@, set) == chars@.subrange(from as int, chars@.len() as int),
            trimmed(chars@, set) == trim_end(chars@.subrange(from as int, to as int), set),
        decreases to,
    {
        assert(chars@.subrange(from as int, to as int).drop_last() =~= chars@.subrange(
            from as int,
            to - 1,
        ));
        to -= 1;
    }
    (from, to)
}

/// `chars` without the characters of `set` at its start and at its end.
pub fn trim_chars(chars: &Vec<char>, set: TrimSet) -> (out: Vec<char>)
    ensures
        out@ == trimmed(chars@, set),
{
    let range = trim_range(chars, set);
    slice_chars(chars, range.0, range.1)
}

} // verus!
