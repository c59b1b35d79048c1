//! Finding and replacing text within a text.

use vstd::prelude::*;
use crate::text::strings::{chars_of, extend_chars};

verus! {

/// Whether `pattern` occurs in `s` at position `at`.
pub open spec fn matches_at(s: Seq<char>, pattern: Seq<char>, at: int) -> bool {
    0 <= at && at + pattern.len() <= s.len() && s.subrange(at, at + pattern.len()) == pattern
}

/// Whether `pattern` occurs somewhere in `s`.
pub open spec fn occurs_in(s: Seq<char>, pattern: Seq<char>) -> bool {
    exists|at: int| matches_at(s, pattern, at)
}

/// Whether `pattern` occurs in `chars` at position `at`.
pub fn chars_match_at(chars: &Vec<char>, pattern: &Vec<char>, at: usize) -> (b: bool)
    ensures
        b == matches_at(chars@, pattern@, at as int),
{
    if pattern.len() > chars.len() || at > chars.len() - pattern.len() {
        return false;
    }
    let n = chars.len();
    let mut k: usize = 0;
    while k < pattern.len()
        invariant
            k <= pattern@.len(),
            n == chars@.len(),
            at + pattern@.len() <= chars@.len(),
            forall|j: int| 0 <= j < k ==> chars@[at + j] == pattern@[j],
        decreases pattern@.len() - k,
    {
        if chars[at + k] != pattern[k] {
            assert(chars@.subrange(at as int, at + pattern@.len())[k as int] != pattern@[k as int]);
            return false;
        }
        k += 1;
    }
    assert(chars@.subrange(at as int, at + pattern@.len()) =~= pattern@);
    true
}

/// Whether `chars` is exactly the text `literal`.
pub fn chars_are(chars: &Vec<char>, literal: &str) -> (b: bool)
    ensures
        b == (chars@ == literal@),
{
    let pattern = chars_of(literal);
    if chars.len() != pattern.len() {
        return false;
    }
    let found = chars_match_at(chars, &pattern, 0);
    assert(chars@.subrange(0, chars@.len() as int) =~= chars@);
    found
}

/// Whether `chars` starts with the text `literal`.
pub fn chars_start_with(chars: &Vec<char>, literal: &str) -> (b: bool)
    ensures
        b == literal@.is_prefix_of(chars@),
{
    let pattern = chars_of(literal);
    let found = chars_match_at(chars, &pattern, 0);
    proof {
        if pattern@.len() <= chars@.len() {
            assert(chars@.subrange(0, pattern@.len() as int) =~= chars@.take(pattern@.len() as int));
        }
        if literal@.is_prefix_of(chars@) {
            assert(chars@.subrange(0, pattern@.len() as int) =~= pattern@);
        }
    }
    found
}

/// Whether `pattern` occurs somewhere in `chars`.
pub fn chars_occur(chars: &Vec<char>, pattern: &Vec<char>) -> (b: bool)
    ensures
        b == occurs_in(chars@, pattern@),
{
    if pattern.len() > chars.len() {
        assert forall|at: int| !matches_at(chars@, pattern@, at) by {}
        return false;
    }
    let last: usize = chars.len() - pattern.len();
    let mut at: usize = 0;
    loop
        invariant
            at <= last,
            last == chars@.len() - pattern@.len(),
            forall|j: int| 0 <= j < at ==> !matches_at(chars@, pattern@, j),
        decreases last - at,
    {
        if chars_match_at(chars, pattern, at) {
            return true;
        }
        if at == last {
            assert forall|j: int| !matches_at(chars@, pattern@, j) by {}
            return false;
        }
        at += 1;
    }
}

/// Whether the text `literal` occurs somewhere in `chars`.
pub fn chars_contain(chars: &Vec<char>, literal: &str) -> (b: bool)
    ensures
        b == occurs_in(chars@, literal@),
{
    chars_occur(chars, &chars_of(literal))
}

/// The position of the first `c` in `s`, if there is one.
pub open spec fn first_index_of(s: Seq<char>, c: char) -> Option<int>
    decreases s.len(),
{
    if s.len() == 0 {
        None
    } else if s[0] == c {
        Some(0)
    } else {
        match first_index_of(s.drop_first(), c) {
            Some(i) => Some(i + 1),
            None => None,
        }
    }
}

/// What `first_index_of` finds is the first occurrence, and it finds one
/// whenever there is one.
pub proof fn lemma_first_index_of(s: Seq<char>, c: char)
    ensures
        match first_index_of(s, c) {
            Some(i) => 0 <= i < s.len() && s[i] == c && forall|j: int| 0 <= j < i ==> s[j] != c,
            None => forall|j: int| 0 <= j < s.len() ==> s[j] != c,
        },
    decreases s.len(),
{
    if s.len() > 0 && s[0] != c {
        lemma_first_index_of(s.drop_first(), c);
        let rest = s.drop_first();
        match first_index_of(rest, c) {
            Some(i) => {
                assert forall|j: int| 0 <= j < i + 1 implies s[j] != c by {
                    if j > 0 {
                        assert(rest[j - 1] == s[j]);
                    }
                }
            },
            None => {
                assert forall|j: int| 0 <= j < s.len() implies s[j] != c by {
                    if j > 0 {
                        assert(rest[j - 1] == s[j]);
                    }
                }
            },
        }
    }
}

/// A position that holds `c` and has no `c` before it is the one that
/// `first_index_of` finds.
pub proof fn lemma_first_index_is(s: Seq<char>, c: char, at: int)
    requires
        0 <= at <= s.len(),
        forall|j: int| 0 <= j < at ==> s[j] != c,
        at < s.len() ==> s[at] == c,
    ensures
        first_index_of(s, c) == if at < s.len() {
            Some(at)
        } else {
            None::<int>
        },
{
    lemma_first_index_of(s, c);
}

/// The position of the first `c` in `chars`, if there is one.
pub fn find_char(chars: &Vec<char>, c: char) -> (found: Option<usize>)
    ensures
        match found {
            Some(i) => first_index_of(chars@, c) == Some(i as int) && i < chars@.len(),
            None => first_index_of(chars@, c) is None,
        },
{
    let mut i: usize = 0;
    while i < chars.len()
        invariant
            i <= chars@.len(),
            forall|j: int| 0 <= j < i ==> chars@[j] != c,
        decreases chars@.len() - i,
    {
        if chars[i] == c {
            proof {
                lemma_first_index_is(chars@, c, i as int);
            }
            return Some(i);
        }
        i += 1;
    }
    proof {
        lemma_first_index_is(chars@, c, i as int);
    }
    None
}

/// The text before the first `c` in `s`; all of `s` if it holds no `c`.
pub open spec fn before_first(s: Seq<char>, c: char) -> Seq<char> {
    match first_index_of(s, c) {
        Some(i) => s.take(i),
        None => s,
    }
}

/// The last position at or before `from` at which `pattern` occurs in `s`.
pub open spec fn last_match_upto(s: Seq<char>, pattern: Seq<char>, from: int) -> Option<int>
    decreases from + 1,
{
    if from < 0 {
        None
    } else if matches_at(s, pattern, from) {
        Some(from)
    } else {
        last_match_upto(s, pattern, from - 1)
    }
}

/// The last position at which `pattern` occurs in `s`, if it occurs.
pub open spec fn last_match(s: Seq<char>, pattern: Seq<char>) -> Option<int> {
    last_match_upto(s, pattern, s.len() as int)
}

/// What `last_match_upto` finds is the last occurrence at or before `from`,
/// and it finds one whenever there is one.
pub proof fn lemma_last_match_upto(s: Seq<char>, pattern: Seq<char>, from: int)
    ensures
        match last_match_upto(s, pattern, from) {
            Some(i) => 0 <= i <= from && matches_at(s, pattern, i) && forall|j: int|
                i < j <= from ==> !matches_at(s, pattern, j),
            None => forall|j: int| 0 <= j <= from ==> !matches_at(s, pattern, j),
        },
    decreases from + 1,
{
    if from >= 0 && !matches_at(s, pattern, from) {
        lemma_last_match_upto(s, pattern, from - 1);
    }
}

/// The last position at which `pattern` occurs in `chars`, if it occurs.
pub fn rfind_chars(chars: &Vec<char>, pattern: &Vec<char>) -> (found: Option<usize>)
    ensures
        match found {
            Some(i) => last_match(chars@, pattern@) == Some(i as int) && i + pattern@.len()
                <= chars@.len(),
            None => last_match(chars@, pattern@) is None,
        },
{
    let mut at: usize = chars.len();
    loop
        invariant
            at <= chars@.len(),
            last_match(chars@, pattern@) == last_match_upto(chars@, pattern@, at as int),
        decreases at,
    {
        if chars_match_at(chars, pattern, at) {
            return Some(at);
        }
        if at == 0 {
            assert(last_match_upto(chars@, pattern@, -1) is None);
            return None;
        }
        at -= 1;
    }
}

/// `s` with every occurrence of `pattern` replaced by `replacement`, found
/// from left to right without overlap. With an empty pattern nothing is
/// replaced.
pub open spec fn replace_text(s: Seq<char>, pattern: Seq<char>, replacement: Seq<char>) -> Seq<
    char,
>
    decreases s.len(),
{
    if pattern.len() == 0 || s.len() < pattern.len() {
        s
    } else if matches_at(s, pattern, 0) {
        replacement + replace_text(s.skip(pattern.len() as int), pattern, replacement)
    } else {
        seq![s[0]] + replace_text(s.drop_first(), pattern, replacement)
    }
}

/// `chars` with every occurrence of `pattern` replaced by `replacement`.
/// With an empty pattern nothing is replaced.
pub fn replace_chars(chars: &Vec<char>, pattern: &Vec<char>, replacement: &Vec<char>) -> (out:
    Vec<char>)
    ensures
        out@ == replace_text(chars@, pattern@, replacement@),
{
    let mut out: Vec<char> = Vec::new();
    if pattern.len() == 0 {
        extend_chars(&mut out, chars);
        assert(out@ =~= chars@);
        return out;
    }
    let mut i: usize = 0;
    assert(chars@.skip(0) =~= chars@);
    while i < chars.len()
        invariant
            i <= chars@.len(),
            pattern@.len() > 0,
            replace_text(chars@, pattern@, replacement@) == out@ + replace_text(
                chars@.skip(i as int),
                pattern@,
                replacement@,
            ),
        decreases chars@.len() - i,
    {
        let ghost rest = chars@.skip(i as int);
        let ghost before = out@;
        let hit = chars_match_at(chars, pattern, i);
        proof {
            if i + pattern@.len() <= chars@.len() {
                assert(rest.subrange(0, pattern@.len() as int) =~= chars@.subrange(
                    i as int,
                    i + pattern@.len(),
                ));
            }
            assert(hit == matches_at(rest, pattern@, 0));
        }
        if hit {
            extend_chars(&mut out, replacement);
            proof {
                assert(rest.skip(pattern@.len() as int) =~= chars@.skip(i + pattern@.len()));
                assert(before + (replacement@ + replace_text(
                    rest.skip(pattern@.len() as int),
                    pattern@,
                    replacement@,
                )) =~= (before + replacement@) + replace_text(
                    rest.skip(pattern@.len() as int),
                    pattern@,
                    replacement@,
                ));
            }
            i += pattern.len();
        } else {
            out.push(chars[i]);
            proof {
                assert(rest.drop_first() =~= chars@.skip(i + 1));
                if rest.len() < pattern@.len() {
                    lemma_replace_short(rest, pattern@, replacement@);
                    lemma_replace_short(rest.drop_first(), pattern@, replacement@);
                    assert(rest =~= seq![rest[0]] + rest.drop_first());
                }
                assert(before + (seq![rest[0]] + replace_text(
                    rest.drop_first(),
                    pattern@,
                    replacement@,
                )) =~= before.push(chars@[i as int]) + replace_text(
                    rest.drop_first(),
                    pattern@,
                    replacement@,
                ));
            }
            i += 1;
        }
    }
    proof {
        assert(chars@.skip(i as int) =~= Seq::<char>::empty());
        assert(out@ + Seq::<char>::empty() =~= out@);
    }
    out
}

/// A text shorter than the pattern holds no occurrence and stays as it is.
pub proof fn lemma_replace_short(s: Seq<char>, pattern: Seq<char>, replacement: Seq<char>)
    requires
        s.len() < pattern.len(),
    ensures
        replace_text(s, pattern, replacement) == s,
{
}

} // verus!
