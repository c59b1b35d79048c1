//! Rewriting of separators and whitespace.

use vstd::prelude::*;
use crate::text::unicode::{char_is_whitespace, is_whitespace};

verus! {

/// `s` with each `.` and `_` turned into a space.
pub open spec fn separators_to_spaces(s: Seq<char>) -> Seq<char> {
    s.map_values(
        |c: char|
            if c == '.' || c == '_' {
                ' '
            } else {
                c
            },
    )
}

/// `chars` with each `.` and `_` turned into a space.
pub fn spaces_for_separators(chars: &Vec<char>) -> (out: Vec<char>)
    ensures
        out@ == separators_to_spaces(chars@),
{
    let mut out: Vec<char> = Vec::new();
    let mut i: usize = 0;
    while i < chars.len()
        invariant
            i <= chars@.len(),
            out@.len() == i,
            forall|k: int| 0 <= k < i ==> out@[k] == separators_to_spaces(chars@)[k],
        decreases chars@.len() - i,
    {
        let c = chars[i];
        if c == '.' || c == '_' {
            out.push(' ');
        } else {
            out.push(c);
        }
        i += 1;
    }
    assert(out@ =~= separators_to_spaces(chars@));
    out
}

/// The words of `s`, joined by single spaces: every run of whitespace
/// between two words becomes one space, and whitespace at either end goes.
pub open spec fn words_joined(s: Seq<char>) -> Seq<char>
    decreases s.len(),
{
    if s.len() == 0 {
        Seq::empty()
    } else if is_whitespace(s.last()) {
        words_joined(s.drop_last())
    } else if s.len() >= 2 && !is_whitespace(s[s.len() - 2]) {
        words_joined(s.drop_last()).push(s.last())
    } else if words_joined(s.drop_last()).len() == 0 {
        seq![s.last()]
    } else {
        words_joined(s.drop_last()).push(' ').push(s.last())
    }
}

/// The words of `chars`, joined by single spaces.
pub fn join_words(chars: &Vec<char>) -> (out: Vec<char>)
    ensures
        out@ == words_joined(chars@),
{
    let mut out: Vec<char> = Vec::new();
    let mut in_word = false;
    let mut i: usize = 0;
    assert(chars@.take(0) =~= Seq::<char>::empty());
    while i < chars.len()
        invariant
            i <= chars@.len(),
            out@ == words_joined(chars@.take(i as int)),
            in_word == (i > 0 && !is_whitespace(chars@[i - 1])),
        decreases chars@.len() - i,
    {
        let c = chars[i];
        proof {
            assert(chars@.take(i + 1).drop_last() =~= chars@.take(i as int));
            assert(chars@.take(i + 1).last() == c);
            if i > 0 {
                assert(chars@.take(i + 1)[i - 1] == chars@[i - 1]);
            }
        }
        if char_is_whitespace(c) {
            in_word = false;
        } else {
            if !in_word && out.len() > 0 {
                out.push(' ');
            }
            out.push(c);
            proof {
                if !in_word && words_joined(chars@.take(i as int)).len() == 0 {
                    assert(out@ =~= seq![c]);
                }
            }
            in_word = true;
        }
        i += 1;
    }
    assert(chars@.take(chars@.len() as int) =~= chars@);
    out
}

/// `s` without its spaces and hyphens.
pub open spec fn without_spaces_and_hyphens(s: Seq<char>) -> Seq<char> {
    s.filter(|c: char| c != ' ' && c != '-')
}

/// `chars` without its spaces and hyphens.
pub fn drop_spaces_and_hyphens(chars: &Vec<char>) -> (out: Vec<char>)
    ensures
        out@ == without_spaces_and_hyphens(chars@),
{
    let mut out: Vec<char> = Vec::new();
    let mut i: usize = 0;
    assert(chars@.take(0) =~= Seq::<char>::empty());
    while i < chars.len()
        invariant
            i <= chars@.len(),
            out@ == chars@.take(i as int).filter(|c: char| c != ' ' && c != '-'),
        decreases chars@.len() - i,
    {
        let c = chars[i];
        proof {
            assert(chars@.take(i + 1) =~= chars@.take(i as int).push(c));
            chars@.take(i as int).lemma_filter_push(c, |c: char| c != ' ' && c != '-');
        }
        if c != ' ' && c != '-' {
            out.push(c);
        }
        i += 1;
    }
    assert(chars@.take(chars@.len() as int) =~= chars@);
    out
}

} // verus!
