//! Splitting a release name into tokens.
//!
//! The input is cut at brackets, parentheses, underscores, dots, hyphens and
//! spaces. Every non-empty fragment between two cuts becomes a token that
//! remembers where the fragment lies in the input, in bytes, and holds its
//! text in normalised form: lower case, ASCII letters and digits only.

use vstd::prelude::*;
use crate::text::{
    TrimSet,
    byte_length,
    byte_offset,
    char_is_ascii_alnum,
    char_width,
    chars_of,
    is_ascii_alnum,
    lemma_byte_offset_monotonic,
    lemma_trim_end,
    lemma_trim_start,
    lowercase_of,
    slice_chars,
    string_of,
    to_lowercase,
    trim_end,
    trim_range,
    trim_start,
    trimmed,
    utf8_len,
};

verus! {

/// A fragment of the input with its position.
#[derive(Debug, Clone, PartialEq, Eq)]
pub struct Token {
    /// The normalised text of the fragment.
    pub text: String,
    /// The byte offset at which the fragment starts in the input.
    pub start: usize,
    /// The byte offset just behind the fragment.
    pub end: usize,
    /// The position of the token in the token sequence, from 0.
    pub index: usize,
}

/// A token as plain data.
pub ghost struct TokenModel {
    pub text: Seq<char>,
    pub start: int,
    pub end: int,
    pub index: int,
}

impl View for Token {
    type V = TokenModel;

    open spec fn view(&self) -> TokenModel {
        TokenModel {
            text: self.text@,
            start: self.start as int,
            end: self.end as int,
            index: self.index as int,
        }
    }
}

/// Whether the input is cut at this character.
pub open spec fn is_delimiter(c: char) -> bool {
    c == '[' || c == ']' || c == '(' || c == ')' || c == '_' || c == '.' || c == '-' || c == ' '
}

/// Whether normalisation keeps this character.
pub open spec fn is_kept(c: char) -> bool {
    is_ascii_alnum(c) || c == ' '
}

/// A text reduced to its ASCII letters, digits and spaces, without
/// whitespace at either end.
pub open spec fn plain(text: Seq<char>) -> Seq<char> {
    trimmed(text.filter(|c: char| is_kept(c)), TrimSet::Whitespace)
}

/// The normalised form of a fragment: its lower-case form, reduced to ASCII
/// letters, digits and spaces, without whitespace at either end.
pub open spec fn normalized(fragment: Seq<char>) -> Seq<char> {
    plain(lowercase_of(fragment))
}

/// Where the fragment that is still open after the first `n` characters
/// starts: just behind the last delimiter among them.
pub open spec fn open_start(s: Seq<char>, n: int) -> int
    decreases n,
{
    if n <= 0 {
        0
    } else if is_delimiter(s[n - 1]) {
        n
    } else {
        open_start(s, n - 1)
    }
}

/// The non-empty fragments that a delimiter has closed within the first `n`
/// characters, as half-open ranges of character positions.
pub open spec fn closed_spans(s: Seq<char>, n: int) -> Seq<(int, int)>
    decreases n,
{
    if n <= 0 {
        Seq::empty()
    } else if is_delimiter(s[n - 1]) && open_start(s, n - 1) < n - 1 {
        closed_spans(s, n - 1).push((open_start(s, n - 1), n - 1))
    } else {
        closed_spans(s, n - 1)
    }
}

/// All non-empty fragments of the input, in order.
pub open spec fn fragment_spans(s: Seq<char>) -> Seq<(int, int)> {
    let n = s.len() as int;
    if open_start(s, n) < n {
        closed_spans(s, n).push((open_start(s, n), n))
    } else {
        closed_spans(s, n)
    }
}

/// The token for the fragment at `span`, at position `index` of the
/// sequence.
pub open spec fn token_model(s: Seq<char>, span: (int, int), index: int) -> TokenModel {
    TokenModel {
        text: normalized(s.subrange(span.0, span.1)),
        start: byte_offset(s, span.0) as int,
        end: byte_offset(s, span.1) as int,
        index,
    }
}

/// The tokens of an input.
pub open spec fn spec_tokenize(s: Seq<char>) -> Seq<TokenModel> {
    Seq::new(fragment_spans(s).len(), |i: int| token_model(s, fragment_spans(s)[i], i))
}

/// Whether `span` is a maximal run of non-delimiters in `s`.
pub open spec fn is_fragment(s: Seq<char>, span: (int, int)) -> bool {
    &&& 0 <= span.0 < span.1 <= s.len()
    &&& forall|k: int| span.0 <= k < span.1 ==> !is_delimiter(#[trigger] s[k])
    &&& span.0 == 0 || is_delimiter(s[span.0 - 1])
    &&& span.1 == s.len() || is_delimiter(s[span.1])
}

/// The fragments closed within the first `n` characters are maximal runs of
/// non-delimiters, lie in order with at least one delimiter between
/// neighbours, end before the open fragment starts, and leave out no
/// non-delimiter before it.
pub proof fn lemma_closed_spans(s: Seq<char>, n: int)
    requires
        0 <= n <= s.len(),
    ensures
        0 <= open_start(s, n) <= n,
        open_start(s, n) == 0 || is_delimiter(s[open_start(s, n) - 1]),
        forall|k: int| open_start(s, n) <= k < n ==> !is_delimiter(#[trigger] s[k]),
        forall|i: int|
            0 <= i < closed_spans(s, n).len() ==> {
                let span = #[trigger] closed_spans(s, n)[i];
                &&& is_fragment(s, span)
                &&& span.1 < open_start(s, n)
            },
        forall|i: int, j: int|
            0 <= i < j < closed_spans(s, n).len() ==> (#[trigger] closed_spans(s, n)[i]).1 < (
            #[trigger] closed_spans(s, n)[j]).0,
        forall|k: int|
            0 <= k < open_start(s, n) && !is_delimiter(#[trigger] s[k]) ==> exists|i: int|
                0 <= i < closed_spans(s, n).len() && (#[trigger] closed_spans(s, n)[i]).0 <= k < (
                closed_spans(s, n)[i]).1,
    decreases n,
{
    if n > 0 {
        lemma_closed_spans(s, n - 1);
        let before = closed_spans(s, n - 1);
        let now = closed_spans(s, n);
        if is_delimiter(s[n - 1]) {
            let a = open_start(s, n - 1);
            assert forall|k: int|
                0 <= k < open_start(s, n) && !is_delimiter(#[trigger] s[k]) implies exists|i: int|

                0 <= i < now.len() && (#[trigger] now[i]).0 <= k < (now[i]).1 by {
                if k < a {
                    let i = choose|i: int|
                        0 <= i < before.len() && (#[trigger] before[i]).0 <= k < (before[i]).1;
                    assert(now[i] == before[i]);
                } else {
                    assert(a < n - 1);
                    assert(now[now.len() - 1] == (a, n - 1));
                }
            }
        } else {
            assert(now == before);
        }
    }
}

/// The fragments of an input are exactly its maximal runs of
/// non-delimiters: each span is such a run, the spans lie in order with at
/// least one delimiter between neighbours, and every non-delimiter lies in
/// one of them.
pub proof fn lemma_fragment_spans(s: Seq<char>)
    ensures
        forall|i: int|
            0 <= i < fragment_spans(s).len() ==> is_fragment(s, #[trigger] fragment_spans(s)[i]),
        forall|i: int, j: int|
            0 <= i < j < fragment_spans(s).len() ==> (#[trigger] fragment_spans(s)[i]).1 < (
            #[trigger] fragment_spans(s)[j]).0,
        forall|k: int|
            0 <= k < s.len() && !is_delimiter(#[trigger] s[k]) ==> exists|i: int|
                0 <= i < fragment_spans(s).len() && (#[trigger] fragment_spans(s)[i]).0 <= k < (
                fragment_spans(s)[i]).1,
{
    let n = s.len() as int;
    lemma_closed_spans(s, n);
    let closed = closed_spans(s, n);
    let all = fragment_spans(s);
    assert forall|k: int| 0 <= k < s.len() && !is_delimiter(#[trigger] s[k]) implies exists|i: int|

        0 <= i < all.len() && (#[trigger] all[i]).0 <= k < (all[i]).1 by {
        if k < open_start(s, n) {
            let i = choose|i: int|
                0 <= i < closed.len() && (#[trigger] closed[i]).0 <= k < (closed[i]).1;
            assert(all[i] == closed[i]);
        } else {
            assert(all[all.len() - 1] == (open_start(s, n), n));
        }
    }
}

/// Tokens come in input order: each one is non-empty in the input, starts
/// behind the end of the one before it, and carries its own position.
pub proof fn lemma_tokens_ordered(s: Seq<char>)
    ensures
        forall|i: int|
            0 <= i < spec_tokenize(s).len() ==> {
                let t = #[trigger] spec_tokenize(s)[i];
                &&& 0 <= t.start < t.end <= utf8_len(s)
                &&& t.index == i
            },
        forall|i: int, j: int|
            0 <= i < j < spec_tokenize(s).len() ==> (#[trigger] spec_tokenize(s)[i]).end < (
            #[trigger] spec_tokenize(s)[j]).start,
{
    lemma_fragment_spans(s);
    let spans = fragment_spans(s);
    assert(s.take(s.len() as int) =~= s);
    assert forall|i: int| 0 <= i < spec_tokenize(s).len() implies {
        let t = #[trigger] spec_tokenize(s)[i];
        &&& 0 <= t.start < t.end <= utf8_len(s)
        &&& t.index == i
    } by {
        assert(is_fragment(s, spans[i]));
        lemma_byte_offset_monotonic(s, spans[i].0, spans[i].1);
        lemma_byte_offset_monotonic(s, spans[i].1, s.len() as int);
    }
    assert forall|i: int, j: int| 0 <= i < j < spec_tokenize(s).len() implies (
    #[trigger] spec_tokenize(s)[i]).end < (#[trigger] spec_tokenize(s)[j]).start by {
        assert(is_fragment(s, spans[i]));
        assert(is_fragment(s, spans[j]));
        lemma_byte_offset_monotonic(s, spans[i].1, spans[j].0);
    }
}

/// A reduced text holds nothing but ASCII letters, digits and spaces.
pub proof fn lemma_plain_is_plain(text: Seq<char>)
    ensures
        forall|i: int| 0 <= i < plain(text).len() ==> is_kept(#[trigger] plain(text)[i]),
{
    let kept = text.filter(|c: char| is_kept(c));
    let front = trim_start(kept, TrimSet::Whitespace);
    let both = trim_end(front, TrimSet::Whitespace);
    lemma_trim_start(kept, TrimSet::Whitespace);
    lemma_trim_end(front, TrimSet::Whitespace);
    assert forall|i: int| 0 <= i < both.len() implies is_kept(#[trigger] both[i]) by {
        let k = i + (kept.len() - front.len());
        assert(both[i] == front[i]);
        assert(front[i] == kept[k]);
        text.lemma_filter_pred(|c: char| is_kept(c), k);
    }
}

/// A normalised text holds nothing but ASCII letters, digits and spaces.
pub proof fn lemma_normalized_is_plain(fragment: Seq<char>)
    ensures
        forall|i: int|
            0 <= i < normalized(fragment).len() ==> is_kept(#[trigger] normalized(fragment)[i]),
{
    lemma_plain_is_plain(lowercase_of(fragment));
}

/// A text reduced to its ASCII letters, digits and spaces, without
/// whitespace at either end.
pub fn plain_text(text: &str) -> (reduced: String)
    ensures
        reduced@ == plain(text@),
{
    let chars = chars_of(text);
    let mut kept: Vec<char> = Vec::new();
    let mut i: usize = 0;
    while i < chars.len()
        invariant
            i <= chars@.len(),
            kept@ == chars@.take(i as int).filter(|c: char| is_kept(c)),
        decreases chars@.len() - i,
    {
        let c = chars[i];
        proof {
            assert(chars@.take(i + 1) =~= chars@.take(i as int).push(c));
            chars@.take(i as int).lemma_filter_push(c, |c: char| is_kept(c));
        }
        if char_is_ascii_alnum(c) || c == ' ' {
            kept.push(c);
        }
        i += 1;
    }
    assert(chars@.take(chars@.len() as int) =~= chars@);
    let range = trim_range(&kept, TrimSet::Whitespace);
    let reduced = slice_chars(&kept, range.0, range.1);
    string_of(&reduced)
}

/// Whether the input is cut at this character.
pub fn char_is_delimiter(c: char) -> (b: bool)
    ensures
        b == is_delimiter(c),
{
    c == '[' || c == ']' || c == '(' || c == ')' || c == '_' || c == '.' || c == '-' || c == ' '
}

/// Splits release names into tokens.
#[derive(Debug, Clone, Default)]
pub struct Tokenizer;

impl Tokenizer {
    /// A tokenizer. It holds no state.
    pub fn new() -> (tokenizer: Self) {
        Tokenizer
    }

    /// The normalised form of a fragment.
    fn normalize(&self, text: &str) -> (norm: String)
        ensures
            norm@ == normalized(text@),
    {
        plain_text(to_lowercase(text).as_str())
    }

    /// The token for the fragment between two character positions.
    fn make_token(
        &self,
        chars: &Vec<char>,
        from: usize,
        to: usize,
        start: usize,
        end: usize,
        index: usize,
    ) -> (token: Token)
        requires
            from <= to <= chars@.len(),
            start == byte_offset(chars@, from as int),
            end == byte_offset(chars@, to as int),
        ensures
            token@ == token_model(chars@, (from as int, to as int), index as int),
    {
        let fragment = slice_chars(chars, from, to);
        let text = string_of(&fragment);
        Token { text: self.normalize(text.as_str()), start, end, index }
    }

    /// Splits the input into tokens.
    ///
    /// The tokens are the maximal runs of non-delimiter characters, in input
    /// order. Their byte ranges are non-empty and strictly increasing.
    pub fn tokenize(&self, input: &str) -> (tokens: Vec<Token>)
        ensures
            tokens@.map_values(|t: Token| t@) == spec_tokenize(input@),
            forall|i: int|
                0 <= i < tokens@.len() ==> (#[trigger] tokens@[i]).start < tokens@[i].end
                    <= utf8_len(input@) && tokens@[i].index == i,
            forall|i: int, j: int|
                0 <= i < j < tokens@.len() ==> (#[trigger] tokens@[i]).end < (
                #[trigger] tokens@[j]).start,
    {
        let chars = chars_of(input);
        let n = chars.len();
        let total = byte_length(input);
        let ghost s = input@;
        proof {
            assert(s.take(n as int) =~= s);
        }
        let mut tokens: Vec<Token> = Vec::new();
        let mut current_start: usize = 0;
        let mut current_start_byte: usize = 0;
        let mut byte_idx: usize = 0;
        let mut i: usize = 0;
        assert(s.take(0) =~= Seq::<char>::empty());
        while i < n
            invariant
                i <= n,
                n == s.len(),
                chars@ == s,
                total == byte_offset(s, n as int),
                byte_idx == byte_offset(s, i as int),
                current_start == open_start(s, i as int),
                current_start <= i,
                current_start_byte == byte_offset(s, current_start as int),
                tokens@.len() == closed_spans(s, i as int).len(),
                forall|k: int|
                    0 <= k < tokens@.len() ==> (#[trigger] tokens@[k])@ == token_model(
                        s,
                        closed_spans(s, i as int)[k],
                        k,
                    ),
            decreases n - i,
        {
            let c = chars[i];
            let w = char_width(c);
            proof {
                assert(s.take(i + 1).drop_last() =~= s.take(i as int));
                lemma_byte_offset_monotonic(s, i + 1, n as int);
            }
            if char_is_delimiter(c) {
                if i > current_start {
                    let token = self.make_token(
                        &chars,
                        current_start,
                        i,
                        current_start_byte,
                        byte_idx,
                        tokens.len(),
                    );
                    tokens.push(token);
                }
                current_start = i + 1;
                current_start_byte = byte_idx + w;
            }
            byte_idx = byte_idx + w;
            i += 1;
        }
        if current_start < n {
            let token = self.make_token(
                &chars,
                current_start,
                n,
                current_start_byte,
                byte_idx,
                tokens.len(),
            );
            tokens.push(token);
        }
        proof {
            assert(tokens@.map_values(|t: Token| t@) =~= spec_tokenize(s));
            lemma_tokens_ordered(s);
            assert forall|k: int| 0 <= k < tokens@.len() implies (#[trigger] tokens@[k]).start
                < tokens@[k].end <= utf8_len(s) && tokens@[k].index == k by {
                assert(tokens@[k]@ == spec_tokenize(s)[k]);
            }
            assert forall|a: int, b: int| 0 <= a < b < tokens@.len() implies (
            #[trigger] tokens@[a]).end < (#[trigger] tokens@[b]).start by {
                assert(tokens@[a]@ == spec_tokenize(s)[a]);
                assert(tokens@[b]@ == spec_tokenize(s)[b]);
            }
        }
        tokens
    }

    /// The byte range that the tokens from `start_idx` up to `end_idx` span
    /// in the input, or `None` if that is not a non-empty range of tokens.
    pub fn get_spans(&self, tokens: &[Token], start_idx: usize, end_idx: usize) -> (span: Option<
        (usize, usize),
    >)
        ensures
            span == if start_idx < end_idx <= tokens@.len() {
                Some((tokens@[start_idx as int].start, tokens@[end_idx - 1].end))
            } else {
                None
            },
    {
        if start_idx >= tokens.len() || end_idx > tokens.len() || start_idx >= end_idx {
            return None;
        }
        let start = tokens[start_idx].start;
        let end = tokens[end_idx - 1].end;
        Some((start, end))
    }
}

} // verus!
