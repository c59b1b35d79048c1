//! Byte offsets into the UTF-8 form of a text.

use vstd::prelude::*;
use crate::text::strings::{opt_chars, slice_chars};

verus! {

/// The number of bytes that a character takes in UTF-8.
pub open spec fn utf8_width(c: char) -> nat {
    if (c as u32) < 0x80 {
        1
    } else if (c as u32) < 0x800 {
        2
    } else if (c as u32) < 0x10000 {
        3
    } else {
        4
    }
}

/// The number of bytes that a character sequence takes in UTF-8.
pub open spec fn utf8_len(s: Seq<char>) -> nat
    decreases s.len(),
{
    if s.len() == 0 {
        0
    } else {
        utf8_len(s.drop_last()) + utf8_width(s.last())
    }
}

/// The byte offset of a character position: the UTF-8 length of the
/// characters before it.
pub open spec fn byte_offset(s: Seq<char>, position: int) -> nat {
    utf8_len(s.take(position))
}

/// The width of a character is the length of its encoding.
pub proof fn lemma_width_is_encoded_width(c: char)
    ensures
        vstd::utf8::encode_scalar(c as u32).len() == utf8_width(c),
{
    vstd::utf8::char_is_scalar(c);
}

/// Appending a character lengthens the encoding by its width.
pub proof fn lemma_encode_push(s: Seq<char>, c: char)
    ensures
        vstd::utf8::encode_utf8(s.push(c)).len() == vstd::utf8::encode_utf8(s).len() + utf8_width(
            c,
        ),
    decreases s.len(),
{
    lemma_width_is_encoded_width(c);
    if s.len() == 0 {
        assert(s.push(c).drop_first() =~= Seq::<char>::empty());
        assert(vstd::utf8::encode_utf8(Seq::<char>::empty()).len() == 0);
    } else {
        assert(s.push(c).drop_first() =~= s.drop_first().push(c));
        lemma_encode_push(s.drop_first(), c);
    }
}

/// `utf8_len` is the length of the UTF-8 encoding.
pub proof fn lemma_utf8_len_is_encoded_len(s: Seq<char>)
    ensures
        utf8_len(s) == vstd::utf8::encode_utf8(s).len(),
    decreases s.len(),
{
    if s.len() > 0 {
        lemma_utf8_len_is_encoded_len(s.drop_last());
        lemma_encode_push(s.drop_last(), s.last());
        assert(s.drop_last().push(s.last()) =~= s);
    }
}

/// Byte offsets grow with character positions, strictly so.
pub proof fn lemma_byte_offset_monotonic(s: Seq<char>, i: int, j: int)
    requires
        0 <= i <= j <= s.len(),
    ensures
        byte_offset(s, i) + (j - i) <= byte_offset(s, j),
    decreases j - i,
{
    if i < j {
        lemma_byte_offset_monotonic(s, i, j - 1);
        assert(s.take(j).drop_last() =~= s.take(j - 1));
    }
}

/// The number of bytes that a character takes in UTF-8.
pub fn char_width(c: char) -> (w: usize)
    ensures
        w == utf8_width(c),
        1 <= w <= 4,
{
    let code: u32 = c as u32;
    if code < 0x80 {
        1
    } else if code < 0x800 {
        2
    } else if code < 0x10000 {
        3
    } else {
        4
    }
}

/// The number of bytes that a text takes in UTF-8.
pub fn byte_length(text: &str) -> (len: usize)
    ensures
        len == utf8_len(text@),
{
    proof {
        lemma_utf8_len_is_encoded_len(text@);
    }
    text.as_bytes().len()
}

/// Whether character position `i` of `s` lies at byte offset `byte`.
pub open spec fn is_char_position(s: Seq<char>, byte: int, i: int) -> bool {
    0 <= i <= s.len() && byte_offset(s, i) == byte
}

/// Whether a byte offset falls between two characters of `s`, or at one of
/// its ends.
pub open spec fn is_char_boundary(s: Seq<char>, byte: int) -> bool {
    exists|i: int| is_char_position(s, byte, i)
}

/// The character position at a byte offset that is a character boundary.
pub open spec fn char_position(s: Seq<char>, byte: int) -> int {
    choose|i: int| is_char_position(s, byte, i)
}

/// The text between two byte offsets, if both are character boundaries and
/// the first does not lie behind the second.
pub open spec fn byte_slice(s: Seq<char>, start: int, end: int) -> Option<Seq<char>> {
    if start <= end && is_char_boundary(s, start) && is_char_boundary(s, end) {
        Some(s.subrange(char_position(s, start), char_position(s, end)))
    } else {
        None
    }
}

/// At most one character position lies at a given byte offset.
pub proof fn lemma_char_position_unique(s: Seq<char>, byte: int, i: int, j: int)
    requires
        is_char_position(s, byte, i),
        is_char_position(s, byte, j),
    ensures
        i == j,
{
    if i < j {
        lemma_byte_offset_monotonic(s, i, j);
    } else if j < i {
        lemma_byte_offset_monotonic(s, j, i);
    }
}

/// The character position at a byte offset of `chars`, if the offset is a
/// character boundary.
pub fn find_char_position(chars: &Vec<char>, byte: usize) -> (found: Option<usize>)
    ensures
        match found {
            Some(i) => is_char_position(chars@, byte as int, i as int) && char_position(
                chars@,
                byte as int,
            ) == i,
            None => !is_char_boundary(chars@, byte as int),
        },
{
    let ghost s = chars@;
    let n = chars.len();
    let mut offset: usize = 0;
    let mut i: usize = 0;
    assert(s.take(0) =~= Seq::<char>::empty());
    while i < n
        invariant
            i <= n,
            n == s.len(),
            s == chars@,
            offset == byte_offset(s, i as int),
            offset <= byte,
            forall|k: int| 0 <= k < i ==> byte_offset(s, k) != byte,
        decreases n - i,
    {
        if offset == byte {
            proof {
                assert(is_char_position(s, byte as int, i as int));
                lemma_char_position_unique(s, byte as int, i as int, char_position(s, byte as int));
            }
            return Some(i);
        }
        let w = char_width(chars[i]);
        proof {
            assert(s.take(i + 1).drop_last() =~= s.take(i as int));
        }
        if w > byte - offset {
            proof {
                assert forall|k: int| !is_char_position(s, byte as int, k) by {
                    if i < k <= n {
                        lemma_byte_offset_monotonic(s, i + 1, k);
                    }
                }
            }
            return None;
        }
        offset = offset + w;
        i += 1;
    }
    if offset == byte {
        proof {
            assert(is_char_position(s, byte as int, i as int));
            lemma_char_position_unique(s, byte as int, i as int, char_position(s, byte as int));
        }
        Some(i)
    } else {
        assert forall|k: int| !is_char_position(s, byte as int, k) by {}
        None
    }
}

/// The characters between two byte offsets of `chars`, if both are
/// character boundaries and the first does not lie behind the second.
pub fn slice_bytes(chars: &Vec<char>, start: usize, end: usize) -> (part: Option<Vec<char>>)
    ensures
        opt_chars(part) == byte_slice(chars@, start as int, end as int),
{
    if start > end {
        return None;
    }
    let from = match find_char_position(chars, start) {
        Some(i) => i,
        None => return None,
    };
    let to = match find_char_position(chars, end) {
        Some(i) => i,
        None => return None,
    };
    proof {
        if to < from {
            lemma_byte_offset_monotonic(chars@, to as int, from as int);
        }
    }
    Some(slice_chars(chars, from, to))
}

} // verus!
