//! Character-level text helpers shared by the extraction engines.
//!
//! Strings are modelled by their sequence of characters. The helpers here
//! convert between strings and character vectors and provide the small
//! scanning and rewriting steps that the engines are built from.

pub mod numbers;
pub mod search;
pub mod strings;
pub mod trim;
pub mod unicode;
pub mod utf8;
pub mod words;

pub use numbers::{
    all_digits,
    decimal,
    decimal_padded,
    digit_char,
    digit_to_char,
    digit_value,
    digits_value,
    lemma_digits_value_monotonic,
    parse_number,
    parse_unsigned,
    push_decimal,
    push_decimal_padded,
};
pub use search::{
    before_first,
    chars_are,
    chars_contain,
    chars_match_at,
    chars_occur,
    chars_start_with,
    find_char,
    first_index_of,
    last_match,
    last_match_upto,
    lemma_first_index_is,
    lemma_first_index_of,
    lemma_last_match_upto,
    lemma_replace_short,
    matches_at,
    occurs_in,
    replace_chars,
    replace_text,
    rfind_chars,
};
pub use strings::{
    chars_of,
    debug_quoted,
    extend_chars,
    opt_chars,
    opt_text,
    slice_chars,
    string_of,
};
pub(crate) use strings::{push_char, quoted};
pub use trim::{
    TrimSet,
    lemma_trim_end,
    lemma_trim_start,
    lemma_trimmed_is_clean,
    trim_chars,
    trim_end,
    trim_range,
    trim_start,
    trimmed,
};
pub use unicode::{
    char_is_ascii_alnum,
    char_is_ascii_digit,
    char_is_whitespace,
    is_alphabetic,
    is_ascii_alnum,
    is_ascii_digit,
    is_uppercase,
    is_whitespace,
    lowercase_of,
    uppercase_of,
};
pub(crate) use unicode::{char_is_alphabetic, char_is_uppercase, to_lowercase, to_uppercase};
pub use utf8::{
    byte_length,
    byte_offset,
    byte_slice,
    char_position,
    char_width,
    find_char_position,
    is_char_boundary,
    is_char_position,
    lemma_byte_offset_monotonic,
    lemma_char_position_unique,
    lemma_encode_push,
    lemma_utf8_len_is_encoded_len,
    lemma_width_is_encoded_width,
    slice_bytes,
    utf8_len,
    utf8_width,
};
pub use words::{
    drop_spaces_and_hyphens,
    join_words,
    separators_to_spaces,
    spaces_for_separators,
    without_spaces_and_hyphens,
    words_joined,
};
