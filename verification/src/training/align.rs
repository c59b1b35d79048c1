//! Automatic labelling of release names.
//!
//! A release name that the heuristic engine has parsed can serve as a
//! weakly labelled training example: the tokens that occur in the extracted
//! group, title or resolution are tagged accordingly, and all others are
//! left outside.

use vstd::prelude::*;
use crate::parser::bio_tags::BioTag;
use crate::parser::tokenizer::Token;
use crate::text::{
    TrimSet,
    chars_are,
    chars_occur,
    chars_of,
    find_char,
    first_index_of,
    lowercase_of,
    occurs_in,
    slice_chars,
    string_of,
    to_lowercase,
    trim_chars,
    trimmed,
};
use crate::types::{ParseResult, Resolution};

verus! {

/// A line without a parenthesised remark at its start and without
/// whitespace at its ends.
pub open spec fn spec_strip_prefix(line: Seq<char>) -> Seq<char> {
    let t = trimmed(line, TrimSet::Whitespace);
    let rest = if t.len() > 0 && t[0] == '(' {
        match first_index_of(t, ')') {
            Some(close) => t.skip(close + 1),
            None => t,
        }
    } else {
        t
    };
    trimmed(rest, TrimSet::Whitespace)
}

/// Removes a parenthesised remark from the start of a line, and whitespace
/// from its ends.
pub fn strip_prefix(line: &str) -> (cleaned: String)
    ensures
        cleaned@ == spec_strip_prefix(line@),
{
    let t = trim_chars(&chars_of(line), TrimSet::Whitespace);
    let len = t.len();
    let rest = if len > 0 && t[0] == '(' {
        match find_char(&t, ')') {
            Some(close) => {
                let rest = slice_chars(&t, close + 1, len);
                assert(rest@ =~= t@.skip(close + 1));
                rest
            },
            None => t,
        }
    } else {
        t
    };
    string_of(&trim_chars(&rest, TrimSet::Whitespace))
}

/// What the labelling goes by: the group and the title in lower case, and
/// the resolution's name in lower case, where a resolution was extracted.
pub ghost struct Clues {
    pub group: Seq<char>,
    pub title: Seq<char>,
    pub resolution: Option<Seq<char>>,
}

/// The text of an optional string, empty where there is none.
pub open spec fn text_or_empty(s: Option<String>) -> Seq<char> {
    match s {
        Some(t) => t@,
        None => Seq::empty(),
    }
}

/// The clues that a record gives.
pub open spec fn clues_of(record: &ParseResult) -> Clues {
    Clues {
        group: lowercase_of(text_or_empty(record.group)),
        title: lowercase_of(text_or_empty(record.title)),
        resolution: match record.resolution {
            Some(res) => Some(lowercase_of(res.spec_name())),
            None => None,
        },
    }
}

/// Whether a token's text names a resolution, given the extracted one.
pub open spec fn names_resolution(clue: Seq<char>, text: Seq<char>) -> bool {
    occurs_in(clue, text) || text == "1080p"@ || text == "720p"@ || text == "2160p"@ || text
        == "480p"@
}

/// The state of labelling: the tags so far, and whether the token before
/// was tagged as part of the group or of the title.
pub ghost struct Labelling {
    pub tags: Seq<BioTag>,
    pub in_group: bool,
    pub in_title: bool,
}

/// The state after the token at position `i`.
///
/// A token that occurs in the group counts as part of it, among the first
/// five tokens. Otherwise a token that occurs in the title counts as part of
/// it. Otherwise a token that names the resolution is tagged as such. A run
/// of group or title tokens starts with the begin tag and goes on with the
/// inside tag.
pub open spec fn label_token(state: Labelling, clues: Clues, text: Seq<char>, i: int) -> Labelling {
    if clues.group.len() > 0 && occurs_in(clues.group, text) && i < 5 {
        Labelling {
            tags: state.tags.push(
                if state.in_group {
                    BioTag::InsideGroup
                } else {
                    BioTag::BeginGroup
                },
            ),
            in_group: true,
            in_title: state.in_title,
        }
    } else if clues.title.len() > 0 && occurs_in(clues.title, text) {
        Labelling {
            tags: state.tags.push(
                if state.in_title {
                    BioTag::InsideTitle
                } else {
                    BioTag::BeginTitle
                },
            ),
            in_group: false,
            in_title: true,
        }
    } else if clues.resolution matches Some(res) && names_resolution(res, text) {
        Labelling { tags: state.tags.push(BioTag::Resolution), in_group: false, in_title: false }
    } else {
        Labelling { tags: state.tags.push(BioTag::Outside), in_group: false, in_title: false }
    }
}

/// The state after the first `n` tokens.
pub open spec fn label_tokens(tokens: Seq<Token>, clues: Clues, n: int) -> Labelling
    decreases n,
{
    if n <= 0 {
        Labelling { tags: Seq::empty(), in_group: false, in_title: false }
    } else {
        label_token(label_tokens(tokens, clues, n - 1), clues, tokens[n - 1].text@, n - 1)
    }
}

/// Tags the tokens of a release name by what was extracted from it.
pub fn align_tags(tokens: &[Token], result: &ParseResult) -> (tags: Vec<BioTag>)
    ensures
        tags@ == label_tokens(tokens@, clues_of(result), tokens@.len() as int).tags,
        tags@.len() == tokens@.len(),
{
    let title = chars_of(
        to_lowercase(
            match &result.title {
                Some(t) => t.as_str(),
                None => "",
            },
        ).as_str(),
    );
    let group = chars_of(
        to_lowercase(
            match &result.group {
                Some(g) => g.as_str(),
                None => "",
            },
        ).as_str(),
    );
    let resolution: Option<Vec<char>> = match result.resolution {
        Some(res) => Some(chars_of(to_lowercase(res.name().as_str()).as_str())),
        None => None,
    };
    proof {
        reveal_strlit("");
        assert(""@ =~= Seq::<char>::empty());
    }
    align_by_clues(tokens, &group, &title, &resolution)
}

/// The clues as plain data.
pub open spec fn clues_given(
    group: Seq<char>,
    title: Seq<char>,
    resolution: Option<Vec<char>>,
) -> Clues {
    Clues {
        group,
        title,
        resolution: match resolution {
            Some(r) => Some(r@),
            None => None,
        },
    }
}

/// Tags the tokens of a release name by the given clues: the group and the
/// title in lower case, and the resolution's name in lower case.
pub fn align_by_clues(
    tokens: &[Token],
    group: &Vec<char>,
    title: &Vec<char>,
    resolution: &Option<Vec<char>>,
) -> (tags: Vec<BioTag>)
    ensures
        tags@ == label_tokens(
            tokens@,
            clues_given(group@, title@, *resolution),
            tokens@.len() as int,
        ).tags,
        tags@.len() == tokens@.len(),
{
    let ghost clues = clues_given(group@, title@, *resolution);
    let mut tags: Vec<BioTag> = Vec::new();
    let mut in_group = false;
    let mut in_title = false;
    let mut i: usize = 0;
    while i < tokens.len()
        invariant
            i <= tokens@.len(),
            clues == clues_given(group@, title@, *resolution),
            label_tokens(tokens@, clues, i as int) == (Labelling { tags: tags@, in_group, in_title }),
            tags@.len() == i,
        decreases tokens@.len() - i,
    {
        let text = chars_of(tokens[i].text.as_str());
        if group.len() > 0 && chars_occur(group, &text) && i < 5 {
            tags.push(
                if in_group {
                    BioTag::InsideGroup
                } else {
                    BioTag::BeginGroup
                },
            );
            in_group = true;
        } else {
            in_group = false;
            if title.len() > 0 && chars_occur(title, &text) {
                tags.push(
                    if in_title {
                        BioTag::InsideTitle
                    } else {
                        BioTag::BeginTitle
                    },
                );
                in_title = true;
            } else {
                in_title = false;
                let named = match resolution {
                    Some(res) => chars_occur(res, &text) || chars_are(&text, "1080p") || chars_are(
                        &text,
                        "720p",
                    ) || chars_are(&text, "2160p") || chars_are(&text, "480p"),
                    None => false,
                };
                if named {
                    tags.push(BioTag::Resolution);
                } else {
                    tags.push(BioTag::Outside);
                }
            }
        }
        i += 1;
    }
    tags
}

} // verus!
