//! Labelled examples and the character vocabulary.

use vstd::prelude::*;
use crate::text::{
    TrimSet,
    chars_are,
    chars_of,
    find_char,
    first_index_of,
    slice_chars,
    string_of,
    trim_chars,
    trimmed,
};

verus! {

/// The number of labels in the training data.
pub const NUM_LABELS: usize = 3;

/// One labelled token sequence.
#[derive(Debug, Clone)]
pub struct TrainingExample {
    /// The tokens.
    pub tokens: Vec<String>,
    /// The label of each token, as an index into the label names.
    pub labels: Vec<usize>,
}

/// An example as plain data.
pub ghost struct ExampleModel {
    pub tokens: Seq<Seq<char>>,
    pub labels: Seq<usize>,
}

/// The texts of a sequence of strings.
pub open spec fn texts(strings: Seq<String>) -> Seq<Seq<char>> {
    strings.map_values(|s: String| s@)
}

impl View for TrainingExample {
    type V = ExampleModel;

    open spec fn view(&self) -> ExampleModel {
        ExampleModel { tokens: texts(self.tokens@), labels: self.labels@ }
    }
}

impl TrainingExample {
    /// An example of the given tokens and labels.
    pub fn new(tokens: Vec<String>, labels: Vec<usize>) -> (example: Self)
        ensures
            example.tokens == tokens,
            example.labels == labels,
    {
        Self { tokens, labels }
    }
}

/// The index of a label name: `O` is 0, `B-TITLE` is 1, `I-TITLE` is 2.
pub open spec fn spec_label_index(name: Seq<char>) -> Option<usize> {
    if name == "O"@ {
        Some(0usize)
    } else if name == "B-TITLE"@ {
        Some(1usize)
    } else if name == "I-TITLE"@ {
        Some(2usize)
    } else {
        None
    }
}

/// The index of a label name, if it is one.
pub fn label_index(name: &Vec<char>) -> (index: Option<usize>)
    ensures
        index == spec_label_index(name@),
        index matches Some(i) ==> i < NUM_LABELS,
{
    if chars_are(name, "O") {
        Some(0)
    } else if chars_are(name, "B-TITLE") {
        Some(1)
    } else if chars_are(name, "I-TITLE") {
        Some(2)
    } else {
        None
    }
}

/// The name of the label at an index.
pub open spec fn spec_label_name(index: usize) -> Option<Seq<char>> {
    if index == 0 {
        Some("O"@)
    } else if index == 1 {
        Some("B-TITLE"@)
    } else if index == 2 {
        Some("I-TITLE"@)
    } else {
        None
    }
}

/// The name of a label, if the index is one.
pub fn label_name(index: usize) -> (name: Option<&'static str>)
    ensures
        match name {
            Some(n) => spec_label_name(index) == Some(n@),
            None => spec_label_name(index) is None && index >= NUM_LABELS,
        },
{
    if index == 0 {
        Some("O")
    } else if index == 1 {
        Some("B-TITLE")
    } else if index == 2 {
        Some("I-TITLE")
    } else {
        None
    }
}

/// Names and indices of labels determine each other.
pub proof fn lemma_label_names(index: usize)
    ensures
        index < NUM_LABELS <==> spec_label_name(index) is Some,
        spec_label_name(index) matches Some(name) ==> spec_label_index(name) == Some(index),
{
    reveal_strlit("O");
    reveal_strlit("B-TITLE");
    reveal_strlit("I-TITLE");
    assert("O"@.len() == 1);
    assert("B-TITLE"@.len() == 7);
    assert("B-TITLE"@[0] == 'B');
    assert("I-TITLE"@[0] == 'I');
}

/// What one line of a data set says.
pub ghost enum Line {
    /// Nothing: the example so far is complete.
    Blank,
    /// Nothing that counts: a comment, a line that is not a pair of token
    /// and label, or a pair with an unknown label.
    Skipped,
    /// One more token with its label.
    Pair { token: Seq<char>, label: usize },
}

/// What a line says.
///
/// The line is trimmed first. A line that starts with `#` is a comment. A
/// line with exactly one tab holds a token before and a label name behind
/// it.
pub open spec fn read_line(line: Seq<char>) -> Line {
    let t = trimmed(line, TrimSet::Whitespace);
    if t.len() == 0 {
        Line::Blank
    } else if t[0] == '#' {
        Line::Skipped
    } else {
        match first_index_of(t, '\t') {
            Some(tab) => if first_index_of(t.skip(tab + 1), '\t') is None {
                match spec_label_index(t.skip(tab + 1)) {
                    Some(label) => Line::Pair { token: t.take(tab), label },
                    None => Line::Skipped,
                }
            } else {
                Line::Skipped
            },
            None => Line::Skipped,
        }
    }
}

/// The state of reading a data set: the complete examples and the tokens
/// and labels of the example that is still open.
pub ghost struct Reading {
    pub done: Seq<ExampleModel>,
    pub tokens: Seq<Seq<char>>,
    pub labels: Seq<usize>,
}

/// The state after one more line.
pub open spec fn after_line(state: Reading, line: Seq<char>) -> Reading {
    match read_line(line) {
        Line::Blank => if state.tokens.len() > 0 {
            Reading {
                done: state.done.push(ExampleModel { tokens: state.tokens, labels: state.labels }),
                tokens: Seq::empty(),
                labels: Seq::empty(),
            }
        } else {
            state
        },
        Line::Skipped => state,
        Line::Pair { token, label } => Reading {
            done: state.done,
            tokens: state.tokens.push(token),
            labels: state.labels.push(label),
        },
    }
}

/// The state after all lines.
pub open spec fn after_lines(lines: Seq<Seq<char>>) -> Reading
    decreases lines.len(),
{
    if lines.len() == 0 {
        Reading { done: Seq::empty(), tokens: Seq::empty(), labels: Seq::empty() }
    } else {
        after_line(after_lines(lines.drop_last()), lines.last())
    }
}

/// The examples of a data set: those that a blank line completed, and the
/// one that was still open at the end, if it has tokens.
pub open spec fn spec_dataset(lines: Seq<Seq<char>>) -> Seq<ExampleModel> {
    let end = after_lines(lines);
    if end.tokens.len() > 0 {
        end.done.push(ExampleModel { tokens: end.tokens, labels: end.labels })
    } else {
        end.done
    }
}

/// The examples as plain data.
pub open spec fn example_models(examples: Seq<TrainingExample>) -> Seq<ExampleModel> {
    examples.map_values(|e: TrainingExample| e@)
}

/// In every example of a data set, each token has its label and each label
/// is a known one; no example is empty.
pub proof fn lemma_dataset_well_formed(lines: Seq<Seq<char>>)
    ensures
        forall|i: int|
            0 <= i < spec_dataset(lines).len() ==> {
                let e = #[trigger] spec_dataset(lines)[i];
                &&& e.tokens.len() == e.labels.len()
                &&& e.tokens.len() > 0
                &&& forall|k: int| 0 <= k < e.labels.len() ==> e.labels[k] < NUM_LABELS
            },
{
    lemma_reading_well_formed(lines);
}

/// The same of every state of reading.
pub proof fn lemma_reading_well_formed(lines: Seq<Seq<char>>)
    ensures
        after_lines(lines).tokens.len() == after_lines(lines).labels.len(),
        forall|k: int|
            0 <= k < after_lines(lines).labels.len() ==> after_lines(lines).labels[k] < NUM_LABELS,
        forall|i: int|
            0 <= i < after_lines(lines).done.len() ==> {
                let e = #[trigger] after_lines(lines).done[i];
                &&& e.tokens.len() == e.labels.len()
                &&& e.tokens.len() > 0
                &&& forall|k: int| 0 <= k < e.labels.len() ==> e.labels[k] < NUM_LABELS
            },
    decreases lines.len(),
{
    if lines.len() > 0 {
        lemma_reading_well_formed(lines.drop_last());
    }
}

/// Reads the lines of a data set into examples.
///
/// Each line holds a token and its label, separated by a tab. A blank line
/// ends an example. Comments, lines of another shape and pairs with an
/// unknown label are passed over.
pub fn parse_bio_dataset(lines: &[String]) -> (examples: Vec<TrainingExample>)
    ensures
        example_models(examples@) == spec_dataset(texts(lines@)),
{
    let ghost all = texts(lines@);
    let mut examples: Vec<TrainingExample> = Vec::new();
    let mut current_tokens: Vec<String> = Vec::new();
    let mut current_labels: Vec<usize> = Vec::new();
    let mut i: usize = 0;
    assert(all.take(0) =~= Seq::<Seq<char>>::empty());
    assert(example_models(examples@) =~= Seq::<ExampleModel>::empty());
    assert(texts(current_tokens@) =~= Seq::<Seq<char>>::empty());
    while i < lines.len()
        invariant
            i <= lines@.len(),
            all == texts(lines@),
            after_lines(all.take(i as int)) == (Reading {
                done: example_models(examples@),
                tokens: texts(current_tokens@),
                labels: current_labels@,
            }),
        decreases lines@.len() - i,
    {
        proof {
            assert(all.take(i + 1).drop_last() =~= all.take(i as int));
            assert(all.take(i + 1).last() == lines@[i as int]@);
        }
        let ghost before = after_lines(all.take(i as int));
        let line = trim_chars(&chars_of(lines[i].as_str()), TrimSet::Whitespace);
        if line.len() == 0 {
            if current_tokens.len() > 0 {
                let example = TrainingExample::new(current_tokens, current_labels);
                proof {
                    assert(example_models(examples@.push(example)) =~= example_models(
                        examples@,
                    ).push(example@));
                }
                examples.push(example);
                current_tokens = Vec::new();
                current_labels = Vec::new();
                assert(texts(current_tokens@) =~= Seq::<Seq<char>>::empty());
            }
        } else if line[0] != '#' {
            if let Some(tab) = find_char(&line, '\t') {
                let len = line.len();
                let label_text = slice_chars(&line, tab + 1, len);
                assert(label_text@ =~= line@.skip(tab + 1));
                if find_char(&label_text, '\t').is_none() {
                    if let Some(label) = label_index(&label_text) {
                        let token = slice_chars(&line, 0, tab);
                        assert(token@ =~= line@.take(tab as int));
                        let token_text = string_of(&token);
                        proof {
                            assert(texts(current_tokens@.push(token_text)) =~= texts(
                                current_tokens@,
                            ).push(token@));
                        }
                        current_tokens.push(token_text);
                        current_labels.push(label);
                    }
                }
            }
        }
        i += 1;
    }
    assert(all.take(all.len() as int) =~= all);
    if current_tokens.len() > 0 {
        let example = TrainingExample::new(current_tokens, current_labels);
        proof {
            assert(example_models(examples@.push(example)) =~= example_models(examples@).push(
                example@,
            ));
        }
        examples.push(example);
    }
    examples
}

/// The code of a character in the vocabulary: one more than its code point
/// for ASCII, and 0, the code for padding and unknown characters, for all
/// others.
pub open spec fn char_code(c: char) -> usize {
    if (c as u32) < 128 {
        (c as u32 + 1) as usize
    } else {
        0
    }
}

/// The number of codes that the vocabulary uses.
pub const VOCAB_SIZE: usize = 129;

/// The code table of the vocabulary: at the code point of each ASCII
/// character, its code.
pub open spec fn ascii_codes() -> Seq<usize> {
    Seq::new(128, |i: int| (i + 1) as usize)
}

/// A vocabulary that encodes tokens character by character.
pub struct CharVocab {
    codes: Vec<usize>,
}

impl CharVocab {
    /// The table holds the code of every ASCII character at its code point.
    #[verifier::type_invariant]
    spec fn wf(self) -> bool {
        &&& self.codes@.len() == 128
        &&& forall|i: int| 0 <= i < 128 ==> #[trigger] self.codes@[i] == i + 1
    }

    /// The code table that the vocabulary holds.
    pub closed spec fn table(&self) -> Seq<usize> {
        self.codes@
    }

    /// The vocabulary of the ASCII characters: its table holds, at the code
    /// point of each of them, one more than that code point.
    pub fn new() -> (vocab: Self)
        ensures
            vocab.table() == ascii_codes(),
    {
        let mut codes: Vec<usize> = Vec::new();
        let mut i: usize = 0;
        while i < 128
            invariant
                i <= 128,
                codes@.len() == i,
                forall|k: int| 0 <= k < i ==> #[trigger] codes@[k] == k + 1,
            decreases 128 - i,
        {
            codes.push(i + 1);
            i += 1;
        }
        assert(codes@ =~= ascii_codes());
        Self { codes }
    }

    /// The codes of the characters of a token.
    pub fn encode(&self, token: &str) -> (codes: Vec<usize>)
        ensures
            codes@ == token@.map_values(|c: char| char_code(c)),
            forall|i: int| 0 <= i < codes@.len() ==> #[trigger] codes@[i] < VOCAB_SIZE,
    {
        proof {
            use_type_invariant(self);
        }
        let chars = chars_of(token);
        let mut out: Vec<usize> = Vec::new();
        let mut i: usize = 0;
        while i < chars.len()
            invariant
                i <= chars@.len(),
                chars@ == token@,
                self.codes@.len() == 128,
                forall|k: int| 0 <= k < 128 ==> #[trigger] self.codes@[k] == k + 1,
                out@.len() == i,
                forall|k: int| 0 <= k < i ==> #[trigger] out@[k] == char_code(chars@[k]),
            decreases chars@.len() - i,
        {
            let code: u32 = chars[i] as u32;
            if code < 128 {
                out.push(self.codes[code as usize]);
            } else {
                out.push(0);
            }
            i += 1;
        }
        assert(out@ =~= token@.map_values(|c: char| char_code(c)));
        out
    }

    /// The number of codes that the vocabulary uses: one for padding and
    /// unknown characters, and one for each ASCII character.
    pub fn vocab_size(&self) -> (size: usize)
        ensures
            size == VOCAB_SIZE,
    {
        VOCAB_SIZE
    }
}

impl Default for CharVocab {
    fn default() -> (vocab: Self)
        ensures
            vocab.table() == ascii_codes(),
    {
        Self::new()
    }
}

} // verus!
