//! What the decoder computes: the grammar over tag indices, the score of a
//! path, and the best path by dynamic programming.

use vstd::prelude::*;
use crate::parser::bio_tags::BioTag;
use crate::text::decimal;

verus! {

/// A score matrix as a sequence of rows.
pub open spec fn matrix(m: Seq<Vec<i32>>) -> Seq<Seq<i32>> {
    Seq::new(m.len(), |i: int| m[i]@)
}

/// A score matrix as a sequence of rows.
pub open spec fn rows(m: &[Vec<i32>]) -> Seq<Seq<i32>> {
    matrix(m@)
}

/// Whether the tag at index `curr` may directly follow the tag at index
/// `prev`. Indices outside the vocabulary take part in no transition.
pub open spec fn allowed(prev: int, curr: int) -> bool {
    match (BioTag::spec_from_index(prev), BioTag::spec_from_index(curr)) {
        (Some(p), Some(c)) => BioTag::spec_valid_transition(p, c),
        _ => false,
    }
}

/// Whether `path` is a tag-index sequence over `num_tags` tags in which every
/// consecutive pair obeys the grammar.
pub open spec fn grammatical(path: Seq<int>, num_tags: nat) -> bool {
    &&& forall|i: int| 0 <= i < path.len() ==> 0 <= #[trigger] path[i] < num_tags
    &&& forall|i: int| 1 <= i < path.len() ==> allowed(#[trigger] path[i - 1], path[i])
}

/// The additive score of a path: the emission score of each position's tag
/// plus the transition score of each consecutive pair.
pub open spec fn path_score(em: Seq<Seq<i32>>, tr: Seq<Seq<i32>>, path: Seq<int>) -> int
    decreases path.len(),
{
    if path.len() == 0 {
        0
    } else if path.len() == 1 {
        em[0][path[0]] as int
    } else {
        let n = path.len() as int;
        path_score(em, tr, path.drop_last()) + tr[path[n - 2]][path[n - 1]] + em[n - 1][path[n
            - 1]]
    }
}

/// The better of two candidates `(score, tag)`, the earlier one winning ties.
pub open spec fn prefer(earlier: Option<(int, int)>, later: Option<(int, int)>) -> Option<
    (int, int),
> {
    match (earlier, later) {
        (Some(a), Some(b)) => if b.0 > a.0 {
            later
        } else {
            earlier
        },
        (Some(_), None) => earlier,
        (None, _) => later,
    }
}

/// The score of a candidate, and 0 where there is none.
pub open spec fn found_score(found: Option<(int, int)>) -> int {
    match found {
        Some(cell) => cell.0,
        None => 0,
    }
}

/// The tag of a candidate, and 0 where there is none.
pub open spec fn found_tag(found: Option<(int, int)>) -> int {
    match found {
        Some(cell) => cell.1,
        None => 0,
    }
}

/// The best way to reach `tag` at position `pos >= 1` through one of the
/// first `upto` predecessor tags: the score and the predecessor, or `None`
/// if no allowed predecessor among them is itself reachable.
pub open spec fn scan(
    em: Seq<Seq<i32>>,
    tr: Seq<Seq<i32>>,
    num_tags: nat,
    pos: nat,
    tag: int,
    upto: nat,
) -> Option<(int, int)>
    decreases pos, upto,
{
    if pos == 0 || upto == 0 {
        None
    } else {
        let prev = (upto - 1) as int;
        let before = if pos == 1 {
            Some(em[0][prev] as int)
        } else {
            match scan(em, tr, num_tags, (pos - 1) as nat, prev, num_tags) {
                Some(cell) => Some(cell.0),
                None => None,
            }
        };
        let candidate = if allowed(prev, tag) && before is Some {
            Some((before->0 + tr[prev][tag] + em[pos as int][tag], prev))
        } else {
            None
        };
        prefer(scan(em, tr, num_tags, pos, tag, (upto - 1) as nat), candidate)
    }
}

/// The best score with which a grammatical path can end in `tag` at `pos`,
/// or `None` if no such path exists.
pub open spec fn cell_score(
    em: Seq<Seq<i32>>,
    tr: Seq<Seq<i32>>,
    num_tags: nat,
    pos: nat,
    tag: int,
) -> Option<int> {
    if pos == 0 {
        Some(em[0][tag] as int)
    } else {
        match scan(em, tr, num_tags, pos, tag, num_tags) {
            Some(cell) => Some(cell.0),
            None => None,
        }
    }
}

/// The predecessor through which `tag` at `pos` is best reached: the first
/// one in index order among those of equal score, and 0 where there is none.
pub open spec fn cell_prev(
    em: Seq<Seq<i32>>,
    tr: Seq<Seq<i32>>,
    num_tags: nat,
    pos: nat,
    tag: int,
) -> int {
    found_tag(scan(em, tr, num_tags, pos, tag, num_tags))
}

/// The best reachable tag at `pos` among the first `upto` tags, with its
/// score; the first one in index order among those of equal score.
pub open spec fn best_final(
    em: Seq<Seq<i32>>,
    tr: Seq<Seq<i32>>,
    num_tags: nat,
    pos: nat,
    upto: nat,
) -> Option<(int, int)>
    decreases upto,
{
    if upto == 0 {
        None
    } else {
        let tag = (upto - 1) as int;
        let candidate = match cell_score(em, tr, num_tags, pos, tag) {
            Some(s) => Some((s, tag)),
            None => None,
        };
        prefer(best_final(em, tr, num_tags, pos, (upto - 1) as nat), candidate)
    }
}

/// The best path that ends in `tag` at `pos`, found by following
/// predecessors back to the first position.
pub open spec fn trace(
    em: Seq<Seq<i32>>,
    tr: Seq<Seq<i32>>,
    num_tags: nat,
    pos: nat,
    tag: int,
) -> Seq<int>
    decreases pos,
{
    if pos == 0 {
        seq![tag]
    } else {
        trace(em, tr, num_tags, (pos - 1) as nat, cell_prev(em, tr, num_tags, pos, tag)).push(
            tag,
        )
    }
}

/// The decoded path: empty for empty emissions, and otherwise the best path
/// that ends in the best tag of the last position.
pub open spec fn viterbi_path(em: Seq<Seq<i32>>, tr: Seq<Seq<i32>>, num_tags: nat) -> Seq<int> {
    if em.len() == 0 {
        Seq::empty()
    } else {
        let last = (em.len() - 1) as nat;
        trace(em, tr, num_tags, last, found_tag(best_final(em, tr, num_tags, last, num_tags)))
    }
}

/// Whether the matrices fit a decoder over `num_tags` tags: there is at
/// least one tag, every emission row has exactly one entry for each tag,
/// and, where transitions are needed, the transition matrix has an entry for
/// each pair of tags.
pub open spec fn shapes_fit(em: Seq<Seq<i32>>, tr: Seq<Seq<i32>>, num_tags: nat) -> bool {
    &&& num_tags > 0
    &&& forall|i: int| 0 <= i < em.len() ==> (#[trigger] em[i]).len() == num_tags
    &&& em.len() >= 2 ==> {
        &&& tr.len() >= num_tags
        &&& forall|i: int| 0 <= i < num_tags ==> (#[trigger] tr[i]).len() >= num_tags
    }
}

/// The tag sequence as mathematical integers.
pub open spec fn as_ints(path: Seq<usize>) -> Seq<int> {
    path.map_values(|t: usize| t as int)
}

/// Whether `path` scores at least as high as every grammatical path of the
/// same length.
pub open spec fn optimal(
    em: Seq<Seq<i32>>,
    tr: Seq<Seq<i32>>,
    num_tags: nat,
    path: Seq<int>,
) -> bool {
    forall|other: Seq<int>|
        grammatical(other, num_tags) && other.len() == path.len() ==> path_score(em, tr, other)
            <= path_score(em, tr, path)
}

/// The largest magnitude that a path score can have at position `pos`.
pub open spec fn score_bound(pos: nat) -> int {
    (2 * pos + 1) as int * 0x8000_0000
}

/// A table cell as the mathematical score it stands for.
pub open spec fn cell_int(cell: Option<i128>) -> Option<int> {
    match cell {
        Some(s) => Some(s as int),
        None => None,
    }
}

/// Whether `mask` tabulates the grammar for `num_tags` tags.
pub open spec fn mask_fits(mask: Seq<Vec<bool>>, num_tags: nat) -> bool {
    &&& mask.len() == num_tags
    &&& forall|p: int| 0 <= p < num_tags ==> (#[trigger] mask[p])@.len() == num_tags
    &&& forall|p: int, c: int|
        0 <= p < num_tags && 0 <= c < num_tags ==> #[trigger] mask[p]@[c] == allowed(p, c)
}

/// The message for an emission row of the wrong width.
pub open spec fn width_message(expected: nat, got: nat) -> Seq<char> {
    "Emission score dimension mismatch: expected "@ + decimal(expected) + ", got "@ + decimal(got)
}

/// The message for a tag index outside the vocabulary.
pub open spec fn index_message(index: nat) -> Seq<char> {
    "Invalid tag index: "@ + decimal(index)
}

/// The message for score matrices that do not fit the decoder.
pub open spec fn shape_message(num_tags: nat) -> Seq<char> {
    "Score matrices do not fit the tag count: expected "@ + decimal(num_tags)
}

/// Whether two transition matrices give every allowed pair of tags the same
/// score.
pub open spec fn agree_where_allowed(a: Seq<Seq<i32>>, b: Seq<Seq<i32>>, num_tags: nat) -> bool {
    forall|p: int, c: int|
        0 <= p < num_tags && 0 <= c < num_tags && allowed(p, c) ==> #[trigger] a[p][c] == b[p][c]
}

} // verus!
