//! The decoder itself.

use vstd::prelude::*;
use vstd::string::StringExecFns;
use crate::error::ZantetsuError;
use crate::parser::bio_tags::BioTag;
use crate::parser::viterbi::laws::{lemma_trace_shape, lemma_viterbi_path_optimal};
use crate::parser::viterbi::model::{
    allowed,
    as_ints,
    best_final,
    cell_int,
    cell_prev,
    cell_score,
    grammatical,
    index_message,
    mask_fits,
    matrix,
    optimal,
    path_score,
    rows,
    scan,
    score_bound,
    shape_message,
    shapes_fit,
    trace,
    viterbi_path,
    width_message,
};
use crate::text::push_decimal;

verus! {

/// Viterbi decoder for tag sequences over a fixed number of tags.
#[derive(Debug, Clone)]
pub struct ViterbiDecoder {
    num_tags: usize,
}

impl ViterbiDecoder {
    /// The number of tags that score vectors are expected to cover.
    pub closed spec fn spec_num_tags(&self) -> nat {
        self.num_tags as nat
    }

    /// A decoder over `num_tags` tags.
    pub fn new(num_tags: usize) -> (decoder: Self)
        ensures
            decoder.spec_num_tags() == num_tags,
    {
        Self { num_tags }
    }

    /// The number of tags that score vectors are expected to cover.
    pub fn num_tags(&self) -> (n: usize)
        ensures
            n == self.spec_num_tags(),
    {
        self.num_tags
    }

    /// Whether the matrices fit this decoder.
    fn shapes_ok(&self, emission_scores: &[Vec<i32>], transition_matrix: &[Vec<i32>]) -> (ok:
        bool)
        ensures
            ok == shapes_fit(rows(emission_scores), rows(transition_matrix), self.spec_num_tags()),
    {
        let t = self.num_tags;
        let ghost em = rows(emission_scores);
        let ghost tr = rows(transition_matrix);
        if t == 0 {
            return false;
        }
        let mut i: usize = 0;
        while i < emission_scores.len()
            invariant
                i <= emission_scores.len(),
                t == self.spec_num_tags(),
                em == rows(emission_scores),
                forall|k: int| 0 <= k < i ==> (#[trigger] em[k]).len() == t,
            decreases emission_scores.len() - i,
        {
            if emission_scores[i].len() != t {
                assert(em[i as int].len() != t);
                return false;
            }
            i += 1;
        }
        if emission_scores.len() >= 2 {
            if transition_matrix.len() < t {
                return false;
            }
            let mut j: usize = 0;
            while j < t
                invariant
                    j <= t,
                    t == self.spec_num_tags(),
                    t <= transition_matrix.len(),
                    emission_scores.len() >= 2,
                    em == rows(emission_scores),
                    forall|k: int| 0 <= k < em.len() ==> (#[trigger] em[k]).len() == t,
                    tr == rows(transition_matrix),
                    forall|k: int| 0 <= k < j ==> (#[trigger] tr[k]).len() >= t,
                decreases t - j,
            {
                if transition_matrix[j].len() < t {
                    assert(tr[j as int].len() < t);
                    return false;
                }
                j += 1;
            }
        }
        true
    }

    /// The grammar as a table: entry `[p][c]` says whether tag `c` may
    /// follow tag `p`.
    fn build_mask(&self) -> (mask: Vec<Vec<bool>>)
        ensures
            mask_fits(mask@, self.spec_num_tags()),
    {
        let t = self.num_tags;
        let mut mask: Vec<Vec<bool>> = Vec::new();
        let mut p: usize = 0;
        while p < t
            invariant
                p <= t,
                mask@.len() == p,
                forall|i: int| 0 <= i < p ==> (#[trigger] mask@[i])@.len() == t,
                forall|i: int, c: int|
                    0 <= i < p && 0 <= c < t ==> #[trigger] mask@[i]@[c] == allowed(i, c),
            decreases t - p,
        {
            let mut row: Vec<bool> = Vec::new();
            let mut c: usize = 0;
            while c < t
                invariant
                    c <= t,
                    p < t,
                    row@.len() == c,
                    forall|k: int| 0 <= k < c ==> #[trigger] row@[k] == allowed(p as int, k),
                decreases t - c,
            {
                let ok = match (BioTag::from_index(p), BioTag::from_index(c)) {
                    (Some(a), Some(b)) => BioTag::is_valid_transition(a, b),
                    _ => false,
                };
                row.push(ok);
                c += 1;
            }
            mask.push(row);
            p += 1;
        }
        mask
    }

    /// Whether tag `c` may follow tag `p`, read from the table where there is
    /// one.
    fn pair_allowed(&self, mask: &Option<Vec<Vec<bool>>>, p: usize, c: usize) -> (ok: bool)
        requires
            p < self.spec_num_tags(),
            c < self.spec_num_tags(),
            mask matches Some(m) ==> mask_fits(m@, self.spec_num_tags()),
        ensures
            ok == allowed(p as int, c as int),
    {
        match mask {
            Some(m) => m[p][c],
            None => match (BioTag::from_index(p), BioTag::from_index(c)) {
                (Some(a), Some(b)) => BioTag::is_valid_transition(a, b),
                _ => false,
            },
        }
    }

    /// The best way to reach `tag` at `pos` from the scores of the position
    /// before it.
    fn best_step(
        &self,
        emission_scores: &[Vec<i32>],
        transition_matrix: &[Vec<i32>],
        mask: &Option<Vec<Vec<bool>>>,
        before: &Vec<Option<i128>>,
        pos: usize,
        tag: usize,
    ) -> (best: (Option<i128>, usize))
        requires
            shapes_fit(rows(emission_scores), rows(transition_matrix), self.spec_num_tags()),
            mask matches Some(m) ==> mask_fits(m@, self.spec_num_tags()),
            1 <= pos < emission_scores@.len(),
            tag < self.spec_num_tags(),
            before@.len() == self.spec_num_tags(),
            forall|p: int|
                0 <= p < self.spec_num_tags() ==> cell_int(#[trigger] before@[p]) == cell_score(
                    rows(emission_scores),
                    rows(transition_matrix),
                    self.spec_num_tags(),
                    (pos - 1) as nat,
                    p,
                ),
            forall|p: int|
                0 <= p < self.spec_num_tags() ==> (#[trigger] before@[p] matches Some(s)
                    ==> -score_bound((pos - 1) as nat) <= s <= score_bound((pos - 1) as nat)),
        ensures
            cell_int(best.0) == cell_score(
                rows(emission_scores),
                rows(transition_matrix),
                self.spec_num_tags(),
                pos as nat,
                tag as int,
            ),
            best.1 == cell_prev(
                rows(emission_scores),
                rows(transition_matrix),
                self.spec_num_tags(),
                pos as nat,
                tag as int,
            ),
            best.1 < self.spec_num_tags(),
            best.0 matches Some(s) ==> -score_bound(pos as nat) <= s <= score_bound(pos as nat),
    {
        let t = self.num_tags;
        let ghost em = rows(emission_scores);
        let ghost tr = rows(transition_matrix);
        let mut best: Option<i128> = None;
        let mut best_prev: usize = 0;
        let mut p: usize = 0;
        while p < t
            invariant
                p <= t,
                t == self.spec_num_tags(),
                em == rows(emission_scores),
                tr == rows(transition_matrix),
                shapes_fit(em, tr, t as nat),
                mask matches Some(m) ==> mask_fits(m@, t as nat),
                1 <= pos < emission_scores@.len(),
                tag < t,
                before@.len() == t,
                forall|q: int|
                    0 <= q < t ==> cell_int(#[trigger] before@[q]) == cell_score(
                        em,
                        tr,
                        t as nat,
                        (pos - 1) as nat,
                        q,
                    ),
                forall|q: int|
                    0 <= q < t ==> (#[trigger] before@[q] matches Some(s) ==> -score_bound(
                        (pos - 1) as nat,
                    ) <= s <= score_bound((pos - 1) as nat)),
                best_prev < t,
                match scan(em, tr, t as nat, pos as nat, tag as int, p as nat) {
                    Some(cell) => best == Some(cell.0 as i128) && best_prev == cell.1 && -score_bound(
                        pos as nat,
                    ) <= cell.0 <= score_bound(pos as nat),
                    None => best is None && best_prev == 0,
                },
            decreases t - p,
        {
            proof {
                assert(em[pos as int] == emission_scores@[pos as int]@);
                assert(tr[p as int] == transition_matrix@[p as int]@);
                assert(em[pos as int].len() >= t);
                assert(tr[p as int].len() >= t);
                assert(cell_int(before@[p as int]) == cell_score(
                    em,
                    tr,
                    t as nat,
                    (pos - 1) as nat,
                    p as int,
                ));
            }
            if self.pair_allowed(mask, p, tag) {
                if let Some(s) = before[p] {
                    let candidate: i128 = s + transition_matrix[p][tag] as i128
                        + emission_scores[pos][tag] as i128;
                    let better = match best {
                        Some(b) => candidate > b,
                        None => true,
                    };
                    if better {
                        best = Some(candidate);
                        best_prev = p;
                    }
                }
            }
            p += 1;
        }
        (best, best_prev)
    }
}

/// The error for a first emission row of the wrong width.

fn width_error(expected: usize, got: usize) -> (e: ZantetsuError)
    ensures
        e matches ZantetsuError::NeuralParser(m) && m@ == width_message(expected as nat, got as nat),
{
    let mut m = "Emission score dimension mismatch: expected ".to_owned();
    push_decimal(&mut m, expected as u64);
    m.append(", got ");
    push_decimal(&mut m, got as u64);
    ZantetsuError::NeuralParser(m)
}

/// The error for a tag index outside the vocabulary.

fn index_error(index: usize) -> (e: ZantetsuError)
    ensures
        e matches ZantetsuError::NeuralParser(m) && m@ == index_message(index as nat),
{
    let mut m = "Invalid tag index: ".to_owned();
    push_decimal(&mut m, index as u64);
    ZantetsuError::NeuralParser(m)
}

/// The error for score matrices that do not fit the decoder.

fn shape_error(num_tags: usize) -> (e: ZantetsuError)
    ensures
        e matches ZantetsuError::NeuralParser(m) && m@ == shape_message(num_tags as nat),
{
    let mut m = "Score matrices do not fit the tag count: expected ".to_owned();
    push_decimal(&mut m, num_tags as u64);
    ZantetsuError::NeuralParser(m)
}

impl ViterbiDecoder {
    /// The decoding proper, on matrices that are large enough.
    fn run(
        &self,
        emission_scores: &[Vec<i32>],
        transition_matrix: &[Vec<i32>],
        mask: &Option<Vec<Vec<bool>>>,
    ) -> (path: Vec<usize>)
        requires
            emission_scores@.len() > 0,
            shapes_fit(rows(emission_scores), rows(transition_matrix), self.spec_num_tags()),
            mask matches Some(m) ==> mask_fits(m@, self.spec_num_tags()),
        ensures
            as_ints(path@) == viterbi_path(
                rows(emission_scores),
                rows(transition_matrix),
                self.spec_num_tags(),
            ),
    {
        let t = self.num_tags;
        let n = emission_scores.len();
        let ghost em = rows(emission_scores);
        let ghost tr = rows(transition_matrix);
        let ghost full = viterbi_path(em, tr, t as nat);

        // Position 0: every tag starts with its own emission score.
        let mut scores: Vec<Option<i128>> = Vec::new();
        let mut c: usize = 0;
        while c < t
            invariant
                c <= t,
                t == self.spec_num_tags(),
                em == rows(emission_scores),
                emission_scores@.len() > 0,
                em[0].len() >= t,
                scores@.len() == c,
                forall|k: int|
                    0 <= k < c ==> cell_int(#[trigger] scores@[k]) == cell_score(
                        em,
                        tr,
                        t as nat,
                        0,
                        k,
                    ),
                forall|k: int|
                    0 <= k < c ==> (#[trigger] scores@[k] matches Some(s) ==> -score_bound(0) <= s
                        <= score_bound(0)),
            decreases t - c,
        {
            assert(em[0] == emission_scores@[0]@);
            scores.push(Some(emission_scores[0][c] as i128));
            c += 1;
        }

        // Forward pass: one row of best scores and predecessors per position.
        let mut back: Vec<Vec<usize>> = Vec::new();
        back.push(Vec::new());
        let mut pos: usize = 1;
        while pos < n
            invariant
                1 <= pos <= n,
                n == emission_scores@.len(),
                t == self.spec_num_tags(),
                em == rows(emission_scores),
                tr == rows(transition_matrix),
                shapes_fit(em, tr, t as nat),
                mask matches Some(m) ==> mask_fits(m@, t as nat),
                scores@.len() == t,
                forall|k: int|
                    0 <= k < t ==> cell_int(#[trigger] scores@[k]) == cell_score(
                        em,
                        tr,
                        t as nat,
                        (pos - 1) as nat,
                        k,
                    ),
                forall|k: int|
                    0 <= k < t ==> (#[trigger] scores@[k] matches Some(s) ==> -score_bound(
                        (pos - 1) as nat,
                    ) <= s <= score_bound((pos - 1) as nat)),
                back@.len() == pos,
                forall|i: int| 1 <= i < pos ==> (#[trigger] back@[i])@.len() == t,
                forall|i: int, k: int|
                    1 <= i < pos && 0 <= k < t ==> #[trigger] back@[i]@[k] == cell_prev(
                        em,
                        tr,
                        t as nat,
                        i as nat,
                        k,
                    ) && back@[i]@[k] < t,
            decreases n - pos,
        {
            let mut next: Vec<Option<i128>> = Vec::new();
            let mut row: Vec<usize> = Vec::new();
            let mut c: usize = 0;
            while c < t
                invariant
                    c <= t,
                    1 <= pos < n,
                    n == emission_scores@.len(),
                    t == self.spec_num_tags(),
                    em == rows(emission_scores),
                    tr == rows(transition_matrix),
                    shapes_fit(em, tr, t as nat),
                    mask matches Some(m) ==> mask_fits(m@, t as nat),
                    scores@.len() == t,
                    forall|k: int|
                        0 <= k < t ==> cell_int(#[trigger] scores@[k]) == cell_score(
                            em,
                            tr,
                            t as nat,
                            (pos - 1) as nat,
                            k,
                        ),
                    forall|k: int|
                        0 <= k < t ==> (#[trigger] scores@[k] matches Some(s) ==> -score_bound(
                            (pos - 1) as nat,
                        ) <= s <= score_bound((pos - 1) as nat)),
                    next@.len() == c,
                    row@.len() == c,
                    forall|k: int|
                        0 <= k < c ==> cell_int(#[trigger] next@[k]) == cell_score(
                            em,
                            tr,
                            t as nat,
                            pos as nat,
                            k,
                        ),
                    forall|k: int|
                        0 <= k < c ==> (#[trigger] next@[k] matches Some(s) ==> -score_bound(
                            pos as nat,
                        ) <= s <= score_bound(pos as nat)),
                    forall|k: int|
                        0 <= k < c ==> #[trigger] row@[k] == cell_prev(
                            em,
                            tr,
                            t as nat,
                            pos as nat,
                            k,
                        ) && row@[k] < t,
                decreases t - c,
            {
                let step = self.best_step(
                    emission_scores,
                    transition_matrix,
                    mask,
                    &scores,
                    pos,
                    c,
                );
                next.push(step.0);
                row.push(step.1);
                c += 1;
            }
            scores = next;
            back.push(row);
            pos += 1;
        }

        // The best tag of the last position, the first one winning ties.
        let mut best: Option<i128> = None;
        let mut end: usize = 0;
        let mut c: usize = 0;
        while c < t
            invariant
                c <= t,
                0 < t,
                n >= 1,
                scores@.len() == t,
                forall|k: int|
                    0 <= k < t ==> cell_int(#[trigger] scores@[k]) == cell_score(
                        em,
                        tr,
                        t as nat,
                        (n - 1) as nat,
                        k,
                    ),
                end < t,
                match best_final(em, tr, t as nat, (n - 1) as nat, c as nat) {
                    Some(cell) => cell_int(best) == Some(cell.0) && end == cell.1,
                    None => best is None && end == 0,
                },
            decreases t - c,
        {
            assert(cell_int(scores@[c as int]) == cell_score(
                em,
                tr,
                t as nat,
                (n - 1) as nat,
                c as int,
            ));
            if let Some(s) = scores[c] {
                let better = match best {
                    Some(b) => s > b,
                    None => true,
                };
                if better {
                    best = Some(s);
                    end = c;
                }
            }
            c += 1;
        }

        // Backtracking, from the last position to the first.
        let mut path: Vec<usize> = Vec::new();
        let mut k: usize = 0;
        while k < n
            invariant
                k <= n,
                path@.len() == k,
            decreases n - k,
        {
            path.push(0);
            k += 1;
        }
        path.set(n - 1, end);
        let mut i: usize = n - 1;
        proof {
            lemma_trace_shape(em, tr, t as nat, (n - 1) as nat, end as int);
            assert(full == trace(em, tr, t as nat, (n - 1) as nat, end as int));
            assert(full.take(n as int) =~= full);
        }
        while i > 0
            invariant
                i < n,
                n == emission_scores@.len(),
                full.len() == n,
                path@.len() == n,
                path@[i as int] < t,
                forall|j: int| i <= j < n ==> #[trigger] path@[j] as int == full[j],
                trace(em, tr, t as nat, i as nat, path@[i as int] as int) == full.take(i + 1),
                back@.len() == n,
                forall|j: int| 1 <= j < n ==> (#[trigger] back@[j])@.len() == t,
                forall|j: int, k: int|
                    1 <= j < n && 0 <= k < t ==> #[trigger] back@[j]@[k] == cell_prev(
                        em,
                        tr,
                        t as nat,
                        j as nat,
                        k,
                    ) && back@[j]@[k] < t,
            decreases i,
        {
            let tag = path[i];
            assert(back@[i as int]@.len() == t);
            let prev = back[i][tag];
            proof {
                lemma_trace_shape(em, tr, t as nat, i as nat, tag as int);
                lemma_trace_shape(em, tr, t as nat, (i - 1) as nat, prev as int);
                assert(back@[i as int]@[tag as int] == cell_prev(
                    em,
                    tr,
                    t as nat,
                    i as nat,
                    tag as int,
                ));
                assert(full.take(i + 1).take(i as int) =~= full.take(i as int));
                assert(full.take(i as int)[i - 1] == full[i - 1]);
            }
            path.set(i - 1, prev);
            i -= 1;
        }
        assert(as_ints(path@) =~= full);
        path
    }

    /// Whether `decode` rejects the matrices: an emission row does not have
    /// exactly one entry per tag, the transition matrix is too small, or the
    /// decoder was made for more tags than the vocabulary has and there is
    /// more than one position to decode.
    pub open spec fn decode_rejects(&self, em: Seq<Seq<i32>>, tr: Seq<Seq<i32>>) -> bool {
        em.len() > 0 && (em[0].len() != self.spec_num_tags() || !shapes_fit(
            em,
            tr,
            self.spec_num_tags(),
        ) || (em.len() >= 2 && self.spec_num_tags() > BioTag::NUM_TAGS))
    }

    /// The message with which `decode` rejects matrices: the first fault
    /// found, a first row of the wrong width counting before other matrices
    /// that do not fit, and those before an index beyond the vocabulary.
    pub open spec fn decode_complaint(&self, em: Seq<Seq<i32>>, tr: Seq<Seq<i32>>) -> Seq<char> {
        if em[0].len() != self.spec_num_tags() {
            width_message(self.spec_num_tags(), em[0].len())
        } else if !shapes_fit(em, tr, self.spec_num_tags()) {
            shape_message(self.spec_num_tags())
        } else {
            index_message(BioTag::NUM_TAGS as nat)
        }
    }

    /// What `decode` returns on given matrices.
    pub open spec fn decode_post(
        &self,
        em: Seq<Seq<i32>>,
        tr: Seq<Seq<i32>>,
        result: Result<Vec<usize>, ZantetsuError>,
    ) -> bool {
        match result {
            Ok(path) => {
                &&& !self.decode_rejects(em, tr)
                &&& as_ints(path@) == viterbi_path(em, tr, self.spec_num_tags())
            },
            Err(e) => {
                &&& self.decode_rejects(em, tr)
                &&& e matches ZantetsuError::NeuralParser(m) && m@ == self.decode_complaint(em, tr)
            },
        }
    }

    /// Whether `decode_constrained` rejects the matrices: there is something
    /// to decode, and an emission row does not have exactly one entry per
    /// tag or the transition matrix is too small.
    pub open spec fn constrained_rejects(&self, em: Seq<Seq<i32>>, tr: Seq<Seq<i32>>) -> bool {
        em.len() > 0 && (em[0].len() != self.spec_num_tags() || !shapes_fit(
            em,
            tr,
            self.spec_num_tags(),
        ))
    }

    /// The message with which `decode_constrained` rejects matrices: a first
    /// row of the wrong width counts before other matrices that do not fit.
    pub open spec fn constrained_complaint(&self, em: Seq<Seq<i32>>, tr: Seq<Seq<i32>>) -> Seq<
        char,
    > {
        if em[0].len() != self.spec_num_tags() {
            width_message(self.spec_num_tags(), em[0].len())
        } else {
            shape_message(self.spec_num_tags())
        }
    }

    /// What `decode_constrained` returns on given matrices.
    pub open spec fn constrained_post(
        &self,
        em: Seq<Seq<i32>>,
        tr: Seq<Seq<i32>>,
        result: Result<Vec<usize>, ZantetsuError>,
    ) -> bool {
        match result {
            Ok(path) => {
                &&& !self.constrained_rejects(em, tr)
                &&& as_ints(path@) == viterbi_path(em, tr, self.spec_num_tags())
            },
            Err(e) => {
                &&& self.constrained_rejects(em, tr)
                &&& e matches ZantetsuError::NeuralParser(m) && m@ == self.constrained_complaint(
                    em,
                    tr,
                )
            },
        }
    }

    /// Decodes the best tag sequence, checking the grammar pair by pair.
    ///
    /// Empty emissions decode to the empty path. Otherwise the result is the
    /// best grammatical path, with ties going to the lower tag index, or an
    /// error if the matrices do not fit the decoder.
    pub fn decode(&self, emission_scores: &[Vec<i32>], transition_matrix: &[Vec<i32>]) -> (result:
        Result<Vec<usize>, ZantetsuError>)
        ensures
            self.decode_post(rows(emission_scores), rows(transition_matrix), result),
            result matches Ok(path) ==> {
                &&& path@.len() == emission_scores@.len()
                &&& grammatical(as_ints(path@), self.spec_num_tags())
                &&& optimal(
                    rows(emission_scores),
                    rows(transition_matrix),
                    self.spec_num_tags(),
                    as_ints(path@),
                )
            },
    {
        let seq_len = emission_scores.len();
        let ghost em = rows(emission_scores);
        let ghost tr = rows(transition_matrix);
        if seq_len == 0 {
            proof {
                assert(as_ints(Seq::<usize>::empty()) =~= viterbi_path(em, tr, self.spec_num_tags()));
                assert forall|other: Seq<int>|
                    grammatical(other, self.spec_num_tags()) && other.len() == 0 implies path_score(
                    em,
                    tr,
                    other,
                ) <= path_score(em, tr, as_ints(Seq::<usize>::empty())) by {}
            }
            return Ok(Vec::new());
        }
        assert(em[0] == emission_scores@[0]@);
        if emission_scores[0].len() != self.num_tags {
            return Err(width_error(self.num_tags, emission_scores[0].len()));
        }
        if !self.shapes_ok(emission_scores, transition_matrix) {
            return Err(shape_error(self.num_tags));
        }
        if seq_len >= 2 && self.num_tags > BioTag::NUM_TAGS {
            return Err(index_error(BioTag::NUM_TAGS));
        }
        let path = self.run(emission_scores, transition_matrix, &None);
        proof {
            lemma_viterbi_path_optimal(em, tr, self.spec_num_tags());
        }
        Ok(path)
    }

    /// Decodes the best tag sequence, with the grammar tabulated once.
    ///
    /// Gives the same path as `decode` wherever both succeed, and rejects
    /// emission rows of the wrong width as `decode` does. Tags beyond the
    /// vocabulary take part in no transition.
    pub fn decode_constrained(
        &self,
        emission_scores: &[Vec<i32>],
        transition_matrix: &[Vec<i32>],
    ) -> (result: Result<Vec<usize>, ZantetsuError>)
        ensures
            self.constrained_post(rows(emission_scores), rows(transition_matrix), result),
            result matches Ok(path) ==> {
                &&& path@.len() == emission_scores@.len()
                &&& grammatical(as_ints(path@), self.spec_num_tags())
                &&& optimal(
                    rows(emission_scores),
                    rows(transition_matrix),
                    self.spec_num_tags(),
                    as_ints(path@),
                )
            },
    {
        let ghost em = rows(emission_scores);
        let ghost tr = rows(transition_matrix);
        if emission_scores.len() == 0 {
            proof {
                assert(as_ints(Seq::<usize>::empty()) =~= viterbi_path(em, tr, self.spec_num_tags()));
                assert forall|other: Seq<int>|
                    grammatical(other, self.spec_num_tags()) && other.len() == 0 implies path_score(
                    em,
                    tr,
                    other,
                ) <= path_score(em, tr, as_ints(Seq::<usize>::empty())) by {}
            }
            return Ok(Vec::new());
        }
        assert(em[0] == emission_scores@[0]@);
        if emission_scores[0].len() != self.num_tags {
            return Err(width_error(self.num_tags, emission_scores[0].len()));
        }
        if !self.shapes_ok(emission_scores, transition_matrix) {
            return Err(shape_error(self.num_tags));
        }
        let mask = Some(self.build_mask());
        let path = self.run(emission_scores, transition_matrix, &mask);
        proof {
            lemma_viterbi_path_optimal(em, tr, self.spec_num_tags());
        }
        Ok(path)
    }
}

} // verus!
