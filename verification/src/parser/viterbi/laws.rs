//! What holds of the decoded path: it obeys the grammar, no grammatical
//! path scores higher, and forbidden transitions have no say in it.

use vstd::prelude::*;
use crate::error::ZantetsuError;
use crate::parser::bio_tags::BioTag;
use crate::parser::viterbi::decoder::ViterbiDecoder;
use crate::parser::viterbi::model::{
    agree_where_allowed,
    allowed,
    as_ints,
    best_final,
    cell_prev,
    cell_score,
    found_score,
    found_tag,
    grammatical,
    matrix,
    optimal,
    path_score,
    scan,
    trace,
    viterbi_path,
};

verus! {

/// A traced path has one tag per position, ends in the tag it was traced
/// from, and continues the trace of that tag's predecessor.
pub proof fn lemma_trace_shape(
    em: Seq<Seq<i32>>,
    tr: Seq<Seq<i32>>,
    num_tags: nat,
    pos: nat,
    tag: int,
)
    ensures
        trace(em, tr, num_tags, pos, tag).len() == pos + 1,
        trace(em, tr, num_tags, pos, tag)[pos as int] == tag,
        pos > 0 ==> trace(em, tr, num_tags, pos, tag).take(pos as int) == trace(
            em,
            tr,
            num_tags,
            (pos - 1) as nat,
            cell_prev(em, tr, num_tags, pos, tag),
        ),
    decreases pos,
{
    if pos > 0 {
        let before = trace(
            em,
            tr,
            num_tags,
            (pos - 1) as nat,
            cell_prev(em, tr, num_tags, pos, tag),
        );
        lemma_trace_shape(
            em,
            tr,
            num_tags,
            (pos - 1) as nat,
            cell_prev(em, tr, num_tags, pos, tag),
        );
        assert(before.push(tag).take(pos as int) =~= before);
    }
}

/// What `scan` returns is a real step: an allowed transition from a
/// reachable predecessor among those considered, with the score of that step.
pub proof fn lemma_scan_sound(
    em: Seq<Seq<i32>>,
    tr: Seq<Seq<i32>>,
    num_tags: nat,
    pos: nat,
    tag: int,
    upto: nat,
)
    requires
        pos >= 1,
    ensures
        scan(em, tr, num_tags, pos, tag, upto) matches Some(cell) ==> {
            &&& 0 <= cell.1 < upto
            &&& allowed(cell.1, tag)
            &&& cell_score(em, tr, num_tags, (pos - 1) as nat, cell.1) is Some
            &&& cell.0 == cell_score(em, tr, num_tags, (pos - 1) as nat, cell.1)->0
                + tr[cell.1][tag] + em[pos as int][tag]
        },
    decreases upto,
{
    if upto > 0 {
        lemma_scan_sound(em, tr, num_tags, pos, tag, (upto - 1) as nat);
    }
}

/// `scan` is at least as good as every allowed step from a reachable
/// predecessor among those considered.
pub proof fn lemma_scan_max(
    em: Seq<Seq<i32>>,
    tr: Seq<Seq<i32>>,
    num_tags: nat,
    pos: nat,
    tag: int,
    upto: nat,
    prev: int,
)
    requires
        pos >= 1,
        0 <= prev < upto,
        allowed(prev, tag),
        cell_score(em, tr, num_tags, (pos - 1) as nat, prev) is Some,
    ensures
        scan(em, tr, num_tags, pos, tag, upto) is Some,
        found_score(scan(em, tr, num_tags, pos, tag, upto)) >= cell_score(
            em,
            tr,
            num_tags,
            (pos - 1) as nat,
            prev,
        )->0 + tr[prev][tag] + em[pos as int][tag],
    decreases upto,
{
    if prev < upto - 1 {
        lemma_scan_max(em, tr, num_tags, pos, tag, (upto - 1) as nat, prev);
    }
}

/// The best final tag is a reachable tag among those considered, with its
/// score.
pub proof fn lemma_best_final_sound(
    em: Seq<Seq<i32>>,
    tr: Seq<Seq<i32>>,
    num_tags: nat,
    pos: nat,
    upto: nat,
)
    ensures
        best_final(em, tr, num_tags, pos, upto) matches Some(cell) ==> {
            &&& 0 <= cell.1 < upto
            &&& cell_score(em, tr, num_tags, pos, cell.1) == Some(cell.0)
        },
    decreases upto,
{
    if upto > 0 {
        lemma_best_final_sound(em, tr, num_tags, pos, (upto - 1) as nat);
    }
}

/// The best final tag scores at least as high as every reachable tag among
/// those considered.
pub proof fn lemma_best_final_max(
    em: Seq<Seq<i32>>,
    tr: Seq<Seq<i32>>,
    num_tags: nat,
    pos: nat,
    upto: nat,
    tag: int,
)
    requires
        0 <= tag < upto,
        cell_score(em, tr, num_tags, pos, tag) is Some,
    ensures
        best_final(em, tr, num_tags, pos, upto) is Some,
        found_score(best_final(em, tr, num_tags, pos, upto)) >= cell_score(
            em,
            tr,
            num_tags,
            pos,
            tag,
        )->0,
    decreases upto,
{
    if tag < upto - 1 {
        lemma_best_final_max(em, tr, num_tags, pos, (upto - 1) as nat, tag);
    }
}

/// The path traced from a reachable cell obeys the grammar and has exactly
/// the score recorded in that cell.
pub proof fn lemma_trace_sound(
    em: Seq<Seq<i32>>,
    tr: Seq<Seq<i32>>,
    num_tags: nat,
    pos: nat,
    tag: int,
)
    requires
        0 <= tag < num_tags,
        cell_score(em, tr, num_tags, pos, tag) is Some,
    ensures
        grammatical(trace(em, tr, num_tags, pos, tag), num_tags),
        path_score(em, tr, trace(em, tr, num_tags, pos, tag)) == cell_score(
            em,
            tr,
            num_tags,
            pos,
            tag,
        )->0,
    decreases pos,
{
    let path = trace(em, tr, num_tags, pos, tag);
    lemma_trace_shape(em, tr, num_tags, pos, tag);
    if pos > 0 {
        let prev = cell_prev(em, tr, num_tags, pos, tag);
        lemma_scan_sound(em, tr, num_tags, pos, tag, num_tags);
        lemma_trace_sound(em, tr, num_tags, (pos - 1) as nat, prev);
        let before = trace(em, tr, num_tags, (pos - 1) as nat, prev);
        lemma_trace_shape(em, tr, num_tags, (pos - 1) as nat, prev);
        assert(path.drop_last() =~= before);
        assert(path[pos - 1] == prev);
        assert forall|i: int| 1 <= i < path.len() implies allowed(#[trigger] path[i - 1], path[i]) by {
            if i < pos {
                assert(path[i - 1] == before[i - 1]);
                assert(path[i] == before[i]);
            }
        }
        assert forall|i: int| 0 <= i < path.len() implies 0 <= #[trigger] path[i] < num_tags by {
            if i < pos {
                assert(path[i] == before[i]);
            }
        }
    }
}

/// Every grammatical path is matched or beaten by the cell it ends in.
pub proof fn lemma_cell_bounds_paths(
    em: Seq<Seq<i32>>,
    tr: Seq<Seq<i32>>,
    num_tags: nat,
    path: Seq<int>,
)
    requires
        path.len() >= 1,
        grammatical(path, num_tags),
    ensures
        cell_score(em, tr, num_tags, (path.len() - 1) as nat, path.last()) is Some,
        cell_score(em, tr, num_tags, (path.len() - 1) as nat, path.last())->0 >= path_score(
            em,
            tr,
            path,
        ),
    decreases path.len(),
{
    if path.len() > 1 {
        let n = path.len() as int;
        let before = path.drop_last();
        assert forall|i: int| 1 <= i < before.len() implies allowed(
            #[trigger] before[i - 1],
            before[i],
        ) by {
            assert(before[i - 1] == path[i - 1]);
            assert(before[i] == path[i]);
        }
        assert forall|i: int| 0 <= i < before.len() implies 0 <= #[trigger] before[i]
            < num_tags by {
            assert(before[i] == path[i]);
        }
        lemma_cell_bounds_paths(em, tr, num_tags, before);
        assert(before.last() == path[n - 2]);
        assert(allowed(path[n - 1 - 1], path[n - 1]));
        lemma_scan_max(em, tr, num_tags, (n - 1) as nat, path[n - 1], num_tags, path[n - 2]);
    }
}

/// The decoded path has one tag per position, obeys the grammar, and no
/// grammatical path of the same length scores higher.
pub proof fn lemma_viterbi_path_optimal(em: Seq<Seq<i32>>, tr: Seq<Seq<i32>>, num_tags: nat)
    requires
        num_tags > 0,
    ensures
        viterbi_path(em, tr, num_tags).len() == em.len(),
        grammatical(viterbi_path(em, tr, num_tags), num_tags),
        optimal(em, tr, num_tags, viterbi_path(em, tr, num_tags)),
{
    let path = viterbi_path(em, tr, num_tags);
    if em.len() == 0 {
        assert forall|other: Seq<int>|
            grammatical(other, num_tags) && other.len() == path.len() implies path_score(
            em,
            tr,
            other,
        ) <= path_score(em, tr, path) by {}
    } else {
        let last = (em.len() - 1) as nat;
        // The path that stays on the first tag is grammatical, so the last
        // position has a reachable cell.
        let zeros = Seq::new(em.len(), |i: int| 0int);
        assert(allowed(0, 0));
        lemma_cell_bounds_paths(em, tr, num_tags, zeros);
        lemma_best_final_max(em, tr, num_tags, last, num_tags, 0);
        lemma_best_final_sound(em, tr, num_tags, last, num_tags);
        let end = found_tag(best_final(em, tr, num_tags, last, num_tags));
        lemma_trace_shape(em, tr, num_tags, last, end);
        lemma_trace_sound(em, tr, num_tags, last, end);
        assert forall|other: Seq<int>|
            grammatical(other, num_tags) && other.len() == path.len() implies path_score(
            em,
            tr,
            other,
        ) <= path_score(em, tr, path) by {
            lemma_cell_bounds_paths(em, tr, num_tags, other);
            lemma_best_final_max(em, tr, num_tags, last, num_tags, other.last());
        }
    }
}

/// Decoding is a function of its inputs: two results of `decode` on the same
/// decoder and matrices agree on success and on the path.
pub proof fn lemma_decode_deterministic(
    decoder: ViterbiDecoder,
    em: Seq<Seq<i32>>,
    tr: Seq<Seq<i32>>,
    first: Result<Vec<usize>, ZantetsuError>,
    second: Result<Vec<usize>, ZantetsuError>,
)
    requires
        decoder.decode_post(em, tr, first),
        decoder.decode_post(em, tr, second),
    ensures
        first is Ok <==> second is Ok,
        first is Ok ==> first->Ok_0@ == second->Ok_0@,
{
    if first is Ok {
        let a = first->Ok_0@;
        let b = second->Ok_0@;
        assert(as_ints(a) == as_ints(b));
        assert(a.len() == as_ints(a).len());
        assert(b.len() == as_ints(b).len());
        assert forall|i: int| 0 <= i < a.len() implies a[i] == b[i] by {
            assert(as_ints(a)[i] == a[i] as int);
            assert(as_ints(b)[i] == b[i] as int);
        }
        assert(a =~= b);
    }
}

/// The same holds of `decode_constrained`.
pub proof fn lemma_decode_constrained_deterministic(
    decoder: ViterbiDecoder,
    em: Seq<Seq<i32>>,
    tr: Seq<Seq<i32>>,
    first: Result<Vec<usize>, ZantetsuError>,
    second: Result<Vec<usize>, ZantetsuError>,
)
    requires
        decoder.constrained_post(em, tr, first),
        decoder.constrained_post(em, tr, second),
    ensures
        first is Ok <==> second is Ok,
        first is Ok ==> first->Ok_0@ == second->Ok_0@,
{
    if first is Ok {
        let a = first->Ok_0@;
        let b = second->Ok_0@;
        assert(as_ints(a) == as_ints(b));
        assert(a.len() == as_ints(a).len());
        assert(b.len() == as_ints(b).len());
        assert forall|i: int| 0 <= i < a.len() implies a[i] == b[i] by {
            assert(as_ints(a)[i] == a[i] as int);
            assert(as_ints(b)[i] == b[i] as int);
        }
        assert(a =~= b);
    }
}

/// However large the score that the transition matrix gives to a forbidden
/// pair, no path that satisfies the decoder's contract contains that pair.
pub proof fn lemma_decoded_path_obeys_grammar(
    em: Seq<Seq<i32>>,
    tr: Seq<Seq<i32>>,
    num_tags: nat,
    i: int,
)
    requires
        num_tags > 0,
        1 <= i < em.len(),
    ensures
        allowed(viterbi_path(em, tr, num_tags)[i - 1], viterbi_path(em, tr, num_tags)[i]),
        BioTag::spec_from_index(viterbi_path(em, tr, num_tags)[i - 1]) is Some,
        BioTag::spec_from_index(viterbi_path(em, tr, num_tags)[i]) is Some,
        BioTag::spec_valid_transition(
            BioTag::spec_from_index(viterbi_path(em, tr, num_tags)[i - 1])->0,
            BioTag::spec_from_index(viterbi_path(em, tr, num_tags)[i])->0,
        ),
{
    lemma_viterbi_path_optimal(em, tr, num_tags);
}

/// The best step into a cell does not depend on the scores of forbidden
/// pairs.
pub proof fn lemma_scan_ignores_forbidden(
    em: Seq<Seq<i32>>,
    a: Seq<Seq<i32>>,
    b: Seq<Seq<i32>>,
    num_tags: nat,
    pos: nat,
    tag: int,
    upto: nat,
)
    requires
        agree_where_allowed(a, b, num_tags),
        0 <= tag < num_tags,
        upto <= num_tags,
    ensures
        scan(em, a, num_tags, pos, tag, upto) == scan(em, b, num_tags, pos, tag, upto),
    decreases pos, upto,
{
    if pos > 0 && upto > 0 {
        let prev = (upto - 1) as int;
        lemma_scan_ignores_forbidden(em, a, b, num_tags, pos, tag, (upto - 1) as nat);
        if pos > 1 {
            lemma_scan_ignores_forbidden(em, a, b, num_tags, (pos - 1) as nat, prev, num_tags);
        }
        if allowed(prev, tag) {
            assert(a[prev][tag] == b[prev][tag]);
        }
    }
}

/// The best final tag does not depend on the scores of forbidden pairs.
pub proof fn lemma_best_final_ignores_forbidden(
    em: Seq<Seq<i32>>,
    a: Seq<Seq<i32>>,
    b: Seq<Seq<i32>>,
    num_tags: nat,
    pos: nat,
    upto: nat,
)
    requires
        agree_where_allowed(a, b, num_tags),
        upto <= num_tags,
    ensures
        best_final(em, a, num_tags, pos, upto) == best_final(em, b, num_tags, pos, upto),
    decreases upto,
{
    if upto > 0 {
        lemma_best_final_ignores_forbidden(em, a, b, num_tags, pos, (upto - 1) as nat);
        lemma_scan_ignores_forbidden(em, a, b, num_tags, pos, upto - 1, num_tags);
    }
}

/// A traced path does not depend on the scores of forbidden pairs.
pub proof fn lemma_trace_ignores_forbidden(
    em: Seq<Seq<i32>>,
    a: Seq<Seq<i32>>,
    b: Seq<Seq<i32>>,
    num_tags: nat,
    pos: nat,
    tag: int,
)
    requires
        agree_where_allowed(a, b, num_tags),
        0 <= tag < num_tags,
    ensures
        trace(em, a, num_tags, pos, tag) == trace(em, b, num_tags, pos, tag),
    decreases pos,
{
    if pos > 0 {
        lemma_scan_ignores_forbidden(em, a, b, num_tags, pos, tag, num_tags);
        lemma_scan_sound(em, a, num_tags, pos, tag, num_tags);
        lemma_trace_ignores_forbidden(
            em,
            a,
            b,
            num_tags,
            (pos - 1) as nat,
            cell_prev(em, a, num_tags, pos, tag),
        );
    }
}

/// The decoded path depends on the transition matrix only through the
/// scores of allowed pairs: whatever a matrix says of a forbidden pair, the
/// decoder returns the same path.
pub proof fn lemma_path_ignores_forbidden(
    em: Seq<Seq<i32>>,
    a: Seq<Seq<i32>>,
    b: Seq<Seq<i32>>,
    num_tags: nat,
)
    requires
        agree_where_allowed(a, b, num_tags),
        num_tags > 0,
    ensures
        viterbi_path(em, a, num_tags) == viterbi_path(em, b, num_tags),
{
    if em.len() > 0 {
        let last = (em.len() - 1) as nat;
        lemma_best_final_ignores_forbidden(em, a, b, num_tags, last, num_tags);
        lemma_best_final_sound(em, a, num_tags, last, num_tags);
        lemma_trace_ignores_forbidden(
            em,
            a,
            b,
            num_tags,
            last,
            found_tag(best_final(em, a, num_tags, last, num_tags)),
        );
    }
}

/// Both decoding functions give the same path wherever both succeed.
pub proof fn lemma_decoders_agree(
    decoder: ViterbiDecoder,
    em: Seq<Seq<i32>>,
    tr: Seq<Seq<i32>>,
    plain: Result<Vec<usize>, ZantetsuError>,
    constrained: Result<Vec<usize>, ZantetsuError>,
)
    requires
        decoder.decode_post(em, tr, plain),
        decoder.constrained_post(em, tr, constrained),
    ensures
        plain is Ok ==> constrained is Ok,
        plain is Ok ==> as_ints(plain->Ok_0@) == as_ints(constrained->Ok_0@),
{
}

} // verus!
