//! What holds of every record that the heuristic engine extracts.

use vstd::prelude::*;
use crate::fixed::{ONE, lemma_ratio_bounded, spec_ratio};
use crate::parser::heuristic::model::{
    SENTINEL,
    episode_matched,
    fields_present,
    fields_total,
    spec_confidence,
    spec_episode,
    spec_parse,
    title_of,
    without_extension,
};
use crate::text::{
    TrimSet,
    before_first,
    lemma_last_match_upto,
    lemma_trimmed_is_clean,
    matches_at,
    separators_to_spaces,
    words_joined,
};
use crate::types::episode::EpisodeModel;
use crate::types::result::ParseRecord;

verus! {

/// The confidence of any record is a share between 0.0 and 1.0.
pub proof fn lemma_confidence_bounded(r: ParseRecord)
    ensures
        0 <= fields_present(r) <= fields_total(r),
        spec_confidence(r) <= ONE,
        spec_confidence(r) == spec_ratio(fields_present(r), fields_total(r)),
{
    lemma_ratio_bounded(fields_present(r), fields_total(r));
}

/// Whatever the input, the extracted record is well formed: its confidence
/// is at most 1.0, and an episode range runs from a lower to a strictly
/// higher episode.
pub proof fn lemma_parse_well_formed(t: Seq<char>)
    ensures
        spec_parse(t).wf(),
        spec_episode(t) matches Some(EpisodeModel::Range(start, end)) ==> start < end,
{
    let r = spec_parse(t);
    lemma_confidence_bounded(ParseRecord { confidence: 0, ..r });
}

/// A title is never empty, and neither starts nor ends with a hyphen or a
/// space.
pub proof fn lemma_title_is_clean(blanked: Seq<char>)
    ensures
        title_of(blanked) matches Some(title) ==> {
            &&& title.len() > 0
            &&& title[0] != '-' && title[0] != ' '
            &&& title.last() != '-' && title.last() != ' '
        },
{
    lemma_trimmed_is_clean(
        words_joined(separators_to_spaces(before_first(blanked, SENTINEL))),
        TrimSet::HyphenOrSpace,
    );
}

/// An extension that stands at the end of a text is cut off as it stands
/// there, whatever its case.
pub proof fn lemma_trailing_extension_is_cut(t: Seq<char>, dotted: Seq<char>)
    requires
        dotted.len() <= t.len(),
        t.skip(t.len() - dotted.len()) == dotted,
    ensures
        without_extension(t, Some(dotted)) == t.take(t.len() - dotted.len()),
{
    let at = t.len() - dotted.len();
    assert(t.subrange(at, at + dotted.len()) =~= t.skip(at));
    assert(matches_at(t, dotted, at));
    lemma_last_match_upto(t, dotted, t.len() as int);
}

/// Whatever the three episode patterns matched, a range that is extracted
/// runs from a lower to a strictly higher episode.
pub proof fn lemma_ranges_run_upwards(
    range: Option<Seq<Option<Seq<char>>>>,
    versioned: Option<Seq<Option<Seq<char>>>>,
    single: Option<Seq<Option<Seq<char>>>>,
)
    ensures
        episode_matched(range, versioned, single) matches Some(EpisodeModel::Range(start, end))
            ==> start < end,
{
}

} // verus!
