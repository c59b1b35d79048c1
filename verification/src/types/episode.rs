//! Episode numbering as it appears in release names.

use vstd::prelude::*;
use vstd::string::StringExecFns;
use crate::text::{decimal, decimal_padded, push_char, push_decimal, push_decimal_padded};

verus! {

/// The episode or episodes that a release covers.
#[derive(Debug, Clone, PartialEq, Eq, Hash)]
pub enum EpisodeSpec {
    /// A single episode, as in `12`.
    Single(u32),
    /// An inclusive range of episodes, as in `01-12`; the start lies below
    /// the end.
    Range(u32, u32),
    /// Several discrete episodes, as in `01, 03, 05`.
    Multi(Vec<u32>),
    /// A revised release of one episode, as in `12v2`.
    Version {
        /// The episode number.
        episode: u32,
        /// The revision number.
        version: u8,
    },
}

/// An episode specification as plain data.
pub ghost enum EpisodeModel {
    Single(u32),
    Range(u32, u32),
    Multi(Seq<u32>),
    Version { episode: u32, version: u8 },
}

impl View for EpisodeSpec {
    type V = EpisodeModel;

    open spec fn view(&self) -> EpisodeModel {
        match self {
            EpisodeSpec::Single(ep) => EpisodeModel::Single(*ep),
            EpisodeSpec::Range(start, end) => EpisodeModel::Range(*start, *end),
            EpisodeSpec::Multi(eps) => EpisodeModel::Multi(eps@),
            EpisodeSpec::Version { episode, version } => EpisodeModel::Version {
                episode: *episode,
                version: *version,
            },
        }
    }
}

/// The episode numbers of a list, each at least two digits wide and
/// separated by a comma and a space.
pub open spec fn joined_episodes(episodes: Seq<u32>) -> Seq<char>
    decreases episodes.len(),
{
    if episodes.len() == 0 {
        Seq::empty()
    } else if episodes.len() == 1 {
        decimal_padded(episodes[0] as nat)
    } else {
        joined_episodes(episodes.drop_last()) + seq![',', ' '] + decimal_padded(
            episodes.last() as nat,
        )
    }
}

impl EpisodeSpec {
    /// Whether the value is one that extraction may produce: a range runs
    /// from a lower to a strictly higher episode.
    pub open spec fn wf(&self) -> bool {
        match self {
            EpisodeSpec::Range(start, end) => *start < *end,
            _ => true,
        }
    }

    /// The display text of the specification.
    pub open spec fn spec_text(&self) -> Seq<char> {
        match self {
            EpisodeSpec::Single(ep) => decimal_padded(*ep as nat),
            EpisodeSpec::Range(start, end) => decimal_padded(*start as nat) + seq!['-']
                + decimal_padded(*end as nat),
            EpisodeSpec::Multi(eps) => joined_episodes(eps@),
            EpisodeSpec::Version { episode, version } => decimal_padded(*episode as nat) + seq![
                'v',
            ] + decimal(*version as nat),
        }
    }

    /// Whether the value is one that extraction may produce.
    pub fn is_well_formed(&self) -> (ok: bool)
        ensures
            ok == self.wf(),
    {
        match self {
            EpisodeSpec::Range(start, end) => *start < *end,
            _ => true,
        }
    }

    /// The display text: `07`, `01-12`, `01, 03, 05` or `12v2`.
    pub fn to_string(&self) -> (text: String)
        ensures
            text@ == self.spec_text(),
    {
        let mut out = String::new();
        match self {
            EpisodeSpec::Single(ep) => {
                push_decimal_padded(&mut out, *ep as u64);
            },
            EpisodeSpec::Range(start, end) => {
                push_decimal_padded(&mut out, *start as u64);
                push_char(&mut out, '-');
                push_decimal_padded(&mut out, *end as u64);
            },
            EpisodeSpec::Multi(eps) => {
                let mut i: usize = 0;
                while i < eps.len()
                    invariant
                        i <= eps.len(),
                        out@ == joined_episodes(eps@.take(i as int)),
                    decreases eps.len() - i,
                {
                    proof {
                        assert(eps@.take(i + 1).drop_last() =~= eps@.take(i as int));
                    }
                    if i > 0 {
                        push_char(&mut out, ',');
                        push_char(&mut out, ' ');
                    }
                    push_decimal_padded(&mut out, eps[i] as u64);
                    proof {
                        if i > 0 {
                            assert(joined_episodes(eps@.take(i as int)).push(',').push(' ')
                                =~= joined_episodes(eps@.take(i as int)) + seq![',', ' ']);
                        } else {
                            assert(Seq::<char>::empty() + decimal_padded(eps@[0] as nat)
                                =~= decimal_padded(eps@[0] as nat));
                        }
                    }
                    i += 1;
                }
                assert(eps@.take(eps@.len() as int) =~= eps@);
            },
            EpisodeSpec::Version { episode, version } => {
                push_decimal_padded(&mut out, *episode as u64);
                push_char(&mut out, 'v');
                push_decimal(&mut out, *version as u64);
            },
        }
        out
    }
}

/// The episode numbers of a list, separated by commas.
pub open spec fn listed_episodes(episodes: Seq<u32>) -> Seq<char>
    decreases episodes.len(),
{
    if episodes.len() == 0 {
        Seq::empty()
    } else if episodes.len() == 1 {
        decimal(episodes[0] as nat)
    } else {
        listed_episodes(episodes.drop_last()) + seq![','] + decimal(episodes.last() as nat)
    }
}

/// The specification in the notation of reports: the kind, and the numbers
/// in parentheses.
pub open spec fn spec_report_text(ep: &EpisodeSpec) -> Seq<char> {
    match ep {
        EpisodeSpec::Single(n) => "Single("@ + decimal(*n as nat) + ")"@,
        EpisodeSpec::Range(start, end) => "Range("@ + decimal(*start as nat) + ","@ + decimal(
            *end as nat,
        ) + ")"@,
        EpisodeSpec::Multi(eps) => "Multi("@ + listed_episodes(eps@) + ")"@,
        EpisodeSpec::Version { episode, version } => "Version("@ + decimal(*episode as nat)
            + ",v"@ + decimal(*version as nat) + ")"@,
    }
}

/// The episode numbers of a list, separated by commas.
fn list_episodes(eps: &Vec<u32>) -> (text: String)
    ensures
        text@ == listed_episodes(eps@),
{
    let mut out = String::new();
    let mut i: usize = 0;
    assert(eps@.take(0) =~= Seq::<u32>::empty());
    while i < eps.len()
        invariant
            i <= eps.len(),
            out@ == listed_episodes(eps@.take(i as int)),
        decreases eps.len() - i,
    {
        proof {
            assert(eps@.take(i + 1).drop_last() =~= eps@.take(i as int));
        }
        if i > 0 {
            push_char(&mut out, ',');
        }
        push_decimal(&mut out, eps[i] as u64);
        proof {
            if i > 0 {
                assert(listed_episodes(eps@.take(i as int)).push(',') =~= listed_episodes(
                    eps@.take(i as int),
                ) + seq![',']);
            } else {
                assert(Seq::<char>::empty() + decimal(eps@[0] as nat) =~= decimal(eps@[0] as nat));
            }
        }
        i += 1;
    }
    assert(eps@.take(eps@.len() as int) =~= eps@);
    out
}

/// The specification in the notation of reports, such as `Single(24)`,
/// `Range(1,12)`, `Multi(1,3,5)` or `Version(12,v2)`.
pub fn episode_to_string(ep: &EpisodeSpec) -> (text: String)
    ensures
        text@ == spec_report_text(ep),
{
    match ep {
        EpisodeSpec::Single(n) => {
            let mut out = "Single(".to_owned();
            push_decimal(&mut out, *n as u64);
            out.append(")");
            out
        },
        EpisodeSpec::Range(start, end) => {
            let mut out = "Range(".to_owned();
            push_decimal(&mut out, *start as u64);
            out.append(",");
            push_decimal(&mut out, *end as u64);
            out.append(")");
            out
        },
        EpisodeSpec::Multi(eps) => {
            let mut out = "Multi(".to_owned();
            out.append(list_episodes(eps).as_str());
            out.append(")");
            out
        },
        EpisodeSpec::Version { episode, version } => {
            let mut out = "Version(".to_owned();
            push_decimal(&mut out, *episode as u64);
            out.append(",v");
            push_decimal(&mut out, *version as u64);
            out.append(")");
            out
        },
    }
}

} // verus!
