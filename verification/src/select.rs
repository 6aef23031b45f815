//! Picking the single best rendition among the filter's survivors.
//!
//! Renditions are ordered by a lexicographic comparator over the attribute
//! keys in `FilterCriteria::quality_priority`: the first key whose ranks
//! differ decides, ties fall through to the next key, and a candidate whose
//! every key ties with the running best does not displace it — so among
//! renditions the comparator cannot distinguish, the first-encountered one
//! wins, deterministically. A missing bitrate ranks below every present one.
//!
//! An empty candidate sequence is classified by the size of the pre-filter
//! collection: empty source means the video offers nothing downloadable,
//! non-empty source means the filter eliminated everything.

use vstd::prelude::*;

use crate::filter::{FilterCriteria, PriorityKey};
use crate::stream::{container_rank, container_rank_of, quality_rank, quality_rank_of, Stream};

verus! {

/// The rank a rendition takes under one tie-break key. Higher is better; a
/// rendition without a known bitrate ranks below any with one.
pub open spec fn key_rank(s: Stream, k: PriorityKey) -> int {
    match k {
        PriorityKey::Quality => quality_rank(s.quality),
        PriorityKey::Bitrate => match s.bitrate {
            Some(b) => b as int,
            None => -1,
        },
        PriorityKey::Container => container_rank(s.container),
    }
}

/// The lexicographic comparison of two renditions under the priority list:
/// `1` when `a` outranks `b` on the first key whose ranks differ, `-1` when
/// `b` outranks `a` there, and `0` when every key ties (including when the
/// list is exhausted or empty).
pub open spec fn spec_lex_cmp(a: Stream, b: Stream, prio: Seq<PriorityKey>) -> int
    decreases prio.len(),
{
    if prio.len() == 0 {
        0
    } else if key_rank(a, prio[0]) > key_rank(b, prio[0]) {
        1
    } else if key_rank(a, prio[0]) < key_rank(b, prio[0]) {
        -1
    } else {
        spec_lex_cmp(a, b, prio.skip(1))
    }
}

/// The comparison only ever yields `-1`, `0` or `1`.
pub proof fn lemma_cmp_range(a: Stream, b: Stream, prio: Seq<PriorityKey>)
    ensures
        -1 <= spec_lex_cmp(a, b, prio) <= 1,
    decreases prio.len(),
{
    if prio.len() > 0 {
        lemma_cmp_range(a, b, prio.skip(1));
    }
}

/// Swapping the operands negates the comparison.
pub proof fn lemma_cmp_flip(a: Stream, b: Stream, prio: Seq<PriorityKey>)
    ensures
        spec_lex_cmp(a, b, prio) == -spec_lex_cmp(b, a, prio),
    decreases prio.len(),
{
    if prio.len() > 0 {
        lemma_cmp_flip(a, b, prio.skip(1));
    }
}

/// A rendition never outranks itself.
pub proof fn lemma_cmp_refl(a: Stream, prio: Seq<PriorityKey>)
    ensures
        spec_lex_cmp(a, a, prio) == 0,
    decreases prio.len(),
{
    if prio.len() > 0 {
        lemma_cmp_refl(a, prio.skip(1));
    }
}

/// The comparison is transitive, and strictness on either side carries
/// through.
pub proof fn lemma_cmp_trans(a: Stream, b: Stream, c: Stream, prio: Seq<PriorityKey>)
    requires
        spec_lex_cmp(a, b, prio) >= 0,
        spec_lex_cmp(b, c, prio) >= 0,
    ensures
        spec_lex_cmp(a, c, prio) >= 0,
        spec_lex_cmp(a, b, prio) == 1 || spec_lex_cmp(b, c, prio) == 1 ==> spec_lex_cmp(
            a,
            c,
            prio,
        ) == 1,
    decreases prio.len(),
{
    if prio.len() > 0 {
        let ra = key_rank(a, prio[0]);
        let rb = key_rank(b, prio[0]);
        let rc = key_rank(c, prio[0]);
        if ra == rb && rb == rc {
            lemma_cmp_trans(a, b, c, prio.skip(1));
        }
    }
}

/// `key_rank`, executable: compares two renditions under one key.
fn key_cmp(a: &Stream, b: &Stream, k: PriorityKey) -> (r: i8)
    ensures
        (r == 1i8) == (key_rank(*a, k) > key_rank(*b, k)),
        (r == -1i8) == (key_rank(*a, k) < key_rank(*b, k)),
        (r == 0i8) == (key_rank(*a, k) == key_rank(*b, k)),
{
    match k {
        PriorityKey::Quality => {
            let ra = quality_rank_of(a.quality);
            let rb = quality_rank_of(b.quality);
            if ra > rb {
                1
            } else if ra < rb {
                -1
            } else {
                0
            }
        },
        PriorityKey::Bitrate => {
            match (a.bitrate, b.bitrate) {
                (Some(x), Some(y)) => {
                    if x > y {
                        1
                    } else if x < y {
                        -1
                    } else {
                        0
                    }
                },
                (Some(_), None) => 1,
                (None, Some(_)) => -1,
                (None, None) => 0,
            }
        },
        PriorityKey::Container => {
            let ra = container_rank_of(a.container);
            let rb = container_rank_of(b.container);
            if ra > rb {
                1
            } else if ra < rb {
                -1
            } else {
                0
            }
        },
    }
}

/// The lexicographic comparison, executable.
pub fn lex_cmp(a: &Stream, b: &Stream, prio: &Vec<PriorityKey>) -> (r: i8)
    ensures
        r as int == spec_lex_cmp(*a, *b, prio@),
{
    let n = prio.len();
    let mut i: usize = 0;
    proof {
        assert(prio@.skip(0) =~= prio@);
    }
    while i < n
        invariant
            0 <= i <= n,
            n == prio@.len(),
            spec_lex_cmp(*a, *b, prio@) == spec_lex_cmp(*a, *b, prio@.skip(i as int)),
        decreases n - i,
    {
        proof {
            assert(prio@.skip(i as int)[0] == prio@[i as int]);
            assert(prio@.skip(i as int).skip(1) =~= prio@.skip(i + 1));
        }
        let c = key_cmp(a, b, prio[i]);
        if c != 0 {
            return c;
        }
        i = i + 1;
    }
    0
}

/// The position of the winning candidate: the first rendition that every
/// later rendition fails to strictly outrank. A later candidate displaces
/// the running best only by strictly outranking it, so ties keep the
/// earlier one.
pub open spec fn spec_best_index(s: Seq<Stream>, prio: Seq<PriorityKey>) -> int
    recommends
        s.len() > 0,
    decreases s.len(),
{
    if s.len() <= 1 {
        0
    } else {
        let bi = spec_best_index(s.drop_last(), prio);
        if spec_lex_cmp(s.last(), s[bi], prio) == 1 {
            s.len() - 1
        } else {
            bi
        }
    }
}

/// The winning candidate of a non-empty sequence.
pub open spec fn spec_best(s: Seq<Stream>, prio: Seq<PriorityKey>) -> Stream
    recommends
        s.len() > 0,
{
    s[spec_best_index(s, prio)]
}

/// The winning position lies inside the sequence.
pub proof fn lemma_best_index_in_range(s: Seq<Stream>, prio: Seq<PriorityKey>)
    requires
        s.len() > 0,
    ensures
        0 <= spec_best_index(s, prio) < s.len(),
    decreases s.len(),
{
    if s.len() > 1 {
        lemma_best_index_in_range(s.drop_last(), prio);
    }
}

/// Maximality and stability of the winner: it compares greater-or-equal to
/// every candidate, and strictly greater to every candidate before it — so
/// it is the first-encountered maximum, and re-running the selection on the
/// same sequence yields the same winner.
pub proof fn lemma_best_maximal(s: Seq<Stream>, prio: Seq<PriorityKey>)
    requires
        s.len() > 0,
    ensures
        0 <= spec_best_index(s, prio) < s.len(),
        spec_best(s, prio) == s[spec_best_index(s, prio)],
        forall|j: int| 0 <= j < s.len() ==> spec_lex_cmp(spec_best(s, prio), s[j], prio) >= 0,
        forall|j: int|
            0 <= j < spec_best_index(s, prio) ==> spec_lex_cmp(spec_best(s, prio), s[j], prio)
                == 1,
    decreases s.len(),
{
    lemma_best_index_in_range(s, prio);
    if s.len() == 1 {
        lemma_cmp_refl(s[0], prio);
    } else {
        let pre = s.drop_last();
        lemma_best_maximal(pre, prio);
        let bi = spec_best_index(pre, prio);
        let b = pre[bi];
        let last = s.last();
        assert(forall|j: int| 0 <= j < pre.len() ==> pre[j] == s[j]);
        lemma_cmp_refl(last, prio);
        lemma_cmp_refl(b, prio);
        if spec_lex_cmp(last, b, prio) == 1 {
            assert forall|j: int| 0 <= j < s.len() - 1 implies spec_lex_cmp(last, s[j], prio)
                == 1 by {
                lemma_cmp_range(b, s[j], prio);
                lemma_cmp_trans(last, b, s[j], prio);
            }
        } else {
            lemma_cmp_range(last, b, prio);
            lemma_cmp_flip(last, b, prio);
        }
    }
}

/// The outcome of a selection: the winning rendition, or the reason none
/// could be chosen.
#[derive(Clone, Copy, Debug)]
pub enum SelectionOutcome {
    /// The single best rendition among the candidates.
    Selected(Stream),
    /// The video offered no rendition at all, before any filtering.
    NoStreamsAtAll,
    /// The video offered renditions, but the filter eliminated every one.
    NoStreamsMatchCriteria,
}

/// What `select` yields: the winner of a non-empty candidate sequence, and
/// for an empty one the failure classified by the pre-filter count.
pub open spec fn spec_select(
    cands: Seq<Stream>,
    prio: Seq<PriorityKey>,
    source_len: int,
) -> SelectionOutcome {
    if cands.len() > 0 {
        SelectionOutcome::Selected(spec_best(cands, prio))
    } else if source_len == 0 {
        SelectionOutcome::NoStreamsAtAll
    } else {
        SelectionOutcome::NoStreamsMatchCriteria
    }
}

/// One linear scan over the candidates, keeping the running maximum under
/// the criteria's priority order. `source_count` is the size of the
/// pre-filter collection and only classifies the empty-candidate failure.
pub fn select(candidates: &Vec<Stream>, criteria: &FilterCriteria, source_count: usize) -> (r:
    SelectionOutcome)
    ensures
        r == spec_select(candidates@, criteria.quality_priority@, source_count as int),
{
    let n = candidates.len();
    if n == 0 {
        if source_count == 0 {
            return SelectionOutcome::NoStreamsAtAll;
        } else {
            return SelectionOutcome::NoStreamsMatchCriteria;
        }
    }
    let prio = &criteria.quality_priority;
    let mut best_i: usize = 0;
    let mut i: usize = 1;
    proof {
        assert(candidates@.subrange(0, 1).len() == 1);
    }
    while i < n
        invariant
            1 <= i <= n,
            best_i < i,
            n == candidates@.len(),
            prio@ == criteria.quality_priority@,
            best_i as int == spec_best_index(candidates@.subrange(0, i as int), prio@),
        decreases n - i,
    {
        proof {
            let pre = candidates@.subrange(0, i as int);
            let cur = candidates@.subrange(0, i + 1);
            lemma_best_index_in_range(pre, prio@);
            assert(cur.drop_last() =~= pre);
            assert(cur.last() == candidates@[i as int]);
            assert(pre[best_i as int] == candidates@[best_i as int]);
        }
        let c = lex_cmp(&candidates[i], &candidates[best_i], prio);
        if c == 1 {
            best_i = i;
        }
        i = i + 1;
    }
    proof {
        assert(candidates@.subrange(0, n as int) =~= candidates@);
    }
    SelectionOutcome::Selected(candidates[best_i])
}

} // verus!
