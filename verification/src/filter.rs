//! The inclusion filter over renditions.
//!
//! `FilterCriteria` names the recognized options; `matches` is the pure,
//! per-rendition predicate they induce, and `filter_streams` applies it to a
//! whole collection, keeping order. With every optional field unset the
//! criteria form the identity filter and every rendition passes.

use vstd::prelude::*;

use crate::stream::{quality_rank, Container, QualityLabel, Stream, VideoStreamSet};

verus! {

/// One attribute the selector may compare renditions by. The order of these
/// keys in `FilterCriteria::quality_priority` fixes the tie-break precedence.
#[derive(Clone, Copy, Debug, PartialEq, Eq, Structural)]
pub enum PriorityKey {
    Quality,
    Bitrate,
    Container,
}

/// The user-supplied inclusion criteria and tie-break precedence. Supplied
/// once per invocation; immutable.
pub struct FilterCriteria {
    /// When set, a rendition's container must equal it exactly.
    pub container: Option<Container>,
    /// When true, a rendition must carry a video track.
    pub requires_video: bool,
    /// When true, a rendition must carry an audio track.
    pub requires_audio: bool,
    /// When set, a rendition's quality tier must be at least this.
    pub min_quality: Option<QualityLabel>,
    /// The attributes the selector compares, in order of precedence.
    pub quality_priority: Vec<PriorityKey>,
}

impl FilterCriteria {
    /// Criteria that filter nothing and break ties by quality, then bitrate,
    /// then container preference.
    pub fn any() -> (r: FilterCriteria)
        ensures
            is_identity(r),
            r.quality_priority@ == default_priority(),
    {
        FilterCriteria {
            container: None,
            requires_video: false,
            requires_audio: false,
            min_quality: None,
            quality_priority: default_priority_list(),
        }
    }
}

/// The default tie-break precedence: quality tier first, then bitrate, then
/// container preference.
pub open spec fn default_priority() -> Seq<PriorityKey> {
    seq![PriorityKey::Quality, PriorityKey::Bitrate, PriorityKey::Container]
}

/// `default_priority`, executable.
pub fn default_priority_list() -> (r: Vec<PriorityKey>)
    ensures
        r@ == default_priority(),
{
    let mut v: Vec<PriorityKey> = Vec::new();
    v.push(PriorityKey::Quality);
    v.push(PriorityKey::Bitrate);
    v.push(PriorityKey::Container);
    proof {
        assert(v@ =~= default_priority());
    }
    v
}

/// Every optional criterion is unset: such criteria admit every rendition.
pub open spec fn is_identity(c: FilterCriteria) -> bool {
    &&& c.container is None
    &&& !c.requires_video
    &&& !c.requires_audio
    &&& c.min_quality is None
}

/// The predicate the criteria induce on one rendition: each set criterion
/// must hold, an unset one admits everything.
pub open spec fn spec_matches(c: FilterCriteria, s: Stream) -> bool {
    &&& match c.container {
        Some(w) => s.container == w,
        None => true,
    }
    &&& (c.requires_video ==> s.has_video)
    &&& (c.requires_audio ==> s.has_audio)
    &&& match c.min_quality {
        Some(q) => quality_rank(s.quality) >= quality_rank(q),
        None => true,
    }
}

/// Whether the rendition satisfies every set criterion. Pure and evaluated
/// independently per rendition: no shared state, order-independent.
pub fn matches(stream: &Stream, criteria: &FilterCriteria) -> (r: bool)
    ensures
        r == spec_matches(*criteria, *stream),
{
    let container_ok = match criteria.container {
        Some(w) => stream.container == w,
        None => true,
    };
    let video_ok = !criteria.requires_video || stream.has_video;
    let audio_ok = !criteria.requires_audio || stream.has_audio;
    let quality_ok = match criteria.min_quality {
        Some(q) => crate::stream::quality_rank_of(stream.quality) >= crate::stream::quality_rank_of(
            q,
        ),
        None => true,
    };
    container_ok && video_ok && audio_ok && quality_ok
}

/// The subsequence of `s` whose renditions satisfy the criteria, in the
/// order `s` gives them.
pub open spec fn spec_filter(s: Seq<Stream>, c: FilterCriteria) -> Seq<Stream>
    decreases s.len(),
{
    if s.len() == 0 {
        Seq::empty()
    } else {
        let rest = spec_filter(s.drop_last(), c);
        if spec_matches(c, s.last()) {
            rest.push(s.last())
        } else {
            rest
        }
    }
}

/// Applies the filter across a whole collection, keeping the collection's
/// order among the survivors. The result may be empty.
pub fn filter_streams(set: &VideoStreamSet, criteria: &FilterCriteria) -> (r: Vec<Stream>)
    ensures
        r@ == spec_filter(set@, *criteria),
{
    let n = set.len();
    let mut out: Vec<Stream> = Vec::new();
    let mut i: usize = 0;
    while i < n
        invariant
            n == set@.len(),
            0 <= i <= n,
            out@ == spec_filter(set@.subrange(0, i as int), *criteria),
        decreases n - i,
    {
        let s = *set.get(i);
        proof {
            assert(set@.subrange(0, i + 1).drop_last() =~= set@.subrange(0, i as int));
            assert(set@.subrange(0, i + 1).last() == set@[i as int]);
        }
        if matches(&s, criteria) {
            out.push(s);
        }
        i = i + 1;
    }
    proof {
        assert(set@.subrange(0, n as int) =~= set@);
    }
    out
}

/// The identity filter admits every rendition: with every optional field
/// unset, `matches` is true of any stream whatsoever.
pub proof fn lemma_identity_matches_all(c: FilterCriteria)
    requires
        is_identity(c),
    ensures
        forall|s: Stream| spec_matches(c, s),
{
}

/// The identity filter keeps the whole collection, order included.
pub proof fn lemma_identity_filter_keeps_all(s: Seq<Stream>, c: FilterCriteria)
    requires
        is_identity(c),
    ensures
        spec_filter(s, c) == s,
    decreases s.len(),
{
    if s.len() == 0 {
        assert(spec_filter(s, c) =~= s);
    } else {
        lemma_identity_filter_keeps_all(s.drop_last(), c);
        assert(spec_filter(s, c) =~= s);
    }
}

/// Every survivor of the filter satisfies the criteria, and survivors appear
/// in the result exactly as often as in the source.
pub proof fn lemma_filter_sound(s: Seq<Stream>, c: FilterCriteria)
    ensures
        forall|i: int| 0 <= i < spec_filter(s, c).len() ==> spec_matches(c, spec_filter(s, c)[i]),
    decreases s.len(),
{
    if s.len() > 0 {
        lemma_filter_sound(s.drop_last(), c);
        let rest = spec_filter(s.drop_last(), c);
        if spec_matches(c, s.last()) {
            assert forall|i: int|
                0 <= i < spec_filter(s, c).len() implies spec_matches(
                c,
                spec_filter(s, c)[i],
            ) by {
                if i < rest.len() {
                    assert(spec_filter(s, c)[i] == rest[i]);
                } else {
                    assert(spec_filter(s, c)[i] == s.last());
                }
            }
        }
    }
}

} // verus!
