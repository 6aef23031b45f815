//! The data model of downloadable renditions.
//!
//! A `Stream` describes one rendition of a video: its container format,
//! which tracks it carries, its quality tier, an approximate bitrate when
//! known, and a transport reference that only the transfer service
//! interprets. A `VideoStreamSet` is the ordered collection of renditions
//! one metadata fetch produced; the core iterates and filters it but never
//! mutates it.

use vstd::prelude::*;

verus! {

/// The container format of a rendition.
#[derive(Clone, Copy, Debug, PartialEq, Eq, Structural)]
pub enum Container {
    Mp4,
    Webm,
    ThreeGp,
    Avi,
}

/// The quality tier of a rendition, by vertical resolution, lowest first.
#[derive(Clone, Copy, Debug, PartialEq, Eq, Structural)]
pub enum QualityLabel {
    P144,
    P240,
    P360,
    P480,
    P720,
    P1080,
    P1440,
    P2160,
}

/// The position of a quality tier in the natural order: higher is better.
pub open spec fn quality_rank(q: QualityLabel) -> int {
    match q {
        QualityLabel::P144 => 0,
        QualityLabel::P240 => 1,
        QualityLabel::P360 => 2,
        QualityLabel::P480 => 3,
        QualityLabel::P720 => 4,
        QualityLabel::P1080 => 5,
        QualityLabel::P1440 => 6,
        QualityLabel::P2160 => 7,
    }
}

/// The preference rank of a container when containers break a tie: mp4 is
/// preferred over webm, webm over 3gp, and avi comes last.
pub open spec fn container_rank(c: Container) -> int {
    match c {
        Container::Mp4 => 3,
        Container::Webm => 2,
        Container::ThreeGp => 1,
        Container::Avi => 0,
    }
}

/// `quality_rank`, executable.
pub fn quality_rank_of(q: QualityLabel) -> (r: u8)
    ensures
        r as int == quality_rank(q),
{
    match q {
        QualityLabel::P144 => 0,
        QualityLabel::P240 => 1,
        QualityLabel::P360 => 2,
        QualityLabel::P480 => 3,
        QualityLabel::P720 => 4,
        QualityLabel::P1080 => 5,
        QualityLabel::P1440 => 6,
        QualityLabel::P2160 => 7,
    }
}

/// `container_rank`, executable.
pub fn container_rank_of(c: Container) -> (r: u8)
    ensures
        r as int == container_rank(c),
{
    match c {
        Container::Mp4 => 3,
        Container::Webm => 2,
        Container::ThreeGp => 1,
        Container::Avi => 0,
    }
}

/// One downloadable rendition. Immutable once produced by a metadata fetch.
/// `transport` is the reference the transfer service uses to reach the bytes
/// (the rendition's position in the fetched set); the core never interprets
/// it.
#[derive(Clone, Copy, Debug)]
pub struct Stream {
    pub container: Container,
    pub has_video: bool,
    pub has_audio: bool,
    pub quality: QualityLabel,
    pub bitrate: Option<u64>,
    pub transport: usize,
}

/// The ordered collection of renditions belonging to one video.
pub struct VideoStreamSet {
    streams: Vec<Stream>,
}

impl View for VideoStreamSet {
    type V = Seq<Stream>;

    closed spec fn view(&self) -> Seq<Stream> {
        self.streams@
    }
}

impl VideoStreamSet {
    /// An empty collection, ready to be filled by a metadata fetch.
    pub fn new() -> (r: VideoStreamSet)
        ensures
            r@ == Seq::<Stream>::empty(),
    {
        VideoStreamSet { streams: Vec::new() }
    }

    /// Appends one rendition at the end, keeping the order of the fetch.
    pub fn push(&mut self, s: Stream)
        ensures
            final(self)@ == old(self)@.push(s),
    {
        self.streams.push(s);
    }

    /// How many renditions the collection holds.
    pub fn len(&self) -> (r: usize)
        ensures
            r == self@.len(),
    {
        self.streams.len()
    }

    /// Whether the collection holds no rendition at all.
    pub fn is_empty(&self) -> (r: bool)
        ensures
            r == (self@.len() == 0),
    {
        self.streams.len() == 0
    }

    /// The rendition at position `i`.
    pub fn get(&self, i: usize) -> (r: &Stream)
        requires
            i < self@.len(),
        ensures
            *r == self@[i as int],
    {
        &self.streams[i]
    }
}

} // verus!
