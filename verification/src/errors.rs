use vstd::prelude::*;

verus! {

/// The pipeline stage in which a failure arose. Failures carry their stage so
/// a caller can tell, for example, a metadata fetch that never answered from a
/// filter that eliminated every rendition.
#[derive(Clone, Copy, Debug, PartialEq, Eq, Structural)]
pub enum Stage {
    Resolving,
    Fetching,
    Descrambling,
    Filtering,
    Selecting,
    Transferring,
}

/// Every failure the pipeline can report. Each is terminal for the current
/// invocation; none is retried by the core.
///
/// `NoStreamsAtAll` (the video offers nothing downloadable) and
/// `NoStreamsMatchCriteria` (the filter eliminated every rendition) are kept
/// distinct end to end: collapsing them would lose diagnostic value.
#[derive(Clone, Copy, Debug, PartialEq, Eq, Structural)]
pub enum PipelineError {
    InvalidIdentifier,
    FetchError,
    DescrambleError,
    NoStreamsAtAll,
    NoStreamsMatchCriteria,
    TransferError,
}

} // verus!
