//! The orchestration pipeline: resolving → fetching → descrambling →
//! filtering → selecting → transferring → done, with a terminal failure
//! reachable from every stage.
//!
//! The fetch, the descramble and the byte transfer are outside
//! collaborators, so the orchestrator is a step function from state and
//! event to next state and requested action: the caller performs each
//! requested action and hands the outcome back as the next event. The pure
//! stages (resolving, filtering, selecting) are computed inside the step.
//! Transitions are strictly sequential, a single pass per invocation, with
//! no retry; a failure carries the stage it arose in and, once reached,
//! nothing further is attempted.

use vstd::prelude::*;

use crate::errors::{PipelineError, Stage};
use crate::filter::{filter_streams, spec_filter, FilterCriteria};
use crate::identifier::{resolve, spec_resolve, VideoIdentifier};
use crate::path::{download_path, opt_view, spec_download_path, DownloadTarget};
use crate::select::{select, spec_select, SelectionOutcome};
use crate::stream::{Stream, VideoStreamSet};

verus! {

/// The orchestrator's state. Payloads carry what later stages need: the
/// identifier, then the fetched collection, then the filter's survivors
/// together with the pre-filter count that classifies an empty selection.
pub enum State {
    Resolving,
    Fetching(VideoIdentifier),
    Descrambling(VideoIdentifier),
    Filtering(VideoIdentifier, VideoStreamSet),
    Selecting(VideoIdentifier, Vec<Stream>, usize),
    Transferring,
    Done,
    Failed(Stage, PipelineError),
}

/// What the caller reports back into the pipeline: the raw identifier text
/// to start, the outcome of each outside action, and `Advance` to drive the
/// pure stages.
pub enum Event {
    Input(String),
    FetchSucceeded,
    FetchFailed,
    DescrambleSucceeded(VideoStreamSet),
    DescrambleFailed,
    Advance,
    TransferSucceeded,
    TransferFailed,
}

/// What the pipeline asks of its caller next: perform an outside operation,
/// call `step` again with `Advance`, or stop — the pipeline is done or has
/// failed.
pub enum Action {
    Fetch(VideoIdentifier),
    Descramble,
    Transfer(Stream, DownloadTarget),
    Proceed,
    Stop,
}

/// The mathematical image of a `State`: identifiers, collections and paths
/// as their views.
pub enum StateModel {
    Resolving,
    Fetching(Seq<char>),
    Descrambling(Seq<char>),
    Filtering(Seq<char>, Seq<Stream>),
    Selecting(Seq<char>, Seq<Stream>, int),
    Transferring,
    Done,
    Failed(Stage, PipelineError),
}

/// The mathematical image of an `Event`.
pub enum EventModel {
    Input(Seq<char>),
    FetchSucceeded,
    FetchFailed,
    DescrambleSucceeded(Seq<Stream>),
    DescrambleFailed,
    Advance,
    TransferSucceeded,
    TransferFailed,
}

/// The mathematical image of an `Action`.
pub enum ActionModel {
    Fetch(Seq<char>),
    Descramble,
    Transfer(Stream, Seq<char>),
    Proceed,
    Stop,
}

impl View for State {
    type V = StateModel;

    open spec fn view(&self) -> StateModel {
        match self {
            State::Resolving => StateModel::Resolving,
            State::Fetching(id) => StateModel::Fetching(id@),
            State::Descrambling(id) => StateModel::Descrambling(id@),
            State::Filtering(id, set) => StateModel::Filtering(id@, set@),
            State::Selecting(id, cands, n) => StateModel::Selecting(id@, cands@, *n as int),
            State::Transferring => StateModel::Transferring,
            State::Done => StateModel::Done,
            State::Failed(st, e) => StateModel::Failed(*st, *e),
        }
    }
}

impl View for Event {
    type V = EventModel;

    open spec fn view(&self) -> EventModel {
        match self {
            Event::Input(raw) => EventModel::Input(raw@),
            Event::FetchSucceeded => EventModel::FetchSucceeded,
            Event::FetchFailed => EventModel::FetchFailed,
            Event::DescrambleSucceeded(set) => EventModel::DescrambleSucceeded(set@),
            Event::DescrambleFailed => EventModel::DescrambleFailed,
            Event::Advance => EventModel::Advance,
            Event::TransferSucceeded => EventModel::TransferSucceeded,
            Event::TransferFailed => EventModel::TransferFailed,
        }
    }
}

impl View for Action {
    type V = ActionModel;

    open spec fn view(&self) -> ActionModel {
        match self {
            Action::Fetch(id) => ActionModel::Fetch(id@),
            Action::Descramble => ActionModel::Descramble,
            Action::Transfer(s, t) => ActionModel::Transfer(*s, t@),
            Action::Proceed => ActionModel::Proceed,
            Action::Stop => ActionModel::Stop,
        }
    }
}

/// The whole transition relation of the pipeline, as one function from
/// state and event to next state and requested action. An event that does
/// not belong to the current state changes nothing and asks nothing.
pub open spec fn spec_step(
    s: StateModel,
    criteria: FilterCriteria,
    filename: Option<Seq<char>>,
    dir: Option<Seq<char>>,
    ev: EventModel,
) -> (StateModel, ActionModel) {
    match (s, ev) {
        (StateModel::Resolving, EventModel::Input(raw)) => match spec_resolve(raw) {
            Some(id) => (StateModel::Fetching(id), ActionModel::Fetch(id)),
            None => (
                StateModel::Failed(Stage::Resolving, PipelineError::InvalidIdentifier),
                ActionModel::Stop,
            ),
        },
        (StateModel::Fetching(id), EventModel::FetchSucceeded) => (
            StateModel::Descrambling(id),
            ActionModel::Descramble,
        ),
        (StateModel::Fetching(_), EventModel::FetchFailed) => (
            StateModel::Failed(Stage::Fetching, PipelineError::FetchError),
            ActionModel::Stop,
        ),
        (StateModel::Descrambling(id), EventModel::DescrambleSucceeded(streams)) => (
            StateModel::Filtering(id, streams),
            ActionModel::Proceed,
        ),
        (StateModel::Descrambling(_), EventModel::DescrambleFailed) => (
            StateModel::Failed(Stage::Descrambling, PipelineError::DescrambleError),
            ActionModel::Stop,
        ),
        (StateModel::Filtering(id, streams), EventModel::Advance) => (
            StateModel::Selecting(id, spec_filter(streams, criteria), streams.len() as int),
            ActionModel::Proceed,
        ),
        (StateModel::Selecting(id, cands, n), EventModel::Advance) => match spec_select(
            cands,
            criteria.quality_priority@,
            n,
        ) {
            SelectionOutcome::Selected(w) => (
                StateModel::Transferring,
                ActionModel::Transfer(w, spec_download_path(filename, dir, id)),
            ),
            SelectionOutcome::NoStreamsAtAll => (
                StateModel::Failed(Stage::Selecting, PipelineError::NoStreamsAtAll),
                ActionModel::Stop,
            ),
            SelectionOutcome::NoStreamsMatchCriteria => (
                StateModel::Failed(Stage::Selecting, PipelineError::NoStreamsMatchCriteria),
                ActionModel::Stop,
            ),
        },
        (StateModel::Transferring, EventModel::TransferSucceeded) => (
            StateModel::Done,
            ActionModel::Stop,
        ),
        (StateModel::Transferring, EventModel::TransferFailed) => (
            StateModel::Failed(Stage::Transferring, PipelineError::TransferError),
            ActionModel::Stop,
        ),
        _ => (s, ActionModel::Stop),
    }
}

/// `Done` and every `Failed` state are terminal: whatever event arrives, the
/// state stands and nothing further is asked of the caller.
pub proof fn lemma_terminal_states(
    s: StateModel,
    criteria: FilterCriteria,
    filename: Option<Seq<char>>,
    dir: Option<Seq<char>>,
    ev: EventModel,
)
    requires
        s is Done || s is Failed,
    ensures
        spec_step(s, criteria, filename, dir, ev) == (s, ActionModel::Stop),
{
}

/// One invocation of the pipeline: the immutable configuration and the
/// current state.
pub struct Orchestrator {
    pub state: State,
    pub criteria: FilterCriteria,
    pub filename: Option<String>,
    pub dir: Option<String>,
}

/// A copy of an optional string, equal in view.
fn clone_opt(o: &Option<String>) -> (r: Option<String>)
    ensures
        opt_view(r) == opt_view(*o),
{
    match o {
        Some(s) => Some(s.clone()),
        None => None,
    }
}

impl Orchestrator {
    /// A fresh invocation, ready to resolve its input.
    pub fn new(criteria: FilterCriteria, filename: Option<String>, dir: Option<String>) -> (r:
        Orchestrator)
        ensures
            r.state@ == StateModel::Resolving,
            r.criteria == criteria,
            r.filename == filename,
            r.dir == dir,
    {
        Orchestrator { state: State::Resolving, criteria, filename, dir }
    }

    /// Performs one transition: consumes the current state and the event,
    /// yields the successor and the action the caller must perform next.
    /// The configuration is carried through unchanged.
    pub fn step(self, ev: Event) -> (r: (Orchestrator, Action))
        ensures
            (r.0.state@, r.1@) == spec_step(
                self.state@,
                self.criteria,
                opt_view(self.filename),
                opt_view(self.dir),
                ev@,
            ),
            r.0.criteria == self.criteria,
            r.0.filename == self.filename,
            r.0.dir == self.dir,
    {
        let Orchestrator { state, criteria, filename, dir } = self;
        match (state, ev) {
            (State::Resolving, Event::Input(raw)) => match resolve(raw.as_str()) {
                Ok(id) => {
                    let requested = id.duplicate();
                    (
                        Orchestrator { state: State::Fetching(id), criteria, filename, dir },
                        Action::Fetch(requested),
                    )
                },
                Err(_) => (
                    Orchestrator {
                        state: State::Failed(Stage::Resolving, PipelineError::InvalidIdentifier),
                        criteria,
                        filename,
                        dir,
                    },
                    Action::Stop,
                ),
            },
            (State::Fetching(id), Event::FetchSucceeded) => (
                Orchestrator { state: State::Descrambling(id), criteria, filename, dir },
                Action::Descramble,
            ),
            (State::Fetching(_), Event::FetchFailed) => (
                Orchestrator {
                    state: State::Failed(Stage::Fetching, PipelineError::FetchError),
                    criteria,
                    filename,
                    dir,
                },
                Action::Stop,
            ),
            (State::Descrambling(id), Event::DescrambleSucceeded(streams)) => (
                Orchestrator { state: State::Filtering(id, streams), criteria, filename, dir },
                Action::Proceed,
            ),
            (State::Descrambling(_), Event::DescrambleFailed) => (
                Orchestrator {
                    state: State::Failed(Stage::Descrambling, PipelineError::DescrambleError),
                    criteria,
                    filename,
                    dir,
                },
                Action::Stop,
            ),
            (State::Filtering(id, streams), Event::Advance) => {
                let cands = filter_streams(&streams, &criteria);
                let count = streams.len();
                (
                    Orchestrator {
                        state: State::Selecting(id, cands, count),
                        criteria,
                        filename,
                        dir,
                    },
                    Action::Proceed,
                )
            },
            (State::Selecting(id, cands, count), Event::Advance) => {
                match select(&cands, &criteria, count) {
                    SelectionOutcome::Selected(w) => {
                        let target = download_path(clone_opt(&filename), clone_opt(&dir), &id);
                        (
                            Orchestrator { state: State::Transferring, criteria, filename, dir },
                            Action::Transfer(w, target),
                        )
                    },
                    SelectionOutcome::NoStreamsAtAll => (
                        Orchestrator {
                            state: State::Failed(Stage::Selecting, PipelineError::NoStreamsAtAll),
                            criteria,
                            filename,
                            dir,
                        },
                        Action::Stop,
                    ),
                    SelectionOutcome::NoStreamsMatchCriteria => (
                        Orchestrator {
                            state: State::Failed(
                                Stage::Selecting,
                                PipelineError::NoStreamsMatchCriteria,
                            ),
                            criteria,
                            filename,
                            dir,
                        },
                        Action::Stop,
                    ),
                }
            },
            (State::Transferring, Event::TransferSucceeded) => (
                Orchestrator { state: State::Done, criteria, filename, dir },
                Action::Stop,
            ),
            (State::Transferring, Event::TransferFailed) => (
                Orchestrator {
                    state: State::Failed(Stage::Transferring, PipelineError::TransferError),
                    criteria,
                    filename,
                    dir,
                },
                Action::Stop,
            ),
            (other, _) => (
                Orchestrator { state: other, criteria, filename, dir },
                Action::Stop,
            ),
        }
    }
}

} // verus!
