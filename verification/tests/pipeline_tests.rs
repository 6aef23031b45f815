use tubedl::errors::{PipelineError, Stage};
use tubedl::filter::{default_priority_list, filter_streams, FilterCriteria};
use tubedl::orchestrator::{Action, Event, Orchestrator, State};
use tubedl::select::{select, SelectionOutcome};
use tubedl::stream::{Container, QualityLabel, Stream, VideoStreamSet};

const ID: &str = "dQw4w9WgXcQ";

fn scenario_set() -> VideoStreamSet {
    let mut set = VideoStreamSet::new();
    set.push(Stream {
        container: Container::Mp4,
        has_video: true,
        has_audio: false,
        quality: QualityLabel::P720,
        bitrate: Some(1_500_000),
        transport: 0,
    });
    set.push(Stream {
        container: Container::Webm,
        has_video: true,
        has_audio: true,
        quality: QualityLabel::P1080,
        bitrate: Some(2_500_000),
        transport: 1,
    });
    set.push(Stream {
        container: Container::Mp4,
        has_video: true,
        has_audio: true,
        quality: QualityLabel::P480,
        bitrate: Some(900_000),
        transport: 2,
    });
    set
}

fn criteria(container: Option<Container>, requires_video: bool, requires_audio: bool) -> FilterCriteria {
    FilterCriteria {
        container,
        requires_video,
        requires_audio,
        min_quality: None,
        quality_priority: default_priority_list(),
    }
}

#[test]
fn strict_filter_leaves_exactly_the_480p_stream() {
    let set = scenario_set();
    let c = criteria(Some(Container::Mp4), true, true);
    let survivors = filter_streams(&set, &c);
    assert_eq!(survivors.len(), 1);
    assert_eq!(survivors[0].transport, 2);
    match select(&survivors, &c, set.len()) {
        SelectionOutcome::Selected(w) => {
            assert_eq!(w.transport, 2);
            assert!(matches!(w.quality, QualityLabel::P480));
            assert!(matches!(w.container, Container::Mp4));
        },
        _ => panic!("one candidate must be selected"),
    }
}

#[test]
fn avi_filter_eliminates_everything() {
    let set = scenario_set();
    let c = criteria(Some(Container::Avi), false, false);
    let survivors = filter_streams(&set, &c);
    assert_eq!(survivors.len(), 0);
    assert!(matches!(
        select(&survivors, &c, set.len()),
        SelectionOutcome::NoStreamsMatchCriteria
    ));
}

#[test]
fn full_run_downloads_the_480p_stream() {
    let orch = Orchestrator::new(criteria(Some(Container::Mp4), true, true), None, None);
    let (orch, act) = orch.step(Event::Input(ID.to_string()));
    match &act {
        Action::Fetch(id) => assert_eq!(id.as_str(), ID),
        _ => panic!("resolving a valid identifier must request the fetch"),
    }
    let (orch, act) = orch.step(Event::FetchSucceeded);
    assert!(matches!(act, Action::Descramble));
    let (orch, act) = orch.step(Event::DescrambleSucceeded(scenario_set()));
    assert!(matches!(act, Action::Proceed));
    let (orch, act) = orch.step(Event::Advance);
    assert!(matches!(act, Action::Proceed));
    let (orch, act) = orch.step(Event::Advance);
    match &act {
        Action::Transfer(w, target) => {
            assert_eq!(w.transport, 2);
            assert!(matches!(w.quality, QualityLabel::P480));
            assert_eq!(target.as_str(), "dQw4w9WgXcQ.mp4");
        },
        _ => panic!("a winning stream must be handed to the transfer service"),
    }
    let (orch, act) = orch.step(Event::TransferSucceeded);
    assert!(matches!(act, Action::Stop));
    assert!(matches!(orch.state, State::Done));
}

#[test]
fn full_run_with_avi_filter_fails_in_selection() {
    let orch = Orchestrator::new(criteria(Some(Container::Avi), false, false), None, None);
    let (orch, _) = orch.step(Event::Input(ID.to_string()));
    let (orch, _) = orch.step(Event::FetchSucceeded);
    let (orch, _) = orch.step(Event::DescrambleSucceeded(scenario_set()));
    let (orch, _) = orch.step(Event::Advance);
    let (orch, act) = orch.step(Event::Advance);
    assert!(matches!(act, Action::Stop));
    assert!(matches!(
        orch.state,
        State::Failed(Stage::Selecting, PipelineError::NoStreamsMatchCriteria)
    ));
}

#[test]
fn invalid_identifier_fails_while_resolving() {
    let orch = Orchestrator::new(FilterCriteria::any(), None, None);
    let (orch, act) = orch.step(Event::Input("not a video".to_string()));
    assert!(matches!(act, Action::Stop));
    assert!(matches!(
        orch.state,
        State::Failed(Stage::Resolving, PipelineError::InvalidIdentifier)
    ));
}

#[test]
fn fetch_failure_is_reported_with_its_stage() {
    let orch = Orchestrator::new(FilterCriteria::any(), None, None);
    let (orch, _) = orch.step(Event::Input(ID.to_string()));
    let (orch, act) = orch.step(Event::FetchFailed);
    assert!(matches!(act, Action::Stop));
    assert!(matches!(orch.state, State::Failed(Stage::Fetching, PipelineError::FetchError)));
}

#[test]
fn descramble_failure_is_reported_with_its_stage() {
    let orch = Orchestrator::new(FilterCriteria::any(), None, None);
    let (orch, _) = orch.step(Event::Input(ID.to_string()));
    let (orch, _) = orch.step(Event::FetchSucceeded);
    let (orch, act) = orch.step(Event::DescrambleFailed);
    assert!(matches!(act, Action::Stop));
    assert!(matches!(
        orch.state,
        State::Failed(Stage::Descrambling, PipelineError::DescrambleError)
    ));
}

#[test]
fn transfer_failure_is_reported_with_its_stage() {
    let orch = Orchestrator::new(FilterCriteria::any(), None, None);
    let (orch, _) = orch.step(Event::Input(ID.to_string()));
    let (orch, _) = orch.step(Event::FetchSucceeded);
    let (orch, _) = orch.step(Event::DescrambleSucceeded(scenario_set()));
    let (orch, _) = orch.step(Event::Advance);
    let (orch, _) = orch.step(Event::Advance);
    let (orch, act) = orch.step(Event::TransferFailed);
    assert!(matches!(act, Action::Stop));
    assert!(matches!(
        orch.state,
        State::Failed(Stage::Transferring, PipelineError::TransferError)
    ));
}

#[test]
fn empty_stream_set_fails_as_no_streams_at_all() {
    let orch = Orchestrator::new(FilterCriteria::any(), None, None);
    let (orch, _) = orch.step(Event::Input(ID.to_string()));
    let (orch, _) = orch.step(Event::FetchSucceeded);
    let (orch, _) = orch.step(Event::DescrambleSucceeded(VideoStreamSet::new()));
    let (orch, _) = orch.step(Event::Advance);
    let (orch, act) = orch.step(Event::Advance);
    assert!(matches!(act, Action::Stop));
    assert!(matches!(
        orch.state,
        State::Failed(Stage::Selecting, PipelineError::NoStreamsAtAll)
    ));
}

#[test]
fn failure_is_terminal() {
    let orch = Orchestrator::new(FilterCriteria::any(), None, None);
    let (orch, _) = orch.step(Event::Input("bad".to_string()));
    let (orch, act) = orch.step(Event::Advance);
    assert!(matches!(act, Action::Stop));
    assert!(matches!(
        orch.state,
        State::Failed(Stage::Resolving, PipelineError::InvalidIdentifier)
    ));
}

#[test]
fn done_is_terminal() {
    let orch = Orchestrator::new(FilterCriteria::any(), None, None);
    let (orch, _) = orch.step(Event::Input(ID.to_string()));
    let (orch, _) = orch.step(Event::FetchSucceeded);
    let (orch, _) = orch.step(Event::DescrambleSucceeded(scenario_set()));
    let (orch, _) = orch.step(Event::Advance);
    let (orch, _) = orch.step(Event::Advance);
    let (orch, _) = orch.step(Event::TransferSucceeded);
    let (orch, act) = orch.step(Event::Advance);
    assert!(matches!(act, Action::Stop));
    assert!(matches!(orch.state, State::Done));
}

#[test]
fn explicit_overrides_shape_the_transfer_target() {
    let orch = Orchestrator::new(
        FilterCriteria::any(),
        Some("clip.mp4".to_string()),
        Some("/tmp".to_string()),
    );
    let (orch, _) = orch.step(Event::Input(ID.to_string()));
    let (orch, _) = orch.step(Event::FetchSucceeded);
    let (orch, _) = orch.step(Event::DescrambleSucceeded(scenario_set()));
    let (orch, _) = orch.step(Event::Advance);
    let (_orch, act) = orch.step(Event::Advance);
    match &act {
        Action::Transfer(w, target) => {
            assert_eq!(w.transport, 1);
            assert_eq!(target.as_str(), "/tmp/clip.mp4");
        },
        _ => panic!("a winning stream must be handed to the transfer service"),
    }
}
