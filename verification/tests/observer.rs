use regolith_displayd::collector::{normalize_scale, SnapshotCollector, SnapshotStateError};
use regolith_displayd::monitor::Monitor;
use regolith_displayd::scale::Scale;
use regolith_displayd::wayland_observer::{
    publish_pending_results, HeadEvent, ManagerEvent, ModeEvent, ObserverState,
    OutputHeadSnapshot, OutputSnapshot, PublishStatus, PublishStep, WaylandObserverError,
    WaylandOutputObserver,
};
use std::sync::mpsc;

fn scale(value: f64) -> Scale {
    Scale::new(value.to_bits(), &value.to_string())
}

fn rounded(value: f64) -> Scale {
    scale((value * 10_000.0).round() / 10_000.0)
}

fn normalized(value: f64) -> Result<Scale, SnapshotStateError> {
    normalize_scale(scale(value), rounded(value))
}

fn first_head_snapshot(name: &str) -> OutputHeadSnapshot {
    OutputHeadSnapshot {
        name: name.to_string(),
        description: None,
        enabled: false,
        position: None,
        transform: None,
        scale: None,
        current_mode: None,
        modes: Vec::new(),
    }
}

#[test]
fn normalizes_scale_without_losing_fractional_values() {
    assert_eq!(normalized(1.24999999).unwrap(), scale(1.25));
    assert_eq!(normalized(2.0).unwrap(), scale(2.0));
    assert!(normalized(f64::NAN).is_err());
    assert!(normalized(0.0).is_err());
}

#[test]
fn unusable_scales_are_refused() {
    for value in [-1.0, -0.0, f64::INFINITY, f64::NEG_INFINITY, 0.00001] {
        assert!(matches!(
            normalized(value),
            Err(SnapshotStateError::InvalidScale(told)) if told.bits == value.to_bits()
        ));
    }
    assert_eq!(normalized(0.0001).unwrap(), scale(0.0001));
}

#[test]
fn publishes_heads_in_stable_name_order() {
    let mut collector = SnapshotCollector::default();
    collector.note_head(2);
    collector.set_head_name(2, "HDMI-A-1".to_string()).unwrap();
    collector.note_head(1);
    collector.set_head_name(1, "DP-1".to_string()).unwrap();

    collector.publish_done(9).unwrap();
    let snapshot = collector.take_publication().unwrap();
    let names = snapshot
        .heads
        .into_iter()
        .map(|head| head.name)
        .collect::<Vec<_>>();

    assert_eq!(names, vec!["DP-1".to_string(), "HDMI-A-1".to_string()]);
}

#[test]
fn selects_current_mode_before_preferred_fallback() {
    let mut collector = SnapshotCollector::default();
    collector.note_head(7);
    collector.set_head_name(7, "DP-2".to_string()).unwrap();
    collector.set_head_enabled(7, true).unwrap();

    collector.note_mode(7, 10).unwrap();
    collector.set_mode_size(10, 1920, 1080).unwrap();
    collector.set_mode_refresh(10, 60_000).unwrap();
    collector.set_mode_preferred(10).unwrap();

    collector.note_mode(7, 11).unwrap();
    collector.set_mode_size(11, 2560, 1440).unwrap();
    collector.set_mode_refresh(11, 144_000).unwrap();
    collector.set_head_current_mode(7, 11).unwrap();

    collector.publish_done(10).unwrap();
    let snapshot = collector.take_publication().unwrap();
    let head = &snapshot.heads[0];

    assert_eq!(head.current_mode.as_ref().unwrap().width, 2560);
    assert!(head.current_mode.as_ref().unwrap().current);
    assert!(head.modes.iter().any(|mode| mode.preferred));
    assert_eq!(head.modes.iter().filter(|mode| mode.current).count(), 1);
}

#[test]
fn publishes_only_when_done_arrives() {
    let mut collector = SnapshotCollector::default();
    collector.note_head(1);
    collector.set_head_name(1, "eDP-1".to_string()).unwrap();
    assert_eq!(collector.pending_publications(), 0);

    collector.note_mode(1, 20).unwrap();
    collector.set_mode_size(20, 2256, 1504).unwrap();
    assert_eq!(collector.pending_publications(), 0);

    collector.publish_done(1).unwrap();
    assert_eq!(collector.pending_publications(), 1);

    collector
        .set_head_description(1, "Internal display".to_string())
        .unwrap();
    assert_eq!(collector.pending_publications(), 1);

    collector.publish_done(2).unwrap();
    assert_eq!(collector.pending_publications(), 2);
}

#[test]
fn preserves_repeated_done_publications_in_order() {
    let mut collector = SnapshotCollector::default();
    collector.note_head(1);
    collector.set_head_name(1, "eDP-1".to_string()).unwrap();

    collector.publish_done(5).unwrap();
    collector
        .set_head_description(1, "Internal display".to_string())
        .unwrap();
    collector.publish_done(6).unwrap();

    let first = collector.take_publication().unwrap();
    let second = collector.take_publication().unwrap();

    assert_eq!(first.serial, 5);
    assert_eq!(first.heads[0].description, None);
    assert_eq!(second.serial, 6);
    assert_eq!(
        second.heads[0].description.as_deref(),
        Some("Internal display")
    );
}

#[test]
fn publication_helper_drains_snapshots_before_terminal_error() {
    let mut state: ObserverState<(), ()> = ObserverState::default();
    state.collector.note_head(1);
    state
        .collector
        .set_head_name(1, "eDP-1".to_string())
        .unwrap();
    state.collector.publish_done(5).unwrap();
    state.collector.publish_done(6).unwrap();
    state.store_terminal(WaylandObserverError::ManagerFinished);

    let (mut tx, rx) = mpsc::channel();
    let status = publish_pending_results(&mut state, &mut tx);
    let published = rx.try_iter().collect::<Vec<_>>();

    assert_eq!(status, PublishStatus::Stop);
    assert_eq!(published.len(), 3);
    assert_eq!(
        published[0],
        Ok(OutputSnapshot {
            serial: 5,
            heads: vec![first_head_snapshot("eDP-1")],
        })
    );
    assert_eq!(
        published[1],
        Ok(OutputSnapshot {
            serial: 6,
            heads: vec![first_head_snapshot("eDP-1")],
        })
    );
    assert_eq!(published[2], Err(WaylandObserverError::ManagerFinished));
}

#[test]
fn publication_helper_stops_when_receiver_is_dropped() {
    let mut state: ObserverState<(), ()> = ObserverState::default();
    state.collector.note_head(3);
    state
        .collector
        .set_head_name(3, "HDMI-A-1".to_string())
        .unwrap();
    state.collector.publish_done(9).unwrap();

    let (mut tx, rx) = mpsc::channel();
    drop(rx);

    assert_eq!(
        publish_pending_results(&mut state, &mut tx),
        PublishStatus::Stop
    );
}

#[test]
fn publication_helper_continues_while_the_observation_lasts() {
    let mut state: ObserverState<(), ()> = ObserverState::new();
    let (mut tx, rx) = mpsc::channel();
    assert_eq!(
        publish_pending_results(&mut state, &mut tx),
        PublishStatus::Continue
    );

    state.handle_manager_event(ManagerEvent::Done { serial: 4 });
    assert!(!publish_pending_results(&mut state, &mut tx).should_stop());
    assert_eq!(
        rx.try_iter().collect::<Vec<_>>(),
        vec![Ok(OutputSnapshot {
            serial: 4,
            heads: Vec::new(),
        })]
    );
}

#[test]
fn first_failure_counts() {
    let mut state: ObserverState<(), ()> = ObserverState::new();
    state.note_dispatch(Ok(()));
    assert!(!state.terminal_drained());
    state.note_dispatch(Err("broken pipe".to_string()));
    state.handle_manager_event(ManagerEvent::Finished);

    assert!(matches!(
        state.publish_step(true),
        PublishStep::Send(Err(WaylandObserverError::DispatchFailed(message)))
            if message == "broken pipe"
    ));
    assert!(state.terminal_drained());
    assert!(matches!(
        state.publish_step(true),
        PublishStep::Finish(PublishStatus::Stop)
    ));
    state.handle_manager_event(ManagerEvent::Finished);
    assert!(state.take_next_result().is_none());
}

#[test]
fn unnamed_heads_are_named_by_their_id() {
    let mut collector = SnapshotCollector::new();
    collector.note_head(12);
    collector.note_head(5);
    collector.set_head_name(5, "head-12".to_string()).unwrap();
    collector.publish_done(0).unwrap();

    let heads = collector.take_publication().unwrap().heads;
    assert_eq!(heads[0].name, "head-12");
    assert_eq!(heads[1].name, "head-12");
    assert!(collector.take_publication().is_none());
}

#[test]
fn modes_are_listed_in_order() {
    let mut collector = SnapshotCollector::new();
    collector.note_head(1);
    let sizes = [
        (1, Some((1920, 1080)), Some(60_000), true),
        (2, Some((1920, 1080)), Some(60_000), false),
        (3, Some((1920, 1080)), None, false),
        (4, Some((1280, 1024)), Some(75_000), false),
        (5, None, None, false),
        (6, Some((1280, 720)), Some(60_000), false),
    ];
    for (id, size, refresh, preferred) in sizes {
        collector.note_mode(1, id).unwrap();
        if let Some((width, height)) = size {
            collector.set_mode_size(id, width, height).unwrap();
        }
        if let Some(refresh) = refresh {
            collector.set_mode_refresh(id, refresh).unwrap();
        }
        if preferred {
            collector.set_mode_preferred(id).unwrap();
        }
    }
    collector.publish_done(1).unwrap();

    let head = collector.take_publication().unwrap().heads.remove(0);
    let listed: Vec<_> = head
        .modes
        .iter()
        .map(|mode| (mode.width, mode.height, mode.refresh_mhz, mode.preferred))
        .collect();
    assert_eq!(
        listed,
        vec![
            (0, 0, None, false),
            (1280, 720, Some(60_000), false),
            (1280, 1024, Some(75_000), false),
            (1920, 1080, None, false),
            (1920, 1080, Some(60_000), false),
            (1920, 1080, Some(60_000), true),
        ]
    );
    assert_eq!(head.current_mode, Some(head.modes[5]));
    assert!(head.modes[5].current);
}

#[test]
fn unknown_ids_are_refused() {
    let mut collector = SnapshotCollector::new();
    assert_eq!(
        collector.set_head_position(3, 0, 0),
        Err(SnapshotStateError::UnknownHead(3))
    );
    assert_eq!(
        collector.set_head_transform(3, 0),
        Err(SnapshotStateError::UnknownHead(3))
    );
    assert_eq!(
        collector.note_mode(3, 4),
        Err(SnapshotStateError::UnknownHead(3))
    );
    assert_eq!(
        collector.finish_head(3),
        Err(SnapshotStateError::UnknownHead(3))
    );
    assert_eq!(
        collector.set_mode_preferred(4),
        Err(SnapshotStateError::UnknownMode(4))
    );
    assert_eq!(
        collector.finish_mode(4),
        Err(SnapshotStateError::UnknownMode(4))
    );
    assert!(matches!(
        collector.set_head_scale(3, scale(-1.0), scale(-1.0)),
        Err(SnapshotStateError::InvalidScale(_))
    ));
    assert_eq!(
        collector.set_head_scale(3, scale(1.0), scale(1.0)),
        Err(SnapshotStateError::UnknownHead(3))
    );
}

#[test]
fn finished_heads_and_modes_are_forgotten() {
    let mut collector = SnapshotCollector::new();
    collector.note_head(1);
    collector.note_mode(1, 10).unwrap();
    collector.note_mode(1, 11).unwrap();
    collector.set_head_current_mode(1, 10).unwrap();
    collector.finish_mode(10).unwrap();
    assert_eq!(
        collector.set_mode_size(10, 1, 1),
        Err(SnapshotStateError::UnknownMode(10))
    );
    collector.publish_done(1).unwrap();
    collector.finish_head(1).unwrap();
    assert_eq!(
        collector.set_mode_size(11, 1, 1),
        Err(SnapshotStateError::UnknownMode(11))
    );
    collector.publish_done(2).unwrap();

    let first = collector.take_publication().unwrap();
    assert_eq!(first.heads[0].modes.len(), 1);
    assert_eq!(first.heads[0].current_mode, None);
    assert!(collector.take_publication().unwrap().heads.is_empty());
}

#[test]
fn disabled_heads_lose_their_layout() {
    let mut collector = SnapshotCollector::new();
    collector.note_head(1);
    collector.set_head_enabled(1, true).unwrap();
    collector.set_head_position(1, 5, 6).unwrap();
    collector.set_head_transform(1, 2).unwrap();
    collector.set_head_scale(1, scale(1.5), rounded(1.5)).unwrap();
    collector.publish_done(1).unwrap();
    collector.set_head_enabled(1, false).unwrap();
    collector.publish_done(2).unwrap();

    let on = collector.take_publication().unwrap().heads.remove(0);
    assert!(on.enabled);
    assert_eq!(on.position, Some((5, 6)));
    assert_eq!(on.transform, Some(2));
    assert_eq!(on.scale, Some(scale(1.5)));
    let off = collector.take_publication().unwrap().heads.remove(0);
    assert_eq!(off, first_head_snapshot("head-1"));
}

#[test]
fn events_build_a_snapshot_and_keep_handles() {
    let mut state: ObserverState<&str, &str> = ObserverState::new();
    state.handle_manager_event(ManagerEvent::Head {
        head_id: 1,
        head: "head",
    });
    state.handle_head_event(
        1,
        HeadEvent::Name {
            name: "DP-1".to_string(),
        },
    );
    state.handle_head_event(
        1,
        HeadEvent::Description {
            description: "Desk".to_string(),
        },
    );
    state.handle_head_event(1, HeadEvent::Enabled { enabled: 2 });
    state.handle_head_event(1, HeadEvent::Position { x: 1, y: 2 });
    state.handle_head_event(1, HeadEvent::Transform { transform: 3 });
    state.handle_head_event(
        1,
        HeadEvent::Scale {
            scale: scale(1.5),
            rounded: rounded(1.5),
        },
    );
    state.handle_head_event(
        1,
        HeadEvent::Mode {
            mode_id: 10,
            mode: "mode",
        },
    );
    state.handle_head_event(1, HeadEvent::CurrentMode { mode_id: 10 });
    state.handle_mode_event(
        10,
        ModeEvent::Size {
            width: 800,
            height: 600,
        },
    );
    state.handle_mode_event(10, ModeEvent::Refresh { refresh: 60_000 });
    state.handle_mode_event(10, ModeEvent::Preferred);
    state.handle_mode_event(10, ModeEvent::Other);
    state.handle_manager_event(ManagerEvent::Done { serial: 8 });

    assert_eq!(state.handles.head(1), Some(&"head"));
    assert_eq!(state.handles.mode(1, 10), Some(&"mode"));
    assert_eq!(state.handles.mode(2, 10), None);
    let snapshot = state.take_next_result().unwrap().unwrap();
    assert_eq!(snapshot.serial, 8);
    let head = &snapshot.heads[0];
    assert_eq!(head.name, "DP-1");
    assert_eq!(head.description.as_deref(), Some("Desk"));
    assert!(head.enabled);
    assert_eq!(head.position, Some((1, 2)));
    assert_eq!(head.transform, Some(3));
    assert_eq!(head.scale, Some(scale(1.5)));
    assert_eq!(head.current_mode, Some(head.modes[0]));

    state.handle_mode_event(10, ModeEvent::Finished);
    assert_eq!(state.handles.mode(1, 10), None);
    state.handle_head_event(
        1,
        HeadEvent::Mode {
            mode_id: 11,
            mode: "other",
        },
    );
    state.handle_head_event(1, HeadEvent::Finished);
    assert_eq!(state.handles.head(1), None);
    assert_eq!(state.handles.mode(1, 11), None);
    assert!(!state.terminal_reached);
}

#[test]
fn refused_event_ends_the_observation() {
    let mut state: ObserverState<(), ()> = ObserverState::new();
    state.handle_mode_event(6, ModeEvent::Preferred);
    assert_eq!(
        state.take_next_result(),
        Some(Err(WaylandObserverError::StateViolation(
            "unknown mode id 6".to_string()
        )))
    );

    let mut state: ObserverState<(), ()> = ObserverState::new();
    state.handle_head_event(
        6,
        HeadEvent::Scale {
            scale: scale(-1.5),
            rounded: rounded(-1.5),
        },
    );
    assert_eq!(
        state.take_next_result(),
        Some(Err(WaylandObserverError::StateViolation(
            "invalid scale value -1.5".to_string()
        )))
    );
    assert_eq!(
        SnapshotStateError::UnknownHead(7).message(),
        "unknown head id 7"
    );
}

#[test]
fn failures_are_told_in_words() {
    let message = || "m".to_string();
    let failures = [
        (
            WaylandObserverError::ConnectionFailed(message()),
            "Wayland connection failed: m",
        ),
        (
            WaylandObserverError::GlobalDiscoveryFailed(message()),
            "Wayland global discovery failed: m",
        ),
        (
            WaylandObserverError::UnsupportedGlobal { name: "g" },
            "Required Wayland global is unavailable: g",
        ),
        (
            WaylandObserverError::DispatchFailed(message()),
            "Wayland dispatch failed: m",
        ),
        (
            WaylandObserverError::ThreadSpawnFailed(message()),
            "Wayland observer thread spawn failed: m",
        ),
        (
            WaylandObserverError::ManagerFinished,
            "Wayland output manager finished observation",
        ),
        (
            WaylandObserverError::StateViolation(message()),
            "Wayland observer state violation: m",
        ),
    ];
    for (failure, text) in failures {
        assert_eq!(failure.message(), text);
        assert_eq!(failure.clone(), failure);
    }
}

#[test]
fn startup_reports_what_the_thread_reports() {
    assert_eq!(WaylandOutputObserver::startup_outcome(Ok(Ok(()))), Ok(()));
    assert_eq!(
        WaylandOutputObserver::startup_outcome(Ok(Err(WaylandObserverError::ManagerFinished))),
        Err(WaylandObserverError::ManagerFinished)
    );
    assert_eq!(
        WaylandOutputObserver::startup_outcome(Err("gone".to_string())),
        Err(WaylandObserverError::DispatchFailed(
            "observer startup channel closed unexpectedly: gone".to_string()
        ))
    );
}

#[test]
fn announcing_twice_is_announcing_once() {
    let mut collector = SnapshotCollector::new();
    collector.note_head(1);
    collector.set_head_name(1, "DP-1".to_string()).unwrap();
    collector.note_mode(1, 10).unwrap();
    collector.set_mode_refresh(10, 60_000).unwrap();
    collector.note_head(1);
    collector.note_mode(1, 10).unwrap();
    collector.publish_done(1).unwrap();

    let heads = collector.take_publication().unwrap().heads;
    assert_eq!(heads.len(), 1);
    assert_eq!(heads[0].name, "DP-1");
    assert_eq!(heads[0].modes.len(), 1);
    assert_eq!(heads[0].modes[0].refresh_mhz, Some(60_000));
}

#[test]
fn published_selection_reaches_the_monitor() {
    let mut collector = SnapshotCollector::new();
    collector.note_head(1);
    for (id, width) in [(10, 1920), (11, 2560)] {
        collector.note_mode(1, id).unwrap();
        collector.set_mode_size(id, width, 1440).unwrap();
        collector.set_mode_refresh(id, 59_951).unwrap();
    }
    collector.set_mode_preferred(10).unwrap();
    collector.publish_done(1).unwrap();
    collector.set_head_current_mode(1, 11).unwrap();
    collector.publish_done(2).unwrap();

    let preferred = collector.take_publication().unwrap();
    assert_eq!(
        Monitor::from_snapshot(&preferred.heads[0]).get_current_mode(),
        "1920x1440@59.951Hz"
    );
    let selected = collector.take_publication().unwrap();
    assert_eq!(
        Monitor::from_snapshot(&selected.heads[0]).get_current_mode(),
        "2560x1440@59.951Hz"
    );
}

#[test]
fn lost_result_is_the_last_one_taken() {
    let mut state: ObserverState<(), ()> = ObserverState::new();
    state.handle_manager_event(ManagerEvent::Done { serial: 1 });
    state.handle_manager_event(ManagerEvent::Done { serial: 2 });

    let (mut tx, rx) = mpsc::channel();
    drop(rx);
    assert_eq!(
        publish_pending_results(&mut state, &mut tx),
        PublishStatus::Stop
    );
    assert_eq!(state.collector.pending_publications(), 1);
    assert!(matches!(
        state.publish_step(false),
        PublishStep::Finish(PublishStatus::Stop)
    ));
    assert_eq!(state.collector.pending_publications(), 1);
    assert!(matches!(
        state.publish_step(true),
        PublishStep::Send(Ok(snapshot)) if snapshot.serial == 2
    ));
}

#[test]
fn lost_receiver_goes_unnoticed_while_nothing_is_pending() {
    let mut state: ObserverState<(), ()> = ObserverState::new();
    let (mut tx, rx) = mpsc::channel();
    drop(rx);
    assert_eq!(
        publish_pending_results(&mut state, &mut tx),
        PublishStatus::Continue
    );
}

#[test]
fn each_done_is_handed_on_in_order() {
    let mut state: ObserverState<(), ()> = ObserverState::new();
    let (mut tx, rx) = mpsc::channel();
    for serial in 1..4 {
        state.handle_manager_event(ManagerEvent::Done { serial });
    }
    assert!(!publish_pending_results(&mut state, &mut tx).should_stop());
    state.handle_manager_event(ManagerEvent::Done { serial: 4 });
    state.handle_manager_event(ManagerEvent::Finished);
    state.handle_manager_event(ManagerEvent::Done { serial: 5 });
    assert!(publish_pending_results(&mut state, &mut tx).should_stop());

    let arrived: Vec<_> = rx
        .try_iter()
        .map(|result| result.map(|snapshot| snapshot.serial))
        .collect();
    assert_eq!(
        arrived,
        vec![
            Ok(1),
            Ok(2),
            Ok(3),
            Ok(4),
            Ok(5),
            Err(WaylandObserverError::ManagerFinished)
        ]
    );
}
