use regolith_displayd::consumer::{
    notify_wayland_readiness, publish_wayland_state_before_readiness,
    publish_wayland_state_before_signal, ConsumerAction, ConsumerEvent, WaylandConsumer,
};
use regolith_displayd::manager::{DisplayManager, SideEffect, WaylandSideEffectStage};
use regolith_displayd::scale::Scale;
use regolith_displayd::wayland_observer::{
    OutputHeadSnapshot, OutputModeSnapshot, OutputSnapshot, WaylandObserverError,
};
use regolith_displayd::wayland_side_effect_stage;
use tokio::sync::oneshot;

fn scale(value: f64) -> Scale {
    Scale::new(value.to_bits(), &value.to_string())
}

fn snapshot(serial: u32) -> OutputSnapshot {
    let mode = OutputModeSnapshot {
        width: 1920,
        height: 1080,
        refresh_mhz: Some(60_000),
        preferred: true,
        current: true,
    };
    OutputSnapshot {
        serial,
        heads: vec![OutputHeadSnapshot {
            name: "HDMI-A-1".to_string(),
            description: None,
            enabled: true,
            position: Some((0, 0)),
            transform: Some(0),
            scale: Some(scale(1.0)),
            current_mode: Some(mode),
            modes: vec![mode],
        }],
    }
}

fn received(snapshot: OutputSnapshot) -> ConsumerEvent {
    ConsumerEvent::Received {
        result: Ok(snapshot),
    }
}

#[test]
fn closed_wayland_receiver_is_returned_by_consumer() {
    let (sender, receiver) =
        std::sync::mpsc::channel::<Result<OutputSnapshot, WaylandObserverError>>();
    drop(sender);
    let mut manager = DisplayManager::new();
    let mut consumer: WaylandConsumer<()> = WaylandConsumer::new(None);

    let event = match receiver.recv() {
        Ok(result) => ConsumerEvent::Received { result },
        Err(_) => ConsumerEvent::Disconnected,
    };
    let step = consumer.consume_wayland_observer(&mut manager, event);

    assert!(matches!(
        step.action,
        ConsumerAction::Stop { message } if message == "Wayland observer receiver closed"
    ));
}

#[test]
fn publishes_manager_state_before_emitting_signal() {
    let mut manager = DisplayManager::new();
    let mut candidate = DisplayManager::new();
    candidate.install_wayland_snapshot(&snapshot(1));
    let expected = candidate.clone();

    let action = publish_wayland_state_before_signal(&mut manager, candidate);

    assert_eq!(manager, expected);
    assert!(matches!(action, ConsumerAction::Signal { candidate } if candidate == expected));
}

#[test]
fn readiness_is_available_before_side_effect_failure() {
    let (sender, receiver) = oneshot::channel::<Result<(), String>>();
    let mut ready_sender = Some(sender);

    let (sender, result) = notify_wayland_readiness(&mut ready_sender, Ok(())).unwrap();
    sender.send(result).unwrap();

    assert_eq!(receiver.blocking_recv().unwrap(), Ok(()));
    assert!(ready_sender.is_none());
}

#[test]
fn candidate_state_is_visible_when_readiness_is_released() {
    let mut manager = DisplayManager::new();
    let mut candidate = DisplayManager::new();
    candidate.install_wayland_snapshot(&OutputSnapshot {
        serial: 42,
        heads: vec![OutputHeadSnapshot {
            name: "HDMI-A-1".to_string(),
            description: None,
            enabled: true,
            position: Some((0, 0)),
            transform: Some(0),
            scale: Some(scale(1.0)),
            current_mode: Some(OutputModeSnapshot {
                width: 1920,
                height: 1080,
                refresh_mhz: Some(60_000),
                preferred: true,
                current: true,
            }),
            modes: Vec::new(),
        }],
    });
    let expected = candidate.clone();
    let (sender, receiver) = oneshot::channel::<Result<(), String>>();
    let mut ready_sender = Some(sender);

    let ready =
        publish_wayland_state_before_readiness(&mut manager, &candidate, &mut ready_sender);
    let (sender, result) = ready.unwrap();
    sender.send(result).unwrap();

    assert_eq!(receiver.blocking_recv().unwrap(), Ok(()));
    assert!(manager.has_observed_outputs());
    assert_eq!(manager, expected);
}

#[test]
fn side_effect_failure_does_not_delay_readiness_after_state_commit() {
    let mut manager = DisplayManager::new();
    let candidate = DisplayManager::new();
    let (sender, receiver) = oneshot::channel::<Result<(), String>>();
    let mut consumer = WaylandConsumer::new(Some(sender));

    let ready = publish_wayland_state_before_readiness(
        &mut manager,
        &candidate,
        &mut consumer.ready_sender,
    );
    let (sender, result) = ready.unwrap();
    sender.send(result).unwrap();
    let action = publish_wayland_state_before_signal(&mut manager, candidate);
    let ConsumerAction::Signal { candidate } = action else {
        panic!("clients are told next");
    };
    let side_effect = consumer.signal_done(candidate, Err("side effect failed".to_string()));

    assert_eq!(receiver.blocking_recv().unwrap(), Ok(()));
    assert_eq!(side_effect.failure, Some("side effect failed".to_string()));
}

#[test]
fn failed_consequence_comes_back_and_does_not_delay_readiness() {
    let mut manager = DisplayManager::new();
    let mut consumer = WaylandConsumer::new(Some("waiting"));

    let step = consumer.consume_wayland_observer(&mut manager, received(snapshot(1)));
    assert_eq!(step.ready, Some(("waiting", Ok(()))));
    assert!(manager.has_observed_outputs());

    let ConsumerAction::Advance { stage, candidate } = step.action else {
        panic!("a first state has consequences");
    };
    let step = consumer.side_effect_done(
        &mut manager,
        stage,
        candidate,
        Err("side effect failed".to_string()),
    );
    assert_eq!(step.ready, None);
    assert_eq!(step.failure.as_deref(), Some("side effect failed"));
    assert_eq!(consumer.attempts, 1);
}

#[test]
fn observer_failure_releases_startup_readiness_waiter() {
    let (sender, receiver) = oneshot::channel::<Result<(), String>>();
    let mut ready_sender = Some(sender);

    let (sender, result) =
        notify_wayland_readiness(&mut ready_sender, Err("observer stopped".to_string())).unwrap();
    sender.send(result).unwrap();

    assert_eq!(
        receiver.blocking_recv().unwrap(),
        Err("observer stopped".to_string())
    );
}

#[test]
fn observer_failure_stops_the_consumer() {
    let mut manager = DisplayManager::new();
    let mut consumer = WaylandConsumer::new(Some(7));

    let step = consumer.consume_wayland_observer(
        &mut manager,
        ConsumerEvent::Received {
            result: Err(WaylandObserverError::ManagerFinished),
        },
    );

    let message = "Wayland output manager finished observation".to_string();
    assert_eq!(step.ready, Some((7, Err(message.clone()))));
    assert!(matches!(step.action, ConsumerAction::Stop { message: told } if told == message));
    assert_eq!(manager, DisplayManager::new());
}

#[test]
fn change_is_persisted_reloaded_and_told() {
    let mut manager = DisplayManager::new();
    let mut consumer: WaylandConsumer<()> = WaylandConsumer::new(None);

    let step = consumer.consume_wayland_observer(&mut manager, received(snapshot(1)));
    let ConsumerAction::Advance { stage, candidate } = step.action else {
        panic!("a change is persisted first");
    };
    assert_eq!(stage, WaylandSideEffectStage::Persist);
    assert!(matches!(
        candidate.wayland_side_effect(stage),
        SideEffect::WriteProfile { name, text }
            if name == "HDMI-A-1"
                && text == "profile {\n\toutput \"HDMI-A-1\" mode 1920x1080@60Hz position 0,0 transform normal scale 1 enable\n}\n"
    ));

    let next = DisplayManager::advance_wayland_side_effect(stage, true);
    let step = consumer.side_effect_done(&mut manager, stage, candidate, Ok(next));
    assert!(matches!(
        step.action,
        ConsumerAction::Receive {
            timeout_ms: Some(100)
        }
    ));

    let step = consumer.consume_wayland_observer(&mut manager, ConsumerEvent::TimedOut);
    let ConsumerAction::Advance { stage, candidate } = step.action else {
        panic!("a written profile is reloaded");
    };
    assert_eq!(stage, WaylandSideEffectStage::Reload);
    assert!(matches!(
        candidate.wayland_side_effect(stage),
        SideEffect::ReloadKanshi
    ));

    let next = DisplayManager::advance_wayland_side_effect(stage, false);
    let step = consumer.side_effect_done(&mut manager, stage, candidate, Ok(next));
    let ConsumerAction::Signal { candidate } = step.action else {
        panic!("clients are told last");
    };
    assert_eq!(manager, candidate);

    let step = consumer.signal_done(candidate, Ok(()));
    assert!(matches!(
        step.action,
        ConsumerAction::Receive { timeout_ms: None }
    ));
    assert!(consumer.pending.is_none());

    let step = consumer.consume_wayland_observer(&mut manager, received(snapshot(2)));
    assert!(matches!(
        step.action,
        ConsumerAction::Receive { timeout_ms: None }
    ));
}

#[test]
fn failed_signal_is_retried_until_exhausted() {
    let mut manager = DisplayManager::new();
    let mut consumer: WaylandConsumer<()> = WaylandConsumer::new(None);
    let mut candidate = DisplayManager::new();
    candidate.install_wayland_snapshot(&snapshot(1));

    for _ in 0..2 {
        let step = consumer.signal_done(candidate.clone(), Err("bus gone".to_string()));
        assert!(matches!(
            step.action,
            ConsumerAction::Receive {
                timeout_ms: Some(100)
            }
        ));
        let step = consumer.consume_wayland_observer(&mut manager, ConsumerEvent::TimedOut);
        assert!(matches!(step.action, ConsumerAction::Signal { .. }));
    }
    let step = consumer.signal_done(candidate, Err("bus gone".to_string()));
    assert!(matches!(
        step.action,
        ConsumerAction::Stop { message }
            if message == "Wayland pending side effect failed after 3 attempts: bus gone"
    ));
}

#[test]
fn losing_all_monitors_is_told_without_a_profile() {
    let mut manager = DisplayManager::new();
    manager.install_wayland_snapshot(&snapshot(1));
    let mut consumer: WaylandConsumer<()> = WaylandConsumer::new(None);

    let step = consumer.consume_wayland_observer(
        &mut manager,
        received(OutputSnapshot {
            serial: 2,
            heads: Vec::new(),
        }),
    );

    assert!(matches!(step.action, ConsumerAction::Signal { .. }));
    assert!(!manager.has_observed_outputs());
    assert!(matches!(
        manager.wayland_side_effect(WaylandSideEffectStage::Persist),
        SideEffect::Nothing
    ));
    assert!(matches!(
        manager.wayland_side_effect(WaylandSideEffectStage::Signal),
        SideEffect::EmitSignal
    ));
}

#[test]
fn idle_timeout_changes_nothing() {
    let mut manager = DisplayManager::new();
    let mut consumer = WaylandConsumer::new(Some(1));

    let step = consumer.consume_wayland_observer(&mut manager, ConsumerEvent::TimedOut);

    assert_eq!(step.ready, None);
    assert!(matches!(
        step.action,
        ConsumerAction::Receive { timeout_ms: None }
    ));
    assert_eq!(consumer.ready_sender, Some(1));
}

#[test]
fn stages_start_over_with_a_change() {
    let persist = WaylandSideEffectStage::Persist;
    let reload = WaylandSideEffectStage::Reload;
    let signal = WaylandSideEffectStage::Signal;

    assert_eq!(wayland_side_effect_stage(true, Some(signal), true), Some(persist));
    assert_eq!(wayland_side_effect_stage(true, None, false), Some(signal));
    assert_eq!(wayland_side_effect_stage(false, Some(reload), true), Some(reload));
    assert_eq!(wayland_side_effect_stage(false, None, true), None);
    assert_eq!(
        DisplayManager::advance_wayland_side_effect(persist, false),
        signal
    );
    assert_eq!(
        DisplayManager::advance_wayland_side_effect(persist, true),
        reload
    );
    assert_eq!(
        DisplayManager::advance_wayland_side_effect(reload, true),
        signal
    );
}
