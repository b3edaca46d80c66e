use regolith_displayd::daemon::{
    cosmic_desktop, finish_sway_watcher, finish_wayland_observer, finish_wayland_startup_failure,
    finish_wayland_task, handle_watch_changes_result, record_wayland_pending_failure,
    select_display_backend, supervise_sway_watcher, wait_for_wayland_readiness,
    watcher_should_restart, ConnectStep, DisplayBackend, ReadinessReply, SupervisorStep,
    SwayConnector, SWAY_CONNECT_ATTEMPTS,
};

#[test]
fn sway_supervisor_normal_completion_returns_cleanly() {
    assert!(finish_sway_watcher(Ok(Ok(()))).is_ok());
}

#[test]
fn sway_supervisor_join_failure_is_returned() {
    let runtime = tokio::runtime::Runtime::new().unwrap();
    let result = runtime.block_on(async {
        let handle = tokio::spawn(async {
            panic!("watcher panic");
        });
        finish_sway_watcher(handle.await.map_err(|error| error.to_string()))
    });
    assert!(matches!(result, Err(error) if error.contains("Display watcher task failed")));
}

#[test]
fn sway_supervisor_failure_is_returned() {
    assert_eq!(
        finish_sway_watcher(Ok(Err("no outputs".to_string()))),
        Err("no outputs".to_string())
    );
}

#[test]
fn restarts_after_initial_watcher_failure() {
    assert!(watcher_should_restart(&Err(
        "initial monitor info failed".to_string()
    )));
    assert!(!watcher_should_restart(&Ok(())));
}

#[test]
fn sway_supervisor_recovers_after_initial_monitor_info_failure() {
    let mut attempts = 0;
    let mut steps = Vec::new();
    loop {
        let result = if attempts == 0 {
            Err("initial monitor info failed".to_string())
        } else {
            Ok(())
        };
        attempts += 1;
        let step = supervise_sway_watcher(result);
        let finished = step == SupervisorStep::Finish;
        steps.push(step);
        if finished {
            break;
        }
    }

    assert_eq!(attempts, 2);
    assert_eq!(
        steps[0],
        SupervisorStep::Restart {
            log: "Display watcher stopped: initial monitor info failed".to_string()
        }
    );
}

#[test]
fn sway_supervisor_does_not_restart_after_normal_completion() {
    assert_eq!(supervise_sway_watcher(Ok(())), SupervisorStep::Finish);
}

#[test]
fn early_wayland_observer_failure_is_preserved_over_readiness_error() {
    let readiness_error =
        std::io::Error::new(std::io::ErrorKind::Other, "readiness channel closed");
    let error = finish_wayland_startup_failure(
        readiness_error.to_string(),
        Ok(Err("observer failed before readiness".to_string())),
    );

    assert_eq!(error.to_string(), "observer failed before readiness");
}

#[test]
fn readiness_error_is_used_when_observer_completed_cleanly() {
    let readiness_error =
        std::io::Error::new(std::io::ErrorKind::Other, "readiness channel closed");
    let error = finish_wayland_startup_failure(readiness_error.to_string(), Ok(Ok(())));

    assert_eq!(error.to_string(), "readiness channel closed");
}

#[test]
fn wayland_observer_join_error_is_preserved() {
    let runtime = tokio::runtime::Runtime::new().unwrap();
    let join_error = runtime.block_on(async {
        let handle = tokio::spawn(async {
            panic!("observer panic");
        });
        handle.await.unwrap_err()
    });
    let readiness_error =
        std::io::Error::new(std::io::ErrorKind::Other, "readiness channel closed");
    let error =
        finish_wayland_startup_failure(readiness_error.to_string(), Err(join_error.to_string()));

    assert!(error.to_string().contains("Wayland observer task failed"));
}

#[test]
fn normal_wayland_completion_is_not_reclassified_as_failure() {
    assert!(finish_wayland_observer(Ok(())).is_ok());
}

#[test]
fn terminal_wayland_failure_is_surfaced() {
    let result = finish_wayland_observer(Err("observer disconnected".to_string()));
    assert!(matches!(result, Err(error) if error.to_string() == "observer disconnected"));
}

#[test]
fn pending_wayland_side_effect_exhaustion_is_returned() {
    let mut attempts = 0;
    assert!(record_wayland_pending_failure(&mut attempts, "write failed".to_string()).is_ok());
    assert!(record_wayland_pending_failure(&mut attempts, "write failed".to_string()).is_ok());
    let result = record_wayland_pending_failure(&mut attempts, "write failed".to_string());
    assert!(matches!(
        result,
        Err(error) if error.contains("after 3 attempts") && error.contains("write failed")
    ));
}

#[test]
fn exhaustion_is_told_in_full() {
    let mut attempts = 2;
    assert_eq!(
        record_wayland_pending_failure(&mut attempts, "disk full".to_string()),
        Err("Wayland pending side effect failed after 3 attempts: disk full".to_string())
    );
    assert_eq!(attempts, 3);
}

#[test]
fn handles_watch_changes_error_without_panicking() {
    let line = handle_watch_changes_result(Err("watcher stopped".into()));
    assert_eq!(
        line.as_deref(),
        Some("Display watcher stopped: watcher stopped")
    );
    assert_eq!(handle_watch_changes_result(Ok(())), None);
}

#[test]
fn identifies_cosmic_desktop_in_composite_value() {
    assert!(cosmic_desktop(Some("GNOME:COSMIC")));
}

#[test]
fn cosmic_with_sway_selects_wayland() {
    assert_eq!(select_display_backend(true, true), DisplayBackend::Wayland);
}

#[test]
fn cosmic_without_sway_selects_wayland() {
    assert_eq!(select_display_backend(true, false), DisplayBackend::Wayland);
}

#[test]
fn gnome_with_sway_selects_sway() {
    assert_eq!(select_display_backend(false, true), DisplayBackend::Sway);
}

#[test]
fn gnome_without_sway_is_unsupported() {
    assert_eq!(
        select_display_backend(false, false),
        DisplayBackend::Unsupported
    );
}

#[test]
fn does_not_treat_other_desktops_as_cosmic() {
    assert!(!cosmic_desktop(Some("GNOME")));
    assert!(!cosmic_desktop(None));
}

#[test]
fn desktop_names_match_whole_and_in_any_case() {
    let names = [
        "cosmic", "CoSmIc", ":cosmic", "cosmic:", "a:cosmic:b", "::cosmic::", "cosmics", "xcosmic",
        "cos:mic", "cosmic ", "", ":", "GNOME:cosmi", "\u{e9}:COSMIC", "c\u{f6}smic",
    ];
    for name in names {
        let expected = name
            .split(":")
            .any(|desktop| desktop.eq_ignore_ascii_case("cosmic"));
        assert_eq!(cosmic_desktop(Some(name)), expected);
    }
}

#[test]
fn sway_is_tried_three_times() {
    let mut connector = SwayConnector::new(false);
    for _ in 1..SWAY_CONNECT_ATTEMPTS {
        assert_eq!(
            connector.connect_sway_backend("refused".to_string()),
            ConnectStep::Retry
        );
    }
    assert_eq!(
        connector.connect_sway_backend("no socket".to_string()),
        ConnectStep::Fail {
            message: "Sway IPC backend unavailable after 3 attempts: no socket".to_string()
        }
    );

    let mut connector = SwayConnector::new(true);
    connector.connect_sway_backend("refused".to_string());
    connector.connect_sway_backend("refused".to_string());
    assert_eq!(
        connector.connect_sway_backend("refused".to_string()),
        ConnectStep::Continue
    );
}

#[test]
fn readiness_timeout_allows_startup_to_continue() {
    assert!(!wait_for_wayland_readiness(ReadinessReply::TimedOut).unwrap());
}

#[test]
fn readiness_replies_are_told_apart() {
    assert_eq!(wait_for_wayland_readiness(ReadinessReply::Ready), Ok(true));
    assert_eq!(
        wait_for_wayland_readiness(ReadinessReply::Failed {
            message: "gone".to_string()
        }),
        Err("gone".to_string())
    );
    assert_eq!(
        wait_for_wayland_readiness(ReadinessReply::Closed),
        Err("Wayland observer readiness channel closed".to_string())
    );
}

#[test]
fn lost_wayland_task_is_told() {
    assert_eq!(finish_wayland_task(Ok(Ok(()))), Ok(()));
    assert_eq!(
        finish_wayland_task(Ok(Err("gone".to_string()))),
        Err("gone".to_string())
    );
    assert_eq!(
        finish_wayland_task(Err("panicked".to_string())),
        Err("Wayland observer task failed: panicked".to_string())
    );
}
