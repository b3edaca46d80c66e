use regolith_displayd::modes::{ModeProperties, Modes};
use regolith_displayd::monitor::{
    snapshot_identity, ConfigError, LogicalMonitor, LogicalMonitorProperties, Monitor,
    MonitorApply, MonitorProperties, MonitorTransform,
};
use regolith_displayd::scale::Scale;
use regolith_displayd::sway::{Mode, Output, Rect};
use regolith_displayd::wayland_observer::{OutputHeadSnapshot, OutputModeSnapshot};

fn scale(value: f64) -> Scale {
    Scale::new(value.to_bits(), &value.to_string())
}

fn wayland_head(name: &str) -> OutputHeadSnapshot {
    OutputHeadSnapshot {
        name: name.to_string(),
        description: Some("Desk display".to_string()),
        enabled: true,
        position: Some((320, 180)),
        transform: Some(3),
        scale: Some(scale(1.25)),
        current_mode: Some(OutputModeSnapshot {
            width: 2560,
            height: 1440,
            refresh_mhz: Some(144_000),
            preferred: true,
            current: true,
        }),
        modes: vec![
            OutputModeSnapshot {
                width: 1920,
                height: 1080,
                refresh_mhz: Some(60_000),
                preferred: false,
                current: false,
            },
            OutputModeSnapshot {
                width: 2560,
                height: 1440,
                refresh_mhz: Some(144_000),
                preferred: true,
                current: true,
            },
        ],
    }
}

fn sway_output() -> Output {
    Output {
        name: "eDP-1".to_string(),
        make: "Regolith".to_string(),
        model: "Panel".to_string(),
        serial: "A1".to_string(),
        active: true,
        primary: true,
        scale: Some(scale(1.5)),
        transform: Some("90".to_string()),
        modes: vec![
            Mode {
                width: 1920,
                height: 1080,
                refresh: 60_000,
            },
            Mode {
                width: 1024,
                height: 768,
                refresh: 59_940,
            },
        ],
        current_mode: Some(Mode {
            width: 1024,
            height: 768,
            refresh: 59_940,
        }),
        rect: Rect {
            x: 10,
            y: -20,
            width: 1024,
            height: 768,
        },
    }
}

fn request(connector: &str, mode_id: &str, factor: f64, transform: u32) -> MonitorApply {
    MonitorApply {
        x_pos: 0,
        y_pos: 0,
        scale: scale(factor),
        transform,
        primary: false,
        monitors: vec![(
            connector.to_string(),
            mode_id.to_string(),
            MonitorProperties {
                width: None,
                height: None,
                underscanning: None,
                builtin: None,
                max_size: None,
                name: None,
            },
        )],
    }
}

#[test]
fn builds_monitor_from_wayland_snapshot_without_inventing_hardware_identity() {
    let monitor = Monitor::from_snapshot(&wayland_head("DP-1"));

    assert_eq!(
        monitor.description,
        (
            "Desk display".to_string(),
            String::new(),
            String::new(),
            String::new()
        )
    );
    assert_eq!(monitor.get_dpy_name(), "Desk display");
    assert_eq!(monitor.properties.name.as_deref(), Some("Desk display"));
}

#[test]
fn selects_current_mode_from_wayland_snapshot() {
    let monitor = Monitor::from_snapshot(&wayland_head("DP-2"));

    assert_eq!(monitor.get_current_mode(), "2560x1440@144Hz");
    assert_eq!(
        monitor.modes.iter().filter(|mode| mode.current()).count(),
        1
    );
}

#[test]
fn builds_logical_monitor_from_wayland_snapshot_with_fractional_scale_and_position() {
    let logical = LogicalMonitor::from_snapshot(&wayland_head("HDMI-A-1")).unwrap();

    assert_eq!(logical.get_dpy_name(), "Desk display");
    assert_eq!(logical.scale, scale(1.25));
    assert_eq!((logical.x_pos, logical.y_pos), (320, 180));
    assert_eq!(logical.transform, 3);
    assert_eq!(
        logical.monitors,
        vec![(
            "Desk display".to_string(),
            String::new(),
            String::new(),
            String::new()
        )]
    );
}

#[test]
fn falls_back_to_connector_name_without_wayland_description() {
    let mut head = wayland_head("HDMI-A-2");
    head.description = None;

    let monitor = Monitor::from_snapshot(&head);
    let logical = LogicalMonitor::from_snapshot(&head).unwrap();

    assert_eq!(monitor.get_dpy_name(), "HDMI-A-2");
    assert_eq!(logical.get_dpy_name(), "HDMI-A-2");
}

#[test]
fn skips_disabled_wayland_heads_for_logical_monitors() {
    let mut head = wayland_head("eDP-1");
    head.enabled = false;

    assert!(LogicalMonitor::from_snapshot(&head).is_none());
}

#[test]
fn skips_enabled_wayland_head_missing_scale() {
    let mut head = wayland_head("DP-3");
    head.scale = None;

    assert!(LogicalMonitor::from_snapshot(&head).is_none());
}

#[test]
fn skips_enabled_wayland_head_missing_position() {
    let mut head = wayland_head("DP-4");
    head.position = None;

    assert!(LogicalMonitor::from_snapshot(&head).is_none());
}

#[test]
fn skips_enabled_wayland_head_missing_transform() {
    let mut head = wayland_head("DP-5");
    head.transform = None;

    assert!(LogicalMonitor::from_snapshot(&head).is_none());
}

#[test]
fn builds_wayland_mode_with_current_and_preferred_flags() {
    let mode = Modes::from_snapshot(&OutputModeSnapshot {
        width: 2560,
        height: 1440,
        refresh_mhz: Some(143_998),
        preferred: true,
        current: true,
    })
    .unwrap();

    assert_eq!(mode.get_id(), "2560x1440@143.998Hz");
    assert!(mode.current());
    assert!(mode.is_valid_scale(&scale(1.25)));
    assert!(!mode.is_valid_scale(&scale(1.3)));
}

#[test]
fn drops_wayland_mode_without_refresh() {
    let mode = Modes::from_snapshot(&OutputModeSnapshot {
        width: 2560,
        height: 1440,
        refresh_mhz: None,
        preferred: true,
        current: true,
    });

    assert!(mode.is_none());
}

#[test]
fn mode_names_follow_the_decimal_rendering_of_the_rate() {
    let rates = [
        0, 1, 5, 10, 50, 99, 100, 500, 999, 1000, 1001, 1010, 1100, 59_940, 59_951, 60_000, 60_050,
        143_998, 240_000, i32::MAX, -1, -1500, i32::MIN,
    ];
    for rate in rates {
        assert_eq!(
            Modes::mode_id(-3, 1080, rate),
            format!("-3x1080@{}Hz", (rate as f64) / 1000f64)
        );
    }
}

#[test]
fn small_modes_support_whole_scales_only() {
    assert_eq!(
        Modes::supported_scales(1920, 1080),
        vec![scale(1.0), scale(1.25), scale(1.5), scale(1.75), scale(2.0)]
    );
    assert_eq!(
        Modes::supported_scales(1919, 1080),
        vec![scale(1.0), scale(2.0)]
    );
    assert_eq!(
        Modes::supported_scales(1920, 1079),
        vec![scale(1.0), scale(2.0)]
    );
    for listed in Modes::supported_scales(1920, 1080) {
        assert_eq!(listed.text, f64::from_bits(listed.bits).to_string());
    }
}

#[test]
fn scales_compare_as_numbers() {
    let values = [0.0, -0.0, 1.0, -1.0, f64::NAN, -f64::NAN, f64::INFINITY, f64::MIN_POSITIVE];
    for a in values {
        for b in values {
            assert_eq!(scale(a) == scale(b), a == b);
        }
        assert_eq!(scale(a).is_positive_finite(), a.is_finite() && a > 0.0);
        assert_eq!(scale(a).is_at_most_zero(), a <= 0.0);
    }
}

#[test]
fn builds_monitor_from_sway_output() {
    let output = sway_output();
    let monitor = Monitor::new(&output);

    assert_eq!(monitor.get_dpy_name(), "Regolith Panel A1");
    assert_eq!(monitor.get_current_mode(), "1024x768@59.94Hz");
    assert_eq!(monitor.modes.len(), 2);
    assert!(!monitor.modes[0].current());
    assert_eq!(
        monitor.properties,
        MonitorProperties {
            width: Some(1024),
            height: Some(768),
            underscanning: None,
            builtin: Some(true),
            max_size: None,
            name: Some("Regolith Panel A1".to_string()),
        }
    );
    assert_eq!(
        monitor.modes[1].properties,
        ModeProperties {
            current: Some(true),
            preferred: Some(false),
            interlaced: Some(false),
        }
    );
    assert!(monitor.search_modes("1920x1080@60Hz").is_some());
    assert!(monitor.search_modes("1920x1080@61Hz").is_none());
}

#[test]
fn monitor_without_current_mode_is_unknown() {
    let mut output = sway_output();
    output.current_mode = None;
    assert_eq!(Monitor::new(&output).get_current_mode(), "Unknown");
}

#[test]
fn builds_logical_monitor_from_sway_output() {
    let mut output = sway_output();
    let logical = LogicalMonitor::new(&output);

    assert_eq!((logical.x_pos, logical.y_pos), (10, -20));
    assert_eq!(logical.scale, scale(1.5));
    assert_eq!(logical.transform, 1);
    assert!(logical.primary);
    assert_eq!(
        logical.properties,
        LogicalMonitorProperties {
            dummy: None,
            dummy2: None,
        }
    );
    assert_eq!(logical.monitors[0], Monitor::new(&output).description);

    output.scale = None;
    output.transform = None;
    let plain = LogicalMonitor::new(&output);
    assert_eq!(plain.scale, scale(1.0));
    assert_eq!(plain.transform, 0);
}

#[test]
fn head_properties_come_from_the_current_or_the_first_mode() {
    let mut head = wayland_head("eDP-2");
    let properties = MonitorProperties::from_snapshot(&head);
    assert_eq!((properties.width, properties.height), (Some(2560), Some(1440)));
    assert_eq!(properties.builtin, Some(true));

    head.current_mode = None;
    let properties = MonitorProperties::from_snapshot(&head);
    assert_eq!((properties.width, properties.height), (Some(1920), Some(1080)));

    head.modes.clear();
    head.description = None;
    let properties = MonitorProperties::from_snapshot(&head);
    assert_eq!((properties.width, properties.height), (None, None));
    assert_eq!(properties.name.as_deref(), Some("eDP-2"));
}

#[test]
fn without_selection_the_marked_modes_are_current() {
    let mut head = wayland_head("DP-6");
    head.current_mode = None;
    head.modes[0].current = true;
    head.modes[1].current = false;

    assert_eq!(
        Monitor::from_snapshot(&head).get_current_mode(),
        "1920x1080@60Hz"
    );
}

#[test]
fn snapshot_identity_prefers_the_description() {
    assert_eq!(snapshot_identity("DP-1", Some("Desk")).0, "Desk");
    assert_eq!(snapshot_identity("DP-1", None).0, "DP-1");
}

#[test]
fn transform_codes_round_trip() {
    for code in 0..8 {
        let transform = MonitorTransform::from_u32(code).unwrap();
        assert_eq!(transform.to_u32(), code);
    }
    assert_eq!(MonitorTransform::from_u32(8), None);
    assert_eq!(MonitorTransform::from_u32(u32::MAX), None);
}

#[test]
fn transform_words_are_those_of_sway() {
    let words = [
        ("90", MonitorTransform::Left),
        ("180", MonitorTransform::Down),
        ("270", MonitorTransform::Right),
        ("flipped", MonitorTransform::Flipped),
        ("flipped-90", MonitorTransform::FlippedLeft),
        ("flipped-180", MonitorTransform::FlippedDown),
        ("flipped-270", MonitorTransform::FlippedRight),
        ("normal", MonitorTransform::Normal),
        ("upside down", MonitorTransform::Normal),
    ];
    for (word, transform) in words {
        assert_eq!(
            MonitorTransform::from_sway(&Some(word.to_string())),
            transform
        );
    }
    assert_eq!(MonitorTransform::from_sway(&None), MonitorTransform::Normal);
    assert_eq!(MonitorTransform::Left.to_sway(), "270");
    assert_eq!(MonitorTransform::Right.to_sway(), "90");
    assert_eq!(
        MonitorTransform::from_sway(&Some(MonitorTransform::Left.to_sway().to_string())),
        MonitorTransform::Right
    );
    assert_eq!(
        MonitorTransform::from_sway(&Some(MonitorTransform::FlippedDown.to_sway().to_string())),
        MonitorTransform::FlippedDown
    );
}

#[test]
fn verification_names_the_first_fault() {
    let monitors = [Monitor::new(&sway_output())];
    let mode = "1024x768@59.94Hz";

    assert_eq!(request("eDP-1", mode, 2.0, 7).verify(&monitors), Ok(()));
    assert_eq!(
        request("DP-1", mode, 2.0, 7).verify(&monitors),
        Err(ConfigError::Failed("Monitor not found".to_string()))
    );
    assert_eq!(
        request("eDP-1", "1x1@1Hz", 9.0, 9).verify(&monitors),
        Err(ConfigError::InvalidArgs("Invalid position".to_string()))
    );
    assert_eq!(
        request("eDP-1", mode, 1.25, 9).verify(&monitors),
        Err(ConfigError::InvalidArgs("Invalid scale".to_string()))
    );
    assert_eq!(
        request("eDP-1", mode, 1.0, 8).verify(&monitors),
        Err(ConfigError::InvalidArgs("Invalid tranform".to_string()))
    );
    assert_eq!(
        request("eDP-1", mode, 1.0, 0).verify(&[]),
        Err(ConfigError::Failed("Monitor not found".to_string()))
    );
}

#[test]
fn requests_find_their_monitors() {
    let output = sway_output();
    let monitors = [Monitor::new(&output)];
    let shown = [LogicalMonitor::new(&output)];
    let found = request("eDP-1", "1024x768@59.94Hz", 1.0, 0);
    let lost = request("DP-1", "1024x768@59.94Hz", 1.0, 0);

    assert_eq!(found.search_monitor(&monitors), Some(&monitors[0]));
    assert_eq!(lost.search_monitor(&monitors), None);
    assert_eq!(found.search_logical_monitor(&shown), Some(&shown[0]));
    assert_eq!(lost.search_logical_monitor(&shown), None);
    assert_eq!(
        found.get_modestr(&monitors[0]).as_deref(),
        Some("1024x768@59.94Hz")
    );
    assert_eq!(found.clone().monitors, found.monitors);
}
