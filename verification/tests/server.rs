use regolith_displayd::manager::WatchStep;
use regolith_displayd::monitor::{ConfigError, MonitorApply, MonitorProperties};
use regolith_displayd::scale::Scale;
use regolith_displayd::server::ApplyStep;
use regolith_displayd::sway::{Mode, Output, Rect};
use regolith_displayd::{DisplayManager, DisplayManagerProperties, DisplayServer, ServerError};

fn scale(value: f64) -> Scale {
    Scale::new(value.to_bits(), &value.to_string())
}

fn output(name: &str, active: bool) -> Output {
    let mode = Mode {
        width: 1920,
        height: 1080,
        refresh: 60_000,
    };
    Output {
        name: name.to_string(),
        make: "Make".to_string(),
        model: name.to_string(),
        serial: "1".to_string(),
        active,
        primary: false,
        scale: Some(scale(1.25)),
        transform: Some("normal".to_string()),
        modes: vec![mode],
        current_mode: if active { Some(mode) } else { None },
        rect: Rect {
            x: 0,
            y: 0,
            width: 1920,
            height: 1080,
        },
    }
}

fn request(connector: &str, mode_id: &str) -> MonitorApply {
    MonitorApply {
        x_pos: 3,
        y_pos: 4,
        scale: scale(1.5),
        transform: 0,
        primary: false,
        monitors: vec![(
            connector.to_string(),
            mode_id.to_string(),
            MonitorProperties {
                width: None,
                height: None,
                underscanning: None,
                builtin: None,
                max_size: None,
                name: None,
            },
        )],
    }
}

fn server() -> DisplayServer {
    let mut manager = DisplayManager::new();
    manager.start_watching(&[output("DP-1", true), output("DP-2", false)]);
    DisplayServer::new(manager)
}

#[test]
fn initial_properties_are_those_of_a_logical_layout() {
    let properties = DisplayManagerProperties::new();
    assert_eq!(properties.layout, Some(1));
    assert_eq!(properties.support_layout_change, Some(true));
    assert_eq!(properties.global_scale, Some(false));
    assert_eq!(properties.legacy_scale_factor, Some(1));

    let manager = DisplayManager::new();
    assert_eq!(manager.serial, 0);
    assert!(!manager.has_observed_outputs());
    assert_eq!(manager.properties, properties);
}

#[test]
fn active_outputs_are_shown() {
    let (monitors, shown) =
        DisplayManager::get_monitor_info(&[output("DP-1", true), output("DP-2", false)]);
    assert_eq!(monitors.len(), 2);
    assert_eq!(shown.len(), 1);
    assert_eq!(shown[0].get_dpy_name(), "Make DP-1 1");
}

#[test]
fn watching_reports_each_change_once() {
    let mut manager = DisplayManager::new();
    let mut watch = manager.start_watching(&[output("DP-1", true)]);
    assert!(manager.has_observed_outputs());

    let same = manager.watch_changes(&mut watch, &[output("DP-1", true)]);
    assert!(same.is_none());

    let both = [output("DP-1", true), output("DP-2", false)];
    let changed = manager.watch_changes(&mut watch, &both);
    let Some(WatchStep::WriteProfile { name, text }) = changed else {
        panic!("a new monitor is a change");
    };
    assert_eq!(name, "Make_DP-1_1__Make_DP-2_1");
    assert_eq!(
        text,
        "profile {\n\
\toutput \"Make DP-1 1\" mode 1920x1080@60Hz position 0,0 transform normal scale 1.25 enable\n\
\toutput \"Make DP-2 1\" disable\n\
}\n"
    );
    assert_eq!(manager.monitors.len(), 2);

    let again = manager.watch_changes(&mut watch, &both);
    assert!(again.is_none());

    let gone = manager.watch_changes(&mut watch, &[]);
    assert!(matches!(gone, Some(WatchStep::EmitSignal)));
    assert!(!manager.has_observed_outputs());
}

#[test]
fn change_is_written_reloaded_and_told() {
    let write = || WatchStep::WriteProfile {
        name: String::new(),
        text: String::new(),
    };
    assert!(matches!(
        write().after(Ok(true)),
        Ok(Some(WatchStep::ReloadKanshi))
    ));
    assert!(matches!(
        write().after(Ok(false)),
        Ok(Some(WatchStep::EmitSignal))
    ));
    assert!(matches!(
        WatchStep::ReloadKanshi.after(Ok(false)),
        Ok(Some(WatchStep::EmitSignal))
    ));
    assert!(matches!(WatchStep::EmitSignal.after(Ok(false)), Ok(None)));
    for step in [write(), WatchStep::ReloadKanshi, WatchStep::EmitSignal] {
        assert!(matches!(
            step.after(Err("failed".to_string())),
            Err(message) if message == "failed"
        ));
    }
}

#[test]
fn stale_serial_is_refused() {
    let mut server = server();
    let before = server.get_current_state();
    let r = server.apply_monitors_config(5, 1, &[], DisplayManagerProperties::new());
    assert!(matches!(
        r,
        Err(ConfigError::InvalidArgs(message)) if message == "Wrong serial"
    ));
    assert_eq!(server.get_current_state(), before);
}

#[test]
fn verification_changes_nothing() {
    let mut server = server();
    let before = server.get_current_state();
    let mut properties = DisplayManagerProperties::new();
    properties.layout = Some(2);

    let good = [request("DP-1", "1920x1080@60Hz")];
    assert!(server.can_apply(0, 0, &good));
    assert!(matches!(
        server.apply_monitors_config(0, 0, &good, properties),
        Ok(None)
    ));

    let bad = [
        request("DP-1", "1920x1080@60Hz"),
        request("DP-9", "1920x1080@60Hz"),
        request("DP-1", "1x1@1Hz"),
    ];
    assert!(matches!(
        server.apply_monitors_config(0, 0, &bad, properties),
        Err(ConfigError::Failed(message)) if message == "Monitor not found"
    ));
    assert_eq!(server.get_current_state(), before);
}

#[test]
fn applying_takes_over_properties_and_writes_a_profile() {
    let mut server = server();
    let mut properties = DisplayManagerProperties::new();
    properties.layout = Some(2);

    let r = server.apply_monitors_config(
        0,
        1,
        &[request("DP-2", "1920x1080@60Hz")],
        properties,
    );

    let Ok(Some(ApplyStep::WriteProfile { name, text })) = r else {
        panic!("the profile is written first");
    };
    assert_eq!(name, "Make_DP-1_1__Make_DP-2_1");
    assert_eq!(
        text,
        "profile {\n\
\toutput \"Make DP-2 1\" mode 1920x1080@60Hz position 3,4 transform normal scale 1.5 enable\n\
\toutput \"Make DP-1 1\" disable\n\
}\n"
    );
    assert_eq!(server.get_current_state().properties.layout, Some(2));
    assert!(server.apply_monitors_config_allowed());
}

#[test]
fn applying_goes_on_to_the_signal() {
    let write = || ApplyStep::WriteProfile {
        name: String::new(),
        text: String::new(),
    };
    assert!(matches!(
        write().after(Ok(true)),
        Ok(Some(ApplyStep::ReloadKanshi))
    ));
    assert!(matches!(
        write().after(Ok(false)),
        Ok(Some(ApplyStep::RefreshOutputs))
    ));
    assert!(matches!(
        write().after(Err("read-only".to_string())),
        Err(ConfigError::IOError(message)) if message == "read-only"
    ));
    assert!(matches!(
        ApplyStep::ReloadKanshi.after(Err("no kanshi".to_string())),
        Ok(Some(ApplyStep::RefreshOutputs))
    ));
    assert!(matches!(
        ApplyStep::RefreshOutputs.after(Err("no sway".to_string())),
        Ok(Some(ApplyStep::EmitSignal))
    ));
    assert!(matches!(ApplyStep::EmitSignal.after(Ok(false)), Ok(None)));
    assert!(matches!(
        ApplyStep::EmitSignal.after(Err("bus gone".to_string())),
        Err(ConfigError::ZBus(message)) if message == "bus gone"
    ));
}

#[test]
fn requests_without_monitors_cannot_be_applied() {
    let server = server();
    let mut empty = request("DP-1", "1920x1080@60Hz");
    empty.monitors.clear();
    let unknown = request("DP-9", "1920x1080@60Hz");

    assert!(!server.can_apply(0, 1, &[empty.clone()]));
    assert!(!server.can_apply(0, 0, &[empty.clone()]));
    assert!(server.can_apply(1, 1, &[empty.clone()]));
    assert!(server.can_apply(0, 0, &[unknown, empty.clone()]));
    assert!(DisplayServer::new(DisplayManager::new()).can_apply(0, 1, &[empty]));
}

#[test]
fn server_errors_speak_for_themselves() {
    let error = ServerError::_produce_error("no display");
    assert_eq!(error.message(), "no display");
    assert_eq!(error.description(), "no display");
}
