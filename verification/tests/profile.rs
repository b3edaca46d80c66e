use regolith_displayd::kanshi::{
    default_kanshi_path, join_path, write_kanshi_profile_if_changed, CommandLine,
};
use regolith_displayd::manager::{DisplayManager, DisplayManagerProperties};
use regolith_displayd::modes::{ModeProperties, Modes};
use regolith_displayd::monitor::{
    LogicalMonitor, LogicalMonitorProperties, Monitor, MonitorApply, MonitorProperties,
};
use regolith_displayd::profile::{
    get_disabled_monitors, kanshi_profile_text, observed_profile, profile_name_for_monitors,
};
use regolith_displayd::scale::Scale;
use regolith_displayd::state_set::{display_state_changed, monitor_sets, StateSet};
use regolith_displayd::{get_kanshi_paths, reload_kanshi, KanshiPaths};
use std::collections::hash_map::DefaultHasher;
use std::hash::{Hash, Hasher};

fn scale(value: f64) -> Scale {
    Scale::new(value.to_bits(), &value.to_string())
}

fn test_mode(id: &str) -> Modes {
    Modes {
        id: id.to_string(),
        width: 1024,
        height: 768,
        refresh_mhz: 60_000,
        preferred_scale: scale(1.0),
        supported_scales: vec![scale(1.0)],
        properties: ModeProperties {
            current: Some(true),
            preferred: Some(false),
            interlaced: Some(false),
        },
    }
}

fn test_mode_without_current(id: &str) -> Modes {
    let mut mode = test_mode(id);
    mode.properties.current = Some(false);
    mode
}

fn test_monitor(name: &str, make: &str, model: &str, serial: &str, modes: Vec<Modes>) -> Monitor {
    Monitor {
        description: (
            name.to_string(),
            make.to_string(),
            model.to_string(),
            serial.to_string(),
        ),
        modes,
        properties: MonitorProperties {
            width: None,
            height: None,
            underscanning: None,
            builtin: Some(false),
            max_size: None,
            name: Some(format!("{make} {model} {serial}")),
        },
    }
}

fn test_logical(
    name: &str,
    mode_id: &str,
    x_pos: i32,
    y_pos: i32,
    factor: f64,
    transform: u32,
    primary: bool,
) -> LogicalMonitor {
    LogicalMonitor {
        x_pos,
        y_pos,
        scale: scale(factor),
        transform,
        primary,
        monitors: vec![(
            name.to_string(),
            mode_id.to_string(),
            String::new(),
            String::new(),
        )],
        properties: LogicalMonitorProperties {
            dummy: None,
            dummy2: None,
        },
    }
}

fn test_apply(
    name: &str,
    mode_id: &str,
    x_pos: i32,
    y_pos: i32,
    factor: f64,
    transform: u32,
    primary: bool,
) -> MonitorApply {
    MonitorApply {
        x_pos,
        y_pos,
        scale: scale(factor),
        transform,
        primary,
        monitors: vec![(
            name.to_string(),
            mode_id.to_string(),
            MonitorProperties {
                width: None,
                height: None,
                underscanning: None,
                builtin: Some(false),
                max_size: None,
                name: Some(String::new()),
            },
        )],
    }
}

fn build_manager(monitors: Vec<Monitor>, logical_monitors: Vec<LogicalMonitor>) -> DisplayManager {
    DisplayManager {
        serial: 1,
        monitors,
        logical_monitors,
        properties: DisplayManagerProperties::new(),
    }
}

fn hash_of<T: Hash>(value: &T) -> u64 {
    let mut hasher = DefaultHasher::new();
    value.hash(&mut hasher);
    hasher.finish()
}

#[test]
fn renders_active_and_disabled_outputs() {
    let active_mode = test_mode("1024x768@60Hz");
    let disabled_mode = test_mode("1920x1080@60Hz");
    let active_monitor = test_monitor("eDP-1", "Regolith", "Panel", "A1", vec![active_mode.clone()]);
    let disabled_monitor =
        test_monitor("HDMI-A-1", "Projector", "Room", "B2", vec![disabled_mode]);
    let logical_monitors = vec![test_logical(
        "eDP-1",
        "1024x768@60Hz",
        10,
        20,
        1.0,
        0,
        true,
    )];
    let manager = build_manager(vec![active_monitor, disabled_monitor], logical_monitors);

    let profile = kanshi_profile_text(&manager.monitors, &manager.logical_monitors);

    assert_eq!(
        profile,
        "profile {\n\
\toutput \"Regolith Panel A1\" mode 1024x768@60Hz position 10,20 transform normal scale 1 enable\n\
\toutput \"Projector Room B2\" disable\n\
}\n"
    );
}

#[test]
fn renders_all_monitors_disabled_without_logical_state() {
    let monitor_a = test_monitor(
        "eDP-1",
        "Regolith",
        "Panel",
        "A1",
        vec![test_mode("1024x768@60Hz")],
    );
    let monitor_b = test_monitor(
        "HDMI-A-1",
        "Projector",
        "Room",
        "B2",
        vec![test_mode("1920x1080@60Hz")],
    );
    let manager = build_manager(vec![monitor_a, monitor_b], Vec::new());

    let profile = kanshi_profile_text(&manager.monitors, &manager.logical_monitors);

    assert_eq!(
        profile,
        "profile {\n\
\toutput \"Regolith Panel A1\" disable\n\
\toutput \"Projector Room B2\" disable\n\
}\n"
    );
}

#[test]
fn renders_apply_and_observed_state_with_one_helper() {
    let active_monitor = test_monitor(
        "eDP-1",
        "Regolith",
        "Panel",
        "A1",
        vec![test_mode("1024x768@60Hz")],
    );
    let disabled_monitor = test_monitor(
        "HDMI-A-1",
        "Projector",
        "Room",
        "B2",
        vec![test_mode("1920x1080@60Hz")],
    );
    let manager = build_manager(
        vec![active_monitor, disabled_monitor],
        vec![test_logical("eDP-1", "ignored", 10, 20, 1.0, 0, true)],
    );
    let apply = test_apply("eDP-1", "1024x768@60Hz", 10, 20, 1.0, 0, true);

    let observed_profile = kanshi_profile_text(&manager.monitors, &manager.logical_monitors);
    let apply_profile = kanshi_profile_text(&manager.monitors, &[apply]);

    assert_eq!(apply_profile, observed_profile);
    assert_eq!(
        apply_profile,
        "profile {\n\
\toutput \"Regolith Panel A1\" mode 1024x768@60Hz position 10,20 transform normal scale 1 enable\n\
\toutput \"Projector Room B2\" disable\n\
}\n"
    );
}

#[test]
fn detects_monitor_removal_as_change() {
    let prev_monitors = StateSet::of(&[
        test_monitor(
            "eDP-1",
            "Regolith",
            "Panel",
            "A1",
            vec![test_mode("1024x768@60Hz")],
        ),
        test_monitor(
            "HDMI-A-1",
            "Projector",
            "Room",
            "B2",
            vec![test_mode("1920x1080@60Hz")],
        ),
    ]);
    let prev_logical_monitors = StateSet::of(&[test_logical(
        "eDP-1",
        "1024x768@60Hz",
        10,
        20,
        1.0,
        0,
        true,
    )]);
    let current_monitors = StateSet::of(&[test_monitor(
        "eDP-1",
        "Regolith",
        "Panel",
        "A1",
        vec![test_mode("1024x768@60Hz")],
    )]);
    let current_logical_monitors = StateSet::of(&[test_logical(
        "eDP-1",
        "1024x768@60Hz",
        10,
        20,
        1.0,
        0,
        true,
    )]);

    assert!(display_state_changed(
        &prev_monitors,
        &prev_logical_monitors,
        &current_monitors,
        &current_logical_monitors,
    ));
    assert!(!display_state_changed(
        &prev_monitors,
        &prev_logical_monitors,
        &prev_monitors,
        &current_logical_monitors,
    ));
}

#[test]
fn builds_monitor_sets_from_display_info() {
    let monitor = test_monitor(
        "eDP-1",
        "Regolith",
        "Panel",
        "A1",
        vec![test_mode("1024x768@60Hz")],
    );
    let logical_monitor = test_logical("eDP-1", "1024x768@60Hz", 0, 0, 1.0, 0, true);

    let (monitors, logical_monitors) = monitor_sets(&[monitor.clone()], &[logical_monitor.clone()]);

    assert_eq!(monitors, StateSet::of(&[monitor]));
    assert_eq!(logical_monitors, StateSet::of(&[logical_monitor]));
}

#[test]
fn detects_current_mode_change_for_same_output_identity() {
    let previous = test_monitor(
        "eDP-1",
        "Regolith",
        "Panel",
        "A1",
        vec![test_mode("1024x768@60Hz")],
    );
    let current = test_monitor(
        "eDP-1",
        "Regolith",
        "Panel",
        "A1",
        vec![test_mode("1920x1080@60Hz")],
    );
    let empty = StateSet::of(&[]);

    assert!(display_state_changed(
        &StateSet::of(&[previous]),
        &empty,
        &StateSet::of(&[current]),
        &empty,
    ));
}

#[test]
fn equal_monitors_have_equal_hashes() {
    let left = test_monitor(
        "eDP-1",
        "Regolith",
        "Panel",
        "A1",
        vec![test_mode("1024x768@60Hz")],
    );
    let right = left.clone();

    assert_eq!(left, right);
    assert_eq!(hash_of(&left), hash_of(&right));
}

#[test]
fn equal_logical_monitors_have_equal_hashes() {
    let left = test_logical("eDP-1", "ignored", 10, 20, 1.25, 0, true);
    let right = left.clone();

    assert_eq!(left, right);
    assert_eq!(hash_of(&left), hash_of(&right));
}

#[test]
fn detects_logical_monitor_identity_change_as_change() {
    let previous = test_logical("eDP-1", "ignored", 10, 20, 1.0, 0, true);
    let current = test_logical("HDMI-A-1", "ignored", 10, 20, 1.0, 0, true);
    let empty = StateSet::of(&[]);

    assert_ne!(previous, current);
    assert!(display_state_changed(
        &empty,
        &StateSet::of(&[previous]),
        &empty,
        &StateSet::of(&[current]),
    ));
}

#[test]
fn fractional_scale_is_preserved_in_observed_profile() {
    let monitor = test_monitor(
        "eDP-1",
        "Regolith",
        "Panel",
        "A1",
        vec![test_mode("1920x1080@60Hz")],
    );
    let logical = test_logical("eDP-1", "ignored", 0, 0, 1.25, 0, true);

    let profile = kanshi_profile_text(&[monitor], &[logical]);

    assert!(profile.contains("scale 1.25 enable"));
}

#[test]
fn empty_monitor_transition_does_not_persist_profile() {
    assert!(observed_profile::<LogicalMonitor>(&[], &[]).is_none());
    assert!(observed_profile::<LogicalMonitor>(
        &[test_monitor(
            "eDP-1",
            "Regolith",
            "Panel",
            "A1",
            vec![test_mode("1024x768@60Hz")],
        )],
        &[],
    )
    .is_some());
}

#[test]
fn active_output_with_unknown_mode_is_enabled_not_disabled() {
    let monitor = test_monitor(
        "eDP-1",
        "Regolith",
        "Panel",
        "A1",
        vec![test_mode_without_current("1024x768@60Hz")],
    );
    let logical = test_logical("eDP-1", "ignored", 10, 20, 1.0, 0, true);

    let profile = kanshi_profile_text(&[monitor], &[logical]);

    assert!(profile
        .contains("output \"Regolith Panel A1\" position 10,20 transform normal scale 1 enable"));
    assert!(!profile.contains("output \"Regolith Panel A1\" disable"));
}

#[test]
fn logical_monitor_identity_ignores_non_identity_metadata() {
    let left = test_logical("eDP-1", "Vendor-A", 10, 20, 1.25, 0, true);
    let right = test_logical("eDP-1", "Vendor-B", 10, 20, 1.25, 0, true);

    assert_eq!(left, right);
    assert_eq!(hash_of(&left), hash_of(&right));
}

#[test]
fn different_identities_have_different_hashes() {
    let monitor = test_monitor("eDP-1", "A", "B", "C", vec![test_mode("1024x768@60Hz")]);
    let other_mode = test_monitor("eDP-1", "A", "B", "C", vec![test_mode("800x600@60Hz")]);
    assert_ne!(monitor, other_mode);
    assert_ne!(hash_of(&monitor), hash_of(&other_mode));

    let shown = test_logical("eDP-1", "", 1, 2, 1.0, 0, false);
    let moved = test_logical("eDP-1", "", 2, 1, 1.0, 0, false);
    assert_ne!(shown, moved);
    assert_ne!(hash_of(&shown), hash_of(&moved));
    let turned = test_logical("eDP-1", "", 1, 2, 1.0, 1, false);
    assert_ne!(shown, turned);
    assert_ne!(hash_of(&shown), hash_of(&turned));
    let scaled = test_logical("eDP-1", "", 1, 2, 1.5, 0, false);
    assert_ne!(shown, scaled);
    assert_ne!(hash_of(&shown), hash_of(&scaled));
}

#[test]
fn profile_name_joins_sorted_names_with_underscores() {
    let a = test_monitor("HDMI-A-1", "Projector", "Big Room", "B2", vec![]);
    let b = test_monitor("eDP-1", "Regolith", "Panel", "A1", vec![]);
    let c = test_monitor("DP-1", "", "", "", vec![]);

    let forward = profile_name_for_monitors(&[a.clone(), b.clone(), c.clone()]);
    let backward = profile_name_for_monitors(&[c, b, a]);

    assert_eq!(forward, "DP-1__Projector_Big_Room_B2__Regolith_Panel_A1");
    assert_eq!(forward, backward);
    assert_eq!(profile_name_for_monitors(&[]), "");
}

#[test]
fn profile_names_sort_by_code_point() {
    let names = ["b", "B", "\u{e9}", "a", "ab", ""];
    let monitors: Vec<Monitor> = names
        .iter()
        .map(|name| test_monitor(name, "", "", "", vec![]))
        .collect();

    let mut sorted: Vec<String> = names.iter().map(|name| name.to_string()).collect();
    sorted.sort();

    assert_eq!(profile_name_for_monitors(&monitors), sorted.join("__"));
}

#[test]
fn request_for_unknown_mode_leaves_the_monitor_off() {
    let monitor = test_monitor("eDP-1", "A", "B", "C", vec![test_mode("1024x768@60Hz")]);
    let apply = test_apply("eDP-1", "640x480@60Hz", 0, 0, 1.0, 0, false);
    let elsewhere = test_apply("DP-9", "1024x768@60Hz", 0, 0, 1.0, 0, false);

    assert_eq!(
        kanshi_profile_text(&[monitor], &[apply, elsewhere]),
        "profile {\n\toutput \"A B C\" disable\n}\n"
    );
}

#[test]
fn invalid_transform_is_written_as_normal() {
    let monitor = test_monitor("eDP-1", "A", "B", "C", vec![test_mode("1024x768@60Hz")]);
    let turned = test_logical("eDP-1", "", -5, 0, 2.0, 3, false);
    let broken = test_logical("eDP-1", "", 0, 0, 2.0, 8, false);

    assert_eq!(
        kanshi_profile_text(&[monitor], &[turned, broken]),
        "profile {\n\
\toutput \"A B C\" mode 1024x768@60Hz position -5,0 transform 90 scale 2 enable\n\
\toutput \"A B C\" mode 1024x768@60Hz position 0,0 transform normal scale 2 enable\n\
}\n"
    );
}

#[test]
fn disabled_monitors_keep_their_order() {
    let a = test_monitor("A", "", "", "", vec![]);
    let b = test_monitor("B", "", "", "", vec![]);
    let c = test_monitor("C", "", "", "", vec![]);
    let all = [a.clone(), b.clone(), c.clone()];

    let disabled = get_disabled_monitors(&all, &[b]);

    assert_eq!(disabled, vec![&a, &c]);
    assert_eq!(get_disabled_monitors(&all, &all).len(), 0);
}

#[test]
fn sets_forget_order_and_repetition() {
    let a = test_monitor("A", "", "", "", vec![]);
    let b = test_monitor("B", "", "", "", vec![]);

    let once = StateSet::of(&[a.clone(), b.clone()]);
    let often = StateSet::of(&[b.clone(), a.clone(), b.clone()]);

    assert_eq!(once, often);
    assert!(once.contains(&a));
    assert_ne!(once, StateSet::of(&[a]));
}

#[test]
fn kanshi_files_lie_in_the_resource_directory() {
    let found = get_kanshi_paths("/home/user", Ok("/etc/kanshi".to_string()));
    assert_eq!(
        found,
        KanshiPaths {
            profiles: "/etc/kanshi/profiles".to_string(),
            config: "/etc/kanshi/config".to_string(),
        }
    );
    assert_eq!(found.profile_path("A_B"), "/etc/kanshi/profiles/A_B");
}

#[test]
fn kanshi_files_lie_in_the_default_directory_without_resource() {
    let paths = get_kanshi_paths("/home/user", Err("no such resource".to_string()));
    assert_eq!(
        paths.config,
        "/home/user/.config/regolith3/kanshi/config"
    );
    assert_eq!(
        default_kanshi_path("/home/user"),
        "/home/user/.config/regolith3/kanshi"
    );
}

#[test]
fn paths_join_like_those_of_the_standard_library() {
    for base in ["", "/", "a", "a/", "/a/b"] {
        for name in ["", "x", "/x", "x/y"] {
            let expected = std::path::PathBuf::from(base).join(name);
            assert_eq!(join_path(base, name), expected.to_str().unwrap());
        }
    }
}

#[test]
fn reloading_ends_kanshi_and_starts_it_again() {
    let paths = get_kanshi_paths("", Ok("/k".to_string()));
    let (kill, start) = reload_kanshi(&paths);
    assert_eq!(
        kill,
        CommandLine {
            program: "killall".to_string(),
            args: vec!["kanshi".to_string()],
        }
    );
    assert_eq!(
        start,
        CommandLine {
            program: "kanshi".to_string(),
            args: vec!["-c".to_string(), "/k/config".to_string()],
        }
    );
}

#[test]
fn profile_is_written_only_where_it_changed() {
    assert!(write_kanshi_profile_if_changed(&None, "text"));
    assert!(write_kanshi_profile_if_changed(
        &Some("other".to_string()),
        "text"
    ));
    assert!(!write_kanshi_profile_if_changed(
        &Some("text".to_string()),
        "text"
    ));
}

#[test]
fn saved_line_is_utf8() {
    let monitor = test_monitor("eDP-1", "Caf\u{e9}", "B", "C", vec![test_mode("1024x768@60Hz")]);
    let apply = test_apply("eDP-1", "1024x768@60Hz", 1, -2, 1.75, 5, false);
    let mut file = b"before\n".to_vec();

    apply.save_kanshi(&mut file, &monitor);

    assert_eq!(
        String::from_utf8(file).unwrap(),
        "before\n\toutput \"Caf\u{e9} B C\" mode 1024x768@60Hz position 1,-2 transform flipped-270 scale 1.75 enable\n"
    );

    let mut untouched = Vec::new();
    test_apply("eDP-1", "none", 0, 0, 1.0, 0, false).save_kanshi(&mut untouched, &monitor);
    assert!(untouched.is_empty());
}

#[test]
fn accepted_request_is_written() {
    let monitors = [test_monitor("eDP-1", "A", "B", "C", vec![test_mode("1024x768@60Hz")])];
    let apply = test_apply("eDP-1", "1024x768@60Hz", 0, 0, 1.0, 4, false);

    assert_eq!(apply.verify(&monitors), Ok(()));
    assert!(kanshi_profile_text(&monitors, &[apply])
        .contains("output \"A B C\" mode 1024x768@60Hz position 0,0 transform flipped scale 1 enable"));
}
