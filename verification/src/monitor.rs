//! Monitors, the logical monitors that show them, and the configuration that a
//! client asks for.

use std::hash::{Hash, Hasher};
use vstd::prelude::*;
use vstd::string::*;
use vstd::utf8::*;

use crate::collector;
use crate::collector::PendingHeadView;
use crate::modes;
use crate::modes::{Modes, ModesView};
use crate::order;
use crate::scale;
use crate::scale::{Scale, ScaleView};
use crate::sway;
use crate::text;
use crate::wayland_observer::{OutputHeadSnapshot, OutputHeadSnapshotView, OutputModeSnapshot};

verus! {

/// A monitor: connector, vendor, product and serial, and what it can show.
#[derive(Debug)]
pub struct Monitor {
    pub description: (String, String, String, String),
    pub modes: Vec<Modes>,
    pub properties: MonitorProperties,
}

/// A region of the global layout and the monitors that show it.
#[derive(Debug)]
pub struct LogicalMonitor {
    pub x_pos: i32,
    pub y_pos: i32,
    pub scale: Scale,
    pub transform: u32,
    pub primary: bool,
    pub monitors: Vec<(String, String, String, String)>,
    pub properties: LogicalMonitorProperties,
}

/// Optional properties of a monitor.
#[derive(Debug, PartialEq, Eq, Hash)]
pub struct MonitorProperties {
    pub width: Option<i32>,
    pub height: Option<i32>,
    pub underscanning: Option<bool>,
    pub builtin: Option<bool>,
    pub max_size: Option<(i32, i32)>,
    pub name: Option<String>,
}

/// How a monitor is turned and mirrored.
#[derive(Debug, Clone, Copy, PartialEq, Eq, Structural)]
pub enum MonitorTransform {
    Normal,
    Left,
    Down,
    Right,
    Flipped,
    FlippedLeft,
    FlippedDown,
    FlippedRight,
}

/// Optional properties of a logical monitor; there are none to tell.
#[derive(Debug, Clone, Copy, PartialEq, Eq, Structural)]
pub struct LogicalMonitorProperties {
    pub dummy: Option<i32>,
    pub dummy2: Option<bool>,
}

/// A logical monitor as a client asks for it: each monitor by connector and
/// mode name.
#[derive(Debug)]
pub struct MonitorApply {
    pub x_pos: i32,
    pub y_pos: i32,
    pub scale: Scale,
    pub transform: u32,
    pub primary: bool,
    pub monitors: Vec<(String, String, MonitorProperties)>,
}

/// Connector, vendor, product and serial of a monitor.
pub struct IdentityView {
    pub connector: Seq<char>,
    pub vendor: Seq<char>,
    pub product: Seq<char>,
    pub serial: Seq<char>,
}

/// What the four names of a monitor stand for.
pub open spec fn identity_view(names: (String, String, String, String)) -> IdentityView {
    IdentityView { connector: names.0@, vendor: names.1@, product: names.2@, serial: names.3@ }
}

/// What a list of names stands for.
pub open spec fn identity_views(names: Seq<(String, String, String, String)>) -> Seq<IdentityView> {
    Seq::new(names.len(), |i: int| identity_view(names[i]))
}

/// What [`MonitorProperties`] stand for.
pub struct MonitorPropertiesView {
    pub width: Option<i32>,
    pub height: Option<i32>,
    pub underscanning: Option<bool>,
    pub builtin: Option<bool>,
    pub max_size: Option<(i32, i32)>,
    pub name: Option<Seq<char>>,
}

impl View for MonitorProperties {
    type V = MonitorPropertiesView;

    open spec fn view(&self) -> MonitorPropertiesView {
        MonitorPropertiesView {
            width: self.width,
            height: self.height,
            underscanning: self.underscanning,
            builtin: self.builtin,
            max_size: self.max_size,
            name: text::option_text(self.name),
        }
    }
}

impl Clone for MonitorProperties {
    fn clone(&self) -> (r: MonitorProperties)
        ensures
            r@ == self@,
    {
        MonitorProperties {
            width: self.width,
            height: self.height,
            underscanning: self.underscanning,
            builtin: self.builtin,
            max_size: self.max_size,
            name: self.name.clone(),
        }
    }
}

/// What a [`Monitor`] stands for.
pub struct MonitorView {
    pub description: IdentityView,
    pub modes: Seq<ModesView>,
    pub properties: MonitorPropertiesView,
}

impl View for Monitor {
    type V = MonitorView;

    open spec fn view(&self) -> MonitorView {
        MonitorView {
            description: identity_view(self.description),
            modes: modes::mode_views(self.modes@),
            properties: self.properties@,
        }
    }
}

/// What a list of monitors stands for.
pub open spec fn monitor_views(monitors: Seq<Monitor>) -> Seq<MonitorView> {
    Seq::new(monitors.len(), |i: int| monitors[i]@)
}

/// What a [`LogicalMonitor`] stands for.
pub struct LogicalMonitorView {
    pub x_pos: i32,
    pub y_pos: i32,
    pub scale: ScaleView,
    pub transform: u32,
    pub primary: bool,
    pub monitors: Seq<IdentityView>,
    pub properties: LogicalMonitorProperties,
}

impl View for LogicalMonitor {
    type V = LogicalMonitorView;

    open spec fn view(&self) -> LogicalMonitorView {
        LogicalMonitorView {
            x_pos: self.x_pos,
            y_pos: self.y_pos,
            scale: self.scale@,
            transform: self.transform,
            primary: self.primary,
            monitors: identity_views(self.monitors@),
            properties: self.properties,
        }
    }
}

/// What a list of logical monitors stands for.
pub open spec fn logical_views(monitors: Seq<LogicalMonitor>) -> Seq<LogicalMonitorView> {
    Seq::new(monitors.len(), |i: int| monitors[i]@)
}

/// A monitor that a client asks for.
pub struct TargetView {
    pub connector: Seq<char>,
    pub mode_id: Seq<char>,
    pub properties: MonitorPropertiesView,
}

/// What a list of monitors that a client asks for stands for.
pub open spec fn target_views(
    targets: Seq<(String, String, MonitorProperties)>,
) -> Seq<TargetView> {
    Seq::new(
        targets.len(),
        |i: int|
            TargetView {
                connector: targets[i].0@,
                mode_id: targets[i].1@,
                properties: targets[i].2@,
            },
    )
}

/// What a [`MonitorApply`] stands for.
pub struct MonitorApplyView {
    pub x_pos: i32,
    pub y_pos: i32,
    pub scale: ScaleView,
    pub transform: u32,
    pub primary: bool,
    pub monitors: Seq<TargetView>,
}

impl View for MonitorApply {
    type V = MonitorApplyView;

    open spec fn view(&self) -> MonitorApplyView {
        MonitorApplyView {
            x_pos: self.x_pos,
            y_pos: self.y_pos,
            scale: self.scale@,
            transform: self.transform,
            primary: self.primary,
            monitors: target_views(self.monitors@),
        }
    }
}

impl IdentityView {
    /// The name that a monitor goes by: vendor, product and serial, or the
    /// connector where none of the three is known.
    pub open spec fn display_name(self) -> Seq<char> {
        if self.vendor.len() == 0 && self.product.len() == 0 && self.serial.len() == 0 {
            self.connector
        } else {
            self.vendor + " "@ + self.product + " "@ + self.serial
        }
    }
}

/// Being the mode that a monitor is driven in.
pub open spec fn is_current() -> spec_fn(ModesView) -> bool {
    |mode: ModesView| mode.current()
}

/// Being the mode of this name.
pub open spec fn has_id(id: Seq<char>) -> spec_fn(ModesView) -> bool {
    |mode: ModesView| mode.id == id
}

/// Being the monitor at this connector.
pub open spec fn at_connector(connector: Seq<char>) -> spec_fn(MonitorView) -> bool {
    |monitor: MonitorView| monitor.description.connector == connector
}

impl MonitorView {
    /// The first mode of this name.
    pub open spec fn mode(self, id: Seq<char>) -> Option<ModesView> {
        order::find_first(self.modes, has_id(id))
    }

    /// The name of the mode that the monitor is driven in.
    pub open spec fn current_mode(self) -> Seq<char> {
        match order::find_first(self.modes, is_current()) {
            Some(mode) => mode.id,
            None => "Unknown"@,
        }
    }

    /// What distinguishes one state of a monitor from another.
    pub open spec fn identity(self) -> (IdentityView, Seq<char>) {
        (self.description, self.current_mode())
    }
}

/// The name that goes by vendor, product and serial, or by the connector where
/// none of the three is known.
fn display_name(names: &(String, String, String, String)) -> (name: String)
    ensures
        name@ == identity_view(*names).display_name(),
{
    if names.1.as_str().is_empty() && names.2.as_str().is_empty() && names.3.as_str().is_empty() {
        names.0.clone()
    } else {
        let mut name = String::new();
        name.append(names.1.as_str());
        name.append(" ");
        name.append(names.2.as_str());
        name.append(" ");
        name.append(names.3.as_str());
        assert(name@ =~= identity_view(*names).display_name());
        name
    }
}

fn copy_names(names: &(String, String, String, String)) -> (copy: (String, String, String, String))
    ensures
        identity_view(copy) == identity_view(*names),
{
    (names.0.clone(), names.1.clone(), names.2.clone(), names.3.clone())
}

/// The four names of the monitor at a sway output.
pub open spec fn output_identity(output: sway::OutputView) -> IdentityView {
    IdentityView {
        connector: output.name,
        vendor: output.make,
        product: output.model,
        serial: output.serial,
    }
}

/// The four names of the monitor at a head: the description when there is one,
/// or else the name of the head, in place of the connector, and nothing else.
pub open spec fn head_identity(name: Seq<char>, description: Option<Seq<char>>) -> IdentityView {
    IdentityView {
        connector: match description {
            Some(d) => d,
            None => name,
        },
        vendor: seq![],
        product: seq![],
        serial: seq![],
    }
}

/// The properties of the monitor at a sway output.
pub open spec fn output_properties(output: sway::OutputView) -> MonitorPropertiesView {
    MonitorPropertiesView {
        width: Some(output.rect.width),
        height: Some(output.rect.height),
        underscanning: None,
        builtin: Some("eDP"@.is_prefix_of(output.name)),
        max_size: None,
        name: Some(output.make + " "@ + output.model + " "@ + output.serial),
    }
}

/// The mode that gives a head its size: the current one, or else the first.
pub open spec fn sizing_mode(head: OutputHeadSnapshotView) -> Option<OutputModeSnapshot> {
    if head.current_mode is Some {
        head.current_mode
    } else if head.modes.len() > 0 {
        Some(head.modes[0])
    } else {
        None
    }
}

/// The properties of the monitor at a head.
pub open spec fn head_properties(head: OutputHeadSnapshotView) -> MonitorPropertiesView {
    MonitorPropertiesView {
        width: match sizing_mode(head) {
            Some(mode) => Some(mode.width),
            None => None,
        },
        height: match sizing_mode(head) {
            Some(mode) => Some(mode.height),
            None => None,
        },
        underscanning: None,
        builtin: Some("eDP"@.is_prefix_of(head.name)),
        max_size: None,
        name: match head.description {
            Some(description) => Some(description),
            None => Some(head.name),
        },
    }
}

impl MonitorProperties {
    /// The properties of the monitor at a sway output.
    pub fn new(output: &sway::Output) -> (properties: MonitorProperties)
        ensures
            properties@ == output_properties(output@),
    {
        let mut name = String::new();
        name.append(output.make.as_str());
        name.append(" ");
        name.append(output.model.as_str());
        name.append(" ");
        name.append(output.serial.as_str());
        assert(Some(name@) =~= output_properties(output@).name);
        MonitorProperties {
            width: Some(output.rect.width),
            height: Some(output.rect.height),
            underscanning: None,
            builtin: Some(text::starts_with(output.name.as_str(), "eDP")),
            max_size: None,
            name: Some(name),
        }
    }

    /// The properties of the monitor at a head.
    pub fn from_snapshot(head: &OutputHeadSnapshot) -> (properties: MonitorProperties)
        ensures
            properties@ == head_properties(head@),
    {
        let mode = match head.current_mode {
            Some(mode) => Some(mode),
            None => if head.modes.len() > 0 {
                Some(head.modes[0])
            } else {
                None
            },
        };
        let (width, height) = match mode {
            Some(mode) => (Some(mode.width), Some(mode.height)),
            None => (None, None),
        };
        let name = match &head.description {
            Some(description) => description.clone(),
            None => head.name.clone(),
        };
        MonitorProperties {
            width,
            height,
            underscanning: None,
            builtin: Some(text::starts_with(head.name.as_str(), "eDP")),
            max_size: None,
            name: Some(name),
        }
    }
}

/// The four names of the monitor at a head.
pub fn snapshot_identity(name: &str, description: Option<&str>) -> (names: (
    String,
    String,
    String,
    String,
))
    ensures
        identity_view(names) == head_identity(
            name@,
            match description {
                Some(d) => Some(d@),
                None => None,
            },
        ),
{
    let connector = match description {
        Some(description) => description.to_owned(),
        None => name.to_owned(),
    };
    let names = (connector, String::new(), String::new(), String::new());
    assert(names.1@ =~= seq![]);
    names
}

/// The modes of a list that a monitor can name: those with a known refresh rate.
pub open spec fn has_refresh() -> spec_fn(OutputModeSnapshot) -> bool {
    |mode: OutputModeSnapshot| mode.refresh_mhz is Some
}

/// Whether a mode of a head is the one that the head is driven in: the selected
/// one by its size and refresh rate, or where none is selected, as marked.
pub open spec fn current_in(
    selected: Option<OutputModeSnapshot>,
    mode: OutputModeSnapshot,
) -> bool {
    match selected {
        Some(s) => mode.width == s.width && mode.height == s.height && mode.refresh_mhz
            == s.refresh_mhz,
        None => mode.current,
    }
}

/// How a monitor names the modes of its head.
pub open spec fn named_mode(
    selected: Option<OutputModeSnapshot>,
) -> spec_fn(OutputModeSnapshot) -> ModesView {
    |mode: OutputModeSnapshot| modes::snapshot_mode(mode, current_in(selected, mode))->0
}

/// The monitor at a head.
pub open spec fn head_monitor(head: OutputHeadSnapshotView) -> MonitorView {
    MonitorView {
        description: head_identity(head.name, head.description),
        modes: head.modes.filter(has_refresh()).map_values(named_mode(head.current_mode)),
        properties: head_properties(head),
    }
}

/// The monitor at a sway output.
pub open spec fn output_monitor(output: sway::OutputView) -> MonitorView {
    MonitorView {
        description: output_identity(output),
        modes: Seq::new(output.modes.len(), |i: int| modes::sway_mode(output, output.modes[i])),
        properties: output_properties(output),
    }
}

impl Monitor {
    /// The monitor at a sway output.
    pub fn new(output: &sway::Output) -> (monitor: Monitor)
        ensures
            monitor@ == output_monitor(output@),
    {
        let mut listed: Vec<Modes> = Vec::new();
        for i in 0..output.modes.len()
            invariant
                listed@.len() == i,
                forall|j: int|
                    0 <= j < i ==> (#[trigger] listed@[j])@ == modes::sway_mode(
                        output@,
                        output@.modes[j],
                    ),
        {
            listed.push(Modes::new(output, &output.modes[i]));
        }
        let monitor = Monitor {
            description: (
                output.name.clone(),
                output.make.clone(),
                output.model.clone(),
                output.serial.clone(),
            ),
            modes: listed,
            properties: MonitorProperties::new(output),
        };
        assert(monitor@.modes =~= output_monitor(output@).modes);
        monitor
    }

    /// The monitor at a head.
    pub fn from_snapshot(head: &OutputHeadSnapshot) -> (monitor: Monitor)
        ensures
            monitor@ == head_monitor(head@),
    {
        let mut listed: Vec<Modes> = Vec::new();
        let ghost named = named_mode(head.current_mode);
        proof {
            reveal(Seq::filter);
            assert(modes::mode_views(listed@) =~= head.modes@.take(0).filter(
                has_refresh(),
            ).map_values(named));
        }
        for i in 0..head.modes.len()
            invariant
                named == named_mode(head.current_mode),
                modes::mode_views(listed@) == head.modes@.take(i as int).filter(
                    has_refresh(),
                ).map_values(named),
        {
            let mode = head.modes[i];
            let current = match head.current_mode {
                Some(selected) => mode.width == selected.width && mode.height == selected.height
                    && mode.refresh_mhz == selected.refresh_mhz,
                None => mode.current,
            };
            let ghost before = listed@;
            proof {
                reveal(Seq::filter);
                assert(head.modes@.take(i + 1).drop_last() =~= head.modes@.take(i as int));
            }
            if let Some(known) = Modes::from_snapshot_with_current(&mode, current) {
                listed.push(known);
                proof {
                    let kept = head.modes@.take(i as int).filter(has_refresh());
                    assert(modes::mode_views(listed@) =~= modes::mode_views(before).push(known@));
                    assert(kept.push(mode).map_values(named) =~= kept.map_values(named).push(
                        named(mode),
                    ));
                }
            }
        }
        assert(head.modes@.take(head.modes@.len() as int) =~= head.modes@);
        let description = match &head.description {
            Some(description) => snapshot_identity(
                head.name.as_str(),
                Some(description.as_str()),
            ),
            None => snapshot_identity(head.name.as_str(), None),
        };
        Monitor { description, modes: listed, properties: MonitorProperties::from_snapshot(head) }
    }

    /// The first mode of this name.
    pub fn search_modes(&self, mode_id: &str) -> (mode: Option<&Modes>)
        ensures
            match mode {
                Some(m) => self@.mode(mode_id@) == Some(m@),
                None => self@.mode(mode_id@) is None,
            },
    {
        let ghost listed = self@.modes;
        let ghost pred = has_id(mode_id@);
        for i in 0..self.modes.len()
            invariant
                listed == self@.modes,
                pred == has_id(mode_id@),
                forall|j: int| 0 <= j < i ==> !pred(#[trigger] listed[j]),
        {
            assert(listed[i as int] == self.modes@[i as int]@);
            if text::text_eq(self.modes[i].get_id(), mode_id) {
                proof {
                    order::lemma_found(listed, pred, i as int);
                }
                return Some(&self.modes[i]);
            }
        }
        proof {
            order::lemma_not_found(listed, pred);
        }
        None
    }

    /// The name that the monitor goes by.
    pub fn get_dpy_name(&self) -> (name: String)
        ensures
            name@ == self@.description.display_name(),
    {
        display_name(&self.description)
    }

    /// The name of the mode that the monitor is driven in.
    pub fn get_current_mode(&self) -> (id: &str)
        ensures
            id@ == self@.current_mode(),
    {
        let ghost listed = self@.modes;
        let ghost pred = is_current();
        for i in 0..self.modes.len()
            invariant
                listed == self@.modes,
                pred == is_current(),
                forall|j: int| 0 <= j < i ==> !pred(#[trigger] listed[j]),
        {
            assert(listed[i as int] == self.modes@[i as int]@);
            if self.modes[i].current() {
                proof {
                    order::lemma_found(listed, pred, i as int);
                }
                return self.modes[i].get_modestr();
            }
        }
        proof {
            order::lemma_not_found(listed, pred);
        }
        "Unknown"
    }
}

impl Clone for Monitor {
    fn clone(&self) -> (r: Monitor)
        ensures
            r@ == self@,
    {
        let r = Monitor {
            description: copy_names(&self.description),
            modes: self.modes.clone(),
            properties: self.properties.clone(),
        };
        assert(r@.modes =~= self@.modes);
        r
    }
}

impl MonitorTransform {
    /// The number that stands for the transform.
    pub open spec fn code(self) -> u32 {
        match self {
            MonitorTransform::Normal => 0,
            MonitorTransform::Left => 1,
            MonitorTransform::Down => 2,
            MonitorTransform::Right => 3,
            MonitorTransform::Flipped => 4,
            MonitorTransform::FlippedLeft => 5,
            MonitorTransform::FlippedDown => 6,
            MonitorTransform::FlippedRight => 7,
        }
    }

    /// The word by which sway sets the transform.
    pub open spec fn sway_word(self) -> Seq<char> {
        match self {
            MonitorTransform::Normal => "normal"@,
            MonitorTransform::Right => "90"@,
            MonitorTransform::Down => "180"@,
            MonitorTransform::Left => "270"@,
            MonitorTransform::Flipped => "flipped"@,
            MonitorTransform::FlippedRight => "flipped-90"@,
            MonitorTransform::FlippedDown => "flipped-180"@,
            MonitorTransform::FlippedLeft => "flipped-270"@,
        }
    }

    /// The transform in the other direction.
    pub open spec fn reversed(self) -> MonitorTransform {
        match self {
            MonitorTransform::Left => MonitorTransform::Right,
            MonitorTransform::Right => MonitorTransform::Left,
            MonitorTransform::FlippedLeft => MonitorTransform::FlippedRight,
            MonitorTransform::FlippedRight => MonitorTransform::FlippedLeft,
            other => other,
        }
    }

    /// The transform that the number stands for.
    pub fn from_u32(transform: u32) -> (r: Option<MonitorTransform>)
        ensures
            r == transform_of(transform),
    {
        match transform {
            0 => Some(MonitorTransform::Normal),
            1 => Some(MonitorTransform::Left),
            2 => Some(MonitorTransform::Down),
            3 => Some(MonitorTransform::Right),
            4 => Some(MonitorTransform::Flipped),
            5 => Some(MonitorTransform::FlippedLeft),
            6 => Some(MonitorTransform::FlippedDown),
            7 => Some(MonitorTransform::FlippedRight),
            _ => None,
        }
    }

    /// The number that stands for the transform.
    pub fn to_u32(self) -> (r: u32)
        ensures
            r == self.code(),
    {
        match self {
            MonitorTransform::Normal => 0,
            MonitorTransform::Left => 1,
            MonitorTransform::Down => 2,
            MonitorTransform::Right => 3,
            MonitorTransform::Flipped => 4,
            MonitorTransform::FlippedLeft => 5,
            MonitorTransform::FlippedDown => 6,
            MonitorTransform::FlippedRight => 7,
        }
    }

    /// The transform that sway reports by this word.
    pub fn from_sway(sway_transform: &Option<String>) -> (r: MonitorTransform)
        ensures
            r == reported_transform(text::option_text(*sway_transform)),
    {
        match sway_transform {
            Some(word) => {
                let word = word.as_str();
                if text::text_eq(word, "90") {
                    MonitorTransform::Left
                } else if text::text_eq(word, "180") {
                    MonitorTransform::Down
                } else if text::text_eq(word, "270") {
                    MonitorTransform::Right
                } else if text::text_eq(word, "flipped") {
                    MonitorTransform::Flipped
                } else if text::text_eq(word, "flipped-90") {
                    MonitorTransform::FlippedLeft
                } else if text::text_eq(word, "flipped-180") {
                    MonitorTransform::FlippedDown
                } else if text::text_eq(word, "flipped-270") {
                    MonitorTransform::FlippedRight
                } else {
                    MonitorTransform::Normal
                }
            },
            None => MonitorTransform::Normal,
        }
    }

    /// The word by which sway sets the transform.
    pub fn to_sway(self) -> (word: &'static str)
        ensures
            word@ == self.sway_word(),
    {
        match self {
            MonitorTransform::Normal => "normal",
            MonitorTransform::Right => "90",
            MonitorTransform::Down => "180",
            MonitorTransform::Left => "270",
            MonitorTransform::Flipped => "flipped",
            MonitorTransform::FlippedRight => "flipped-90",
            MonitorTransform::FlippedDown => "flipped-180",
            MonitorTransform::FlippedLeft => "flipped-270",
        }
    }
}

/// The transform that a number stands for.
pub open spec fn transform_of(code: u32) -> Option<MonitorTransform> {
    match code {
        0 => Some(MonitorTransform::Normal),
        1 => Some(MonitorTransform::Left),
        2 => Some(MonitorTransform::Down),
        3 => Some(MonitorTransform::Right),
        4 => Some(MonitorTransform::Flipped),
        5 => Some(MonitorTransform::FlippedLeft),
        6 => Some(MonitorTransform::FlippedDown),
        7 => Some(MonitorTransform::FlippedRight),
        _ => None,
    }
}

/// The transform that sway reports by a word.
pub open spec fn reported_transform(word: Option<Seq<char>>) -> MonitorTransform {
    if word == Some("90"@) {
        MonitorTransform::Left
    } else if word == Some("180"@) {
        MonitorTransform::Down
    } else if word == Some("270"@) {
        MonitorTransform::Right
    } else if word == Some("flipped"@) {
        MonitorTransform::Flipped
    } else if word == Some("flipped-90"@) {
        MonitorTransform::FlippedLeft
    } else if word == Some("flipped-180"@) {
        MonitorTransform::FlippedDown
    } else if word == Some("flipped-270"@) {
        MonitorTransform::FlippedRight
    } else {
        MonitorTransform::Normal
    }
}

/// A transform and its number determine each other.
pub proof fn transform_codes_round_trip(transform: MonitorTransform, code: u32)
    ensures
        transform_of(transform.code()) == Some(transform),
        transform_of(code) matches Some(t) ==> t.code() == code,
        transform_of(code) is Some <==> code < 8,
{
}

/// The words for turns run in opposite directions in what is reported and in
/// what is written: a transform that is written out and then read as a report
/// comes back turned the other way.
pub proof fn reported_turns_run_the_other_way(transform: MonitorTransform)
    ensures
        reported_transform(Some(transform.sway_word())) == transform.reversed(),
        transform.reversed().reversed() == transform,
{
    reveal_strlit("normal");
    reveal_strlit("90");
    reveal_strlit("180");
    reveal_strlit("270");
    reveal_strlit("flipped");
    reveal_strlit("flipped-90");
    reveal_strlit("flipped-180");
    reveal_strlit("flipped-270");
    assert("normal"@.len() == 6 && "90"@.len() == 2 && "180"@.len() == 3 && "270"@.len() == 3);
    assert("flipped"@.len() == 7 && "flipped-90"@.len() == 10 && "flipped-180"@.len() == 11
        && "flipped-270"@.len() == 11);
    assert("180"@[0] != "270"@[0]);
    assert("flipped-180"@[8] != "flipped-270"@[8]);
}

/// The logical monitor at a sway output; a scale that is not reported is one.
pub open spec fn output_logical(output: sway::OutputView) -> LogicalMonitorView {
    LogicalMonitorView {
        x_pos: output.rect.x,
        y_pos: output.rect.y,
        scale: match output.scale {
            Some(scale) => scale,
            None => scale::scale_one(),
        },
        transform: reported_transform(output.transform).code(),
        primary: output.primary,
        monitors: seq![output_identity(output)],
        properties: LogicalMonitorProperties { dummy: None, dummy2: None },
    }
}

/// The logical monitor at a head. There is none at a head that is switched off
/// or of which scale, position or transform is unknown.
pub open spec fn head_logical(head: OutputHeadSnapshotView) -> Option<LogicalMonitorView> {
    if head.enabled && head.scale is Some && head.position is Some && head.transform is Some {
        Some(
            LogicalMonitorView {
                x_pos: (head.position->0).0,
                y_pos: (head.position->0).1,
                scale: head.scale->0,
                transform: head.transform->0,
                primary: false,
                monitors: seq![head_identity(head.name, head.description)],
                properties: LogicalMonitorProperties { dummy: None, dummy2: None },
            },
        )
    } else {
        None
    }
}

impl LogicalMonitor {
    /// The logical monitor at a sway output.
    pub fn new(output: &sway::Output) -> (monitor: LogicalMonitor)
        ensures
            monitor@ == output_logical(output@),
    {
        let scale = match &output.scale {
            Some(scale) => scale.clone(),
            None => Scale::one(),
        };
        let mut monitors: Vec<(String, String, String, String)> = Vec::new();
        monitors.push(
            (
                output.name.clone(),
                output.make.clone(),
                output.model.clone(),
                output.serial.clone(),
            ),
        );
        let monitor = LogicalMonitor {
            x_pos: output.rect.x,
            y_pos: output.rect.y,
            scale,
            transform: MonitorTransform::from_sway(&output.transform).to_u32(),
            primary: output.primary,
            monitors,
            properties: LogicalMonitorProperties { dummy: None, dummy2: None },
        };
        assert(monitor@.monitors =~= output_logical(output@).monitors);
        monitor
    }

    /// The logical monitor at a head, if the head is on and known well enough.
    pub fn from_snapshot(head: &OutputHeadSnapshot) -> (monitor: Option<LogicalMonitor>)
        ensures
            match monitor {
                Some(m) => head_logical(head@) == Some(m@),
                None => head_logical(head@) is None,
            },
    {
        if !head.enabled {
            return None;
        }
        let scale = match &head.scale {
            Some(scale) => scale.clone(),
            None => return None,
        };
        let (x_pos, y_pos) = match head.position {
            Some(position) => position,
            None => return None,
        };
        let transform = match head.transform {
            Some(transform) => transform,
            None => return None,
        };
        let names = match &head.description {
            Some(description) => snapshot_identity(
                head.name.as_str(),
                Some(description.as_str()),
            ),
            None => snapshot_identity(head.name.as_str(), None),
        };
        let mut monitors: Vec<(String, String, String, String)> = Vec::new();
        monitors.push(names);
        let monitor = LogicalMonitor {
            x_pos,
            y_pos,
            scale,
            transform,
            primary: false,
            monitors,
            properties: LogicalMonitorProperties { dummy: None, dummy2: None },
        };
        assert(monitor@.monitors =~= head_logical(head@)->0.monitors);
        Some(monitor)
    }

    /// The name that the first of its monitors goes by.
    pub fn get_dpy_name(&self) -> (name: String)
        requires
            self@.monitors.len() > 0,
        ensures
            name@ == self@.monitors[0].display_name(),
    {
        display_name(&self.monitors[0])
    }
}

impl Clone for LogicalMonitor {
    fn clone(&self) -> (r: LogicalMonitor)
        ensures
            r@ == self@,
    {
        let mut monitors: Vec<(String, String, String, String)> = Vec::new();
        for i in 0..self.monitors.len()
            invariant
                monitors@.len() == i,
                forall|j: int|
                    0 <= j < i ==> identity_view(#[trigger] monitors@[j]) == self@.monitors[j],
        {
            monitors.push(copy_names(&self.monitors[i]));
        }
        let r = LogicalMonitor {
            x_pos: self.x_pos,
            y_pos: self.y_pos,
            scale: self.scale.clone(),
            transform: self.transform,
            primary: self.primary,
            monitors,
            properties: self.properties,
        };
        assert(r@.monitors =~= self@.monitors);
        r
    }
}

impl LogicalMonitorView {
    /// The connector of the first of its monitors.
    pub open spec fn connector(self) -> Option<Seq<char>> {
        if self.monitors.len() > 0 {
            Some(self.monitors[0].connector)
        } else {
            None
        }
    }

    /// What distinguishes one state of a logical monitor from another.
    ///
    /// One monitor is reported per logical monitor, and profiles resolve the
    /// list through the connector of its first element. The identity keeps to
    /// the same boundary.
    pub open spec fn identity(self) -> (i32, i32, u32, u64, Option<Seq<char>>) {
        (self.y_pos, self.x_pos, self.transform, self.scale.bits, self.connector())
    }
}

/// Feeding a key to a hasher, `Hash::hash` as std has it for strings, numbers,
/// options and tuples of them. What the hasher makes of the key is its own
/// affair, so nothing is said of that.
#[verifier::external_body]
pub fn feed<K: Hash, S: Hasher>(key: &K, state: &mut S) {
    key.hash(state);
}

/// Feeds a key to a hasher: the hasher is left as [`feed`] leaves it.
fn hand_to_hasher<K: Hash, S: Hasher>(key: &K, state: &mut S)
    ensures
        exists|s: &mut S|
            {
                &&& *s == *old(state)
                &&& *final(s) == *final(state)
                &&& #[trigger] call_ensures(feed::<K, S>, (key, s), ())
            },
{
    let f = feed::<K, S>;
    f(key, state)
}

/// What a monitor is hashed by.
pub open spec fn monitor_key(key: ((String, String, String, String), String)) -> (
    IdentityView,
    Seq<char>,
) {
    (identity_view(key.0), key.1@)
}

/// What a logical monitor is hashed by.
pub open spec fn logical_key(key: (i32, i32, u32, u64, Option<String>)) -> (
    i32,
    i32,
    u32,
    u64,
    Option<Seq<char>>,
) {
    (key.0, key.1, key.2, key.3, text::option_text(key.4))
}

impl Monitor {
    /// What the monitor is compared and hashed by.
    pub fn identity(&self) -> (key: ((String, String, String, String), String))
        ensures
            monitor_key(key) == self@.identity(),
    {
        (copy_names(&self.description), self.get_current_mode().to_owned())
    }
}

impl LogicalMonitor {
    /// What the logical monitor is compared and hashed by.
    pub fn identity(&self) -> (key: (i32, i32, u32, u64, Option<String>))
        ensures
            logical_key(key) == self@.identity(),
    {
        let connector = if self.monitors.len() > 0 {
            Some(self.monitors[0].0.clone())
        } else {
            None
        };
        (self.y_pos, self.x_pos, self.transform, self.scale.bits, connector)
    }
}

impl Monitor {
    /// Whether both have the same identity.
    pub fn same_as(&self, other: &Monitor) -> (r: bool)
        ensures
            r == (self@.identity() == other@.identity()),
    {
        let left = self.identity();
        let right = other.identity();
        left.0.0 == right.0.0 && left.0.1 == right.0.1 && left.0.2 == right.0.2 && left.0.3
            == right.0.3 && left.1 == right.1
    }
}

impl LogicalMonitor {
    /// Whether both have the same identity.
    pub fn same_as(&self, other: &LogicalMonitor) -> (r: bool)
        ensures
            r == (self@.identity() == other@.identity()),
    {
        let left = self.identity();
        let right = other.identity();
        let same_connector = match (left.4, right.4) {
            (Some(a), Some(b)) => a == b,
            (None, None) => true,
            _ => false,
        };
        left.0 == right.0 && left.1 == right.1 && left.2 == right.2 && left.3 == right.3
            && same_connector
    }
}

impl PartialEq for Monitor {
    fn eq(&self, other: &Monitor) -> (r: bool) {
        self.same_as(other)
    }
}

impl vstd::std_specs::cmp::PartialEqSpecImpl for Monitor {
    open spec fn obeys_eq_spec() -> bool {
        true
    }

    open spec fn eq_spec(&self, other: &Monitor) -> bool {
        self@.identity() == other@.identity()
    }
}

impl Eq for Monitor {}

impl PartialEq for LogicalMonitor {
    fn eq(&self, other: &LogicalMonitor) -> (r: bool) {
        self.same_as(other)
    }
}

impl vstd::std_specs::cmp::PartialEqSpecImpl for LogicalMonitor {
    open spec fn obeys_eq_spec() -> bool {
        true
    }

    open spec fn eq_spec(&self, other: &LogicalMonitor) -> bool {
        self@.identity() == other@.identity()
    }
}

impl Eq for LogicalMonitor {}

impl Hash for Monitor {
    /// Feeds the identity of the monitor to a hasher.
    fn hash<S: Hasher>(&self, state: &mut S)
        ensures
            exists|key: ((String, String, String, String), String), s: &mut S|
                {
                    &&& monitor_key(key) == self@.identity()
                    &&& *s == *old(state)
                    &&& *final(s) == *final(state)
                    &&& #[trigger] call_ensures(
                        feed::<((String, String, String, String), String), S>,
                        (&key, s),
                        (),
                    )
                },
    {
        hand_to_hasher(&self.identity(), state);
    }
}

impl Hash for LogicalMonitor {
    /// Feeds the identity of the logical monitor to a hasher.
    fn hash<S: Hasher>(&self, state: &mut S)
        ensures
            exists|key: (i32, i32, u32, u64, Option<String>), s: &mut S|
                {
                    &&& logical_key(key) == self@.identity()
                    &&& *s == *old(state)
                    &&& *final(s) == *final(state)
                    &&& #[trigger] call_ensures(
                        feed::<(i32, i32, u32, u64, Option<String>), S>,
                        (&key, s),
                        (),
                    )
                },
    {
        hand_to_hasher(&self.identity(), state);
    }
}

/// The word for the transform with this number; a number that stands for none
/// is taken for no transform.
pub open spec fn transform_word(code: u32) -> Seq<char> {
    match transform_of(code) {
        Some(transform) => transform.sway_word(),
        None => MonitorTransform::Normal.sway_word(),
    }
}

/// The line of a profile that switches a monitor on.
pub open spec fn enabling_line(
    name: Seq<char>,
    mode: Option<Seq<char>>,
    x_pos: i32,
    y_pos: i32,
    transform: u32,
    scale: Seq<char>,
) -> Seq<char> {
    let setting = match mode {
        Some(id) => " mode "@ + id,
        None => seq![],
    };
    "\toutput \""@ + name + "\""@ + setting + " position "@ + text::decimal(x_pos as int) + ","@
        + text::decimal(y_pos as int) + " transform "@ + transform_word(transform) + " scale "@
        + scale + " enable\n"@
}

fn push_enabling_line(
    out: &mut String,
    name: &str,
    mode: Option<&str>,
    x_pos: i32,
    y_pos: i32,
    transform: u32,
    scale: &str,
)
    ensures
        final(out)@ == old(out)@ + enabling_line(
            name@,
            match mode {
                Some(id) => Some(id@),
                None => None,
            },
            x_pos,
            y_pos,
            transform,
            scale@,
        ),
{
    let ghost start = out@;
    let transform_name = match MonitorTransform::from_u32(transform) {
        Some(transform) => transform.to_sway(),
        None => MonitorTransform::Normal.to_sway(),
    };
    out.append("\toutput \"");
    out.append(name);
    out.append("\"");
    if let Some(id) = mode {
        out.append(" mode ");
        out.append(id);
    }
    out.append(" position ");
    text::push_int(out, x_pos);
    out.append(",");
    text::push_int(out, y_pos);
    out.append(" transform ");
    out.append(transform_name);
    out.append(" scale ");
    out.append(scale);
    out.append(" enable\n");
    assert(out@ =~= start + enabling_line(
        name@,
        match mode {
            Some(id) => Some(id@),
            None => None,
        },
        x_pos,
        y_pos,
        transform,
        scale@,
    ));
}

/// The first monitor at a connector.
fn monitor_at<'a>(monitors: &'a [Monitor], connector: &str) -> (monitor: Option<&'a Monitor>)
    ensures
        match monitor {
            Some(m) => order::find_first(monitor_views(monitors@), at_connector(connector@))
                == Some(m@),
            None => order::find_first(
                monitor_views(monitors@),
                at_connector(connector@),
            ) is None,
        },
{
    let ghost views = monitor_views(monitors@);
    let ghost pred = at_connector(connector@);
    for i in 0..monitors.len()
        invariant
            views == monitor_views(monitors@),
            pred == at_connector(connector@),
            forall|j: int| 0 <= j < i ==> !pred(#[trigger] views[j]),
    {
        assert(views[i as int] == monitors@[i as int]@);
        if text::text_eq(monitors[i].description.0.as_str(), connector) {
            proof {
                order::lemma_found(views, pred, i as int);
            }
            return Some(&monitors[i]);
        }
    }
    proof {
        order::lemma_not_found(views, pred);
    }
    None
}

/// Something that a profile switches a monitor on for.
pub trait KanshiProfileEntry {
    /// Whether the entry can be looked up among these monitors.
    spec fn can_find(&self, monitors: Seq<MonitorView>) -> bool;

    /// Whether the entry can be written.
    spec fn can_write(&self) -> bool;

    /// The monitor among these that the entry is about.
    spec fn found(&self, monitors: Seq<MonitorView>) -> Option<MonitorView>;

    /// The line that switches the monitor on, if there is one.
    spec fn line(&self, monitor: MonitorView) -> Option<Seq<char>>;

    fn find_monitor<'a>(&self, monitors: &'a [Monitor]) -> (monitor: Option<&'a Monitor>)
        requires
            self.can_find(monitor_views(monitors@)),
        ensures
            match monitor {
                Some(m) => self.found(monitor_views(monitors@)) == Some(m@),
                None => self.found(monitor_views(monitors@)) is None,
            },
    ;

    /// Appends the line that switches the monitor on; tells whether there is one.
    fn write_kanshi(&self, kanshi_file: &mut String, monitor: &Monitor) -> (written: bool)
        requires
            self.can_write(),
        ensures
            match self.line(monitor@) {
                Some(line) => written && final(kanshi_file)@ == old(kanshi_file)@ + line,
                None => !written && final(kanshi_file)@ == old(kanshi_file)@,
            },
    ;
}

/// Why a request is refused or fails.
#[derive(Debug, PartialEq, Eq)]
pub enum ConfigError {
    Failed(String),
    InvalidArgs(String),
    IOError(String),
    /// The bus did not take what was sent over it.
    ZBus(String),
}

/// What a [`ConfigError`] stands for.
pub enum ConfigErrorView {
    Failed(Seq<char>),
    InvalidArgs(Seq<char>),
    IOError(Seq<char>),
    ZBus(Seq<char>),
}

impl View for ConfigError {
    type V = ConfigErrorView;

    open spec fn view(&self) -> ConfigErrorView {
        match *self {
            ConfigError::Failed(message) => ConfigErrorView::Failed(message@),
            ConfigError::InvalidArgs(message) => ConfigErrorView::InvalidArgs(message@),
            ConfigError::IOError(message) => ConfigErrorView::IOError(message@),
            ConfigError::ZBus(message) => ConfigErrorView::ZBus(message@),
        }
    }
}

/// What the outcome of a request stands for.
pub open spec fn outcome_view(r: Result<(), ConfigError>) -> Result<(), ConfigErrorView> {
    match r {
        Ok(()) => Ok(()),
        Err(error) => Err(error@),
    }
}

/// Showing the monitor at this connector first.
pub open spec fn shows_connector(connector: Seq<char>) -> spec_fn(LogicalMonitorView) -> bool {
    |monitor: LogicalMonitorView| monitor.connector() == Some(connector)
}

impl MonitorApplyView {
    /// The monitor among these that is asked for.
    pub open spec fn monitor(self, monitors: Seq<MonitorView>) -> Option<MonitorView> {
        order::find_first(monitors, at_connector(self.monitors[0].connector))
    }

    /// The mode of the monitor that is asked for.
    pub open spec fn mode(self, monitor: MonitorView) -> Option<ModesView> {
        monitor.mode(self.monitors[0].mode_id)
    }

    /// Whether every logical monitor that a search comes by shows some monitor.
    pub open spec fn can_search(self, logical_monitors: Seq<LogicalMonitorView>) -> bool {
        &&& logical_monitors.len() > 0 ==> self.monitors.len() > 0
        &&& forall|i: int|
            0 <= i < logical_monitors.len() && (forall|j: int|
                0 <= j < i ==> !shows_connector(self.monitors[0].connector)(
                    #[trigger] logical_monitors[j],
                )) ==> (#[trigger] logical_monitors[i]).monitors.len() > 0
    }

    /// What a check of the request against the monitors comes to. A mode that
    /// the monitor does not have is reported as an invalid position.
    pub open spec fn verdict(self, monitors: Seq<MonitorView>) -> Result<(), ConfigErrorView> {
        match self.monitor(monitors) {
            None => Err(ConfigErrorView::Failed("Monitor not found"@)),
            Some(monitor) => match self.mode(monitor) {
                None => Err(ConfigErrorView::InvalidArgs("Invalid position"@)),
                Some(mode) => if !mode.valid_scale(self.scale.bits) {
                    Err(ConfigErrorView::InvalidArgs("Invalid scale"@))
                } else if transform_of(self.transform) is None {
                    Err(ConfigErrorView::InvalidArgs("Invalid tranform"@))
                } else {
                    Ok(())
                },
            },
        }
    }

    /// The line that switches on a monitor as asked for, if it has the mode.
    pub open spec fn line(self, monitor: MonitorView) -> Option<Seq<char>> {
        match self.mode(monitor) {
            Some(mode) => Some(
                enabling_line(
                    monitor.description.display_name(),
                    Some(mode.id),
                    self.x_pos,
                    self.y_pos,
                    self.transform,
                    self.scale.text,
                ),
            ),
            None => None,
        }
    }
}

impl LogicalMonitorView {
    /// The monitor among these that is shown first.
    pub open spec fn monitor(self, monitors: Seq<MonitorView>) -> Option<MonitorView> {
        order::find_first(monitors, at_connector(self.monitors[0].connector))
    }

    /// The line that switches on a monitor as it is shown; the mode is left out
    /// where it is unknown.
    pub open spec fn line(self, monitor: MonitorView) -> Seq<char> {
        enabling_line(
            monitor.description.display_name(),
            if monitor.current_mode() == "Unknown"@ {
                None
            } else {
                Some(monitor.current_mode())
            },
            self.x_pos,
            self.y_pos,
            self.transform,
            self.scale.text,
        )
    }
}

impl MonitorApply {
    /// The name of the mode that is asked for, if the monitor has it.
    pub fn get_modestr(&self, monitor: &Monitor) -> (mode: Option<String>)
        requires
            self@.monitors.len() > 0,
        ensures
            match mode {
                Some(id) => self@.mode(monitor@) is Some && self@.mode(monitor@)->0.id == id@,
                None => self@.mode(monitor@) is None,
            },
    {
        match monitor.search_modes(self.monitors[0].1.as_str()) {
            Some(mode) => Some(mode.get_modestr().to_owned()),
            None => None,
        }
    }

    /// The monitor that is asked for.
    pub fn search_monitor<'a>(&self, monitors: &'a [Monitor]) -> (monitor: Option<&'a Monitor>)
        requires
            monitors@.len() > 0 ==> self@.monitors.len() > 0,
        ensures
            match monitor {
                Some(m) => self@.monitor(monitor_views(monitors@)) == Some(m@),
                None => self@.monitor(monitor_views(monitors@)) is None,
            },
    {
        if monitors.len() == 0 {
            return None;
        }
        monitor_at(monitors, self.monitors[0].0.as_str())
    }

    /// The first logical monitor that shows the monitor that is asked for.
    pub fn search_logical_monitor<'a>(&self, logical_monitors: &'a [LogicalMonitor]) -> (monitor:
        Option<&'a LogicalMonitor>)
        requires
            self@.can_search(logical_views(logical_monitors@)),
        ensures
            match monitor {
                Some(m) => order::find_first(
                    logical_views(logical_monitors@),
                    shows_connector(self@.monitors[0].connector),
                ) == Some(m@),
                None => order::find_first(
                    logical_views(logical_monitors@),
                    shows_connector(self@.monitors[0].connector),
                ) is None,
            },
    {
        let ghost views = logical_views(logical_monitors@);
        let ghost pred = shows_connector(self@.monitors[0].connector);
        for i in 0..logical_monitors.len()
            invariant
                self@.can_search(views),
                views == logical_views(logical_monitors@),
                pred == shows_connector(self@.monitors[0].connector),
                forall|j: int| 0 <= j < i ==> !pred(#[trigger] views[j]),
        {
            assert(views[i as int] == logical_monitors@[i as int]@);
            assert(views[i as int].monitors.len() > 0);
            if text::text_eq(
                logical_monitors[i].monitors[0].0.as_str(),
                self.monitors[0].0.as_str(),
            ) {
                proof {
                    order::lemma_found(views, pred, i as int);
                }
                return Some(&logical_monitors[i]);
            }
        }
        proof {
            order::lemma_not_found(views, pred);
        }
        None
    }

    /// Appends the line that switches the monitor on as asked for, if the
    /// monitor has the mode.
    pub fn save_kanshi(&self, kanshi_file: &mut Vec<u8>, monitor: &Monitor)
        requires
            self@.monitors.len() > 0,
        ensures
            final(kanshi_file)@ == old(kanshi_file)@ + match self@.line(monitor@) {
                Some(line) => encode_utf8(line),
                None => seq![],
            },
    {
        let mut line = String::new();
        if self.write_kanshi(&mut line, monitor) {
            assert(line@ =~= self@.line(monitor@)->0);
            kanshi_file.extend_from_slice(line.as_str().as_bytes());
        }
        assert(self@.line(monitor@) is None ==> kanshi_file@ =~= old(kanshi_file)@ + Seq::<
            u8,
        >::empty());
    }

    /// Checks the request against the monitors.
    pub fn verify(&self, monitors: &[Monitor]) -> (r: Result<(), ConfigError>)
        requires
            monitors@.len() > 0 ==> self@.monitors.len() > 0,
        ensures
            outcome_view(r) == self@.verdict(monitor_views(monitors@)),
    {
        let monitor = match self.search_monitor(monitors) {
            Some(monitor) => monitor,
            None => return Err(ConfigError::Failed("Monitor not found".to_owned())),
        };
        proof {
            order::lemma_find_first(
                monitor_views(monitors@),
                at_connector(self@.monitors[0].connector),
            );
        }
        let mode = match monitor.search_modes(self.monitors[0].1.as_str()) {
            Some(mode) => mode,
            None => return Err(ConfigError::InvalidArgs("Invalid position".to_owned())),
        };
        if !mode.is_valid_scale(&self.scale) {
            return Err(ConfigError::InvalidArgs("Invalid scale".to_owned()));
        }
        if MonitorTransform::from_u32(self.transform).is_none() {
            return Err(ConfigError::InvalidArgs("Invalid tranform".to_owned()));
        }
        Ok(())
    }
}

impl Clone for MonitorApply {
    fn clone(&self) -> (r: MonitorApply)
        ensures
            r@ == self@,
    {
        let mut monitors: Vec<(String, String, MonitorProperties)> = Vec::new();
        for i in 0..self.monitors.len()
            invariant
                monitors@.len() == i,
                forall|j: int|
                    0 <= j < i ==> (#[trigger] monitors@[j]).0@ == self@.monitors[j].connector
                        && monitors@[j].1@ == self@.monitors[j].mode_id && monitors@[j].2@
                        == self@.monitors[j].properties,
        {
            let target = &self.monitors[i];
            monitors.push((target.0.clone(), target.1.clone(), target.2.clone()));
        }
        let r = MonitorApply {
            x_pos: self.x_pos,
            y_pos: self.y_pos,
            scale: self.scale.clone(),
            transform: self.transform,
            primary: self.primary,
            monitors,
        };
        assert(r@.monitors =~= self@.monitors);
        r
    }
}

impl KanshiProfileEntry for MonitorApply {
    open spec fn can_find(&self, monitors: Seq<MonitorView>) -> bool {
        monitors.len() > 0 ==> self@.monitors.len() > 0
    }

    open spec fn can_write(&self) -> bool {
        self@.monitors.len() > 0
    }

    open spec fn found(&self, monitors: Seq<MonitorView>) -> Option<MonitorView> {
        self@.monitor(monitors)
    }

    open spec fn line(&self, monitor: MonitorView) -> Option<Seq<char>> {
        self@.line(monitor)
    }

    fn find_monitor<'a>(&self, monitors: &'a [Monitor]) -> (monitor: Option<&'a Monitor>) {
        self.search_monitor(monitors)
    }

    fn write_kanshi(&self, kanshi_file: &mut String, monitor: &Monitor) -> (written: bool) {
        let mode = match self.get_modestr(monitor) {
            Some(mode) => mode,
            None => return false,
        };
        push_enabling_line(
            kanshi_file,
            monitor.get_dpy_name().as_str(),
            Some(mode.as_str()),
            self.x_pos,
            self.y_pos,
            self.transform,
            self.scale.text.as_str(),
        );
        true
    }
}

impl KanshiProfileEntry for LogicalMonitor {
    open spec fn can_find(&self, monitors: Seq<MonitorView>) -> bool {
        self@.monitors.len() > 0
    }

    open spec fn can_write(&self) -> bool {
        true
    }

    open spec fn found(&self, monitors: Seq<MonitorView>) -> Option<MonitorView> {
        self@.monitor(monitors)
    }

    open spec fn line(&self, monitor: MonitorView) -> Option<Seq<char>> {
        Some(self@.line(monitor))
    }

    fn find_monitor<'a>(&self, monitors: &'a [Monitor]) -> (monitor: Option<&'a Monitor>) {
        monitor_at(monitors, self.monitors[0].0.as_str())
    }

    fn write_kanshi(&self, kanshi_file: &mut String, monitor: &Monitor) -> (written: bool) {
        let current = monitor.get_current_mode();
        let mode = if text::text_eq(current, "Unknown") {
            None
        } else {
            Some(current)
        };
        push_enabling_line(
            kanshi_file,
            monitor.get_dpy_name().as_str(),
            mode,
            self.x_pos,
            self.y_pos,
            self.transform,
            self.scale.text.as_str(),
        );
        true
    }
}

/// Equality of monitors is an equivalence, and equal monitors are hashed by the
/// same key.
pub proof fn monitor_equality_is_an_equivalence(
    a: Monitor,
    b: Monitor,
    c: Monitor,
    a_key: ((String, String, String, String), String),
    b_key: ((String, String, String, String), String),
)
    requires
        monitor_key(a_key) == a@.identity(),
        monitor_key(b_key) == b@.identity(),
    ensures
        vstd::std_specs::cmp::PartialEqSpec::eq_spec(&a, &a),
        vstd::std_specs::cmp::PartialEqSpec::eq_spec(&a, &b)
            ==> vstd::std_specs::cmp::PartialEqSpec::eq_spec(&b, &a),
        vstd::std_specs::cmp::PartialEqSpec::eq_spec(&a, &b)
            && vstd::std_specs::cmp::PartialEqSpec::eq_spec(&b, &c)
            ==> vstd::std_specs::cmp::PartialEqSpec::eq_spec(&a, &c),
        vstd::std_specs::cmp::PartialEqSpec::eq_spec(&a, &b) <==> monitor_key(a_key) == monitor_key(
            b_key,
        ),
{
}

/// Equality of logical monitors is an equivalence, and equal logical monitors
/// are hashed by the same key.
pub proof fn logical_equality_is_an_equivalence(
    a: LogicalMonitor,
    b: LogicalMonitor,
    c: LogicalMonitor,
    a_key: (i32, i32, u32, u64, Option<String>),
    b_key: (i32, i32, u32, u64, Option<String>),
)
    requires
        logical_key(a_key) == a@.identity(),
        logical_key(b_key) == b@.identity(),
    ensures
        vstd::std_specs::cmp::PartialEqSpec::eq_spec(&a, &a),
        vstd::std_specs::cmp::PartialEqSpec::eq_spec(&a, &b)
            ==> vstd::std_specs::cmp::PartialEqSpec::eq_spec(&b, &a),
        vstd::std_specs::cmp::PartialEqSpec::eq_spec(&a, &b)
            && vstd::std_specs::cmp::PartialEqSpec::eq_spec(&b, &c)
            ==> vstd::std_specs::cmp::PartialEqSpec::eq_spec(&a, &c),
        vstd::std_specs::cmp::PartialEqSpec::eq_spec(&a, &b) <==> logical_key(a_key) == logical_key(
            b_key,
        ),
{
}

/// Equal monitors are hashed alike: as a hasher is left by the one, so it may be
/// left by the other.
pub proof fn equal_monitors_are_hashed_alike<S: Hasher>(
    a: Monitor,
    b: Monitor,
    before: S,
    after: S,
)
    requires
        vstd::std_specs::cmp::PartialEqSpec::eq_spec(&a, &b),
        exists|key: ((String, String, String, String), String), s: &mut S|
            {
                &&& monitor_key(key) == a@.identity()
                &&& *s == before
                &&& *final(s) == after
                &&& #[trigger] call_ensures(
                    feed::<((String, String, String, String), String), S>,
                    (&key, s),
                    (),
                )
            },
    ensures
        exists|key: ((String, String, String, String), String), s: &mut S|
            {
                &&& monitor_key(key) == b@.identity()
                &&& *s == before
                &&& *final(s) == after
                &&& #[trigger] call_ensures(
                    feed::<((String, String, String, String), String), S>,
                    (&key, s),
                    (),
                )
            },
{
}

/// Equal logical monitors are hashed alike: as a hasher is left by the one, so
/// it may be left by the other.
pub proof fn equal_logical_monitors_are_hashed_alike<S: Hasher>(
    a: LogicalMonitor,
    b: LogicalMonitor,
    before: S,
    after: S,
)
    requires
        vstd::std_specs::cmp::PartialEqSpec::eq_spec(&a, &b),
        exists|key: (i32, i32, u32, u64, Option<String>), s: &mut S|
            {
                &&& logical_key(key) == a@.identity()
                &&& *s == before
                &&& *final(s) == after
                &&& #[trigger] call_ensures(
                    feed::<(i32, i32, u32, u64, Option<String>), S>,
                    (&key, s),
                    (),
                )
            },
    ensures
        exists|key: (i32, i32, u32, u64, Option<String>), s: &mut S|
            {
                &&& logical_key(key) == b@.identity()
                &&& *s == before
                &&& *final(s) == after
                &&& #[trigger] call_ensures(
                    feed::<(i32, i32, u32, u64, Option<String>), S>,
                    (&key, s),
                    (),
                )
            },
{
}

/// Vendor, product and serial of what a logical monitor shows, its being
/// primary and its properties are no part of its identity.
pub proof fn logical_identity_ignores_metadata(left: LogicalMonitor, right: LogicalMonitor)
    requires
        left@.x_pos == right@.x_pos,
        left@.y_pos == right@.y_pos,
        left@.scale.bits == right@.scale.bits,
        left@.transform == right@.transform,
        left@.connector() == right@.connector(),
    ensures
        vstd::std_specs::cmp::PartialEqSpec::eq_spec(&left, &right),
{
}

/// A monitor at a head is driven in the mode that the head has selected, where
/// that is one of the head's modes and its refresh rate is known.
pub proof fn selected_mode_is_the_current_mode(
    head: OutputHeadSnapshotView,
    selected: OutputModeSnapshot,
    refresh_mhz: i32,
)
    requires
        head.current_mode == Some(selected),
        selected.refresh_mhz == Some(refresh_mhz),
        exists|i: int|
            0 <= i < head.modes.len() && current_in(head.current_mode, #[trigger] head.modes[i]),
    ensures
        head_monitor(head).current_mode() == modes::mode_id(
            selected.width as int,
            selected.height as int,
            refresh_mhz as int,
        ),
{
    let i = choose|i: int|
        0 <= i < head.modes.len() && current_in(head.current_mode, #[trigger] head.modes[i]);
    let known = head.modes.filter(has_refresh());
    let listed = head_monitor(head).modes;
    head.modes.lemma_filter_contains(has_refresh(), i);
    let k = choose|k: int| 0 <= k < known.len() && known[k] == head.modes[i];
    let current = is_current();
    order::lemma_find_first(listed, current);
    assert(current(listed[k]));
    if let Some(found) = order::find_first(listed, current) {
        let j = choose|j: int| 0 <= j < listed.len() && listed[j] == found;
        head.modes.lemma_filter_pred(has_refresh(), j);
        assert(has_refresh()(known[j]));
        assert(listed[j] == named_mode(head.current_mode)(known[j]));
        assert(current_in(head.current_mode, known[j]));
    }
}

/// A logical monitor and a monitor that come from the same output, or from the
/// same head, go by the same names.
pub proof fn logical_monitors_name_their_monitors(
    output: sway::OutputView,
    head: OutputHeadSnapshotView,
)
    ensures
        output_logical(output).monitors[0] == output_monitor(output).description,
        head_logical(head) matches Some(logical) ==> logical.monitors[0] == head_monitor(
            head,
        ).description,
{
}

/// A monitor at a head goes by the description of the head, or by its name.
pub proof fn head_monitor_goes_by_its_description(head: OutputHeadSnapshotView)
    ensures
        head_monitor(head).description.display_name() == match head.description {
            Some(description) => description,
            None => head.name,
        },
        head_monitor(head).properties.name == Some(
            head_monitor(head).description.display_name(),
        ),
{
}

/// A request that passes the check is written into the profile.
pub proof fn accepted_request_is_written(request: MonitorApplyView, monitors: Seq<MonitorView>)
    requires
        request.verdict(monitors) is Ok,
    ensures
        request.monitor(monitors) matches Some(monitor) && request.line(monitor) is Some,
{
}

/// A head that is published with a selected mode of known refresh rate gives a
/// monitor that is driven in that mode.
pub proof fn published_selection_reaches_the_monitor(head: PendingHeadView, refresh_mhz: i32)
    requires
        head.wf(),
        head.selected_mode() matches Some(id) && head.modes[id].refresh_mhz == Some(refresh_mhz),
    ensures
        ({
            let mode = head.modes[head.selected_mode()->0].snapshot(true);
            head_monitor(head.snapshot()).current_mode() == modes::mode_id(
                mode.width as int,
                mode.height as int,
                refresh_mhz as int,
            )
        }),
{
    let published = head.snapshot();
    collector::current_mode_is_the_one_marked(head);
    let i = choose|i: int|
        0 <= i < published.modes.len() && (#[trigger] published.modes[i]).current;
    assert(current_in(published.current_mode, published.modes[i]));
    selected_mode_is_the_current_mode(published, published.current_mode->0, refresh_mhz);
}

} // verus!
