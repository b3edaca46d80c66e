//! The state that the daemon serves, and how it follows what is observed and
//! what is asked for.

use vstd::prelude::*;

use crate::daemon;
use crate::monitor;
use crate::monitor::{
    IdentityView, KanshiProfileEntry, LogicalMonitor, LogicalMonitorView, Monitor, MonitorView,
};
use crate::profile;
use crate::state_set;
use crate::state_set::StateSet;
use crate::sway;
use crate::wayland_observer::{OutputHeadSnapshotView, OutputSnapshot};

verus! {

/// Holds the observed configuration.
#[derive(Debug, PartialEq)]
pub struct DisplayManager {
    pub serial: u32,
    pub monitors: Vec<Monitor>,
    pub logical_monitors: Vec<LogicalMonitor>,
    pub properties: DisplayManagerProperties,
}

/// Properties of the whole configuration.
#[derive(Debug, Clone, Copy, PartialEq, Eq, Structural)]
pub struct DisplayManagerProperties {
    pub layout: Option<u32>,
    pub support_layout_change: Option<bool>,
    pub global_scale: Option<bool>,
    pub legacy_scale_factor: Option<i32>,
}

/// What a [`DisplayManager`] stands for.
pub struct DisplayManagerView {
    pub serial: u32,
    pub monitors: Seq<MonitorView>,
    pub logical_monitors: Seq<LogicalMonitorView>,
    pub properties: DisplayManagerProperties,
}

impl View for DisplayManager {
    type V = DisplayManagerView;

    open spec fn view(&self) -> DisplayManagerView {
        DisplayManagerView {
            serial: self.serial,
            monitors: monitor::monitor_views(self.monitors@),
            logical_monitors: monitor::logical_views(self.logical_monitors@),
            properties: self.properties,
        }
    }
}

/// The properties to begin with.
pub open spec fn initial_properties() -> DisplayManagerProperties {
    DisplayManagerProperties {
        layout: Some(1),
        support_layout_change: Some(true),
        global_scale: Some(false),
        legacy_scale_factor: Some(1),
    }
}

/// Whether every logical monitor of a list shows some monitor.
pub open spec fn all_show(logical_monitors: Seq<LogicalMonitorView>) -> bool {
    forall|i: int|
        0 <= i < logical_monitors.len() ==> (#[trigger] logical_monitors[i]).monitors.len() > 0
}

impl DisplayManagerView {
    /// The configuration before anything is observed.
    pub open spec fn initial() -> DisplayManagerView {
        DisplayManagerView {
            serial: 0,
            monitors: seq![],
            logical_monitors: seq![],
            properties: initial_properties(),
        }
    }

    /// Every logical monitor shows some monitor.
    pub open spec fn wf(self) -> bool {
        all_show(self.logical_monitors)
    }

    /// With other monitors in place of those that were observed before.
    pub open spec fn with_observed(
        self,
        monitors: Seq<MonitorView>,
        logical_monitors: Seq<LogicalMonitorView>,
    ) -> DisplayManagerView {
        DisplayManagerView { monitors, logical_monitors, ..self }
    }
}

impl DisplayManagerProperties {
    pub fn new() -> (properties: DisplayManagerProperties)
        ensures
            properties == initial_properties(),
    {
        DisplayManagerProperties {
            layout: Some(1),
            support_layout_change: Some(true),
            global_scale: Some(false),
            legacy_scale_factor: Some(1),
        }
    }
}

/// An error of the server, in words.
#[derive(Debug)]
pub struct ServerError {
    pub description: String,
}

impl ServerError {
    pub fn _produce_error(err: &str) -> (error: ServerError)
        ensures
            error.description@ == err@,
    {
        ServerError { description: err.to_owned() }
    }

    /// The error in words.
    pub fn message(&self) -> (message: String)
        ensures
            message@ == self.description@,
    {
        self.description.clone()
    }

    pub fn description(&self) -> (description: &str)
        ensures
            description@ == self.description@,
    {
        self.description.as_str()
    }
}

/// Being an output that is switched on.
pub open spec fn is_active() -> spec_fn(sway::OutputView) -> bool {
    |output: sway::OutputView| output.active
}

/// The monitors at some sway outputs: one at each.
pub open spec fn output_monitors(outputs: Seq<sway::OutputView>) -> Seq<MonitorView> {
    Seq::new(outputs.len(), |i: int| monitor::output_monitor(outputs[i]))
}

/// The logical monitors at some sway outputs: one at each that is switched on.
pub open spec fn output_logicals(outputs: Seq<sway::OutputView>) -> Seq<LogicalMonitorView> {
    outputs.filter(is_active()).map_values(
        |output: sway::OutputView| monitor::output_logical(output),
    )
}

/// The monitors at the heads of a snapshot: one at each.
pub open spec fn head_monitors(heads: Seq<OutputHeadSnapshotView>) -> Seq<MonitorView> {
    Seq::new(heads.len(), |i: int| monitor::head_monitor(heads[i]))
}

/// Being a head that gives a logical monitor.
pub open spec fn gives_logical() -> spec_fn(OutputHeadSnapshotView) -> bool {
    |head: OutputHeadSnapshotView| monitor::head_logical(head) is Some
}

/// The logical monitors at the heads of a snapshot, where there are any.
pub open spec fn head_logicals(heads: Seq<OutputHeadSnapshotView>) -> Seq<LogicalMonitorView> {
    heads.filter(gives_logical()).map_values(
        |head: OutputHeadSnapshotView| monitor::head_logical(head)->0,
    )
}

impl DisplayManager {
    pub fn new() -> (manager: DisplayManager)
        ensures
            manager@ == DisplayManagerView::initial(),
            manager@.wf(),
    {
        let manager = DisplayManager {
            serial: 0,
            monitors: Vec::new(),
            logical_monitors: Vec::new(),
            properties: DisplayManagerProperties::new(),
        };
        assert(manager@.monitors =~= seq![]);
        assert(manager@.logical_monitors =~= seq![]);
        manager
    }

    /// Returns list of all monitors and logical monitors at the outputs that
    /// sway reports.
    pub fn get_monitor_info(outputs: &[sway::Output]) -> (info: (Vec<Monitor>, Vec<LogicalMonitor>))
        ensures
            monitor::monitor_views(info.0@) == output_monitors(sway::output_views(outputs@)),
            monitor::logical_views(info.1@) == output_logicals(sway::output_views(outputs@)),
            all_show(monitor::logical_views(info.1@)),
    {
        let ghost views = sway::output_views(outputs@);
        let ghost logical = |output: sway::OutputView| monitor::output_logical(output);
        let mut monitors: Vec<Monitor> = Vec::new();
        let mut logical_monitors: Vec<LogicalMonitor> = Vec::new();
        proof {
            reveal(Seq::filter);
            assert(monitor::logical_views(logical_monitors@) =~= views.take(0).filter(
                is_active(),
            ).map_values(logical));
        }
        for i in 0..outputs.len()
            invariant
                views == sway::output_views(outputs@),
                logical == (|output: sway::OutputView| monitor::output_logical(output)),
                monitors@.len() == i,
                forall|j: int|
                    0 <= j < i ==> (#[trigger] monitors@[j])@ == monitor::output_monitor(views[j]),
                monitor::logical_views(logical_monitors@) == views.take(i as int).filter(
                    is_active(),
                ).map_values(logical),
                all_show(monitor::logical_views(logical_monitors@)),
        {
            let output = &outputs[i];
            let ghost before = logical_monitors@;
            assert(views[i as int] == output@);
            monitors.push(Monitor::new(output));
            proof {
                reveal(Seq::filter);
                assert(views.take(i + 1).drop_last() =~= views.take(i as int));
            }
            if output.active {
                logical_monitors.push(LogicalMonitor::new(output));
                proof {
                    let kept = views.take(i as int).filter(is_active());
                    let added = monitor::output_logical(output@);
                    assert(monitor::logical_views(logical_monitors@) =~= monitor::logical_views(
                        before,
                    ).push(added));
                    assert(kept.push(output@).map_values(logical) =~= kept.map_values(logical).push(
                        added,
                    ));
                }
            }
        }
        assert(views.take(views.len() as int) =~= views);
        assert(monitor::monitor_views(monitors@) =~= output_monitors(views));
        (monitors, logical_monitors)
    }

    /// The monitors and logical monitors at the heads of a snapshot.
    fn snapshot_monitor_info(snapshot: &OutputSnapshot) -> (info: (
        Vec<Monitor>,
        Vec<LogicalMonitor>,
    ))
        ensures
            monitor::monitor_views(info.0@) == head_monitors(snapshot@.heads),
            monitor::logical_views(info.1@) == head_logicals(snapshot@.heads),
            all_show(monitor::logical_views(info.1@)),
    {
        let ghost views = snapshot@.heads;
        let ghost logical = |head: OutputHeadSnapshotView| monitor::head_logical(head)->0;
        let mut monitors: Vec<Monitor> = Vec::new();
        let mut logical_monitors: Vec<LogicalMonitor> = Vec::new();
        proof {
            reveal(Seq::filter);
            assert(monitor::logical_views(logical_monitors@) =~= views.take(0).filter(
                gives_logical(),
            ).map_values(logical));
        }
        for i in 0..snapshot.heads.len()
            invariant
                views == snapshot@.heads,
                logical == (|head: OutputHeadSnapshotView| monitor::head_logical(head)->0),
                monitors@.len() == i,
                forall|j: int|
                    0 <= j < i ==> (#[trigger] monitors@[j])@ == monitor::head_monitor(views[j]),
                monitor::logical_views(logical_monitors@) == views.take(i as int).filter(
                    gives_logical(),
                ).map_values(logical),
                all_show(monitor::logical_views(logical_monitors@)),
        {
            let head = &snapshot.heads[i];
            let ghost before = logical_monitors@;
            assert(views[i as int] == head@);
            monitors.push(Monitor::from_snapshot(head));
            proof {
                reveal(Seq::filter);
                assert(views.take(i + 1).drop_last() =~= views.take(i as int));
            }
            if let Some(shown) = LogicalMonitor::from_snapshot(head) {
                logical_monitors.push(shown);
                proof {
                    let kept = views.take(i as int).filter(gives_logical());
                    assert(monitor::logical_views(logical_monitors@) =~= monitor::logical_views(
                        before,
                    ).push(shown@));
                    assert(kept.push(head@).map_values(logical) =~= kept.map_values(logical).push(
                        shown@,
                    ));
                }
            }
        }
        assert(views.take(views.len() as int) =~= views);
        assert(monitor::monitor_views(monitors@) =~= head_monitors(views));
        (monitors, logical_monitors)
    }

    /// Whether any monitor was observed.
    pub fn has_observed_outputs(&self) -> (r: bool)
        ensures
            r == (self@.monitors.len() > 0),
    {
        self.monitors.len() > 0
    }
}

impl Clone for DisplayManager {
    fn clone(&self) -> (r: DisplayManager)
        ensures
            r@ == self@,
    {
        let r = DisplayManager {
            serial: self.serial,
            monitors: self.monitors.clone(),
            logical_monitors: self.logical_monitors.clone(),
            properties: self.properties,
        };
        assert(r@.monitors =~= self@.monitors);
        assert(r@.logical_monitors =~= self@.logical_monitors);
        r
    }
}

/// The identities of some monitors.
pub open spec fn monitor_identities(monitors: Seq<MonitorView>) -> Set<(IdentityView, Seq<char>)> {
    Set::new(
        |key: (IdentityView, Seq<char>)|
            exists|i: int| 0 <= i < monitors.len() && (#[trigger] monitors[i]).identity() == key,
    )
}

/// The identities of some logical monitors.
pub open spec fn logical_identities(monitors: Seq<LogicalMonitorView>) -> Set<
    (i32, i32, u32, u64, Option<Seq<char>>),
> {
    Set::new(
        |key: (i32, i32, u32, u64, Option<Seq<char>>)|
            exists|i: int| 0 <= i < monitors.len() && (#[trigger] monitors[i]).identity() == key,
    )
}

proof fn lemma_monitor_keys(monitors: Seq<Monitor>)
    ensures
        state_set::keys(monitors) == monitor_identities(monitor::monitor_views(monitors)),
{
    let views = monitor::monitor_views(monitors);
    assert forall|key: (IdentityView, Seq<char>)|
        state_set::keys(monitors).contains(key) <==> monitor_identities(views).contains(key) by {
        if state_set::keys(monitors).contains(key) {
            let i = choose|i: int|
                0 <= i < monitors.len() && state_set::Identified::key(&(#[trigger] monitors[i]))
                    == key;
            assert(views[i].identity() == key);
        }
        if monitor_identities(views).contains(key) {
            let i = choose|i: int|
                0 <= i < views.len() && (#[trigger] views[i]).identity() == key;
            assert(state_set::Identified::key(&monitors[i]) == key);
        }
    }
    assert(state_set::keys(monitors) =~= monitor_identities(views));
}

proof fn lemma_logical_keys(monitors: Seq<LogicalMonitor>)
    ensures
        state_set::keys(monitors) == logical_identities(monitor::logical_views(monitors)),
{
    let views = monitor::logical_views(monitors);
    assert forall|key: (i32, i32, u32, u64, Option<Seq<char>>)|
        state_set::keys(monitors).contains(key) <==> logical_identities(views).contains(key) by {
        if state_set::keys(monitors).contains(key) {
            let i = choose|i: int|
                0 <= i < monitors.len() && state_set::Identified::key(&(#[trigger] monitors[i]))
                    == key;
            assert(views[i].identity() == key);
        }
        if logical_identities(views).contains(key) {
            let i = choose|i: int|
                0 <= i < views.len() && (#[trigger] views[i]).identity() == key;
            assert(state_set::Identified::key(&monitors[i]) == key);
        }
    }
    assert(state_set::keys(monitors) =~= logical_identities(views));
}

/// What was observed last.
#[derive(Debug)]
pub struct WatchState {
    pub monitors: StateSet<Monitor>,
    pub logical_monitors: StateSet<LogicalMonitor>,
}

/// What a [`WatchState`] stands for.
pub struct WatchView {
    pub monitors: Set<(IdentityView, Seq<char>)>,
    pub logical_monitors: Set<(i32, i32, u32, u64, Option<Seq<char>>)>,
}

impl View for WatchState {
    type V = WatchView;

    open spec fn view(&self) -> WatchView {
        WatchView { monitors: self.monitors@, logical_monitors: self.logical_monitors@ }
    }
}

/// What is remembered of an observation.
pub open spec fn watched(
    monitors: Seq<MonitorView>,
    logical_monitors: Seq<LogicalMonitorView>,
) -> WatchView {
    WatchView {
        monitors: monitor_identities(monitors),
        logical_monitors: logical_identities(logical_monitors),
    }
}

/// What comes of a later observation.
pub struct ObservedView {
    pub manager: DisplayManagerView,
    pub watch: WatchView,
    pub changed: bool,
}

/// What comes of observing outputs: where they differ from what was observed
/// last they replace it, otherwise everything stays as it is.
pub open spec fn observed(
    manager: DisplayManagerView,
    watch: WatchView,
    outputs: Seq<sway::OutputView>,
) -> ObservedView {
    let monitors = output_monitors(outputs);
    let logical_monitors = output_logicals(outputs);
    if watch == watched(monitors, logical_monitors) {
        ObservedView { manager, watch, changed: false }
    } else {
        ObservedView {
            manager: manager.with_observed(monitors, logical_monitors),
            watch: watched(monitors, logical_monitors),
            changed: true,
        }
    }
}

/// A step in following a change that was observed.
#[derive(Debug)]
pub enum WatchStep {
    /// Write the profile of this name, unless its file holds the text already.
    WriteProfile { name: String, text: String },
    /// Make kanshi read its configuration again.
    ReloadKanshi,
    /// Tell clients; with that the change is done.
    EmitSignal,
}

/// Which step in following a change it is.
pub enum WatchStage {
    WriteProfile,
    ReloadKanshi,
    EmitSignal,
}

/// What comes behind a step, given how it went: for the writing of a profile,
/// whether its file changed. Any failure is one of the watcher.
pub open spec fn watch_next(stage: WatchStage, outcome: Result<bool, Seq<char>>) -> Result<
    Option<WatchStage>,
    Seq<char>,
> {
    match outcome {
        Err(message) => Err(message),
        Ok(changed) => match stage {
            WatchStage::WriteProfile => if changed {
                Ok(Some(WatchStage::ReloadKanshi))
            } else {
                Ok(Some(WatchStage::EmitSignal))
            },
            WatchStage::ReloadKanshi => Ok(Some(WatchStage::EmitSignal)),
            WatchStage::EmitSignal => Ok(None),
        },
    }
}

impl WatchStep {
    /// Which step it is.
    pub open spec fn stage(self) -> WatchStage {
        match self {
            WatchStep::WriteProfile { .. } => WatchStage::WriteProfile,
            WatchStep::ReloadKanshi => WatchStage::ReloadKanshi,
            WatchStep::EmitSignal => WatchStage::EmitSignal,
        }
    }

    /// What comes behind a step, given how it went: for the writing of a
    /// profile, whether its file changed. Kanshi reads its configuration again
    /// only where the file changed, and clients are told last. Any failure ends
    /// the watcher.
    pub fn after(self, outcome: Result<bool, String>) -> (next: Result<Option<WatchStep>, String>)
        ensures
            ({
                let expected = watch_next(self.stage(), daemon::result_text(outcome));
                match next {
                    Ok(Some(step)) => expected == Ok::<Option<WatchStage>, Seq<char>>(
                        Some(step.stage()),
                    ),
                    Ok(None) => expected == Ok::<Option<WatchStage>, Seq<char>>(None),
                    Err(message) => expected == Err::<Option<WatchStage>, Seq<char>>(message@),
                }
            }),
    {
        let changed = match outcome {
            Ok(changed) => changed,
            Err(message) => return Err(message),
        };
        match self {
            WatchStep::WriteProfile { .. } => if changed {
                Ok(Some(WatchStep::ReloadKanshi))
            } else {
                Ok(Some(WatchStep::EmitSignal))
            },
            WatchStep::ReloadKanshi => Ok(Some(WatchStep::EmitSignal)),
            WatchStep::EmitSignal => Ok(None),
        }
    }
}

/// How the steps go, one by one.
pub struct WatchOutcomes {
    pub write: Result<bool, Seq<char>>,
    pub reload: Result<bool, Seq<char>>,
    pub signal: Result<bool, Seq<char>>,
}

impl WatchOutcomes {
    /// How a step goes.
    pub open spec fn of(self, stage: WatchStage) -> Result<bool, Seq<char>> {
        match stage {
            WatchStage::WriteProfile => self.write,
            WatchStage::ReloadKanshi => self.reload,
            WatchStage::EmitSignal => self.signal,
        }
    }
}

/// How many steps can still come behind a step.
pub open spec fn watch_steps_left(stage: WatchStage) -> nat {
    match stage {
        WatchStage::WriteProfile => 2,
        WatchStage::ReloadKanshi => 1,
        WatchStage::EmitSignal => 0,
    }
}

/// The steps that are performed, from this one on, and what the change comes to.
pub open spec fn followed(stage: WatchStage, outcomes: WatchOutcomes) -> (
    Seq<WatchStage>,
    Result<(), Seq<char>>,
)
    decreases watch_steps_left(stage),
{
    match watch_next(stage, outcomes.of(stage)) {
        Ok(Some(next)) => {
            let rest = followed(next, outcomes);
            (seq![stage] + rest.0, rest.1)
        },
        Ok(None) => (seq![stage], Ok(())),
        Err(message) => (seq![stage], Err(message)),
    }
}

/// A change is told last. Before that kanshi reads its configuration again
/// exactly where the profile's file changed. The first failure ends the watcher,
/// and nothing is done behind it.
pub proof fn change_is_written_reloaded_and_told(outcomes: WatchOutcomes)
    ensures
        ({
            let (steps, result) = followed(WatchStage::WriteProfile, outcomes);
            match (outcomes.write, outcomes.reload) {
                (Err(message), _) => {
                    &&& steps == seq![WatchStage::WriteProfile]
                    &&& result == Err::<(), Seq<char>>(message)
                },
                (Ok(true), Err(message)) => {
                    &&& steps == seq![WatchStage::WriteProfile, WatchStage::ReloadKanshi]
                    &&& result == Err::<(), Seq<char>>(message)
                },
                (Ok(changed), _) => {
                    &&& steps == if changed {
                        seq![
                            WatchStage::WriteProfile,
                            WatchStage::ReloadKanshi,
                            WatchStage::EmitSignal,
                        ]
                    } else {
                        seq![WatchStage::WriteProfile, WatchStage::EmitSignal]
                    }
                    &&& result == match outcomes.signal {
                        Ok(_) => Ok::<(), Seq<char>>(()),
                        Err(message) => Err(message),
                    }
                },
            }
        }),
{
    reveal_with_fuel(followed, 3);
    let (steps, result) = followed(WatchStage::WriteProfile, outcomes);
    if let Ok(changed) = outcomes.write {
        if changed && outcomes.reload is Err {
            assert(steps =~= seq![WatchStage::WriteProfile, WatchStage::ReloadKanshi]);
        } else if changed {
            assert(steps =~= seq![
                WatchStage::WriteProfile,
                WatchStage::ReloadKanshi,
                WatchStage::EmitSignal,
            ]);
        } else {
            assert(steps =~= seq![WatchStage::WriteProfile, WatchStage::EmitSignal]);
        }
    }
}

/// Whether a profile is the one to persist for some monitors.
pub open spec fn is_profile_of(
    profile: Option<(String, String)>,
    monitors: Seq<MonitorView>,
    logical_monitors: Seq<LogicalMonitor>,
) -> bool {
    match profile {
        Some((name, text)) => {
            &&& monitors.len() > 0
            &&& name@ == profile::profile_name(monitors)
            &&& text@ == profile::profile_text(monitors, logical_monitors)
        },
        None => monitors.len() == 0,
    }
}

proof fn lemma_can_render(monitors: Seq<MonitorView>, logical_monitors: Seq<LogicalMonitor>)
    requires
        all_show(monitor::logical_views(logical_monitors)),
    ensures
        profile::can_render(monitors, logical_monitors),
{
    let views = monitor::logical_views(logical_monitors);
    assert forall|i: int| 0 <= i < logical_monitors.len() implies (
    #[trigger] logical_monitors[i]).can_find(monitors) by {
        assert(views[i].monitors.len() > 0);
    }
}

impl DisplayManager {
    /// Takes in the first observation.
    pub fn start_watching(&mut self, outputs: &[sway::Output]) -> (watch: WatchState)
        ensures
            final(self)@ == old(self)@.with_observed(
                output_monitors(sway::output_views(outputs@)),
                output_logicals(sway::output_views(outputs@)),
            ),
            watch@ == watched(final(self)@.monitors, final(self)@.logical_monitors),
            final(self)@.wf(),
    {
        let (monitors, logical_monitors) = DisplayManager::get_monitor_info(outputs);
        let (monitor_set, logical_monitor_set) = state_set::monitor_sets(
            monitors.as_slice(),
            logical_monitors.as_slice(),
        );
        proof {
            lemma_monitor_keys(monitors@);
            lemma_logical_keys(logical_monitors@);
        }
        self.monitors = monitors;
        self.logical_monitors = logical_monitors;
        WatchState { monitors: monitor_set, logical_monitors: logical_monitor_set }
    }

    /// Takes in a later observation. Where it differs from the last one, it
    /// replaces what the manager holds, and the first step in following the
    /// change is returned: writing the profile, or without monitors, where there
    /// is none to write, telling clients.
    pub fn watch_changes(&mut self, previous: &mut WatchState, outputs: &[sway::Output]) -> (first:
        Option<WatchStep>)
        ensures
            ({
                let outputs = sway::output_views(outputs@);
                let next = observed(old(self)@, old(previous)@, outputs);
                &&& final(self)@ == next.manager
                &&& final(previous)@ == next.watch
                &&& match first {
                    None => !next.changed,
                    Some(WatchStep::WriteProfile { name, text }) => {
                        &&& next.changed
                        &&& is_profile_of(
                            Some((name, text)),
                            next.manager.monitors,
                            final(self).logical_monitors@,
                        )
                    },
                    Some(WatchStep::EmitSignal) => next.changed && next.manager.monitors.len() == 0,
                    Some(WatchStep::ReloadKanshi) => false,
                }
            }),
            old(self)@.wf() ==> final(self)@.wf(),
    {
        let (monitors, logical_monitors) = DisplayManager::get_monitor_info(outputs);
        let (monitor_set, logical_monitor_set) = state_set::monitor_sets(
            monitors.as_slice(),
            logical_monitors.as_slice(),
        );
        proof {
            lemma_monitor_keys(monitors@);
            lemma_logical_keys(logical_monitors@);
            lemma_can_render(monitor::monitor_views(monitors@), logical_monitors@);
        }
        if state_set::display_state_changed(
            &previous.monitors,
            &previous.logical_monitors,
            &monitor_set,
            &logical_monitor_set,
        ) {
            let profile = profile::observed_profile(
                monitors.as_slice(),
                logical_monitors.as_slice(),
            );
            self.monitors = monitors;
            self.logical_monitors = logical_monitors;
            previous.monitors = monitor_set;
            previous.logical_monitors = logical_monitor_set;
            match profile {
                Some((name, text)) => Some(WatchStep::WriteProfile { name, text }),
                None => Some(WatchStep::EmitSignal),
            }
        } else {
            None
        }
    }

    /// Takes in a snapshot; tells whether it differs from what was held.
    pub fn install_wayland_snapshot(&mut self, snapshot: &OutputSnapshot) -> (changed: bool)
        ensures
            final(self)@ == old(self)@.with_observed(
                head_monitors(snapshot@.heads),
                head_logicals(snapshot@.heads),
            ),
            final(self)@.wf(),
            changed == (watched(old(self)@.monitors, old(self)@.logical_monitors) != watched(
                final(self)@.monitors,
                final(self)@.logical_monitors,
            )),
    {
        let (monitors, logical_monitors) = DisplayManager::snapshot_monitor_info(snapshot);
        let (old_monitors, old_logical_monitors) = state_set::monitor_sets(
            self.monitors.as_slice(),
            self.logical_monitors.as_slice(),
        );
        let (new_monitors, new_logical_monitors) = state_set::monitor_sets(
            monitors.as_slice(),
            logical_monitors.as_slice(),
        );
        proof {
            lemma_monitor_keys(self.monitors@);
            lemma_logical_keys(self.logical_monitors@);
            lemma_monitor_keys(monitors@);
            lemma_logical_keys(logical_monitors@);
        }
        let changed = state_set::display_state_changed(
            &old_monitors,
            &old_logical_monitors,
            &new_monitors,
            &new_logical_monitors,
        );
        self.monitors = monitors;
        self.logical_monitors = logical_monitors;
        changed
    }
}

/// An observation that is made twice in a row changes nothing the second time.
pub proof fn repeated_observation_is_no_change(
    manager: DisplayManagerView,
    watch: WatchView,
    outputs: Seq<sway::OutputView>,
)
    ensures
        ({
            let first = observed(manager, watch, outputs);
            let second = observed(first.manager, first.watch, outputs);
            &&& !second.changed
            &&& second.manager == first.manager
            &&& second.watch == first.watch
        }),
{
}

/// A monitor that comes, goes or changes its mode, and a logical monitor that
/// comes, goes, moves or changes scale or transform, is a change.
pub proof fn any_difference_of_identity_is_a_change(
    monitors: Seq<MonitorView>,
    logical_monitors: Seq<LogicalMonitorView>,
    other_monitors: Seq<MonitorView>,
    other_logical_monitors: Seq<LogicalMonitorView>,
    i: int,
)
    requires
        ({
            ||| {
                &&& 0 <= i < monitors.len()
                &&& forall|j: int|
                    0 <= j < other_monitors.len() ==> (#[trigger] other_monitors[j]).identity()
                        != monitors[i].identity()
            }
            ||| {
                &&& 0 <= i < logical_monitors.len()
                &&& forall|j: int|
                    0 <= j < other_logical_monitors.len() ==> (
                    #[trigger] other_logical_monitors[j]).identity()
                        != logical_monitors[i].identity()
            }
        }),
    ensures
        watched(monitors, logical_monitors) != watched(other_monitors, other_logical_monitors),
        watched(other_monitors, other_logical_monitors) != watched(monitors, logical_monitors),
{
    if 0 <= i < monitors.len() && !monitor_identities(other_monitors).contains(
        monitors[i].identity(),
    ) {
        assert(monitor_identities(monitors).contains(monitors[i].identity()));
    } else {
        assert(logical_identities(logical_monitors).contains(logical_monitors[i].identity()));
        assert(!logical_identities(other_logical_monitors).contains(
            logical_monitors[i].identity(),
        ));
    }
}

/// How far the consequences of a change have come.
#[derive(Debug, Clone, Copy, PartialEq, Eq, Structural)]
pub enum WaylandSideEffectStage {
    /// The profile is to be persisted.
    Persist,
    /// Kanshi is to read its configuration again.
    Reload,
    /// Clients are to be told.
    Signal,
}

/// The stage to go on with: a change starts over, without monitors at the end,
/// as there is nothing to persist; without a change what is pending goes on.
pub open spec fn next_stage(
    state_changed: bool,
    pending: Option<WaylandSideEffectStage>,
    has_outputs: bool,
) -> Option<WaylandSideEffectStage> {
    if state_changed && has_outputs {
        Some(WaylandSideEffectStage::Persist)
    } else if state_changed {
        Some(WaylandSideEffectStage::Signal)
    } else {
        pending
    }
}

/// The stage to go on with.
pub fn wayland_side_effect_stage(
    state_changed: bool,
    pending: Option<WaylandSideEffectStage>,
    has_outputs: bool,
) -> (stage: Option<WaylandSideEffectStage>)
    ensures
        stage == next_stage(state_changed, pending, has_outputs),
{
    if state_changed {
        if has_outputs {
            Some(WaylandSideEffectStage::Persist)
        } else {
            Some(WaylandSideEffectStage::Signal)
        }
    } else {
        pending
    }
}

/// What is to be done at a stage.
#[derive(Debug)]
pub enum SideEffect {
    /// Write the profile of this name, unless its file holds the text already.
    WriteProfile { name: String, text: String },
    /// Make kanshi read its configuration again.
    ReloadKanshi,
    /// Tell clients.
    EmitSignal,
    /// Nothing.
    Nothing,
}

impl DisplayManager {
    /// What is to be done for this state at a stage.
    pub fn wayland_side_effect(&self, stage: WaylandSideEffectStage) -> (effect: SideEffect)
        requires
            self@.wf(),
        ensures
            match stage {
                WaylandSideEffectStage::Persist => match effect {
                    SideEffect::WriteProfile { name, text } => is_profile_of(
                        Some((name, text)),
                        self@.monitors,
                        self.logical_monitors@,
                    ),
                    SideEffect::Nothing => self@.monitors.len() == 0,
                    _ => false,
                },
                WaylandSideEffectStage::Reload => effect is ReloadKanshi,
                WaylandSideEffectStage::Signal => effect is EmitSignal,
            },
    {
        match stage {
            WaylandSideEffectStage::Persist => {
                proof {
                    lemma_can_render(self@.monitors, self.logical_monitors@);
                }
                match profile::observed_profile(
                    self.monitors.as_slice(),
                    self.logical_monitors.as_slice(),
                ) {
                    Some((name, text)) => SideEffect::WriteProfile { name, text },
                    None => SideEffect::Nothing,
                }
            },
            WaylandSideEffectStage::Reload => SideEffect::ReloadKanshi,
            WaylandSideEffectStage::Signal => SideEffect::EmitSignal,
        }
    }

    /// The stage that comes next, once the effect of a stage was achieved:
    /// kanshi reads its configuration again only where a profile was written.
    pub fn advance_wayland_side_effect(
        stage: WaylandSideEffectStage,
        profile_changed: bool,
    ) -> (next: WaylandSideEffectStage)
        ensures
            next == advanced(stage, profile_changed),
    {
        match stage {
            WaylandSideEffectStage::Persist => if profile_changed {
                WaylandSideEffectStage::Reload
            } else {
                WaylandSideEffectStage::Signal
            },
            WaylandSideEffectStage::Reload => WaylandSideEffectStage::Signal,
            WaylandSideEffectStage::Signal => WaylandSideEffectStage::Signal,
        }
    }
}

/// The stage behind a stage.
pub open spec fn advanced(
    stage: WaylandSideEffectStage,
    profile_changed: bool,
) -> WaylandSideEffectStage {
    if stage == WaylandSideEffectStage::Persist && profile_changed {
        WaylandSideEffectStage::Reload
    } else {
        WaylandSideEffectStage::Signal
    }
}

/// Two steps at most lead from any stage to telling clients.
pub proof fn every_change_is_told(
    stage: WaylandSideEffectStage,
    profile_changed: bool,
    then_changed: bool,
)
    ensures
        advanced(advanced(stage, profile_changed), then_changed) == WaylandSideEffectStage::Signal,
{
}

} // verus!
