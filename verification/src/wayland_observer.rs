//! Observation of a wlroots compositor: the output snapshots that it publishes,
//! and the state that turns its output-management events into them.

use std::collections::HashMap;
use std::sync::mpsc::Sender;
use vstd::prelude::*;
use vstd::string::*;

use crate::collector;
use crate::collector::{
    CollectorView, SnapshotCollector, SnapshotStateError, SnapshotStateErrorView,
};
use crate::scale;
use crate::scale::{Scale, ScaleView};
use crate::text;

verus! {

/// Immutable snapshot of the compositor output state published by one manager `done` event.
#[derive(Debug, PartialEq)]
pub struct OutputSnapshot {
    /// Output-management serial attached to the snapshot.
    pub serial: u32,
    /// Stable, name-sorted output heads present at publication time.
    pub heads: Vec<OutputHeadSnapshot>,
}

/// Immutable snapshot of one output head.
#[derive(Debug, PartialEq)]
pub struct OutputHeadSnapshot {
    /// Stable compositor-defined head name such as `HDMI-A-1`.
    pub name: String,
    /// Human-readable description when the compositor provides one.
    pub description: Option<String>,
    /// Whether the head is currently enabled.
    pub enabled: bool,
    /// Current global compositor position for enabled heads.
    pub position: Option<(i32, i32)>,
    /// Current wl_output transform code for enabled heads.
    pub transform: Option<u32>,
    /// Normalized scale for enabled heads.
    pub scale: Option<Scale>,
    /// The selected current mode snapshot when known.
    pub current_mode: Option<OutputModeSnapshot>,
    /// All known modes for the head in deterministic order.
    pub modes: Vec<OutputModeSnapshot>,
}

/// Immutable snapshot of one output mode.
#[derive(Debug, Clone, Copy, PartialEq, Eq, Structural)]
pub struct OutputModeSnapshot {
    /// Mode width in hardware pixels.
    pub width: i32,
    /// Mode height in hardware pixels.
    pub height: i32,
    /// Refresh rate in mHz when provided by the compositor.
    pub refresh_mhz: Option<i32>,
    /// Whether the compositor marks this mode as preferred.
    pub preferred: bool,
    /// Whether this mode is selected as current in the published snapshot.
    pub current: bool,
}

/// What an [`OutputSnapshot`] stands for.
pub struct OutputSnapshotView {
    pub serial: u32,
    pub heads: Seq<OutputHeadSnapshotView>,
}

/// What an [`OutputHeadSnapshot`] stands for.
pub struct OutputHeadSnapshotView {
    pub name: Seq<char>,
    pub description: Option<Seq<char>>,
    pub enabled: bool,
    pub position: Option<(i32, i32)>,
    pub transform: Option<u32>,
    pub scale: Option<ScaleView>,
    pub current_mode: Option<OutputModeSnapshot>,
    pub modes: Seq<OutputModeSnapshot>,
}

impl View for OutputHeadSnapshot {
    type V = OutputHeadSnapshotView;

    open spec fn view(&self) -> OutputHeadSnapshotView {
        OutputHeadSnapshotView {
            name: self.name@,
            description: text::option_text(self.description),
            enabled: self.enabled,
            position: self.position,
            transform: self.transform,
            scale: scale::option_scale(self.scale),
            current_mode: self.current_mode,
            modes: self.modes@,
        }
    }
}

/// What a list of head snapshots stands for.
pub open spec fn head_views(heads: Seq<OutputHeadSnapshot>) -> Seq<OutputHeadSnapshotView> {
    Seq::new(heads.len(), |i: int| heads[i]@)
}

impl View for OutputSnapshot {
    type V = OutputSnapshotView;

    open spec fn view(&self) -> OutputSnapshotView {
        OutputSnapshotView { serial: self.serial, heads: head_views(self.heads@) }
    }
}

impl Clone for OutputHeadSnapshot {
    fn clone(&self) -> (r: OutputHeadSnapshot)
        ensures
            r@ == self@,
    {
        OutputHeadSnapshot {
            name: self.name.clone(),
            description: self.description.clone(),
            enabled: self.enabled,
            position: self.position,
            transform: self.transform,
            scale: self.scale.clone(),
            current_mode: self.current_mode,
            modes: self.modes.clone(),
        }
    }
}

impl Clone for OutputSnapshot {
    fn clone(&self) -> (r: OutputSnapshot)
        ensures
            r@ == self@,
    {
        let r = OutputSnapshot { serial: self.serial, heads: self.heads.clone() };
        assert(r@.heads =~= self@.heads);
        r
    }
}

/// What a list of snapshots stands for.
pub open spec fn snapshot_views(snapshots: Seq<OutputSnapshot>) -> Seq<OutputSnapshotView> {
    Seq::new(snapshots.len(), |i: int| snapshots[i]@)
}

/// Controlled failures returned by the observer.
#[derive(Debug, PartialEq)]
pub enum WaylandObserverError {
    /// Connecting to the compositor failed.
    ConnectionFailed(String),
    /// The initial Wayland global discovery roundtrip failed.
    GlobalDiscoveryFailed(String),
    /// The compositor does not expose the required output-management global.
    UnsupportedGlobal { name: &'static str },
    /// Dispatching Wayland events failed.
    DispatchFailed(String),
    /// Spawning the dedicated observation thread failed.
    ThreadSpawnFailed(String),
    /// The compositor destroyed the output manager and observation cannot continue.
    ManagerFinished,
    /// Internal snapshot state became inconsistent while processing protocol events.
    StateViolation(String),
}

/// What a [`WaylandObserverError`] stands for.
pub enum WaylandObserverErrorView {
    ConnectionFailed(Seq<char>),
    GlobalDiscoveryFailed(Seq<char>),
    UnsupportedGlobal { name: Seq<char> },
    DispatchFailed(Seq<char>),
    ThreadSpawnFailed(Seq<char>),
    ManagerFinished,
    StateViolation(Seq<char>),
}

impl View for WaylandObserverError {
    type V = WaylandObserverErrorView;

    open spec fn view(&self) -> WaylandObserverErrorView {
        match *self {
            WaylandObserverError::ConnectionFailed(message) => {
                WaylandObserverErrorView::ConnectionFailed(message@)
            },
            WaylandObserverError::GlobalDiscoveryFailed(message) => {
                WaylandObserverErrorView::GlobalDiscoveryFailed(message@)
            },
            WaylandObserverError::UnsupportedGlobal { name } => {
                WaylandObserverErrorView::UnsupportedGlobal { name: name@ }
            },
            WaylandObserverError::DispatchFailed(message) => {
                WaylandObserverErrorView::DispatchFailed(message@)
            },
            WaylandObserverError::ThreadSpawnFailed(message) => {
                WaylandObserverErrorView::ThreadSpawnFailed(message@)
            },
            WaylandObserverError::ManagerFinished => WaylandObserverErrorView::ManagerFinished,
            WaylandObserverError::StateViolation(message) => {
                WaylandObserverErrorView::StateViolation(message@)
            },
        }
    }
}

impl WaylandObserverErrorView {
    /// The error in words.
    pub open spec fn message(self) -> Seq<char> {
        match self {
            WaylandObserverErrorView::ConnectionFailed(message) => "Wayland connection failed: "@
                + message,
            WaylandObserverErrorView::GlobalDiscoveryFailed(message) => {
                "Wayland global discovery failed: "@ + message
            },
            WaylandObserverErrorView::UnsupportedGlobal { name } => {
                "Required Wayland global is unavailable: "@ + name
            },
            WaylandObserverErrorView::DispatchFailed(message) => "Wayland dispatch failed: "@
                + message,
            WaylandObserverErrorView::ThreadSpawnFailed(message) => {
                "Wayland observer thread spawn failed: "@ + message
            },
            WaylandObserverErrorView::ManagerFinished => {
                "Wayland output manager finished observation"@
            },
            WaylandObserverErrorView::StateViolation(message) => {
                "Wayland observer state violation: "@ + message
            },
        }
    }
}

impl WaylandObserverError {
    /// The error in words.
    pub fn message(&self) -> (message: String)
        ensures
            message@ == self@.message(),
    {
        let mut text = String::new();
        match self {
            WaylandObserverError::ConnectionFailed(message) => {
                text.append("Wayland connection failed: ");
                text.append(message.as_str());
            },
            WaylandObserverError::GlobalDiscoveryFailed(message) => {
                text.append("Wayland global discovery failed: ");
                text.append(message.as_str());
            },
            WaylandObserverError::UnsupportedGlobal { name } => {
                text.append("Required Wayland global is unavailable: ");
                text.append(name);
            },
            WaylandObserverError::DispatchFailed(message) => {
                text.append("Wayland dispatch failed: ");
                text.append(message.as_str());
            },
            WaylandObserverError::ThreadSpawnFailed(message) => {
                text.append("Wayland observer thread spawn failed: ");
                text.append(message.as_str());
            },
            WaylandObserverError::ManagerFinished => {
                text.append("Wayland output manager finished observation");
            },
            WaylandObserverError::StateViolation(message) => {
                text.append("Wayland observer state violation: ");
                text.append(message.as_str());
            },
        }
        assert(text@ =~= self@.message());
        text
    }
}

impl Clone for WaylandObserverError {
    fn clone(&self) -> (r: WaylandObserverError)
        ensures
            r@ == self@,
    {
        match self {
            WaylandObserverError::ConnectionFailed(message) => {
                WaylandObserverError::ConnectionFailed(message.clone())
            },
            WaylandObserverError::GlobalDiscoveryFailed(message) => {
                WaylandObserverError::GlobalDiscoveryFailed(message.clone())
            },
            WaylandObserverError::UnsupportedGlobal { name } => {
                WaylandObserverError::UnsupportedGlobal { name: *name }
            },
            WaylandObserverError::DispatchFailed(message) => {
                WaylandObserverError::DispatchFailed(message.clone())
            },
            WaylandObserverError::ThreadSpawnFailed(message) => {
                WaylandObserverError::ThreadSpawnFailed(message.clone())
            },
            WaylandObserverError::ManagerFinished => WaylandObserverError::ManagerFinished,
            WaylandObserverError::StateViolation(message) => {
                WaylandObserverError::StateViolation(message.clone())
            },
        }
    }
}

/// The failure that a refused event leads to.
pub open spec fn violation(error: SnapshotStateErrorView) -> WaylandObserverErrorView {
    WaylandObserverErrorView::StateViolation(error.message())
}

impl From<SnapshotStateError> for WaylandObserverError {
    fn from(error: SnapshotStateError) -> (r: WaylandObserverError)
        ensures
            r@ == violation(error@),
    {
        WaylandObserverError::StateViolation(error.message())
    }
}

impl vstd::std_specs::convert::FromSpecImpl<SnapshotStateError> for WaylandObserverError {
    open spec fn obeys_from_spec() -> bool {
        false
    }

    open spec fn from_spec(error: SnapshotStateError) -> WaylandObserverError {
        arbitrary()
    }
}

/// A mode handle and the head that the mode belongs to.
#[derive(Debug)]
pub struct RetainedMode<M> {
    pub head_id: u32,
    pub proxy: M,
}

/// Keeps output-management handles alive for a future configuration transaction.
///
/// Protocol object IDs remain valid only for the lifetime of one observer
/// connection. They are sufficient to associate handles with the immutable
/// snapshot state collected from the same connection.
#[derive(Debug)]
pub struct OutputManagementHandles<H, M> {
    heads: HashMap<u32, H>,
    modes: HashMap<u32, RetainedMode<M>>,
}

/// What [`OutputManagementHandles`] stand for.
#[verifier::ext_equal]
pub struct HandlesView<H, M> {
    pub heads: Map<u32, H>,
    pub modes: Map<u32, RetainedMode<M>>,
}

impl<H, M> View for OutputManagementHandles<H, M> {
    type V = HandlesView<H, M>;

    closed spec fn view(&self) -> HandlesView<H, M> {
        HandlesView { heads: self.heads@, modes: self.modes@ }
    }
}

impl<H, M> HandlesView<H, M> {
    pub open spec fn empty() -> HandlesView<H, M> {
        HandlesView { heads: Map::empty(), modes: Map::empty() }
    }

    pub open spec fn retain_head(self, head_id: u32, head: H) -> HandlesView<H, M> {
        HandlesView { heads: self.heads.insert(head_id, head), ..self }
    }

    pub open spec fn retain_mode(self, head_id: u32, mode_id: u32, mode: M) -> HandlesView<H, M> {
        HandlesView {
            modes: self.modes.insert(mode_id, RetainedMode { head_id, proxy: mode }),
            ..self
        }
    }

    /// Without the head, and without the modes that belong to it.
    pub open spec fn release_head(self, head_id: u32) -> HandlesView<H, M> {
        HandlesView {
            heads: self.heads.remove(head_id),
            modes: self.modes.restrict(
                Set::new(|m: u32| self.modes.contains_key(m) && self.modes[m].head_id != head_id),
            ),
        }
    }

    pub open spec fn release_mode(self, mode_id: u32) -> HandlesView<H, M> {
        HandlesView { modes: self.modes.remove(mode_id), ..self }
    }

    /// The handle of the head with this id.
    pub open spec fn head(self, head_id: u32) -> Option<H> {
        if self.heads.contains_key(head_id) {
            Some(self.heads[head_id])
        } else {
            None
        }
    }

    /// The handle of the mode with this id, if the mode belongs to the head.
    pub open spec fn mode(self, head_id: u32, mode_id: u32) -> Option<M> {
        if self.modes.contains_key(mode_id) && self.modes[mode_id].head_id == head_id {
            Some(self.modes[mode_id].proxy)
        } else {
            None
        }
    }
}

impl<H, M> OutputManagementHandles<H, M> {
    pub fn new() -> (handles: OutputManagementHandles<H, M>)
        ensures
            handles@ == HandlesView::<H, M>::empty(),
    {
        OutputManagementHandles { heads: HashMap::new(), modes: HashMap::new() }
    }

    /// Keeps the handle of a head.
    pub fn retain_head(&mut self, head_id: u32, head: H)
        ensures
            final(self)@ == old(self)@.retain_head(head_id, head),
    {
        broadcast use vstd::std_specs::hash::group_hash_axioms;

        self.heads.insert(head_id, head);
    }

    /// Keeps the handle of a mode of the given head.
    pub fn retain_mode(&mut self, head_id: u32, mode_id: u32, mode: M)
        ensures
            final(self)@ == old(self)@.retain_mode(head_id, mode_id, mode),
    {
        broadcast use vstd::std_specs::hash::group_hash_axioms;

        self.modes.insert(mode_id, RetainedMode { head_id, proxy: mode });
    }

    /// Lets go of a head and of the modes that belong to it.
    pub fn release_head(&mut self, head_id: u32)
        ensures
            final(self)@ == old(self)@.release_head(head_id),
    {
        broadcast use vstd::std_specs::hash::group_hash_axioms;

        self.heads.remove(&head_id);
        let ids = collector::key_list(&self.modes);
        let ghost before = self.modes@;
        for i in 0..ids.len()
            invariant
                ids@.no_duplicates(),
                ids@.to_set() == before.dom(),
                self.heads@ == old(self)@.heads.remove(head_id),
                before == old(self)@.modes,
                forall|m: u32| #[trigger] self.modes@.contains_key(m) ==> before.contains_key(m)
                    && self.modes@[m] == before[m],
                forall|j: int|
                    0 <= j < ids@.len() ==> (#[trigger] self.modes@.contains_key(ids@[j]) <==> (i
                        <= j || before[ids@[j]].head_id != head_id)),
        {
            let id = ids[i];
            assert(self.modes@.contains_key(ids@[i as int]));
            let ghost current = self.modes@;
            let released = match self.modes.get(&id) {
                Some(mode) => mode.head_id == head_id,
                None => false,
            };
            if released {
                self.modes.remove(&id);
            }
            assert forall|j: int| 0 <= j < ids@.len() implies (#[trigger] self.modes@.contains_key(
                ids@[j],
            ) <==> (i + 1 <= j || before[ids@[j]].head_id != head_id)) by {
                assert(current.contains_key(ids@[j]) <==> (i <= j || before[ids@[j]].head_id
                    != head_id));
            }
        }
        proof {
            let kept = old(self)@.release_head(head_id).modes;
            assert forall|m: u32| self.modes@.contains_key(m) <==> kept.contains_key(m) by {
                if before.contains_key(m) {
                    assert(ids@.to_set().contains(m));
                    let j = choose|j: int| 0 <= j < ids@.len() && ids@[j] == m;
                    assert(self.modes@.contains_key(ids@[j]) <==> before[ids@[j]].head_id
                        != head_id);
                }
            }
            assert(self.modes@ =~= kept);
        }
    }

    /// Lets go of a mode.
    pub fn release_mode(&mut self, mode_id: u32)
        ensures
            final(self)@ == old(self)@.release_mode(mode_id),
    {
        broadcast use vstd::std_specs::hash::group_hash_axioms;

        self.modes.remove(&mode_id);
        assert(self.modes@ =~= old(self)@.modes.remove(mode_id));
    }

    /// Returns the retained head handle for a protocol object ID.
    pub fn head(&self, head_id: u32) -> (head: Option<&H>)
        ensures
            match head {
                Some(h) => self@.head(head_id) == Some(*h),
                None => self@.head(head_id) is None,
            },
    {
        broadcast use vstd::std_specs::hash::group_hash_axioms;

        self.heads.get(&head_id)
    }

    /// Returns the retained mode handle when it belongs to the given head ID.
    pub fn mode(&self, head_id: u32, mode_id: u32) -> (mode: Option<&M>)
        ensures
            match mode {
                Some(m) => self@.mode(head_id, mode_id) == Some(*m),
                None => self@.mode(head_id, mode_id) is None,
            },
    {
        broadcast use vstd::std_specs::hash::group_hash_axioms;

        match self.modes.get(&mode_id) {
            Some(mode) => if mode.head_id == head_id {
                Some(&mode.proxy)
            } else {
                None
            },
            None => None,
        }
    }
}

/// A handle that is released cannot be had any more, a head takes its modes
/// with it, and all other handles stay.
pub proof fn released_handles_are_gone<H, M>(
    handles: HandlesView<H, M>,
    head_id: u32,
    other_id: u32,
    mode_id: u32,
)
    ensures
        handles.release_head(head_id).head(head_id) is None,
        handles.release_head(head_id).mode(head_id, mode_id) is None,
        handles.release_mode(mode_id).mode(head_id, mode_id) is None,
        other_id != head_id ==> {
            &&& handles.release_head(head_id).head(other_id) == handles.head(other_id)
            &&& handles.release_head(head_id).mode(other_id, mode_id) == handles.mode(
                other_id,
                mode_id,
            )
        },
{
}

/// A handle that is retained can be had, a mode under its own head only.
pub proof fn retained_handles_are_found<H, M>(
    handles: HandlesView<H, M>,
    head_id: u32,
    other_id: u32,
    mode_id: u32,
    head: H,
    mode: M,
)
    ensures
        handles.retain_head(head_id, head).head(head_id) == Some(head),
        handles.retain_mode(head_id, mode_id, mode).mode(head_id, mode_id) == Some(mode),
        other_id != head_id ==> handles.retain_mode(head_id, mode_id, mode).mode(
            other_id,
            mode_id,
        ) is None,
{
}

/// What the output manager says.
#[derive(Debug)]
pub enum ManagerEvent<H> {
    /// There is a head; its handle comes with it.
    Head { head_id: u32, head: H },
    /// All that was said since the last time is complete.
    Done { serial: u32 },
    /// The manager is gone.
    Finished,
    /// Anything else.
    Other,
}

/// What an output head says.
#[derive(Debug)]
pub enum HeadEvent<M> {
    Name { name: String },
    Description { description: String },
    Enabled { enabled: i32 },
    CurrentMode { mode_id: u32 },
    Position { x: i32, y: i32 },
    Transform { transform: u32 },
    /// The scale as reported, and the same rounded to four decimals.
    Scale { scale: Scale, rounded: Scale },
    /// The head has a mode; its handle comes with it.
    Mode { mode_id: u32, mode: M },
    /// The head is gone.
    Finished,
    /// Anything else.
    Other,
}

/// What an output mode says.
#[derive(Debug)]
pub enum ModeEvent {
    Size { width: i32, height: i32 },
    Refresh { refresh: i32 },
    Preferred,
    /// The mode is gone.
    Finished,
    /// Anything else.
    Other,
}

/// All that one observation knows: the collected state, the handles, and how
/// the observation ended, if it did.
#[derive(Debug)]
pub struct ObserverState<H, M> {
    pub collector: SnapshotCollector,
    pub handles: OutputManagementHandles<H, M>,
    pub terminal_error: Option<WaylandObserverError>,
    pub terminal_reached: bool,
}

/// What an [`ObserverState`] stands for.
pub struct ObserverView<H, M> {
    pub collector: CollectorView,
    pub handles: HandlesView<H, M>,
    pub terminal_error: Option<WaylandObserverErrorView>,
    pub terminal_reached: bool,
}

/// What an optional failure stands for.
pub open spec fn option_error(error: Option<WaylandObserverError>) -> Option<
    WaylandObserverErrorView,
> {
    match error {
        Some(e) => Some(e@),
        None => None,
    }
}

/// What one result of an observation stands for.
pub open spec fn result_view(result: Result<OutputSnapshot, WaylandObserverError>) -> Result<
    OutputSnapshotView,
    WaylandObserverErrorView,
> {
    match result {
        Ok(snapshot) => Ok(snapshot@),
        Err(error) => Err(error@),
    }
}

impl<H, M> View for ObserverState<H, M> {
    type V = ObserverView<H, M>;

    open spec fn view(&self) -> ObserverView<H, M> {
        ObserverView {
            collector: self.collector@,
            handles: self.handles@,
            terminal_error: option_error(self.terminal_error),
            terminal_reached: self.terminal_reached,
        }
    }
}

impl<H, M> ObserverView<H, M> {
    /// The state before the first event.
    pub open spec fn initial() -> ObserverView<H, M> {
        ObserverView {
            collector: CollectorView::empty(),
            handles: HandlesView::empty(),
            terminal_error: None,
            terminal_reached: false,
        }
    }

    /// The collected state is well-formed, a failure waits only where the end
    /// was reached, every head with a handle is known, and every mode that is
    /// known has a handle, under the head that it belongs to.
    pub open spec fn wf(self) -> bool {
        &&& self.collector.wf()
        &&& self.terminal_error is Some ==> self.terminal_reached
        &&& forall|h: u32| #[trigger]
            self.handles.heads.contains_key(h) ==> self.collector.heads.contains_key(h)
        &&& forall|m: u32| #[trigger]
            self.collector.mode_to_head.contains_key(m) ==> self.handles.modes.contains_key(m)
                && self.handles.modes[m].head_id == self.collector.mode_to_head[m]
    }

    /// The first failure ends the observation; later ones are ignored.
    pub open spec fn store_terminal(self, error: WaylandObserverErrorView) -> ObserverView<H, M> {
        if self.terminal_reached {
            self
        } else {
            ObserverView { terminal_error: Some(error), terminal_reached: true, ..self }
        }
    }

    /// After a change of the collected state, or its refusal.
    pub open spec fn collected(
        self,
        change: Result<CollectorView, SnapshotStateErrorView>,
    ) -> ObserverView<H, M> {
        match change {
            Ok(collector) => ObserverView { collector, ..self },
            Err(error) => self.store_terminal(violation(error)),
        }
    }

    pub open spec fn manager_event(self, event: ManagerEvent<H>) -> ObserverView<H, M> {
        match event {
            ManagerEvent::Head { head_id, head } => ObserverView {
                collector: self.collector.note_head(head_id),
                handles: self.handles.retain_head(head_id, head),
                ..self
            },
            ManagerEvent::Done { serial } => ObserverView {
                collector: self.collector.publish_done(serial),
                ..self
            },
            ManagerEvent::Finished => self.store_terminal(
                WaylandObserverErrorView::ManagerFinished,
            ),
            ManagerEvent::Other => self,
        }
    }

    /// A head that speaks is known from then on, if it was not before.
    pub open spec fn head_event(self, head_id: u32, event: HeadEvent<M>) -> ObserverView<H, M> {
        let state = ObserverView { collector: self.collector.note_head(head_id), ..self };
        match event {
            HeadEvent::Name { name } => state.collected(
                state.collector.set_head_name(head_id, name@),
            ),
            HeadEvent::Description { description } => state.collected(
                state.collector.set_head_description(head_id, description@),
            ),
            HeadEvent::Enabled { enabled } => state.collected(
                state.collector.set_head_enabled(head_id, enabled != 0),
            ),
            HeadEvent::CurrentMode { mode_id } => state.collected(
                state.collector.set_head_current_mode(head_id, mode_id),
            ),
            HeadEvent::Position { x, y } => state.collected(
                state.collector.set_head_position(head_id, x, y),
            ),
            HeadEvent::Transform { transform } => state.collected(
                state.collector.set_head_transform(head_id, transform),
            ),
            HeadEvent::Scale { scale, rounded } => state.collected(
                state.collector.set_head_scale(head_id, scale@, rounded@),
            ),
            HeadEvent::Mode { mode_id, mode } => {
                let retained = ObserverView {
                    handles: state.handles.retain_mode(head_id, mode_id, mode),
                    ..state
                };
                retained.collected(retained.collector.note_mode(head_id, mode_id))
            },
            HeadEvent::Finished => {
                let finished = state.collected(state.collector.finish_head(head_id));
                ObserverView { handles: finished.handles.release_head(head_id), ..finished }
            },
            HeadEvent::Other => state,
        }
    }

    pub open spec fn mode_event(self, mode_id: u32, event: ModeEvent) -> ObserverView<H, M> {
        match event {
            ModeEvent::Size { width, height } => self.collected(
                self.collector.set_mode_size(mode_id, width, height),
            ),
            ModeEvent::Refresh { refresh } => self.collected(
                self.collector.set_mode_refresh(mode_id, refresh),
            ),
            ModeEvent::Preferred => self.collected(self.collector.set_mode_preferred(mode_id)),
            ModeEvent::Finished => {
                let finished = self.collected(self.collector.finish_mode(mode_id));
                if self.collector.finish_mode(mode_id) is Ok {
                    ObserverView { handles: finished.handles.release_mode(mode_id), ..finished }
                } else {
                    finished
                }
            },
            ModeEvent::Other => self,
        }
    }

    /// What is still to be handed on: the snapshots in the order in which they
    /// were published, and behind them the failure that ended the observation.
    pub open spec fn pending_results(self) -> Seq<
        Result<OutputSnapshotView, WaylandObserverErrorView>,
    > {
        let snapshots = Seq::new(
            self.collector.publications.len(),
            |i: int|
                Ok::<OutputSnapshotView, WaylandObserverErrorView>(
                    self.collector.publications[i],
                ),
        );
        match self.terminal_error {
            Some(error) => snapshots.push(Err(error)),
            None => snapshots,
        }
    }

    /// After the first `n` of the pending results were taken.
    pub open spec fn taken(self, n: int) -> ObserverView<H, M> {
        let published = self.collector.publications.len();
        if n <= published {
            ObserverView {
                collector: CollectorView {
                    publications: self.collector.publications.skip(n),
                    ..self.collector
                },
                ..self
            }
        } else {
            ObserverView {
                collector: CollectorView { publications: seq![], ..self.collector },
                terminal_error: None,
                ..self
            }
        }
    }

    /// Whether the observation ended and its failure was handed on.
    pub open spec fn terminal_drained(self) -> bool {
        self.terminal_reached && self.terminal_error is None
    }
}

impl<H, M> ObserverState<H, M> {
    pub fn new() -> (state: ObserverState<H, M>)
        ensures
            state@ == ObserverView::<H, M>::initial(),
            state@.wf(),
    {
        ObserverState {
            collector: SnapshotCollector::new(),
            handles: OutputManagementHandles::new(),
            terminal_error: None,
            terminal_reached: false,
        }
    }

    /// Ends the observation with what a refused event leads to.
    pub fn store_error(&mut self, error: SnapshotStateError)
        ensures
            final(self)@ == old(self)@.store_terminal(violation(error@)),
    {
        self.store_terminal(WaylandObserverError::from(error));
    }

    /// Ends the observation with this failure, unless it has ended already.
    pub fn store_terminal(&mut self, error: WaylandObserverError)
        ensures
            final(self)@ == old(self)@.store_terminal(error@),
    {
        if self.terminal_reached {
            return;
        }
        self.terminal_reached = true;
        self.terminal_error = Some(error);
    }

    /// Ends the observation if dispatching events failed.
    pub fn note_dispatch(&mut self, result: Result<(), String>)
        ensures
            final(self)@ == match result {
                Ok(()) => old(self)@,
                Err(message) => old(self)@.store_terminal(
                    WaylandObserverErrorView::DispatchFailed(message@),
                ),
            },
    {
        if let Err(message) = result {
            self.store_terminal(WaylandObserverError::DispatchFailed(message));
        }
    }

    /// Takes the first of the pending results.
    pub fn take_next_result(&mut self) -> (r: Option<Result<OutputSnapshot, WaylandObserverError>>)
        requires
            old(self)@.wf(),
        ensures
            match r {
                Some(result) => {
                    &&& old(self)@.pending_results().len() > 0
                    &&& result_view(result) == old(self)@.pending_results().first()
                    &&& final(self)@ == old(self)@.taken(1)
                },
                None => old(self)@.pending_results().len() == 0 && final(self)@ == old(self)@,
            },
            final(self)@.wf(),
    {
        if let Some(snapshot) = self.collector.take_publication() {
            assert(self@.collector.publications =~= old(self)@.collector.publications.skip(1));
            return Some(Ok(snapshot));
        }
        match self.terminal_error.take() {
            Some(error) => {
                assert(self@.collector.publications =~= seq![]);
                Some(Err(error))
            },
            None => None,
        }
    }

    /// Whether the observation ended and its failure was handed on.
    pub fn terminal_drained(&self) -> (r: bool)
        ensures
            r == self@.terminal_drained(),
    {
        self.terminal_reached && self.terminal_error.is_none()
    }

    /// Takes in what the output manager says.
    pub fn handle_manager_event(&mut self, event: ManagerEvent<H>)
        requires
            old(self)@.wf(),
        ensures
            final(self)@ == old(self)@.manager_event(event),
            final(self)@.wf(),
    {
        match event {
            ManagerEvent::Head { head_id, head } => {
                self.handles.retain_head(head_id, head);
                self.collector.note_head(head_id);
            },
            ManagerEvent::Done { serial } => {
                if let Err(error) = self.collector.publish_done(serial) {
                    self.store_error(error);
                }
            },
            ManagerEvent::Finished => {
                self.store_terminal(WaylandObserverError::ManagerFinished);
            },
            ManagerEvent::Other => {},
        }
    }

    /// Takes in what a head says.
    pub fn handle_head_event(&mut self, head_id: u32, event: HeadEvent<M>)
        requires
            old(self)@.wf(),
        ensures
            final(self)@ == old(self)@.head_event(head_id, event),
            final(self)@.wf(),
    {
        self.collector.note_head(head_id);
        let result = match event {
            HeadEvent::Name { name } => self.collector.set_head_name(head_id, name),
            HeadEvent::Description { description } => self.collector.set_head_description(
                head_id,
                description,
            ),
            HeadEvent::Enabled { enabled } => self.collector.set_head_enabled(
                head_id,
                enabled != 0,
            ),
            HeadEvent::CurrentMode { mode_id } => self.collector.set_head_current_mode(
                head_id,
                mode_id,
            ),
            HeadEvent::Position { x, y } => self.collector.set_head_position(head_id, x, y),
            HeadEvent::Transform { transform } => self.collector.set_head_transform(
                head_id,
                transform,
            ),
            HeadEvent::Scale { scale, rounded } => self.collector.set_head_scale(
                head_id,
                scale,
                rounded,
            ),
            HeadEvent::Mode { mode_id, mode } => {
                self.handles.retain_mode(head_id, mode_id, mode);
                self.collector.note_mode(head_id, mode_id)
            },
            HeadEvent::Finished => {
                let result = self.collector.finish_head(head_id);
                if result.is_ok() {
                    self.handles.release_head(head_id);
                }
                result
            },
            HeadEvent::Other => Ok(()),
        };
        if let Err(error) = result {
            self.store_error(error);
        }
    }

    /// Takes in what a mode says.
    pub fn handle_mode_event(&mut self, mode_id: u32, event: ModeEvent)
        requires
            old(self)@.wf(),
        ensures
            final(self)@ == old(self)@.mode_event(mode_id, event),
            final(self)@.wf(),
    {
        let result = match event {
            ModeEvent::Size { width, height } => self.collector.set_mode_size(
                mode_id,
                width,
                height,
            ),
            ModeEvent::Refresh { refresh } => self.collector.set_mode_refresh(mode_id, refresh),
            ModeEvent::Preferred => self.collector.set_mode_preferred(mode_id),
            ModeEvent::Finished => {
                let result = self.collector.finish_mode(mode_id);
                if result.is_ok() {
                    self.handles.release_mode(mode_id);
                }
                result
            },
            ModeEvent::Other => Ok(()),
        };
        if let Err(error) = result {
            self.store_error(error);
        }
    }
}

impl<H, M> Default for ObserverState<H, M> {
    fn default() -> (state: ObserverState<H, M>)
        ensures
            state@ == ObserverView::<H, M>::initial(),
            state@.wf(),
    {
        ObserverState::new()
    }
}

/// Whether the observation goes on after results were handed on.
#[derive(Debug, Clone, Copy, PartialEq, Eq, Structural)]
pub enum PublishStatus {
    Continue,
    Stop,
}

impl PublishStatus {
    pub fn should_stop(self) -> (r: bool)
        ensures
            r == (self == PublishStatus::Stop),
    {
        matches!(self, PublishStatus::Stop)
    }
}

/// The next step in handing on results.
#[derive(Debug)]
pub enum PublishStep {
    /// Hand on this result, and go on if that works.
    Send(Result<OutputSnapshot, WaylandObserverError>),
    /// Nothing is left to be handed on.
    Finish(PublishStatus),
}

impl<H, M> ObserverState<H, M> {
    /// The next step in handing on the pending results, given whether the last
    /// one arrived, or true where there was none yet. Where it did not, the
    /// receiver is gone: nothing more is taken, and the observation stops.
    pub fn publish_step(&mut self, sent: bool) -> (step: PublishStep)
        requires
            old(self)@.wf(),
        ensures
            match step {
                PublishStep::Send(result) => {
                    &&& sent
                    &&& old(self)@.pending_results().len() > 0
                    &&& result_view(result) == old(self)@.pending_results().first()
                    &&& final(self)@ == old(self)@.taken(1)
                },
                PublishStep::Finish(status) => {
                    &&& !sent || old(self)@.pending_results().len() == 0
                    &&& final(self)@ == old(self)@
                    &&& status == if !sent || old(self)@.terminal_drained() {
                        PublishStatus::Stop
                    } else {
                        PublishStatus::Continue
                    }
                },
            },
            final(self)@.wf(),
    {
        if !sent {
            return PublishStep::Finish(PublishStatus::Stop);
        }
        match self.take_next_result() {
            Some(result) => PublishStep::Send(result),
            None => if self.terminal_drained() {
                PublishStep::Finish(PublishStatus::Stop)
            } else {
                PublishStep::Finish(PublishStatus::Continue)
            },
        }
    }
}

/// The sending half of a channel.
#[verifier::external_type_specification]
#[verifier::external_body]
#[verifier::reject_recursive_types(T)]
pub struct ExSender<T>(Sender<T>);

/// What was handed to a channel through its sending half, in order, and of each
/// value what the channel answered: whether the receiving half still existed.
pub uninterp spec fn handed_on(
    publication_tx: Sender<Result<OutputSnapshot, WaylandObserverError>>,
) -> Seq<(Result<OutputSnapshotView, WaylandObserverErrorView>, bool)>;

/// `Sender::send` hands a value to a channel, behind what was handed to it
/// before, and answers whether the receiving half still exists. Which answer
/// comes is not said, as it depends on the other side; the answer is recorded
/// with the value.
#[verifier::external_body]
fn send_result(
    publication_tx: &mut Sender<Result<OutputSnapshot, WaylandObserverError>>,
    result: Result<OutputSnapshot, WaylandObserverError>,
) -> (sent: bool)
    ensures
        handed_on(*final(publication_tx)) == handed_on(*old(publication_tx)).push(
            (result_view(result), sent),
        ),
{
    publication_tx.send(result).is_ok()
}

/// Taking results one after another is taking them at once.
pub proof fn taking_adds_up<H, M>(state: ObserverView<H, M>, n: int)
    requires
        state.wf(),
        0 <= n < state.pending_results().len(),
    ensures
        state.taken(0) == state,
        state.taken(n).wf(),
        state.taken(n).pending_results() == state.pending_results().skip(n),
        state.taken(n).taken(1) == state.taken(n + 1),
{
    let published = state.collector.publications;
    assert(published.skip(0) =~= published);
    assert(state.taken(n).pending_results() =~= state.pending_results().skip(n));
    if n < published.len() {
        assert(published.skip(n).skip(1) =~= published.skip(n + 1));
    } else {
        assert(published.skip(n) =~= seq![]);
    }
}

/// After all results were taken none is pending.
pub proof fn taking_all_leaves_none<H, M>(state: ObserverView<H, M>)
    requires
        state.wf(),
    ensures
        ({
            let rest = state.taken(state.pending_results().len() as int);
            &&& rest.pending_results().len() == 0
            &&& rest.terminal_error is None
            &&& rest.terminal_reached == state.terminal_reached
            &&& rest.collector.heads == state.collector.heads
        }),
{
}

/// Whether the last of some sends was answered by the receiver being gone.
pub open spec fn receiver_gone(
    sends: Seq<(Result<OutputSnapshotView, WaylandObserverErrorView>, bool)>,
) -> bool {
    sends.len() > 0 && !sends.last().1
}

/// Whether some sends hand on the pending results of a state: in order from the
/// first, each behind one that arrived, and all of them unless the receiver is
/// gone.
pub open spec fn hands_on<H, M>(
    state: ObserverView<H, M>,
    sends: Seq<(Result<OutputSnapshotView, WaylandObserverErrorView>, bool)>,
) -> bool {
    let pending = state.pending_results();
    &&& sends.len() <= pending.len()
    &&& forall|i: int| 0 <= i < sends.len() ==> (#[trigger] sends[i]).0 == pending[i]
    &&& forall|i: int| 0 <= i < sends.len() - 1 ==> (#[trigger] sends[i]).1
    &&& !receiver_gone(sends) ==> sends.len() == pending.len()
}

/// Hands on the pending results in order, until none is left or the receiver
/// is gone. The observation stops where the receiver is gone or the end was
/// reached, and goes on otherwise.
pub fn publish_pending_results<H, M>(
    state: &mut ObserverState<H, M>,
    publication_tx: &mut Sender<Result<OutputSnapshot, WaylandObserverError>>,
) -> (status: PublishStatus)
    requires
        old(state)@.wf(),
    ensures
        exists|sends: Seq<(Result<OutputSnapshotView, WaylandObserverErrorView>, bool)>|
            {
                &&& #[trigger] hands_on(old(state)@, sends)
                &&& final(state)@ == old(state)@.taken(sends.len() as int)
                &&& handed_on(*final(publication_tx)) == handed_on(*old(publication_tx)) + sends
                &&& status == if receiver_gone(sends) || old(state)@.terminal_reached {
                    PublishStatus::Stop
                } else {
                    PublishStatus::Continue
                }
            },
        final(state)@.wf(),
{
    let ghost start = state@;
    let ghost pending = start.pending_results();
    let ghost before = handed_on(*publication_tx);
    let ghost mut sends: Seq<(Result<OutputSnapshotView, WaylandObserverErrorView>, bool)> = seq![];
    let mut sent = true;
    proof {
        assert(start.collector.publications.skip(0) =~= start.collector.publications);
        assert(before + sends =~= before);
    }
    loop
        invariant
            start == old(state)@,
            pending == start.pending_results(),
            before == handed_on(*old(publication_tx)),
            start.wf(),
            state@.wf(),
            sends.len() <= pending.len(),
            forall|i: int| 0 <= i < sends.len() ==> (#[trigger] sends[i]).0 == pending[i],
            forall|i: int| 0 <= i < sends.len() - 1 ==> (#[trigger] sends[i]).1,
            sent == !receiver_gone(sends),
            state@ == start.taken(sends.len() as int),
            handed_on(*publication_tx) == before + sends,
        decreases pending.len() - sends.len(),
    {
        proof {
            if sends.len() < pending.len() {
                taking_adds_up(start, sends.len() as int);
            } else {
                taking_all_leaves_none(start);
            }
        }
        match state.publish_step(sent) {
            PublishStep::Send(result) => {
                sent = send_result(publication_tx, result);
                proof {
                    let next = sends.push((result_view(result), sent));
                    assert((before + sends).push((result_view(result), sent)) =~= before + next);
                    sends = next;
                }
            },
            PublishStep::Finish(status) => {
                assert(hands_on(start, sends));
                return status;
            },
        }
    }
}

/// While the receiver is there, handing on loses nothing: every snapshot that
/// was published and then the failure, if there is one, arrives once, nothing
/// stays pending, and the observation stops exactly where its end was reached.
pub proof fn nothing_is_lost_while_the_receiver_is_there<H, M>(
    state: ObserverView<H, M>,
    sends: Seq<(Result<OutputSnapshotView, WaylandObserverErrorView>, bool)>,
)
    requires
        state.wf(),
        hands_on(state, sends),
        forall|i: int| 0 <= i < sends.len() ==> (#[trigger] sends[i]).1,
    ensures
        sends == Seq::new(
            state.pending_results().len(),
            |i: int| (state.pending_results()[i], true),
        ),
        state.taken(sends.len() as int).pending_results().len() == 0,
        !receiver_gone(sends),
{
    taking_all_leaves_none(state);
    assert(sends =~= Seq::new(
        state.pending_results().len(),
        |i: int| (state.pending_results()[i], true),
    ));
}

/// Where the receiver is gone, one result at most is handed to the channel, and
/// none where none is pending.
pub proof fn nothing_follows_a_lost_result<H, M>(
    state: ObserverView<H, M>,
    sends: Seq<(Result<OutputSnapshotView, WaylandObserverErrorView>, bool)>,
)
    requires
        hands_on(state, sends),
        forall|i: int| 0 <= i < sends.len() ==> !(#[trigger] sends[i]).1,
    ensures
        sends.len() == if state.pending_results().len() > 0 {
            1nat
        } else {
            0
        },
        receiver_gone(sends) <==> state.pending_results().len() > 0,
{
    if sends.len() > 1 {
        assert(sends[0].1);
    }
}

/// Standalone observer entry point.
#[derive(Debug, Default)]
pub struct WaylandOutputObserver;

/// What starting an observation comes to, given what the observation thread
/// reports.
pub open spec fn startup_view(reply: Result<Result<(), WaylandObserverError>, String>) -> Result<
    (),
    WaylandObserverErrorView,
> {
    match reply {
        Ok(Ok(())) => Ok(()),
        Ok(Err(error)) => Err(error@),
        Err(message) => Err(
            WaylandObserverErrorView::DispatchFailed(
                "observer startup channel closed unexpectedly: "@ + message@,
            ),
        ),
    }
}

impl WaylandOutputObserver {
    /// What starting an observation comes to: the observation thread reports
    /// success or a failure, or goes away without a word.
    pub fn startup_outcome(reply: Result<Result<(), WaylandObserverError>, String>) -> (r: Result<
        (),
        WaylandObserverError,
    >)
        ensures
            match r {
                Ok(()) => startup_view(reply) == Ok::<(), WaylandObserverErrorView>(()),
                Err(error) => startup_view(reply) == Err::<(), WaylandObserverErrorView>(error@),
            },
    {
        match reply {
            Ok(Ok(())) => Ok(()),
            Ok(Err(error)) => Err(error),
            Err(message) => {
                let mut text = String::new();
                text.append("observer startup channel closed unexpectedly: ");
                text.append(message.as_str());
                assert(text@ =~= "observer startup channel closed unexpectedly: "@ + message@);
                Err(WaylandObserverError::DispatchFailed(text))
            },
        }
    }
}

/// The failure that ended an observation comes behind every snapshot, and it is
/// the first failure that there was: later ones change nothing.
pub proof fn failure_comes_last_and_once<H, M>(
    state: ObserverView<H, M>,
    first: WaylandObserverErrorView,
    second: WaylandObserverErrorView,
    serial: u32,
)
    requires
        state.wf(),
        !state.terminal_reached,
    ensures
        ({
            let ended = state.store_terminal(first);
            &&& ended.pending_results() == state.pending_results().push(Err(first))
            &&& ended.store_terminal(second) == ended
            &&& ended.taken(ended.pending_results().len() as int).store_terminal(
                second,
            ).pending_results().len() == 0
            &&& ended.manager_event(ManagerEvent::<H>::Done { serial }).pending_results()
                == state.pending_results().push(
                Ok(state.collector.snapshot(serial)),
            ).push(Err(first))
        }),
{
    let ended = state.store_terminal(first);
    assert(ended.pending_results() =~= state.pending_results().push(Err(first)));
    assert(ended.manager_event(ManagerEvent::<H>::Done { serial }).pending_results()
        =~= state.pending_results().push(Ok(state.collector.snapshot(serial))).push(Err(first)));
}

/// A `done` publishes the state as it then is, behind what was published
/// before; no other event of the manager, of a head or of a mode publishes
/// anything.
pub proof fn only_done_publishes<H, M>(
    state: ObserverView<H, M>,
    serial: u32,
    id: u32,
    manager_event: ManagerEvent<H>,
    head_event: HeadEvent<M>,
    mode_event: ModeEvent,
)
    ensures
        state.manager_event(ManagerEvent::<H>::Done { serial }).collector.publications
            == state.collector.publications.push(state.collector.snapshot(serial)),
        !(manager_event is Done) ==> state.manager_event(manager_event).collector.publications
            == state.collector.publications,
        state.head_event(id, head_event).collector.publications == state.collector.publications,
        state.mode_event(id, mode_event).collector.publications == state.collector.publications,
{
}

/// A head that says it is gone is forgotten, with its handle and the handles
/// of its modes.
pub proof fn finished_head_releases_its_handles<H, M>(
    state: ObserverView<H, M>,
    head_id: u32,
    mode_id: u32,
)
    requires
        state.wf(),
    ensures
        ({
            let after = state.head_event(head_id, HeadEvent::<M>::Finished);
            &&& after.wf()
            &&& !after.collector.heads.contains_key(head_id)
            &&& after.handles.head(head_id) is None
            &&& after.handles.mode(head_id, mode_id) is None
            &&& after.terminal_reached == state.terminal_reached
        }),
{
}

/// What happens in the course of an observation.
pub enum ObserverStep<H, M> {
    Manager(ManagerEvent<H>),
    Head(u32, HeadEvent<M>),
    Mode(u32, ModeEvent),
    /// Dispatching events ended with this message, if with any.
    Dispatched { failure: Option<Seq<char>> },
    /// The pending results were handed on, and all of them arrived.
    HandedOn,
}

/// How far an observation has come: its state, what it has handed on, and, for
/// comparison, the snapshots that its `done` events called for and the failure
/// that ended it.
pub struct CourseView<H, M> {
    pub state: ObserverView<H, M>,
    pub handed: Seq<Result<OutputSnapshotView, WaylandObserverErrorView>>,
    pub called_for: Seq<OutputSnapshotView>,
    pub failure: Option<WaylandObserverErrorView>,
}

impl<H, M> CourseView<H, M> {
    pub open spec fn initial() -> CourseView<H, M> {
        CourseView {
            state: ObserverView::initial(),
            handed: seq![],
            called_for: seq![],
            failure: None,
        }
    }

    /// After an event that leads to this state: the failure is the first that
    /// there was.
    pub open spec fn with_state(self, state: ObserverView<H, M>) -> CourseView<H, M> {
        CourseView {
            failure: if self.failure is None {
                state.terminal_error
            } else {
                self.failure
            },
            state,
            ..self
        }
    }

    /// After one thing more. Once the failure was handed on the observation is
    /// over, and nothing more happens.
    pub open spec fn step(self, step: ObserverStep<H, M>) -> CourseView<H, M> {
        if self.state.terminal_drained() {
            self
        } else {
            match step {
                ObserverStep::Manager(event) => {
                    let next = self.with_state(self.state.manager_event(event));
                    match event {
                        ManagerEvent::Done { serial } => CourseView {
                            called_for: next.called_for.push(
                                self.state.collector.snapshot(serial),
                            ),
                            ..next
                        },
                        _ => next,
                    }
                },
                ObserverStep::Head(head_id, event) => self.with_state(
                    self.state.head_event(head_id, event),
                ),
                ObserverStep::Mode(mode_id, event) => self.with_state(
                    self.state.mode_event(mode_id, event),
                ),
                ObserverStep::Dispatched { failure } => match failure {
                    Some(message) => self.with_state(
                        self.state.store_terminal(
                            WaylandObserverErrorView::DispatchFailed(message),
                        ),
                    ),
                    None => self,
                },
                ObserverStep::HandedOn => CourseView {
                    state: self.state.taken(self.state.pending_results().len() as int),
                    handed: self.handed + self.state.pending_results(),
                    ..self
                },
            }
        }
    }

    /// What is owed to the receiver: one snapshot for each `done`, in order, and
    /// behind them the failure.
    pub open spec fn owed(self) -> Seq<Result<OutputSnapshotView, WaylandObserverErrorView>> {
        let snapshots = Seq::new(
            self.called_for.len(),
            |i: int| Ok::<OutputSnapshotView, WaylandObserverErrorView>(self.called_for[i]),
        );
        match self.failure {
            Some(error) => snapshots.push(Err(error)),
            None => snapshots,
        }
    }

    /// What was handed on and what is pending is together what is owed.
    pub open spec fn balanced(self) -> bool {
        &&& self.state.wf()
        &&& self.handed + self.state.pending_results() == self.owed()
        &&& self.failure is Some <==> self.state.terminal_reached
        &&& self.state.terminal_error is Some ==> self.failure == self.state.terminal_error
        &&& self.state.terminal_drained() ==> self.state.pending_results().len() == 0
    }
}

/// The course of an observation.
pub open spec fn course<H, M>(steps: Seq<ObserverStep<H, M>>) -> CourseView<H, M>
    decreases steps.len(),
{
    if steps.len() == 0 {
        CourseView::initial()
    } else {
        course(steps.drop_last()).step(steps.last())
    }
}

proof fn lemma_event_keeps_balance<H, M>(before: CourseView<H, M>, next: ObserverView<H, M>)
    requires
        before.balanced(),
        !before.state.terminal_drained(),
        next.wf(),
        next.collector.publications == before.state.collector.publications,
        ({
            ||| {
                &&& next.terminal_error == before.state.terminal_error
                &&& next.terminal_reached == before.state.terminal_reached
            }
            ||| {
                &&& !before.state.terminal_reached
                &&& next.terminal_reached
                &&& next.terminal_error is Some
            }
        }),
    ensures
        before.with_state(next).balanced(),
{
    let after = before.with_state(next);
    if before.state.terminal_reached || !next.terminal_reached {
        assert(next.pending_results() =~= before.state.pending_results());
        assert(after.owed() =~= before.owed());
    } else {
        let error = next.terminal_error->0;
        assert(next.pending_results() =~= before.state.pending_results().push(Err(error)));
        assert(after.owed() =~= before.owed().push(Err(error)));
        assert(after.handed + next.pending_results() =~= (before.handed
            + before.state.pending_results()).push(Err(error)));
    }
}

proof fn lemma_done_keeps_balance<H, M>(before: CourseView<H, M>, serial: u32)
    requires
        before.balanced(),
        !before.state.terminal_drained(),
    ensures
        ({
            let done = ManagerEvent::<H>::Done { serial };
            before.step(ObserverStep::Manager(done)).balanced()
        }),
{
    let done = ManagerEvent::<H>::Done { serial };
    let after = before.step(ObserverStep::Manager(done));
    let snapshot = before.state.collector.snapshot(serial);
    let pending = before.state.pending_results();
    let all = before.handed + pending;
    assert(after.state.wf());
    match before.state.terminal_error {
        Some(error) => {
            assert(pending.last() == Err::<OutputSnapshotView, WaylandObserverErrorView>(error));
            assert(after.state.pending_results() =~= pending.drop_last().push(Ok(snapshot)).push(
                Err(error),
            ));
            assert(after.owed() =~= before.owed().drop_last().push(Ok(snapshot)).push(Err(error)));
            assert(all.drop_last() =~= before.handed + pending.drop_last());
            assert(after.handed + after.state.pending_results() =~= all.drop_last().push(
                Ok(snapshot),
            ).push(Err(error)));
        },
        None => {
            assert(after.state.pending_results() =~= pending.push(Ok(snapshot)));
            assert(after.owed() =~= before.owed().push(Ok(snapshot)));
            assert(after.handed + after.state.pending_results() =~= all.push(Ok(snapshot)));
        },
    }
}

proof fn lemma_hand_on_keeps_balance<H, M>(before: CourseView<H, M>)
    requires
        before.balanced(),
        !before.state.terminal_drained(),
    ensures
        before.step(ObserverStep::<H, M>::HandedOn).balanced(),
{
    let after = before.step(ObserverStep::<H, M>::HandedOn);
    taking_all_leaves_none(before.state);
    assert(after.owed() =~= before.owed());
    assert(after.handed + after.state.pending_results() =~= after.handed);
}

/// While the receiver is there, it gets one snapshot for each `done`, in order
/// and none skipped, each as the state was at that time, and behind them the
/// first failure: at any point in the course of an observation, what was handed
/// on is the beginning of that, and what is missing is pending. Behind a failure
/// nothing is handed on.
pub proof fn each_done_is_handed_on_in_order<H, M>(steps: Seq<ObserverStep<H, M>>)
    ensures
        course(steps).balanced(),
        course(steps).handed.is_prefix_of(course(steps).owed()),
        course(steps.push(ObserverStep::HandedOn)).handed == course(steps).owed(),
    decreases steps.len(),
{
    if steps.len() == 0 {
        let start = CourseView::<H, M>::initial();
        assert(start.handed + start.state.pending_results() =~= start.owed());
    } else {
        let before = course(steps.drop_last());
        each_done_is_handed_on_in_order(steps.drop_last());
        if !before.state.terminal_drained() {
            match steps.last() {
                ObserverStep::Manager(event) => match event {
                    ManagerEvent::Done { serial } => {
                        lemma_done_keeps_balance(before, serial);
                    },
                    _ => {
                        lemma_event_keeps_balance(before, before.state.manager_event(event));
                    },
                },
                ObserverStep::Head(head_id, event) => {
                    lemma_event_keeps_balance(before, before.state.head_event(head_id, event));
                },
                ObserverStep::Mode(mode_id, event) => {
                    lemma_event_keeps_balance(before, before.state.mode_event(mode_id, event));
                },
                ObserverStep::Dispatched { failure } => {
                    if let Some(message) = failure {
                        lemma_event_keeps_balance(
                            before,
                            before.state.store_terminal(
                                WaylandObserverErrorView::DispatchFailed(message),
                            ),
                        );
                    }
                },
                ObserverStep::HandedOn => {
                    lemma_hand_on_keeps_balance(before);
                },
            }
        }
    }
    let now = course(steps);
    assert(now.owed().subrange(0, now.handed.len() as int) =~= now.handed);
    assert(steps.push(ObserverStep::HandedOn).drop_last() =~= steps);
    if now.state.terminal_drained() {
        assert(now.owed() =~= now.handed + now.state.pending_results());
    }
}

} // verus!
