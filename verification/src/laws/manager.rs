//! What counts as a change of the display state, and what follows it.

use vstd::prelude::*;

use crate::manager;
use crate::manager::{
    DisplayManager, DisplayManagerView, WatchStage, WatchState, WatchStep, WaylandSideEffectStage,
};
use crate::monitor;
use crate::monitor::{LogicalMonitor, LogicalMonitorView, Monitor, MonitorView};
use crate::profile;
use crate::state_set;
use crate::state_set::{Identified, StateSet};
use crate::sway;
use crate::wayland_observer::OutputHeadSnapshotView;

verus! {

/// Whether two monitors have the same connector, vendor, product and serial, and are
/// driven in the same mode.
pub open spec fn same_monitor(a: MonitorView, b: MonitorView) -> bool {
    &&& a.description.connector == b.description.connector
    &&& a.description.vendor == b.description.vendor
    &&& a.description.product == b.description.product
    &&& a.description.serial == b.description.serial
    &&& a.current_mode() == b.current_mode()
}

/// Whether two logical monitors are at the same place, turned and scaled in the same
/// way, and show the monitor at the same connector first.
pub open spec fn same_logical(a: LogicalMonitorView, b: LogicalMonitorView) -> bool {
    &&& a.x_pos == b.x_pos
    &&& a.y_pos == b.y_pos
    &&& a.transform == b.transform
    &&& a.scale.bits == b.scale.bits
    &&& a.monitors.len() == 0 <==> b.monitors.len() == 0
    &&& a.monitors.len() > 0 && b.monitors.len() > 0 ==> a.monitors[0].connector
        == b.monitors[0].connector
}

/// Whether a monitor is the same as one of some others.
pub open spec fn monitor_among(one: MonitorView, others: Seq<MonitorView>) -> bool {
    exists|j: int| 0 <= j < others.len() && same_monitor(one, #[trigger] others[j])
}

/// Whether each of some monitors is the same as one of some others.
pub open spec fn monitors_among(some: Seq<MonitorView>, others: Seq<MonitorView>) -> bool {
    forall|i: int| 0 <= i < some.len() ==> monitor_among(#[trigger] some[i], others)
}

/// Whether a logical monitor is the same as one of some others.
pub open spec fn logical_among(one: LogicalMonitorView, others: Seq<LogicalMonitorView>) -> bool {
    exists|j: int| 0 <= j < others.len() && same_logical(one, #[trigger] others[j])
}

/// Whether each of some logical monitors is the same as one of some others.
pub open spec fn logicals_among(
    some: Seq<LogicalMonitorView>,
    others: Seq<LogicalMonitorView>,
) -> bool {
    forall|i: int| 0 <= i < some.len() ==> logical_among(#[trigger] some[i], others)
}

/// Whether two display states are the same: each monitor and each logical monitor of
/// the one is the same as one of the other.
pub open spec fn same_state(
    monitors: Seq<MonitorView>,
    logical_monitors: Seq<LogicalMonitorView>,
    other_monitors: Seq<MonitorView>,
    other_logical_monitors: Seq<LogicalMonitorView>,
) -> bool {
    &&& monitors_among(monitors, other_monitors)
    &&& monitors_among(other_monitors, monitors)
    &&& logicals_among(logical_monitors, other_logical_monitors)
    &&& logicals_among(other_logical_monitors, logical_monitors)
}

/// What is remembered of two observations is the same exactly where the two states
/// are the same: a monitor that comes, goes or is driven in another mode, and a
/// logical monitor that comes, goes, moves either way, or is turned or scaled
/// otherwise, is remembered.
pub proof fn every_difference_is_remembered(
    monitors: Seq<MonitorView>,
    logical_monitors: Seq<LogicalMonitorView>,
    other_monitors: Seq<MonitorView>,
    other_logical_monitors: Seq<LogicalMonitorView>,
)
    ensures
        manager::watched(monitors, logical_monitors) == manager::watched(
            other_monitors,
            other_logical_monitors,
        ) <==> same_state(
            monitors,
            logical_monitors,
            other_monitors,
            other_logical_monitors,
        ),
{
    lemma_monitors(monitors, other_monitors);
    lemma_monitors(other_monitors, monitors);
    lemma_logicals(logical_monitors, other_logical_monitors);
    lemma_logicals(other_logical_monitors, logical_monitors);
    let left = manager::watched(monitors, logical_monitors);
    let right = manager::watched(other_monitors, other_logical_monitors);
    if same_state(monitors, logical_monitors, other_monitors, other_logical_monitors) {
        assert(left.monitors =~= right.monitors);
        assert(left.logical_monitors =~= right.logical_monitors);
    }
}

proof fn lemma_monitors(some: Seq<MonitorView>, others: Seq<MonitorView>)
    ensures
        monitors_among(some, others) <==> manager::monitor_identities(some).subset_of(
            manager::monitor_identities(others),
        ),
{
    assert forall|a: MonitorView, b: MonitorView| #[trigger] same_monitor(a, b) <==> a.identity()
        == b.identity() by {}
    let left = manager::monitor_identities(some);
    let right = manager::monitor_identities(others);
    if monitors_among(some, others) {
        assert forall|key| #[trigger] left.contains(key) implies right.contains(key) by {
            let i = choose|i: int| 0 <= i < some.len() && (#[trigger] some[i]).identity() == key;
            assert(monitor_among(some[i], others));
            let j = choose|j: int|
                0 <= j < others.len() && same_monitor(some[i], #[trigger] others[j]);
            assert(others[j].identity() == key);
        }
    }
    if left.subset_of(right) {
        assert forall|i: int| 0 <= i < some.len() implies monitor_among(
            #[trigger] some[i],
            others,
        ) by {
            assert(left.contains(some[i].identity()));
            let j = choose|j: int|
                0 <= j < others.len() && (#[trigger] others[j]).identity() == some[i].identity();
            assert(same_monitor(some[i], others[j]));
        }
    }
}

proof fn lemma_logicals(some: Seq<LogicalMonitorView>, others: Seq<LogicalMonitorView>)
    ensures
        logicals_among(some, others) <==> manager::logical_identities(some).subset_of(
            manager::logical_identities(others),
        ),
{
    assert forall|a: LogicalMonitorView, b: LogicalMonitorView| #[trigger]
        same_logical(a, b) <==> a.identity() == b.identity() by {}
    let left = manager::logical_identities(some);
    let right = manager::logical_identities(others);
    if logicals_among(some, others) {
        assert forall|key| #[trigger] left.contains(key) implies right.contains(key) by {
            let i = choose|i: int| 0 <= i < some.len() && (#[trigger] some[i]).identity() == key;
            assert(logical_among(some[i], others));
            let j = choose|j: int|
                0 <= j < others.len() && same_logical(some[i], #[trigger] others[j]);
            assert(others[j].identity() == key);
        }
    }
    if left.subset_of(right) {
        assert forall|i: int| 0 <= i < some.len() implies logical_among(
            #[trigger] some[i],
            others,
        ) by {
            assert(left.contains(some[i].identity()));
            let j = choose|j: int|
                0 <= j < others.len() && (#[trigger] others[j]).identity() == some[i].identity();
            assert(same_logical(some[i], others[j]));
        }
    }
}

/// Putting a logical monitor in place of another is a change exactly where they
/// differ in horizontal or vertical position, transform, scale or first connector,
/// and putting a monitor in place of another exactly where they differ in a name or
/// in the mode that they are driven in.
pub proof fn replacing_one_by_another_is_a_change(
    monitor: MonitorView,
    other_monitor: MonitorView,
    shown: LogicalMonitorView,
    other_shown: LogicalMonitorView,
)
    ensures
        manager::watched(seq![monitor], seq![shown]) == manager::watched(
            seq![other_monitor],
            seq![other_shown],
        ) <==> same_monitor(monitor, other_monitor) && same_logical(shown, other_shown),
{
    let m = seq![monitor];
    let l = seq![shown];
    let n = seq![other_monitor];
    let k = seq![other_shown];
    every_difference_is_remembered(m, l, n, k);
    assert(m[0] == monitor && n[0] == other_monitor && l[0] == shown && k[0] == other_shown);
    if same_monitor(monitor, other_monitor) && same_logical(shown, other_shown) {
        assert(same_monitor(m[0], n[0]) && same_monitor(n[0], m[0]));
        assert(same_logical(l[0], k[0]) && same_logical(k[0], l[0]));
    }
}

/// Outputs that are observed are a change exactly where the state that they make
/// differs from the one observed last. Then the manager takes them over, with its
/// serial and its properties as they were, and they are what is remembered; otherwise
/// everything stays as it is.
pub proof fn observed_outputs_are_taken_over(
    held: DisplayManagerView,
    monitors: Seq<MonitorView>,
    logical_monitors: Seq<LogicalMonitorView>,
    outputs: Seq<sway::OutputView>,
)
    ensures
        ({
            let watch = manager::watched(monitors, logical_monitors);
            let next = manager::observed(held, watch, outputs);
            let new_monitors = manager::output_monitors(outputs);
            let new_logical_monitors = manager::output_logicals(outputs);
            let same = same_state(
                monitors,
                logical_monitors,
                new_monitors,
                new_logical_monitors,
            );
            &&& next.changed <==> !same
            &&& same ==> next.manager == held
            &&& !same ==> {
                &&& next.manager.monitors == new_monitors
                &&& next.manager.logical_monitors == new_logical_monitors
                &&& next.manager.serial == held.serial
                &&& next.manager.properties == held.properties
            }
            &&& next.watch == manager::watched(new_monitors, new_logical_monitors)
        }),
{
    every_difference_is_remembered(
        monitors,
        logical_monitors,
        manager::output_monitors(outputs),
        manager::output_logicals(outputs),
    );
}

/// An output that moves, is turned or is scaled otherwise, or is driven in another
/// mode, is noticed: where two observations of one output that is switched on come
/// behind each other, the second is a change as soon as any of these differs.
pub proof fn moved_output_is_noticed(
    held: DisplayManagerView,
    before: sway::OutputView,
    after: sway::OutputView,
)
    requires
        before.active && after.active,
        ({
            ||| before.rect.x != after.rect.x
            ||| before.rect.y != after.rect.y
            ||| before.name != after.name
            ||| before.scale is Some && after.scale is Some && (before.scale->0).bits != (
            after.scale->0).bits
            ||| monitor::reported_transform(before.transform) != monitor::reported_transform(
                after.transform,
            )
            ||| monitor::output_monitor(before).current_mode() != monitor::output_monitor(
                after,
            ).current_mode()
        }),
    ensures
        ({
            let first = seq![before];
            let watch = manager::watched(
                manager::output_monitors(first),
                manager::output_logicals(first),
            );
            let next = manager::observed(held, watch, seq![after]);
            &&& next.changed
            &&& next.manager.monitors == seq![monitor::output_monitor(after)]
            &&& next.manager.logical_monitors == seq![monitor::output_logical(after)]
        }),
{
    lemma_one_output(before);
    lemma_one_output(after);
    replacing_one_by_another_is_a_change(
        monitor::output_monitor(before),
        monitor::output_monitor(after),
        monitor::output_logical(before),
        monitor::output_logical(after),
    );
    monitor::transform_codes_round_trip(monitor::reported_transform(before.transform), 0);
    monitor::transform_codes_round_trip(monitor::reported_transform(after.transform), 0);
}

proof fn lemma_one_output(output: sway::OutputView)
    requires
        output.active,
    ensures
        manager::output_monitors(seq![output]) == seq![monitor::output_monitor(output)],
        manager::output_logicals(seq![output]) == seq![monitor::output_logical(output)],
{
    let none = Seq::<sway::OutputView>::empty();
    outputs_give_monitors_in_order(none, output);
    assert(none.push(output) =~= seq![output]);
    assert(manager::output_monitors(seq![output]) =~= seq![monitor::output_monitor(output)]);
    assert(manager::output_logicals(seq![output]) =~= seq![monitor::output_logical(output)]);
}

/// Every output gives a monitor, and every output that is switched on a logical
/// monitor, each in the order of the outputs.
pub proof fn outputs_give_monitors_in_order(
    outputs: Seq<sway::OutputView>,
    output: sway::OutputView,
)
    ensures
        manager::output_monitors(seq![]).len() == 0,
        manager::output_logicals(seq![]).len() == 0,
        manager::output_monitors(outputs.push(output)) == manager::output_monitors(outputs).push(
            monitor::output_monitor(output),
        ),
        output.active ==> manager::output_logicals(outputs.push(output))
            == manager::output_logicals(outputs).push(monitor::output_logical(output)),
        !output.active ==> manager::output_logicals(outputs.push(output))
            == manager::output_logicals(outputs),
{
    reveal(Seq::filter);
    let longer = outputs.push(output);
    let logical = |o: sway::OutputView| monitor::output_logical(o);
    let kept = outputs.filter(manager::is_active());
    assert(longer.drop_last() =~= outputs);
    assert(manager::output_monitors(longer) =~= manager::output_monitors(outputs).push(
        monitor::output_monitor(output),
    ));
    if output.active {
        assert(kept.push(output).map_values(logical) =~= kept.map_values(logical).push(
            monitor::output_logical(output),
        ));
        assert(manager::output_logicals(longer) =~= manager::output_logicals(outputs).push(
            monitor::output_logical(output),
        ));
    } else {
        assert(manager::output_logicals(longer) =~= manager::output_logicals(outputs));
    }
}

/// Every head gives a monitor, and every head that has a logical monitor gives that,
/// each in the order of the heads.
pub proof fn heads_give_monitors_in_order(
    heads: Seq<OutputHeadSnapshotView>,
    head: OutputHeadSnapshotView,
)
    ensures
        manager::head_monitors(seq![]).len() == 0,
        manager::head_logicals(seq![]).len() == 0,
        manager::head_monitors(heads.push(head)) == manager::head_monitors(heads).push(
            monitor::head_monitor(head),
        ),
        manager::head_monitors(heads).len() == heads.len(),
        match monitor::head_logical(head) {
            Some(shown) => manager::head_logicals(heads.push(head)) == manager::head_logicals(
                heads,
            ).push(shown),
            None => manager::head_logicals(heads.push(head)) == manager::head_logicals(heads),
        },
{
    reveal(Seq::filter);
    let longer = heads.push(head);
    let logical = |h: OutputHeadSnapshotView| monitor::head_logical(h)->0;
    let kept = heads.filter(manager::gives_logical());
    assert(longer.drop_last() =~= heads);
    assert(manager::head_monitors(longer) =~= manager::head_monitors(heads).push(
        monitor::head_monitor(head),
    ));
    if let Some(shown) = monitor::head_logical(head) {
        assert(kept.push(head).map_values(logical) =~= kept.map_values(logical).push(shown));
        assert(manager::head_logicals(longer) =~= manager::head_logicals(heads).push(shown));
    } else {
        assert(manager::head_logicals(longer) =~= manager::head_logicals(heads));
    }
}

/// Before anything is observed there are no monitors, the serial is zero, and the
/// layout can be changed but has no global scale.
pub proof fn managers_begin_empty()
    ensures
        DisplayManagerView::initial().serial == 0,
        DisplayManagerView::initial().monitors.len() == 0,
        DisplayManagerView::initial().logical_monitors.len() == 0,
        DisplayManagerView::initial().properties.layout == Some(1u32),
        DisplayManagerView::initial().properties.support_layout_change == Some(true),
        DisplayManagerView::initial().properties.global_scale == Some(false),
        DisplayManagerView::initial().properties.legacy_scale_factor == Some(1i32),
        manager::initial_properties() == DisplayManagerView::initial().properties,
{
}

/// What is observed replaces the monitors and the logical monitors; serial and
/// properties stay.
pub proof fn observing_keeps_serial_and_properties(
    held: DisplayManagerView,
    monitors: Seq<MonitorView>,
    logical_monitors: Seq<LogicalMonitorView>,
)
    ensures
        held.with_observed(monitors, logical_monitors).monitors == monitors,
        held.with_observed(monitors, logical_monitors).logical_monitors == logical_monitors,
        held.with_observed(monitors, logical_monitors).serial == held.serial,
        held.with_observed(monitors, logical_monitors).properties == held.properties,
        held.wf() <==> forall|i: int|
            0 <= i < held.logical_monitors.len() ==> (
            #[trigger] held.logical_monitors[i]).monitors.len() > 0,
{
}

/// A change begins with persisting where there are outputs and with telling clients
/// where there are none, whatever was pending; without a change what is pending goes
/// on, and where nothing is, nothing is done.
pub proof fn changes_begin_with_persisting(
    pending: Option<WaylandSideEffectStage>,
    has_outputs: bool,
)
    ensures
        manager::next_stage(true, pending, true) == Some(WaylandSideEffectStage::Persist),
        manager::next_stage(true, pending, false) == Some(WaylandSideEffectStage::Signal),
        manager::next_stage(false, pending, has_outputs) == pending,
{
}

/// Behind persisting comes the reload where the profile changed, and otherwise, as
/// behind everything else, telling clients.
pub proof fn written_profiles_are_reloaded(changed: bool)
    ensures
        manager::advanced(WaylandSideEffectStage::Persist, true) == WaylandSideEffectStage::Reload,
        manager::advanced(WaylandSideEffectStage::Persist, false)
            == WaylandSideEffectStage::Signal,
        manager::advanced(WaylandSideEffectStage::Reload, changed)
            == WaylandSideEffectStage::Signal,
        manager::advanced(WaylandSideEffectStage::Signal, changed)
            == WaylandSideEffectStage::Signal,
{
}

/// In following a change, the reload comes behind a profile that changed, telling
/// clients behind one that did not and behind the reload, and nothing behind that. A
/// failure ends it with its message, at any step.
pub proof fn watch_steps_come_in_order(changed: bool, message: Seq<char>, stage: WatchStage)
    ensures
        manager::watch_next(WatchStage::WriteProfile, Ok(true)) == Ok::<
            Option<WatchStage>,
            Seq<char>,
        >(Some(WatchStage::ReloadKanshi)),
        manager::watch_next(WatchStage::WriteProfile, Ok(false)) == Ok::<
            Option<WatchStage>,
            Seq<char>,
        >(Some(WatchStage::EmitSignal)),
        manager::watch_next(WatchStage::ReloadKanshi, Ok(changed)) == Ok::<
            Option<WatchStage>,
            Seq<char>,
        >(Some(WatchStage::EmitSignal)),
        manager::watch_next(WatchStage::EmitSignal, Ok(changed)) == Ok::<
            Option<WatchStage>,
            Seq<char>,
        >(None),
        manager::watch_next(stage, Err(message)) == Err::<Option<WatchStage>, Seq<char>>(message),
        WatchStep::ReloadKanshi.stage() == WatchStage::ReloadKanshi,
        WatchStep::EmitSignal.stage() == WatchStage::EmitSignal,
{
}

/// A step that writes a profile is of that stage, whatever it writes.
pub proof fn profile_steps_are_of_their_stage(step: WatchStep)
    ensures
        step is WriteProfile <==> step.stage() is WriteProfile,
        step is ReloadKanshi <==> step.stage() is ReloadKanshi,
        step is EmitSignal <==> step.stage() is EmitSignal,
{
}

/// There is a profile for some monitors exactly where there are any, under the name
/// and with the text that belong to them.
pub proof fn profiles_belong_to_their_monitors(
    held: Option<(String, String)>,
    monitors: Seq<MonitorView>,
    shown: Seq<LogicalMonitor>,
)
    ensures
        manager::is_profile_of(held, monitors, shown) && monitors.len() > 0 ==> {
            &&& held is Some
            &&& (held->0).0@ == profile::profile_name(monitors)
            &&& (held->0).1@ == profile::profile_text(monitors, shown)
        },
        manager::is_profile_of(held, monitors, shown) && monitors.len() == 0 ==> held is None,
{
}

/// The view of a manager tells each of its fields.
pub proof fn manager_views_tell_every_field(held: DisplayManager, watch: WatchState, i: int)
    ensures
        held@.serial == held.serial,
        held@.monitors.len() == held.monitors@.len(),
        0 <= i < held.monitors@.len() ==> held@.monitors[i] == held.monitors@[i]@,
        held@.logical_monitors.len() == held.logical_monitors@.len(),
        0 <= i < held.logical_monitors@.len() ==> held@.logical_monitors[i]
            == held.logical_monitors@[i]@,
        held@.properties == held.properties,
        watch@.monitors == watch.monitors@,
        watch@.logical_monitors == watch.logical_monitors@,
{
}

/// A monitor is identified by its names and its mode, and a logical monitor by the five
/// fields by which it is compared.
pub proof fn items_are_identified_as_they_are_compared(
    held: Monitor,
    other: Monitor,
    shown: LogicalMonitor,
    other_shown: LogicalMonitor,
)
    ensures
        held.key() == other.key() <==> same_monitor(held@, other@),
        shown.key() == other_shown.key() <==> same_logical(shown@, other_shown@),
{
}

/// Two sets are equal exactly where each identity that one holds is held by the other.
pub proof fn sets_are_equal_by_what_they_hold<T: Identified>(a: StateSet<T>, b: StateSet<T>)
    ensures
        vstd::std_specs::cmp::PartialEqSpec::eq_spec(&a, &b) <==> forall|key: T::Key| #[trigger]
            a@.contains(key) <==> b@.contains(key),
{
    if forall|key: T::Key| #[trigger] a@.contains(key) <==> b@.contains(key) {
        assert(a@ =~= b@);
    }
}

/// A set of items holds an identity exactly where one of the items has it.
pub proof fn sets_hold_the_identities_of_their_items<T: Identified>(items: Seq<T>, key: T::Key)
    ensures
        state_set::keys(items).contains(key) <==> exists|i: int|
            0 <= i < items.len() && (#[trigger] items[i]).key() == key,
{
}

} // verus!
