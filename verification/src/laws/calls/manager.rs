//! What observing, following and applying come to.

use vstd::prelude::*;

use crate::laws;
use crate::manager;
use crate::manager::{
    DisplayManager, DisplayManagerProperties, ServerError, SideEffect, WatchState, WatchStep,
    WaylandSideEffectStage,
};
use crate::monitor;
use crate::monitor::{ConfigError, LogicalMonitor, Monitor, MonitorApply};
use crate::profile;
use crate::server;
use crate::server::{ApplyStep, DisplayServer};
use crate::state_set;
use crate::state_set::StateSet;
use crate::sway;
use crate::wayland_observer::OutputSnapshot;

verus! {

/// The first observation is taken over, and remembered; serial and properties stay.
pub proof fn first_observation_is_taken_over(
    before: DisplayManager,
    after: DisplayManager,
    outputs: &[sway::Output],
    watch: WatchState,
)
    requires
        exists|held: &mut DisplayManager|
            {
                &&& *held == before
                &&& *final(held) == after
                &&& #[trigger] call_ensures(DisplayManager::start_watching, (held, outputs), watch)
            },
    ensures
        after@.monitors == manager::output_monitors(sway::output_views(outputs@)),
        after@.logical_monitors == manager::output_logicals(sway::output_views(outputs@)),
        after@.serial == before@.serial,
        after@.properties == before@.properties,
        watch@ == manager::watched(after@.monitors, after@.logical_monitors),
{
}

/// A later observation is followed exactly where its state differs from the one that was
/// observed last: then it is taken over and remembered, and its profile is to be written,
/// or clients are to be told where there is no monitor. Otherwise nothing changes, and
/// nothing is to be done.
pub proof fn every_observed_difference_is_followed(
    before: DisplayManager,
    after: DisplayManager,
    last: DisplayManager,
    previous: WatchState,
    next: WatchState,
    outputs: &[sway::Output],
    first: Option<WatchStep>,
)
    requires
        previous@ == manager::watched(last@.monitors, last@.logical_monitors),
        exists|held: &mut DisplayManager, watch: &mut WatchState|
            {
                &&& *held == before
                &&& *final(held) == after
                &&& *watch == previous
                &&& *final(watch) == next
                &&& #[trigger] call_ensures(
                    DisplayManager::watch_changes,
                    (held, watch, outputs),
                    first,
                )
            },
    ensures
        ({
            let seen = sway::output_views(outputs@);
            let monitors = manager::output_monitors(seen);
            let logical_monitors = manager::output_logicals(seen);
            let same = laws::manager::same_state(
                last@.monitors,
                last@.logical_monitors,
                monitors,
                logical_monitors,
            );
            &&& next@ == manager::watched(monitors, logical_monitors)
            &&& same ==> first is None && after@ == before@
            &&& !same ==> {
                &&& after@.monitors == monitors
                &&& after@.logical_monitors == logical_monitors
                &&& after@.serial == before@.serial
                &&& after@.properties == before@.properties
                &&& outputs@.len() == 0 ==> first is Some && (first->0) is EmitSignal
                &&& outputs@.len() > 0 ==> {
                    &&& first is Some
                    &&& (first->0) is WriteProfile
                    &&& (first->0)->name@ == profile::profile_name(monitors)
                    &&& (first->0)->text@ == profile::profile_text(
                        monitors,
                        after.logical_monitors@,
                    )
                }
            }
        }),
{
    laws::manager::observed_outputs_are_taken_over(
        before@,
        last@.monitors,
        last@.logical_monitors,
        sway::output_views(outputs@),
    );
}

/// A snapshot is taken over, and is a change exactly where its state differs from what
/// was held; serial and properties stay.
pub proof fn installed_snapshots_are_compared(
    before: DisplayManager,
    after: DisplayManager,
    snapshot: OutputSnapshot,
    changed: bool,
)
    requires
        exists|held: &mut DisplayManager|
            {
                &&& *held == before
                &&& *final(held) == after
                &&& #[trigger] call_ensures(
                    DisplayManager::install_wayland_snapshot,
                    (held, &snapshot),
                    changed,
                )
            },
    ensures
        after@.monitors == manager::head_monitors(snapshot@.heads),
        after@.logical_monitors == manager::head_logicals(snapshot@.heads),
        after@.serial == before@.serial,
        after@.properties == before@.properties,
        changed <==> !laws::manager::same_state(
            before@.monitors,
            before@.logical_monitors,
            after@.monitors,
            after@.logical_monitors,
        ),
{
    laws::manager::every_difference_is_remembered(
        before@.monitors,
        before@.logical_monitors,
        after@.monitors,
        after@.logical_monitors,
    );
}

/// What is to be done at a stage: the profile is written, where there are monitors; kanshi
/// reads its configuration again; clients are told.
pub proof fn stages_have_their_effects(
    held: DisplayManager,
    stage: WaylandSideEffectStage,
    effect: SideEffect,
)
    requires
        call_ensures(DisplayManager::wayland_side_effect, (&held, stage), effect),
    ensures
        match stage {
            WaylandSideEffectStage::Persist => if held.monitors@.len() > 0 {
                &&& effect is WriteProfile
                &&& effect->name@ == profile::profile_name(held@.monitors)
                &&& effect->text@ == profile::profile_text(
                    held@.monitors,
                    held.logical_monitors@,
                )
            } else {
                effect is Nothing
            },
            WaylandSideEffectStage::Reload => effect is ReloadKanshi,
            WaylandSideEffectStage::Signal => effect is EmitSignal,
        },
{
}

/// The stages come in order: a change begins with persisting, or without outputs with
/// telling clients; behind a profile that was written comes the reload, and telling
/// clients behind everything else.
pub proof fn stages_are_chosen_in_order(
    state_changed: bool,
    pending: Option<WaylandSideEffectStage>,
    has_outputs: bool,
    chosen: Option<WaylandSideEffectStage>,
    stage: WaylandSideEffectStage,
    profile_changed: bool,
    next: WaylandSideEffectStage,
)
    requires
        call_ensures(
            manager::wayland_side_effect_stage,
            (state_changed, pending, has_outputs),
            chosen,
        ),
        call_ensures(
            DisplayManager::advance_wayland_side_effect,
            (stage, profile_changed),
            next,
        ),
    ensures
        state_changed && has_outputs ==> chosen == Some(WaylandSideEffectStage::Persist),
        state_changed && !has_outputs ==> chosen == Some(WaylandSideEffectStage::Signal),
        !state_changed ==> chosen == pending,
        stage == WaylandSideEffectStage::Persist && profile_changed ==> next
            == WaylandSideEffectStage::Reload,
        !(stage == WaylandSideEffectStage::Persist && profile_changed) ==> next
            == WaylandSideEffectStage::Signal,
{
}

/// In following a change the reload comes behind a profile that changed, telling clients
/// behind one that did not and behind the reload, and nothing behind that; a failure ends
/// it with its message.
pub proof fn followed_steps_come_in_order(
    step: WatchStep,
    outcome: Result<bool, String>,
    next: Result<Option<WatchStep>, String>,
)
    requires
        call_ensures(WatchStep::after, (step, outcome), next),
    ensures
        match outcome {
            Err(message) => next is Err && next->Err_0@ == message@,
            Ok(changed) => {
                &&& next is Ok
                &&& step is EmitSignal <==> next->Ok_0 is None
                &&& step is WriteProfile && changed ==> (next->Ok_0->0) is ReloadKanshi
                &&& step is WriteProfile && !changed ==> (next->Ok_0->0) is EmitSignal
                &&& step is ReloadKanshi ==> (next->Ok_0->0) is EmitSignal
            },
        },
{
}

/// A manager begins with serial zero and without monitors, tells whether it has any, and
/// lists one monitor for each output and one logical monitor for each that is switched on.
pub proof fn managers_list_what_is_observed(
    fresh: DisplayManager,
    properties: DisplayManagerProperties,
    held: DisplayManager,
    any: bool,
    outputs: &[sway::Output],
    info: (Vec<Monitor>, Vec<LogicalMonitor>),
)
    requires
        call_ensures(DisplayManager::new, (), fresh),
        call_ensures(DisplayManagerProperties::new, (), properties),
        call_ensures(DisplayManager::has_observed_outputs, (&held,), any),
        call_ensures(DisplayManager::get_monitor_info, (outputs,), info),
    ensures
        fresh.serial == 0,
        fresh.monitors@.len() == 0,
        fresh.logical_monitors@.len() == 0,
        fresh.properties == properties,
        properties.layout == Some(1u32),
        properties.support_layout_change == Some(true),
        properties.global_scale == Some(false),
        properties.legacy_scale_factor == Some(1i32),
        any <==> held.monitors@.len() > 0,
        monitor::monitor_views(info.0@) == manager::output_monitors(sway::output_views(outputs@)),
        monitor::logical_views(info.1@) == manager::output_logicals(sway::output_views(outputs@)),
{
    assert(fresh@.monitors.len() == fresh.monitors@.len());
    assert(fresh@.logical_monitors.len() == fresh.logical_monitors@.len());
}

/// An error of the server says what it was made of.
pub proof fn server_errors_say_what_they_are_made_of(
    words: &str,
    error: ServerError,
    message: String,
    description: &str,
)
    requires
        call_ensures(ServerError::_produce_error, (words,), error),
        call_ensures(ServerError::message, (&error,), message),
        call_ensures(ServerError::description, (&error,), description),
    ensures
        message@ == words@,
        description@ == words@,
{
}

/// Two observations differ exactly where the identities of the monitors or those of the
/// logical monitors differ, and a set holds the identities of what it is made of.
pub proof fn observations_are_compared_as_sets(
    monitors: &[Monitor],
    shown: &[LogicalMonitor],
    sets: (StateSet<Monitor>, StateSet<LogicalMonitor>),
    others: (StateSet<Monitor>, StateSet<LogicalMonitor>),
    changed: bool,
)
    requires
        call_ensures(state_set::monitor_sets, (monitors, shown), sets),
        call_ensures(
            state_set::display_state_changed,
            (&sets.0, &sets.1, &others.0, &others.1),
            changed,
        ),
    ensures
        sets.0@ == state_set::keys(monitors@),
        sets.1@ == state_set::keys(shown@),
        changed <==> sets.0@ != others.0@ || sets.1@ != others.1@,
{
}

/// A request with a stale serial is refused as such, and nothing changes. One that only
/// checks is answered with the verdict on its requests, and nothing changes. Any other
/// takes the properties over, and nothing else, and its profile is to be written, under
/// the name for the monitors, with the requests as its entries.
pub proof fn requests_are_checked_or_applied(
    before: DisplayServer,
    after: DisplayServer,
    serial: u32,
    method: u32,
    requests: &[MonitorApply],
    properties: DisplayManagerProperties,
    r: Result<Option<ApplyStep>, ConfigError>,
)
    requires
        exists|served: &mut DisplayServer|
            {
                &&& *served == before
                &&& *final(served) == after
                &&& #[trigger] call_ensures(
                    DisplayServer::apply_monitors_config,
                    (served, serial, method, requests, properties),
                    r,
                )
            },
    ensures
        ({
            let held = before.manager@;
            let asked = server::request_views(requests@);
            &&& serial != held.serial ==> {
                &&& after == before
                &&& r is Err
                &&& r->Err_0 is InvalidArgs
                &&& r->Err_0->InvalidArgs_0@ == "Wrong serial"@
            }
            &&& serial == held.serial && method == 0 ==> {
                &&& after == before
                &&& r matches Ok(step) ==> step is None
                &&& r is Ok <==> forall|i: int|
                    0 <= i < asked.len() ==> (#[trigger] asked[i]).verdict(held.monitors) is Ok
                &&& r matches Err(error) ==> exists|i: int|
                    {
                        &&& 0 <= i < asked.len()
                        &&& (#[trigger] asked[i]).verdict(held.monitors) is Err
                        &&& asked[i].verdict(held.monitors)->Err_0 == error@
                        &&& forall|j: int|
                            0 <= j < i ==> (#[trigger] asked[j]).verdict(held.monitors) is Ok
                    }
            }
            &&& serial == held.serial && method != 0 ==> {
                &&& after.manager@.properties == properties
                &&& after.manager@.serial == held.serial
                &&& after.manager@.monitors == held.monitors
                &&& after.manager@.logical_monitors == held.logical_monitors
                &&& r is Ok
                &&& r->Ok_0 is Some
                &&& (r->Ok_0->0) is WriteProfile
                &&& (r->Ok_0->0)->name@ == profile::profile_name(held.monitors)
                &&& (r->Ok_0->0)->text@ == profile::profile_text(held.monitors, requests@)
            }
        }),
{
    let held = before.manager@;
    let asked = server::request_views(requests@);
    server::joint_verdict_is_that_of_all(asked, held.monitors);
    if serial == held.serial && method == 0 && r is Err {
        lemma_first_refusal(asked, held.monitors);
    }
}

proof fn lemma_first_refusal(
    asked: Seq<monitor::MonitorApplyView>,
    monitors: Seq<monitor::MonitorView>,
)
    requires
        server::joint_verdict(asked, monitors) is Err,
    ensures
        exists|i: int|
            {
                &&& 0 <= i < asked.len()
                &&& (#[trigger] asked[i]).verdict(monitors) is Err
                &&& asked[i].verdict(monitors) == server::joint_verdict(asked, monitors)
                &&& forall|j: int| 0 <= j < i ==> (#[trigger] asked[j]).verdict(monitors) is Ok
            },
    decreases asked.len(),
{
    if asked[0].verdict(monitors) is Ok {
        let rest = asked.drop_first();
        lemma_first_refusal(rest, monitors);
        let k = choose|k: int|
            {
                &&& 0 <= k < rest.len()
                &&& (#[trigger] rest[k]).verdict(monitors) is Err
                &&& rest[k].verdict(monitors) == server::joint_verdict(rest, monitors)
                &&& forall|j: int| 0 <= j < k ==> (#[trigger] rest[j]).verdict(monitors) is Ok
            };
        assert(asked[k + 1] == rest[k]);
        assert forall|j: int| 0 <= j < k + 1 implies (#[trigger] asked[j]).verdict(monitors)
            is Ok by {
            if j > 0 {
                assert(rest[j - 1].verdict(monitors) is Ok);
            }
        }
    } else {
        assert(asked[0].verdict(monitors) is Err);
    }
}

/// Behind a profile that changed comes the reload, behind one that did not and behind the
/// reload the query of the outputs, behind that telling clients, and nothing behind that. A
/// profile that cannot be written and clients that cannot be told fail the request, each
/// with an error of its own kind; nothing else does.
pub proof fn applied_steps_come_in_order(
    step: ApplyStep,
    outcome: Result<bool, String>,
    next: Result<Option<ApplyStep>, ConfigError>,
)
    requires
        call_ensures(ApplyStep::after, (step, outcome), next),
    ensures
        next is Err <==> outcome is Err && (step is WriteProfile || step is EmitSignal),
        outcome matches Err(message) ==> {
            &&& step is WriteProfile ==> next->Err_0 is IOError && next->Err_0->IOError_0@
                == message@
            &&& step is EmitSignal ==> next->Err_0 is ZBus && next->Err_0->ZBus_0@ == message@
        },
        outcome == Ok::<bool, String>(true) && step is WriteProfile ==> next->Ok_0 is Some && (
        next->Ok_0->0) is ReloadKanshi,
        outcome == Ok::<bool, String>(false) && step is WriteProfile ==> next->Ok_0 is Some && (
        next->Ok_0->0) is RefreshOutputs,
        step is ReloadKanshi ==> next->Ok_0 is Some && (next->Ok_0->0) is RefreshOutputs,
        step is RefreshOutputs ==> next->Ok_0 is Some && (next->Ok_0->0) is EmitSignal,
        step is EmitSignal && outcome is Ok ==> next->Ok_0 is None,
{
}

/// A server serves the manager that it was made with, as it stands, allows configurations
/// to be applied, and tells which requests it can handle.
pub proof fn servers_serve_their_manager(
    held: DisplayManager,
    made: DisplayServer,
    state: DisplayManager,
    allowed: bool,
    serial: u32,
    method: u32,
    requests: &[MonitorApply],
    can: bool,
)
    requires
        call_ensures(DisplayServer::new, (held,), made),
        call_ensures(DisplayServer::get_current_state, (&made,), state),
        call_ensures(DisplayServer::apply_monitors_config_allowed, (&made,), allowed),
        call_ensures(DisplayServer::can_apply, (&made, serial, method, requests), can),
    ensures
        state@ == held@,
        allowed,
        serial != held.serial ==> can,
        serial == held.serial && method != 0 ==> (can <==> held.monitors@.len() == 0 || (forall|
            i: int,
        |
            0 <= i < requests@.len() ==> (#[trigger] requests@[i]).monitors@.len() > 0)),
{
    let asked = server::request_views(requests@);
    assert forall|i: int| 0 <= i < requests@.len() implies (#[trigger] asked[i]).monitors.len()
        == requests@[i].monitors@.len() by {}
    if held.monitors@.len() > 0 && serial == held.serial && method != 0 {
        if can {
            assert forall|i: int| 0 <= i < requests@.len() implies (
            #[trigger] requests@[i]).monitors@.len() > 0 by {
                assert(asked[i].monitors.len() > 0);
            }
        }
        if forall|i: int|
            0 <= i < requests@.len() ==> (#[trigger] requests@[i]).monitors@.len() > 0 {
            assert forall|i: int| 0 <= i < asked.len() implies (#[trigger] asked[i]).monitors.len()
                > 0 by {
                assert(requests@[i].monitors@.len() > 0);
            }
        }
    }
}

} // verus!
