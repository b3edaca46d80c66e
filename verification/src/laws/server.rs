//! How requests are checked and applied.

use vstd::prelude::*;

use crate::manager::DisplayManagerView;
use crate::monitor::{ConfigErrorView, MonitorApply, MonitorApplyView, MonitorView};
use crate::server;
use crate::server::{ApplyStage, ApplyStep};

verus! {

/// The first request that is refused decides, with its own error; where none is
/// refused, the check is passed.
pub proof fn first_refused_request_decides(
    requests: Seq<MonitorApplyView>,
    monitors: Seq<MonitorView>,
    i: int,
)
    ensures
        0 <= i < requests.len() && requests[i].verdict(monitors) is Err && (forall|j: int|
            0 <= j < i ==> (#[trigger] requests[j]).verdict(monitors) is Ok)
            ==> server::joint_verdict(requests, monitors) == requests[i].verdict(monitors),
        (forall|j: int|
            0 <= j < requests.len() ==> (#[trigger] requests[j]).verdict(monitors) is Ok)
            ==> server::joint_verdict(requests, monitors) is Ok,
    decreases requests.len(),
{
    if requests.len() > 0 {
        let rest = requests.drop_first();
        first_refused_request_decides(rest, monitors, i - 1);
        if 0 < i < requests.len() && requests[i].verdict(monitors) is Err && (forall|j: int|
            0 <= j < i ==> (#[trigger] requests[j]).verdict(monitors) is Ok) {
            assert(requests[0].verdict(monitors) is Ok);
            assert(rest[i - 1] == requests[i]);
            assert forall|j: int| 0 <= j < i - 1 implies (#[trigger] rest[j]).verdict(monitors)
                is Ok by {
                assert(requests[j + 1].verdict(monitors) is Ok);
            }
        }
        if forall|j: int|
            0 <= j < requests.len() ==> (#[trigger] requests[j]).verdict(monitors) is Ok {
            assert(requests[0].verdict(monitors) is Ok);
            assert forall|j: int| 0 <= j < rest.len() implies (#[trigger] rest[j]).verdict(
                monitors,
            ) is Ok by {
                assert(requests[j + 1].verdict(monitors) is Ok);
            }
        }
    }
}

/// Requests can be checked exactly where there are no monitors, or each request up to
/// the first one that is refused names some monitor.
pub proof fn checked_requests_name_monitors(
    requests: Seq<MonitorApplyView>,
    monitors: Seq<MonitorView>,
)
    ensures
        server::can_check(requests, monitors) <==> monitors.len() == 0 || forall|i: int|
            0 <= i < requests.len() && (forall|j: int|
                0 <= j < i ==> (#[trigger] requests[j]).verdict(monitors) is Ok) ==> (
            #[trigger] requests[i]).monitors.len() > 0,
    decreases requests.len(),
{
    if requests.len() > 0 {
        let rest = requests.drop_first();
        checked_requests_name_monitors(rest, monitors);
        assert forall|i: int| 0 < i <= rest.len() implies #[trigger] requests[i] == rest[i - 1] by {
        }
        if monitors.len() > 0 {
            if server::can_check(requests, monitors) {
                assert forall|i: int|
                    0 <= i < requests.len() && (forall|j: int|
                        0 <= j < i ==> (#[trigger] requests[j]).verdict(monitors) is Ok) implies (
                #[trigger] requests[i]).monitors.len() > 0 by {
                    if i > 0 {
                        assert(requests[0].verdict(monitors) is Ok);
                        assert forall|j: int| 0 <= j < i - 1 implies (#[trigger] rest[j]).verdict(
                            monitors,
                        ) is Ok by {
                            assert(requests[j + 1].verdict(monitors) is Ok);
                        }
                        assert(rest[i - 1].monitors.len() > 0);
                    }
                }
            } else if requests[0].monitors.len() > 0 {
                assert(requests[0].verdict(monitors) is Ok);
                let k = choose|k: int|
                    0 <= k < rest.len() && (forall|j: int|
                        0 <= j < k ==> (#[trigger] rest[j]).verdict(monitors) is Ok) && !((
                    #[trigger] rest[k]).monitors.len() > 0);
                assert forall|j: int| 0 <= j < k + 1 implies (#[trigger] requests[j]).verdict(
                    monitors,
                ) is Ok by {
                    if j > 0 {
                        assert(rest[j - 1].verdict(monitors) is Ok);
                    }
                }
                assert(requests[k + 1].monitors.len() == 0);
            } else {
                assert(requests[0].monitors.len() == 0);
            }
        } else if requests[0].verdict(monitors) is Ok {
            assert(server::can_check(rest, monitors));
        }
    }
}

/// A request with a stale serial can always be handled. With the right serial, a check
/// can be handled where it can be made, and anything else where there are no monitors
/// or each request names some.
pub proof fn requests_can_be_handled(
    held: DisplayManagerView,
    serial: u32,
    method: u32,
    requests: Seq<MonitorApplyView>,
)
    ensures
        serial != held.serial ==> server::can_apply(held, serial, method, requests),
        serial == held.serial && method == 0 ==> (server::can_apply(held, serial, method, requests)
            <==> server::can_check(requests, held.monitors)),
        serial == held.serial && method != 0 ==> (server::can_apply(held, serial, method, requests)
            <==> held.monitors.len() == 0 || forall|i: int|
            0 <= i < requests.len() ==> (#[trigger] requests[i]).monitors.len() > 0),
{
}

/// Behind a profile that changed comes the reload, behind one that did not the query
/// of the outputs; behind the reload, however it went, the query; behind that, however
/// it went, telling clients; and nothing behind that. A profile that cannot be written
/// is an error of input and output, and clients that cannot be told are one of the bus.
pub proof fn apply_steps_come_in_order(
    outcome: Result<bool, Seq<char>>,
    told: bool,
    message: Seq<char>,
)
    ensures
        server::apply_next(ApplyStage::WriteProfile, Ok(true)) == Ok::<
            Option<ApplyStage>,
            ConfigErrorView,
        >(Some(ApplyStage::ReloadKanshi)),
        server::apply_next(ApplyStage::WriteProfile, Ok(false)) == Ok::<
            Option<ApplyStage>,
            ConfigErrorView,
        >(Some(ApplyStage::RefreshOutputs)),
        server::apply_next(ApplyStage::WriteProfile, Err(message)) == Err::<
            Option<ApplyStage>,
            ConfigErrorView,
        >(ConfigErrorView::IOError(message)),
        server::apply_next(ApplyStage::ReloadKanshi, outcome) == Ok::<
            Option<ApplyStage>,
            ConfigErrorView,
        >(Some(ApplyStage::RefreshOutputs)),
        server::apply_next(ApplyStage::RefreshOutputs, outcome) == Ok::<
            Option<ApplyStage>,
            ConfigErrorView,
        >(Some(ApplyStage::EmitSignal)),
        server::apply_next(ApplyStage::EmitSignal, Ok(told)) == Ok::<
            Option<ApplyStage>,
            ConfigErrorView,
        >(None),
        server::apply_next(ApplyStage::EmitSignal, Err(message)) == Err::<
            Option<ApplyStage>,
            ConfigErrorView,
        >(ConfigErrorView::ZBus(message)),
{
}

/// Each step is of its own stage, and a list of requests is seen one by one.
pub proof fn apply_steps_are_of_their_stage(
    step: ApplyStep,
    requests: Seq<MonitorApply>,
    i: int,
)
    ensures
        step is WriteProfile <==> step.stage() is WriteProfile,
        step is ReloadKanshi <==> step.stage() is ReloadKanshi,
        step is RefreshOutputs <==> step.stage() is RefreshOutputs,
        step is EmitSignal <==> step.stage() is EmitSignal,
        server::request_views(requests).len() == requests.len(),
        0 <= i < requests.len() ==> server::request_views(requests)[i] == requests[i]@,
{
}

} // verus!
