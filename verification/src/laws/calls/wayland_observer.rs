//! What an observation makes of each event, and what it hands on.

use std::sync::mpsc::Sender;
use vstd::prelude::*;

use crate::laws;
use crate::scale::Scale;
use crate::wayland_observer;
use crate::wayland_observer::{
    HeadEvent, ManagerEvent, ModeEvent, ObserverState, OutputManagementHandles, OutputSnapshot,
    OutputSnapshotView, PublishStatus, PublishStep, WaylandObserverError,
    WaylandObserverErrorView, WaylandOutputObserver,
};

verus! {

/// What a head says of itself is what is published of it next, whatever was said before, and
/// nothing is said of any other head.
pub proof fn heads_are_heard<H, M>(
    before: ObserverState<H, M>,
    after: ObserverState<H, M>,
    id: u32,
    event: HeadEvent<M>,
)
    requires
        exists|s: &mut ObserverState<H, M>|
            {
                &&& *s == before
                &&& *final(s) == after
                &&& #[trigger] call_ensures(
                    ObserverState::<H, M>::handle_head_event,
                    (s, id, event),
                    (),
                )
            },
    ensures
        event is Name || event is Description || event is Enabled || event is CurrentMode || event
            is Position || event is Transform || event is Other
            ==> laws::wayland_observer::only_head_is_touched(before@, after@, id),
        ({
            let head = after@.collector.heads[id].snapshot();
            match event {
                HeadEvent::Name { name } => head.name == name@,
                HeadEvent::Description { description } => head.description == Some(description@),
                HeadEvent::Enabled { enabled } => head.enabled <==> enabled != 0,
                HeadEvent::CurrentMode { mode_id } => after@.collector.heads[id].current_mode_id
                    == Some(mode_id),
                HeadEvent::Position { x, y } => head.position == Some((x, y)),
                HeadEvent::Transform { transform } => head.transform == Some(transform),
                HeadEvent::Mode { mode_id, mode } => {
                    &&& after@.collector.heads[id].modes.contains_key(mode_id)
                    &&& after@.collector.mode_to_head[mode_id] == id
                    &&& after@.handles.mode(id, mode_id) == Some(mode)
                },
                HeadEvent::Finished => !after@.collector.heads.contains_key(id)
                    && after@.handles.head(id) is None,
                _ => true,
            }
        }),
{
}

/// A scale that a head reports is published next, rounded; one that is not usable ends the
/// observation, unless it had ended before.
pub proof fn scales_are_heard_or_refused<H, M>(
    before: ObserverState<H, M>,
    after: ObserverState<H, M>,
    id: u32,
    scale: Scale,
    rounded: Scale,
)
    requires
        exists|s: &mut ObserverState<H, M>|
            {
                &&& *s == before
                &&& *final(s) == after
                &&& #[trigger] call_ensures(
                    ObserverState::<H, M>::handle_head_event,
                    (s, id, HeadEvent::<M>::Scale { scale, rounded }),
                    (),
                )
            },
    ensures
        ({
            let refused = laws::calls::collector::is_refused(scale, rounded);
            &&& !refused ==> {
                &&& laws::wayland_observer::only_head_is_touched(before@, after@, id)
                &&& after@.collector.heads[id].snapshot().scale == Some(rounded@)
            }
            &&& refused ==> {
                &&& after.terminal_reached
                &&& after@.collector == before@.collector.note_head(id)
                &&& !before.terminal_reached ==> after@.terminal_error == Some(
                    WaylandObserverErrorView::StateViolation("invalid scale value "@ + scale.text@),
                )
                &&& before.terminal_reached ==> after@.terminal_error == before@.terminal_error
            }
        }),
{
    laws::wayland_observer::reported_scale_is_published_or_ends(before@, id, scale, rounded);
}

/// What a mode says of itself is heard where the mode is known, and ends the observation
/// where it is not, unless it had ended before.
pub proof fn modes_are_heard<H, M>(
    before: ObserverState<H, M>,
    after: ObserverState<H, M>,
    id: u32,
    event: ModeEvent,
)
    requires
        exists|s: &mut ObserverState<H, M>|
            {
                &&& *s == before
                &&& *final(s) == after
                &&& #[trigger] call_ensures(
                    ObserverState::<H, M>::handle_mode_event,
                    (s, id, event),
                    (),
                )
            },
    ensures
        before@.collector.mode_to_head.contains_key(id) ==> {
            let mode = after@.collector.heads[before@.collector.mode_to_head[id]].modes[id];
            &&& event matches ModeEvent::Size { width, height } ==> mode.width == Some(width)
                && mode.height == Some(height)
            &&& event matches ModeEvent::Refresh { refresh } ==> mode.refresh_mhz == Some(refresh)
            &&& event is Preferred ==> mode.preferred
            &&& event is Finished ==> !after@.collector.mode_to_head.contains_key(id)
                && !after@.handles.modes.contains_key(id)
            &&& after.terminal_reached == before.terminal_reached
            &&& after@.terminal_error == before@.terminal_error
        },
        !before@.collector.mode_to_head.contains_key(id) && !(event is Other) ==> {
            &&& after@.collector == before@.collector
            &&& after@.handles == before@.handles
            &&& after.terminal_reached
            &&& before.terminal_reached ==> after@.terminal_error == before@.terminal_error
            &&& !before.terminal_reached ==> after@.terminal_error is Some && (
            after@.terminal_error->0) is StateViolation
        },
        event is Other ==> after@ == before@,
{
}

/// An announced head is known and its handle kept, a `done` publishes, and a manager that is
/// gone ends the observation, unless it had ended before.
pub proof fn managers_are_heard<H, M>(
    before: ObserverState<H, M>,
    after: ObserverState<H, M>,
    event: ManagerEvent<H>,
)
    requires
        exists|s: &mut ObserverState<H, M>|
            {
                &&& *s == before
                &&& *final(s) == after
                &&& #[trigger] call_ensures(
                    ObserverState::<H, M>::handle_manager_event,
                    (s, event),
                    (),
                )
            },
    ensures
        event matches ManagerEvent::Head { head_id, head } ==> {
            &&& after@.collector == before@.collector.note_head(head_id)
            &&& after@.handles.head(head_id) == Some(head)
        },
        event matches ManagerEvent::Done { serial } ==> {
            &&& after@.collector.publications.len() == before@.collector.publications.len() + 1
            &&& after@.collector.publications.last() == before@.collector.snapshot(serial)
            &&& after@.collector.publications.last().serial == serial
            &&& after@.collector.heads == before@.collector.heads
        },
        event is Finished ==> {
            &&& after.terminal_reached
            &&& after@.collector == before@.collector
            &&& !before.terminal_reached ==> after@.terminal_error == Some(
                WaylandObserverErrorView::ManagerFinished,
            )
            &&& before.terminal_reached ==> after@.terminal_error == before@.terminal_error
        },
        event is Other ==> after@ == before@,
        !(event is Finished) ==> after.terminal_reached == before.terminal_reached
            && after@.terminal_error == before@.terminal_error,
{
}

/// The first failure is kept, whether it is stored, comes of dispatching, or of a refusal;
/// later ones change nothing.
pub proof fn first_failure_is_stored<H, M>(
    before: ObserverState<H, M>,
    after: ObserverState<H, M>,
    error: WaylandObserverError,
    dispatched: ObserverState<H, M>,
    result: Result<(), String>,
)
    requires
        exists|s: &mut ObserverState<H, M>|
            {
                &&& *s == before
                &&& *final(s) == after
                &&& #[trigger] call_ensures(ObserverState::<H, M>::store_terminal, (s, error), ())
            },
        exists|s: &mut ObserverState<H, M>|
            {
                &&& *s == before
                &&& *final(s) == dispatched
                &&& #[trigger] call_ensures(ObserverState::<H, M>::note_dispatch, (s, result), ())
            },
    ensures
        after.terminal_reached,
        after@.collector == before@.collector,
        before.terminal_reached ==> after@ == before@,
        !before.terminal_reached ==> after@.terminal_error == Some(error@),
        result is Ok ==> dispatched@ == before@,
        result matches Err(message) ==> {
            &&& dispatched.terminal_reached
            &&& before.terminal_reached ==> dispatched@ == before@
            &&& !before.terminal_reached ==> dispatched@.terminal_error == Some(
                WaylandObserverErrorView::DispatchFailed(message@),
            )
        },
{
}

/// Pending results are taken one by one from the front, snapshots first and the failure
/// last, and the end is drained when the failure was taken.
pub proof fn results_are_taken_one_by_one<H, M>(
    before: ObserverState<H, M>,
    after: ObserverState<H, M>,
    r: Option<Result<OutputSnapshot, WaylandObserverError>>,
    drained: bool,
)
    requires
        exists|s: &mut ObserverState<H, M>|
            {
                &&& *s == before
                &&& *final(s) == after
                &&& #[trigger] call_ensures(ObserverState::<H, M>::take_next_result, (s,), r)
            },
        call_ensures(ObserverState::<H, M>::terminal_drained, (&after,), drained),
    ensures
        ({
            let published = before@.collector.publications;
            &&& published.len() > 0 ==> {
                &&& r is Some
                &&& (r->0) is Ok
                &&& ((r->0)->Ok_0)@ == published[0]
                &&& after@.collector.publications == published.skip(1)
                &&& after@.terminal_error == before@.terminal_error
            }
            &&& published.len() == 0 && before.terminal_error is Some ==> {
                &&& r is Some
                &&& (r->0) is Err
                &&& ((r->0)->Err_0)@ == (before.terminal_error->0)@
                &&& after.terminal_error is None
            }
            &&& published.len() == 0 && before.terminal_error is None ==> r is None && after@
                == before@
            &&& after.terminal_reached == before.terminal_reached
            &&& drained <==> after.terminal_reached && after.terminal_error is None
        }),
{
    let published = before@.collector.publications;
    laws::wayland_observer::snapshots_are_pending_before_the_failure(before@, 0);
    if published.len() == 0 && before.terminal_error is Some {
        assert(before@.pending_results().first() == before@.pending_results().last());
    }
}

/// While results arrive, the next pending one is handed on; where one did not arrive nothing
/// more is, and the observation stops; where none is pending, it stops exactly where its
/// end was reached.
pub proof fn publishing_goes_step_by_step<H, M>(
    before: ObserverState<H, M>,
    after: ObserverState<H, M>,
    sent: bool,
    step: PublishStep,
    status: PublishStatus,
    stop: bool,
)
    requires
        exists|s: &mut ObserverState<H, M>|
            {
                &&& *s == before
                &&& *final(s) == after
                &&& #[trigger] call_ensures(ObserverState::<H, M>::publish_step, (s, sent), step)
            },
        call_ensures(PublishStatus::should_stop, (status,), stop),
    ensures
        ({
            let pending = before@.pending_results();
            &&& !sent ==> step is Finish && step->Finish_0 == PublishStatus::Stop && after@
                == before@
            &&& sent && pending.len() > 0 ==> {
                &&& step is Send
                &&& wayland_observer::result_view(step->Send_0) == pending[0]
                &&& after@.pending_results() == pending.skip(1)
            }
            &&& sent && pending.len() == 0 ==> {
                &&& step is Finish
                &&& after@ == before@
                &&& step->Finish_0 == PublishStatus::Stop <==> before.terminal_reached
            }
        }),
        stop <==> status == PublishStatus::Stop,
{
    let pending = before@.pending_results();
    laws::wayland_observer::snapshots_are_pending_before_the_failure(before@, 0);
    if sent && pending.len() > 0 {
        laws::wayland_observer::results_are_taken_from_the_front(before@, 1);
    }
}

/// Handing on puts the pending results into the channel, in order and each once, as far as
/// they arrive, behind what was put into it before; what was put into it is no longer
/// pending. The observation stops where the receiver is gone or the end was reached, and
/// goes on otherwise.
pub proof fn pending_results_go_into_the_channel<H, M>(
    before: ObserverState<H, M>,
    after: ObserverState<H, M>,
    channel: Sender<Result<OutputSnapshot, WaylandObserverError>>,
    filled: Sender<Result<OutputSnapshot, WaylandObserverError>>,
    status: PublishStatus,
)
    requires
        before@.wf(),
        exists|
            s: &mut ObserverState<H, M>,
            c: &mut Sender<Result<OutputSnapshot, WaylandObserverError>>,
        |
            {
                &&& *s == before
                &&& *final(s) == after
                &&& *c == channel
                &&& *final(c) == filled
                &&& #[trigger] call_ensures(
                    wayland_observer::publish_pending_results::<H, M>,
                    (s, c),
                    status,
                )
            },
    ensures
        ({
            let old_sends = wayland_observer::handed_on(channel);
            let all_sends = wayland_observer::handed_on(filled);
            let n = all_sends.len() - old_sends.len();
            let pending = before@.pending_results();
            let gone = n > 0 && !all_sends.last().1;
            &&& 0 <= n <= pending.len()
            &&& all_sends.take(old_sends.len() as int) == old_sends
            &&& forall|i: int|
                0 <= i < n ==> #[trigger] all_sends[old_sends.len() + i].0 == pending[i]
            &&& !gone ==> n == pending.len()
            &&& after@.pending_results() == pending.skip(n)
            &&& status == PublishStatus::Stop <==> gone || before.terminal_reached
        }),
{
    let old_sends = wayland_observer::handed_on(channel);
    let all_sends = wayland_observer::handed_on(filled);
    let sends = choose|sends: Seq<(Result<OutputSnapshotView, WaylandObserverErrorView>, bool)>|
        {
            &&& #[trigger] wayland_observer::hands_on(before@, sends)
            &&& after@ == before@.taken(sends.len() as int)
            &&& all_sends == old_sends + sends
            &&& status == if wayland_observer::receiver_gone(sends) || before@.terminal_reached {
                PublishStatus::Stop
            } else {
                PublishStatus::Continue
            }
        };
    assert(all_sends.take(old_sends.len() as int) =~= old_sends);
    laws::wayland_observer::results_are_taken_from_the_front(before@, sends.len() as int);
    assert forall|i: int| 0 <= i < sends.len() implies #[trigger] all_sends[old_sends.len() + i].0
        == before@.pending_results()[i] by {
        assert(all_sends[old_sends.len() + i] == sends[i]);
    }
    if sends.len() > 0 {
        assert(all_sends.last() == sends.last());
    }
}

/// Handles are kept under their ids and can be had until they are released.
pub proof fn handles_are_kept_until_released<H, M>(
    before: OutputManagementHandles<H, M>,
    with_head: OutputManagementHandles<H, M>,
    with_mode: OutputManagementHandles<H, M>,
    without_head: OutputManagementHandles<H, M>,
    without_mode: OutputManagementHandles<H, M>,
    head_id: u32,
    head: H,
    mode_id: u32,
    mode: M,
)
    requires
        exists|h: &mut OutputManagementHandles<H, M>|
            {
                &&& *h == before
                &&& *final(h) == with_head
                &&& #[trigger] call_ensures(
                    OutputManagementHandles::<H, M>::retain_head,
                    (h, head_id, head),
                    (),
                )
            },
        exists|h: &mut OutputManagementHandles<H, M>|
            {
                &&& *h == before
                &&& *final(h) == with_mode
                &&& #[trigger] call_ensures(
                    OutputManagementHandles::<H, M>::retain_mode,
                    (h, head_id, mode_id, mode),
                    (),
                )
            },
        exists|h: &mut OutputManagementHandles<H, M>|
            {
                &&& *h == before
                &&& *final(h) == without_head
                &&& #[trigger] call_ensures(
                    OutputManagementHandles::<H, M>::release_head,
                    (h, head_id),
                    (),
                )
            },
        exists|h: &mut OutputManagementHandles<H, M>|
            {
                &&& *h == before
                &&& *final(h) == without_mode
                &&& #[trigger] call_ensures(
                    OutputManagementHandles::<H, M>::release_mode,
                    (h, mode_id),
                    (),
                )
            },
    ensures
        with_head@.head(head_id) == Some(head),
        with_head@.modes == before@.modes,
        with_mode@.mode(head_id, mode_id) == Some(mode),
        with_mode@.heads == before@.heads,
        without_head@.head(head_id) is None,
        without_head@.mode(head_id, mode_id) is None,
        without_mode@.mode(head_id, mode_id) is None,
        without_mode@.heads == before@.heads,
{
}

/// A handle is handed out where it is kept, that of a mode for its own head only.
pub proof fn kept_handles_are_handed_out<H, M>(
    handles: OutputManagementHandles<H, M>,
    head_id: u32,
    mode_id: u32,
    head: Option<&H>,
    mode: Option<&M>,
)
    requires
        call_ensures(OutputManagementHandles::<H, M>::head, (&handles, head_id), head),
        call_ensures(OutputManagementHandles::<H, M>::mode, (&handles, head_id, mode_id), mode),
    ensures
        head is Some <==> handles@.heads.contains_key(head_id),
        head matches Some(held) ==> *held == handles@.heads[head_id],
        mode is Some <==> handles@.modes.contains_key(mode_id) && handles@.modes[mode_id].head_id
            == head_id,
        mode matches Some(held) ==> *held == handles@.modes[mode_id].proxy,
{
}

/// An observation begins with nothing, starts as its thread reports, and puts its failures in
/// words.
pub proof fn observations_begin_and_fail_in_words<H, M>(
    fresh: ObserverState<H, M>,
    reply: Result<Result<(), WaylandObserverError>, String>,
    started: Result<(), WaylandObserverError>,
    error: WaylandObserverError,
    message: String,
)
    requires
        call_ensures(ObserverState::<H, M>::new, (), fresh),
        call_ensures(WaylandOutputObserver::startup_outcome, (reply,), started),
        call_ensures(WaylandObserverError::message, (&error,), message),
    ensures
        forall|h: u32| !(#[trigger] fresh@.collector.heads.contains_key(h)),
        fresh@.pending_results().len() == 0,
        !fresh.terminal_reached,
        match reply {
            Ok(Ok(())) => started is Ok,
            Ok(Err(failure)) => started is Err && started->Err_0@ == failure@,
            Err(reason) => started is Err && started->Err_0@
                == WaylandObserverErrorView::DispatchFailed(
                "observer startup channel closed unexpectedly: "@ + reason@,
            ),
        },
        match error {
            WaylandObserverError::ConnectionFailed(reason) => message@
                == "Wayland connection failed: "@ + reason@,
            WaylandObserverError::GlobalDiscoveryFailed(reason) => message@
                == "Wayland global discovery failed: "@ + reason@,
            WaylandObserverError::UnsupportedGlobal { name } => message@
                == "Required Wayland global is unavailable: "@ + name@,
            WaylandObserverError::DispatchFailed(reason) => message@ == "Wayland dispatch failed: "@
                + reason@,
            WaylandObserverError::ThreadSpawnFailed(reason) => message@
                == "Wayland observer thread spawn failed: "@ + reason@,
            WaylandObserverError::ManagerFinished => message@
                == "Wayland output manager finished observation"@,
            WaylandObserverError::StateViolation(reason) => message@
                == "Wayland observer state violation: "@ + reason@,
        },
{
}

} // verus!
