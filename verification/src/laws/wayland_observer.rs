//! What an observation makes of what the compositor says, and what it hands on.

use vstd::prelude::*;

use crate::collector::{CollectorView, SnapshotStateErrorView};
use crate::laws;
use crate::scale::Scale;
use crate::wayland_observer;
use crate::wayland_observer::{
    HandlesView, HeadEvent, ManagerEvent, ModeEvent, ObserverState, ObserverView,
    OutputHeadSnapshot, OutputSnapshot, OutputSnapshotView, WaylandObserverError,
    WaylandObserverErrorView,
};

verus! {

/// Whether an event changed nothing but the collected state of one head, and whether
/// that head is known afterwards.
pub open spec fn only_head_is_touched<H, M>(
    before: ObserverView<H, M>,
    after: ObserverView<H, M>,
    head_id: u32,
) -> bool {
    &&& after.collector.heads.contains_key(head_id)
    &&& laws::collector::differ_at_head(before.collector, after.collector, head_id)
    &&& after.handles == before.handles
    &&& after.terminal_error == before.terminal_error
    &&& after.terminal_reached == before.terminal_reached
}

/// What a head says of itself is published with the next `done`, whether or not the
/// head was known before and whatever was said before; nothing is said of any other
/// head.
pub proof fn head_events_reach_their_head<H, M>(
    state: ObserverView<H, M>,
    id: u32,
    text: String,
    number: i32,
    code: u32,
    x: i32,
    y: i32,
)
    ensures
        ({
            let named = state.head_event(id, HeadEvent::<M>::Name { name: text });
            let head = named.collector.heads[id];
            &&& only_head_is_touched(state, named, id)
            &&& head.snapshot().name == text@
        }),
        ({
            let described = state.head_event(
                id,
                HeadEvent::<M>::Description { description: text },
            );
            let head = described.collector.heads[id];
            &&& only_head_is_touched(state, described, id)
            &&& head.snapshot().description == Some(text@)
        }),
        ({
            let switched = state.head_event(id, HeadEvent::<M>::Enabled { enabled: number });
            let head = switched.collector.heads[id];
            &&& only_head_is_touched(state, switched, id)
            &&& head.snapshot().enabled <==> number != 0
            &&& number == 0 ==> head.position is None && head.transform is None && head.scale
                is None && head.current_mode_id is None
        }),
        ({
            let driven = state.head_event(id, HeadEvent::<M>::CurrentMode { mode_id: code });
            let head = driven.collector.heads[id];
            &&& only_head_is_touched(state, driven, id)
            &&& head.current_mode_id == Some(code)
        }),
        ({
            let moved = state.head_event(id, HeadEvent::<M>::Position { x, y });
            let head = moved.collector.heads[id];
            &&& only_head_is_touched(state, moved, id)
            &&& head.snapshot().position == Some((x, y))
        }),
        ({
            let turned = state.head_event(id, HeadEvent::<M>::Transform { transform: code });
            let head = turned.collector.heads[id];
            &&& only_head_is_touched(state, turned, id)
            &&& head.snapshot().transform == Some(code)
        }),
        ({
            let silent = state.head_event(id, HeadEvent::<M>::Other);
            &&& only_head_is_touched(state, silent, id)
            &&& silent.collector == state.collector.note_head(id)
        }),
{
}

/// What a head says of itself changes only what it is about: everything else of the
/// head stays as it was, or where the head was not known, as it begins.
pub proof fn head_events_are_the_reports_they_carry<H, M>(
    state: ObserverView<H, M>,
    id: u32,
    text: String,
    number: i32,
    code: u32,
    x: i32,
    y: i32,
)
    ensures
        ({
            let known = state.collector.note_head(id);
            &&& known.set_head_name(id, text@) == Ok::<CollectorView, SnapshotStateErrorView>(
                state.head_event(id, HeadEvent::<M>::Name { name: text }).collector,
            )
            &&& known.set_head_description(id, text@) == Ok::<
                CollectorView,
                SnapshotStateErrorView,
            >(state.head_event(id, HeadEvent::<M>::Description { description: text }).collector)
            &&& known.set_head_enabled(id, number != 0) == Ok::<
                CollectorView,
                SnapshotStateErrorView,
            >(state.head_event(id, HeadEvent::<M>::Enabled { enabled: number }).collector)
            &&& known.set_head_current_mode(id, code) == Ok::<
                CollectorView,
                SnapshotStateErrorView,
            >(state.head_event(id, HeadEvent::<M>::CurrentMode { mode_id: code }).collector)
            &&& known.set_head_position(id, x, y) == Ok::<CollectorView, SnapshotStateErrorView>(
                state.head_event(id, HeadEvent::<M>::Position { x, y }).collector,
            )
            &&& known.set_head_transform(id, code) == Ok::<CollectorView, SnapshotStateErrorView>(
                state.head_event(id, HeadEvent::<M>::Transform { transform: code }).collector,
            )
        }),
{
}

/// A scale that a head reports is published with the next `done`, rounded. One that is
/// no finite number above zero, or rounds to none above zero, ends the observation
/// instead, unless it had ended before, with a failure that says which scale it was.
pub proof fn reported_scale_is_published_or_ends<H, M>(
    state: ObserverView<H, M>,
    id: u32,
    scale: Scale,
    rounded: Scale,
)
    ensures
        ({
            let after = state.head_event(id, HeadEvent::<M>::Scale { scale, rounded });
            let head = after.collector.heads[id];
            let refused = {
                ||| scale.bits == 0
                ||| scale.bits >= 0x7ff0_0000_0000_0000
                ||| rounded.bits == 0
                ||| 0x8000_0000_0000_0000 <= rounded.bits <= 0xfff0_0000_0000_0000
            };
            &&& !refused ==> only_head_is_touched(state, after, id) && head.snapshot().scale
                == Some(rounded@)
            &&& refused ==> {
                &&& after.collector == state.collector.note_head(id)
                &&& after.handles == state.handles
                &&& after.terminal_reached
                &&& state.terminal_reached ==> after.terminal_error == state.terminal_error
                &&& !state.terminal_reached ==> after.terminal_error == Some(
                    WaylandObserverErrorView::StateViolation(
                        "invalid scale value "@ + scale.text@,
                    ),
                )
            }
        }),
{
    laws::collector::last_reported_scale_wins(
        state.collector.note_head(id),
        id,
        scale@,
        rounded@,
    );
}

/// A mode that a head announces belongs to the head from then on, and so does its
/// handle; a head that is gone takes its modes and the handles with it.
pub proof fn announced_modes_belong_to_their_head<H, M>(
    state: ObserverView<H, M>,
    id: u32,
    mode_id: u32,
    mode: M,
)
    ensures
        ({
            let known = state.collector.note_head(id);
            let after = state.head_event(id, HeadEvent::Mode { mode_id, mode });
            &&& known.note_mode(id, mode_id) == Ok::<CollectorView, SnapshotStateErrorView>(
                after.collector,
            )
            &&& after.collector.heads[id].modes.contains_key(mode_id)
            &&& after.collector.mode_to_head[mode_id] == id
            &&& after.handles.mode(id, mode_id) == Some(mode)
            &&& after.handles.heads == state.handles.heads
            &&& forall|m: u32|
                m != mode_id ==> #[trigger] after.handles.modes.contains_key(m)
                    == state.handles.modes.contains_key(m) && after.handles.modes[m]
                    == state.handles.modes[m]
            &&& after.terminal_error == state.terminal_error
            &&& after.terminal_reached == state.terminal_reached
        }),
        ({
            let known = state.collector.note_head(id);
            let after = state.head_event(id, HeadEvent::<M>::Finished);
            &&& known.finish_head(id) == Ok::<CollectorView, SnapshotStateErrorView>(
                after.collector,
            )
            &&& after.handles == state.handles.release_head(id)
            &&& after.terminal_error == state.terminal_error
            &&& after.terminal_reached == state.terminal_reached
        }),
{
}

/// What a mode says of itself changes the collected state as reported where the mode is
/// known. What an unknown mode says changes nothing and ends the observation, unless
/// it had ended before, with a failure that names the mode.
pub proof fn mode_events_reach_their_mode<H, M>(
    state: ObserverView<H, M>,
    id: u32,
    width: i32,
    height: i32,
    refresh: i32,
)
    ensures
        ({
            let sized = state.mode_event(id, ModeEvent::Size { width, height });
            let timed = state.mode_event(id, ModeEvent::Refresh { refresh });
            let preferred = state.mode_event(id, ModeEvent::Preferred);
            let gone = state.mode_event(id, ModeEvent::Finished);
            &&& state.mode_event(id, ModeEvent::Other) == state
            &&& if state.collector.mode_to_head.contains_key(id) {
                let head_id = state.collector.mode_to_head[id];
                &&& state.collector.set_mode_size(id, width, height) == Ok::<
                    CollectorView,
                    SnapshotStateErrorView,
                >(sized.collector)
                &&& sized.collector.heads[head_id].modes[id].width == Some(width)
                &&& sized.collector.heads[head_id].modes[id].height == Some(height)
                &&& state.collector.set_mode_refresh(id, refresh) == Ok::<
                    CollectorView,
                    SnapshotStateErrorView,
                >(timed.collector)
                &&& timed.collector.heads[head_id].modes[id].refresh_mhz == Some(refresh)
                &&& state.collector.set_mode_preferred(id) == Ok::<
                    CollectorView,
                    SnapshotStateErrorView,
                >(preferred.collector)
                &&& preferred.collector.heads[head_id].modes[id].preferred
                &&& state.collector.finish_mode(id) == Ok::<CollectorView, SnapshotStateErrorView>(
                    gone.collector,
                )
                &&& forall|after: ObserverView<H, M>|
                    after == sized || after == timed || after == preferred ==> {
                        &&& #[trigger] after.handles == state.handles
                        &&& after.terminal_error == state.terminal_error
                        &&& after.terminal_reached == state.terminal_reached
                    }
                &&& gone.handles == state.handles.release_mode(id)
                &&& gone.terminal_error == state.terminal_error
                &&& gone.terminal_reached == state.terminal_reached
            } else {
                forall|after: ObserverView<H, M>|
                    after == sized || after == timed || after == preferred || after == gone ==> {
                        &&& #[trigger] after.handles == state.handles
                        &&& after.collector == state.collector
                        &&& after.terminal_reached
                        &&& state.terminal_reached ==> after.terminal_error == state.terminal_error
                        &&& !state.terminal_reached ==> after.terminal_error == Some(
                            WaylandObserverErrorView::StateViolation(
                                SnapshotStateErrorView::UnknownMode(id).message(),
                            ),
                        )
                    }
            }
        }),
{
}

/// A head that the manager announces is known, and its handle can be had; a `done`
/// publishes; a manager that is gone ends the observation, unless it had ended before;
/// and nothing else changes anything.
pub proof fn manager_events_do_what_they_say<H, M>(
    state: ObserverView<H, M>,
    head_id: u32,
    head: H,
    serial: u32,
)
    ensures
        ({
            let after = state.manager_event(ManagerEvent::Head { head_id, head });
            &&& after.collector == state.collector.note_head(head_id)
            &&& after.handles.head(head_id) == Some(head)
            &&& after.handles.modes == state.handles.modes
            &&& forall|h: u32|
                h != head_id ==> #[trigger] after.handles.heads.contains_key(h)
                    == state.handles.heads.contains_key(h) && after.handles.heads[h]
                    == state.handles.heads[h]
            &&& after.terminal_error == state.terminal_error
            &&& after.terminal_reached == state.terminal_reached
        }),
        ({
            let after = state.manager_event(ManagerEvent::<H>::Done { serial });
            &&& after.collector == state.collector.publish_done(serial)
            &&& after.handles == state.handles
            &&& after.terminal_error == state.terminal_error
            &&& after.terminal_reached == state.terminal_reached
        }),
        ({
            let after = state.manager_event(ManagerEvent::<H>::Finished);
            &&& after.collector == state.collector
            &&& after.handles == state.handles
            &&& after.terminal_reached
            &&& state.terminal_reached ==> after.terminal_error == state.terminal_error
            &&& !state.terminal_reached ==> after.terminal_error == Some(
                WaylandObserverErrorView::ManagerFinished,
            )
        }),
        state.manager_event(ManagerEvent::<H>::Other) == state,
{
}

/// The first failure is kept, and later ones change nothing; no failure touches what
/// was collected.
pub proof fn first_failure_is_kept<H, M>(
    state: ObserverView<H, M>,
    error: WaylandObserverErrorView,
    refusal: SnapshotStateErrorView,
    collector: CollectorView,
)
    ensures
        ({
            let after = state.store_terminal(error);
            &&& after.collector == state.collector
            &&& after.handles == state.handles
            &&& after.terminal_reached
            &&& state.terminal_reached ==> after.terminal_error == state.terminal_error
            &&& !state.terminal_reached ==> after.terminal_error == Some(error)
        }),
        state.collected(Err(refusal)) == state.store_terminal(
            WaylandObserverErrorView::StateViolation(refusal.message()),
        ),
        state.collected(Ok(collector)) == (ObserverView { collector, ..state }),
{
}

/// What is pending: each snapshot that was published, in order, and behind them the
/// failure, if it was not handed on yet.
pub proof fn snapshots_are_pending_before_the_failure<H, M>(state: ObserverView<H, M>, i: int)
    ensures
        ({
            let pending = state.pending_results();
            let published = state.collector.publications;
            &&& 0 <= i < published.len() ==> pending[i] == Ok::<
                OutputSnapshotView,
                WaylandObserverErrorView,
            >(published[i])
            &&& state.terminal_error is None ==> pending.len() == published.len()
            &&& state.terminal_error matches Some(error) ==> pending.len() == published.len() + 1
                && pending.last() == Err::<OutputSnapshotView, WaylandObserverErrorView>(error)
        }),
{
}

/// Taking results takes that many from the front, and leaves everything else of the
/// state as it is.
pub proof fn results_are_taken_from_the_front<H, M>(state: ObserverView<H, M>, n: int)
    requires
        0 <= n <= state.pending_results().len(),
    ensures
        ({
            let rest = state.taken(n);
            &&& rest.pending_results() == state.pending_results().skip(n)
            &&& rest.collector.heads == state.collector.heads
            &&& rest.collector.mode_to_head == state.collector.mode_to_head
            &&& rest.handles == state.handles
            &&& rest.terminal_reached == state.terminal_reached
            &&& rest.terminal_drained() <==> state.terminal_reached && (state.terminal_error is None
                || n == state.pending_results().len())
        }),
{
    assert(state.taken(n).pending_results() =~= state.pending_results().skip(n));
}

/// Results are handed on from the first in order, each behind one that arrived, and
/// all of them unless the last one handed on did not arrive.
pub proof fn results_are_handed_on_in_order<H, M>(
    state: ObserverView<H, M>,
    sends: Seq<(Result<OutputSnapshotView, WaylandObserverErrorView>, bool)>,
)
    ensures
        wayland_observer::receiver_gone(sends) <==> sends.len() > 0 && !sends[sends.len() - 1].1,
        wayland_observer::hands_on(state, sends) <==> {
            let pending = state.pending_results();
            &&& sends.len() <= pending.len()
            &&& forall|i: int| 0 <= i < sends.len() ==> (#[trigger] sends[i]).0 == pending[i]
            &&& forall|i: int| 0 <= i < sends.len() - 1 ==> (#[trigger] sends[i]).1
            &&& sends.len() < pending.len() ==> sends.len() > 0 && !sends[sends.len() - 1].1
        },
{
}

/// Handles are filed under their ids: retaining one leaves all others as they are, and
/// so does releasing one; a head that is released takes the modes that belong to it.
pub proof fn handles_are_filed_under_their_ids<H, M>(
    handles: HandlesView<H, M>,
    head_id: u32,
    head: H,
    mode_id: u32,
    mode: M,
    id: u32,
)
    ensures
        ({
            let after = handles.retain_head(head_id, head);
            &&& after.head(id) == if id == head_id {
                Some(head)
            } else {
                handles.head(id)
            }
            &&& after.modes == handles.modes
        }),
        ({
            let after = handles.retain_mode(head_id, mode_id, mode);
            &&& after.heads == handles.heads
            &&& after.modes.contains_key(id) <==> handles.modes.contains_key(id) || id == mode_id
            &&& id != mode_id ==> after.modes[id] == handles.modes[id]
            &&& after.modes[mode_id].head_id == head_id
            &&& after.modes[mode_id].proxy == mode
        }),
        ({
            let after = handles.release_head(head_id);
            &&& after.heads.contains_key(id) <==> handles.heads.contains_key(id) && id != head_id
            &&& id != head_id ==> after.heads[id] == handles.heads[id]
            &&& after.modes.contains_key(id) <==> handles.modes.contains_key(id)
                && handles.modes[id].head_id != head_id
            &&& after.modes.contains_key(id) ==> after.modes[id] == handles.modes[id]
        }),
        ({
            let after = handles.release_mode(mode_id);
            &&& after.heads == handles.heads
            &&& after.modes.contains_key(id) <==> handles.modes.contains_key(id) && id != mode_id
            &&& id != mode_id ==> after.modes[id] == handles.modes[id]
        }),
        handles.head(id) is Some <==> handles.heads.contains_key(id),
        handles.head(id) matches Some(held) ==> held == handles.heads[id],
        handles.mode(head_id, id) is Some <==> handles.modes.contains_key(id)
            && handles.modes[id].head_id == head_id,
        handles.mode(head_id, id) matches Some(held) ==> held == handles.modes[id].proxy,
        !HandlesView::<H, M>::empty().heads.contains_key(id),
        !HandlesView::<H, M>::empty().modes.contains_key(id),
{
}

/// An observation begins with nothing collected, no handles, and no failure.
pub proof fn observations_begin_empty<H, M>()
    ensures
        ObserverView::<H, M>::initial().collector == CollectorView::empty(),
        ObserverView::<H, M>::initial().handles == HandlesView::<H, M>::empty(),
        ObserverView::<H, M>::initial().terminal_error is None,
        !ObserverView::<H, M>::initial().terminal_reached,
        ObserverView::<H, M>::initial().pending_results().len() == 0,
{
}

/// Each failure says what failed, and why where that is known.
pub proof fn failures_say_what_failed(reason: Seq<char>, refusal: SnapshotStateErrorView)
    ensures
        WaylandObserverErrorView::ConnectionFailed(reason).message()
            == "Wayland connection failed: "@ + reason,
        WaylandObserverErrorView::GlobalDiscoveryFailed(reason).message()
            == "Wayland global discovery failed: "@ + reason,
        (WaylandObserverErrorView::UnsupportedGlobal { name: reason }).message()
            == "Required Wayland global is unavailable: "@ + reason,
        WaylandObserverErrorView::DispatchFailed(reason).message() == "Wayland dispatch failed: "@
            + reason,
        WaylandObserverErrorView::ThreadSpawnFailed(reason).message()
            == "Wayland observer thread spawn failed: "@ + reason,
        WaylandObserverErrorView::ManagerFinished.message()
            == "Wayland output manager finished observation"@,
        WaylandObserverErrorView::StateViolation(reason).message()
            == "Wayland observer state violation: "@ + reason,
        wayland_observer::violation(refusal) == WaylandObserverErrorView::StateViolation(
            refusal.message(),
        ),
{
}

/// An observation starts as its thread reports; where the thread is gone without a
/// word, dispatching has failed.
pub proof fn observations_start_as_reported(error: WaylandObserverError, message: String)
    ensures
        wayland_observer::startup_view(Ok(Ok(()))) is Ok,
        wayland_observer::startup_view(Ok(Err(error))) == Err::<(), WaylandObserverErrorView>(
            error@,
        ),
        wayland_observer::startup_view(Err(message)) == Err::<(), WaylandObserverErrorView>(
            WaylandObserverErrorView::DispatchFailed(
                "observer startup channel closed unexpectedly: "@ + message@,
            ),
        ),
{
}

/// The views of snapshots, failures and results tell everything that they are of.
pub proof fn snapshot_views_tell_every_field<H, M>(
    snapshot: OutputSnapshot,
    head: OutputHeadSnapshot,
    snapshots: Seq<OutputSnapshot>,
    error: WaylandObserverError,
    state: ObserverState<H, M>,
    i: int,
)
    ensures
        snapshot@.serial == snapshot.serial,
        snapshot@.heads.len() == snapshot.heads@.len(),
        0 <= i < snapshot.heads@.len() ==> snapshot@.heads[i] == snapshot.heads@[i]@,
        head@.name == head.name@,
        match head.description {
            Some(description) => head@.description == Some(description@),
            None => head@.description is None,
        },
        head@.enabled == head.enabled,
        head@.position == head.position,
        head@.transform == head.transform,
        match head.scale {
            Some(scale) => head@.scale == Some(scale@),
            None => head@.scale is None,
        },
        head@.current_mode == head.current_mode,
        head@.modes == head.modes@,
        wayland_observer::snapshot_views(snapshots).len() == snapshots.len(),
        0 <= i < snapshots.len() ==> wayland_observer::snapshot_views(snapshots)[i]
            == snapshots[i]@,
        wayland_observer::result_view(Ok(snapshot)) == Ok::<
            OutputSnapshotView,
            WaylandObserverErrorView,
        >(snapshot@),
        wayland_observer::result_view(Err(error)) == Err::<
            OutputSnapshotView,
            WaylandObserverErrorView,
        >(error@),
        state@.collector == state.collector@,
        state@.handles == state.handles@,
        match state.terminal_error {
            Some(failure) => state@.terminal_error == Some(failure@),
            None => state@.terminal_error is None,
        },
        state@.terminal_reached == state.terminal_reached,
        match error {
            WaylandObserverError::ConnectionFailed(message) => error@
                == WaylandObserverErrorView::ConnectionFailed(message@),
            WaylandObserverError::GlobalDiscoveryFailed(message) => error@
                == WaylandObserverErrorView::GlobalDiscoveryFailed(message@),
            WaylandObserverError::UnsupportedGlobal { name } => error@
                == (WaylandObserverErrorView::UnsupportedGlobal { name: name@ }),
            WaylandObserverError::DispatchFailed(message) => error@
                == WaylandObserverErrorView::DispatchFailed(message@),
            WaylandObserverError::ThreadSpawnFailed(message) => error@
                == WaylandObserverErrorView::ThreadSpawnFailed(message@),
            WaylandObserverError::ManagerFinished => error@
                == WaylandObserverErrorView::ManagerFinished,
            WaylandObserverError::StateViolation(message) => error@
                == WaylandObserverErrorView::StateViolation(message@),
        },
{
}

} // verus!
