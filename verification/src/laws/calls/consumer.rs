//! What comes of the events that a consumer of snapshots takes in.

use vstd::prelude::*;

use crate::consumer;
use crate::consumer::{
    ActionView, ConsumerAction, ConsumerEvent, ConsumerStep, WaylandConsumer,
};
use crate::laws;
use crate::manager;
use crate::manager::{DisplayManager, WaylandSideEffectStage};
use crate::wayland_observer::OutputSnapshot;

verus! {

/// A received snapshot is served, and where it differs from the state it is compared with
/// its consequences start over: with persisting where it has heads, and with telling
/// clients where it has none. Where it does not differ, the next one is awaited, unless
/// consequences are pending, which then go on. Those who wait are released.
pub proof fn every_received_difference_is_followed<S>(
    before: WaylandConsumer<S>,
    after: WaylandConsumer<S>,
    served: DisplayManager,
    next: DisplayManager,
    snapshot: OutputSnapshot,
    step: ConsumerStep<S>,
)
    requires
        exists|c: &mut WaylandConsumer<S>, m: &mut DisplayManager|
            {
                &&& *c == before
                &&& *final(c) == after
                &&& *m == served
                &&& *final(m) == next
                &&& #[trigger] call_ensures(
                    WaylandConsumer::<S>::consume_wayland_observer,
                    (c, m, ConsumerEvent::Received { result: Ok(snapshot) }),
                    step,
                )
            },
    ensures
        ({
            let held = laws::consumer::compared_with(before@, served@);
            let same = laws::manager::same_state(
                held.monitors,
                held.logical_monitors,
                manager::head_monitors(snapshot@.heads),
                manager::head_logicals(snapshot@.heads),
            );
            &&& next@.monitors == manager::head_monitors(snapshot@.heads)
            &&& next@.logical_monitors == manager::head_logicals(snapshot@.heads)
            &&& next@.serial == held.serial
            &&& next@.properties == held.properties
            &&& !same && snapshot.heads@.len() > 0 ==> {
                &&& step.action is Advance
                &&& step.action->stage == WaylandSideEffectStage::Persist
                &&& step.action->Advance_candidate@ == next@
            }
            &&& !same && snapshot.heads@.len() == 0 ==> step.action is Signal
                && step.action->Signal_candidate@ == next@
            &&& same && before.pending is None ==> step.action == (ConsumerAction::Receive {
                timeout_ms: None,
            })
            &&& same && before.pending is Some ==> !(step.action is Receive) && !(step.action
                is Stop)
            &&& step.failure is None
            &&& before.ready_sender matches Some(sender) ==> step.ready == Some(
                (sender, Ok::<(), String>(())),
            )
            &&& before.ready_sender is None ==> step.ready is None
            &&& after.ready_sender is None
        }),
{
    laws::consumer::every_difference_is_followed(before@, served@, snapshot);
    laws::consumer::consumer_views_tell_every_field(before, step.action);
    laws::consumer::consumer_views_tell_every_field(after, step.action);
}

/// When the pause is over, the pending stage is tried again for its state, which is
/// served; where nothing is pending, nothing is done.
pub proof fn pending_stage_is_tried_again<S>(
    before: WaylandConsumer<S>,
    after: WaylandConsumer<S>,
    served: DisplayManager,
    next: DisplayManager,
    step: ConsumerStep<S>,
)
    requires
        exists|c: &mut WaylandConsumer<S>, m: &mut DisplayManager|
            {
                &&& *c == before
                &&& *final(c) == after
                &&& *m == served
                &&& *final(m) == next
                &&& #[trigger] call_ensures(
                    WaylandConsumer::<S>::consume_wayland_observer,
                    (c, m, ConsumerEvent::TimedOut),
                    step,
                )
            },
    ensures
        match before.pending {
            Some(pending) => {
                &&& next@ == pending.manager@
                &&& step.action@ == if pending.stage == WaylandSideEffectStage::Signal {
                    ActionView::Signal { candidate: pending.manager@ }
                } else {
                    ActionView::Advance { stage: pending.stage, candidate: pending.manager@ }
                }
                &&& after@.pending == before@.pending
                &&& after.attempts == before.attempts
            },
            None => {
                &&& next@ == served@
                &&& step.action == (ConsumerAction::Receive { timeout_ms: None })
                &&& step.ready is None
                &&& after@ == before@
            },
        },
        step.failure is None,
{
    laws::consumer::pending_consequences_are_tried_again(before@, served@);
    laws::consumer::consumer_views_tell_every_field(before, step.action);
}

/// A failed observation and a closed channel stop the daemon; what is served stays.
pub proof fn end_of_observation_stops<S>(
    before: WaylandConsumer<S>,
    after: WaylandConsumer<S>,
    served: DisplayManager,
    next: DisplayManager,
    event: ConsumerEvent,
    step: ConsumerStep<S>,
)
    requires
        event is Disconnected || event is Received && event->result is Err,
        exists|c: &mut WaylandConsumer<S>, m: &mut DisplayManager|
            {
                &&& *c == before
                &&& *final(c) == after
                &&& *m == served
                &&& *final(m) == next
                &&& #[trigger] call_ensures(
                    WaylandConsumer::<S>::consume_wayland_observer,
                    (c, m, event),
                    step,
                )
            },
    ensures
        next@ == served@,
        step.failure is None,
        step.action is Stop,
        event is Disconnected ==> step.action->message@ == "Wayland observer receiver closed"@
            && step.ready is None && after@ == before@,
        event matches ConsumerEvent::Received { result: Err(error) } ==> {
            &&& step.action->message@ == error@.message()
            &&& after.ready_sender is None
            &&& before.ready_sender is None ==> step.ready is None
            &&& before.ready_sender matches Some(sender) ==> {
                &&& step.ready is Some
                &&& (step.ready->0).0 == sender
                &&& (step.ready->0).1 is Err
                &&& (step.ready->0).1->Err_0@ == error@.message()
            }
        },
{
    laws::consumer::closed_channel_stops(before@, served@);
    if let ConsumerEvent::Received { result: Err(error) } = event {
        laws::consumer::failed_observation_stops(before@, served@, error);
    }
}

/// A stage that succeeded leads to the next one after a tenth of a second, or to telling
/// clients at once, of a state that is then served. A stage that failed is tried again
/// after a tenth of a second, and the third failure in a row stops the daemon.
pub proof fn stages_advance_or_are_tried_again<S>(
    before: WaylandConsumer<S>,
    after: WaylandConsumer<S>,
    served: DisplayManager,
    next: DisplayManager,
    stage: WaylandSideEffectStage,
    candidate: DisplayManager,
    result: Result<WaylandSideEffectStage, String>,
    step: ConsumerStep<S>,
)
    requires
        exists|c: &mut WaylandConsumer<S>, m: &mut DisplayManager|
            {
                &&& *c == before
                &&& *final(c) == after
                &&& *m == served
                &&& *final(m) == next
                &&& #[trigger] call_ensures(
                    WaylandConsumer::<S>::side_effect_done,
                    (c, m, stage, candidate, result),
                    step,
                )
            },
    ensures
        step.ready is None,
        after.ready_sender == before.ready_sender,
        match result {
            Ok(WaylandSideEffectStage::Signal) => {
                &&& next@ == candidate@
                &&& step.action@ == (ActionView::Signal { candidate: candidate@ })
                &&& step.failure is None
                &&& after@ == before@
            },
            Ok(reached) => {
                &&& next@ == served@
                &&& step.action == (ConsumerAction::Receive { timeout_ms: Some(100u64) })
                &&& step.failure is None
                &&& after@.pending == Some((reached, candidate@))
                &&& after.attempts == 0
            },
            Err(message) => {
                &&& next@ == served@
                &&& step.failure is Some
                &&& (step.failure->0)@ == message@
                &&& after@.pending == Some((stage, candidate@))
                &&& after.attempts == before.attempts + 1
                &&& before.attempts < 2 ==> step.action == (ConsumerAction::Receive {
                    timeout_ms: Some(100u64),
                })
                &&& before.attempts >= 2 ==> step.action is Stop && step.action->message@
                    == "Wayland pending side effect failed after "@ + seq!['3'] + " attempts: "@
                    + message@
            },
        },
{
    match result {
        Ok(reached) => {
            laws::consumer::stages_advance_one_by_one(
                before@,
                served@,
                stage,
                candidate@,
                reached,
            );
        },
        Err(message) => {
            laws::consumer::third_failure_in_a_row_stops(
                before@,
                served@,
                stage,
                candidate@,
                message@,
            );
        },
    }
}

/// Once clients were told nothing is pending and the next snapshot is awaited; where they
/// could not be told, that is tried again after a tenth of a second, and the third failure
/// in a row stops the daemon.
pub proof fn clients_are_told_or_tried_again<S>(
    before: WaylandConsumer<S>,
    after: WaylandConsumer<S>,
    candidate: DisplayManager,
    result: Result<(), String>,
    step: ConsumerStep<S>,
)
    requires
        exists|c: &mut WaylandConsumer<S>|
            {
                &&& *c == before
                &&& *final(c) == after
                &&& #[trigger] call_ensures(
                    WaylandConsumer::<S>::signal_done,
                    (c, candidate, result),
                    step,
                )
            },
    ensures
        step.ready is None,
        after.ready_sender == before.ready_sender,
        match result {
            Ok(()) => {
                &&& step.action == (ConsumerAction::Receive { timeout_ms: None })
                &&& step.failure is None
                &&& after.pending is None
                &&& after.attempts == 0
            },
            Err(message) => {
                &&& step.failure is Some
                &&& (step.failure->0)@ == message@
                &&& after@.pending == Some((WaylandSideEffectStage::Signal, candidate@))
                &&& after.attempts == before.attempts + 1
                &&& before.attempts < 2 ==> step.action == (ConsumerAction::Receive {
                    timeout_ms: Some(100u64),
                })
                &&& before.attempts >= 2 ==> step.action is Stop && step.action->message@
                    == "Wayland pending side effect failed after "@ + seq!['3'] + " attempts: "@
                    + message@
            },
        },
{
    laws::consumer::told_changes_are_done(before@, candidate@);
    if let Err(message) = result {
        laws::consumer::third_failure_in_a_row_stops(
            before@,
            candidate@,
            WaylandSideEffectStage::Signal,
            candidate@,
            message@,
        );
    }
}

/// A state to be served is served. A change starts over with persisting where it has
/// monitors, and with telling clients where it has none; without a change the pending
/// stage goes on, and where there is none the consumer settles.
pub proof fn candidates_are_served_and_followed<S>(
    before: WaylandConsumer<S>,
    after: WaylandConsumer<S>,
    served: DisplayManager,
    next: DisplayManager,
    candidate: DisplayManager,
    state_changed: bool,
    step: ConsumerStep<S>,
)
    requires
        exists|c: &mut WaylandConsumer<S>, m: &mut DisplayManager|
            {
                &&& *c == before
                &&& *final(c) == after
                &&& *m == served
                &&& *final(m) == next
                &&& #[trigger] call_ensures(
                    WaylandConsumer::<S>::process_wayland_candidate,
                    (c, m, candidate, state_changed),
                    step,
                )
            },
    ensures
        next@ == candidate@,
        step.failure is None,
        after.ready_sender is None,
        before.ready_sender matches Some(sender) ==> step.ready == Some(
            (sender, Ok::<(), String>(())),
        ),
        before.ready_sender is None ==> step.ready is None,
        state_changed && candidate.monitors@.len() > 0 ==> step.action@ == (ActionView::Advance {
            stage: WaylandSideEffectStage::Persist,
            candidate: candidate@,
        }),
        state_changed && candidate.monitors@.len() == 0 ==> step.action@ == (ActionView::Signal {
            candidate: candidate@,
        }),
        !state_changed ==> match before.pending {
            Some(pending) => step.action@ == if pending.stage == WaylandSideEffectStage::Signal {
                ActionView::Signal { candidate: candidate@ }
            } else {
                ActionView::Advance { stage: pending.stage, candidate: candidate@ }
            },
            None => step.action == (ConsumerAction::Receive { timeout_ms: None }),
        },
        after@.pending == before@.pending,
        step.action is Receive ==> after.attempts == 0,
        !(step.action is Receive) ==> after.attempts == before.attempts,
{
    laws::consumer::consumer_views_tell_every_field(before, step.action);
    assert(candidate@.monitors.len() == candidate.monitors@.len());
}

/// Those who wait are told once what there is to be told, and from then on no one waits. A
/// state is served before they are released, and before clients are told.
pub proof fn waiting_ones_are_told_once<S>(
    waiting: Option<S>,
    rest: Option<S>,
    result: Result<(), String>,
    told: Option<(S, Result<(), String>)>,
)
    requires
        exists|s: &mut Option<S>|
            {
                &&& *s == waiting
                &&& *final(s) == rest
                &&& #[trigger] call_ensures(
                    consumer::notify_wayland_readiness::<S>,
                    (s, result),
                    told,
                )
            },
    ensures
        rest is None,
        waiting matches Some(sender) ==> told == Some((sender, result)),
        waiting is None ==> told is None,
{
}

/// A state is served before those who wait for it are released, and before clients are
/// told of it.
pub proof fn states_are_served_first<S>(
    served: DisplayManager,
    next: DisplayManager,
    candidate: DisplayManager,
    waiting: Option<S>,
    rest: Option<S>,
    ready: Option<(S, Result<(), String>)>,
    fresh: WaylandConsumer<S>,
)
    requires
        exists|m: &mut DisplayManager, s: &mut Option<S>|
            {
                &&& *m == served
                &&& *final(m) == next
                &&& *s == waiting
                &&& *final(s) == rest
                &&& #[trigger] call_ensures(
                    consumer::publish_wayland_state_before_readiness::<S>,
                    (m, &candidate, s),
                    ready,
                )
            },
        call_ensures(WaylandConsumer::<S>::new, (waiting,), fresh),
    ensures
        next@ == candidate@,
        rest is None,
        waiting matches Some(sender) ==> ready == Some((sender, Ok::<(), String>(()))),
        waiting is None ==> ready is None,
        fresh.pending is None,
        fresh.attempts == 0,
        fresh.ready_sender == waiting,
{
}

/// Telling clients of a state comes behind serving it.
pub proof fn states_are_served_before_the_signal(
    served: DisplayManager,
    next: DisplayManager,
    candidate: DisplayManager,
    action: ConsumerAction,
)
    requires
        exists|m: &mut DisplayManager|
            {
                &&& *m == served
                &&& *final(m) == next
                &&& #[trigger] call_ensures(
                    consumer::publish_wayland_state_before_signal,
                    (m, candidate),
                    action,
                )
            },
    ensures
        next@ == candidate@,
        action@ == (ActionView::Signal { candidate: candidate@ }),
{
}

} // verus!
