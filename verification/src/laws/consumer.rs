//! How received snapshots are followed: served, persisted, reloaded, told of, and
//! tried again.

use vstd::prelude::*;

use crate::consumer;
use crate::consumer::{
    ActionView, ConsumerAction, ConsumerEvent, ConsumerStep, ConsumerView, TransitionView,
    WaylandConsumer,
};
use crate::laws;
use crate::manager;
use crate::manager::{DisplayManagerView, WaylandSideEffectStage};
use crate::wayland_observer::{OutputSnapshot, WaylandObserverError};

verus! {

/// The state that a snapshot is compared with: the one whose consequences are
/// pending, or else the one that is served.
pub open spec fn compared_with<S>(
    consumer: ConsumerView<S>,
    served: DisplayManagerView,
) -> DisplayManagerView {
    if consumer.pending is Some {
        (consumer.pending->0).1
    } else {
        served
    }
}

/// A received snapshot is served at once: its monitors and logical monitors are those
/// of its heads, with serial and properties of the state it is compared with. Where
/// any monitor or logical monitor differs from those of that state, its consequences
/// start over, with persisting where the snapshot has heads, and with telling clients
/// where it has none. Where all are the same, what is pending goes on, and where
/// nothing is pending the next snapshot is awaited, however long that takes.
pub proof fn every_difference_is_followed<S>(
    consumer: ConsumerView<S>,
    served: DisplayManagerView,
    snapshot: OutputSnapshot,
)
    ensures
        ({
            let next = consumer.consumed(
                served,
                ConsumerEvent::Received { result: Ok(snapshot) },
            );
            let held = compared_with(consumer, served);
            let candidate = next.manager;
            let same = laws::manager::same_state(
                held.monitors,
                held.logical_monitors,
                manager::head_monitors(snapshot@.heads),
                manager::head_logicals(snapshot@.heads),
            );
            &&& candidate.monitors == manager::head_monitors(snapshot@.heads)
            &&& candidate.logical_monitors == manager::head_logicals(snapshot@.heads)
            &&& candidate.serial == held.serial
            &&& candidate.properties == held.properties
            &&& !same && snapshot.heads@.len() > 0 ==> next.action == (ActionView::Advance {
                stage: WaylandSideEffectStage::Persist,
                candidate,
            })
            &&& !same && snapshot.heads@.len() == 0 ==> next.action == (ActionView::Signal {
                candidate,
            })
            &&& same && consumer.pending is None ==> next.action == (ActionView::Receive {
                timeout_ms: None,
            })
            &&& same && consumer.pending is Some ==> {
                let stage = (consumer.pending->0).0;
                next.action == if stage == WaylandSideEffectStage::Signal {
                    ActionView::Signal { candidate }
                } else {
                    ActionView::Advance { stage, candidate }
                }
            }
            &&& next.action is Receive ==> same && consumer.pending is None
            &&& next.failure is None
            &&& consumer.ready_sender matches Some(sender) ==> next.ready == Some(
                (sender, Ok::<(), Seq<char>>(())),
            )
            &&& consumer.ready_sender is None ==> next.ready is None
            &&& next.consumer.ready_sender is None
            &&& next.consumer.pending == consumer.pending
            &&& next.action is Receive ==> next.consumer.attempts == 0
            &&& !(next.action is Receive) ==> next.consumer.attempts == consumer.attempts
        }),
{
    let held = compared_with(consumer, served);
    laws::manager::every_difference_is_remembered(
        held.monitors,
        held.logical_monitors,
        manager::head_monitors(snapshot@.heads),
        manager::head_logicals(snapshot@.heads),
    );
}

/// A state to be served is served, those who wait are released, and its consequences start
/// over where it is a change, with persisting where it has monitors. Where it is no change,
/// what is pending goes on, and where nothing is, failures count from zero again.
pub proof fn states_to_be_served_are_followed<S>(
    consumer: ConsumerView<S>,
    candidate: DisplayManagerView,
    changed: bool,
)
    ensures
        ({
            let next = consumer.processed(candidate, changed);
            &&& next.manager == candidate
            &&& next.failure is None
            &&& next.consumer.ready_sender is None
            &&& next.consumer.pending == consumer.pending
            &&& consumer.ready_sender matches Some(sender) ==> next.ready == Some(
                (sender, Ok::<(), Seq<char>>(())),
            )
            &&& consumer.ready_sender is None ==> next.ready is None
            &&& changed && candidate.monitors.len() > 0 ==> next.action == (ActionView::Advance {
                stage: WaylandSideEffectStage::Persist,
                candidate,
            })
            &&& changed && candidate.monitors.len() == 0 ==> next.action == (ActionView::Signal {
                candidate,
            })
            &&& !changed && consumer.pending is None ==> next.action == (ActionView::Receive {
                timeout_ms: None,
            }) && next.consumer.attempts == 0
            &&& !(next.action is Receive) ==> next.consumer.attempts == consumer.attempts
        }),
{
}

/// Where the observation fails, those who wait are told the failure, nothing else is
/// served, and the daemon stops with it.
pub proof fn failed_observation_stops<S>(
    consumer: ConsumerView<S>,
    served: DisplayManagerView,
    error: WaylandObserverError,
)
    ensures
        ({
            let next = consumer.consumed(
                served,
                ConsumerEvent::Received { result: Err(error) },
            );
            &&& next.action == (ActionView::Stop { message: error@.message() })
            &&& next.manager == served
            &&& next.failure is None
            &&& consumer.ready_sender matches Some(sender) ==> next.ready == Some(
                (sender, Err::<(), Seq<char>>(error@.message())),
            )
            &&& consumer.ready_sender is None ==> next.ready is None
            &&& next.consumer.ready_sender is None
            &&& next.consumer.pending == consumer.pending
            &&& next.consumer.attempts == consumer.attempts
        }),
{
}

/// When the pause is over, what is pending is tried again, from the stage that it has
/// come to and for the state that it is about, which is served. Where nothing is
/// pending, nothing is done.
pub proof fn pending_consequences_are_tried_again<S>(
    consumer: ConsumerView<S>,
    served: DisplayManagerView,
)
    ensures
        ({
            let next = consumer.consumed(served, ConsumerEvent::TimedOut);
            match consumer.pending {
                Some((stage, candidate)) => {
                    &&& next.manager == candidate
                    &&& next.action == if stage == WaylandSideEffectStage::Signal {
                        ActionView::Signal { candidate }
                    } else {
                        ActionView::Advance { stage, candidate }
                    }
                    &&& next.consumer.pending == consumer.pending
                    &&& next.consumer.attempts == consumer.attempts
                    &&& next.consumer.ready_sender is None
                    &&& consumer.ready_sender matches Some(sender) ==> next.ready == Some(
                        (sender, Ok::<(), Seq<char>>(())),
                    )
                    &&& consumer.ready_sender is None ==> next.ready is None
                    &&& next.failure is None
                },
                None => {
                    &&& next.manager == served
                    &&& next.action == (ActionView::Receive { timeout_ms: None })
                    &&& next.consumer == consumer
                    &&& next.ready is None
                    &&& next.failure is None
                },
            }
        }),
{
}

/// When the channel is closed the daemon stops and says so, and nothing else changes.
pub proof fn closed_channel_stops<S>(consumer: ConsumerView<S>, served: DisplayManagerView)
    ensures
        ({
            let next = consumer.consumed(served, ConsumerEvent::Disconnected);
            &&& next.action == (ActionView::Stop { message: "Wayland observer receiver closed"@ })
            &&& next.manager == served
            &&& next.consumer == consumer
            &&& next.ready is None
            &&& next.failure is None
        }),
{
}

/// After a stage that succeeded the next one is pending and is gone on with after a
/// pause of a tenth of a second, and failures count from zero again; only where
/// clients are to be told next, the state is served and they are told at once.
pub proof fn stages_advance_one_by_one<S>(
    consumer: ConsumerView<S>,
    served: DisplayManagerView,
    stage: WaylandSideEffectStage,
    candidate: DisplayManagerView,
    reached: WaylandSideEffectStage,
)
    ensures
        ({
            let next = consumer.advanced(served, stage, candidate, Ok(reached));
            &&& next.ready is None
            &&& next.failure is None
            &&& next.consumer.ready_sender == consumer.ready_sender
            &&& if reached == WaylandSideEffectStage::Signal {
                &&& next.manager == candidate
                &&& next.action == (ActionView::Signal { candidate })
                &&& next.consumer == consumer
            } else {
                &&& next.manager == served
                &&& next.action == (ActionView::Receive { timeout_ms: Some(100u64) })
                &&& next.consumer.pending == Some((reached, candidate))
                &&& next.consumer.attempts == 0
            }
        }),
{
}

/// After a stage that failed, that stage is pending with its state and is tried again
/// after a tenth of a second, unless it was the third failure in a row: that one stops
/// the daemon. What is served stays. The same holds where clients could not be told.
pub proof fn third_failure_in_a_row_stops<S>(
    consumer: ConsumerView<S>,
    served: DisplayManagerView,
    stage: WaylandSideEffectStage,
    candidate: DisplayManagerView,
    error: Seq<char>,
)
    ensures
        ({
            let next = consumer.advanced(served, stage, candidate, Err(error));
            let told = consumer.signalled(candidate, Err(error));
            let action = if consumer.attempts >= 2 {
                ActionView::Stop {
                    message: "Wayland pending side effect failed after "@ + seq!['3']
                        + " attempts: "@ + error,
                }
            } else {
                ActionView::Receive { timeout_ms: Some(100u64) }
            };
            &&& next.manager == served
            &&& next.ready is None
            &&& next.failure == Some(error)
            &&& next.action == action
            &&& next.consumer.pending == Some((stage, candidate))
            &&& next.consumer.attempts == consumer.attempts + 1
            &&& next.consumer.ready_sender == consumer.ready_sender
            &&& consumer.action_after_signal(Err(error)) == action
            &&& told.pending == Some((WaylandSideEffectStage::Signal, candidate))
            &&& told.attempts == consumer.attempts + 1
            &&& told.ready_sender == consumer.ready_sender
        }),
{
    laws::daemon::three_attempts_are_spelled();
}

/// Once clients were told nothing is pending, failures count from zero again, and the
/// next snapshot is awaited, however long that takes.
pub proof fn told_changes_are_done<S>(consumer: ConsumerView<S>, candidate: DisplayManagerView)
    ensures
        consumer.signalled(candidate, Ok(())).pending is None,
        consumer.signalled(candidate, Ok(())).attempts == 0,
        consumer.signalled(candidate, Ok(())).ready_sender == consumer.ready_sender,
        consumer.action_after_signal(Ok(())) == (ActionView::Receive { timeout_ms: None }),
{
}

/// A step is that of a transition only where it leaves the same states behind, tells
/// the same to those who wait, reports the same failure and asks for the same action.
pub proof fn steps_are_those_of_their_transition<S>(
    after: ConsumerView<S>,
    served: DisplayManagerView,
    step: ConsumerStep<S>,
    transition: TransitionView<S>,
)
    requires
        consumer::steps_as(after, served, step, transition),
    ensures
        after == transition.consumer,
        served == transition.manager,
        match step.ready {
            Some((sender, Ok(()))) => transition.ready matches Some((s, told)) && s == sender
                && told is Ok,
            Some((sender, Err(message))) => transition.ready == Some(
                (sender, Err::<(), Seq<char>>(message@)),
            ),
            None => transition.ready is None,
        },
        match step.failure {
            Some(message) => transition.failure == Some(message@),
            None => transition.failure is None,
        },
        step.action@ == transition.action,
{
}

/// The view of a consumer tells each of its fields, and that of an action what is to
/// be done.
pub proof fn consumer_views_tell_every_field<S>(held: WaylandConsumer<S>, action: ConsumerAction)
    ensures
        match held.pending {
            Some(pending) => held@.pending == Some((pending.stage, pending.manager@)),
            None => held@.pending is None,
        },
        held@.attempts == held.attempts,
        held@.ready_sender == held.ready_sender,
        match action {
            ConsumerAction::Receive { timeout_ms } => action@ == (ActionView::Receive {
                timeout_ms,
            }),
            ConsumerAction::Advance { stage, candidate } => action@ == (ActionView::Advance {
                stage,
                candidate: candidate@,
            }),
            ConsumerAction::Signal { candidate } => action@ == (ActionView::Signal {
                candidate: candidate@,
            }),
            ConsumerAction::Stop { message } => action@ == (ActionView::Stop {
                message: message@,
            }),
        },
{
}

} // verus!
