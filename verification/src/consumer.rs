//! What the daemon does with the snapshots of an observation: it serves each
//! one at once, releases those who wait for the first, and then works through
//! the consequences of a change, again and again where they fail.

use vstd::prelude::*;

use crate::daemon;
use crate::daemon::{WAYLAND_MAX_PENDING_ATTEMPTS, WAYLAND_RETRY_MS};
use crate::manager;
use crate::manager::{DisplayManager, DisplayManagerView, WaylandSideEffectStage};
use crate::text;
use crate::wayland_observer::{OutputSnapshot, WaylandObserverError};

verus! {

/// A state whose consequences are not done yet, and the stage to go on with.
#[derive(Debug)]
pub struct Pending {
    pub stage: WaylandSideEffectStage,
    pub manager: DisplayManager,
}

/// What is known between two events: the pending consequences, how often they
/// failed in a row, and by what those are told who wait for the first state.
#[derive(Debug)]
pub struct WaylandConsumer<S> {
    pub pending: Option<Pending>,
    pub attempts: usize,
    pub ready_sender: Option<S>,
}

/// What happens on the channel of an observation.
#[derive(Debug)]
pub enum ConsumerEvent {
    /// A result came.
    Received { result: Result<OutputSnapshot, WaylandObserverError> },
    /// Nothing came in the time that was given.
    TimedOut,
    /// The observation is gone.
    Disconnected,
}

/// What is to be done next.
#[derive(Debug)]
pub enum ConsumerAction {
    /// Wait for the next result; where consequences are pending, no longer than
    /// told.
    Receive { timeout_ms: Option<u64> },
    /// Do what the stage asks for.
    Advance { stage: WaylandSideEffectStage, candidate: DisplayManager },
    /// Tell clients.
    Signal { candidate: DisplayManager },
    /// End, for this reason.
    Stop { message: String },
}

/// First those who wait are told, if there is something to tell, and then the
/// action is performed. A consequence that failed is named.
#[derive(Debug)]
pub struct ConsumerStep<S> {
    pub ready: Option<(S, Result<(), String>)>,
    pub failure: Option<String>,
    pub action: ConsumerAction,
}

/// What a [`WaylandConsumer`] stands for.
pub struct ConsumerView<S> {
    pub pending: Option<(WaylandSideEffectStage, DisplayManagerView)>,
    pub attempts: int,
    pub ready_sender: Option<S>,
}

impl<S> View for WaylandConsumer<S> {
    type V = ConsumerView<S>;

    open spec fn view(&self) -> ConsumerView<S> {
        ConsumerView {
            pending: match self.pending {
                Some(pending) => Some((pending.stage, pending.manager@)),
                None => None,
            },
            attempts: self.attempts as int,
            ready_sender: self.ready_sender,
        }
    }
}

/// What a [`ConsumerAction`] stands for.
pub enum ActionView {
    Receive { timeout_ms: Option<u64> },
    Advance { stage: WaylandSideEffectStage, candidate: DisplayManagerView },
    Signal { candidate: DisplayManagerView },
    Stop { message: Seq<char> },
}

impl View for ConsumerAction {
    type V = ActionView;

    open spec fn view(&self) -> ActionView {
        match *self {
            ConsumerAction::Receive { timeout_ms } => ActionView::Receive { timeout_ms },
            ConsumerAction::Advance { stage, candidate } => {
                ActionView::Advance { stage, candidate: candidate@ }
            },
            ConsumerAction::Signal { candidate } => ActionView::Signal { candidate: candidate@ },
            ConsumerAction::Stop { message } => ActionView::Stop { message: message@ },
        }
    }
}

impl ActionView {
    /// A state that is handed out can be rendered.
    pub open spec fn wf(self) -> bool {
        match self {
            ActionView::Advance { candidate, .. } => candidate.wf(),
            ActionView::Signal { candidate } => candidate.wf(),
            _ => true,
        }
    }
}

/// What those who wait are told.
pub open spec fn ready_view<S>(ready: Option<(S, Result<(), String>)>) -> Option<
    (S, Result<(), Seq<char>>),
> {
    match ready {
        Some((sender, result)) => Some((sender, daemon::result_text(result))),
        None => None,
    }
}

/// What comes of an event: the next state of the consumer, the state that is
/// served, what those who wait are told, what failed, and what is to be done
/// next.
pub struct TransitionView<S> {
    pub consumer: ConsumerView<S>,
    pub manager: DisplayManagerView,
    pub ready: Option<(S, Result<(), Seq<char>>)>,
    pub failure: Option<Seq<char>>,
    pub action: ActionView,
}

impl<S> ConsumerView<S> {
    /// There is still a try left, and every pending state can be rendered.
    pub open spec fn wf(self) -> bool {
        &&& 0 <= self.attempts < WAYLAND_MAX_PENDING_ATTEMPTS
        &&& self.pending matches Some((_, manager)) ==> manager.wf()
    }

    /// The stage that pending consequences go on with.
    pub open spec fn pending_stage(self) -> Option<WaylandSideEffectStage> {
        match self.pending {
            Some((stage, _)) => Some(stage),
            None => None,
        }
    }

    /// Nothing is pending, and no failure counts any more.
    pub open spec fn settled(self) -> ConsumerView<S> {
        ConsumerView { pending: None, attempts: 0, ..self }
    }

    /// A stage is reached, and no failure counts any more.
    pub open spec fn reached(
        self,
        stage: WaylandSideEffectStage,
        candidate: DisplayManagerView,
    ) -> ConsumerView<S> {
        ConsumerView { pending: Some((stage, candidate)), attempts: 0, ..self }
    }

    /// A stage has failed and is to be tried again.
    pub open spec fn failed(
        self,
        stage: WaylandSideEffectStage,
        candidate: DisplayManagerView,
    ) -> ConsumerView<S> {
        ConsumerView {
            pending: Some((stage, candidate)),
            attempts: self.attempts + 1,
            ..self
        }
    }

    /// What follows a failure: another try after a pause, or the end.
    pub open spec fn action_after_failure(self, error: Seq<char>) -> ActionView {
        if self.attempts + 1 >= WAYLAND_MAX_PENDING_ATTEMPTS {
            ActionView::Stop { message: daemon::exhaustion_text(error) }
        } else {
            ActionView::Receive { timeout_ms: Some(WAYLAND_RETRY_MS) }
        }
    }

    /// What comes of a state to be served.
    pub open spec fn processed(
        self,
        candidate: DisplayManagerView,
        state_changed: bool,
    ) -> TransitionView<S> {
        let released = ConsumerView { ready_sender: None, ..self };
        let ready = match self.ready_sender {
            Some(sender) => Some((sender, Ok::<(), Seq<char>>(()))),
            None => None,
        };
        match manager::next_stage(
            state_changed,
            self.pending_stage(),
            candidate.monitors.len() > 0,
        ) {
            None => TransitionView {
                consumer: released.settled(),
                manager: candidate,
                ready,
                failure: None,
                action: ActionView::Receive { timeout_ms: None },
            },
            Some(stage) => TransitionView {
                consumer: released,
                manager: candidate,
                ready,
                failure: None,
                action: if stage == WaylandSideEffectStage::Signal {
                    ActionView::Signal { candidate }
                } else {
                    ActionView::Advance { stage, candidate }
                },
            },
        }
    }

    /// The state that a snapshot is installed on: the pending one, or the one
    /// that is served.
    pub open spec fn base(self, manager: DisplayManagerView) -> DisplayManagerView {
        match self.pending {
            Some((_, pending)) => pending,
            None => manager,
        }
    }

    /// What comes of an event on the channel.
    pub open spec fn consumed(
        self,
        manager: DisplayManagerView,
        event: ConsumerEvent,
    ) -> TransitionView<S> {
        match event {
            ConsumerEvent::Received { result: Ok(snapshot) } => {
                let base = self.base(manager);
                let candidate = base.with_observed(
                    manager::head_monitors(snapshot@.heads),
                    manager::head_logicals(snapshot@.heads),
                );
                self.processed(
                    candidate,
                    manager::watched(base.monitors, base.logical_monitors) != manager::watched(
                        candidate.monitors,
                        candidate.logical_monitors,
                    ),
                )
            },
            ConsumerEvent::Received { result: Err(error) } => TransitionView {
                consumer: ConsumerView { ready_sender: None, ..self },
                manager,
                ready: match self.ready_sender {
                    Some(sender) => Some((sender, Err(error@.message()))),
                    None => None,
                },
                failure: None,
                action: ActionView::Stop { message: error@.message() },
            },
            ConsumerEvent::TimedOut => match self.pending {
                Some((_, pending)) => self.processed(pending, false),
                None => TransitionView {
                    consumer: self,
                    manager,
                    ready: None,
                    failure: None,
                    action: ActionView::Receive { timeout_ms: None },
                },
            },
            ConsumerEvent::Disconnected => TransitionView {
                consumer: self,
                manager,
                ready: None,
                failure: None,
                action: ActionView::Stop { message: "Wayland observer receiver closed"@ },
            },
        }
    }

    /// What comes of having done what a stage asks for, or of its failure.
    pub open spec fn advanced(
        self,
        manager: DisplayManagerView,
        stage: WaylandSideEffectStage,
        candidate: DisplayManagerView,
        result: Result<WaylandSideEffectStage, Seq<char>>,
    ) -> TransitionView<S> {
        match result {
            Ok(next) => if next == WaylandSideEffectStage::Signal {
                TransitionView {
                    consumer: self,
                    manager: candidate,
                    ready: None,
                    failure: None,
                    action: ActionView::Signal { candidate },
                }
            } else {
                TransitionView {
                    consumer: self.reached(next, candidate),
                    manager,
                    ready: None,
                    failure: None,
                    action: ActionView::Receive { timeout_ms: Some(WAYLAND_RETRY_MS) },
                }
            },
            Err(error) => TransitionView {
                consumer: self.failed(stage, candidate),
                manager,
                ready: None,
                failure: Some(error),
                action: self.action_after_failure(error),
            },
        }
    }

    /// The next state after having told clients, or having failed to do so.
    pub open spec fn signalled(
        self,
        candidate: DisplayManagerView,
        result: Result<(), Seq<char>>,
    ) -> ConsumerView<S> {
        match result {
            Ok(()) => self.settled(),
            Err(_) => self.failed(WaylandSideEffectStage::Signal, candidate),
        }
    }

    /// What is to be done after having told clients, or having failed to do so.
    pub open spec fn action_after_signal(self, result: Result<(), Seq<char>>) -> ActionView {
        match result {
            Ok(()) => ActionView::Receive { timeout_ms: None },
            Err(error) => self.action_after_failure(error),
        }
    }
}

/// Takes the sender by which those who wait are told, and what they are told.
/// They are told once: from then on there is no sender.
pub fn notify_wayland_readiness<S>(
    ready_sender: &mut Option<S>,
    result: Result<(), String>,
) -> (told: Option<(S, Result<(), String>)>)
    ensures
        *final(ready_sender) is None,
        told == match *old(ready_sender) {
            Some(sender) => Some((sender, result)),
            None => None,
        },
{
    match ready_sender.take() {
        Some(sender) => Some((sender, result)),
        None => None,
    }
}

/// Serves a state and then releases those who wait for the first one.
pub fn publish_wayland_state_before_readiness<S>(
    manager_ref: &mut DisplayManager,
    candidate: &DisplayManager,
    ready_sender: &mut Option<S>,
) -> (ready: Option<(S, Result<(), String>)>)
    ensures
        final(manager_ref)@ == candidate@,
        *final(ready_sender) is None,
        ready_view(ready) == match *old(ready_sender) {
            Some(sender) => Some((sender, Ok::<(), Seq<char>>(()))),
            None => None,
        },
{
    *manager_ref = candidate.clone();
    notify_wayland_readiness(ready_sender, Ok(()))
}

/// Serves a state; clients are to be told of it next.
pub fn publish_wayland_state_before_signal(
    manager_ref: &mut DisplayManager,
    candidate: DisplayManager,
) -> (action: ConsumerAction)
    ensures
        final(manager_ref)@ == candidate@,
        action@ == (ActionView::Signal { candidate: candidate@ }),
{
    *manager_ref = candidate.clone();
    ConsumerAction::Signal { candidate }
}

/// Whether a step, with the states that it leaves behind, is what a transition
/// says.
pub open spec fn steps_as<S>(
    consumer: ConsumerView<S>,
    manager: DisplayManagerView,
    step: ConsumerStep<S>,
    transition: TransitionView<S>,
) -> bool {
    &&& consumer == transition.consumer
    &&& manager == transition.manager
    &&& ready_view(step.ready) == transition.ready
    &&& text::option_text(step.failure) == transition.failure
    &&& step.action@ == transition.action
}

impl<S> WaylandConsumer<S> {
    /// A consumer before the first event.
    pub fn new(ready_sender: Option<S>) -> (consumer: WaylandConsumer<S>)
        ensures
            consumer@ == (ConsumerView { pending: None, attempts: 0, ready_sender }),
            consumer@.wf(),
    {
        WaylandConsumer { pending: None, attempts: 0, ready_sender }
    }

    /// Serves a state, and begins or goes on with its consequences.
    pub fn process_wayland_candidate(
        &mut self,
        manager_ref: &mut DisplayManager,
        candidate: DisplayManager,
        state_changed: bool,
    ) -> (step: ConsumerStep<S>)
        requires
            old(self)@.wf(),
        ensures
            steps_as(
                final(self)@,
                final(manager_ref)@,
                step,
                old(self)@.processed(candidate@, state_changed),
            ),
            final(self)@.wf(),
            candidate@.wf() ==> step.action@.wf(),
    {
        let ready = publish_wayland_state_before_readiness(
            manager_ref,
            &candidate,
            &mut self.ready_sender,
        );
        let pending_stage = match &self.pending {
            Some(pending) => Some(pending.stage),
            None => None,
        };
        let stage = manager::wayland_side_effect_stage(
            state_changed,
            pending_stage,
            candidate.has_observed_outputs(),
        );
        let action = match stage {
            None => {
                self.pending = None;
                self.attempts = 0;
                ConsumerAction::Receive { timeout_ms: None }
            },
            Some(WaylandSideEffectStage::Signal) => publish_wayland_state_before_signal(
                manager_ref,
                candidate,
            ),
            Some(stage) => ConsumerAction::Advance { stage, candidate },
        };
        ConsumerStep { ready, failure: None, action }
    }

    /// Takes in what happens on the channel of the observation.
    pub fn consume_wayland_observer(
        &mut self,
        manager_ref: &mut DisplayManager,
        event: ConsumerEvent,
    ) -> (step: ConsumerStep<S>)
        requires
            old(self)@.wf(),
        ensures
            steps_as(
                final(self)@,
                final(manager_ref)@,
                step,
                old(self)@.consumed(old(manager_ref)@, event),
            ),
            final(self)@.wf(),
            step.action@.wf(),
            old(manager_ref)@.wf() ==> final(manager_ref)@.wf(),
    {
        match event {
            ConsumerEvent::Received { result } => match result {
                Ok(snapshot) => {
                    let mut candidate = match &self.pending {
                        Some(pending) => pending.manager.clone(),
                        None => manager_ref.clone(),
                    };
                    let state_changed = candidate.install_wayland_snapshot(&snapshot);
                    self.process_wayland_candidate(manager_ref, candidate, state_changed)
                },
                Err(error) => {
                    let ready = notify_wayland_readiness(
                        &mut self.ready_sender,
                        Err(error.message()),
                    );
                    ConsumerStep {
                        ready,
                        failure: None,
                        action: ConsumerAction::Stop { message: error.message() },
                    }
                },
            },
            ConsumerEvent::TimedOut => {
                let pending = match &self.pending {
                    Some(pending) => Some(pending.manager.clone()),
                    None => None,
                };
                match pending {
                    Some(candidate) => self.process_wayland_candidate(
                        manager_ref,
                        candidate,
                        false,
                    ),
                    None => ConsumerStep {
                        ready: None,
                        failure: None,
                        action: ConsumerAction::Receive { timeout_ms: None },
                    },
                }
            },
            ConsumerEvent::Disconnected => ConsumerStep {
                ready: None,
                failure: None,
                action: ConsumerAction::Stop {
                    message: "Wayland observer receiver closed".to_owned(),
                },
            },
        }
    }

    /// Notes that a stage has failed.
    fn note_failure(
        &mut self,
        stage: WaylandSideEffectStage,
        candidate: DisplayManager,
        error: String,
    ) -> (step: ConsumerStep<S>)
        requires
            old(self)@.wf(),
            candidate@.wf(),
        ensures
            final(self)@ == old(self)@.failed(stage, candidate@),
            step.ready is None,
            text::option_text(step.failure) == Some(error@),
            step.action@ == old(self)@.action_after_failure(error@),
            !(step.action is Stop) ==> final(self)@.wf(),
    {
        self.pending = Some(Pending { stage, manager: candidate });
        let failure = Some(error.clone());
        let action = match daemon::record_wayland_pending_failure(&mut self.attempts, error) {
            Ok(()) => ConsumerAction::Receive { timeout_ms: Some(WAYLAND_RETRY_MS) },
            Err(message) => ConsumerAction::Stop { message },
        };
        ConsumerStep { ready: None, failure, action }
    }

    /// Takes in how it went to do what a stage asks for: the stage that comes
    /// next, or why it failed.
    pub fn side_effect_done(
        &mut self,
        manager_ref: &mut DisplayManager,
        stage: WaylandSideEffectStage,
        candidate: DisplayManager,
        result: Result<WaylandSideEffectStage, String>,
    ) -> (step: ConsumerStep<S>)
        requires
            old(self)@.wf(),
            candidate@.wf(),
        ensures
            steps_as(
                final(self)@,
                final(manager_ref)@,
                step,
                old(self)@.advanced(
                    old(manager_ref)@,
                    stage,
                    candidate@,
                    daemon::result_text(result),
                ),
            ),
            step.action@.wf(),
            old(manager_ref)@.wf() ==> final(manager_ref)@.wf(),
            !(step.action is Stop) ==> final(self)@.wf(),
    {
        let action = match result {
            Ok(WaylandSideEffectStage::Signal) => publish_wayland_state_before_signal(
                manager_ref,
                candidate,
            ),
            Ok(next) => {
                self.pending = Some(Pending { stage: next, manager: candidate });
                self.attempts = 0;
                ConsumerAction::Receive { timeout_ms: Some(WAYLAND_RETRY_MS) }
            },
            Err(error) => return self.note_failure(stage, candidate, error),
        };
        ConsumerStep { ready: None, failure: None, action }
    }

    /// Takes in how it went to tell clients.
    pub fn signal_done(&mut self, candidate: DisplayManager, result: Result<(), String>) -> (step:
        ConsumerStep<S>)
        requires
            old(self)@.wf(),
            candidate@.wf(),
        ensures
            final(self)@ == old(self)@.signalled(candidate@, daemon::result_text(result)),
            step.action@ == old(self)@.action_after_signal(daemon::result_text(result)),
            step.ready is None,
            text::option_text(step.failure) == match result {
                Ok(()) => None,
                Err(error) => Some(error@),
            },
            !(step.action is Stop) ==> final(self)@.wf(),
    {
        let action = match result {
            Ok(()) => {
                self.pending = None;
                self.attempts = 0;
                ConsumerAction::Receive { timeout_ms: None }
            },
            Err(error) => return self.note_failure(
                WaylandSideEffectStage::Signal,
                candidate,
                error,
            ),
        };
        ConsumerStep { ready: None, failure: None, action }
    }
}

/// A state is served before anyone is told of it: before those who wait for the
/// first one are released, before clients are told, and before any consequence
/// is worked on.
pub proof fn states_are_served_before_they_are_told<S>(
    consumer: ConsumerView<S>,
    manager: DisplayManagerView,
    event: ConsumerEvent,
    stage: WaylandSideEffectStage,
    candidate: DisplayManagerView,
    result: Result<WaylandSideEffectStage, Seq<char>>,
)
    ensures
        ({
            let next = consumer.consumed(manager, event);
            &&& next.action matches ActionView::Signal { candidate } ==> next.manager == candidate
            &&& next.action matches ActionView::Advance { stage, candidate } ==> next.manager
                == candidate
            &&& next.ready matches Some((_, Ok(_))) ==> match event {
                ConsumerEvent::Received { result: Ok(snapshot) } => next.manager.monitors
                    == manager::head_monitors(snapshot@.heads),
                _ => consumer.pending matches Some((_, pending)) && next.manager == pending,
            }
        }),
        ({
            let next = consumer.advanced(manager, stage, candidate, result);
            next.action matches ActionView::Signal { candidate: told } ==> next.manager == told
        }),
{
}

/// Those who wait for the first state are released with the first state or with
/// the failure of the observation, whichever comes first, and only once; how
/// the consequences of the state go makes no difference.
pub proof fn readiness_is_released_once<S>(
    consumer: ConsumerView<S>,
    manager: DisplayManagerView,
    event: ConsumerEvent,
    later: ConsumerEvent,
    later_manager: DisplayManagerView,
)
    requires
        event is Received,
    ensures
        ({
            let next = consumer.consumed(manager, event);
            &&& consumer.ready_sender is Some <==> next.ready is Some
            &&& next.ready matches Some((sender, told)) ==> {
                &&& consumer.ready_sender == Some(sender)
                &&& event matches ConsumerEvent::Received { result } ==> (told is Ok <==> result
                    is Ok)
            }
            &&& next.consumer.ready_sender is None
            &&& next.consumer.consumed(later_manager, later).ready is None
            &&& next.consumer.consumed(later_manager, later).consumer.ready_sender is None
        }),
{
}

/// A failed consequence is kept with its state and tried again from the stage
/// that failed. The third failure in a row ends the observation, and anything
/// that succeeds in between starts the count again.
pub proof fn failures_are_retried_until_exhausted<S>(
    consumer: ConsumerView<S>,
    manager: DisplayManagerView,
    stage: WaylandSideEffectStage,
    candidate: DisplayManagerView,
    error: Seq<char>,
)
    requires
        consumer.wf(),
        candidate.wf(),
    ensures
        ({
            let once = consumer.settled().advanced(manager, stage, candidate, Err(error));
            let twice = once.consumer.advanced(manager, stage, candidate, Err(error));
            let thrice = twice.consumer.advanced(manager, stage, candidate, Err(error));
            &&& once.consumer.wf() && once.consumer.pending == Some((stage, candidate))
            &&& twice.consumer.wf() && twice.consumer.pending == Some((stage, candidate))
            &&& once.action == (ActionView::Receive { timeout_ms: Some(WAYLAND_RETRY_MS) })
            &&& twice.action == (ActionView::Receive { timeout_ms: Some(WAYLAND_RETRY_MS) })
            &&& thrice.action == (ActionView::Stop { message: daemon::exhaustion_text(error) })
        }),
        ({
            let retried = consumer.failed(stage, candidate).consumed(
                manager,
                ConsumerEvent::TimedOut,
            );
            retried.action == if stage == WaylandSideEffectStage::Signal {
                ActionView::Signal { candidate }
            } else {
                ActionView::Advance { stage, candidate }
            }
        }),
        ({
            let next = Ok::<WaylandSideEffectStage, Seq<char>>(WaylandSideEffectStage::Reload);
            consumer.advanced(manager, stage, candidate, next).consumer.attempts == 0
        }),
        consumer.signalled(candidate, Ok(())).attempts == 0,
{
}

/// A snapshot that changes nothing has no consequences where none are pending.
pub proof fn unchanged_snapshot_has_no_consequences<S>(
    consumer: ConsumerView<S>,
    candidate: DisplayManagerView,
)
    requires
        consumer.pending is None,
    ensures
        consumer.processed(candidate, false).action == (ActionView::Receive { timeout_ms: None }),
        consumer.processed(candidate, false).consumer.pending is None,
{
}

/// A snapshot that changes something is persisted first where there is any
/// monitor, and told of at once where there is none, whatever was pending.
pub proof fn change_starts_over<S>(consumer: ConsumerView<S>, candidate: DisplayManagerView)
    ensures
        consumer.processed(candidate, true).action == if candidate.monitors.len() > 0 {
            ActionView::Advance { stage: WaylandSideEffectStage::Persist, candidate }
        } else {
            ActionView::Signal { candidate }
        },
{
}

} // verus!
