//! How the daemon starts, watches and ends: which backend it uses, when it
//! tries again, and what it reports.

use vstd::prelude::*;
use vstd::string::*;

use crate::text;

verus! {

/// How often a connection to sway is tried.
pub const SWAY_CONNECT_ATTEMPTS: usize = 3;

/// The pause between two tries, in milliseconds.
pub const SWAY_CONNECT_RETRY_MS: u64 = 250;

/// How often a pending consequence of a change is tried.
pub const WAYLAND_MAX_PENDING_ATTEMPTS: usize = 3;

/// The pause before a pending consequence is tried again, in milliseconds.
pub const WAYLAND_RETRY_MS: u64 = 100;

/// How long the start waits for the first observed state, in milliseconds.
pub const WAYLAND_READINESS_TIMEOUT_MS: u64 = 5000;

/// The pause before the watcher starts again, in milliseconds.
pub const WATCH_RESTART_MS: u64 = 1000;

/// How often sway is asked for its outputs, in milliseconds.
pub const WATCH_INTERVAL_MS: u64 = 700;

/// What a result with a message stands for.
pub open spec fn result_text<T>(r: Result<T, String>) -> Result<T, Seq<char>> {
    match r {
        Ok(value) => Ok(value),
        Err(message) => Err(message@),
    }
}

/// What comes of a task that may fail, or not come to its end at all.
pub open spec fn task_text(
    r: Result<Result<(), String>, String>,
    prefix: Seq<char>,
) -> Result<(), Seq<char>> {
    match r {
        Ok(Ok(())) => Ok(()),
        Ok(Err(message)) => Err(message@),
        Err(message) => Err(prefix + message@),
    }
}

fn prefixed(prefix: &str, message: &str) -> (r: String)
    ensures
        r@ == prefix@ + message@,
{
    let mut r = prefix.to_owned();
    r.append(message);
    r
}

/// What the daemon ends with when the watcher has ended, given the result of
/// the watcher, or why it did not come to its end.
pub fn finish_sway_watcher(result: Result<Result<(), String>, String>) -> (r: Result<(), String>)
    ensures
        result_text(r) == task_text(result, "Display watcher task failed: "@),
{
    match result {
        Ok(Ok(())) => Ok(()),
        Ok(Err(error)) => Err(error),
        Err(error) => Err(prefixed("Display watcher task failed: ", error.as_str())),
    }
}

/// Whether the watcher is started again: where it failed.
pub fn watcher_should_restart(result: &Result<(), String>) -> (r: bool)
    ensures
        r == (*result is Err),
{
    result.is_err()
}

/// What is logged when the watcher has ended: the failure, if there was one.
pub fn handle_watch_changes_result(result: Result<(), String>) -> (line: Option<String>)
    ensures
        text::option_text(line) == match result {
            Ok(()) => None,
            Err(error) => Some("Display watcher stopped: "@ + error@),
        },
{
    match result {
        Ok(()) => None,
        Err(error) => Some(prefixed("Display watcher stopped: ", error.as_str())),
    }
}

/// What follows when the watcher has ended.
#[derive(Debug, PartialEq, Eq)]
pub enum SupervisorStep {
    /// The watcher came to its end, and so does its supervision.
    Finish,
    /// The watcher failed as told, and is started again after a pause.
    Restart { log: String },
}

/// Supervises the watcher: as often as it fails, it is started again.
pub fn supervise_sway_watcher(result: Result<(), String>) -> (step: SupervisorStep)
    ensures
        match step {
            SupervisorStep::Finish => result is Ok,
            SupervisorStep::Restart { log } => {
                &&& result matches Err(error)
                &&& log@ == "Display watcher stopped: "@ + error@
            },
        },
{
    let should_restart = watcher_should_restart(&result);
    let line = handle_watch_changes_result(result);
    match line {
        Some(log) => if should_restart {
            SupervisorStep::Restart { log }
        } else {
            SupervisorStep::Finish
        },
        None => SupervisorStep::Finish,
    }
}

/// What the daemon ends with when the observation has ended.
pub fn finish_wayland_observer(result: Result<(), String>) -> (r: Result<(), String>)
    ensures
        match r {
            Ok(()) => result is Ok,
            Err(error) => result matches Err(message) && error@ == message@,
        },
{
    match result {
        Ok(()) => Ok(()),
        Err(error) => Err(error),
    }
}

/// What the daemon ends with when the task of the observation has ended, given
/// the result of the observation, or why the task did not come to its end.
pub fn finish_wayland_task(result: Result<Result<(), String>, String>) -> (r: Result<(), String>)
    ensures
        result_text(r) == task_text(result, "Wayland observer task failed: "@),
{
    match result {
        Ok(result) => finish_wayland_observer(result),
        Err(error) => Err(prefixed("Wayland observer task failed: ", error.as_str())),
    }
}

/// What the daemon ends with when the observation did not get ready: the
/// failure of the observation where there is one, or else the reason why it
/// did not get ready.
pub fn finish_wayland_startup_failure(
    readiness_error: String,
    observer_result: Result<Result<(), String>, String>,
) -> (error: String)
    ensures
        error@ == match observer_result {
            Ok(Err(message)) => message@,
            Err(message) => "Wayland observer task failed: "@ + message@,
            Ok(Ok(())) => readiness_error@,
        },
{
    match observer_result {
        Ok(Err(error)) => error,
        Err(error) => prefixed("Wayland observer task failed: ", error.as_str()),
        Ok(Ok(())) => readiness_error,
    }
}

/// What is reported when a pending consequence failed too often.
pub open spec fn exhaustion_text(error: Seq<char>) -> Seq<char> {
    "Wayland pending side effect failed after "@ + text::decimal(
        WAYLAND_MAX_PENDING_ATTEMPTS as int,
    ) + " attempts: "@ + error
}

/// Counts a failure; fails itself where there were too many.
pub fn record_wayland_pending_failure(attempts: &mut usize, error: String) -> (r: Result<
    (),
    String,
>)
    requires
        *old(attempts) < usize::MAX,
    ensures
        *final(attempts) == *old(attempts) + 1,
        result_text(r) == if *final(attempts) >= WAYLAND_MAX_PENDING_ATTEMPTS {
            Err::<(), Seq<char>>(exhaustion_text(error@))
        } else {
            Ok(())
        },
{
    *attempts = *attempts + 1;
    if *attempts >= WAYLAND_MAX_PENDING_ATTEMPTS {
        let mut message = String::new();
        message.append("Wayland pending side effect failed after ");
        text::push_nat(&mut message, WAYLAND_MAX_PENDING_ATTEMPTS as u64);
        message.append(" attempts: ");
        message.append(error.as_str());
        assert(message@ =~= exhaustion_text(error@));
        Err(message)
    } else {
        Ok(())
    }
}

/// Where the display state is observed.
#[derive(Debug, Clone, Copy, PartialEq, Eq, Structural)]
pub enum DisplayBackend {
    Wayland,
    Sway,
    Unsupported,
}

/// COSMIC is observed through Wayland, everything else through sway.
pub open spec fn backend_for(cosmic: bool, sway_available: bool) -> DisplayBackend {
    if cosmic {
        DisplayBackend::Wayland
    } else if sway_available {
        DisplayBackend::Sway
    } else {
        DisplayBackend::Unsupported
    }
}

/// The backend for a desktop.
pub fn select_display_backend(cosmic: bool, sway_available: bool) -> (backend: DisplayBackend)
    ensures
        backend == backend_for(cosmic, sway_available),
{
    match (cosmic, sway_available) {
        (true, _) => DisplayBackend::Wayland,
        (false, true) => DisplayBackend::Sway,
        (false, false) => DisplayBackend::Unsupported,
    }
}

/// Whether the list of desktop names, separated by colons, names COSMIC.
pub fn cosmic_desktop(value: Option<&str>) -> (cosmic: bool)
    ensures
        cosmic == (value matches Some(names) && text::has_segment(names@, ':', "cosmic"@)),
{
    match value {
        Some(names) => text::contains_segment(names, ':', "cosmic"),
        None => false,
    }
}

/// What follows when a connection to sway failed.
#[derive(Debug, PartialEq, Eq)]
pub enum ConnectStep {
    /// Try again after a pause.
    Retry,
    /// Go on without sway.
    Continue,
    /// Give up, for this reason.
    Fail { message: String },
}

/// What is reported when sway cannot be reached.
pub open spec fn unavailable_text(error: Seq<char>) -> Seq<char> {
    "Sway IPC backend unavailable after "@ + text::decimal(SWAY_CONNECT_ATTEMPTS as int)
        + " attempts: "@ + error
}

/// What a [`ConnectStep`] stands for.
pub enum ConnectStepView {
    Retry,
    Continue,
    Fail { message: Seq<char> },
}

impl View for ConnectStep {
    type V = ConnectStepView;

    open spec fn view(&self) -> ConnectStepView {
        match *self {
            ConnectStep::Retry => ConnectStepView::Retry,
            ConnectStep::Continue => ConnectStepView::Continue,
            ConnectStep::Fail { message } => ConnectStepView::Fail { message: message@ },
        }
    }
}

/// What follows when sway could not be reached so many times, the last time
/// with this error: another try, as long as there are any left; after that
/// COSMIC goes on without sway, and everything else gives up.
pub open spec fn step_after_failures(
    cosmic: bool,
    failures: int,
    error: Seq<char>,
) -> ConnectStepView {
    if failures < SWAY_CONNECT_ATTEMPTS {
        ConnectStepView::Retry
    } else if cosmic {
        ConnectStepView::Continue
    } else {
        ConnectStepView::Fail { message: unavailable_text(error) }
    }
}

/// Tries to reach sway.
#[derive(Debug)]
pub struct SwayConnector {
    pub cosmic: bool,
    pub failures: usize,
}

impl SwayConnector {
    pub fn new(cosmic: bool) -> (connector: SwayConnector)
        ensures
            connector.cosmic == cosmic,
            connector.failures == 0,
    {
        SwayConnector { cosmic, failures: 0 }
    }

    /// Takes in that a try has failed; there must have been a try left.
    pub fn connect_sway_backend(&mut self, error: String) -> (step: ConnectStep)
        requires
            old(self).failures < SWAY_CONNECT_ATTEMPTS,
        ensures
            final(self).cosmic == old(self).cosmic,
            final(self).failures == old(self).failures + 1,
            step@ == step_after_failures(
                old(self).cosmic,
                final(self).failures as int,
                error@,
            ),
            step is Retry ==> final(self).failures < SWAY_CONNECT_ATTEMPTS,
    {
        self.failures = self.failures + 1;
        if self.failures < SWAY_CONNECT_ATTEMPTS {
            return ConnectStep::Retry;
        }
        if self.cosmic {
            return ConnectStep::Continue;
        }
        let mut message = String::new();
        message.append("Sway IPC backend unavailable after ");
        text::push_nat(&mut message, SWAY_CONNECT_ATTEMPTS as u64);
        message.append(" attempts: ");
        message.append(error.as_str());
        assert(message@ =~= unavailable_text(error@));
        ConnectStep::Fail { message }
    }
}

/// Sway is tried three times. Where the third try fails, it is the error of
/// that try that is told, and COSMIC is told none.
pub proof fn sway_is_tried_three_times(cosmic: bool, error: Seq<char>)
    ensures
        step_after_failures(cosmic, 1, error) is Retry,
        step_after_failures(cosmic, 2, error) is Retry,
        step_after_failures(cosmic, 3, error) == if cosmic {
            ConnectStepView::Continue
        } else {
            ConnectStepView::Fail { message: unavailable_text(error) }
        },
{
}

/// What came of waiting for the observation to get ready.
#[derive(Debug, PartialEq, Eq)]
pub enum ReadinessReply {
    /// The first state was observed.
    Ready,
    /// The observation failed before.
    Failed { message: String },
    /// The observation is gone without a word.
    Closed,
    /// Nothing came in time.
    TimedOut,
}

/// Whether the observation is ready: it may get ready later where nothing came
/// in time, and does not get ready where it failed or is gone.
pub fn wait_for_wayland_readiness(reply: ReadinessReply) -> (r: Result<bool, String>)
    ensures
        result_text(r) == match reply {
            ReadinessReply::Ready => Ok::<bool, Seq<char>>(true),
            ReadinessReply::Failed { message } => Err(message@),
            ReadinessReply::Closed => Err("Wayland observer readiness channel closed"@),
            ReadinessReply::TimedOut => Ok(false),
        },
{
    match reply {
        ReadinessReply::Ready => Ok(true),
        ReadinessReply::Failed { message } => Err(message),
        ReadinessReply::Closed => Err("Wayland observer readiness channel closed".to_owned()),
        ReadinessReply::TimedOut => Ok(false),
    }
}

/// COSMIC is never without a backend, and nothing else than COSMIC is observed
/// through Wayland.
pub proof fn cosmic_and_wayland_go_together(cosmic: bool, sway_available: bool)
    ensures
        backend_for(cosmic, sway_available) == DisplayBackend::Wayland <==> cosmic,
        backend_for(cosmic, sway_available) == DisplayBackend::Unsupported <==> !cosmic
            && !sway_available,
{
}

} // verus!
