//! How often and how long the daemon tries, and what it reports.

use vstd::prelude::*;

use crate::daemon;
use crate::daemon::{ConnectStep, ConnectStepView, DisplayBackend};
use crate::text;

verus! {

/// The number of tries is written as a single digit.
pub proof fn three_attempts_are_spelled()
    ensures
        text::decimal(3) == seq!['3'],
        text::decimal(daemon::WAYLAND_MAX_PENDING_ATTEMPTS as int) == seq!['3'],
        text::decimal(daemon::SWAY_CONNECT_ATTEMPTS as int) == seq!['3'],
{
    assert(text::digit_char(3) == '3');
    assert(text::decimal(3) =~= seq!['3']);
}

/// Sway is tried three times, a quarter of a second apart. A pending consequence is
/// tried three times, a tenth of a second apart. The start waits five seconds for the
/// first state, a watcher that failed starts again after one second, and sway is asked
/// for its outputs every 700 milliseconds.
pub proof fn tries_and_pauses()
    ensures
        daemon::SWAY_CONNECT_ATTEMPTS == 3,
        daemon::SWAY_CONNECT_RETRY_MS == 250,
        daemon::WAYLAND_MAX_PENDING_ATTEMPTS == 3,
        daemon::WAYLAND_RETRY_MS == 100,
        daemon::WAYLAND_READINESS_TIMEOUT_MS == 5000,
        daemon::WATCH_RESTART_MS == 1000,
        daemon::WATCH_INTERVAL_MS == 700,
{
}

/// COSMIC is observed through Wayland whether or not there is a sway; anything else
/// through sway where there is one, and not at all where there is none.
pub proof fn backends_go_by_desktop(sway_available: bool)
    ensures
        daemon::backend_for(true, sway_available) == DisplayBackend::Wayland,
        daemon::backend_for(false, true) == DisplayBackend::Sway,
        daemon::backend_for(false, false) == DisplayBackend::Unsupported,
{
}

/// Up to the second failure sway is tried again. From the third on COSMIC goes on
/// without it, and anything else gives up with the error of the last try.
pub proof fn third_failed_try_decides(cosmic: bool, failures: int, error: Seq<char>)
    ensures
        ({
            let step = daemon::step_after_failures(cosmic, failures, error);
            &&& failures <= 2 ==> step == ConnectStepView::Retry
            &&& failures >= 3 && cosmic ==> step == ConnectStepView::Continue
            &&& failures >= 3 && !cosmic ==> step == (ConnectStepView::Fail {
                message: "Sway IPC backend unavailable after "@ + seq!['3'] + " attempts: "@
                    + error,
            })
        }),
{
    three_attempts_are_spelled();
}

/// A message about consequences that failed too often says how often, and ends with
/// the last error.
pub proof fn exhaustion_ends_with_the_error(error: Seq<char>)
    ensures
        daemon::exhaustion_text(error) == "Wayland pending side effect failed after "@ + seq!['3']
            + " attempts: "@ + error,
{
    three_attempts_are_spelled();
}

/// A task that came to its end ends with its own result; one that did not ends with
/// the prefix and the reason.
pub proof fn tasks_end_with_result_or_reason(
    prefix: Seq<char>,
    message: String,
    value: bool,
    step: ConnectStep,
)
    ensures
        daemon::task_text(Ok(Ok(())), prefix) is Ok,
        daemon::task_text(Ok(Err(message)), prefix) == Err::<(), Seq<char>>(message@),
        daemon::task_text(Err(message), prefix) == Err::<(), Seq<char>>(prefix + message@),
        daemon::result_text(Ok::<bool, String>(value)) == Ok::<bool, Seq<char>>(value),
        daemon::result_text(Err::<bool, String>(message)) == Err::<bool, Seq<char>>(message@),
        daemon::result_text(Ok::<(), String>(())) is Ok,
        daemon::result_text(Err::<(), String>(message)) == Err::<(), Seq<char>>(message@),
        match step {
            ConnectStep::Retry => step@ == ConnectStepView::Retry,
            ConnectStep::Continue => step@ == ConnectStepView::Continue,
            ConnectStep::Fail { message: text } => step@ == (ConnectStepView::Fail {
                message: text@,
            }),
        },
{
}

} // verus!
