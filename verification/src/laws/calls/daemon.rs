//! What starting, watching and ending come to, and where kanshi's files are.

use vstd::prelude::*;

use crate::daemon;
use crate::daemon::{
    ConnectStep, DisplayBackend, ReadinessReply, SupervisorStep, SwayConnector,
};
use crate::kanshi;
use crate::kanshi::{CommandLine, KanshiPaths};
use crate::laws;
use crate::text;

verus! {

/// The daemon ends with the result of the watcher or of the observation; where either
/// did not come to its end, it ends with the reason behind a prefix that tells which.
pub proof fn daemon_ends_with_the_result_of_its_task(
    result: Result<Result<(), String>, String>,
    sway: Result<(), String>,
    wayland: Result<(), String>,
)
    requires
        call_ensures(daemon::finish_sway_watcher, (result,), sway),
        call_ensures(daemon::finish_wayland_task, (result,), wayland),
    ensures
        match result {
            Ok(Ok(())) => sway is Ok && wayland is Ok,
            Ok(Err(message)) => {
                &&& sway is Err && wayland is Err
                &&& sway->Err_0@ == message@
                &&& wayland->Err_0@ == message@
            },
            Err(message) => {
                &&& sway is Err && wayland is Err
                &&& sway->Err_0@ == "Display watcher task failed: "@ + message@
                &&& wayland->Err_0@ == "Wayland observer task failed: "@ + message@
            },
        },
{
}

/// A watcher that failed is started again, and its failure is logged behind a prefix; a
/// watcher that came to its end is not, and nothing is logged.
pub proof fn failed_watchers_are_started_again(
    result: Result<(), String>,
    restart: bool,
    line: Option<String>,
    step: SupervisorStep,
)
    requires
        call_ensures(daemon::watcher_should_restart, (&result,), restart),
        call_ensures(daemon::handle_watch_changes_result, (result,), line),
        call_ensures(daemon::supervise_sway_watcher, (result,), step),
    ensures
        match result {
            Ok(()) => !restart && line is None && step is Finish,
            Err(message) => {
                &&& restart
                &&& line is Some
                &&& (line->0)@ == "Display watcher stopped: "@ + message@
                &&& step is Restart
                &&& step->log@ == "Display watcher stopped: "@ + message@
            },
        },
{
}

/// An observation ends with its own result. Where it did not get ready, the daemon ends
/// with the failure of the observation, with the reason why its task did not come to its
/// end, or else with the reason why it did not get ready.
pub proof fn failed_start_ends_with_its_cause(
    result: Result<(), String>,
    ended: Result<(), String>,
    readiness: String,
    observer: Result<Result<(), String>, String>,
    error: String,
)
    requires
        call_ensures(daemon::finish_wayland_observer, (result,), ended),
        call_ensures(daemon::finish_wayland_startup_failure, (readiness, observer), error),
    ensures
        ended is Ok <==> result is Ok,
        result matches Err(message) ==> ended->Err_0@ == message@,
        match observer {
            Ok(Ok(())) => error@ == readiness@,
            Ok(Err(message)) => error@ == message@,
            Err(message) => error@ == "Wayland observer task failed: "@ + message@,
        },
{
}

/// Each failure counts, and from the third on the error is handed back with the count.
pub proof fn failures_are_counted_up_to_three(
    before: usize,
    after: usize,
    error: String,
    r: Result<(), String>,
)
    requires
        exists|attempts: &mut usize|
            {
                &&& *attempts == before
                &&& *final(attempts) == after
                &&& #[trigger] call_ensures(
                    daemon::record_wayland_pending_failure,
                    (attempts, error),
                    r,
                )
            },
    ensures
        after == before + 1,
        before < 2 ==> r is Ok,
        before >= 2 ==> r is Err && r->Err_0@ == "Wayland pending side effect failed after "@
            + seq!['3'] + " attempts: "@ + error@,
{
    laws::daemon::exhaustion_ends_with_the_error(error@);
}

/// COSMIC is observed through Wayland, anything else through sway where there is one.
/// A desktop is COSMIC where one of the names between the colons is `cosmic`, in any
/// case of letters.
pub proof fn backends_are_chosen_by_desktop(
    cosmic: bool,
    sway_available: bool,
    backend: DisplayBackend,
    names: Option<&str>,
    named: bool,
)
    requires
        call_ensures(daemon::select_display_backend, (cosmic, sway_available), backend),
        call_ensures(daemon::cosmic_desktop, (names,), named),
    ensures
        cosmic ==> backend == DisplayBackend::Wayland,
        !cosmic && sway_available ==> backend == DisplayBackend::Sway,
        !cosmic && !sway_available ==> backend == DisplayBackend::Unsupported,
        match names {
            Some(listed) => named <==> text::has_segment(listed@, ':', "cosmic"@),
            None => !named,
        },
{
}

/// Each failed try counts. The first two are followed by another one; after the third
/// COSMIC goes on without sway, and anything else gives up with the error.
pub proof fn failed_tries_are_counted_up_to_three(
    before: SwayConnector,
    after: SwayConnector,
    error: String,
    step: ConnectStep,
)
    requires
        exists|connector: &mut SwayConnector|
            {
                &&& *connector == before
                &&& *final(connector) == after
                &&& #[trigger] call_ensures(
                    SwayConnector::connect_sway_backend,
                    (connector, error),
                    step,
                )
            },
    ensures
        after.cosmic == before.cosmic,
        after.failures == before.failures + 1,
        before.failures < 2 ==> step is Retry,
        before.failures >= 2 && before.cosmic ==> step is Continue,
        before.failures >= 2 && !before.cosmic ==> step is Fail && step->message@
            == "Sway IPC backend unavailable after "@ + seq!['3'] + " attempts: "@ + error@,
{
    laws::daemon::third_failed_try_decides(before.cosmic, before.failures + 1, error@);
    laws::daemon::tasks_end_with_result_or_reason(seq![], error, true, step);
}

/// The observation is ready where the first state was observed, may get ready later where
/// nothing came in time, and does not get ready where it failed or is gone.
pub proof fn readiness_is_as_replied(
    reply: ReadinessReply,
    r: Result<bool, String>,
    connector: SwayConnector,
    cosmic: bool,
)
    requires
        call_ensures(daemon::wait_for_wayland_readiness, (reply,), r),
        call_ensures(SwayConnector::new, (cosmic,), connector),
    ensures
        match reply {
            ReadinessReply::Ready => r is Ok && r->Ok_0,
            ReadinessReply::TimedOut => r is Ok && !r->Ok_0,
            ReadinessReply::Failed { message } => r is Err && r->Err_0@ == message@,
            ReadinessReply::Closed => r is Err && r->Err_0@
                == "Wayland observer readiness channel closed"@,
        },
        connector.cosmic == cosmic,
        connector.failures == 0,
{
}

/// Paths are joined with one slash, the default directory is below the home directory,
/// and the files are in the directory that the resource names, or else in the default
/// one.
pub proof fn paths_are_found(
    base: &str,
    name: &str,
    joined: String,
    home: &str,
    default: String,
    resource: Result<String, String>,
    paths: KanshiPaths,
    file: String,
)
    requires
        call_ensures(kanshi::join_path, (base, name), joined),
        call_ensures(kanshi::default_kanshi_path, (home,), default),
        call_ensures(kanshi::get_kanshi_paths, (home, resource), paths),
        call_ensures(KanshiPaths::profile_path, (&paths, name), file),
    ensures
        ({
            let absolute = name@.len() > 0 && name@[0] == '/';
            let slashed = base@.len() == 0 || base@.last() == '/';
            &&& absolute ==> joined@ == name@
            &&& !absolute && slashed ==> joined@ == base@ + name@
            &&& !absolute && !slashed ==> joined@ == base@ + seq!['/'] + name@
        }),
        default@ == home@ + "/.config/regolith3/kanshi"@,
        ({
            let directory = match resource {
                Ok(path) => path@,
                Err(_) => home@ + "/.config/regolith3/kanshi"@,
            };
            &&& paths.profiles@ == kanshi::joined_path(directory, "profiles"@)
            &&& paths.config@ == kanshi::joined_path(directory, "config"@)
        }),
        file@ == kanshi::joined_path(paths.profiles@, name@),
{
    laws::kanshi::names_are_put_behind_their_directory(base@, name@);
    laws::kanshi::files_are_found_by_name(home@, base@, paths);
    if base@.len() == 0 {
        assert(base@ + name@ =~= name@);
    }
}

/// A profile is written exactly where its file cannot be read or holds another text. To
/// make kanshi read it, the running kanshi is ended and one with the configuration is
/// started.
pub proof fn changed_profiles_are_written_and_read(
    existing: Option<String>,
    profile_text: &str,
    write: bool,
    paths: KanshiPaths,
    commands: (CommandLine, CommandLine),
)
    requires
        call_ensures(
            kanshi::write_kanshi_profile_if_changed,
            (&existing, profile_text),
            write,
        ),
        call_ensures(kanshi::reload_kanshi, (&paths,), commands),
    ensures
        write <==> existing is None || (existing->0)@ != profile_text@,
        commands.0.program@ == "killall"@,
        commands.0.args@.len() == 1,
        commands.0.args@[0]@ == "kanshi"@,
        commands.1.program@ == "kanshi"@,
        commands.1.args@.len() == 2,
        commands.1.args@[0]@ == "-c"@,
        commands.1.args@[1]@ == paths.config@,
{
    let first = commands.0;
    let second = commands.1;
    laws::kanshi::command_views_tell_every_argument(first, 0);
    laws::kanshi::command_views_tell_every_argument(second, 0);
    laws::kanshi::command_views_tell_every_argument(second, 1);
}

} // verus!
