//! What is made of modes, monitors and logical monitors, and what is checked and written.

use vstd::prelude::*;
use vstd::utf8::*;

use crate::laws;
use crate::modes;
use crate::modes::Modes;
use crate::monitor;
use crate::monitor::{
    ConfigError, KanshiProfileEntry, LogicalMonitor, Monitor, MonitorApply, MonitorProperties,
    MonitorTransform,
};
use crate::order;
use crate::profile;
use crate::scale;
use crate::scale::Scale;
use crate::sway;
use crate::text;
use crate::wayland_observer::{OutputHeadSnapshot, OutputModeSnapshot};

verus! {

/// A mode of 1920 by 1080 and more lists the scales 1, 1.25, 1.5, 1.75 and 2, a mode of any
/// other size 1 and 2.
pub proof fn scales_are_listed_by_size(width: i32, height: i32, scales: Vec<Scale>)
    requires
        call_ensures(Modes::supported_scales, (width, height), scales),
    ensures
        scales@[0].bits == 0x3ff0_0000_0000_0000,
        scales@[scales@.len() - 1].bits == 0x4000_0000_0000_0000,
        width >= 1920 && height >= 1080 ==> {
            &&& scales@.len() == 5
            &&& scales@[1].bits == 0x3ff4_0000_0000_0000
            &&& scales@[2].bits == 0x3ff8_0000_0000_0000
            &&& scales@[3].bits == 0x3ffc_0000_0000_0000
        },
        !(width >= 1920 && height >= 1080) ==> scales@.len() == 2,
{
    let listed = scale::scale_views(scales@);
    laws::modes::scales_are_listed_in_order(width as int, height as int);
    assert(listed.len() == scales@.len());
    assert forall|i: int| 0 <= i < scales@.len() implies (#[trigger] scales@[i]).bits
        == listed[i].bits by {}
    assert(scales@[0].bits == listed[0].bits);
    assert(scales@[scales@.len() - 1].bits == listed[listed.len() - 1].bits);
}

/// The mode at a sway output keeps what sway reports, and can be shown at the scales of its
/// size; it is marked current where the output is driven in it.
pub proof fn sway_modes_are_made(
    output: sway::Output,
    mode: sway::Mode,
    made: Modes,
    asked: Scale,
    valid: bool,
    current: bool,
)
    requires
        call_ensures(Modes::new, (&output, &mode), made),
        call_ensures(Modes::is_valid_scale, (&made, &asked), valid),
        call_ensures(Modes::current, (&made,), current),
    ensures
        made.width == mode.width,
        made.height == mode.height,
        made.refresh_mhz == mode.refresh,
        made.id@ == modes::mode_id(mode.width as int, mode.height as int, mode.refresh as int),
        current <==> output.current_mode == Some(mode),
        mode.width >= 1920 && mode.height >= 1080 ==> (valid <==> {
            ||| asked.bits == 0x3ff0_0000_0000_0000
            ||| asked.bits == 0x3ff4_0000_0000_0000
            ||| asked.bits == 0x3ff8_0000_0000_0000
            ||| asked.bits == 0x3ffc_0000_0000_0000
            ||| asked.bits == 0x4000_0000_0000_0000
        }),
        !(mode.width >= 1920 && mode.height >= 1080) ==> (valid <==> asked.bits
            == 0x3ff0_0000_0000_0000 || asked.bits == 0x4000_0000_0000_0000),
{
    laws::modes::valid_scales_depend_on_the_size(
        mode.width,
        mode.height,
        mode.refresh,
        current,
        false,
        asked.bits,
    );
    laws::modes::sway_modes_are_marked_current(output@, mode);
    assert(made@.width == made.width);
}

/// The mode of a snapshot is made where its refresh rate is known, and keeps what the
/// snapshot says; it is marked current as the snapshot has it, or as told.
pub proof fn snapshot_modes_are_made(
    mode: OutputModeSnapshot,
    made: Option<Modes>,
    current: bool,
    told: Option<Modes>,
)
    requires
        call_ensures(Modes::from_snapshot, (&mode,), made),
        call_ensures(Modes::from_snapshot_with_current, (&mode, current), told),
    ensures
        made is Some <==> mode.refresh_mhz is Some,
        told is Some <==> mode.refresh_mhz is Some,
        mode.refresh_mhz matches Some(rate) ==> {
            &&& (made->0)@ == modes::described_mode(
                mode.width,
                mode.height,
                rate,
                mode.current,
                mode.preferred,
            )
            &&& (told->0)@ == modes::described_mode(
                mode.width,
                mode.height,
                rate,
                current,
                mode.preferred,
            )
        },
{
}

/// The name of a mode is spelled as it should be, and handed out as it is; two sway modes
/// are the same where width, height and rate are.
pub proof fn modes_are_named_and_compared(
    width: i32,
    height: i32,
    refresh_mhz: i32,
    id: String,
    mode: Modes,
    handed: &str,
    shown: &str,
    a: sway::Mode,
    b: sway::Mode,
    same: bool,
)
    requires
        call_ensures(Modes::mode_id, (width, height, refresh_mhz), id),
        call_ensures(Modes::get_id, (&mode,), handed),
        call_ensures(Modes::get_modestr, (&mode,), shown),
        call_ensures(Modes::is_current_mode, (&a, &b), same),
    ensures
        id@ == text::decimal(width as int) + seq!['x'] + text::decimal(height as int) + seq!['@']
            + text::decimal_milli(refresh_mhz as int) + seq!['H', 'z'],
        handed@ == mode.id@,
        shown@ == mode.id@,
        same <==> a.width == b.width && a.height == b.height && a.refresh == b.refresh,
{
    laws::modes::mode_names_spell_size_and_rate(width as int, height as int, refresh_mhz as int);
}

/// A monitor and a logical monitor are made of an output as it is reported.
pub proof fn monitors_are_made_of_outputs(
    output: sway::Output,
    made: Monitor,
    shown: LogicalMonitor,
    properties: MonitorProperties,
)
    requires
        call_ensures(Monitor::new, (&output,), made),
        call_ensures(LogicalMonitor::new, (&output,), shown),
        call_ensures(MonitorProperties::new, (&output,), properties),
    ensures
        made@ == monitor::output_monitor(output@),
        made.description.0@ == output.name@,
        made.description.1@ == output.make@,
        made.description.2@ == output.model@,
        made.description.3@ == output.serial@,
        made.modes@.len() == output.modes@.len(),
        made.properties@ == properties@,
        properties.width == Some(output.rect.width),
        properties.height == Some(output.rect.height),
        shown@ == monitor::output_logical(output@),
        shown.x_pos == output.rect.x,
        shown.y_pos == output.rect.y,
        shown.primary == output.primary,
        output.scale matches Some(factor) ==> shown.scale@ == factor@,
        output.scale is None ==> shown.scale.bits == 0x3ff0_0000_0000_0000,
        shown.monitors@.len() == 1,
        shown.monitors@[0].0@ == output.name@,
{
    laws::monitor::sway_monitors_tell_the_output(output@, 0);
    laws::monitor::sway_logical_monitors_tell_the_output(output@);
    laws::monitor::monitor_views_tell_every_field(made, properties, seq![], 0);
    assert(shown@.monitors.len() == shown.monitors@.len());
    assert(shown@.monitors[0].connector == shown.monitors@[0].0@);
    assert(shown@.x_pos == shown.x_pos);
    assert(shown@.scale == shown.scale@);
}

/// A monitor and, where the head is known well enough, a logical monitor are made of a head
/// as it is published.
pub proof fn monitors_are_made_of_heads(
    head: OutputHeadSnapshot,
    made: Monitor,
    shown: Option<LogicalMonitor>,
    properties: MonitorProperties,
)
    requires
        call_ensures(Monitor::from_snapshot, (&head,), made),
        call_ensures(LogicalMonitor::from_snapshot, (&head,), shown),
        call_ensures(MonitorProperties::from_snapshot, (&head,), properties),
    ensures
        made@ == monitor::head_monitor(head@),
        head.description matches Some(words) ==> made.description.0@ == words@,
        head.description is None ==> made.description.0@ == head.name@,
        made.description.1@.len() == 0,
        made.description.2@.len() == 0,
        made.description.3@.len() == 0,
        made.properties@ == properties@,
        match shown {
            Some(logical) => {
                &&& head.enabled
                &&& head.position == Some((logical.x_pos, logical.y_pos))
                &&& head.transform == Some(logical.transform)
                &&& head.scale is Some
                &&& logical.scale@ == (head.scale->0)@
                &&& logical.monitors@.len() == 1
                &&& logical.monitors@[0].0@ == made.description.0@
                &&& !logical.primary
            },
            None => !head.enabled || head.position is None || head.transform is None || head.scale
                is None,
        },
{
    laws::monitor::head_monitors_tell_the_head(head@);
    laws::monitor::head_logical_monitors_tell_the_head(head@);
    assert(made@.description.connector == made.description.0@);
    if let Some(logical) = shown {
        assert(logical@.monitors.len() == logical.monitors@.len());
        assert(logical@.monitors[0].connector == logical.monitors@[0].0@);
        assert(logical@.x_pos == logical.x_pos);
    }
}

/// A transform is read from its number and from the word that reports it, and written as its
/// number and as the word that sets it.
pub proof fn transforms_are_read_and_written(
    code: u32,
    read: Option<MonitorTransform>,
    transform: MonitorTransform,
    number: u32,
    word: &'static str,
    reported: Option<String>,
    heard: MonitorTransform,
)
    requires
        call_ensures(MonitorTransform::from_u32, (code,), read),
        call_ensures(MonitorTransform::to_u32, (transform,), number),
        call_ensures(MonitorTransform::to_sway, (transform,), word),
        call_ensures(MonitorTransform::from_sway, (&reported,), heard),
    ensures
        read is Some <==> code < 8,
        code == number ==> read == Some(transform),
        word@ == laws::monitor::word_behind_transform(number),
        number < 8,
        reported is None ==> heard == MonitorTransform::Normal,
        reported matches Some(name) ==> heard == monitor::reported_transform(Some(name@)),
{
    monitor::transform_codes_round_trip(transform, code);
    laws::monitor::transforms_have_numbers_and_words(code);
}

/// Two logical monitors are the same exactly where the five fields are, and two monitors
/// exactly where the names and the mode are.
pub proof fn monitors_are_compared_by_field(
    a: LogicalMonitor,
    b: LogicalMonitor,
    same: bool,
    c: Monitor,
    d: Monitor,
    alike: bool,
)
    requires
        call_ensures(LogicalMonitor::same_as, (&a, &b), same),
        call_ensures(Monitor::same_as, (&c, &d), alike),
    ensures
        same <==> {
            &&& a.x_pos == b.x_pos
            &&& a.y_pos == b.y_pos
            &&& a.transform == b.transform
            &&& a.scale.bits == b.scale.bits
            &&& a.monitors@.len() == 0 <==> b.monitors@.len() == 0
            &&& a.monitors@.len() > 0 && b.monitors@.len() > 0 ==> a.monitors@[0].0@
                == b.monitors@[0].0@
        },
        alike <==> {
            &&& c.description.0@ == d.description.0@
            &&& c.description.1@ == d.description.1@
            &&& c.description.2@ == d.description.2@
            &&& c.description.3@ == d.description.3@
            &&& c@.current_mode() == d@.current_mode()
        },
{
    laws::monitor::logical_monitors_are_equal_by_five_fields(a, b);
    laws::monitor::monitors_are_equal_by_names_and_mode(c, d);
}

/// What is handed to a hasher is what is compared.
pub proof fn identities_hold_what_is_compared(
    shown: LogicalMonitor,
    key: (i32, i32, u32, u64, Option<String>),
    held: Monitor,
    names: ((String, String, String, String), String),
)
    requires
        call_ensures(LogicalMonitor::identity, (&shown,), key),
        call_ensures(Monitor::identity, (&held,), names),
    ensures
        key.0 == shown.y_pos,
        key.1 == shown.x_pos,
        key.2 == shown.transform,
        key.3 == shown.scale.bits,
        shown.monitors@.len() > 0 ==> key.4 is Some && (key.4->0)@ == shown.monitors@[0].0@,
        shown.monitors@.len() == 0 ==> key.4 is None,
        names.0.0@ == held.description.0@,
        names.0.1@ == held.description.1@,
        names.0.2@ == held.description.2@,
        names.0.3@ == held.description.3@,
        names.1@ == held@.current_mode(),
{
    laws::monitor::identities_are_what_is_hashed(shown@, key, held@, names);
    assert(shown@.monitors.len() == shown.monitors@.len());
    if shown.monitors@.len() > 0 {
        assert(shown@.monitors[0].connector == shown.monitors@[0].0@);
    }
}

/// A monitor goes by its names, tells the mode that it is driven in, and finds a mode by its
/// name.
pub proof fn monitors_tell_name_and_mode(
    held: Monitor,
    name: String,
    current: &str,
    asked: &str,
    found: Option<&Modes>,
    shown: LogicalMonitor,
    shown_name: String,
    i: int,
)
    requires
        call_ensures(Monitor::get_dpy_name, (&held,), name),
        call_ensures(Monitor::get_current_mode, (&held,), current),
        call_ensures(Monitor::search_modes, (&held, asked), found),
        call_ensures(LogicalMonitor::get_dpy_name, (&shown,), shown_name),
    ensures
        name@ == held@.description.display_name(),
        shown.monitors@.len() > 0 ==> shown_name@ == monitor::identity_view(
            shown.monitors@[0],
        ).display_name(),
        current@ == held@.current_mode(),
        found is Some ==> (found->0).id@ == asked@,
        found is None && 0 <= i < held.modes@.len() ==> held.modes@[i].id@ != asked@,
{
    let listed = held@.modes;
    let named = monitor::has_id(asked@);
    order::lemma_find_first(listed, named);
    if found is None && 0 <= i < held.modes@.len() {
        assert(!named(listed[i]));
    }
    if shown.monitors@.len() > 0 {
        assert(shown@.monitors[0] == monitor::identity_view(shown.monitors@[0]));
    }
}

/// A request is checked as it should be: it passes exactly where the first monitor at the
/// connector has the mode, the mode can be shown at the scale, and the number stands for a
/// transform; and it is refused with the first of these that fails.
pub proof fn requests_are_checked(
    request: MonitorApply,
    monitors: &[Monitor],
    r: Result<(), ConfigError>,
    i: int,
    k: int,
)
    requires
        call_ensures(MonitorApply::verify, (&request, monitors), r),
        request.monitors@.len() > 0,
        0 <= i < monitors@.len(),
        monitors@[i].description.0@ == request.monitors@[0].0@,
        forall|j: int|
            0 <= j < i ==> (#[trigger] monitors@[j]).description.0@ != request.monitors@[0].0@,
        0 <= k < monitors@[i].modes@.len(),
        monitors@[i].modes@[k].id@ == request.monitors@[0].1@,
        forall|j: int|
            0 <= j < k ==> (#[trigger] monitors@[i].modes@[j]).id@ != request.monitors@[0].1@,
    ensures
        ({
            let valid = monitors@[i].modes@[k]@.valid_scale(request.scale.bits);
            &&& r is Ok <==> valid && request.transform < 8
            &&& !valid ==> {
                &&& r is Err
                &&& r->Err_0 is InvalidArgs
                &&& r->Err_0->InvalidArgs_0@ == "Invalid scale"@
            }
            &&& valid && request.transform >= 8 ==> {
                &&& r is Err
                &&& r->Err_0 is InvalidArgs
                &&& r->Err_0->InvalidArgs_0@ == "Invalid tranform"@
            }
        }),
{
    let views = monitor::monitor_views(monitors@);
    let listed = views[i].modes;
    assert(request@.monitors[0].connector == request.monitors@[0].0@);
    assert(request@.monitors[0].mode_id == request.monitors@[0].1@);
    assert(views[i] == monitors@[i]@);
    assert forall|j: int| 0 <= j < i implies (#[trigger] views[j]).description.connector
        != request@.monitors[0].connector by {
        assert(views[j] == monitors@[j]@);
    }
    assert(listed[k] == monitors@[i].modes@[k]@);
    assert forall|j: int| 0 <= j < k implies (#[trigger] listed[j]).id
        != request@.monitors[0].mode_id by {
        assert(listed[j] == monitors@[i].modes@[j]@);
    }
    laws::monitor::check_names_the_first_thing_wrong(request@, views, i, k);
}

/// A request for a connector where no monitor is, and one for a mode that the monitor does
/// not have, are refused as such.
pub proof fn requests_for_nothing_are_refused(
    request: MonitorApply,
    monitors: &[Monitor],
    r: Result<(), ConfigError>,
    i: int,
)
    requires
        call_ensures(MonitorApply::verify, (&request, monitors), r),
        request.monitors@.len() > 0,
    ensures
        (forall|j: int|
            0 <= j < monitors@.len() ==> (#[trigger] monitors@[j]).description.0@
                != request.monitors@[0].0@) ==> {
            &&& r is Err
            &&& r->Err_0 is Failed
            &&& r->Err_0->Failed_0@ == "Monitor not found"@
        },
        ({
            &&& 0 <= i < monitors@.len()
            &&& monitors@[i].description.0@ == request.monitors@[0].0@
            &&& forall|j: int|
                0 <= j < i ==> (#[trigger] monitors@[j]).description.0@ != request.monitors@[0].0@
            &&& forall|j: int|
                0 <= j < monitors@[i].modes@.len() ==> (#[trigger] monitors@[i].modes@[j]).id@
                    != request.monitors@[0].1@
        }) ==> {
            &&& r is Err
            &&& r->Err_0 is InvalidArgs
            &&& r->Err_0->InvalidArgs_0@ == "Invalid position"@
        },
{
    let views = monitor::monitor_views(monitors@);
    assert(request@.monitors[0].connector == request.monitors@[0].0@);
    assert(request@.monitors[0].mode_id == request.monitors@[0].1@);
    assert forall|j: int| 0 <= j < views.len() implies (#[trigger] views[j]).description.connector
        == monitors@[j].description.0@ by {}
    if forall|j: int|
        0 <= j < monitors@.len() ==> (#[trigger] monitors@[j]).description.0@
            != request.monitors@[0].0@ {
        assert forall|j: int|
            0 <= j < views.len() implies (#[trigger] views[j]).description.connector
            != request@.monitors[0].connector by {
            assert(monitors@[j].description.0@ != request.monitors@[0].0@);
        }
    }
    if 0 <= i < monitors@.len() {
        let listed = views[i].modes;
        assert forall|j: int| 0 <= j < listed.len() implies (#[trigger] listed[j]).id
            == monitors@[i].modes@[j].id@ by {}
        if forall|j: int|
            0 <= j < monitors@[i].modes@.len() ==> (#[trigger] monitors@[i].modes@[j]).id@
                != request.monitors@[0].1@ {
            assert forall|j: int| 0 <= j < listed.len() implies (#[trigger] listed[j]).id
                != request@.monitors[0].mode_id by {
                assert(monitors@[i].modes@[j].id@ != request.monitors@[0].1@);
            }
        }
    }
    laws::monitor::check_names_the_first_thing_wrong(request@, views, i, 0);
}

/// What is written for a request is its line, with the word of its transform, where the
/// monitor has the mode; otherwise nothing is.
pub proof fn requests_are_written(
    request: MonitorApply,
    held: Monitor,
    before: String,
    after: String,
    written: bool,
    k: int,
)
    requires
        request.monitors@.len() > 0,
        exists|file: &mut String|
            {
                &&& *file == before
                &&& *final(file) == after
                &&& #[trigger] call_ensures(
                    <MonitorApply as KanshiProfileEntry>::write_kanshi,
                    (&request, file, &held),
                    written,
                )
            },
    ensures
        written <==> request@.line(held@) is Some,
        !written ==> after@ == before@,
        0 <= k < held.modes@.len() && held.modes@[k].id@ == request.monitors@[0].1@ ==> {
            &&& written
            &&& after@ == before@ + ("\toutput \""@ + held@.description.display_name()
                + "\" mode "@ + request.monitors@[0].1@ + (" position "@ + text::decimal(
                request.x_pos as int,
            ) + ","@ + text::decimal(request.y_pos as int) + " transform "@
                + laws::monitor::word_behind_transform(request.transform) + " scale "@
                + request.scale.text@ + " enable\n"@))
        },
{
    laws::monitor::requests_are_written_as_asked(request@, held@, k);
    laws::monitor::lines_name_everything_in_order(
        held@.description.display_name(),
        request.monitors@[0].1@,
        request.x_pos,
        request.y_pos,
        request.transform,
        request.scale.text@,
    );
    assert(request@.monitors[0].mode_id == request.monitors@[0].1@);
    if 0 <= k < held.modes@.len() {
        assert(held@.modes[k].id == held.modes@[k].id@);
    }
}

/// What is written for a logical monitor is its line, with the word of its transform.
pub proof fn shown_monitors_are_written(
    shown: LogicalMonitor,
    held: Monitor,
    before: String,
    after: String,
    written: bool,
)
    requires
        exists|file: &mut String|
            {
                &&& *file == before
                &&& *final(file) == after
                &&& #[trigger] call_ensures(
                    <LogicalMonitor as KanshiProfileEntry>::write_kanshi,
                    (&shown, file, &held),
                    written,
                )
            },
    ensures
        written,
        ({
            let name = "\toutput \""@ + held@.description.display_name();
            let end = " position "@ + text::decimal(shown.x_pos as int) + ","@ + text::decimal(
                shown.y_pos as int,
            ) + " transform "@ + laws::monitor::word_behind_transform(shown.transform)
                + " scale "@ + shown.scale.text@ + " enable\n"@;
            &&& held@.current_mode() != "Unknown"@ ==> after@ == before@ + (name + "\" mode "@
                + held@.current_mode() + end)
            &&& held@.current_mode() == "Unknown"@ ==> after@ == before@ + (name + "\""@ + end)
        }),
{
    laws::monitor::shown_monitors_are_written_as_shown(shown@, held@);
    laws::monitor::lines_name_everything_in_order(
        held@.description.display_name(),
        held@.current_mode(),
        shown.x_pos,
        shown.y_pos,
        shown.transform,
        shown.scale.text@,
    );
}

/// A request finds the first monitor at its connector, the first logical monitor that shows
/// that connector first, and its mode by name; so does a logical monitor find its monitor.
pub proof fn requests_find_what_they_name(
    request: MonitorApply,
    monitors: &[Monitor],
    found: Option<&Monitor>,
    held: Monitor,
    mode: Option<String>,
    shown: &[LogicalMonitor],
    showing: Option<&LogicalMonitor>,
    entry: LogicalMonitor,
    entry_found: Option<&Monitor>,
    i: int,
)
    requires
        request.monitors@.len() > 0,
        entry.monitors@.len() > 0,
        call_ensures(MonitorApply::search_monitor, (&request, monitors), found),
        call_ensures(MonitorApply::get_modestr, (&request, &held), mode),
        call_ensures(MonitorApply::search_logical_monitor, (&request, shown), showing),
        call_ensures(
            <LogicalMonitor as KanshiProfileEntry>::find_monitor,
            (&entry, monitors),
            entry_found,
        ),
    ensures
        found is Some ==> (found->0)@.description.connector == request.monitors@[0].0@,
        found is None && 0 <= i < monitors@.len() ==> monitors@[i].description.0@
            != request.monitors@[0].0@,
        entry_found is Some ==> (entry_found->0)@.description.connector == entry.monitors@[0].0@,
        entry_found is None && 0 <= i < monitors@.len() ==> monitors@[i].description.0@
            != entry.monitors@[0].0@,
        mode is Some ==> (mode->0)@ == request.monitors@[0].1@,
        mode is None && 0 <= i < held.modes@.len() ==> held.modes@[i].id@
            != request.monitors@[0].1@,
        showing is Some ==> (showing->0)@.connector() == Some(request.monitors@[0].0@),
        showing is None && 0 <= i < shown@.len() ==> shown@[i]@.connector() != Some(
            request.monitors@[0].0@,
        ),
{
    let views = monitor::monitor_views(monitors@);
    let logicals = monitor::logical_views(shown@);
    let connector = request.monitors@[0].0@;
    let id = request.monitors@[0].1@;
    assert(request@.monitors[0].connector == connector);
    assert(request@.monitors[0].mode_id == id);
    assert(entry@.monitors[0].connector == entry.monitors@[0].0@);
    order::lemma_find_first(views, monitor::at_connector(connector));
    order::lemma_find_first(views, monitor::at_connector(entry.monitors@[0].0@));
    order::lemma_find_first(held@.modes, monitor::has_id(id));
    order::lemma_find_first(logicals, monitor::shows_connector(connector));
    if 0 <= i < monitors@.len() {
        assert(views[i] == monitors@[i]@);
    }
    if 0 <= i < held.modes@.len() {
        assert(held@.modes[i] == held.modes@[i]@);
    }
    if 0 <= i < shown@.len() {
        assert(logicals[i] == shown@[i]@);
    }
}

/// The line of a request is appended in UTF-8, and so is a whole profile to what is there.
pub proof fn lines_and_profiles_are_appended<T: KanshiProfileEntry>(
    request: MonitorApply,
    held: Monitor,
    before: Vec<u8>,
    after: Vec<u8>,
    monitors: &[Monitor],
    entries: &[T],
    old_text: String,
    new_text: String,
)
    requires
        exists|file: &mut Vec<u8>|
            {
                &&& *file == before
                &&& *final(file) == after
                &&& #[trigger] call_ensures(MonitorApply::save_kanshi, (&request, file, &held), ())
            },
        exists|buf: &mut String|
            {
                &&& *buf == old_text
                &&& *final(buf) == new_text
                &&& #[trigger] call_ensures(
                    profile::write_kanshi_profile::<T>,
                    (buf, monitors, entries),
                    (),
                )
            },
    ensures
        match request@.line(held@) {
            Some(line) => after@ == before@ + encode_utf8(line),
            None => after@ == before@,
        },
        new_text@ == old_text@ + profile::profile_text(
            monitor::monitor_views(monitors@),
            entries@,
        ),
{
    assert(before@ + Seq::<u8>::empty() =~= before@);
}

/// The names of the monitor at a head: its description, or its name where it has none, and
/// nothing else.
pub proof fn heads_go_by_description_or_name(
    name: &str,
    description: Option<&str>,
    names: (String, String, String, String),
)
    requires
        call_ensures(monitor::snapshot_identity, (name, description), names),
    ensures
        description matches Some(words) ==> names.0@ == words@,
        description is None ==> names.0@ == name@,
        names.1@.len() == 0,
        names.2@.len() == 0,
        names.3@.len() == 0,
{
    assert(monitor::identity_view(names).connector == names.0@);
    assert(monitor::identity_view(names).vendor == names.1@);
}

/// A profile goes by its name and says what it should, for requests and for what is shown
/// alike, and there is one exactly where there are monitors.
pub proof fn profiles_are_made<T: KanshiProfileEntry>(
    monitors: &[Monitor],
    entries: &[T],
    name: String,
    text: String,
    observed: Option<(String, String)>,
)
    requires
        call_ensures(profile::profile_name_for_monitors, (monitors,), name),
        call_ensures(profile::kanshi_profile_text::<T>, (monitors, entries), text),
        call_ensures(profile::observed_profile::<T>, (monitors, entries), observed),
    ensures
        ({
            let held = monitor::monitor_views(monitors@);
            &&& name@ == profile::profile_name(held)
            &&& text@ == profile::profile_text(held, entries@)
            &&& observed is Some <==> monitors@.len() > 0
            &&& observed is Some ==> (observed->0).0@ == name@ && (observed->0).1@ == text@
        }),
{
}

/// Monitors that are not active are those that are the same as none of the active ones, in
/// their order.
pub proof fn inactive_monitors_are_listed(
    monitors: &[Monitor],
    active: &[Monitor],
    disabled: Vec<&Monitor>,
    monitor: Monitor,
)
    requires
        call_ensures(profile::get_disabled_monitors, (monitors, active), disabled),
        monitors@.contains(monitor),
    ensures
        profile::borrowed_views(disabled@).contains(monitor@)
            <==> !laws::manager::monitor_among(monitor@, monitor::monitor_views(active@)),
{
    let views = monitor::monitor_views(monitors@);
    let off = profile::not_among(monitor::monitor_views(active@));
    let i = choose|i: int| 0 <= i < monitors@.len() && monitors@[i] == monitor;
    assert(views[i] == monitor@);
    laws::profile::monitors_are_told_apart_by_names_and_mode(
        monitor::monitor_views(active@),
        monitor@,
        disabled@,
        0,
    );
    let kept = views.filter(off);
    if kept.contains(monitor@) {
        let j = choose|j: int| 0 <= j < kept.len() && kept[j] == monitor@;
        views.lemma_filter_pred(off, j);
    }
    if off(monitor@) {
        views.lemma_filter_contains(off, i);
    }
}

/// Factors are made of their bits and their text, and compare as numbers.
pub proof fn factors_are_made_and_compared(
    bits: u64,
    words: &str,
    made: Scale,
    one: Scale,
    a: Scale,
    b: Scale,
    same: bool,
    usable: bool,
    nothing: bool,
)
    requires
        call_ensures(Scale::new, (bits, words), made),
        call_ensures(Scale::one, (), one),
        call_ensures(Scale::same_as, (&a, &b), same),
        call_ensures(Scale::is_positive_finite, (&a,), usable),
        call_ensures(Scale::is_at_most_zero, (&a,), nothing),
    ensures
        made.bits == bits,
        made.text@ == words@,
        one.bits == 0x3ff0_0000_0000_0000,
        one.text@ == "1"@,
        same <==> scale::same_number(a.bits, b.bits),
        usable <==> 0 < a.bits < 0x7ff0_0000_0000_0000,
        nothing <==> a.bits == 0 || 0x8000_0000_0000_0000 <= a.bits <= 0xfff0_0000_0000_0000,
{
}

} // verus!
