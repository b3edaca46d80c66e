//! How monitors and logical monitors come from what is observed, when two of them
//! are the same, and what is checked and written for them.

use vstd::prelude::*;

use crate::modes;
use crate::monitor;
use crate::monitor::{
    ConfigError, ConfigErrorView, IdentityView, KanshiProfileEntry, LogicalMonitor,
    LogicalMonitorView, Monitor, MonitorApply, MonitorApplyView, MonitorProperties,
    MonitorTransform, MonitorView,
};
use crate::order;
use crate::sway;
use crate::sway::Output;
use crate::text;
use crate::wayland_observer::{OutputHeadSnapshotView, OutputModeSnapshot};

verus! {

/// Two logical monitors are equal exactly where horizontal position, vertical
/// position, transform, scale and the connector of the first monitor are each the
/// same. Any one of the five that differs makes them unequal, and nothing else
/// does.
pub proof fn logical_monitors_are_equal_by_five_fields(a: LogicalMonitor, b: LogicalMonitor)
    ensures
        vstd::std_specs::cmp::PartialEqSpec::eq_spec(&a, &b) <==> {
            &&& a.x_pos == b.x_pos
            &&& a.y_pos == b.y_pos
            &&& a.transform == b.transform
            &&& a.scale.bits == b.scale.bits
            &&& a.monitors@.len() == 0 <==> b.monitors@.len() == 0
            &&& a.monitors@.len() > 0 && b.monitors@.len() > 0 ==> a.monitors@[0].0@
                == b.monitors@[0].0@
        },
{
    if a.monitors@.len() > 0 && b.monitors@.len() > 0 {
        assert(a@.connector() == Some(a.monitors@[0].0@));
        assert(b@.connector() == Some(b.monitors@[0].0@));
    }
}

/// Two monitors are equal exactly where connector, vendor, product, serial and
/// the mode that they are driven in are each the same.
pub proof fn monitors_are_equal_by_names_and_mode(a: Monitor, b: Monitor)
    ensures
        vstd::std_specs::cmp::PartialEqSpec::eq_spec(&a, &b) <==> {
            &&& a.description.0@ == b.description.0@
            &&& a.description.1@ == b.description.1@
            &&& a.description.2@ == b.description.2@
            &&& a.description.3@ == b.description.3@
            &&& a@.current_mode() == b@.current_mode()
        },
{
}

/// What is handed to a hasher for a logical monitor: its vertical and horizontal
/// position, its transform, the bits of its scale, and the connector of its first
/// monitor. For a monitor: its four names and the mode that it is driven in.
pub proof fn identities_are_what_is_hashed(
    shown: LogicalMonitorView,
    key: (i32, i32, u32, u64, Option<String>),
    monitor: MonitorView,
    names: ((String, String, String, String), String),
)
    ensures
        shown.identity().0 == shown.y_pos,
        shown.identity().1 == shown.x_pos,
        shown.identity().2 == shown.transform,
        shown.identity().3 == shown.scale.bits,
        shown.monitors.len() > 0 ==> shown.identity().4 == Some(shown.monitors[0].connector),
        shown.monitors.len() == 0 ==> shown.identity().4 is None,
        monitor::logical_key(key).0 == key.0,
        monitor::logical_key(key).1 == key.1,
        monitor::logical_key(key).2 == key.2,
        monitor::logical_key(key).3 == key.3,
        match key.4 {
            Some(connector) => monitor::logical_key(key).4 == Some(connector@),
            None => monitor::logical_key(key).4 is None,
        },
        monitor.identity().0.connector == monitor.description.connector,
        monitor.identity().0.vendor == monitor.description.vendor,
        monitor.identity().0.product == monitor.description.product,
        monitor.identity().0.serial == monitor.description.serial,
        monitor.identity().1 == monitor.current_mode(),
        monitor::monitor_key(names).0.connector == names.0.0@,
        monitor::monitor_key(names).0.vendor == names.0.1@,
        monitor::monitor_key(names).0.product == names.0.2@,
        monitor::monitor_key(names).0.serial == names.0.3@,
        monitor::monitor_key(names).1 == names.1@,
{
}

/// A monitor is driven in the first of its modes that is marked current, and in an
/// unknown mode where none is.
pub proof fn first_marked_mode_is_the_current_one(monitor: MonitorView, i: int)
    ensures
        ({
            let marked = |k: int| monitor.modes[k].properties.current == Some(true);
            &&& 0 <= i < monitor.modes.len() && marked(i) && (forall|k: int|
                #![trigger monitor.modes[k]]
                0 <= k < i ==> !marked(k)) ==> monitor.current_mode() == monitor.modes[i].id
            &&& (forall|k: int|
                #![trigger monitor.modes[k]]
                0 <= k < monitor.modes.len() ==> !marked(k)) ==> monitor.current_mode()
                == "Unknown"@
        }),
{
    let current = monitor::is_current();
    let marked = |k: int| monitor.modes[k].properties.current == Some(true);
    if 0 <= i < monitor.modes.len() && marked(i) && (forall|k: int|
        #![trigger monitor.modes[k]]
        0 <= k < i ==> !marked(k)) {
        assert forall|k: int| 0 <= k < i implies !current(#[trigger] monitor.modes[k]) by {
            assert(!marked(k));
        }
        order::lemma_found(monitor.modes, current, i);
    }
    if forall|k: int| #![trigger monitor.modes[k]] 0 <= k < monitor.modes.len() ==> !marked(k) {
        assert forall|k: int| 0 <= k < monitor.modes.len() implies !current(
            #[trigger] monitor.modes[k],
        ) by {
            assert(!marked(k));
        }
        order::lemma_not_found(monitor.modes, current);
    }
}

/// A mode is looked up by its name, and the first of that name is found; where no
/// mode has the name, none is.
pub proof fn first_mode_of_a_name_is_found(monitor: MonitorView, id: Seq<char>, i: int)
    ensures
        0 <= i < monitor.modes.len() && monitor.modes[i].id == id && (forall|k: int|
            0 <= k < i ==> (#[trigger] monitor.modes[k]).id != id) ==> monitor.mode(id) == Some(
            monitor.modes[i],
        ),
        (forall|k: int| 0 <= k < monitor.modes.len() ==> (#[trigger] monitor.modes[k]).id != id)
            ==> monitor.mode(id) is None,
{
    let named = monitor::has_id(id);
    if 0 <= i < monitor.modes.len() && monitor.modes[i].id == id && (forall|k: int|
        0 <= k < i ==> (#[trigger] monitor.modes[k]).id != id) {
        assert forall|k: int| 0 <= k < i implies !named(#[trigger] monitor.modes[k]) by {}
        order::lemma_found(monitor.modes, named, i);
    }
    if forall|k: int| 0 <= k < monitor.modes.len() ==> (#[trigger] monitor.modes[k]).id != id {
        assert forall|k: int| 0 <= k < monitor.modes.len() implies !named(
            #[trigger] monitor.modes[k],
        ) by {}
        order::lemma_not_found(monitor.modes, named);
    }
}

/// A request and a logical monitor are about the first monitor at the connector of
/// the first monitor that they name; where no monitor is there, they are about
/// none.
pub proof fn first_monitor_at_a_connector_is_found(
    request: MonitorApplyView,
    shown: LogicalMonitorView,
    monitors: Seq<MonitorView>,
    i: int,
)
    ensures
        ({
            let at = |connector: Seq<char>, k: int| monitors[k].description.connector == connector;
            let first = |connector: Seq<char>| {
                &&& 0 <= i < monitors.len()
                &&& at(connector, i)
                &&& forall|k: int| #![trigger monitors[k]] 0 <= k < i ==> !at(connector, k)
            };
            let nowhere = |connector: Seq<char>|
                forall|k: int|
                    #![trigger monitors[k]]
                    0 <= k < monitors.len() ==> !at(connector, k);
            &&& first(request.monitors[0].connector) ==> request.monitor(monitors) == Some(
                monitors[i],
            )
            &&& nowhere(request.monitors[0].connector) ==> request.monitor(monitors) is None
            &&& first(shown.monitors[0].connector) ==> shown.monitor(monitors) == Some(monitors[i])
            &&& nowhere(shown.monitors[0].connector) ==> shown.monitor(monitors) is None
        }),
{
    lemma_at_connector(monitors, request.monitors[0].connector, i);
    lemma_at_connector(monitors, shown.monitors[0].connector, i);
}

proof fn lemma_at_connector(monitors: Seq<MonitorView>, connector: Seq<char>, i: int)
    ensures
        0 <= i < monitors.len() && monitors[i].description.connector == connector && (forall|k: int|
            0 <= k < i ==> (#[trigger] monitors[k]).description.connector != connector)
            ==> order::find_first(monitors, monitor::at_connector(connector)) == Some(monitors[i]),
        (forall|k: int|
            0 <= k < monitors.len() ==> (#[trigger] monitors[k]).description.connector != connector)
            ==> order::find_first(monitors, monitor::at_connector(connector)) is None,
{
    let at = monitor::at_connector(connector);
    if 0 <= i < monitors.len() && monitors[i].description.connector == connector && (forall|k: int|
        0 <= k < i ==> (#[trigger] monitors[k]).description.connector != connector) {
        assert forall|k: int| 0 <= k < i implies !at(#[trigger] monitors[k]) by {}
        order::lemma_found(monitors, at, i);
    }
    if forall|k: int|
        0 <= k < monitors.len() ==> (#[trigger] monitors[k]).description.connector != connector {
        assert forall|k: int| 0 <= k < monitors.len() implies !at(#[trigger] monitors[k]) by {}
        order::lemma_not_found(monitors, at);
    }
}

/// A check looks for the monitor first, then for the mode, then at the scale, and
/// last at the transform, and names the first of them that is wrong: a connector
/// where no monitor is, a mode that the monitor does not have, a scale that the mode
/// cannot be shown at, and a number that stands for no transform. Where none of
/// them is wrong the request passes.
pub proof fn check_names_the_first_thing_wrong(
    request: MonitorApplyView,
    monitors: Seq<MonitorView>,
    i: int,
    k: int,
)
    ensures
        ({
            let target = request.monitors[0];
            let verdict = request.verdict(monitors);
            let found = {
                &&& 0 <= i < monitors.len()
                &&& monitors[i].description.connector == target.connector
                &&& forall|j: int|
                    0 <= j < i ==> (#[trigger] monitors[j]).description.connector
                        != target.connector
            };
            let listed = monitors[i].modes;
            let named = {
                &&& 0 <= k < listed.len()
                &&& listed[k].id == target.mode_id
                &&& forall|j: int| 0 <= j < k ==> (#[trigger] listed[j]).id != target.mode_id
            };
            &&& (forall|j: int|
                0 <= j < monitors.len() ==> (#[trigger] monitors[j]).description.connector
                    != target.connector) ==> verdict == Err::<(), ConfigErrorView>(
                ConfigErrorView::Failed("Monitor not found"@),
            )
            &&& found && (forall|j: int|
                0 <= j < listed.len() ==> (#[trigger] listed[j]).id != target.mode_id) ==> verdict
                == Err::<(), ConfigErrorView>(ConfigErrorView::InvalidArgs("Invalid position"@))
            &&& found && named && !listed[k].valid_scale(request.scale.bits) ==> verdict == Err::<
                (),
                ConfigErrorView,
            >(ConfigErrorView::InvalidArgs("Invalid scale"@))
            &&& found && named && listed[k].valid_scale(request.scale.bits) && request.transform
                >= 8 ==> verdict == Err::<(), ConfigErrorView>(
                ConfigErrorView::InvalidArgs("Invalid tranform"@),
            )
            &&& found && named && listed[k].valid_scale(request.scale.bits) && request.transform < 8
                ==> verdict is Ok
        }),
{
    lemma_at_connector(monitors, request.monitors[0].connector, i);
    first_mode_of_a_name_is_found(monitors[i], request.monitors[0].mode_id, k);
}

/// A monitor goes by vendor, product and serial with a space between neighbours; one
/// of which none of the three is known goes by its connector.
pub proof fn monitors_go_by_vendor_product_and_serial(names: IdentityView)
    ensures
        names.vendor == Seq::<char>::empty() && names.product == Seq::<char>::empty()
            && names.serial == Seq::<char>::empty() ==> names.display_name() == names.connector,
        names.vendor != Seq::<char>::empty() || names.product != Seq::<char>::empty()
            || names.serial != Seq::<char>::empty() ==> names.display_name() == names.vendor + seq![
            ' ',
        ] + names.product + seq![' '] + names.serial,
{
    reveal_strlit(" ");
    assert(" "@ =~= seq![' ']);
    if names.vendor.len() == 0 && names.product.len() == 0 && names.serial.len() == 0 {
        assert(names.vendor =~= seq![]);
        assert(names.product =~= seq![]);
        assert(names.serial =~= seq![]);
    }
}

/// The number that stands for each transform, the transform that each number
/// stands for, and the word by which each is set.
pub proof fn transforms_have_numbers_and_words(code: u32)
    ensures
        MonitorTransform::Normal.code() == 0,
        MonitorTransform::Left.code() == 1,
        MonitorTransform::Down.code() == 2,
        MonitorTransform::Right.code() == 3,
        MonitorTransform::Flipped.code() == 4,
        MonitorTransform::FlippedLeft.code() == 5,
        MonitorTransform::FlippedDown.code() == 6,
        MonitorTransform::FlippedRight.code() == 7,
        monitor::transform_of(0) == Some(MonitorTransform::Normal),
        monitor::transform_of(1) == Some(MonitorTransform::Left),
        monitor::transform_of(2) == Some(MonitorTransform::Down),
        monitor::transform_of(3) == Some(MonitorTransform::Right),
        monitor::transform_of(4) == Some(MonitorTransform::Flipped),
        monitor::transform_of(5) == Some(MonitorTransform::FlippedLeft),
        monitor::transform_of(6) == Some(MonitorTransform::FlippedDown),
        monitor::transform_of(7) == Some(MonitorTransform::FlippedRight),
        code >= 8 ==> monitor::transform_of(code) is None,
        MonitorTransform::Normal.sway_word() == "normal"@,
        MonitorTransform::Left.sway_word() == "270"@,
        MonitorTransform::Down.sway_word() == "180"@,
        MonitorTransform::Right.sway_word() == "90"@,
        MonitorTransform::Flipped.sway_word() == "flipped"@,
        MonitorTransform::FlippedLeft.sway_word() == "flipped-270"@,
        MonitorTransform::FlippedDown.sway_word() == "flipped-180"@,
        MonitorTransform::FlippedRight.sway_word() == "flipped-90"@,
{
}

proof fn lemma_transform_words()
    ensures
        forall|a: u32, b: u32|
            a < 8 && b < 8 && a != b ==> #[trigger] monitor::transform_word(a)
                != #[trigger] monitor::transform_word(b),
{
    reveal_strlit("normal");
    reveal_strlit("90");
    reveal_strlit("180");
    reveal_strlit("270");
    reveal_strlit("flipped");
    reveal_strlit("flipped-90");
    reveal_strlit("flipped-180");
    reveal_strlit("flipped-270");
    assert("normal"@.len() == 6 && "90"@.len() == 2 && "180"@.len() == 3 && "270"@.len() == 3);
    assert("flipped"@.len() == 7 && "flipped-90"@.len() == 10 && "flipped-180"@.len() == 11
        && "flipped-270"@.len() == 11);
    assert("180"@[0] != "270"@[0]);
    assert("flipped-180"@[8] != "flipped-270"@[8]);
}

/// The word that is written behind `transform` in the line of a profile: for each of
/// the numbers that stand for a transform its own word, and for any other number the
/// word for none.
pub open spec fn word_behind_transform(code: u32) -> Seq<char> {
    if code == 1 {
        "270"@
    } else if code == 2 {
        "180"@
    } else if code == 3 {
        "90"@
    } else if code == 4 {
        "flipped"@
    } else if code == 5 {
        "flipped-270"@
    } else if code == 6 {
        "flipped-180"@
    } else if code == 7 {
        "flipped-90"@
    } else {
        "normal"@
    }
}

/// The line of a profile that switches a monitor on names the monitor in quotes,
/// then its mode where one is given, its position, its transform by its word, and
/// its scale.
pub proof fn lines_name_everything_in_order(
    name: Seq<char>,
    id: Seq<char>,
    x_pos: i32,
    y_pos: i32,
    transform: u32,
    scale: Seq<char>,
)
    ensures
        monitor::transform_word(transform) == word_behind_transform(transform),
        ({
            let end = " position "@ + text::decimal(x_pos as int) + ","@ + text::decimal(
                y_pos as int,
            ) + " transform "@ + word_behind_transform(transform) + " scale "@ + scale
                + " enable\n"@;
            &&& monitor::enabling_line(name, Some(id), x_pos, y_pos, transform, scale)
                == "\toutput \""@ + name + "\" mode "@ + id + end
            &&& monitor::enabling_line(name, None, x_pos, y_pos, transform, scale)
                == "\toutput \""@ + name + "\""@ + end
        }),
{
    let end = " position "@ + text::decimal(x_pos as int) + ","@ + text::decimal(y_pos as int)
        + " transform "@ + word_behind_transform(transform) + " scale "@ + scale + " enable\n"@;
    reveal_strlit("\" mode ");
    reveal_strlit("\"");
    reveal_strlit(" mode ");
    assert("\" mode "@ =~= "\""@ + " mode "@);
    assert(monitor::enabling_line(name, Some(id), x_pos, y_pos, transform, scale)
        =~= "\toutput \""@ + name + "\" mode "@ + id + end);
    assert(monitor::enabling_line(name, None, x_pos, y_pos, transform, scale)
        =~= "\toutput \""@ + name + "\""@ + end);
}

proof fn lemma_cut(front: Seq<char>, a: Seq<char>, b: Seq<char>, back: Seq<char>)
    requires
        front + a + back == front + b + back,
    ensures
        a == b,
{
    let left = front + a + back;
    let right = front + b + back;
    assert(left.len() == right.len());
    assert(a =~= left.subrange(front.len() as int, (front.len() + a.len()) as int));
    assert(b =~= right.subrange(front.len() as int, (front.len() + b.len()) as int));
}

/// Two lines that differ in one thing only are different lines: two transforms that
/// numbers stand for, two positions, two scales, two modes or two names never give
/// the same line.
pub proof fn lines_tell_everything_apart(
    name: Seq<char>,
    other_name: Seq<char>,
    id: Seq<char>,
    other_id: Seq<char>,
    position: (i32, i32),
    other_position: (i32, i32),
    transform: u32,
    other_transform: u32,
    scale: Seq<char>,
    other_scale: Seq<char>,
)
    ensures
        ({
            let line = |n: Seq<char>, m: Seq<char>, p: (i32, i32), t: u32, s: Seq<char>|
                monitor::enabling_line(n, Some(m), p.0, p.1, t, s);
            &&& name != other_name ==> line(name, id, position, transform, scale) != line(
                other_name,
                id,
                position,
                transform,
                scale,
            )
            &&& id != other_id ==> line(name, id, position, transform, scale) != line(
                name,
                other_id,
                position,
                transform,
                scale,
            )
            &&& position != other_position ==> line(name, id, position, transform, scale) != line(
                name,
                id,
                other_position,
                transform,
                scale,
            )
            &&& transform < 8 && other_transform < 8 && transform != other_transform ==> line(
                name,
                id,
                position,
                transform,
                scale,
            ) != line(name, id, position, other_transform, scale)
            &&& scale != other_scale ==> line(name, id, position, transform, scale) != line(
                name,
                id,
                position,
                transform,
                other_scale,
            )
        }),
{
    lemma_names_apart(name, other_name, id, position, transform, scale);
    lemma_modes_apart(name, id, other_id, position, transform, scale);
    lemma_positions_apart(name, id, position, other_position, transform, scale);
    lemma_turns_apart(name, id, position, transform, other_transform, scale);
    lemma_scales_apart(name, id, position, transform, scale, other_scale);
}

/// The text of a position.
spec fn place(p: (i32, i32)) -> Seq<char> {
    text::decimal(p.0 as int) + ","@ + text::decimal(p.1 as int)
}

/// A line, cut into its parts.
spec fn cut_line(
    name: Seq<char>,
    id: Seq<char>,
    place: Seq<char>,
    word: Seq<char>,
    scale: Seq<char>,
) -> Seq<char> {
    "\toutput \""@ + name + "\""@ + (" mode "@ + id) + " position "@ + place + " transform "@ + word
        + " scale "@ + scale + " enable\n"@
}

proof fn lemma_cut_line(
    name: Seq<char>,
    id: Seq<char>,
    position: (i32, i32),
    transform: u32,
    scale: Seq<char>,
)
    ensures
        monitor::enabling_line(name, Some(id), position.0, position.1, transform, scale)
            == cut_line(name, id, place(position), monitor::transform_word(transform), scale),
{
    assert(monitor::enabling_line(name, Some(id), position.0, position.1, transform, scale)
        =~= cut_line(name, id, place(position), monitor::transform_word(transform), scale));
}

proof fn lemma_names_apart(
    name: Seq<char>,
    other_name: Seq<char>,
    id: Seq<char>,
    position: (i32, i32),
    transform: u32,
    scale: Seq<char>,
)
    ensures
        name != other_name ==> monitor::enabling_line(
            name,
            Some(id),
            position.0,
            position.1,
            transform,
            scale,
        ) != monitor::enabling_line(
            other_name,
            Some(id),
            position.0,
            position.1,
            transform,
            scale,
        ),
{
    lemma_cut_line(name, id, position, transform, scale);
    lemma_cut_line(other_name, id, position, transform, scale);
    let at = place(position);
    let word = monitor::transform_word(transform);
    let front = "\toutput \""@;
    let back = "\""@ + (" mode "@ + id) + " position "@ + at + " transform "@ + word + " scale "@
        + scale + " enable\n"@;
    assert(cut_line(name, id, at, word, scale) =~= front + name + back);
    assert(cut_line(other_name, id, at, word, scale) =~= front + other_name + back);
    if cut_line(name, id, at, word, scale) == cut_line(other_name, id, at, word, scale) {
        lemma_cut(front, name, other_name, back);
    }
}

proof fn lemma_modes_apart(
    name: Seq<char>,
    id: Seq<char>,
    other_id: Seq<char>,
    position: (i32, i32),
    transform: u32,
    scale: Seq<char>,
)
    ensures
        id != other_id ==> monitor::enabling_line(
            name,
            Some(id),
            position.0,
            position.1,
            transform,
            scale,
        ) != monitor::enabling_line(
            name,
            Some(other_id),
            position.0,
            position.1,
            transform,
            scale,
        ),
{
    lemma_cut_line(name, id, position, transform, scale);
    lemma_cut_line(name, other_id, position, transform, scale);
    let at = place(position);
    let word = monitor::transform_word(transform);
    let front = "\toutput \""@ + name + "\""@ + " mode "@;
    let back = " position "@ + at + " transform "@ + word + " scale "@ + scale + " enable\n"@;
    assert(cut_line(name, id, at, word, scale) =~= front + id + back);
    assert(cut_line(name, other_id, at, word, scale) =~= front + other_id + back);
    if cut_line(name, id, at, word, scale) == cut_line(name, other_id, at, word, scale) {
        lemma_cut(front, id, other_id, back);
    }
}

proof fn lemma_positions_apart(
    name: Seq<char>,
    id: Seq<char>,
    position: (i32, i32),
    other_position: (i32, i32),
    transform: u32,
    scale: Seq<char>,
)
    ensures
        position != other_position ==> monitor::enabling_line(
            name,
            Some(id),
            position.0,
            position.1,
            transform,
            scale,
        ) != monitor::enabling_line(
            name,
            Some(id),
            other_position.0,
            other_position.1,
            transform,
            scale,
        ),
{
    lemma_cut_line(name, id, position, transform, scale);
    lemma_cut_line(name, id, other_position, transform, scale);
    let at = place(position);
    let other_at = place(other_position);
    let word = monitor::transform_word(transform);
    let front = "\toutput \""@ + name + "\""@ + (" mode "@ + id) + " position "@;
    let back = " transform "@ + word + " scale "@ + scale + " enable\n"@;
    assert(cut_line(name, id, at, word, scale) =~= front + at + back);
    assert(cut_line(name, id, other_at, word, scale) =~= front + other_at + back);
    if cut_line(name, id, at, word, scale) == cut_line(name, id, other_at, word, scale) {
        lemma_cut(front, at, other_at, back);
        lemma_places(position, other_position);
    }
}

proof fn lemma_turns_apart(
    name: Seq<char>,
    id: Seq<char>,
    position: (i32, i32),
    transform: u32,
    other_transform: u32,
    scale: Seq<char>,
)
    ensures
        ({
            let turned = |code: u32|
                monitor::enabling_line(name, Some(id), position.0, position.1, code, scale);
            transform < 8 && other_transform < 8 && transform != other_transform ==> turned(
                transform,
            ) != turned(other_transform)
        }),
{
    lemma_cut_line(name, id, position, transform, scale);
    lemma_cut_line(name, id, position, other_transform, scale);
    let at = place(position);
    let word = monitor::transform_word(transform);
    let other_word = monitor::transform_word(other_transform);
    let front = "\toutput \""@ + name + "\""@ + (" mode "@ + id) + " position "@ + at
        + " transform "@;
    let back = " scale "@ + scale + " enable\n"@;
    assert(cut_line(name, id, at, word, scale) =~= front + word + back);
    assert(cut_line(name, id, at, other_word, scale) =~= front + other_word + back);
    if cut_line(name, id, at, word, scale) == cut_line(name, id, at, other_word, scale) {
        lemma_cut(front, word, other_word, back);
        lemma_transform_words();
    }
}

proof fn lemma_scales_apart(
    name: Seq<char>,
    id: Seq<char>,
    position: (i32, i32),
    transform: u32,
    scale: Seq<char>,
    other_scale: Seq<char>,
)
    ensures
        scale != other_scale ==> monitor::enabling_line(
            name,
            Some(id),
            position.0,
            position.1,
            transform,
            scale,
        ) != monitor::enabling_line(
            name,
            Some(id),
            position.0,
            position.1,
            transform,
            other_scale,
        ),
{
    lemma_cut_line(name, id, position, transform, scale);
    lemma_cut_line(name, id, position, transform, other_scale);
    let at = place(position);
    let word = monitor::transform_word(transform);
    let front = "\toutput \""@ + name + "\""@ + (" mode "@ + id) + " position "@ + at
        + " transform "@ + word + " scale "@;
    let back = " enable\n"@;
    assert(cut_line(name, id, at, word, scale) =~= front + scale + back);
    assert(cut_line(name, id, at, word, other_scale) =~= front + other_scale + back);
    if cut_line(name, id, at, word, scale) == cut_line(name, id, at, word, other_scale) {
        lemma_cut(front, scale, other_scale, back);
    }
}

proof fn lemma_places(a: (i32, i32), b: (i32, i32))
    requires
        text::decimal(a.0 as int) + ","@ + text::decimal(a.1 as int) == text::decimal(b.0 as int)
            + ","@ + text::decimal(b.1 as int),
    ensures
        a == b,
{
    reveal_strlit(",");
    assert(","@ =~= seq![',']);
    lemma_no_comma(a.0 as int);
    lemma_no_comma(b.0 as int);
    text::lemma_split_at(
        text::decimal(a.0 as int),
        text::decimal(a.1 as int),
        text::decimal(b.0 as int),
        text::decimal(b.1 as int),
        ',',
    );
    text::lemma_decimal_injective(a.0 as int, b.0 as int);
    text::lemma_decimal_injective(a.1 as int, b.1 as int);
}

proof fn lemma_no_comma(i: int)
    ensures
        text::lacks(text::decimal(i), ','),
{
    let magnitude = if i < 0 {
        (-i) as nat
    } else {
        i as nat
    };
    text::lemma_decimal_nat_digits(magnitude);
}

/// What is written for a request: the monitor by its name, the mode that is asked
/// for, and position, transform and scale as asked for; nothing where the monitor
/// does not have the mode.
pub proof fn requests_are_written_as_asked(
    request: MonitorApplyView,
    monitor: MonitorView,
    k: int,
)
    ensures
        0 <= k < monitor.modes.len() && monitor.modes[k].id == request.monitors[0].mode_id
            ==> request.line(monitor) == Some(
            monitor::enabling_line(
                monitor.description.display_name(),
                Some(request.monitors[0].mode_id),
                request.x_pos,
                request.y_pos,
                request.transform,
                request.scale.text,
            ),
        ),
        (forall|j: int|
            0 <= j < monitor.modes.len() ==> (#[trigger] monitor.modes[j]).id
                != request.monitors[0].mode_id) ==> request.line(monitor) is None,
{
    let id = request.monitors[0].mode_id;
    let named = monitor::has_id(id);
    order::lemma_find_first(monitor.modes, named);
    if 0 <= k < monitor.modes.len() && monitor.modes[k].id == id {
        assert(named(monitor.modes[k]));
    }
    first_mode_of_a_name_is_found(monitor, id, 0);
}

/// What is written for a logical monitor: the monitor by its name, the mode that it
/// is driven in where that is known, and position, transform and scale as shown.
pub proof fn shown_monitors_are_written_as_shown(shown: LogicalMonitorView, monitor: MonitorView)
    ensures
        monitor.current_mode() != "Unknown"@ ==> shown.line(monitor) == monitor::enabling_line(
            monitor.description.display_name(),
            Some(monitor.current_mode()),
            shown.x_pos,
            shown.y_pos,
            shown.transform,
            shown.scale.text,
        ),
        monitor.current_mode() == "Unknown"@ ==> shown.line(monitor) == monitor::enabling_line(
            monitor.description.display_name(),
            None,
            shown.x_pos,
            shown.y_pos,
            shown.transform,
            shown.scale.text,
        ),
{
}

/// Requests and logical monitors stand in a profile for the monitors that they are
/// about, by the lines that are written for them; a logical monitor always has a
/// line.
pub proof fn entries_stand_for_their_monitors(
    request: MonitorApply,
    shown: LogicalMonitor,
    monitors: Seq<MonitorView>,
    monitor: MonitorView,
)
    ensures
        KanshiProfileEntry::found(&request, monitors) == request@.monitor(monitors),
        KanshiProfileEntry::line(&request, monitor) == request@.line(monitor),
        KanshiProfileEntry::can_find(&request, monitors) <==> monitors.len() == 0
            || request.monitors@.len() > 0,
        KanshiProfileEntry::can_write(&request) <==> request.monitors@.len() > 0,
        KanshiProfileEntry::found(&shown, monitors) == shown@.monitor(monitors),
        KanshiProfileEntry::line(&shown, monitor) == Some(shown@.line(monitor)),
        KanshiProfileEntry::can_find(&shown, monitors) <==> shown.monitors@.len() > 0,
        KanshiProfileEntry::can_write(&shown),
{
}

/// A logical monitor shows the monitor at a connector first exactly where the first
/// of its monitors is there, and a search for one needs a request that names some
/// monitor and logical monitors that each show one.
pub proof fn search_goes_by_the_first_connector(
    request: MonitorApplyView,
    shown: Seq<LogicalMonitorView>,
    connector: Seq<char>,
    i: int,
)
    ensures
        monitor::shows_connector(connector)(shown[i]) <==> shown[i].monitors.len() > 0
            && shown[i].monitors[0].connector == connector,
        shown.len() == 0 ==> request.can_search(shown),
        request.monitors.len() > 0 && (forall|k: int|
            0 <= k < shown.len() ==> (#[trigger] shown[k]).monitors.len() > 0)
            ==> request.can_search(shown),
        request.can_search(shown) && shown.len() > 0 ==> request.monitors.len() > 0
            && shown[0].monitors.len() > 0,
{
}

/// The monitor at a sway output: its four names, each of its modes in order, the size
/// of the output, and whether it is built in, which shows in a name that begins with
/// `eDP`.
pub proof fn sway_monitors_tell_the_output(output: sway::OutputView, i: int)
    ensures
        ({
            let found = monitor::output_monitor(output);
            &&& found.description.connector == output.name
            &&& found.description.vendor == output.make
            &&& found.description.product == output.model
            &&& found.description.serial == output.serial
            &&& found.modes.len() == output.modes.len()
            &&& 0 <= i < output.modes.len() ==> found.modes[i] == modes::sway_mode(
                output,
                output.modes[i],
            )
            &&& found.properties.width == Some(output.rect.width)
            &&& found.properties.height == Some(output.rect.height)
            &&& found.properties.underscanning is None
            &&& found.properties.builtin == Some(
                output.name.len() >= 3 && output.name[0] == 'e' && output.name[1] == 'D'
                    && output.name[2] == 'P',
            )
            &&& found.properties.max_size is None
            &&& found.properties.name == Some(
                output.make + seq![' '] + output.model + seq![' '] + output.serial,
            )
        }),
{
    reveal_strlit(" ");
    assert(" "@ =~= seq![' ']);
    lemma_built_in(output.name);
}

proof fn lemma_built_in(name: Seq<char>)
    ensures
        "eDP"@.is_prefix_of(name) <==> name.len() >= 3 && name[0] == 'e' && name[1] == 'D'
            && name[2] == 'P',
{
    reveal_strlit("eDP");
    let prefix = "eDP"@;
    assert(prefix =~= seq!['e', 'D', 'P']);
    if name.len() >= 3 {
        let front = name.subrange(0, 3);
        assert(front[0] == name[0] && front[1] == name[1] && front[2] == name[2]);
        if name[0] == 'e' && name[1] == 'D' && name[2] == 'P' {
            assert(prefix =~= front);
        }
    }
}

/// The logical monitor at a sway output: its position, its scale, or one where none
/// is reported, its transform, whether it is primary, and the monitor at the output.
pub proof fn sway_logical_monitors_tell_the_output(output: sway::OutputView)
    ensures
        ({
            let shown = monitor::output_logical(output);
            &&& shown.x_pos == output.rect.x
            &&& shown.y_pos == output.rect.y
            &&& output.scale matches Some(factor) ==> shown.scale == factor
            &&& output.scale is None ==> shown.scale.bits == 0x3ff0_0000_0000_0000
                && shown.scale.text == "1"@
            &&& shown.transform == monitor::reported_transform(output.transform).code()
            &&& shown.primary == output.primary
            &&& shown.monitors.len() == 1
            &&& shown.monitors[0].connector == output.name
            &&& shown.monitors[0].vendor == output.make
            &&& shown.monitors[0].product == output.model
            &&& shown.monitors[0].serial == output.serial
            &&& shown.properties.dummy is None
            &&& shown.properties.dummy2 is None
        }),
{
}

/// The transform that each word of sway reports; a word of its own stands for each
/// transform but the plain one, which any other word, or none, stands for.
pub proof fn reported_words_stand_for_transforms(word: Seq<char>)
    ensures
        monitor::reported_transform(None) == MonitorTransform::Normal,
        monitor::reported_transform(Some("90"@)) == MonitorTransform::Left,
        monitor::reported_transform(Some("180"@)) == MonitorTransform::Down,
        monitor::reported_transform(Some("270"@)) == MonitorTransform::Right,
        monitor::reported_transform(Some("flipped"@)) == MonitorTransform::Flipped,
        monitor::reported_transform(Some("flipped-90"@)) == MonitorTransform::FlippedLeft,
        monitor::reported_transform(Some("flipped-180"@)) == MonitorTransform::FlippedDown,
        monitor::reported_transform(Some("flipped-270"@)) == MonitorTransform::FlippedRight,
        word != "90"@ && word != "180"@ && word != "270"@ && word != "flipped"@ && word
            != "flipped-90"@ && word != "flipped-180"@ && word != "flipped-270"@
            ==> monitor::reported_transform(Some(word)) == MonitorTransform::Normal,
{
    reveal_strlit("90");
    reveal_strlit("180");
    reveal_strlit("270");
    reveal_strlit("flipped");
    reveal_strlit("flipped-90");
    reveal_strlit("flipped-180");
    reveal_strlit("flipped-270");
    assert("90"@.len() == 2 && "180"@.len() == 3 && "270"@.len() == 3);
    assert("flipped"@.len() == 7 && "flipped-90"@.len() == 10 && "flipped-180"@.len() == 11
        && "flipped-270"@.len() == 11);
    assert("180"@[0] != "270"@[0]);
    assert("flipped-180"@[8] != "flipped-270"@[8]);
}

/// The monitor at a head goes by the description of the head in place of its
/// connector, or by its name where there is none, and has no other names. Its size is
/// that of the current mode, or of the first one where there is no current mode, and
/// it is built in where the name of the head begins with `eDP`.
pub proof fn head_monitors_tell_the_head(head: OutputHeadSnapshotView)
    ensures
        ({
            let found = monitor::head_monitor(head);
            let name = if head.description is Some {
                head.description->0
            } else {
                head.name
            };
            &&& found.description.connector == name
            &&& found.description.vendor.len() == 0
            &&& found.description.product.len() == 0
            &&& found.description.serial.len() == 0
            &&& head.current_mode matches Some(mode) ==> found.properties.width == Some(mode.width)
                && found.properties.height == Some(mode.height)
            &&& head.current_mode is None && head.modes.len() > 0 ==> found.properties.width
                == Some(head.modes[0].width) && found.properties.height == Some(
                head.modes[0].height,
            )
            &&& head.current_mode is None && head.modes.len() == 0 ==> found.properties.width
                is None && found.properties.height is None
            &&& found.properties.underscanning is None
            &&& found.properties.builtin == Some(
                head.name.len() >= 3 && head.name[0] == 'e' && head.name[1] == 'D' && head.name[2]
                    == 'P',
            )
            &&& found.properties.max_size is None
            &&& found.properties.name == Some(name)
        }),
{
    lemma_built_in(head.name);
}

/// The monitor at a head has those modes of the head whose refresh rate is known, in
/// their order. Where the head has a current mode, a mode is marked current exactly
/// where width, height and refresh rate are the same; where it has none, as the head
/// marks it.
pub proof fn head_monitors_list_modes_of_known_rate(
    head: OutputHeadSnapshotView,
    mode: OutputModeSnapshot,
)
    ensures
        ({
            let longer = OutputHeadSnapshotView { modes: head.modes.push(mode), ..head };
            let before = monitor::head_monitor(head).modes;
            let after = monitor::head_monitor(longer).modes;
            let current = if head.current_mode is Some {
                &&& (head.current_mode->0).width == mode.width
                &&& (head.current_mode->0).height == mode.height
                &&& (head.current_mode->0).refresh_mhz == mode.refresh_mhz
            } else {
                mode.current
            };
            &&& head.modes.len() == 0 ==> before.len() == 0
            &&& mode.refresh_mhz is None ==> after == before
            &&& mode.refresh_mhz matches Some(rate) ==> after == before.push(
                modes::described_mode(mode.width, mode.height, rate, current, mode.preferred),
            )
        }),
{
    reveal(Seq::filter);
    let longer = OutputHeadSnapshotView { modes: head.modes.push(mode), ..head };
    let known = head.modes.filter(monitor::has_refresh());
    let named = monitor::named_mode(head.current_mode);
    assert(longer.modes.drop_last() =~= head.modes);
    if mode.refresh_mhz is Some {
        assert(known.push(mode).map_values(named) =~= known.map_values(named).push(named(mode)));
    }
}

/// The logical monitor at a head: there is one exactly where the head is switched on
/// and position, transform and scale are known, and it has them, and the monitor at
/// the head.
pub proof fn head_logical_monitors_tell_the_head(head: OutputHeadSnapshotView)
    ensures
        match monitor::head_logical(head) {
            Some(shown) => {
                &&& head.enabled
                &&& head.position == Some((shown.x_pos, shown.y_pos))
                &&& head.transform == Some(shown.transform)
                &&& head.scale == Some(shown.scale)
                &&& !shown.primary
                &&& shown.monitors.len() == 1
                &&& shown.monitors[0] == monitor::head_monitor(head).description
                &&& shown.properties.dummy is None
                &&& shown.properties.dummy2 is None
            },
            None => !head.enabled || head.position is None || head.transform is None || head.scale
                is None,
        },
{
}

/// The view of a monitor tells each of its fields, and a list of monitors is seen one
/// by one.
pub proof fn monitor_views_tell_every_field(
    held: Monitor,
    properties: MonitorProperties,
    list: Seq<Monitor>,
    i: int,
)
    ensures
        held@.description.connector == held.description.0@,
        held@.description.vendor == held.description.1@,
        held@.description.product == held.description.2@,
        held@.description.serial == held.description.3@,
        held@.modes.len() == held.modes@.len(),
        0 <= i < held.modes@.len() ==> held@.modes[i] == held.modes@[i]@,
        held@.properties == held.properties@,
        properties@.width == properties.width,
        properties@.height == properties.height,
        properties@.underscanning == properties.underscanning,
        properties@.builtin == properties.builtin,
        properties@.max_size == properties.max_size,
        match properties.name {
            Some(name) => properties@.name == Some(name@),
            None => properties@.name is None,
        },
        monitor::monitor_views(list).len() == list.len(),
        0 <= i < list.len() ==> monitor::monitor_views(list)[i] == list[i]@,
{
}

/// The view of a logical monitor tells each of its fields, and so does that of a
/// request; lists of them are seen one by one.
pub proof fn logical_monitor_views_tell_every_field(
    shown: LogicalMonitor,
    request: MonitorApply,
    list: Seq<LogicalMonitor>,
    i: int,
)
    ensures
        shown@.x_pos == shown.x_pos,
        shown@.y_pos == shown.y_pos,
        shown@.scale == shown.scale@,
        shown@.transform == shown.transform,
        shown@.primary == shown.primary,
        shown@.monitors.len() == shown.monitors@.len(),
        0 <= i < shown.monitors@.len() ==> {
            &&& shown@.monitors[i].connector == shown.monitors@[i].0@
            &&& shown@.monitors[i].vendor == shown.monitors@[i].1@
            &&& shown@.monitors[i].product == shown.monitors@[i].2@
            &&& shown@.monitors[i].serial == shown.monitors@[i].3@
        },
        shown@.properties == shown.properties,
        request@.x_pos == request.x_pos,
        request@.y_pos == request.y_pos,
        request@.scale == request.scale@,
        request@.transform == request.transform,
        request@.primary == request.primary,
        request@.monitors.len() == request.monitors@.len(),
        0 <= i < request.monitors@.len() ==> {
            &&& request@.monitors[i].connector == request.monitors@[i].0@
            &&& request@.monitors[i].mode_id == request.monitors@[i].1@
            &&& request@.monitors[i].properties == request.monitors@[i].2@
        },
        monitor::logical_views(list).len() == list.len(),
        0 <= i < list.len() ==> monitor::logical_views(list)[i] == list[i]@,
{
}

/// The view of a sway output tells each of its fields, and a list of outputs is seen
/// one by one.
pub proof fn output_views_tell_every_field(output: Output, list: Seq<Output>, i: int)
    ensures
        output@.name == output.name@,
        output@.make == output.make@,
        output@.model == output.model@,
        output@.serial == output.serial@,
        output@.active == output.active,
        output@.primary == output.primary,
        match output.scale {
            Some(factor) => output@.scale == Some(factor@),
            None => output@.scale is None,
        },
        match output.transform {
            Some(word) => output@.transform == Some(word@),
            None => output@.transform is None,
        },
        output@.modes == output.modes@,
        output@.current_mode == output.current_mode,
        output@.rect == output.rect,
        sway::output_views(list).len() == list.len(),
        0 <= i < list.len() ==> sway::output_views(list)[i] == list[i]@,
{
}

/// An error of a request is of the same kind as its view and says the same.
pub proof fn request_errors_keep_kind_and_text(error: ConfigError)
    ensures
        match error {
            ConfigError::Failed(message) => error@ == ConfigErrorView::Failed(message@),
            ConfigError::InvalidArgs(message) => error@ == ConfigErrorView::InvalidArgs(message@),
            ConfigError::IOError(message) => error@ == ConfigErrorView::IOError(message@),
            ConfigError::ZBus(message) => error@ == ConfigErrorView::ZBus(message@),
        },
        monitor::outcome_view(Err(error)) == Err::<(), ConfigErrorView>(error@),
        monitor::outcome_view(Ok(())) is Ok,
{
}

} // verus!
