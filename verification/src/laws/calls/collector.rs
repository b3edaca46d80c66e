//! What reports, announcements and `done` do to a collector.

use vstd::prelude::*;

use crate::collector;
use crate::collector::{
    PendingHead, PendingMode, SnapshotCollector, SnapshotStateError, SnapshotStateErrorView,
};
use crate::laws;
use crate::scale::Scale;
use crate::text;
use crate::wayland_observer::{OutputHeadSnapshot, OutputModeSnapshot, OutputSnapshot};

verus! {

/// A reported name becomes that of the head, and nothing else changes; an unknown head
/// is refused.
pub proof fn reported_names_are_set(
    before: SnapshotCollector,
    after: SnapshotCollector,
    id: u32,
    name: String,
    r: Result<(), SnapshotStateError>,
)
    requires
        exists|c: &mut SnapshotCollector|
            {
                &&& *c == before
                &&& *final(c) == after
                &&& #[trigger] call_ensures(SnapshotCollector::set_head_name, (c, id, name), r)
            },
    ensures
        r is Ok <==> before@.heads.contains_key(id),
        r is Ok ==> laws::collector::differ_at_head(before@, after@, id),
        r is Ok ==> {
            let was = before@.heads[id];
            let now = after@.heads[id];
            &&& now.id == was.id
            &&& now.name == Some(name@)
            &&& now.description == was.description
            &&& now.enabled == was.enabled
            &&& now.position == was.position
            &&& now.transform == was.transform
            &&& now.scale == was.scale
            &&& now.current_mode_id == was.current_mode_id
            &&& now.modes == was.modes
            &&& now.snapshot().name == name@
        },
        r matches Err(error) ==> error@ == SnapshotStateErrorView::UnknownHead(id) && after@
            == before@,
{
    laws::collector::last_reported_name_wins(before@, id, name@);
}

/// A reported description becomes that of the head, and nothing else changes; an
/// unknown head is refused.
pub proof fn reported_descriptions_are_set(
    before: SnapshotCollector,
    after: SnapshotCollector,
    id: u32,
    description: String,
    r: Result<(), SnapshotStateError>,
)
    requires
        exists|c: &mut SnapshotCollector|
            {
                &&& *c == before
                &&& *final(c) == after
                &&& #[trigger] call_ensures(
                    SnapshotCollector::set_head_description,
                    (c, id, description),
                    r,
                )
            },
    ensures
        r is Ok <==> before@.heads.contains_key(id),
        r is Ok ==> laws::collector::differ_at_head(before@, after@, id),
        r is Ok ==> {
            let was = before@.heads[id];
            let now = after@.heads[id];
            &&& now.id == was.id
            &&& now.name == was.name
            &&& now.description == Some(description@)
            &&& now.enabled == was.enabled
            &&& now.position == was.position
            &&& now.transform == was.transform
            &&& now.scale == was.scale
            &&& now.current_mode_id == was.current_mode_id
            &&& now.modes == was.modes
            &&& now.snapshot().description == Some(description@)
        },
        r matches Err(error) ==> error@ == SnapshotStateErrorView::UnknownHead(id) && after@
            == before@,
{
    laws::collector::last_reported_description_wins(before@, id, description@);
}

/// A selected mode becomes that of the head, and nothing else changes; an unknown head
/// is refused.
pub proof fn selected_modes_are_set(
    before: SnapshotCollector,
    after: SnapshotCollector,
    id: u32,
    mode_id: u32,
    r: Result<(), SnapshotStateError>,
)
    requires
        exists|c: &mut SnapshotCollector|
            {
                &&& *c == before
                &&& *final(c) == after
                &&& #[trigger] call_ensures(
                    SnapshotCollector::set_head_current_mode,
                    (c, id, mode_id),
                    r,
                )
            },
    ensures
        r is Ok <==> before@.heads.contains_key(id),
        r is Ok ==> laws::collector::differ_at_head(before@, after@, id),
        r is Ok ==> {
            let was = before@.heads[id];
            let now = after@.heads[id];
            &&& now.id == was.id
            &&& now.name == was.name
            &&& now.description == was.description
            &&& now.enabled == was.enabled
            &&& now.position == was.position
            &&& now.transform == was.transform
            &&& now.scale == was.scale
            &&& now.current_mode_id == Some(mode_id)
            &&& now.modes == was.modes
        },
        r matches Err(error) ==> error@ == SnapshotStateErrorView::UnknownHead(id) && after@
            == before@,
{
    laws::collector::last_selected_mode_wins(before@, id, mode_id);
}

/// A reported position becomes that of the head, whatever it was before, and nothing
/// else changes; an unknown head is refused.
pub proof fn reported_positions_are_set(
    before: SnapshotCollector,
    after: SnapshotCollector,
    id: u32,
    x: i32,
    y: i32,
    r: Result<(), SnapshotStateError>,
)
    requires
        exists|c: &mut SnapshotCollector|
            {
                &&& *c == before
                &&& *final(c) == after
                &&& #[trigger] call_ensures(SnapshotCollector::set_head_position, (c, id, x, y), r)
            },
    ensures
        r is Ok <==> before@.heads.contains_key(id),
        r is Ok ==> laws::collector::differ_at_head(before@, after@, id),
        r is Ok ==> {
            let was = before@.heads[id];
            let now = after@.heads[id];
            &&& now.id == was.id
            &&& now.name == was.name
            &&& now.description == was.description
            &&& now.enabled == was.enabled
            &&& now.position == Some((x, y))
            &&& now.transform == was.transform
            &&& now.scale == was.scale
            &&& now.current_mode_id == was.current_mode_id
            &&& now.modes == was.modes
            &&& now.snapshot().position == Some((x, y))
        },
        r matches Err(error) ==> error@ == SnapshotStateErrorView::UnknownHead(id) && after@
            == before@,
{
    laws::collector::last_reported_position_wins(before@, id, x, y);
}

/// A reported transform becomes that of the head, and nothing else changes; an unknown
/// head is refused.
pub proof fn reported_transforms_are_set(
    before: SnapshotCollector,
    after: SnapshotCollector,
    id: u32,
    transform: u32,
    r: Result<(), SnapshotStateError>,
)
    requires
        exists|c: &mut SnapshotCollector|
            {
                &&& *c == before
                &&& *final(c) == after
                &&& #[trigger] call_ensures(
                    SnapshotCollector::set_head_transform,
                    (c, id, transform),
                    r,
                )
            },
    ensures
        r is Ok <==> before@.heads.contains_key(id),
        r is Ok ==> laws::collector::differ_at_head(before@, after@, id),
        r is Ok ==> {
            let was = before@.heads[id];
            let now = after@.heads[id];
            &&& now.id == was.id
            &&& now.name == was.name
            &&& now.description == was.description
            &&& now.enabled == was.enabled
            &&& now.position == was.position
            &&& now.transform == Some(transform)
            &&& now.scale == was.scale
            &&& now.current_mode_id == was.current_mode_id
            &&& now.modes == was.modes
            &&& now.snapshot().transform == Some(transform)
        },
        r matches Err(error) ==> error@ == SnapshotStateErrorView::UnknownHead(id) && after@
            == before@,
{
    laws::collector::last_reported_transform_wins(before@, id, transform);
}

/// A head is switched on or off as told. Off, it loses position, transform, scale and
/// selected mode; on, it keeps what it has. Nothing else changes, and an unknown head is
/// refused.
pub proof fn heads_are_switched(
    before: SnapshotCollector,
    after: SnapshotCollector,
    id: u32,
    enabled: bool,
    r: Result<(), SnapshotStateError>,
)
    requires
        exists|c: &mut SnapshotCollector|
            {
                &&& *c == before
                &&& *final(c) == after
                &&& #[trigger] call_ensures(
                    SnapshotCollector::set_head_enabled,
                    (c, id, enabled),
                    r,
                )
            },
    ensures
        r is Ok <==> before@.heads.contains_key(id),
        r is Ok ==> laws::collector::differ_at_head(before@, after@, id),
        r is Ok ==> {
            let was = before@.heads[id];
            let now = after@.heads[id];
            &&& now.enabled == enabled
            &&& now.snapshot().enabled == enabled
            &&& now.id == was.id
            &&& now.name == was.name
            &&& now.description == was.description
            &&& now.modes == was.modes
            &&& if enabled {
                &&& now.position == was.position
                &&& now.transform == was.transform
                &&& now.scale == was.scale
                &&& now.current_mode_id == was.current_mode_id
            } else {
                &&& now.position is None
                &&& now.transform is None
                &&& now.scale is None
                &&& now.current_mode_id is None
            }
        },
        r matches Err(error) ==> error@ == SnapshotStateErrorView::UnknownHead(id) && after@
            == before@,
{
    laws::collector::switching_on_changes_nothing_else(before@, id);
    laws::collector::switching_off_drops_the_layout(before@, id);
}

/// Whether a reported scale is refused: where it is no finite number above zero, or
/// rounds to zero or below.
pub open spec fn is_refused(scale: Scale, rounded: Scale) -> bool {
    ||| scale.bits == 0
    ||| scale.bits >= 0x7ff0_0000_0000_0000
    ||| rounded.bits == 0
    ||| 0x8000_0000_0000_0000 <= rounded.bits <= 0xfff0_0000_0000_0000
}

/// A reported scale that is usable becomes, rounded, that of the head, and nothing else
/// changes. One that is not is refused as it was reported, and then an unknown head is.
pub proof fn reported_scales_are_set(
    before: SnapshotCollector,
    after: SnapshotCollector,
    id: u32,
    scale: Scale,
    rounded: Scale,
    r: Result<(), SnapshotStateError>,
)
    requires
        exists|c: &mut SnapshotCollector|
            {
                &&& *c == before
                &&& *final(c) == after
                &&& #[trigger] call_ensures(
                    SnapshotCollector::set_head_scale,
                    (c, id, scale, rounded),
                    r,
                )
            },
    ensures
        r is Ok <==> before@.heads.contains_key(id) && !is_refused(scale, rounded),
        r is Ok ==> laws::collector::differ_at_head(before@, after@, id),
        r is Ok ==> {
            let was = before@.heads[id];
            let now = after@.heads[id];
            &&& now.id == was.id
            &&& now.name == was.name
            &&& now.description == was.description
            &&& now.enabled == was.enabled
            &&& now.position == was.position
            &&& now.transform == was.transform
            &&& now.scale == Some(rounded@)
            &&& now.current_mode_id == was.current_mode_id
            &&& now.modes == was.modes
            &&& now.snapshot().scale == Some(rounded@)
        },
        r matches Err(error) ==> after@ == before@ && error@ == if is_refused(scale, rounded) {
            SnapshotStateErrorView::InvalidScale(scale@)
        } else {
            SnapshotStateErrorView::UnknownHead(id)
        },
{
    laws::collector::last_reported_scale_wins(before@, id, scale@, rounded@);
}

/// A reported scale is normalized to what it rounds to, unless it is refused.
pub proof fn usable_scales_are_rounded(
    scale: Scale,
    rounded: Scale,
    r: Result<Scale, SnapshotStateError>,
)
    requires
        call_ensures(collector::normalize_scale, (scale, rounded), r),
    ensures
        r is Ok <==> !is_refused(scale, rounded),
        r matches Ok(normalized) ==> normalized@ == rounded@,
        r matches Err(error) ==> error@ == SnapshotStateErrorView::InvalidScale(scale@),
{
}

/// A reported size becomes that of the mode, and nothing else changes; an unknown mode
/// is refused.
pub proof fn reported_sizes_are_set(
    before: SnapshotCollector,
    after: SnapshotCollector,
    id: u32,
    width: i32,
    height: i32,
    r: Result<(), SnapshotStateError>,
)
    requires
        exists|c: &mut SnapshotCollector|
            {
                &&& *c == before
                &&& *final(c) == after
                &&& #[trigger] call_ensures(
                    SnapshotCollector::set_mode_size,
                    (c, id, width, height),
                    r,
                )
            },
    ensures
        r is Ok <==> before@.mode_to_head.contains_key(id),
        r is Ok ==> laws::collector::differ_at_mode(before@, after@, id),
        r is Ok ==> {
            let head_id = before@.mode_to_head[id];
            let was = before@.heads[head_id].modes[id];
            let now = after@.heads[head_id].modes[id];
            &&& now.id == was.id
            &&& now.width == Some(width)
            &&& now.height == Some(height)
            &&& now.refresh_mhz == was.refresh_mhz
            &&& now.preferred == was.preferred
        },
        r matches Err(error) ==> error@ == SnapshotStateErrorView::UnknownMode(id) && after@
            == before@,
{
    laws::collector::last_reported_size_wins(before@, id, width, height);
}

/// A reported refresh rate becomes that of the mode, and nothing else changes; an
/// unknown mode is refused.
pub proof fn reported_refresh_rates_are_set(
    before: SnapshotCollector,
    after: SnapshotCollector,
    id: u32,
    refresh: i32,
    r: Result<(), SnapshotStateError>,
)
    requires
        exists|c: &mut SnapshotCollector|
            {
                &&& *c == before
                &&& *final(c) == after
                &&& #[trigger] call_ensures(
                    SnapshotCollector::set_mode_refresh,
                    (c, id, refresh),
                    r,
                )
            },
    ensures
        r is Ok <==> before@.mode_to_head.contains_key(id),
        r is Ok ==> laws::collector::differ_at_mode(before@, after@, id),
        r is Ok ==> {
            let head_id = before@.mode_to_head[id];
            let was = before@.heads[head_id].modes[id];
            let now = after@.heads[head_id].modes[id];
            &&& now.id == was.id
            &&& now.width == was.width
            &&& now.height == was.height
            &&& now.refresh_mhz == Some(refresh)
            &&& now.preferred == was.preferred
        },
        r matches Err(error) ==> error@ == SnapshotStateErrorView::UnknownMode(id) && after@
            == before@,
{
    laws::collector::last_reported_refresh_rate_wins(before@, id, refresh);
}

/// A preferred mode is marked so, and nothing else changes; an unknown mode is refused.
pub proof fn preferred_modes_are_marked(
    before: SnapshotCollector,
    after: SnapshotCollector,
    id: u32,
    r: Result<(), SnapshotStateError>,
)
    requires
        exists|c: &mut SnapshotCollector|
            {
                &&& *c == before
                &&& *final(c) == after
                &&& #[trigger] call_ensures(SnapshotCollector::set_mode_preferred, (c, id), r)
            },
    ensures
        r is Ok <==> before@.mode_to_head.contains_key(id),
        r is Ok ==> laws::collector::differ_at_mode(before@, after@, id),
        r is Ok ==> {
            let head_id = before@.mode_to_head[id];
            let was = before@.heads[head_id].modes[id];
            let now = after@.heads[head_id].modes[id];
            &&& now.id == was.id
            &&& now.width == was.width
            &&& now.height == was.height
            &&& now.refresh_mhz == was.refresh_mhz
            &&& now.preferred == true
        },
        r matches Err(error) ==> error@ == SnapshotStateErrorView::UnknownMode(id) && after@
            == before@,
{
    laws::collector::preferred_modes_stay_preferred(before@, id);
}

/// A head that is announced is known from then on, with nothing but its id where it was
/// not known before, and as it was where it was; nothing else changes.
pub proof fn announced_heads_are_known(before: SnapshotCollector, after: SnapshotCollector, id: u32)
    requires
        exists|c: &mut SnapshotCollector|
            {
                &&& *c == before
                &&& *final(c) == after
                &&& #[trigger] call_ensures(SnapshotCollector::note_head, (c, id), ())
            },
    ensures
        after@.heads.contains_key(id),
        laws::collector::differ_at_head(before@, after@, id),
        before@.heads.contains_key(id) ==> after@ == before@,
        !before@.heads.contains_key(id) ==> {
            let head = after@.heads[id];
            &&& head.id == id
            &&& head.name is None && head.description is None
            &&& !head.enabled
            &&& head.position is None && head.transform is None && head.scale is None
            &&& head.current_mode_id is None
            &&& forall|m: u32| !(#[trigger] head.modes.contains_key(m))
        },
{
    laws::collector::announced_head_begins_empty(before@, id);
}

/// A mode that is announced belongs to its head, with nothing but its id where the head
/// did not have it before, and as it was where it did; all other heads and modes stay,
/// and an unknown head is refused.
pub proof fn announced_modes_are_known(
    before: SnapshotCollector,
    after: SnapshotCollector,
    id: u32,
    mode_id: u32,
    r: Result<(), SnapshotStateError>,
)
    requires
        exists|c: &mut SnapshotCollector|
            {
                &&& *c == before
                &&& *final(c) == after
                &&& #[trigger] call_ensures(SnapshotCollector::note_mode, (c, id, mode_id), r)
            },
    ensures
        r is Ok <==> before@.heads.contains_key(id),
        r is Ok ==> {
            let mode = after@.heads[id].modes[mode_id];
            &&& after@.heads[id].modes.contains_key(mode_id)
            &&& after@.mode_to_head.contains_key(mode_id)
            &&& after@.mode_to_head[mode_id] == id
            &&& after@.publications == before@.publications
            &&& before@.heads[id].modes.contains_key(mode_id) ==> mode
                == before@.heads[id].modes[mode_id]
            &&& !before@.heads[id].modes.contains_key(mode_id) ==> mode.id == mode_id && mode.width
                is None && mode.height is None && mode.refresh_mhz is None && !mode.preferred
            &&& forall|h: u32| h != id ==> #[trigger] after@.heads[h] == before@.heads[h]
            &&& forall|m: u32|
                m != mode_id ==> #[trigger] after@.heads[id].modes[m] == before@.heads[id].modes[m]
        },
        r matches Err(error) ==> error@ == SnapshotStateErrorView::UnknownHead(id) && after@
            == before@,
{
    laws::collector::announced_mode_begins_empty(before@, id, mode_id);
}

/// A head that is gone is unknown, and so are its modes; all other heads stay, and an
/// unknown head is refused.
pub proof fn finished_heads_are_dropped(
    before: SnapshotCollector,
    after: SnapshotCollector,
    id: u32,
    r: Result<(), SnapshotStateError>,
)
    requires
        exists|c: &mut SnapshotCollector|
            {
                &&& *c == before
                &&& *final(c) == after
                &&& #[trigger] call_ensures(SnapshotCollector::finish_head, (c, id), r)
            },
    ensures
        r is Ok <==> before@.heads.contains_key(id),
        r is Ok ==> {
            &&& after@.publications == before@.publications
            &&& forall|h: u32| #[trigger]
                after@.heads.contains_key(h) <==> before@.heads.contains_key(h) && h != id
            &&& forall|h: u32|
                after@.heads.contains_key(h) ==> #[trigger] after@.heads[h] == before@.heads[h]
            &&& forall|m: u32| #[trigger]
                after@.mode_to_head.contains_key(m) <==> before@.mode_to_head.contains_key(m)
                    && !before@.heads[id].modes.contains_key(m)
        },
        r matches Err(error) ==> error@ == SnapshotStateErrorView::UnknownHead(id) && after@
            == before@,
{
    laws::collector::finished_head_takes_nothing_else(before@, id);
}

/// A mode that is gone is unknown, and its head neither has it nor is driven in it; all
/// other modes stay, and an unknown mode is refused.
pub proof fn finished_modes_are_dropped(
    before: SnapshotCollector,
    after: SnapshotCollector,
    id: u32,
    r: Result<(), SnapshotStateError>,
)
    requires
        exists|c: &mut SnapshotCollector|
            {
                &&& *c == before
                &&& *final(c) == after
                &&& #[trigger] call_ensures(SnapshotCollector::finish_mode, (c, id), r)
            },
    ensures
        r is Ok <==> before@.mode_to_head.contains_key(id),
        r is Ok ==> {
            let head_id = before@.mode_to_head[id];
            let was = before@.heads[head_id];
            let now = after@.heads[head_id];
            &&& after@.publications == before@.publications
            &&& !after@.mode_to_head.contains_key(id)
            &&& !now.modes.contains_key(id)
            &&& was.current_mode_id == Some(id) ==> now.current_mode_id is None
            &&& was.current_mode_id != Some(id) ==> now.current_mode_id == was.current_mode_id
            &&& forall|m: u32| m != id ==> #[trigger] now.modes[m] == was.modes[m]
            &&& forall|h: u32| h != head_id ==> #[trigger] after@.heads[h] == before@.heads[h]
        },
        r matches Err(error) ==> error@ == SnapshotStateErrorView::UnknownMode(id) && after@
            == before@,
{
    laws::collector::finished_mode_takes_nothing_else(before@, id);
}

/// A `done` publishes one snapshot of its serial with one head for each that is known,
/// behind those that wait, and changes nothing else.
pub proof fn done_publishes_one_snapshot(
    before: SnapshotCollector,
    after: SnapshotCollector,
    serial: u32,
    r: Result<(), SnapshotStateError>,
)
    requires
        before@.wf(),
        exists|c: &mut SnapshotCollector|
            {
                &&& *c == before
                &&& *final(c) == after
                &&& #[trigger] call_ensures(SnapshotCollector::publish_done, (c, serial), r)
            },
    ensures
        r is Ok,
        after@.heads == before@.heads,
        after@.mode_to_head == before@.mode_to_head,
        after@.publications.len() == before@.publications.len() + 1,
        after@.publications.drop_last() == before@.publications,
        after@.publications.last().serial == serial,
        after@.publications.last().heads.len() == before@.heads.len(),
        forall|h: u32| #[trigger]
            before@.heads.contains_key(h) ==> after@.publications.last().heads.contains(
                before@.heads[h].snapshot(),
            ),
{
    laws::collector::done_publishes_the_known_heads(before@, serial, 0, 0);
    collector::heads_are_published_in_name_order(before@, serial);
}

/// Snapshots are taken from the front, one at a time, until none waits; nothing else
/// changes.
pub proof fn snapshots_are_taken_from_the_front(
    before: SnapshotCollector,
    after: SnapshotCollector,
    r: Option<OutputSnapshot>,
    n: usize,
)
    requires
        exists|c: &mut SnapshotCollector|
            {
                &&& *c == before
                &&& *final(c) == after
                &&& #[trigger] call_ensures(SnapshotCollector::take_publication, (c,), r)
            },
        call_ensures(SnapshotCollector::pending_publications, (&before,), n),
    ensures
        n == before@.publications.len(),
        r is Some <==> n > 0,
        r matches Some(snapshot) ==> {
            &&& snapshot@ == before@.publications[0]
            &&& after@.publications == before@.publications.skip(1)
        },
        r is None ==> after@.publications == before@.publications,
        after@.heads == before@.heads,
        after@.mode_to_head == before@.mode_to_head,
{
    if r is Some {
        assert(before@.publications.skip(1) =~= before@.publications.drop_first());
    }
}

/// A collector begins with nothing known and nothing published, a head and a mode with
/// nothing but their ids.
pub proof fn everything_begins_empty(
    fresh: SnapshotCollector,
    head: PendingHead,
    mode: PendingMode,
    id: u32,
)
    requires
        call_ensures(SnapshotCollector::new, (), fresh),
        call_ensures(PendingHead::new, (id,), head),
        call_ensures(PendingMode::new, (id,), mode),
    ensures
        forall|h: u32| !(#[trigger] fresh@.heads.contains_key(h)),
        forall|m: u32| !(#[trigger] fresh@.mode_to_head.contains_key(m)),
        fresh@.publications.len() == 0,
        head@.id == id,
        head@.name is None && head@.description is None && !head@.enabled,
        head@.position is None && head@.transform is None && head@.scale is None,
        head@.current_mode_id is None,
        forall|m: u32| !(#[trigger] head@.modes.contains_key(m)),
        mode.id == id,
        mode.width is None && mode.height is None && mode.refresh_mhz is None && !mode.preferred,
{
}

/// Heads and modes are published as they were reported.
pub proof fn published_forms_are_as_reported(
    head: PendingHead,
    published_head: OutputHeadSnapshot,
    mode: PendingMode,
    current: bool,
    published_mode: OutputModeSnapshot,
)
    requires
        call_ensures(PendingHead::into_snapshot, (head,), published_head),
        call_ensures(PendingMode::into_snapshot, (mode, current), published_mode),
    ensures
        published_head@ == head@.snapshot(),
        published_head.enabled == head.enabled,
        published_head.position == head.position,
        published_head.transform == head.transform,
        head.name matches Some(name) ==> published_head.name@ == name@,
        head.name is None ==> published_head.name@ == "head-"@ + text::decimal(head.id as int),
        mode.width matches Some(width) ==> published_mode.width == width,
        mode.width is None ==> published_mode.width == 0,
        mode.height matches Some(height) ==> published_mode.height == height,
        mode.height is None ==> published_mode.height == 0,
        published_mode.refresh_mhz == mode.refresh_mhz,
        published_mode.preferred == mode.preferred,
        published_mode.current == current,
{
    laws::collector::heads_are_published_as_reported(head@);
    laws::collector::head_views_tell_every_field(head, Map::empty(), arbitrary(), 0);
    laws::collector::modes_are_published_as_reported(mode, current);
    assert(published_head@.enabled == published_head.enabled);
    assert(published_head@.name == published_head.name@);
}

/// A refusal says what was refused.
pub proof fn refusals_are_put_in_words(error: SnapshotStateError, message: String)
    requires
        call_ensures(SnapshotStateError::message, (&error,), message),
    ensures
        match error {
            SnapshotStateError::InvalidScale(scale) => message@ == "invalid scale value "@
                + scale.text@,
            SnapshotStateError::UnknownHead(id) => message@ == "unknown head id "@ + text::decimal(
                id as int,
            ),
            SnapshotStateError::UnknownMode(id) => message@ == "unknown mode id "@ + text::decimal(
                id as int,
            ),
        },
{
}

} // verus!
