//! What becomes of what the compositor reports: each report changes what it is
//! about and nothing else, and the last report wins.

use vstd::prelude::*;

use crate::collector;
use crate::collector::{
    CollectorView, PendingHead, PendingHeadView, PendingMode, SnapshotStateError,
    SnapshotStateErrorView,
};
use crate::order;
use crate::scale::ScaleView;
use crate::text;

verus! {

/// Apart from the head with this id, two collected states are the same.
pub open spec fn differ_at_head(before: CollectorView, after: CollectorView, id: u32) -> bool {
    &&& forall|h: u32| #[trigger]
        after.heads.contains_key(h) <==> before.heads.contains_key(h) || h == id
    &&& forall|h: u32| h != id ==> #[trigger] after.heads[h] == before.heads[h]
    &&& after.mode_to_head == before.mode_to_head
    &&& after.publications == before.publications
}

/// The last reported name of a head wins: it is the name that the head is published
/// under, whatever it was before, and nothing else of the head changes.
pub proof fn last_reported_name_wins(
    collector: CollectorView,
    id: u32,
    name: Seq<char>,
)
    ensures
        match collector.set_head_name(id, name) {
            Ok(next) => {
                let before = collector.heads[id];
                let after = next.heads[id];
                let published = after.snapshot();
                &&& collector.heads.contains_key(id)
                &&& differ_at_head(collector, next, id)
                &&& after.id == before.id
                &&& after.name == Some(name)
                &&& after.description == before.description
                &&& after.enabled == before.enabled
                &&& after.position == before.position
                &&& after.transform == before.transform
                &&& after.scale == before.scale
                &&& after.current_mode_id == before.current_mode_id
                &&& after.modes == before.modes
                &&& published.name == name
            },
            Err(error) => {
                &&& !collector.heads.contains_key(id)
                &&& error == SnapshotStateErrorView::UnknownHead(id)
            },
        },
{
}

/// The last reported description of a head wins, and nothing else of the head
/// changes.
pub proof fn last_reported_description_wins(
    collector: CollectorView,
    id: u32,
    description: Seq<char>,
)
    ensures
        match collector.set_head_description(id, description) {
            Ok(next) => {
                let before = collector.heads[id];
                let after = next.heads[id];
                let published = after.snapshot();
                &&& collector.heads.contains_key(id)
                &&& differ_at_head(collector, next, id)
                &&& after.id == before.id
                &&& after.name == before.name
                &&& after.description == Some(description)
                &&& after.enabled == before.enabled
                &&& after.position == before.position
                &&& after.transform == before.transform
                &&& after.scale == before.scale
                &&& after.current_mode_id == before.current_mode_id
                &&& after.modes == before.modes
                &&& published.description == Some(description)
            },
            Err(error) => {
                &&& !collector.heads.contains_key(id)
                &&& error == SnapshotStateErrorView::UnknownHead(id)
            },
        },
{
}

/// The mode that was selected last is the selected one, and nothing else of the
/// head changes. Where the head has that mode, it is published as current.
pub proof fn last_selected_mode_wins(
    collector: CollectorView,
    id: u32,
    mode_id: u32,
)
    ensures
        match collector.set_head_current_mode(id, mode_id) {
            Ok(next) => {
                let before = collector.heads[id];
                let after = next.heads[id];
                let published = after.snapshot();
                &&& collector.heads.contains_key(id)
                &&& differ_at_head(collector, next, id)
                &&& after.id == before.id
                &&& after.name == before.name
                &&& after.description == before.description
                &&& after.enabled == before.enabled
                &&& after.position == before.position
                &&& after.transform == before.transform
                &&& after.scale == before.scale
                &&& after.current_mode_id == Some(mode_id)
                &&& after.modes == before.modes
                &&& before.modes.contains_key(mode_id) ==> published.current_mode == Some(
                    before.modes[mode_id].snapshot(true),
                )
            },
            Err(error) => {
                &&& !collector.heads.contains_key(id)
                &&& error == SnapshotStateErrorView::UnknownHead(id)
            },
        },
{
}

/// The last reported position of a head wins: it is published, whatever the
/// position was before, and nothing else of the head changes.
pub proof fn last_reported_position_wins(
    collector: CollectorView,
    id: u32,
    x: i32,
    y: i32,
)
    ensures
        match collector.set_head_position(id, x, y) {
            Ok(next) => {
                let before = collector.heads[id];
                let after = next.heads[id];
                let published = after.snapshot();
                &&& collector.heads.contains_key(id)
                &&& differ_at_head(collector, next, id)
                &&& after.id == before.id
                &&& after.name == before.name
                &&& after.description == before.description
                &&& after.enabled == before.enabled
                &&& after.position == Some((x, y))
                &&& after.transform == before.transform
                &&& after.scale == before.scale
                &&& after.current_mode_id == before.current_mode_id
                &&& after.modes == before.modes
                &&& published.position == Some((x, y))
            },
            Err(error) => {
                &&& !collector.heads.contains_key(id)
                &&& error == SnapshotStateErrorView::UnknownHead(id)
            },
        },
{
}

/// The last reported transform of a head wins, and nothing else of the head
/// changes.
pub proof fn last_reported_transform_wins(
    collector: CollectorView,
    id: u32,
    transform: u32,
)
    ensures
        match collector.set_head_transform(id, transform) {
            Ok(next) => {
                let before = collector.heads[id];
                let after = next.heads[id];
                let published = after.snapshot();
                &&& collector.heads.contains_key(id)
                &&& differ_at_head(collector, next, id)
                &&& after.id == before.id
                &&& after.name == before.name
                &&& after.description == before.description
                &&& after.enabled == before.enabled
                &&& after.position == before.position
                &&& after.transform == Some(transform)
                &&& after.scale == before.scale
                &&& after.current_mode_id == before.current_mode_id
                &&& after.modes == before.modes
                &&& published.transform == Some(transform)
            },
            Err(error) => {
                &&& !collector.heads.contains_key(id)
                &&& error == SnapshotStateErrorView::UnknownHead(id)
            },
        },
{
}

/// A head that is switched on is published as enabled, and nothing else of it
/// changes.
pub proof fn switching_on_changes_nothing_else(
    collector: CollectorView,
    id: u32,
)
    ensures
        match collector.set_head_enabled(id, true) {
            Ok(next) => {
                let before = collector.heads[id];
                let after = next.heads[id];
                let published = after.snapshot();
                &&& collector.heads.contains_key(id)
                &&& differ_at_head(collector, next, id)
                &&& after.id == before.id
                &&& after.name == before.name
                &&& after.description == before.description
                &&& after.enabled == true
                &&& after.position == before.position
                &&& after.transform == before.transform
                &&& after.scale == before.scale
                &&& after.current_mode_id == before.current_mode_id
                &&& after.modes == before.modes
                &&& published.enabled
            },
            Err(error) => {
                &&& !collector.heads.contains_key(id)
                &&& error == SnapshotStateErrorView::UnknownHead(id)
            },
        },
{
}

/// A head that is switched off loses position, transform, scale and selected mode,
/// whatever they were; its name, its description and its modes stay.
pub proof fn switching_off_drops_the_layout(
    collector: CollectorView,
    id: u32,
)
    ensures
        match collector.set_head_enabled(id, false) {
            Ok(next) => {
                let before = collector.heads[id];
                let after = next.heads[id];
                let published = after.snapshot();
                &&& collector.heads.contains_key(id)
                &&& differ_at_head(collector, next, id)
                &&& after.id == before.id
                &&& after.name == before.name
                &&& after.description == before.description
                &&& after.enabled == false
                &&& after.position == None::<(i32, i32)>
                &&& after.transform == None::<u32>
                &&& after.scale == None::<ScaleView>
                &&& after.current_mode_id == None::<u32>
                &&& after.modes == before.modes
                &&& !published.enabled
                &&& published.position is None
                &&& published.transform is None
                &&& published.scale is None
            },
            Err(error) => {
                &&& !collector.heads.contains_key(id)
                &&& error == SnapshotStateErrorView::UnknownHead(id)
            },
        },
{
}

/// A reported scale is refused exactly where it is no finite number above zero, or
/// rounds to zero or below, and the refusal names the scale as it was reported.
/// Otherwise the rounded scale wins over what was there, and nothing else of the
/// head changes.
pub proof fn last_reported_scale_wins(
    collector: CollectorView,
    id: u32,
    scale: ScaleView,
    rounded: ScaleView,
)
    ensures
        ({
            let refused = {
                ||| scale.bits == 0
                ||| scale.bits >= 0x7ff0_0000_0000_0000
                ||| rounded.bits == 0
                ||| 0x8000_0000_0000_0000 <= rounded.bits <= 0xfff0_0000_0000_0000
            };
            match collector.set_head_scale(id, scale, rounded) {
                Ok(next) => {
                    let before = collector.heads[id];
                    let after = next.heads[id];
                    &&& !refused
                    &&& collector.heads.contains_key(id)
                    &&& differ_at_head(collector, next, id)
                    &&& after.id == before.id
                    &&& after.name == before.name
                    &&& after.description == before.description
                    &&& after.enabled == before.enabled
                    &&& after.position == before.position
                    &&& after.transform == before.transform
                    &&& after.scale == Some(rounded)
                    &&& after.current_mode_id == before.current_mode_id
                    &&& after.modes == before.modes
                    &&& after.snapshot().scale == Some(rounded)
                },
                Err(error) => if refused {
                    error == SnapshotStateErrorView::InvalidScale(scale)
                } else {
                    &&& !collector.heads.contains_key(id)
                    &&& error == SnapshotStateErrorView::UnknownHead(id)
                },
            }
        }),
        match collector::normalized_scale(scale, rounded) {
            Ok(normalized) => normalized == rounded,
            Err(error) => error == SnapshotStateErrorView::InvalidScale(scale),
        },
{
}

/// Apart from the mode with this id, and from nothing else of its head, two
/// collected states are the same.
pub open spec fn differ_at_mode(before: CollectorView, after: CollectorView, id: u32) -> bool {
    let h = before.mode_to_head[id];
    &&& differ_at_head(before, after, h)
    &&& after.heads[h].id == before.heads[h].id
    &&& after.heads[h].name == before.heads[h].name
    &&& after.heads[h].description == before.heads[h].description
    &&& after.heads[h].enabled == before.heads[h].enabled
    &&& after.heads[h].position == before.heads[h].position
    &&& after.heads[h].transform == before.heads[h].transform
    &&& after.heads[h].scale == before.heads[h].scale
    &&& after.heads[h].current_mode_id == before.heads[h].current_mode_id
    &&& forall|m: u32| #[trigger]
        after.heads[h].modes.contains_key(m) <==> before.heads[h].modes.contains_key(m) || m == id
    &&& forall|m: u32| m != id ==> #[trigger] after.heads[h].modes[m] == before.heads[h].modes[m]
}

/// The last reported size of a mode wins, and nothing else changes.
pub proof fn last_reported_size_wins(
    collector: CollectorView,
    id: u32,
    width: i32,
    height: i32,
)
    ensures
        match collector.set_mode_size(id, width, height) {
            Ok(next) => {
                let head_id = collector.mode_to_head[id];
                let before = collector.heads[head_id].modes[id];
                let after = next.heads[head_id].modes[id];
                &&& collector.mode_to_head.contains_key(id)
                &&& differ_at_mode(collector, next, id)
                &&& after.id == before.id
                &&& after.width == Some(width)
                &&& after.height == Some(height)
                &&& after.refresh_mhz == before.refresh_mhz
                &&& after.preferred == before.preferred
            },
            Err(error) => {
                &&& !collector.mode_to_head.contains_key(id)
                &&& error == SnapshotStateErrorView::UnknownMode(id)
            },
        },
{
}

/// The last reported refresh rate of a mode wins, and nothing else changes.
pub proof fn last_reported_refresh_rate_wins(
    collector: CollectorView,
    id: u32,
    refresh: i32,
)
    ensures
        match collector.set_mode_refresh(id, refresh) {
            Ok(next) => {
                let head_id = collector.mode_to_head[id];
                let before = collector.heads[head_id].modes[id];
                let after = next.heads[head_id].modes[id];
                &&& collector.mode_to_head.contains_key(id)
                &&& differ_at_mode(collector, next, id)
                &&& after.id == before.id
                &&& after.width == before.width
                &&& after.height == before.height
                &&& after.refresh_mhz == Some(refresh)
                &&& after.preferred == before.preferred
            },
            Err(error) => {
                &&& !collector.mode_to_head.contains_key(id)
                &&& error == SnapshotStateErrorView::UnknownMode(id)
            },
        },
{
}

/// A mode that is reported as preferred is so from then on, and nothing else
/// changes.
pub proof fn preferred_modes_stay_preferred(
    collector: CollectorView,
    id: u32,
)
    ensures
        match collector.set_mode_preferred(id) {
            Ok(next) => {
                let head_id = collector.mode_to_head[id];
                let before = collector.heads[head_id].modes[id];
                let after = next.heads[head_id].modes[id];
                &&& collector.mode_to_head.contains_key(id)
                &&& differ_at_mode(collector, next, id)
                &&& after.id == before.id
                &&& after.width == before.width
                &&& after.height == before.height
                &&& after.refresh_mhz == before.refresh_mhz
                &&& after.preferred == true
            },
            Err(error) => {
                &&& !collector.mode_to_head.contains_key(id)
                &&& error == SnapshotStateErrorView::UnknownMode(id)
            },
        },
{
}

/// A head that is announced is known from then on. One that was not known before
/// begins with nothing but its id: it is published as `head-` and the id, switched
/// off and without modes. One that was known stays as it is, and so do all others.
pub proof fn announced_head_begins_empty(collector: CollectorView, id: u32)
    ensures
        ({
            let next = collector.note_head(id);
            let head = next.heads[id];
            &&& next.heads.contains_key(id)
            &&& differ_at_head(collector, next, id)
            &&& collector.heads.contains_key(id) ==> next == collector
            &&& !collector.heads.contains_key(id) ==> {
                &&& head.id == id
                &&& head.name is None
                &&& head.description is None
                &&& !head.enabled
                &&& head.position is None
                &&& head.transform is None
                &&& head.scale is None
                &&& head.current_mode_id is None
                &&& forall|m: u32| !(#[trigger] head.modes.contains_key(m))
                &&& head.snapshot().name == "head-"@ + text::decimal(id as int)
                &&& !head.snapshot().enabled
            }
        }),
{
}

/// A mode that is announced belongs to the head that announced it. One that the
/// head did not have before begins with nothing but its id, and one that it had
/// stays as it is; nothing else changes. The head must be known.
pub proof fn announced_mode_begins_empty(collector: CollectorView, head_id: u32, mode_id: u32)
    ensures
        match collector.note_mode(head_id, mode_id) {
            Ok(next) => {
                let before = collector.heads[head_id];
                let after = next.heads[head_id];
                let mode = after.modes[mode_id];
                &&& collector.heads.contains_key(head_id)
                &&& next.publications == collector.publications
                &&& forall|h: u32| #[trigger]
                    next.heads.contains_key(h) <==> collector.heads.contains_key(h)
                &&& forall|h: u32|
                    h != head_id ==> #[trigger] next.heads[h] == collector.heads[h]
                &&& forall|m: u32| #[trigger]
                    next.mode_to_head.contains_key(m) <==> collector.mode_to_head.contains_key(m)
                        || m == mode_id
                &&& next.mode_to_head[mode_id] == head_id
                &&& forall|m: u32|
                    m != mode_id ==> #[trigger] next.mode_to_head[m] == collector.mode_to_head[m]
                &&& after.id == before.id
                &&& after.name == before.name
                &&& after.description == before.description
                &&& after.enabled == before.enabled
                &&& after.position == before.position
                &&& after.transform == before.transform
                &&& after.scale == before.scale
                &&& after.current_mode_id == before.current_mode_id
                &&& forall|m: u32| #[trigger]
                    after.modes.contains_key(m) <==> before.modes.contains_key(m) || m == mode_id
                &&& forall|m: u32| m != mode_id ==> #[trigger] after.modes[m] == before.modes[m]
                &&& if before.modes.contains_key(mode_id) {
                    mode == before.modes[mode_id]
                } else {
                    &&& mode.id == mode_id
                    &&& mode.width is None
                    &&& mode.height is None
                    &&& mode.refresh_mhz is None
                    &&& !mode.preferred
                }
            },
            Err(error) => {
                &&& !collector.heads.contains_key(head_id)
                &&& error == SnapshotStateErrorView::UnknownHead(head_id)
            },
        },
{
}

/// A head that is gone takes its modes with it, and nothing else: all other heads
/// stay as they are, and every mode that it did not have stays where it is.
pub proof fn finished_head_takes_nothing_else(collector: CollectorView, id: u32)
    ensures
        match collector.finish_head(id) {
            Ok(next) => {
                &&& collector.heads.contains_key(id)
                &&& next.publications == collector.publications
                &&& forall|h: u32| #[trigger]
                    next.heads.contains_key(h) <==> collector.heads.contains_key(h) && h != id
                &&& forall|h: u32|
                    next.heads.contains_key(h) ==> #[trigger] next.heads[h] == collector.heads[h]
                &&& forall|m: u32| #[trigger]
                    next.mode_to_head.contains_key(m) <==> collector.mode_to_head.contains_key(m)
                        && !collector.heads[id].modes.contains_key(m)
                &&& forall|m: u32|
                    next.mode_to_head.contains_key(m) ==> #[trigger] next.mode_to_head[m]
                        == collector.mode_to_head[m]
            },
            Err(error) => {
                &&& !collector.heads.contains_key(id)
                &&& error == SnapshotStateErrorView::UnknownHead(id)
            },
        },
{
}

/// A mode that is gone leaves its head as it was but for itself: the other modes
/// stay, and the selected mode too unless it is the one that is gone.
pub proof fn finished_mode_takes_nothing_else(collector: CollectorView, id: u32)
    ensures
        match collector.finish_mode(id) {
            Ok(next) => {
                let head_id = collector.mode_to_head[id];
                let before = collector.heads[head_id];
                let after = next.heads[head_id];
                &&& collector.mode_to_head.contains_key(id)
                &&& next.publications == collector.publications
                &&& forall|h: u32| #[trigger]
                    next.heads.contains_key(h) <==> collector.heads.contains_key(h) || h == head_id
                &&& forall|h: u32|
                    h != head_id ==> #[trigger] next.heads[h] == collector.heads[h]
                &&& forall|m: u32| #[trigger]
                    next.mode_to_head.contains_key(m) <==> collector.mode_to_head.contains_key(m)
                        && m != id
                &&& forall|m: u32|
                    m != id ==> #[trigger] next.mode_to_head[m] == collector.mode_to_head[m]
                &&& after.id == before.id
                &&& after.name == before.name
                &&& after.description == before.description
                &&& after.enabled == before.enabled
                &&& after.position == before.position
                &&& after.transform == before.transform
                &&& after.scale == before.scale
                &&& before.current_mode_id == Some(id) ==> after.current_mode_id is None
                &&& before.current_mode_id != Some(id) ==> after.current_mode_id
                    == before.current_mode_id
                &&& forall|m: u32| #[trigger]
                    after.modes.contains_key(m) <==> before.modes.contains_key(m) && m != id
                &&& forall|m: u32| m != id ==> #[trigger] after.modes[m] == before.modes[m]
            },
            Err(error) => {
                &&& !collector.mode_to_head.contains_key(id)
                &&& error == SnapshotStateErrorView::UnknownMode(id)
            },
        },
{
}

/// A mode is published as it was reported; of its size, what was not reported is
/// zero.
pub proof fn modes_are_published_as_reported(mode: PendingMode, current: bool)
    ensures
        ({
            let published = mode.snapshot(current);
            &&& mode.width matches Some(width) ==> published.width == width
            &&& mode.width is None ==> published.width == 0
            &&& mode.height matches Some(height) ==> published.height == height
            &&& mode.height is None ==> published.height == 0
            &&& published.refresh_mhz == mode.refresh_mhz
            &&& published.preferred == mode.preferred
            &&& published.current == current
        }),
{
}

/// A head is published as it was reported. A head without a name goes by `head-`
/// and its id.
pub proof fn heads_are_published_as_reported(head: PendingHeadView)
    ensures
        ({
            let published = head.snapshot();
            &&& head.name matches Some(name) ==> published.name == name
            &&& head.name is None ==> published.name == "head-"@ + text::decimal(head.id as int)
            &&& published.description == head.description
            &&& published.enabled == head.enabled
            &&& published.position == head.position
            &&& published.transform == head.transform
            &&& published.scale == head.scale
        }),
{
}

/// Every mode of a head is published, each as it was reported, and nothing else:
/// each published mode is one of the head's. The one that is published as current
/// is the selected one, where the head has it; otherwise it is the first preferred
/// one in the order of publication, and where there is none, there is no current
/// mode.
pub proof fn every_mode_is_published(head: PendingHeadView, id: u32)
    requires
        head.wf(),
    ensures
        ({
            let published = head.snapshot();
            let current = |m: u32| {
                if head.current_mode_id is Some && head.modes.contains_key(
                    head.current_mode_id->0,
                ) {
                    head.current_mode_id == Some(m)
                } else {
                    &&& head.modes[m].preferred
                    &&& forall|k: u32| #[trigger]
                        head.modes.contains_key(k) && head.modes[k].preferred
                            ==> collector::mode_le(head.modes[m], m, head.modes[k], k)
                }
            };
            &&& published.modes.len() == head.modes.len()
            &&& head.modes.contains_key(id) ==> published.modes.contains(
                head.modes[id].snapshot(current(id)),
            )
            &&& head.modes.contains_key(id) && current(id) ==> published.current_mode == Some(
                head.modes[id].snapshot(true),
            )
            &&& published.current_mode is Some ==> exists|m: u32|
                #![trigger head.modes.contains_key(m)]
                head.modes.contains_key(m) && current(m)
            &&& forall|i: int| #![trigger published.modes[i]]
                0 <= i < published.modes.len() ==> exists|m: u32, marked: bool|
                    head.modes.contains_key(m) && published.modes[i]
                        == #[trigger] head.modes[m].snapshot(marked)
        }),
{
    let published = head.snapshot();
    let listing = collector::mode_listing(head.modes);
    let leq = collector::mode_order(head.modes);
    let preferred = collector::preferred_in(head.modes);
    collector::mode_order_is_total(head.modes);
    order::lemma_listing_elements(head.modes.dom(), leq);
    let selected = head.selected_mode();
    let current = |m: u32| {
        if head.current_mode_id is Some && head.modes.contains_key(head.current_mode_id->0) {
            head.current_mode_id == Some(m)
        } else {
            &&& head.modes[m].preferred
            &&& forall|k: u32| #[trigger]
                head.modes.contains_key(k) && head.modes[k].preferred ==> collector::mode_le(
                    head.modes[m],
                    m,
                    head.modes[k],
                    k,
                )
        }
    };
    assert forall|m: u32| #[trigger] head.modes.contains_key(m) implies (current(m) <==> selected
        == Some(m)) by {
        lemma_selected(head, m);
    }
    if head.modes.contains_key(id) {
        assert(listing.to_set().contains(id));
        let i = choose|i: int| 0 <= i < listing.len() && listing[i] == id;
        assert(published.modes[i] == head.modes[id].snapshot(current(id)));
    }
    if published.current_mode is Some {
        collector::selected_mode_is_known(head);
        assert(head.modes.contains_key(selected->0) && current(selected->0));
    }
    assert forall|i: int| #![trigger published.modes[i]] 0 <= i < published.modes.len() implies
        exists|m: u32, marked: bool|
            head.modes.contains_key(m) && published.modes[i] == #[trigger] head.modes[m].snapshot(
                marked,
            ) by {
        assert(listing.to_set().contains(listing[i]));
        let marked = Some(listing[i]) == selected;
        assert(published.modes[i] == head.modes[listing[i]].snapshot(marked));
    }
}

proof fn lemma_selected(head: PendingHeadView, m: u32)
    requires
        head.wf(),
        head.modes.contains_key(m),
    ensures
        head.current_mode_id is Some && head.modes.contains_key(head.current_mode_id->0) ==> (
        head.selected_mode() == Some(m) <==> head.current_mode_id == Some(m)),
        !(head.current_mode_id is Some && head.modes.contains_key(head.current_mode_id->0)) ==> (
        head.selected_mode() == Some(m) <==> head.modes[m].preferred && forall|k: u32| #[trigger]
            head.modes.contains_key(k) && head.modes[k].preferred ==> collector::mode_le(
                head.modes[m],
                m,
                head.modes[k],
                k,
            )),
{
    let listing = collector::mode_listing(head.modes);
    let leq = collector::mode_order(head.modes);
    let preferred = collector::preferred_in(head.modes);
    collector::mode_order_is_total(head.modes);
    order::lemma_listing_elements(head.modes.dom(), leq);
    assert(listing.to_set().contains(m));
    let i = choose|i: int| 0 <= i < listing.len() && listing[i] == m;
    let first = head.modes[m].preferred && forall|k: u32| #[trigger]
        head.modes.contains_key(k) && head.modes[k].preferred ==> collector::mode_le(
            head.modes[m],
            m,
            head.modes[k],
            k,
        );
    if !(head.current_mode_id is Some && head.modes.contains_key(head.current_mode_id->0)) {
        if first {
            assert forall|j: int| 0 <= j < i implies !preferred(#[trigger] listing[j]) by {
                assert(listing.to_set().contains(listing[j]));
                assert(leq(listing[j], listing[i]));
                if preferred(listing[j]) {
                    assert(head.modes.contains_key(listing[j]));
                    assert(leq(listing[i], listing[j]));
                }
            }
            order::lemma_found(listing, preferred, i);
        } else if head.selected_mode() == Some(m) {
            order::lemma_find_first(listing, preferred);
            assert(preferred(m));
            assert forall|k: u32| #[trigger]
                head.modes.contains_key(k) && head.modes[k].preferred implies collector::mode_le(
                head.modes[m],
                m,
                head.modes[k],
                k,
            ) by {
                assert(listing.to_set().contains(k));
                let j = choose|j: int| 0 <= j < listing.len() && listing[j] == k;
                if j < i {
                    let p = lemma_earliest(listing, preferred, j);
                    order::lemma_found(listing, preferred, p);
                    assert(listing[p] == m);
                } else if i < j {
                    assert(leq(listing[i], listing[j]));
                } else {
                    assert(leq(m, m));
                }
            }
        }
    }
}

proof fn lemma_earliest(listing: Seq<u32>, pred: spec_fn(u32) -> bool, j: int) -> (p: int)
    requires
        0 <= j < listing.len(),
        pred(listing[j]),
    ensures
        0 <= p <= j,
        pred(listing[p]),
        forall|q: int| 0 <= q < p ==> !pred(#[trigger] listing[q]),
    decreases j,
{
    if exists|q: int| 0 <= q < j && pred(#[trigger] listing[q]) {
        let q = choose|q: int| 0 <= q < j && pred(#[trigger] listing[q]);
        lemma_earliest(listing, pred, q)
    } else {
        j
    }
}

/// The modes of a head are listed by width first, then by height, then by refresh
/// rate, each in ascending order with what is unknown in front, then those that
/// are not preferred before those that are, and last by id.
pub proof fn modes_compare_by_size_and_rate(a: PendingMode, i: u32, b: PendingMode, j: u32)
    ensures
        ({
            let below = |left: Option<i32>, right: Option<i32>|
                match (left, right) {
                    (Some(l), Some(r)) => l < r,
                    (None, Some(_)) => true,
                    _ => false,
                };
            &&& below(a.width, b.width) ==> collector::mode_le(a, i, b, j)
                && !collector::mode_le(b, j, a, i)
            &&& a.width == b.width && below(a.height, b.height) ==> collector::mode_le(a, i, b, j)
                && !collector::mode_le(b, j, a, i)
            &&& a.width == b.width && a.height == b.height && below(a.refresh_mhz, b.refresh_mhz)
                ==> collector::mode_le(a, i, b, j) && !collector::mode_le(b, j, a, i)
            &&& a.width == b.width && a.height == b.height && a.refresh_mhz == b.refresh_mhz
                && !a.preferred && b.preferred ==> collector::mode_le(a, i, b, j)
                && !collector::mode_le(b, j, a, i)
            &&& a.width == b.width && a.height == b.height && a.refresh_mhz == b.refresh_mhz
                && a.preferred == b.preferred ==> (collector::mode_le(a, i, b, j) <==> i <= j)
        }),
{
}

/// Heads are published by name, and heads of one name by id.
pub proof fn heads_compare_by_name(a: PendingHeadView, i: u32, b: PendingHeadView, j: u32)
    ensures
        ({
            let left = a.snapshot().name;
            let right = b.snapshot().name;
            &&& left != right ==> (collector::head_le(a, i, b, j) <==> text::text_le(left, right))
            &&& left == right ==> (collector::head_le(a, i, b, j) <==> i <= j)
        }),
{
    text::text_order_is_total();
    let leq = text::text_order();
    assert(leq(a.published_name(), a.published_name()));
}

/// A `done` publishes a snapshot that carries its serial, behind all that was
/// published before, and changes nothing else. The snapshot holds nothing but the
/// heads that are known, in the order in which they compare.
pub proof fn done_publishes_the_known_heads(collector: CollectorView, serial: u32, i: int, j: int)
    requires
        collector.wf(),
    ensures
        ({
            let next = collector.publish_done(serial);
            let snapshot = collector.snapshot(serial);
            &&& next.heads == collector.heads
            &&& next.mode_to_head == collector.mode_to_head
            &&& next.publications.len() == collector.publications.len() + 1
            &&& next.publications.drop_last() == collector.publications
            &&& next.publications.last() == snapshot
            &&& snapshot.serial == serial
            &&& snapshot.heads.len() == collector.heads.len()
            &&& 0 <= i < j < snapshot.heads.len() ==> exists|g: u32, h: u32|
                #![trigger collector.heads[g], collector.heads[h]]
                {
                    &&& g != h
                    &&& collector.heads.contains_key(g)
                    &&& collector.heads.contains_key(h)
                    &&& snapshot.heads[i] == collector.heads[g].snapshot()
                    &&& snapshot.heads[j] == collector.heads[h].snapshot()
                    &&& collector::head_le(collector.heads[g], g, collector.heads[h], h)
                }
            &&& 0 <= i < snapshot.heads.len() ==> exists|h: u32|
                collector.heads.contains_key(h) && snapshot.heads[i] == #[trigger] collector.heads[
                h].snapshot()
        }),
{
    let next = collector.publish_done(serial);
    let snapshot = collector.snapshot(serial);
    let listing = collector::head_listing(collector.heads);
    let leq = collector::head_order(collector.heads);
    collector::head_order_is_total(collector.heads);
    order::lemma_listing_elements(collector.heads.dom(), leq);
    assert(next.publications.drop_last() =~= collector.publications);
    if 0 <= i < snapshot.heads.len() {
        assert(listing.to_set().contains(listing[i]));
        assert(snapshot.heads[i] == collector.heads[listing[i]].snapshot());
    }
    if 0 <= i < j < snapshot.heads.len() {
        assert(listing.to_set().contains(listing[j]));
        assert(leq(listing[i], listing[j]));
        let g = listing[i];
        let h = listing[j];
        assert(g != h && collector.heads.contains_key(g) && collector.heads.contains_key(h));
        assert(snapshot.heads[i] == collector.heads[g].snapshot());
        assert(snapshot.heads[j] == collector.heads[h].snapshot());
    }
}

/// A refusal says what was refused.
pub proof fn refusals_say_what_was_refused(scale: ScaleView, id: u32)
    ensures
        SnapshotStateErrorView::InvalidScale(scale).message() == "invalid scale value "@
            + scale.text,
        SnapshotStateErrorView::UnknownHead(id).message() == "unknown head id "@ + text::decimal(
            id as int,
        ),
        SnapshotStateErrorView::UnknownMode(id).message() == "unknown mode id "@ + text::decimal(
            id as int,
        ),
{
}

/// An operation on the collected state ends as it should only where it ends in
/// that very state, or with that very error and with nothing changed.
pub proof fn operations_end_in_one_way(
    before: CollectorView,
    after: CollectorView,
    result: Result<(), SnapshotStateError>,
    expected: Result<CollectorView, SnapshotStateErrorView>,
)
    requires
        collector::ends_as(before, after, result, expected),
    ensures
        result is Ok <==> expected is Ok,
        expected matches Ok(next) ==> after == next,
        expected matches Err(error) ==> after == before && result->Err_0@ == error,
{
}

/// The view of a head tells each of its fields, and that of all heads each head
/// under its id.
pub proof fn head_views_tell_every_field(
    head: PendingHead,
    heads: Map<u32, PendingHead>,
    error: SnapshotStateError,
    id: u32,
)
    ensures
        head@.id == head.id,
        head.name matches Some(name) ==> head@.name == Some(name@),
        head.name is None ==> head@.name is None,
        head.description matches Some(text) ==> head@.description == Some(text@),
        head.description is None ==> head@.description is None,
        head@.enabled == head.enabled,
        head@.position == head.position,
        head@.transform == head.transform,
        head.scale matches Some(scale) ==> head@.scale == Some(scale@),
        head.scale is None ==> head@.scale is None,
        head@.current_mode_id == head.current_mode_id,
        head@.modes == head.modes@,
        collector::pending_views(heads).contains_key(id) <==> heads.contains_key(id),
        heads.contains_key(id) ==> collector::pending_views(heads)[id] == heads[id]@,
        match error {
            SnapshotStateError::InvalidScale(scale) => error@
                == SnapshotStateErrorView::InvalidScale(scale@),
            SnapshotStateError::UnknownHead(h) => error@ == SnapshotStateErrorView::UnknownHead(h),
            SnapshotStateError::UnknownMode(m) => error@ == SnapshotStateErrorView::UnknownMode(m),
        },
{
}

/// Before the first event nothing is known and nothing is published.
pub proof fn collection_begins_empty(id: u32)
    ensures
        !CollectorView::empty().heads.contains_key(id),
        !CollectorView::empty().mode_to_head.contains_key(id),
        CollectorView::empty().publications.len() == 0,
        CollectorView::empty().wf(),
{
}

} // verus!
