//! Kanshi profiles: what they are called and what they say.

use vstd::prelude::*;
use vstd::string::*;

use crate::monitor;
use crate::monitor::{
    KanshiProfileEntry, LogicalMonitor, LogicalMonitorView, Monitor, MonitorApply,
    MonitorApplyView, MonitorView,
};
use crate::order;
use crate::text;

verus! {

/// The names that monitors go by.
pub open spec fn display_names(monitors: Seq<MonitorView>) -> Seq<Seq<char>> {
    Seq::new(monitors.len(), |i: int| monitors[i].description.display_name())
}

/// The name of the profile for a set of monitors: their names in order, with
/// underscores for spaces, joined by two underscores.
pub open spec fn profile_name(monitors: Seq<MonitorView>) -> Seq<char> {
    let sorted = display_names(monitors).sort_by(text::text_order());
    text::joined(Seq::new(sorted.len(), |i: int| text::underscored(sorted[i])), "__"@)
}

/// The name of the profile for these monitors.
pub fn profile_name_for_monitors(monitors: &[Monitor]) -> (name: String)
    ensures
        name@ == profile_name(monitor::monitor_views(monitors@)),
{
    let ghost views = monitor::monitor_views(monitors@);
    let mut names: Vec<String> = Vec::new();
    for i in 0..monitors.len()
        invariant
            views == monitor::monitor_views(monitors@),
            names@.len() == i,
            forall|j: int| 0 <= j < i ==> (#[trigger] names@[j])@ == display_names(views)[j],
    {
        names.push(monitors[i].get_dpy_name());
    }
    assert(text::texts(names@) =~= display_names(views));
    let sorted = text::sort_texts(names);
    let ghost parts = Seq::new(sorted@.len(), |i: int| text::underscored(sorted@[i]@));
    let mut name = String::new();
    assert(name@ =~= text::joined(parts.take(0), "__"@));
    for i in 0..sorted.len()
        invariant
            parts == Seq::new(sorted@.len(), |i: int| text::underscored(sorted@[i]@)),
            name@ == text::joined(parts.take(i as int), "__"@),
    {
        let ghost before = name@;
        if i > 0 {
            name.append("__");
        }
        text::push_underscored(&mut name, sorted[i].as_str());
        proof {
            let next = parts.take(i + 1);
            assert(next.drop_last() =~= parts.take(i as int));
            assert(next.last() == text::underscored(sorted@[i as int]@));
            if i == 0 {
                assert(before =~= seq![]);
                assert(name@ =~= next[0]);
            }
        }
    }
    proof {
        assert(parts.take(sorted@.len() as int) =~= parts);
        let listed = display_names(views).sort_by(text::text_order());
        assert(listed == text::texts(sorted@));
        assert(parts =~= Seq::new(listed.len(), |i: int| text::underscored(listed[i])));
    }
    name
}

/// The name of a profile does not depend on the order in which the monitors
/// are listed.
pub proof fn profile_name_forgets_order(left: Seq<MonitorView>, right: Seq<MonitorView>)
    requires
        left.to_multiset() == right.to_multiset(),
    ensures
        profile_name(left) == profile_name(right),
{
    let name = |m: MonitorView| m.description.display_name();
    assert(display_names(left) =~= left.map_values(name));
    assert(display_names(right) =~= right.map_values(name));
    order::lemma_mapped_elements(left, right, name);
    text::sorting_forgets_order(display_names(left), display_names(right));
}

/// The line of a profile that switches a monitor off.
pub open spec fn disabling_line(monitor: MonitorView) -> Seq<char> {
    "\toutput \""@ + monitor.description.display_name() + "\" disable\n"@
}

/// The monitor that an entry switches on, if there is one.
pub open spec fn switched_on<T: KanshiProfileEntry>(
    entry: T,
    monitors: Seq<MonitorView>,
) -> Option<MonitorView> {
    match entry.found(monitors) {
        Some(monitor) => if entry.line(monitor) is Some {
            Some(monitor)
        } else {
            None
        },
        None => None,
    }
}

/// What a profile says on account of an entry.
pub open spec fn entry_text<T: KanshiProfileEntry>(
    entry: T,
    monitors: Seq<MonitorView>,
) -> Seq<char> {
    match switched_on(entry, monitors) {
        Some(monitor) => entry.line(monitor)->0,
        None => seq![],
    }
}

/// The lines for the entries.
pub open spec fn entry_texts<T: KanshiProfileEntry>(
    entries: Seq<T>,
    monitors: Seq<MonitorView>,
) -> Seq<Seq<char>> {
    Seq::new(entries.len(), |i: int| entry_text(entries[i], monitors))
}

/// Whether some entry switches on a monitor of the same identity.
pub open spec fn is_on<T: KanshiProfileEntry>(
    entries: Seq<T>,
    monitors: Seq<MonitorView>,
    monitor: MonitorView,
) -> bool {
    exists|i: int|
        0 <= i < entries.len() && (#[trigger] switched_on(entries[i], monitors) matches Some(on)
            && on.identity() == monitor.identity())
}

/// Being switched on by no entry.
pub open spec fn is_off<T: KanshiProfileEntry>(
    entries: Seq<T>,
    monitors: Seq<MonitorView>,
) -> spec_fn(MonitorView) -> bool {
    |monitor: MonitorView| !is_on(entries, monitors, monitor)
}

/// The monitors that no entry switches on.
pub open spec fn disabled_monitors<T: KanshiProfileEntry>(
    entries: Seq<T>,
    monitors: Seq<MonitorView>,
) -> Seq<MonitorView> {
    monitors.filter(is_off(entries, monitors))
}

/// The profile for some monitors: a line for each entry that switches one of
/// them on, and one that switches off each of the others.
pub open spec fn profile_text<T: KanshiProfileEntry>(
    monitors: Seq<MonitorView>,
    entries: Seq<T>,
) -> Seq<char> {
    let disabled = disabled_monitors(entries, monitors);
    "profile {\n"@ + text::concatenated(entry_texts(entries, monitors)) + text::concatenated(
        Seq::new(disabled.len(), |i: int| disabling_line(disabled[i])),
    ) + "}\n"@
}

/// Whether every entry can be looked up and, where it finds a monitor, written.
pub open spec fn can_render<T: KanshiProfileEntry>(
    monitors: Seq<MonitorView>,
    entries: Seq<T>,
) -> bool {
    forall|i: int|
        0 <= i < entries.len() ==> (#[trigger] entries[i]).can_find(monitors) && (entries[i].found(
            monitors,
        ) is Some ==> entries[i].can_write())
}

/// The profile for these monitors.
pub fn kanshi_profile_text<T: KanshiProfileEntry>(
    monitors: &[Monitor],
    logical_monitors: &[T],
) -> (profile: String)
    requires
        can_render(monitor::monitor_views(monitors@), logical_monitors@),
    ensures
        profile@ == profile_text(monitor::monitor_views(monitors@), logical_monitors@),
{
    let mut profile = String::new();
    write_kanshi_profile(&mut profile, monitors, logical_monitors);
    assert(profile@ =~= profile_text(monitor::monitor_views(monitors@), logical_monitors@));
    profile
}

/// Being the same monitor as none of these.
pub open spec fn not_among(active: Seq<MonitorView>) -> spec_fn(MonitorView) -> bool {
    |monitor: MonitorView| !among(active, monitor)
}

/// Being the same monitor as one of these.
pub open spec fn among(active: Seq<MonitorView>, monitor: MonitorView) -> bool {
    exists|i: int| 0 <= i < active.len() && (#[trigger] active[i]).identity() == monitor.identity()
}

/// What a list of borrowed monitors stands for.
pub open spec fn borrowed_views(monitors: Seq<&Monitor>) -> Seq<MonitorView> {
    Seq::new(monitors.len(), |i: int| monitors[i]@)
}

/// The monitors that are not active.
pub fn get_disabled_monitors<'a>(
    monitors: &'a [Monitor],
    active_physical_monitors: &[Monitor],
) -> (disabled: Vec<&'a Monitor>)
    ensures
        borrowed_views(disabled@) == monitor::monitor_views(monitors@).filter(
            not_among(monitor::monitor_views(active_physical_monitors@)),
        ),
{
    let ghost views = monitor::monitor_views(monitors@);
    let ghost active = monitor::monitor_views(active_physical_monitors@);
    let ghost pred = not_among(active);
    let mut disabled: Vec<&Monitor> = Vec::new();
    proof {
        reveal(Seq::filter);
        assert(borrowed_views(disabled@) =~= views.take(0).filter(pred));
    }
    for i in 0..monitors.len()
        invariant
            views == monitor::monitor_views(monitors@),
            active == monitor::monitor_views(active_physical_monitors@),
            pred == not_among(active),
            borrowed_views(disabled@) == views.take(i as int).filter(pred),
    {
        let mon = &monitors[i];
        let mut found = false;
        for j in 0..active_physical_monitors.len()
            invariant
                active == monitor::monitor_views(active_physical_monitors@),
                found == among(active.take(j as int), mon@),
        {
            let ghost next = active.take(j + 1);
            assert(next[j as int] == active_physical_monitors@[j as int]@);
            if active_physical_monitors[j] == *mon {
                found = true;
            }
            proof {
                if among(active.take(j as int), mon@) {
                    let k = choose|k: int|
                        0 <= k < j && (#[trigger] active.take(j as int)[k]).identity()
                            == mon@.identity();
                    assert(next[k].identity() == mon@.identity());
                }
                if among(next, mon@) {
                    let k = choose|k: int|
                        0 <= k < j + 1 && (#[trigger] next[k]).identity() == mon@.identity();
                    if k < j {
                        assert(active.take(j as int)[k].identity() == mon@.identity());
                    }
                }
            }
        }
        assert(active.take(active.len() as int) =~= active);
        let ghost before = disabled@;
        proof {
            reveal(Seq::filter);
            assert(views.take(i + 1).drop_last() =~= views.take(i as int));
        }
        if !found {
            disabled.push(mon);
            assert(borrowed_views(disabled@) =~= borrowed_views(before).push(mon@));
        }
    }
    assert(views.take(views.len() as int) =~= views);
    disabled
}

proof fn lemma_is_on_step<T: KanshiProfileEntry>(
    entries: Seq<T>,
    monitors: Seq<MonitorView>,
    i: int,
    monitor: MonitorView,
)
    requires
        0 <= i < entries.len(),
    ensures
        is_on(entries.take(i + 1), monitors, monitor) <==> is_on(
            entries.take(i),
            monitors,
            monitor,
        ) || (switched_on(entries[i], monitors) matches Some(on) && on.identity()
            == monitor.identity()),
{
    let before = entries.take(i);
    let after = entries.take(i + 1);
    if is_on(before, monitors, monitor) {
        let k = choose|k: int|
            0 <= k < before.len() && (#[trigger] switched_on(before[k], monitors) matches Some(on)
                && on.identity() == monitor.identity());
        assert(after[k] == before[k]);
        assert(switched_on(after[k], monitors) is Some);
    }
    if is_on(after, monitors, monitor) {
        let k = choose|k: int|
            0 <= k < after.len() && (#[trigger] switched_on(after[k], monitors) matches Some(on)
                && on.identity() == monitor.identity());
        if k < i {
            assert(after[k] == before[k]);
            assert(switched_on(before[k], monitors) is Some);
        }
    }
    assert(after[i] == entries[i]);
    assert(switched_on(after[i], monitors) == switched_on(entries[i], monitors));
}

proof fn lemma_among_push(active: Seq<MonitorView>, on: MonitorView, monitor: MonitorView)
    ensures
        among(active.push(on), monitor) <==> among(active, monitor) || on.identity()
            == monitor.identity(),
{
    let after = active.push(on);
    if among(active, monitor) {
        let k = choose|k: int|
            0 <= k < active.len() && (#[trigger] active[k]).identity() == monitor.identity();
        assert(after[k].identity() == monitor.identity());
    }
    assert(after[active.len() as int] == on);
}

/// Appends the profile for these monitors.
pub fn write_kanshi_profile<T: KanshiProfileEntry>(
    profile_buf: &mut String,
    monitors: &[Monitor],
    logical_monitors: &[T],
)
    requires
        can_render(monitor::monitor_views(monitors@), logical_monitors@),
    ensures
        final(profile_buf)@ == old(profile_buf)@ + profile_text(
            monitor::monitor_views(monitors@),
            logical_monitors@,
        ),
{
    let ghost start = profile_buf@;
    let ghost views = monitor::monitor_views(monitors@);
    let ghost entries = logical_monitors@;
    let ghost lines = entry_texts(entries, views);
    let mut active_physical_monitors: Vec<Monitor> = Vec::new();
    profile_buf.append("profile {\n");
    let ghost opened = profile_buf@;
    assert(lines.take(0) =~= seq![]);
    for i in 0..logical_monitors.len()
        invariant
            views == monitor::monitor_views(monitors@),
            entries == logical_monitors@,
            lines == entry_texts(entries, views),
            can_render(views, entries),
            profile_buf@ == opened + text::concatenated(lines.take(i as int)),
            forall|m: MonitorView| #[trigger]
                among(monitor::monitor_views(active_physical_monitors@), m) == is_on(
                    entries.take(i as int),
                    views,
                    m,
                ),
    {
        let ghost active = monitor::monitor_views(active_physical_monitors@);
        let ghost written = profile_buf@;
        let logical_monitor = &logical_monitors[i];
        assert(entries[i as int].can_find(views));
        if let Some(physical) = logical_monitor.find_monitor(monitors) {
            if logical_monitor.write_kanshi(profile_buf, physical) {
                active_physical_monitors.push(physical.clone());
                assert(monitor::monitor_views(active_physical_monitors@) =~= active.push(
                    physical@,
                ));
            }
        }
        proof {
            assert forall|m: MonitorView| #[trigger]
                among(monitor::monitor_views(active_physical_monitors@), m) == is_on(
                    entries.take(i + 1),
                    views,
                    m,
                ) by {
                lemma_is_on_step(entries, views, i as int, m);
                assert(among(active, m) == is_on(entries.take(i as int), views, m));
                if let Some(on) = switched_on(entries[i as int], views) {
                    lemma_among_push(active, on, m);
                }
            }
            assert(lines.take(i + 1).drop_last() =~= lines.take(i as int));
            assert(lines.take(i + 1).last() == entry_text(entries[i as int], views));
            assert(profile_buf@ =~= written + entry_text(entries[i as int], views));
            assert(profile_buf@ =~= opened + text::concatenated(lines.take(i + 1)));
        }
    }
    let ghost entered = profile_buf@;
    let ghost disabled_views = disabled_monitors(entries, views);
    let disabled = get_disabled_monitors(monitors, active_physical_monitors.as_slice());
    proof {
        assert(lines.take(lines.len() as int) =~= lines);
        assert(entries.take(entries.len() as int) =~= entries);
        let active = monitor::monitor_views(active_physical_monitors@);
        assert forall|m: MonitorView| #[trigger] among(active, m) == is_on(entries, views, m) by {}
        assert(not_among(active) =~= is_off(entries, views));
        assert(borrowed_views(disabled@) == disabled_views);
    }
    let ghost offs = Seq::new(disabled_views.len(), |i: int| disabling_line(disabled_views[i]));
    assert(offs.take(0) =~= seq![]);
    for i in 0..disabled.len()
        invariant
            borrowed_views(disabled@) == disabled_views,
            offs == Seq::new(disabled_views.len(), |i: int| disabling_line(disabled_views[i])),
            profile_buf@ == entered + text::concatenated(offs.take(i as int)),
    {
        let ghost written = profile_buf@;
        let monitor = disabled[i];
        assert(disabled_views[i as int] == monitor@);
        profile_buf.append("\toutput \"");
        profile_buf.append(monitor.get_dpy_name().as_str());
        profile_buf.append("\" disable\n");
        proof {
            assert(offs.take(i + 1).drop_last() =~= offs.take(i as int));
            assert(offs.take(i + 1).last() == disabling_line(monitor@));
            assert(profile_buf@ =~= written + disabling_line(monitor@));
            assert(profile_buf@ =~= entered + text::concatenated(offs.take(i + 1)));
        }
    }
    profile_buf.append("}\n");
    proof {
        assert(disabled_views.len() == disabled@.len());
        assert(offs.take(offs.len() as int) =~= offs);
        assert(profile_buf@ =~= start + profile_text(views, entries));
    }
}

/// What to persist for an observed state: nothing without monitors, otherwise
/// the name of the profile and its text.
pub fn observed_profile<T: KanshiProfileEntry>(
    monitors: &[Monitor],
    logical_monitors: &[T],
) -> (profile: Option<(String, String)>)
    requires
        monitors@.len() > 0 ==> can_render(
            monitor::monitor_views(monitors@),
            logical_monitors@,
        ),
    ensures
        match profile {
            Some((name, text)) => {
                &&& monitors@.len() > 0
                &&& name@ == profile_name(monitor::monitor_views(monitors@))
                &&& text@ == profile_text(monitor::monitor_views(monitors@), logical_monitors@)
            },
            None => monitors@.len() == 0,
        },
{
    if monitors.len() == 0 {
        return None;
    }
    Some((profile_name_for_monitors(monitors), kanshi_profile_text(monitors, logical_monitors)))
}

/// Every monitor is switched on by some entry or switched off, and none is
/// both.
pub proof fn every_monitor_is_on_or_off<T: KanshiProfileEntry>(
    monitors: Seq<MonitorView>,
    entries: Seq<T>,
    monitor: MonitorView,
)
    requires
        monitors.contains(monitor),
    ensures
        is_on(entries, monitors, monitor) <==> !disabled_monitors(entries, monitors).contains(
            monitor,
        ),
{
    let pred = is_off(entries, monitors);
    let disabled = disabled_monitors(entries, monitors);
    if disabled.contains(monitor) {
        let i = choose|i: int| 0 <= i < disabled.len() && disabled[i] == monitor;
        monitors.lemma_filter_pred(pred, i);
    }
    if !is_on(entries, monitors, monitor) {
        let i = choose|i: int| 0 <= i < monitors.len() && monitors[i] == monitor;
        monitors.lemma_filter_contains(pred, i);
    }
}

/// Without entries every monitor is switched off.
pub proof fn all_are_off_without_entries<T: KanshiProfileEntry>(monitors: Seq<MonitorView>)
    ensures
        disabled_monitors(Seq::<T>::empty(), monitors) == monitors,
{
    lemma_filter_all(monitors, is_off(Seq::<T>::empty(), monitors));
}

proof fn lemma_filter_all<A>(s: Seq<A>, pred: spec_fn(A) -> bool)
    requires
        forall|i: int| 0 <= i < s.len() ==> pred(#[trigger] s[i]),
    ensures
        s.filter(pred) == s,
    decreases s.len(),
{
    reveal(Seq::filter);
    if s.len() > 0 {
        lemma_filter_all(s.drop_last(), pred);
        assert(s =~= s.drop_last().push(s.last()));
    }
}

/// Whether a request asks for what a logical monitor shows: the same monitor,
/// in the mode that it is driven in, at the same place, turned and scaled in
/// the same way.
pub open spec fn asks_for_what_is_shown(
    request: MonitorApplyView,
    shown: LogicalMonitorView,
    monitors: Seq<MonitorView>,
) -> bool {
    &&& request.monitors[0].connector == shown.monitors[0].connector
    &&& request.x_pos == shown.x_pos
    &&& request.y_pos == shown.y_pos
    &&& request.transform == shown.transform
    &&& request.scale == shown.scale
    &&& request.monitor(monitors) matches Some(monitor) ==> {
        &&& monitor.current_mode() != "Unknown"@
        &&& request.mode(monitor) is Some
        &&& request.mode(monitor)->0.id == monitor.current_mode()
    }
}

/// What is asked for and what is observed afterwards give the same profile.
pub proof fn requested_and_observed_profiles_agree(
    monitors: Seq<MonitorView>,
    requests: Seq<MonitorApply>,
    shown: Seq<LogicalMonitor>,
)
    requires
        requests.len() == shown.len(),
        forall|i: int|
            0 <= i < requests.len() ==> asks_for_what_is_shown(
                (#[trigger] requests[i])@,
                shown[i]@,
                monitors,
            ),
    ensures
        profile_text(monitors, requests) == profile_text(monitors, shown),
{
    assert forall|i: int| 0 <= i < requests.len() implies #[trigger] switched_on(
        requests[i],
        monitors,
    ) == switched_on(shown[i], monitors) && entry_text(requests[i], monitors) == entry_text(
        shown[i],
        monitors,
    ) by {
        assert(asks_for_what_is_shown(requests[i]@, shown[i]@, monitors));
    }
    assert(entry_texts(requests, monitors) =~= entry_texts(shown, monitors));
    assert forall|m: MonitorView| is_on(requests, monitors, m) == is_on(shown, monitors, m) by {
        if is_on(requests, monitors, m) {
            let i = choose|i: int|
                0 <= i < requests.len() && (#[trigger] switched_on(
                    requests[i],
                    monitors,
                ) matches Some(on) && on.identity() == m.identity());
            assert(switched_on(shown[i], monitors) is Some);
        }
        if is_on(shown, monitors, m) {
            let i = choose|i: int|
                0 <= i < shown.len() && (#[trigger] switched_on(shown[i], monitors) matches Some(on)
                    && on.identity() == m.identity());
            assert(switched_on(requests[i], monitors) is Some);
        }
    }
    assert(is_off(requests, monitors) =~= is_off(shown, monitors));
}

} // verus!
