//! What profiles are called and what they say, line by line.

use vstd::prelude::*;
use vstd::seq_lib::*;

use crate::laws;
use crate::monitor::{KanshiProfileEntry, Monitor, MonitorView};
use crate::profile;
use crate::text;

verus! {

/// The name of a profile is made of the names of all its monitors, in the order of
/// text, each with underscores for spaces, and two underscores between neighbours.
pub proof fn profiles_are_named_after_all_monitors(
    monitors: Seq<MonitorView>,
    names: Seq<Seq<char>>,
)
    requires
        names.to_multiset() == monitors.map_values(
            |m: MonitorView| m.description.display_name(),
        ).to_multiset(),
        forall|i: int, j: int|
            0 <= i < j < names.len() ==> text::text_le(#[trigger] names[i], #[trigger] names[j]),
    ensures
        profile::profile_name(monitors) == text::joined(
            names.map_values(|name: Seq<char>| text::underscored(name)),
            seq!['_', '_'],
        ),
{
    reveal_strlit("__");
    assert("__"@ =~= seq!['_', '_']);
    text::text_order_is_total();
    let leq = text::text_order();
    let listed = profile::display_names(monitors);
    assert(listed =~= monitors.map_values(|m: MonitorView| m.description.display_name()));
    listed.lemma_sort_by_ensures(leq);
    assert forall|i: int, j: int| 0 <= i < j < names.len() implies #[trigger] leq(
        names[i],
        names[j],
    ) by {
        assert(text::text_le(names[i], names[j]));
    }
    lemma_sorted_unique(names, listed.sort_by(leq), leq);
    let sorted = listed.sort_by(leq);
    assert(Seq::new(sorted.len(), |i: int| text::underscored(sorted[i])) =~= names.map_values(
        |name: Seq<char>| text::underscored(name),
    ));
}

/// The profile of one monitor goes by its name alone, and that of none by nothing.
pub proof fn profile_of_one_goes_by_its_name(monitor: MonitorView)
    ensures
        profile::profile_name(seq![monitor]) == text::underscored(
            monitor.description.display_name(),
        ),
        profile::profile_name(seq![]) == Seq::<char>::empty(),
{
    let name = monitor.description.display_name();
    let names = seq![name];
    let none = Seq::<Seq<char>>::empty();
    assert(seq![monitor].map_values(|m: MonitorView| m.description.display_name()) =~= names);
    profiles_are_named_after_all_monitors(seq![monitor], names);
    assert(names.map_values(|n: Seq<char>| text::underscored(n)) =~= seq![text::underscored(name)]);
    assert(Seq::<MonitorView>::empty().map_values(
        |m: MonitorView| m.description.display_name(),
    ) =~= none);
    profiles_are_named_after_all_monitors(seq![], none);
    assert(none.map_values(|n: Seq<char>| text::underscored(n)) =~= none);
}

/// The line that switches a monitor off names it in quotes.
pub proof fn disabling_lines_name_the_monitor(monitor: MonitorView)
    ensures
        profile::disabling_line(monitor) == "\toutput \""@ + monitor.description.display_name()
            + "\" disable\n"@,
{
}

/// What a profile says for an entry: its line for the monitor that it is about, or
/// nothing where it is about none or has no line.
pub open spec fn line_of<T: KanshiProfileEntry>(
    entry: T,
    monitors: Seq<MonitorView>,
) -> Seq<char> {
    match entry.found(monitors) {
        Some(monitor) => match entry.line(monitor) {
            Some(line) => line,
            None => seq![],
        },
        None => seq![],
    }
}

/// Whether an entry has a line for a monitor that is the same as this one.
pub open spec fn switches_on<T: KanshiProfileEntry>(
    entry: T,
    monitors: Seq<MonitorView>,
    monitor: MonitorView,
) -> bool {
    match entry.found(monitors) {
        Some(found) => entry.line(found) is Some && laws::manager::same_monitor(found, monitor),
        None => false,
    }
}

/// Whether no entry has a line for a monitor that is the same as this one.
pub open spec fn stays_off<T: KanshiProfileEntry>(
    entries: Seq<T>,
    monitors: Seq<MonitorView>,
    monitor: MonitorView,
) -> bool {
    forall|i: int| 0 <= i < entries.len() ==> !switches_on(#[trigger] entries[i], monitors, monitor)
}

/// A profile opens, says the line of each entry in order, switches off each of the
/// monitors, in order, that no entry switches on, and closes.
pub proof fn profiles_say_a_line_for_everything<T: KanshiProfileEntry>(
    monitors: Seq<MonitorView>,
    entries: Seq<T>,
)
    ensures
        profile::profile_text(monitors, entries) == "profile {\n"@ + text::concatenated(
            entries.map_values(|entry: T| line_of(entry, monitors)),
        ) + text::concatenated(
            monitors.filter(|m: MonitorView| stays_off(entries, monitors, m)).map_values(
                |m: MonitorView|
                    "\toutput \""@ + m.description.display_name() + "\" disable\n"@,
            ),
        ) + "}\n"@,
{
    let off = |m: MonitorView| stays_off(entries, monitors, m);
    assert forall|m: MonitorView| profile::is_on(entries, monitors, m) <==> !stays_off(
        entries,
        monitors,
        m,
    ) by {
        if profile::is_on(entries, monitors, m) {
            let i = choose|i: int|
                0 <= i < entries.len() && (#[trigger] profile::switched_on(
                    entries[i],
                    monitors,
                ) matches Some(on) && on.identity() == m.identity());
            assert(switches_on(entries[i], monitors, m));
        }
        if !stays_off(entries, monitors, m) {
            let i = choose|i: int|
                0 <= i < entries.len() && switches_on(#[trigger] entries[i], monitors, m);
            assert(profile::switched_on(entries[i], monitors) is Some);
        }
    }
    assert(profile::is_off(entries, monitors) =~= off);
    let disabled = profile::disabled_monitors(entries, monitors);
    assert(disabled == monitors.filter(off));
    assert(profile::entry_texts(entries, monitors) =~= entries.map_values(
        |entry: T| line_of(entry, monitors),
    ));
    assert(Seq::new(disabled.len(), |i: int| profile::disabling_line(disabled[i]))
        =~= disabled.map_values(
        |m: MonitorView| "\toutput \""@ + m.description.display_name() + "\" disable\n"@,
    ));
}

/// A profile can be rendered exactly where each entry can be looked up and, where it
/// is about some monitor, written.
pub proof fn profiles_are_rendered_entry_by_entry<T: KanshiProfileEntry>(
    monitors: Seq<MonitorView>,
    entries: Seq<T>,
)
    ensures
        profile::can_render(monitors, entries) <==> forall|i: int|
            #![trigger entries[i]]
            0 <= i < entries.len() ==> entries[i].can_find(monitors) && (entries[i].found(
                monitors,
            ) is None || entries[i].can_write()),
{
}

/// A monitor is among others exactly where one of them is the same: has the same
/// names and is driven in the same mode.
pub proof fn monitors_are_told_apart_by_names_and_mode(
    active: Seq<MonitorView>,
    monitor: MonitorView,
    borrowed: Seq<&Monitor>,
    i: int,
)
    ensures
        profile::among(active, monitor) <==> laws::manager::monitor_among(monitor, active),
        profile::not_among(active)(monitor) <==> !laws::manager::monitor_among(monitor, active),
        profile::borrowed_views(borrowed).len() == borrowed.len(),
        0 <= i < borrowed.len() ==> profile::borrowed_views(borrowed)[i] == borrowed[i]@,
{
    if profile::among(active, monitor) {
        let j = choose|j: int|
            0 <= j < active.len() && (#[trigger] active[j]).identity() == monitor.identity();
        assert(laws::manager::same_monitor(monitor, active[j]));
    }
    if laws::manager::monitor_among(monitor, active) {
        let j = choose|j: int|
            0 <= j < active.len() && laws::manager::same_monitor(monitor, #[trigger] active[j]);
        assert(active[j].identity() == monitor.identity());
    }
}

} // verus!
