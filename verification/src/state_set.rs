//! Sets of monitors and of logical monitors, told apart by their identity.

use vstd::prelude::*;

use crate::monitor::{IdentityView, LogicalMonitor, Monitor};

verus! {

/// What has an identity.
pub trait Identified: Sized {
    type Key;

    /// The identity.
    spec fn key(&self) -> Self::Key;

    /// Whether both have the same identity.
    fn same(&self, other: &Self) -> (r: bool)
        ensures
            r == (self.key() == other.key()),
    ;

    /// A copy of the same identity.
    fn duplicate(&self) -> (copy: Self)
        ensures
            copy.key() == self.key(),
    ;
}

impl Identified for Monitor {
    type Key = (IdentityView, Seq<char>);

    open spec fn key(&self) -> (IdentityView, Seq<char>) {
        self@.identity()
    }

    fn same(&self, other: &Monitor) -> (r: bool) {
        self.same_as(other)
    }

    fn duplicate(&self) -> (copy: Monitor) {
        self.clone()
    }
}

impl Identified for LogicalMonitor {
    type Key = (i32, i32, u32, u64, Option<Seq<char>>);

    open spec fn key(&self) -> (i32, i32, u32, u64, Option<Seq<char>>) {
        self@.identity()
    }

    fn same(&self, other: &LogicalMonitor) -> (r: bool) {
        self.same_as(other)
    }

    fn duplicate(&self) -> (copy: LogicalMonitor) {
        self.clone()
    }
}

/// Whether a list holds an item of this identity.
pub open spec fn holds_key<T: Identified>(items: Seq<T>, key: T::Key) -> bool {
    exists|i: int| 0 <= i < items.len() && (#[trigger] items[i]).key() == key
}

/// The identities of a list.
pub open spec fn keys<T: Identified>(items: Seq<T>) -> Set<T::Key> {
    Set::new(|key: T::Key| holds_key(items, key))
}

/// A set of which no two elements have the same identity.
#[derive(Debug)]
pub struct StateSet<T> {
    items: Vec<T>,
}

impl<T: Identified> View for StateSet<T> {
    type V = Set<T::Key>;

    closed spec fn view(&self) -> Set<T::Key> {
        keys(self.items@)
    }
}

impl<T: Identified> StateSet<T> {
    /// No identity occurs twice.
    pub closed spec fn wf(&self) -> bool {
        forall|i: int, j: int|
            0 <= i < j < self.items@.len() ==> (#[trigger] self.items@[i]).key() != (
            #[trigger] self.items@[j]).key()
    }

    /// The set of what the list holds; of several items of one identity the
    /// first one stays.
    pub fn of(list: &[T]) -> (set: StateSet<T>)
        ensures
            set@ == keys(list@),
            set.wf(),
    {
        let mut set = StateSet { items: Vec::new() };
        assert(set@ =~= keys(list@.take(0)));
        for i in 0..list.len()
            invariant
                set@ == keys(list@.take(i as int)),
                set.wf(),
        {
            let ghost before = set.items@;
            let ghost next = list@.take(i + 1);
            if !set.contains(&list[i]) {
                set.items.push(list[i].duplicate());
                proof {
                    let after = set.items@;
                    assert forall|p: int, q: int| 0 <= p < q < after.len() implies (
                    #[trigger] after[p]).key() != (#[trigger] after[q]).key() by {
                        if q == before.len() {
                            assert(before[p].key() != list@[i as int].key());
                        } else {
                            assert(before[p].key() != before[q].key());
                        }
                    }
                }
            }
            proof {
                let after = set.items@;
                assert forall|key: T::Key| keys(after).contains(key) <==> keys(next).contains(
                    key,
                ) by {
                    let done = list@.take(i as int);
                    assert(keys(before).contains(key) <==> keys(done).contains(key));
                    if keys(before).contains(key) {
                        let p = choose|p: int|
                            0 <= p < before.len() && (#[trigger] before[p]).key() == key;
                        assert(after[p].key() == key);
                        let q = choose|q: int|
                            0 <= q < done.len() && (#[trigger] done[q]).key() == key;
                        assert(next[q].key() == key);
                    }
                    if key == list@[i as int].key() {
                        assert(next[i as int].key() == key);
                        assert(keys(before).contains(key) || after[before.len() as int].key()
                            == key);
                    }
                    if keys(after).contains(key) && !keys(before).contains(key) {
                        let p = choose|p: int|
                            0 <= p < after.len() && (#[trigger] after[p]).key() == key;
                        if p < before.len() {
                            assert(before[p].key() == key);
                        }
                    }
                    if keys(next).contains(key) && !keys(done).contains(key) {
                        let q = choose|q: int|
                            0 <= q < next.len() && (#[trigger] next[q]).key() == key;
                        if q < i {
                            assert(done[q].key() == key);
                        }
                    }
                }
                assert(set@ =~= keys(next));
            }
        }
        assert(list@.take(list@.len() as int) =~= list@);
        set
    }

    /// Whether the set holds something of the same identity.
    pub fn contains(&self, item: &T) -> (r: bool)
        ensures
            r == self@.contains(item.key()),
    {
        for i in 0..self.items.len()
            invariant
                forall|j: int| 0 <= j < i ==> (#[trigger] self.items@[j]).key() != item.key(),
        {
            if self.items[i].same(item) {
                assert(self.items@[i as int].key() == item.key());
                return true;
            }
        }
        false
    }

    /// Whether the other set holds all that this one holds.
    fn within(&self, other: &StateSet<T>) -> (r: bool)
        ensures
            r == self@.subset_of(other@),
    {
        for i in 0..self.items.len()
            invariant
                forall|j: int| 0 <= j < i ==> other@.contains((#[trigger] self.items@[j]).key()),
        {
            if !other.contains(&self.items[i]) {
                assert(self@.contains(self.items@[i as int].key()));
                return false;
            }
        }
        true
    }
}

impl<T: Identified> PartialEq for StateSet<T> {
    fn eq(&self, other: &StateSet<T>) -> (r: bool) {
        let r = self.within(other) && other.within(self);
        assert(r ==> self@ =~= other@);
        r
    }
}

impl<T: Identified> vstd::std_specs::cmp::PartialEqSpecImpl for StateSet<T> {
    open spec fn obeys_eq_spec() -> bool {
        true
    }

    open spec fn eq_spec(&self, other: &StateSet<T>) -> bool {
        self@ == other@
    }
}

/// The set of observed monitors and the set of observed logical monitors.
pub fn monitor_sets(monitors: &[Monitor], logical_monitors: &[LogicalMonitor]) -> (sets: (
    StateSet<Monitor>,
    StateSet<LogicalMonitor>,
))
    ensures
        sets.0@ == keys(monitors@),
        sets.1@ == keys(logical_monitors@),
        sets.0.wf(),
        sets.1.wf(),
{
    (StateSet::of(monitors), StateSet::of(logical_monitors))
}

/// Whether what is observed differs from what was observed before.
pub fn display_state_changed(
    prev_monitors: &StateSet<Monitor>,
    prev_logical_monitors: &StateSet<LogicalMonitor>,
    current_monitors: &StateSet<Monitor>,
    current_logical_monitors: &StateSet<LogicalMonitor>,
) -> (changed: bool)
    ensures
        changed == (prev_monitors@ != current_monitors@ || prev_logical_monitors@
            != current_logical_monitors@),
{
    !(*prev_monitors == *current_monitors && *prev_logical_monitors == *current_logical_monitors)
}

/// A set depends on which identities are listed, not on their order, nor on how
/// often each is listed.
pub proof fn sets_forget_order_and_repetition<T: Identified>(left: Seq<T>, right: Seq<T>)
    requires
        forall|key: T::Key| #[trigger] holds_key(left, key) <==> holds_key(right, key),
    ensures
        keys(left) == keys(right),
{
    assert forall|key: T::Key| keys(left).contains(key) <==> keys(right).contains(key) by {
        assert(holds_key(left, key) <==> holds_key(right, key));
    }
    assert(keys(left) =~= keys(right));
}

} // verus!
