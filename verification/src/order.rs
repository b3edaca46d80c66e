//! Finding and ordering: the first match in a list, and sorted listings.

use vstd::prelude::*;
use vstd::relations::*;
use vstd::seq_lib::*;

verus! {

/// The first element of which `pred` holds.
pub open spec fn find_first<A>(s: Seq<A>, pred: spec_fn(A) -> bool) -> Option<A>
    decreases s.len(),
{
    if s.len() == 0 {
        None
    } else if pred(s[0]) {
        Some(s[0])
    } else {
        find_first(s.drop_first(), pred)
    }
}

/// Where an element is the first of which `pred` holds, it is found.
pub proof fn lemma_found<A>(s: Seq<A>, pred: spec_fn(A) -> bool, i: int)
    requires
        0 <= i < s.len(),
        pred(s[i]),
        forall|j: int| 0 <= j < i ==> !pred(#[trigger] s[j]),
    ensures
        find_first(s, pred) == Some(s[i]),
    decreases i,
{
    if i > 0 {
        assert(!pred(s[0]));
        assert forall|j: int| 0 <= j < i - 1 implies !pred(#[trigger] s.drop_first()[j]) by {
            assert(!pred(s[j + 1]));
        }
        lemma_found(s.drop_first(), pred, i - 1);
    }
}

/// Where `pred` holds of no element, none is found.
pub proof fn lemma_not_found<A>(s: Seq<A>, pred: spec_fn(A) -> bool)
    requires
        forall|j: int| 0 <= j < s.len() ==> !pred(#[trigger] s[j]),
    ensures
        find_first(s, pred) is None,
    decreases s.len(),
{
    if s.len() > 0 {
        assert(!pred(s[0]));
        assert forall|j: int| 0 <= j < s.drop_first().len() implies !pred(
            #[trigger] s.drop_first()[j],
        ) by {
            assert(!pred(s[j + 1]));
        }
        lemma_not_found(s.drop_first(), pred);
    }
}

/// What is found is an element of which `pred` holds; when nothing is found
/// there is none.
pub proof fn lemma_find_first<A>(s: Seq<A>, pred: spec_fn(A) -> bool)
    ensures
        find_first(s, pred) matches Some(a) ==> s.contains(a) && pred(a),
        find_first(s, pred) is None ==> forall|j: int|
            0 <= j < s.len() ==> !pred(#[trigger] s[j]),
    decreases s.len(),
{
    if s.len() > 0 {
        if pred(s[0]) {
        } else {
            let rest = s.drop_first();
            lemma_find_first(rest, pred);
            if let Some(a) = find_first(rest, pred) {
                let j = choose|j: int| 0 <= j < rest.len() && rest[j] == a;
                assert(s[j + 1] == a);
            } else {
                assert forall|j: int| 0 <= j < s.len() implies !pred(#[trigger] s[j]) by {
                    if j > 0 {
                        assert(!pred(rest[j - 1]));
                    }
                }
            }
        }
    }
}

/// Putting an element behind all that come no later keeps a list sorted.
pub proof fn lemma_insert_sorted<A>(s: Seq<A>, at: int, a: A, leq: spec_fn(A, A) -> bool)
    requires
        total_ordering(leq),
        sorted_by(s, leq),
        0 <= at <= s.len(),
        forall|j: int| 0 <= j < at ==> leq(#[trigger] s[j], a),
        at < s.len() ==> !leq(s[at], a),
    ensures
        sorted_by(s.insert(at, a), leq),
        s.insert(at, a).to_multiset() == s.to_multiset().insert(a),
{
    to_multiset_insert(s, at, a);
    assert forall|j: int| at <= j < s.len() implies leq(a, #[trigger] s[j]) by {
        assert(leq(a, s[at]));
        if j > at {
            assert(leq(s[at], s[j]));
        }
    }
    let t = s.insert(at, a);
    assert forall|i: int, j: int| 0 <= i < j < t.len() implies #[trigger] leq(t[i], t[j]) by {
        let p = if i < at {
            i
        } else {
            i - 1
        };
        let q = if j < at {
            j
        } else {
            j - 1
        };
        if i == at {
            assert(leq(a, s[q]));
        } else if j == at {
            assert(leq(s[p], a));
        } else {
            assert(leq(s[p], s[q]));
        }
    }
}

proof fn lemma_set_listing<A>(s: Set<A>)
    requires
        s.finite(),
    ensures
        s.to_seq().no_duplicates(),
        s.to_seq().to_set() == s,
    decreases s.len(),
{
    s.lemma_to_seq_to_set_id();
    if s.len() > 0 {
        let x = s.choose();
        let rest = s.remove(x).to_seq();
        lemma_set_listing(s.remove(x));
        assert(s.to_seq() == Seq::<A>::empty().push(x) + rest);
        assert forall|i: int, j: int|
            0 <= i < s.to_seq().len() && 0 <= j < s.to_seq().len() && i != j implies s.to_seq()[i]
            != s.to_seq()[j] by {
            if i == 0 {
                assert(rest.to_set().contains(rest[j - 1]));
            } else if j == 0 {
                assert(rest.to_set().contains(rest[i - 1]));
            }
        }
    }
}

proof fn lemma_same_listing<A>(s: Seq<A>, t: Seq<A>)
    requires
        s.no_duplicates(),
        t.no_duplicates(),
        s.to_set() == t.to_set(),
    ensures
        s.to_multiset() == t.to_multiset(),
{
    broadcast use group_to_multiset_ensures;

    s.lemma_multiset_has_no_duplicates();
    t.lemma_multiset_has_no_duplicates();
    assert forall|a: A| s.to_multiset().count(a) == t.to_multiset().count(a) by {
        assert(s.contains(a) <==> s.to_set().contains(a));
        assert(t.contains(a) <==> t.to_set().contains(a));
        if s.contains(a) {
            assert(s.to_multiset().contains(a));
            assert(t.to_multiset().contains(a));
        }
    }
    assert(s.to_multiset() =~= t.to_multiset());
}

/// A sorted list of exactly the elements of a set is the set's sorted listing.
pub proof fn lemma_sorted_listing<A>(
    s: Set<A>,
    found: Seq<A>,
    sorted: Seq<A>,
    leq: spec_fn(A, A) -> bool,
)
    requires
        s.finite(),
        total_ordering(leq),
        found.no_duplicates(),
        found.to_set() == s,
        sorted_by(sorted, leq),
        sorted.to_multiset() == found.to_multiset(),
    ensures
        sorted == s.to_sorted_seq(leq),
{
    lemma_set_listing(s);
    lemma_same_listing(found, s.to_seq());
    s.to_seq().lemma_sort_by_ensures(leq);
    lemma_sorted_unique(sorted, s.to_sorted_seq(leq), leq);
}

/// The sorted listing of a set holds each of its elements once.
pub proof fn lemma_listing_elements<A>(s: Set<A>, leq: spec_fn(A, A) -> bool)
    requires
        s.finite(),
        total_ordering(leq),
    ensures
        s.to_sorted_seq(leq).no_duplicates(),
        s.to_sorted_seq(leq).to_set() == s,
        s.to_sorted_seq(leq).len() == s.len(),
        sorted_by(s.to_sorted_seq(leq), leq),
{
    broadcast use group_to_multiset_ensures;

    let listed = s.to_seq();
    let sorted = s.to_sorted_seq(leq);
    lemma_set_listing(s);
    listed.lemma_sort_by_ensures(leq);
    listed.lemma_multiset_has_no_duplicates();
    sorted.lemma_multiset_has_no_duplicates_conv();
    assert(sorted.to_set() =~= s) by {
        assert forall|a: A| sorted.to_set().contains(a) <==> s.contains(a) by {
            assert(sorted.contains(a) <==> sorted.to_multiset().count(a) > 0);
            assert(listed.contains(a) <==> listed.to_multiset().count(a) > 0);
            assert(listed.to_set().contains(a) <==> listed.contains(a));
            assert(sorted.to_set().contains(a) <==> sorted.contains(a));
        }
    }
    sorted.unique_seq_to_set();
}

/// Lists of the same elements stay lists of the same elements when a function
/// is applied to each.
pub proof fn lemma_mapped_elements<A, B>(left: Seq<A>, right: Seq<A>, f: spec_fn(A) -> B)
    requires
        left.to_multiset() == right.to_multiset(),
    ensures
        left.map_values(f).to_multiset() == right.map_values(f).to_multiset(),
    decreases left.len(),
{
    broadcast use group_to_multiset_ensures;

    to_multiset_len(left);
    to_multiset_len(right);
    if left.len() > 0 {
        let last = left.last();
        let rest = left.drop_last();
        assert(left =~= rest.push(last));
        assert(right.to_multiset().count(last) > 0);
        assert(right.contains(last));
        let i = choose|i: int| 0 <= i < right.len() && right[i] == last;
        let others = right.remove(i);
        assert(rest.to_multiset() =~= others.to_multiset());
        lemma_mapped_elements(rest, others, f);
        assert(left.map_values(f) =~= rest.map_values(f).push(f(last)));
        assert(right.map_values(f).remove(i) =~= others.map_values(f));
        assert(right.map_values(f)[i] == f(last));
        assert(right.map_values(f).contains(f(last)));
        assert(right.map_values(f).to_multiset() =~= others.map_values(f).to_multiset().insert(
            f(last),
        ));
    } else {
        assert(left.map_values(f) =~= right.map_values(f));
    }
}

} // verus!
