//! What is written, compared and sorted.

use vstd::prelude::*;
use vstd::seq_lib::*;

use crate::laws;
use crate::text;

verus! {

/// A number is appended as digits that read back as the number.
pub proof fn numbers_are_appended(
    before: String,
    after: String,
    n: u64,
    with_int: String,
    i: i32,
    with_rate: String,
    k: i32,
)
    requires
        exists|out: &mut String|
            {
                &&& *out == before
                &&& *final(out) == after
                &&& #[trigger] call_ensures(text::push_nat, (out, n), ())
            },
        exists|out: &mut String|
            {
                &&& *out == before
                &&& *final(out) == with_int
                &&& #[trigger] call_ensures(text::push_int, (out, i), ())
            },
        exists|out: &mut String|
            {
                &&& *out == before
                &&& *final(out) == with_rate
                &&& #[trigger] call_ensures(text::push_milli, (out, k), ())
            },
    ensures
        before@.is_prefix_of(after@),
        laws::text::read_back(after@.skip(before@.len() as int)) == n,
        with_int@ == before@ + text::decimal(i as int),
        with_rate@ == before@ + text::decimal_milli(k as int),
{
    laws::text::digits_read_back(n as nat);
    assert(after@.skip(before@.len() as int) =~= text::decimal_nat(n as nat));
    assert(after@.subrange(0, before@.len() as int) =~= before@);
}

/// Texts are the same where their characters are, one precedes another where it comes no
/// later in their order, and begins with another where that stands at its front.
pub proof fn texts_are_compared(
    a: &str,
    b: &str,
    same: bool,
    precedes: bool,
    begins: bool,
    chars: Vec<char>,
)
    requires
        call_ensures(text::text_eq, (a, b), same),
        call_ensures(text::text_precedes, (a, b), precedes),
        call_ensures(text::starts_with, (a, b), begins),
        call_ensures(text::chars_of, (a,), chars),
    ensures
        same <==> a@ == b@,
        precedes <==> text::text_le(a@, b@),
        begins <==> a@.len() >= b@.len() && a@.take(b@.len() as int) == b@,
        chars@ == a@,
{
    if a@.len() >= b@.len() {
        assert(a@.take(b@.len() as int) =~= a@.subrange(0, b@.len() as int));
    }
}

/// Sorting keeps all texts and puts each behind those that come before it.
pub proof fn texts_are_sorted(names: Vec<String>, sorted: Vec<String>, i: int, j: int)
    requires
        call_ensures(text::sort_texts, (names,), sorted),
    ensures
        text::texts(sorted@).to_multiset() == text::texts(names@).to_multiset(),
        sorted@.len() == names@.len(),
        0 <= i < j < sorted@.len() ==> text::text_le(sorted@[i]@, sorted@[j]@),
{
    let leq = text::text_order();
    let all = text::texts(names@);
    let listed = text::texts(sorted@);
    text::text_order_is_total();
    all.lemma_sort_by_ensures(leq);
    to_multiset_len(all);
    to_multiset_len(listed);
    if 0 <= i < j < sorted@.len() {
        assert(leq(listed[i], listed[j]));
    }
}

/// A text is appended with underscores for spaces, and a word is looked for among the parts
/// between separators.
pub proof fn words_are_appended_and_found(
    before: String,
    after: String,
    words: &str,
    i: int,
    separator: char,
    word: &str,
    found: bool,
)
    requires
        exists|out: &mut String|
            {
                &&& *out == before
                &&& *final(out) == after
                &&& #[trigger] call_ensures(text::push_underscored, (out, words), ())
            },
        call_ensures(text::contains_segment, (words, separator, word), found),
    ensures
        after@.len() == before@.len() + words@.len(),
        0 <= i < before@.len() ==> after@[i] == before@[i],
        0 <= i < words@.len() ==> after@[before@.len() + i] == if words@[i] == ' ' {
            '_'
        } else {
            words@[i]
        },
        found <==> text::has_segment(words@, separator, word@),
{
}

} // verus!
