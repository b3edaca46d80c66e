//! What the rendered texts say: numbers can be read back, texts are ordered
//! character by character, and what is joined can be told apart.

use vstd::prelude::*;

use crate::text;

verus! {

/// The number that a row of decimal digits reads as.
pub open spec fn read_back(digits: Seq<char>) -> int
    decreases digits.len(),
{
    if digits.len() == 0 {
        0
    } else {
        read_back(digits.drop_last()) * 10 + (digits.last() as int - '0' as int)
    }
}

/// Whether a text is a row of decimal digits.
pub open spec fn all_digits(digits: Seq<char>) -> bool {
    forall|i: int| 0 <= i < digits.len() ==> '0' <= #[trigger] digits[i] <= '9'
}

/// A number that is written out in digits reads back as the same number. It has at
/// least one digit, and begins with a zero only where it is zero.
pub proof fn digits_read_back(n: nat)
    ensures
        read_back(text::decimal_nat(n)) == n,
        all_digits(text::decimal_nat(n)),
        text::decimal_nat(n).len() > 0,
        text::decimal_nat(n)[0] == '0' <==> n == 0,
        n == 0 ==> text::decimal_nat(n).len() == 1,
    decreases n,
{
    let digits = text::decimal_nat(n);
    if n < 10 {
        assert(digits.drop_last() =~= seq![]);
        assert(read_back(digits.drop_last()) == 0);
        assert(digits.last() as int == 48 + n);
    } else {
        digits_read_back(n / 10);
        let front = text::decimal_nat(n / 10);
        assert(digits.drop_last() =~= front);
        assert(digits.last() as int == 48 + n % 10);
        assert(read_back(digits) == (n / 10) * 10 + n % 10);
        assert(digits[0] == front[0]);
        assert forall|i: int| 0 <= i < digits.len() implies '0' <= #[trigger] digits[i] <= '9' by {
            if i < front.len() {
                assert(digits[i] == front[i]);
            }
        }
    }
}

/// An integer is written as the digits of its magnitude, with a minus sign in
/// front exactly where it lies below zero.
pub proof fn integers_read_back(i: int)
    ensures
        ({
            let written = text::decimal(i);
            if i < 0 {
                &&& written[0] == '-'
                &&& all_digits(written.skip(1))
                &&& read_back(written.skip(1)) == -i
            } else {
                &&& all_digits(written)
                &&& read_back(written) == i
            }
        }),
{
    if i < 0 {
        digits_read_back((-i) as nat);
        assert(text::decimal(i).skip(1) =~= text::decimal_nat((-i) as nat));
    } else {
        digits_read_back(i as nat);
    }
}

/// Thousandths are written as a point and one to three digits that read back as
/// the fraction, without a zero at the end; no fraction is written as nothing.
pub proof fn fractions_read_back(f: nat)
    requires
        f < 1000,
    ensures
        ({
            let written = text::thousandths(f);
            let digits = written.skip(1);
            if f == 0 {
                written.len() == 0
            } else {
                &&& 2 <= written.len() <= 4
                &&& written[0] == '.'
                &&& all_digits(digits)
                &&& digits.last() != '0'
                &&& digits.len() == 1 ==> read_back(digits) * 100 == f
                &&& digits.len() == 2 ==> read_back(digits) * 10 == f
                &&& digits.len() == 3 ==> read_back(digits) == f
            }
        }),
{
    reveal_with_fuel(read_back, 4);
    let written = text::thousandths(f);
    if f != 0 {
        let digits = written.skip(1);
        let first = text::digit_char(f / 100);
        let second = text::digit_char((f / 10) % 10);
        let third = text::digit_char(f % 10);
        assert(first as int == 48 + f / 100);
        assert(second as int == 48 + (f / 10) % 10);
        assert(third as int == 48 + f % 10);
        if f % 100 == 0 {
            assert(digits =~= seq![first]);
            assert(digits.drop_last() =~= seq![]);
        } else if f % 10 == 0 {
            assert(digits =~= seq![first, second]);
            assert(digits.drop_last() =~= seq![first]);
            assert(digits.drop_last().drop_last() =~= seq![]);
        } else {
            assert(digits =~= seq![first, second, third]);
            assert(digits.drop_last() =~= seq![first, second]);
            assert(digits.drop_last().drop_last() =~= seq![first]);
            assert(digits.drop_last().drop_last().drop_last() =~= seq![]);
        }
    }
}

/// A number of thousandths is written as a minus sign where it lies below zero,
/// its whole part, and its fraction.
pub proof fn rates_have_whole_part_and_fraction(k: int)
    ensures
        k >= 0 ==> text::decimal_milli(k) == text::decimal_nat((k / 1000) as nat)
            + text::thousandths((k % 1000) as nat),
        k < 0 ==> text::decimal_milli(k) == seq!['-'] + text::decimal_milli(-k),
{
    if k < 0 {
        assert(text::decimal_milli(k) =~= seq!['-'] + text::decimal_milli(-k));
    } else {
        assert(text::decimal_milli(k) =~= text::decimal_nat((k / 1000) as nat)
            + text::thousandths((k % 1000) as nat));
    }
}

/// Texts are ordered by the first character in which they differ, and a text comes
/// before every longer one that begins with it.
pub proof fn texts_compare_by_the_first_difference(
    common: Seq<char>,
    a: char,
    left: Seq<char>,
    b: char,
    right: Seq<char>,
)
    ensures
        a != b ==> (text::text_le(common + seq![a] + left, common + seq![b] + right) <==> a < b),
        text::text_le(common, common + right),
        !text::text_le(common + seq![a] + left, common),
    decreases common.len(),
{
    let first = common + seq![a] + left;
    let second = common + seq![b] + right;
    let longer = common + right;
    if common.len() > 0 {
        let rest = common.drop_first();
        texts_compare_by_the_first_difference(rest, a, left, b, right);
        assert(first.drop_first() =~= rest + seq![a] + left);
        assert(second.drop_first() =~= rest + seq![b] + right);
        assert(longer.drop_first() =~= rest + right);
    } else {
        assert(first[0] == a);
        assert(second[0] == b);
    }
}

/// Underscores stand in place of spaces, and everything else stays in its place.
pub proof fn only_spaces_become_underscores(s: Seq<char>, i: int)
    requires
        0 <= i < s.len(),
    ensures
        text::underscored(s).len() == s.len(),
        s[i] == ' ' ==> text::underscored(s)[i] == '_',
        s[i] != ' ' ==> text::underscored(s)[i] == s[i],
        text::underscored(s)[i] != ' ',
{
}

/// Parts are joined in their order, with the separator between neighbours and
/// nowhere else.
pub proof fn parts_are_joined_in_order(
    left: Seq<Seq<char>>,
    right: Seq<Seq<char>>,
    part: Seq<char>,
    separator: Seq<char>,
)
    ensures
        text::joined(seq![], separator) == Seq::<char>::empty(),
        text::joined(seq![part], separator) == part,
        left.len() > 0 && right.len() > 0 ==> text::joined(left + right, separator)
            == text::joined(left, separator) + separator + text::joined(right, separator),
    decreases right.len(),
{
    let all = left + right;
    if left.len() > 0 && right.len() > 0 {
        assert(all.last() == right.last());
        if right.len() == 1 {
            assert(all.drop_last() =~= left);
        } else {
            parts_are_joined_in_order(left, right.drop_last(), part, separator);
            assert(all.drop_last() =~= left + right.drop_last());
            assert(text::joined(all, separator) =~= text::joined(left, separator) + separator
                + text::joined(right, separator));
        }
    }
}

/// Parts are put one after another in their order, with nothing in between.
pub proof fn parts_follow_each_other(
    left: Seq<Seq<char>>,
    right: Seq<Seq<char>>,
    part: Seq<char>,
)
    ensures
        text::concatenated(seq![]) == Seq::<char>::empty(),
        text::concatenated(seq![part]) == part,
        text::concatenated(left + right) == text::concatenated(left) + text::concatenated(right),
    decreases right.len(),
{
    let all = left + right;
    assert(text::concatenated(seq![part].drop_last()) =~= seq![]);
    assert(text::concatenated(seq![part]) =~= part);
    if right.len() > 0 {
        parts_follow_each_other(left, right.drop_last(), part);
        assert(all.drop_last() =~= left + right.drop_last());
        assert(all.last() == right.last());
        assert(text::concatenated(all) =~= text::concatenated(left) + text::concatenated(right));
    } else {
        assert(all =~= left);
        assert(text::concatenated(all) =~= text::concatenated(left) + text::concatenated(right));
    }
}

/// Case is ignored for the letters from A to Z, and for nothing else: two texts are
/// the same where they are as long as each other and, place by place, hold the same
/// character or the two forms of one letter.
pub proof fn case_is_ignored_for_ascii_letters(a: Seq<char>, b: Seq<char>)
    ensures
        text::same_ignoring_case(a, b) <==> a.len() == b.len() && forall|i: int|
            #![trigger a[i]]
            0 <= i < a.len() ==> {
                ||| a[i] == b[i]
                ||| 'A' <= a[i] <= 'Z' && b[i] as int == a[i] as int + 32
                ||| 'A' <= b[i] <= 'Z' && a[i] as int == b[i] as int + 32
            },
{
    assert forall|c: char, d: char| #[trigger]
        text::ascii_lower(c) == #[trigger] text::ascii_lower(d) <==> {
            ||| c == d
            ||| 'A' <= c <= 'Z' && d as int == c as int + 32
            ||| 'A' <= d <= 'Z' && c as int == d as int + 32
        } by {
        lemma_lower(c);
        lemma_lower(d);
    }
    if text::same_ignoring_case(a, b) {
        assert forall|i: int| #![trigger a[i]] 0 <= i < a.len() implies {
            ||| a[i] == b[i]
            ||| 'A' <= a[i] <= 'Z' && b[i] as int == a[i] as int + 32
            ||| 'A' <= b[i] <= 'Z' && a[i] as int == b[i] as int + 32
        } by {
            assert(text::ascii_lower(a[i]) == text::ascii_lower(b[i]));
        }
    }
}

proof fn lemma_lower(c: char)
    ensures
        'A' <= c <= 'Z' ==> text::ascii_lower(c) as int == c as int + 32,
        !('A' <= c <= 'Z') ==> text::ascii_lower(c) == c,
{
}

/// A separator divides a text: a word is one of the parts of the whole exactly
/// where it is one of the parts on either side of the separator, and a text without
/// a separator is its only part.
pub proof fn separators_divide(
    left: Seq<char>,
    right: Seq<char>,
    separator: char,
    word: Seq<char>,
)
    ensures
        text::has_segment(left + seq![separator] + right, separator, word) <==> text::has_segment(
            left,
            separator,
            word,
        ) || text::has_segment(right, separator, word),
        (forall|i: int| 0 <= i < left.len() ==> #[trigger] left[i] != separator) ==> (
        text::has_segment(left, separator, word) <==> text::same_ignoring_case(left, word)),
{
    let whole = left + seq![separator] + right;
    let shift = left.len() + 1;
    if text::has_segment(left, separator, word) {
        let (start, end) = choose|start: int, end: int| #[trigger]
            text::is_segment(left, start, end, separator) && text::same_ignoring_case(
                left.subrange(start, end),
                word,
            );
        assert(whole.subrange(start, end) =~= left.subrange(start, end));
        assert(text::is_segment(whole, start, end, separator));
    }
    if text::has_segment(right, separator, word) {
        let (start, end) = choose|start: int, end: int| #[trigger]
            text::is_segment(right, start, end, separator) && text::same_ignoring_case(
                right.subrange(start, end),
                word,
            );
        assert(whole.subrange(start + shift, end + shift) =~= right.subrange(start, end));
        assert(text::is_segment(whole, start + shift, end + shift, separator));
    }
    if text::has_segment(whole, separator, word) {
        let (start, end) = choose|start: int, end: int| #[trigger]
            text::is_segment(whole, start, end, separator) && text::same_ignoring_case(
                whole.subrange(start, end),
                word,
            );
        if end <= left.len() {
            assert(whole.subrange(start, end) =~= left.subrange(start, end));
            assert(text::is_segment(left, start, end, separator));
        } else if start >= shift {
            assert(whole.subrange(start, end) =~= right.subrange(start - shift, end - shift));
            assert(text::is_segment(right, start - shift, end - shift, separator));
        } else {
            assert(whole.subrange(start, end)[left.len() - start] == separator);
        }
    }
    if forall|i: int| 0 <= i < left.len() ==> #[trigger] left[i] != separator {
        if text::has_segment(left, separator, word) {
            let (start, end) = choose|start: int, end: int| #[trigger]
                text::is_segment(left, start, end, separator) && text::same_ignoring_case(
                    left.subrange(start, end),
                    word,
                );
            assert(start == 0 && end == left.len());
            assert(left.subrange(start, end) =~= left);
        }
        if text::same_ignoring_case(left, word) {
            assert(left.subrange(0, left.len() as int) =~= left);
            assert(text::is_segment(left, 0, left.len() as int, separator));
        }
    }
}

/// An optional text and a list of texts are seen as what they hold.
pub proof fn text_views_tell_what_they_hold(held: String, list: Seq<String>, i: int)
    ensures
        text::option_text(Some(held)) == Some(held@),
        text::option_text(None) is None,
        text::texts(list).len() == list.len(),
        0 <= i < list.len() ==> text::texts(list)[i] == list[i]@,
{
}

} // verus!
