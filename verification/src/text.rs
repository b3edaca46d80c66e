//! Text as the display daemon writes it: decimal numbers, the order of display
//! names, and the few string operations that profiles and desktop names need.

use vstd::prelude::*;
use vstd::relations::*;
use vstd::seq_lib::*;
use vstd::string::*;

use crate::order;

verus! {

/// `String::push` appends the given character to the end of the string.
pub assume_specification[ String::push ](s: &mut String, c: char)
    ensures
        final(s)@ == old(s)@.push(c),
;

/// The ASCII digit that stands for `d`.
pub open spec fn digit_char(d: nat) -> char
    recommends
        d < 10,
{
    (48 + d) as char
}

/// The decimal digits of `n`, without leading zeros.
pub open spec fn decimal_nat(n: nat) -> Seq<char>
    decreases n,
{
    if n < 10 {
        seq![digit_char(n)]
    } else {
        decimal_nat(n / 10).push(digit_char(n % 10))
    }
}

/// The decimal rendering of an integer, with a leading minus sign below zero.
pub open spec fn decimal(i: int) -> Seq<char> {
    if i < 0 {
        seq!['-'] + decimal_nat((-i) as nat)
    } else {
        decimal_nat(i as nat)
    }
}

/// The digits behind the decimal point of `f` thousandths, without trailing
/// zeros; nothing at all when there is no fraction.
pub open spec fn thousandths(f: nat) -> Seq<char>
    recommends
        f < 1000,
{
    if f == 0 {
        seq![]
    } else if f % 100 == 0 {
        seq!['.', digit_char(f / 100)]
    } else if f % 10 == 0 {
        seq!['.', digit_char(f / 100), digit_char((f / 10) % 10)]
    } else {
        seq!['.', digit_char(f / 100), digit_char((f / 10) % 10), digit_char(f % 10)]
    }
}

/// The shortest decimal rendering of `k / 1000`.
pub open spec fn decimal_milli(k: int) -> Seq<char> {
    let magnitude = if k < 0 {
        (-k) as nat
    } else {
        k as nat
    };
    let sign: Seq<char> = if k < 0 {
        seq!['-']
    } else {
        seq![]
    };
    sign + decimal_nat(magnitude / 1000) + thousandths(magnitude % 1000)
}

fn push_digit(out: &mut String, d: u64)
    requires
        d < 10,
    ensures
        final(out)@ == old(out)@.push(digit_char(d as nat)),
{
    out.push((48u8 + d as u8) as char);
}

/// Appends the decimal digits of `n`.
pub fn push_nat(out: &mut String, n: u64)
    ensures
        final(out)@ == old(out)@ + decimal_nat(n as nat),
    decreases n,
{
    if n >= 10 {
        push_nat(out, n / 10);
        push_digit(out, n % 10);
    } else {
        push_digit(out, n);
    }
}

/// Appends the decimal rendering of `i`.
pub fn push_int(out: &mut String, i: i32)
    ensures
        final(out)@ == old(out)@ + decimal(i as int),
{
    if i < 0 {
        out.push('-');
        push_nat(out, (-(i as i64)) as u64);
    } else {
        push_nat(out, i as u64);
    }
}

/// Appends the shortest decimal rendering of `k / 1000`.
pub fn push_milli(out: &mut String, k: i32)
    ensures
        final(out)@ == old(out)@ + decimal_milli(k as int),
{
    let ghost start = out@;
    let magnitude: u64 = if k < 0 {
        (-(k as i64)) as u64
    } else {
        k as u64
    };
    if k < 0 {
        out.push('-');
    }
    push_nat(out, magnitude / 1000);
    let f: u64 = magnitude % 1000;
    if f != 0 {
        out.push('.');
        push_digit(out, f / 100);
        if f % 100 != 0 {
            push_digit(out, (f / 10) % 10);
            if f % 10 != 0 {
                push_digit(out, f % 10);
            }
        }
    }
    assert(out@ =~= start + decimal_milli(k as int));
}

/// Whether `a` comes no later than `b` in the order of `str`, which compares
/// code point by code point.
pub open spec fn text_le(a: Seq<char>, b: Seq<char>) -> bool
    decreases a.len(),
{
    if a.len() == 0 {
        true
    } else if b.len() == 0 {
        false
    } else if a[0] == b[0] {
        text_le(a.drop_first(), b.drop_first())
    } else {
        a[0] < b[0]
    }
}

/// The order of `str` as a relation.
pub open spec fn text_order() -> spec_fn(Seq<char>, Seq<char>) -> bool {
    |a: Seq<char>, b: Seq<char>| text_le(a, b)
}

proof fn lemma_text_le_reflexive(a: Seq<char>)
    ensures
        text_le(a, a),
    decreases a.len(),
{
    if a.len() > 0 {
        lemma_text_le_reflexive(a.drop_first());
    }
}

proof fn lemma_text_le_antisymmetric(a: Seq<char>, b: Seq<char>)
    requires
        text_le(a, b),
        text_le(b, a),
    ensures
        a == b,
    decreases a.len(),
{
    if a.len() > 0 && b.len() > 0 {
        assert(a[0] == b[0]);
        let left = a.drop_first();
        let right = b.drop_first();
        lemma_text_le_antisymmetric(left, right);
        assert(a.len() == left.len() + 1 && b.len() == right.len() + 1);
        assert forall|i: int| 0 <= i < a.len() implies a[i] == b[i] by {
            if i > 0 {
                assert(a[i] == left[i - 1]);
                assert(b[i] == right[i - 1]);
            }
        }
    }
    assert(a =~= b);
}

proof fn lemma_text_le_transitive(a: Seq<char>, b: Seq<char>, c: Seq<char>)
    requires
        text_le(a, b),
        text_le(b, c),
    ensures
        text_le(a, c),
    decreases a.len(),
{
    if a.len() > 0 && a[0] == b[0] && b[0] == c[0] {
        lemma_text_le_transitive(a.drop_first(), b.drop_first(), c.drop_first());
    }
}

proof fn lemma_text_le_total(a: Seq<char>, b: Seq<char>)
    ensures
        text_le(a, b) || text_le(b, a),
    decreases a.len(),
{
    if a.len() > 0 && b.len() > 0 && a[0] == b[0] {
        lemma_text_le_total(a.drop_first(), b.drop_first());
    }
}

/// The order of text is total: any two texts compare, and two texts that
/// compare both ways are the same text.
pub proof fn text_order_is_total()
    ensures
        total_ordering(text_order()),
{
    let leq = text_order();
    assert forall|a: Seq<char>| #[trigger] leq(a, a) by {
        lemma_text_le_reflexive(a);
    }
    assert forall|a: Seq<char>, b: Seq<char>| #[trigger] leq(a, b) && #[trigger] leq(b, a)
        implies a == b by {
        lemma_text_le_antisymmetric(a, b);
    }
    assert forall|a: Seq<char>, b: Seq<char>, c: Seq<char>|
        #[trigger] leq(a, b) && #[trigger] leq(b, c) implies leq(a, c) by {
        lemma_text_le_transitive(a, b, c);
    }
    assert forall|a: Seq<char>, b: Seq<char>| #[trigger] leq(a, b) || #[trigger] leq(b, a) by {
        lemma_text_le_total(a, b);
    }
}

/// The characters of `s`, one by one.
pub fn chars_of(s: &str) -> (v: Vec<char>)
    ensures
        v@ == s@,
{
    let mut v: Vec<char> = Vec::new();
    for c in it: s.chars()
        invariant
            v@ == s@.take(it.index() as int),
            it.seq() == s@,
    {
        v.push(c);
    }
    v
}

/// Whether two texts are the same.
pub fn text_eq(a: &str, b: &str) -> (r: bool)
    ensures
        r == (a@ == b@),
{
    a.to_owned() == b.to_owned()
}

/// Whether `a` comes no later than `b`.
pub fn text_precedes(a: &str, b: &str) -> (r: bool)
    ensures
        r == text_le(a@, b@),
{
    let left = chars_of(a);
    let right = chars_of(b);
    let mut i: usize = 0;
    assert(left@.skip(0) =~= left@);
    assert(right@.skip(0) =~= right@);
    while i < left.len() && i < right.len() && left[i] == right[i]
        invariant
            i <= left@.len(),
            i <= right@.len(),
            text_le(left@, right@) == text_le(left@.skip(i as int), right@.skip(i as int)),
        decreases left@.len() - i,
    {
        assert(left@.skip(i as int).drop_first() =~= left@.skip(i + 1));
        assert(right@.skip(i as int).drop_first() =~= right@.skip(i + 1));
        i = i + 1;
    }
    if i == left.len() {
        true
    } else if i == right.len() {
        false
    } else {
        left[i] < right[i]
    }
}

/// What an optional string stands for.
pub open spec fn option_text(text: Option<String>) -> Option<Seq<char>> {
    match text {
        Some(t) => Some(t@),
        None => None,
    }
}

/// The texts that a sequence of strings holds.
pub open spec fn texts(s: Seq<String>) -> Seq<Seq<char>> {
    Seq::new(s.len(), |i: int| s[i]@)
}

/// Puts the strings in the order of `str`.
pub fn sort_texts(names: Vec<String>) -> (sorted: Vec<String>)
    ensures
        texts(sorted@) == texts(names@).sort_by(text_order()),
{
    broadcast use group_to_multiset_ensures;

    let mut sorted: Vec<String> = Vec::new();
    let ghost all = texts(names@);
    let ghost leq = text_order();
    assert(texts(sorted@) =~= all.take(0));
    for i in 0..names.len()
        invariant
            all == texts(names@),
            leq == text_order(),
            texts(sorted@).to_multiset() == all.take(i as int).to_multiset(),
            sorted_by(texts(sorted@), leq),
    {
        let ghost before = texts(sorted@);
        let ghost name = names@[i as int]@;
        let mut at: usize = 0;
        while at < sorted.len() && text_precedes(sorted[at].as_str(), names[i].as_str())
            invariant
                i < names.len(),
                at <= sorted@.len(),
                before == texts(sorted@),
                name == names@[i as int]@,
                leq == text_order(),
                forall|j: int| 0 <= j < at ==> #[trigger] leq(before[j], name),
            decreases sorted@.len() - at,
        {
            assert(leq(before[at as int], name));
            at = at + 1;
        }
        sorted.insert(at, names[i].clone());
        proof {
            text_order_is_total();
            order::lemma_insert_sorted(before, at as int, name, leq);
            assert(texts(sorted@) =~= before.insert(at as int, name));
            to_multiset_build(all.take(i as int), name);
            assert(all.take(i + 1) =~= all.take(i as int).push(name));
        }
    }
    proof {
        text_order_is_total();
        assert(all.take(names@.len() as int) =~= all);
        all.lemma_sort_by_ensures(leq);
        lemma_sorted_unique(texts(sorted@), all.sort_by(leq), leq);
    }
    sorted
}

/// Sorting forgets the order in which the texts came.
pub proof fn sorting_forgets_order(left: Seq<Seq<char>>, right: Seq<Seq<char>>)
    requires
        left.to_multiset() == right.to_multiset(),
    ensures
        left.sort_by(text_order()) == right.sort_by(text_order()),
{
    text_order_is_total();
    left.lemma_sort_by_ensures(text_order());
    right.lemma_sort_by_ensures(text_order());
    lemma_sorted_unique(
        left.sort_by(text_order()),
        right.sort_by(text_order()),
        text_order(),
    );
}

/// The text with every space replaced by an underscore.
pub open spec fn underscored(s: Seq<char>) -> Seq<char> {
    Seq::new(
        s.len(),
        |i: int|
            if s[i] == ' ' {
                '_'
            } else {
                s[i]
            },
    )
}

/// Appends `s` with every space replaced by an underscore.
pub fn push_underscored(out: &mut String, s: &str)
    ensures
        final(out)@ == old(out)@ + underscored(s@),
{
    let ghost start = out@;
    for c in it: s.chars()
        invariant
            out@ == start + underscored(s@).take(it.index() as int),
            it.seq() == s@,
    {
        let ghost i = it.index() as int;
        if c == ' ' {
            out.push('_');
        } else {
            out.push(c);
        }
        assert(underscored(s@).take(i + 1) =~= underscored(s@).take(i).push(underscored(s@)[i]));
    }
    assert(underscored(s@).take(s@.len() as int) =~= underscored(s@));
}

/// The parts one after another with `separator` between neighbours.
pub open spec fn joined(parts: Seq<Seq<char>>, separator: Seq<char>) -> Seq<char>
    decreases parts.len(),
{
    if parts.len() == 0 {
        seq![]
    } else if parts.len() == 1 {
        parts[0]
    } else {
        joined(parts.drop_last(), separator) + separator + parts.last()
    }
}

/// The parts one after another.
pub open spec fn concatenated(parts: Seq<Seq<char>>) -> Seq<char>
    decreases parts.len(),
{
    if parts.len() == 0 {
        seq![]
    } else {
        concatenated(parts.drop_last()) + parts.last()
    }
}

/// Whether `s` begins with `prefix`.
pub fn starts_with(s: &str, prefix: &str) -> (r: bool)
    ensures
        r == prefix@.is_prefix_of(s@),
{
    let text = chars_of(s);
    let head = chars_of(prefix);
    if head.len() > text.len() {
        return false;
    }
    for i in 0..head.len()
        invariant
            head@.len() <= text@.len(),
            forall|j: int| 0 <= j < i ==> head@[j] == text@[j],
            head@ == prefix@,
            text@ == s@,
    {
        if head[i] != text[i] {
            assert(prefix@[i as int] != s@.subrange(0, prefix@.len() as int)[i as int]);
            return false;
        }
    }
    assert(prefix@ =~= s@.subrange(0, prefix@.len() as int));
    true
}

/// Whether no character of `s` is `c`.
pub open spec fn lacks(s: Seq<char>, c: char) -> bool {
    forall|i: int| 0 <= i < s.len() ==> #[trigger] s[i] != c
}

/// Where a separator stands in neither of two texts, what it separates from
/// them can be told apart.
pub proof fn lemma_split_at(
    left: Seq<char>,
    left_rest: Seq<char>,
    right: Seq<char>,
    right_rest: Seq<char>,
    c: char,
)
    requires
        lacks(left, c),
        lacks(right, c),
        left + seq![c] + left_rest == right + seq![c] + right_rest,
    ensures
        left == right,
        left_rest == right_rest,
{
    let a = left + seq![c] + left_rest;
    let b = right + seq![c] + right_rest;
    assert(a[left.len() as int] == c);
    assert(b[right.len() as int] == c);
    if left.len() < right.len() {
        assert(b[left.len() as int] == right[left.len() as int]);
    }
    if right.len() < left.len() {
        assert(a[right.len() as int] == left[right.len() as int]);
    }
    assert(left =~= right) by {
        assert forall|i: int| 0 <= i < left.len() implies left[i] == right[i] by {
            assert(a[i] == left[i]);
            assert(b[i] == right[i]);
        }
    }
    assert(a.len() == left.len() + 1 + left_rest.len());
    assert(b.len() == right.len() + 1 + right_rest.len());
    assert(left_rest =~= right_rest) by {
        assert forall|i: int| 0 <= i < left_rest.len() implies left_rest[i] == right_rest[i] by {
            assert(a[left.len() + 1 + i] == left_rest[i]);
            assert(b[right.len() + 1 + i] == right_rest[i]);
        }
    }
}

/// Decimal digits are digits, at least one of them.
pub proof fn lemma_decimal_nat_digits(n: nat)
    ensures
        decimal_nat(n).len() > 0,
        forall|i: int|
            0 <= i < decimal_nat(n).len() ==> '0' <= #[trigger] decimal_nat(n)[i] <= '9',
    decreases n,
{
    if n >= 10 {
        lemma_decimal_nat_digits(n / 10);
    }
}

proof fn lemma_digit_char(a: nat, b: nat)
    requires
        a < 10,
        b < 10,
        digit_char(a) == digit_char(b),
    ensures
        a == b,
{
}

/// Numbers with the same decimal digits are the same.
pub proof fn lemma_decimal_nat_injective(a: nat, b: nat)
    requires
        decimal_nat(a) == decimal_nat(b),
    ensures
        a == b,
    decreases a,
{
    if a >= 10 {
        lemma_decimal_nat_digits(a / 10);
    }
    if b >= 10 {
        lemma_decimal_nat_digits(b / 10);
    }
    if a < 10 && b < 10 {
        assert(decimal_nat(a)[0] == digit_char(a));
        assert(decimal_nat(b)[0] == digit_char(b));
        lemma_digit_char(a, b);
    } else if a < 10 {
        assert(decimal_nat(a).len() == 1);
        assert(decimal_nat(b).len() > 1);
    } else if b < 10 {
        assert(decimal_nat(b).len() == 1);
        assert(decimal_nat(a).len() > 1);
    } else {
        let left = decimal_nat(a / 10);
        let right = decimal_nat(b / 10);
        assert(decimal_nat(a).last() == digit_char(a % 10));
        assert(decimal_nat(b).last() == digit_char(b % 10));
        lemma_digit_char(a % 10, b % 10);
        assert(left =~= decimal_nat(a).drop_last());
        assert(right =~= decimal_nat(b).drop_last());
        lemma_decimal_nat_injective(a / 10, b / 10);
    }
}

/// Integers with the same decimal rendering are the same.
pub proof fn lemma_decimal_injective(a: int, b: int)
    requires
        decimal(a) == decimal(b),
    ensures
        a == b,
{
    let m = if a < 0 {
        (-a) as nat
    } else {
        a as nat
    };
    let n = if b < 0 {
        (-b) as nat
    } else {
        b as nat
    };
    lemma_decimal_nat_digits(m);
    lemma_decimal_nat_digits(n);
    assert(decimal(a)[0] == decimal(b)[0]);
    if a < 0 {
        assert(decimal(a)[0] == '-');
        assert(decimal(a).skip(1) =~= decimal_nat(m));
    } else {
        assert(decimal(a)[0] == decimal_nat(m)[0]);
    }
    if b < 0 {
        assert(decimal(b)[0] == '-');
        assert(decimal(b).skip(1) =~= decimal_nat(n));
    } else {
        assert(decimal(b)[0] == decimal_nat(n)[0]);
    }
    lemma_decimal_nat_injective(m, n);
}

proof fn lemma_thousandths_injective(f: nat, g: nat)
    requires
        f < 1000,
        g < 1000,
        thousandths(f) == thousandths(g),
    ensures
        f == g,
{
    let a = thousandths(f);
    let b = thousandths(g);
    assert(f == 0 <==> a.len() == 0);
    assert(g == 0 <==> b.len() == 0);
    assert(f != 0 ==> (a.len() == 2 <==> f % 100 == 0) && (a.len() <= 3 <==> f % 10 == 0));
    assert(g != 0 ==> (b.len() == 2 <==> g % 100 == 0) && (b.len() <= 3 <==> g % 10 == 0));
    if f != 0 && g != 0 {
        assert(a[1] == b[1]);
        lemma_digit_char(f / 100, g / 100);
        if a.len() >= 3 {
            assert(a[2] == b[2]);
            lemma_digit_char((f / 10) % 10, (g / 10) % 10);
        }
        if a.len() >= 4 {
            assert(a[3] == b[3]);
            lemma_digit_char(f % 10, g % 10);
        }
    }
}

/// Thousandths with the same decimal rendering are the same.
pub proof fn lemma_decimal_milli_injective(a: int, b: int)
    requires
        decimal_milli(a) == decimal_milli(b),
    ensures
        a == b,
{
    let m = if a < 0 {
        (-a) as nat
    } else {
        a as nat
    };
    let n = if b < 0 {
        (-b) as nat
    } else {
        b as nat
    };
    let left = decimal_nat(m / 1000);
    let right = decimal_nat(n / 1000);
    let left_rest = thousandths(m % 1000);
    let right_rest = thousandths(n % 1000);
    lemma_decimal_nat_digits(m / 1000);
    lemma_decimal_nat_digits(n / 1000);
    assert(decimal_milli(a)[0] == if a < 0 {
        '-'
    } else {
        left[0]
    });
    assert(decimal_milli(b)[0] == if b < 0 {
        '-'
    } else {
        right[0]
    });
    assert(left + left_rest =~= if a < 0 {
        decimal_milli(a).skip(1)
    } else {
        decimal_milli(a)
    });
    assert(right + right_rest =~= if b < 0 {
        decimal_milli(b).skip(1)
    } else {
        decimal_milli(b)
    });
    assert(left + left_rest == right + right_rest);
    if left_rest.len() > 0 && right_rest.len() > 0 {
        assert(left + left_rest =~= left + seq!['.'] + left_rest.skip(1));
        assert(right + right_rest =~= right + seq!['.'] + right_rest.skip(1));
        lemma_split_at(left, left_rest.skip(1), right, right_rest.skip(1), '.');
        assert(left_rest =~= seq!['.'] + left_rest.skip(1));
        assert(right_rest =~= seq!['.'] + right_rest.skip(1));
    } else if left_rest.len() > 0 {
        assert((left + left_rest)[left.len() as int] == '.');
        assert((right + right_rest) =~= right);
    } else if right_rest.len() > 0 {
        assert((right + right_rest)[right.len() as int] == '.');
        assert((left + left_rest) =~= left);
    } else {
        assert((left + left_rest) =~= left);
        assert((right + right_rest) =~= right);
    }
    lemma_decimal_nat_injective(m / 1000, n / 1000);
    lemma_thousandths_injective(m % 1000, n % 1000);
}

/// The lower-case form of an ASCII letter; any other character as it is.
pub open spec fn ascii_lower(c: char) -> char {
    if 'A' <= c <= 'Z' {
        (c as int + 32) as char
    } else {
        c
    }
}

/// Whether two texts are the same but for the case of ASCII letters.
pub open spec fn same_ignoring_case(a: Seq<char>, b: Seq<char>) -> bool {
    &&& a.len() == b.len()
    &&& forall|i: int| 0 <= i < a.len() ==> ascii_lower(#[trigger] a[i]) == ascii_lower(b[i])
}

/// Whether the part of `s` from `start` to `end` stands between separators or
/// the ends of the text.
pub open spec fn is_segment(s: Seq<char>, start: int, end: int, separator: char) -> bool {
    &&& 0 <= start <= end <= s.len()
    &&& start == 0 || s[start - 1] == separator
    &&& end == s.len() || s[end] == separator
    &&& lacks(s.subrange(start, end), separator)
}

/// Whether one of the parts into which a separator divides `s` is `word`, but
/// for the case of ASCII letters.
pub open spec fn has_segment(s: Seq<char>, separator: char, word: Seq<char>) -> bool {
    exists|start: int, end: int| #[trigger]
        is_segment(s, start, end, separator) && same_ignoring_case(s.subrange(start, end), word)
}

fn lower(c: char) -> (r: char)
    ensures
        r == ascii_lower(c),
{
    if 'A' <= c && c <= 'Z' {
        (c as u8 + 32) as char
    } else {
        c
    }
}

fn matches_at(text: &Vec<char>, start: usize, end: usize, word: &Vec<char>) -> (r: bool)
    requires
        start <= end <= text@.len(),
    ensures
        r == same_ignoring_case(text@.subrange(start as int, end as int), word@),
{
    let ghost part = text@.subrange(start as int, end as int);
    if end - start != word.len() {
        return false;
    }
    for i in 0..word.len()
        invariant
            start <= end <= text@.len(),
            end - start == word@.len(),
            part == text@.subrange(start as int, end as int),
            forall|j: int|
                0 <= j < i ==> ascii_lower(#[trigger] part[j]) == ascii_lower(word@[j]),
    {
        assert(part[i as int] == text@[start + i]);
        if lower(text[start + i]) != lower(word[i]) {
            return false;
        }
    }
    true
}

/// Whether one of the parts into which a separator divides `s` is `word`, but
/// for the case of ASCII letters.
pub fn contains_segment(s: &str, separator: char, word: &str) -> (r: bool)
    ensures
        r == has_segment(s@, separator, word@),
{
    let text = chars_of(s);
    let word_chars = chars_of(word);
    let mut start: usize = 0;
    let mut end: usize = 0;
    loop
        invariant
            text@ == s@,
            word_chars@ == word@,
            start <= end <= text@.len(),
            start == 0 || text@[start - 1] == separator,
            lacks(text@.subrange(start as int, end as int), separator),
            forall|p: int, q: int| #[trigger]
                is_segment(s@, p, q, separator) && p < start ==> !same_ignoring_case(
                    s@.subrange(p, q),
                    word@,
                ),
        decreases text@.len() - end, text@.len() - start,
    {
        if end < text.len() && text[end] != separator {
            end = end + 1;
            assert forall|i: int|
                0 <= i < end - start implies #[trigger] text@.subrange(start as int, end as int)[i]
                != separator by {
                if i < end - start - 1 {
                    assert(text@.subrange(start as int, end - 1)[i] != separator);
                }
            }
        } else {
            assert(is_segment(s@, start as int, end as int, separator));
            if matches_at(&text, start, end, &word_chars) {
                return true;
            }
            proof {
                assert forall|p: int, q: int| #[trigger]
                    is_segment(s@, p, q, separator) && p <= end implies !same_ignoring_case(
                    s@.subrange(p, q),
                    word@,
                ) by {
                    if p >= start {
                        if p > start {
                            assert(s@[p - 1] == s@.subrange(start as int, end as int)[p - 1
                                - start]);
                        }
                        if q < end {
                            assert(s@[q] == s@.subrange(start as int, end as int)[q - start]);
                        }
                        if q > end {
                            assert(s@[end as int] == s@.subrange(p, q)[end - p]);
                        }
                    }
                }
            }
            if end == text.len() {
                return false;
            }
            start = end + 1;
            end = start;
        }
    }
}

} // verus!
