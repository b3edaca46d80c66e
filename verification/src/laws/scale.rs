//! How scale factors compare, on their bit patterns.

use vstd::prelude::*;

use crate::scale;
use crate::scale::{Scale, ScaleView};

verus! {

/// Two factors are the same number exactly where their bit patterns are the same
/// or both are a zero; a pattern behind either infinity is no number, and equals
/// nothing, not even itself.
pub proof fn factors_compare_as_numbers(a: Scale, b: Scale)
    ensures
        ({
            let number = |bits: u64| {
                ||| bits <= 0x7ff0_0000_0000_0000
                ||| 0x8000_0000_0000_0000 <= bits <= 0xfff0_0000_0000_0000
            };
            let zero = |bits: u64| bits == 0 || bits == 0x8000_0000_0000_0000;
            let same = {
                &&& number(a.bits)
                &&& number(b.bits)
                &&& a.bits == b.bits || zero(a.bits) && zero(b.bits)
            };
            &&& scale::same_number(a.bits, b.bits) <==> same
            &&& vstd::std_specs::cmp::PartialEqSpec::eq_spec(&a, &b) <==> same
        }),
{
}

/// A factor is usable exactly where it lies above zero and below infinity, and at
/// most zero exactly where it is a zero or has a sign; it is never both, and what
/// is neither is infinite or no number.
pub proof fn factors_are_usable_or_not(bits: u64)
    ensures
        scale::positive_finite(bits) <==> 0 < bits < 0x7ff0_0000_0000_0000,
        scale::at_most_zero(bits) <==> bits == 0 || 0x8000_0000_0000_0000 <= bits
            <= 0xfff0_0000_0000_0000,
        !(scale::positive_finite(bits) && scale::at_most_zero(bits)),
        !scale::positive_finite(bits) && !scale::at_most_zero(bits) ==> bits
            == 0x7ff0_0000_0000_0000 || scale::not_a_number(bits),
        scale::not_a_number(bits) <==> !scale::same_number(bits, bits),
{
}

/// The factor one reads `1` and has the bit pattern of one.
pub proof fn one_is_one()
    ensures
        scale::scale_one().bits == 0x3ff0_0000_0000_0000,
        scale::scale_one().text == "1"@,
{
}

/// The view of a factor tells its bits and its text, and a list of factors is seen
/// one by one.
pub proof fn factor_views_tell_every_field(
    factor: Scale,
    factors: Seq<Scale>,
    bits: u64,
    text: Seq<char>,
    i: int,
)
    ensures
        factor@.bits == factor.bits,
        factor@.text == factor.text@,
        ScaleView::new(bits, text).bits == bits,
        ScaleView::new(bits, text).text == text,
        scale::option_scale(Some(factor)) == Some(factor@),
        scale::option_scale(None) is None,
        scale::scale_views(factors).len() == factors.len(),
        0 <= i < factors.len() ==> scale::scale_views(factors)[i] == factors[i]@,
{
}

} // verus!
