//! Output scale factors.
//!
//! A scale factor reaches the daemon as a double-precision number. The logic
//! reads it in two ways, and a [`Scale`] holds both: the IEEE 754 bit pattern,
//! by which factors are compared, and the decimal text, which goes into
//! profiles and messages.

use vstd::prelude::*;

verus! {

/// Bit patterns from here on carry the sign bit.
pub const SIGN_BITS: u64 = 0x8000_0000_0000_0000;

/// The bit pattern of positive infinity.
pub const INFINITY_BITS: u64 = 0x7ff0_0000_0000_0000;

/// A scale factor: its double-precision bit pattern and its decimal text.
#[derive(Debug)]
pub struct Scale {
    pub bits: u64,
    pub text: String,
}

/// What a [`Scale`] stands for.
pub struct ScaleView {
    pub bits: u64,
    pub text: Seq<char>,
}

impl View for Scale {
    type V = ScaleView;

    open spec fn view(&self) -> ScaleView {
        ScaleView { bits: self.bits, text: self.text@ }
    }
}

/// The bit pattern without its sign.
pub open spec fn magnitude_bits(bits: u64) -> u64 {
    bits % SIGN_BITS
}

/// Whether the bit pattern is that of no number.
pub open spec fn not_a_number(bits: u64) -> bool {
    magnitude_bits(bits) > INFINITY_BITS
}

/// Whether two bit patterns are equal as numbers: the two zeros are, and what
/// is no number equals nothing.
pub open spec fn same_number(a: u64, b: u64) -> bool {
    &&& !not_a_number(a)
    &&& !not_a_number(b)
    &&& a == b || (magnitude_bits(a) == 0 && magnitude_bits(b) == 0)
}

/// Whether the bit pattern is that of a finite number above zero.
pub open spec fn positive_finite(bits: u64) -> bool {
    0 < bits < INFINITY_BITS
}

/// Whether the bit pattern is that of zero or of a number below zero.
pub open spec fn at_most_zero(bits: u64) -> bool {
    !not_a_number(bits) && (magnitude_bits(bits) == 0 || bits >= SIGN_BITS)
}

impl ScaleView {
    pub open spec fn new(bits: u64, text: Seq<char>) -> ScaleView {
        ScaleView { bits, text }
    }
}

/// The factor one.
pub open spec fn scale_one() -> ScaleView {
    ScaleView::new(0x3ff0_0000_0000_0000, "1"@)
}

impl Scale {
    /// The factor with the given bit pattern, which reads `text` in decimal.
    pub fn new(bits: u64, text: &str) -> (scale: Scale)
        ensures
            scale@ == ScaleView::new(bits, text@),
    {
        Scale { bits, text: text.to_owned() }
    }

    /// The factor one.
    pub fn one() -> (scale: Scale)
        ensures
            scale@ == scale_one(),
    {
        Scale::new(0x3ff0_0000_0000_0000, "1")
    }

    /// Whether both are the same number.
    pub fn same_as(&self, other: &Scale) -> (r: bool)
        ensures
            r == same_number(self@.bits, other@.bits),
    {
        let left: u64 = self.bits % SIGN_BITS;
        let right: u64 = other.bits % SIGN_BITS;
        left <= INFINITY_BITS && right <= INFINITY_BITS && (self.bits == other.bits || (left == 0
            && right == 0))
    }

    /// Whether the factor is a finite number above zero.
    pub fn is_positive_finite(&self) -> (r: bool)
        ensures
            r == positive_finite(self@.bits),
    {
        0 < self.bits && self.bits < INFINITY_BITS
    }

    /// Whether the factor is zero or below.
    pub fn is_at_most_zero(&self) -> (r: bool)
        ensures
            r == at_most_zero(self@.bits),
    {
        let magnitude: u64 = self.bits % SIGN_BITS;
        magnitude <= INFINITY_BITS && (magnitude == 0 || self.bits >= SIGN_BITS)
    }
}

impl Clone for Scale {
    fn clone(&self) -> (r: Scale)
        ensures
            r@ == self@,
    {
        Scale { bits: self.bits, text: self.text.clone() }
    }
}

impl PartialEq for Scale {
    fn eq(&self, other: &Scale) -> (r: bool) {
        self.same_as(other)
    }
}

impl vstd::std_specs::cmp::PartialEqSpecImpl for Scale {
    open spec fn obeys_eq_spec() -> bool {
        true
    }

    open spec fn eq_spec(&self, other: &Scale) -> bool {
        same_number(self@.bits, other@.bits)
    }
}

/// What an optional scale stands for.
pub open spec fn option_scale(scale: Option<Scale>) -> Option<ScaleView> {
    match scale {
        Some(s) => Some(s@),
        None => None,
    }
}

/// What a list of scales stands for.
pub open spec fn scale_views(scales: Seq<Scale>) -> Seq<ScaleView> {
    Seq::new(scales.len(), |i: int| scales[i]@)
}

} // verus!
