//! The scalar types that cross the native boundary.

use vstd::prelude::*;

verus! {

/// A real number of the native framework, carried by the bits of its
/// binary64 encoding.
///
/// The binding never computes with such a number: it takes it from the
/// client, hands it to the native framework and back.  So the bits are all
/// there is to it here, and two numbers are told apart by their bits alone.
#[derive(Clone, Copy, Debug)]
pub struct CGFloat {
    bits: u64,
}

/// The bits of the number zero.
pub const ZERO_BITS: u64 = 0;

/// The bits of the largest finite number.
pub const MAX_BITS: u64 = 0x7FEF_FFFF_FFFF_FFFF;

/// The bits of the smallest finite number, the negative of the largest.
pub const MIN_BITS: u64 = 0xFFEF_FFFF_FFFF_FFFF;

impl CGFloat {
    pub closed spec fn spec_to_bits(self) -> u64 {
        self.bits
    }

    pub fn from_bits(bits: u64) -> (number: CGFloat)
        ensures
            number.spec_to_bits() == bits,
    {
        CGFloat { bits }
    }

    #[verifier::when_used_as_spec(spec_to_bits)]
    pub fn to_bits(self) -> (bits: u64)
        ensures
            bits == self.spec_to_bits(),
    {
        self.bits
    }

    pub fn zero() -> (number: CGFloat)
        ensures
            number.spec_to_bits() == ZERO_BITS,
    {
        CGFloat { bits: ZERO_BITS }
    }

    /// The largest finite number.
    pub fn max_value() -> (number: CGFloat)
        ensures
            number.spec_to_bits() == MAX_BITS,
    {
        CGFloat { bits: MAX_BITS }
    }

    /// The smallest finite number.
    pub fn min_value() -> (number: CGFloat)
        ensures
            number.spec_to_bits() == MIN_BITS,
    {
        CGFloat { bits: MIN_BITS }
    }

    /// A number is its bits.
    pub proof fn lemma_bits_determine(self, other: CGFloat)
        requires
            self.spec_to_bits() == other.spec_to_bits(),
        ensures
            self == other,
    {
    }
}

impl Default for CGFloat {
    fn default() -> (number: CGFloat)
        ensures
            number.spec_to_bits() == ZERO_BITS,
    {
        CGFloat { bits: ZERO_BITS }
    }
}

/// A truth value as the native framework passes it: an integer that is zero
/// for false.
pub type boolean_t = u32;

/// The native integer for a truth value: one for true, zero for false.
pub fn to_boolean_t(value: bool) -> (native: boolean_t)
    ensures
        native == if value { 1u32 } else { 0u32 },
{
    if value {
        1
    } else {
        0
    }
}

/// The truth value of a native integer: false for zero, true for all else.
pub fn from_boolean_t(native: boolean_t) -> (value: bool)
    ensures
        value == (native != 0),
{
    native != 0
}

/// The count to pass for a list that may be left out: its length, or zero
/// for none.
pub fn optional_len<T>(items: Option<&[T]>) -> (count: usize)
    ensures
        count == match items {
            Some(list) => list@.len(),
            None => 0,
        },
{
    match items {
        Some(list) => list.len(),
        None => 0,
    }
}

} // verus!
