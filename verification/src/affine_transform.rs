//! Affine transforms, laid out as the native framework has them.

use vstd::prelude::*;

use crate::base::CGFloat;
use crate::geometry::{CGSize, CGVector};

verus! {

/// The matrix
/// ```text
/// a  b  0
/// c  d  0
/// tx ty 1
/// ```
#[derive(Clone, Copy, Debug, Default)]
pub struct CGAffineTransform {
    pub a: CGFloat,
    pub b: CGFloat,
    pub c: CGFloat,
    pub d: CGFloat,
    pub tx: CGFloat,
    pub ty: CGFloat,
}

/// A transform taken apart into scale, shear, rotation and translation.
#[derive(Clone, Copy, Debug, Default)]
pub struct CGAffineTransformComponents {
    pub scale: CGSize,
    pub horizontal_shear: CGFloat,
    pub rotation: CGFloat,
    pub translation: CGVector,
}

/// The bits of the number one.
pub const ONE_BITS: u64 = 0x3FF0_0000_0000_0000;

impl CGAffineTransform {
    /// The transform with the six entries given.
    pub fn from_entries(
        a: CGFloat,
        b: CGFloat,
        c: CGFloat,
        d: CGFloat,
        tx: CGFloat,
        ty: CGFloat,
    ) -> (transform: CGAffineTransform)
        ensures
            transform.a == a,
            transform.b == b,
            transform.c == c,
            transform.d == d,
            transform.tx == tx,
            transform.ty == ty,
    {
        CGAffineTransform { a, b, c, d, tx, ty }
    }

    /// The transform that moves nothing.
    pub fn identity() -> (transform: CGAffineTransform)
        ensures
            transform.a.spec_to_bits() == ONE_BITS,
            transform.b.spec_to_bits() == crate::base::ZERO_BITS,
            transform.c.spec_to_bits() == crate::base::ZERO_BITS,
            transform.d.spec_to_bits() == ONE_BITS,
            transform.tx.spec_to_bits() == crate::base::ZERO_BITS,
            transform.ty.spec_to_bits() == crate::base::ZERO_BITS,
    {
        CGAffineTransform {
            a: CGFloat::from_bits(ONE_BITS),
            b: CGFloat::zero(),
            c: CGFloat::zero(),
            d: CGFloat::from_bits(ONE_BITS),
            tx: CGFloat::zero(),
            ty: CGFloat::zero(),
        }
    }
}

} // verus!
