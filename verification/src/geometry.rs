//! Points, sizes, vectors and rectangles, laid out as the native framework
//! has them.

use vstd::prelude::*;

use crate::base::CGFloat;

verus! {

#[derive(Clone, Copy, Debug, Default)]
pub struct CGPoint {
    pub x: CGFloat,
    pub y: CGFloat,
}

#[derive(Clone, Copy, Debug, Default)]
pub struct CGSize {
    pub width: CGFloat,
    pub height: CGFloat,
}

#[derive(Clone, Copy, Debug, Default)]
pub struct CGVector {
    pub dx: CGFloat,
    pub dy: CGFloat,
}

#[derive(Clone, Copy, Debug, Default)]
pub struct CGRect {
    pub origin: CGPoint,
    pub size: CGSize,
}

/// The edges of a rectangle.
#[derive(Clone, Copy, Debug, PartialEq, Eq, Structural)]
pub enum CGRectEdge {
    /// `CGRectMinXEdge`
    MinX,
    /// `CGRectMinYEdge`
    MinY,
    /// `CGRectMaxXEdge`
    MaxX,
    /// `CGRectMaxYEdge`
    MaxY,
}

impl CGRectEdge {
    /// The integer by which the native framework knows this edge.
    pub open spec fn spec_code(self) -> int {
        match self {
            CGRectEdge::MinX => 0,
            CGRectEdge::MinY => 1,
            CGRectEdge::MaxX => 2,
            CGRectEdge::MaxY => 3,
        }
    }

    /// The edge with the native code `code`, if there is one.
    pub open spec fn spec_from_code(code: int) -> Option<CGRectEdge> {
        if code == 0 {
            Some(CGRectEdge::MinX)
        } else if code == 1 {
            Some(CGRectEdge::MinY)
        } else if code == 2 {
            Some(CGRectEdge::MaxX)
        } else if code == 3 {
            Some(CGRectEdge::MaxY)
        } else {
            None
        }
    }

    pub fn code(self) -> (code: u32)
        ensures
            code == self.spec_code(),
    {
        match self {
            CGRectEdge::MinX => 0,
            CGRectEdge::MinY => 1,
            CGRectEdge::MaxX => 2,
            CGRectEdge::MaxY => 3,
        }
    }

    pub fn from_code(code: u32) -> (edge: Option<CGRectEdge>)
        ensures
            edge == Self::spec_from_code(code as int),
    {
        match code {
            0 => Some(CGRectEdge::MinX),
            1 => Some(CGRectEdge::MinY),
            2 => Some(CGRectEdge::MaxX),
            3 => Some(CGRectEdge::MaxY),
            _ => None,
        }
    }

    /// Every edge is found again from its own code.
    pub proof fn lemma_code_round_trip(self)
        ensures
            Self::spec_from_code(self.spec_code()) == Some(self),
    {
    }

    /// A code names at most one edge: the one whose code it is.
    pub proof fn lemma_from_code_sound(code: int)
        ensures
            match Self::spec_from_code(code) {
                Some(edge) => edge.spec_code() == code,
                None => forall|edge: CGRectEdge| edge.spec_code() != code,
            },
    {
    }
}

impl CGPoint {
    pub fn new(x: CGFloat, y: CGFloat) -> (point: CGPoint)
        ensures
            point.x == x,
            point.y == y,
    {
        CGPoint { x, y }
    }

    /// The point at the origin.
    pub fn zero() -> (point: CGPoint)
        ensures
            point.x.spec_to_bits() == crate::base::ZERO_BITS,
            point.y.spec_to_bits() == crate::base::ZERO_BITS,
    {
        CGPoint { x: CGFloat::zero(), y: CGFloat::zero() }
    }

    /// The outcome of reading a point from a dictionary: the native reader
    /// says whether it found one, and `point` is what it wrote.
    pub fn from_dict_representation(found: bool, point: CGPoint) -> (read: Option<CGPoint>)
        ensures
            read == if found { Some(point) } else { None },
    {
        if found {
            Some(point)
        } else {
            None
        }
    }
}

impl CGSize {
    pub fn new(width: CGFloat, height: CGFloat) -> (size: CGSize)
        ensures
            size.width == width,
            size.height == height,
    {
        CGSize { width, height }
    }

    /// The size of nothing.
    pub fn zero() -> (size: CGSize)
        ensures
            size.width.spec_to_bits() == crate::base::ZERO_BITS,
            size.height.spec_to_bits() == crate::base::ZERO_BITS,
    {
        CGSize { width: CGFloat::zero(), height: CGFloat::zero() }
    }

    /// The outcome of reading a size from a dictionary: the native reader
    /// says whether it found one, and `size` is what it wrote.
    pub fn from_dict_representation(found: bool, size: CGSize) -> (read: Option<CGSize>)
        ensures
            read == if found { Some(size) } else { None },
    {
        if found {
            Some(size)
        } else {
            None
        }
    }
}

impl CGVector {
    pub fn new(dx: CGFloat, dy: CGFloat) -> (vector: CGVector)
        ensures
            vector.dx == dx,
            vector.dy == dy,
    {
        CGVector { dx, dy }
    }
}

impl CGRect {
    pub fn new(x: CGFloat, y: CGFloat, width: CGFloat, height: CGFloat) -> (rect: CGRect)
        ensures
            rect.origin.x == x,
            rect.origin.y == y,
            rect.size.width == width,
            rect.size.height == height,
    {
        CGRect { origin: CGPoint::new(x, y), size: CGSize::new(width, height) }
    }

    /// The rectangle at the origin with no extent.
    pub fn zero() -> (rect: CGRect)
        ensures
            rect.origin.x.spec_to_bits() == crate::base::ZERO_BITS,
            rect.origin.y.spec_to_bits() == crate::base::ZERO_BITS,
            rect.size.width.spec_to_bits() == crate::base::ZERO_BITS,
            rect.size.height.spec_to_bits() == crate::base::ZERO_BITS,
    {
        CGRect { origin: CGPoint::zero(), size: CGSize::zero() }
    }

    /// The rectangle that stands for no rectangle at all: its origin lies
    /// at the largest finite number on both axes.
    pub fn null() -> (rect: CGRect)
        ensures
            rect.origin.x.spec_to_bits() == crate::base::MAX_BITS,
            rect.origin.y.spec_to_bits() == crate::base::MAX_BITS,
            rect.size.width.spec_to_bits() == crate::base::ZERO_BITS,
            rect.size.height.spec_to_bits() == crate::base::ZERO_BITS,
    {
        CGRect {
            origin: CGPoint::new(CGFloat::max_value(), CGFloat::max_value()),
            size: CGSize::zero(),
        }
    }

    /// The rectangle that covers everything: from the smallest finite
    /// number on both axes, the largest finite number wide and high.
    pub fn infinite() -> (rect: CGRect)
        ensures
            rect.origin.x.spec_to_bits() == crate::base::MIN_BITS,
            rect.origin.y.spec_to_bits() == crate::base::MIN_BITS,
            rect.size.width.spec_to_bits() == crate::base::MAX_BITS,
            rect.size.height.spec_to_bits() == crate::base::MAX_BITS,
    {
        CGRect {
            origin: CGPoint::new(CGFloat::min_value(), CGFloat::min_value()),
            size: CGSize::new(CGFloat::max_value(), CGFloat::max_value()),
        }
    }

    /// The outcome of reading a rectangle from a dictionary: the native
    /// reader says whether it found one, and `rect` is what it wrote.
    pub fn from_dict_representation(found: bool, rect: CGRect) -> (read: Option<CGRect>)
        ensures
            read == if found { Some(rect) } else { None },
    {
        if found {
            Some(rect)
        } else {
            None
        }
    }
}

} // verus!
