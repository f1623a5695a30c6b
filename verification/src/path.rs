//! Paths: how their outlines are stroked, and the elements they are made
//! of.

use vstd::prelude::*;

use crate::geometry::{CGPoint, CGRect};

verus! {

/// How the corners of a stroked path are drawn.
#[derive(Clone, Copy, Debug, PartialEq, Eq, Structural)]
pub enum CGLineJoin {
    /// `kCGLineJoinMiter`
    Miter,
    /// `kCGLineJoinRound`
    Round,
    /// `kCGLineJoinBevel`
    Bevel,
}

impl CGLineJoin {
    /// The integer by which the native framework knows this line join.
    pub open spec fn spec_code(self) -> int {
        match self {
            CGLineJoin::Miter => 0,
            CGLineJoin::Round => 1,
            CGLineJoin::Bevel => 2,
        }
    }

    /// The line join with the native code `code`, if there is one.
    pub open spec fn spec_from_code(code: int) -> Option<CGLineJoin> {
        if code == 0 {
            Some(CGLineJoin::Miter)
        } else if code == 1 {
            Some(CGLineJoin::Round)
        } else if code == 2 {
            Some(CGLineJoin::Bevel)
        } else {
            None
        }
    }

    pub fn code(self) -> (code: i32)
        ensures
            code == self.spec_code(),
    {
        match self {
            CGLineJoin::Miter => 0,
            CGLineJoin::Round => 1,
            CGLineJoin::Bevel => 2,
        }
    }

    pub fn from_code(code: i32) -> (join: Option<CGLineJoin>)
        ensures
            join == Self::spec_from_code(code as int),
    {
        match code {
            0 => Some(CGLineJoin::Miter),
            1 => Some(CGLineJoin::Round),
            2 => Some(CGLineJoin::Bevel),
            _ => None,
        }
    }

    /// Every line join is found again from its own code.
    pub proof fn lemma_code_round_trip(self)
        ensures
            Self::spec_from_code(self.spec_code()) == Some(self),
    {
    }

    /// A code names at most one line join: the one whose code it is.
    pub proof fn lemma_from_code_sound(code: int)
        ensures
            match Self::spec_from_code(code) {
                Some(join) => join.spec_code() == code,
                None => forall|join: CGLineJoin| join.spec_code() != code,
            },
    {
    }
}

/// How the ends of a stroked path are drawn.
#[derive(Clone, Copy, Debug, PartialEq, Eq, Structural)]
pub enum CGLineCap {
    /// `kCGLineCapButt`
    Butt,
    /// `kCGLineCapRound`
    Round,
    /// `kCGLineCapSquare`
    Square,
}

impl CGLineCap {
    /// The integer by which the native framework knows this line cap.
    pub open spec fn spec_code(self) -> int {
        match self {
            CGLineCap::Butt => 0,
            CGLineCap::Round => 1,
            CGLineCap::Square => 2,
        }
    }

    /// The line cap with the native code `code`, if there is one.
    pub open spec fn spec_from_code(code: int) -> Option<CGLineCap> {
        if code == 0 {
            Some(CGLineCap::Butt)
        } else if code == 1 {
            Some(CGLineCap::Round)
        } else if code == 2 {
            Some(CGLineCap::Square)
        } else {
            None
        }
    }

    pub fn code(self) -> (code: i32)
        ensures
            code == self.spec_code(),
    {
        match self {
            CGLineCap::Butt => 0,
            CGLineCap::Round => 1,
            CGLineCap::Square => 2,
        }
    }

    pub fn from_code(code: i32) -> (cap: Option<CGLineCap>)
        ensures
            cap == Self::spec_from_code(code as int),
    {
        match code {
            0 => Some(CGLineCap::Butt),
            1 => Some(CGLineCap::Round),
            2 => Some(CGLineCap::Square),
            _ => None,
        }
    }

    /// Every line cap is found again from its own code.
    pub proof fn lemma_code_round_trip(self)
        ensures
            Self::spec_from_code(self.spec_code()) == Some(self),
    {
    }

    /// A code names at most one line cap: the one whose code it is.
    pub proof fn lemma_from_code_sound(code: int)
        ensures
            match Self::spec_from_code(code) {
                Some(cap) => cap.spec_code() == code,
                None => forall|cap: CGLineCap| cap.spec_code() != code,
            },
    {
    }
}

/// The kinds of elements a path is made of.
#[derive(Clone, Copy, Debug, PartialEq, Eq, Structural)]
pub enum CGPathElementType {
    /// `kCGPathElementMoveToPoint`
    MoveToPoint,
    /// `kCGPathElementAddLineToPoint`
    AddLineToPoint,
    /// `kCGPathElementAddQuadCurveToPoint`
    AddQuadCurveToPoint,
    /// `kCGPathElementAddCurveToPoint`
    AddCurveToPoint,
    /// `kCGPathElementCloseSubpath`
    CloseSubpath,
}

impl CGPathElementType {
    /// The integer by which the native framework knows this element type.
    pub open spec fn spec_code(self) -> int {
        match self {
            CGPathElementType::MoveToPoint => 0,
            CGPathElementType::AddLineToPoint => 1,
            CGPathElementType::AddQuadCurveToPoint => 2,
            CGPathElementType::AddCurveToPoint => 3,
            CGPathElementType::CloseSubpath => 4,
        }
    }

    /// The element type with the native code `code`, if there is one.
    pub open spec fn spec_from_code(code: int) -> Option<CGPathElementType> {
        if code == 0 {
            Some(CGPathElementType::MoveToPoint)
        } else if code == 1 {
            Some(CGPathElementType::AddLineToPoint)
        } else if code == 2 {
            Some(CGPathElementType::AddQuadCurveToPoint)
        } else if code == 3 {
            Some(CGPathElementType::AddCurveToPoint)
        } else if code == 4 {
            Some(CGPathElementType::CloseSubpath)
        } else {
            None
        }
    }

    pub fn code(self) -> (code: i32)
        ensures
            code == self.spec_code(),
    {
        match self {
            CGPathElementType::MoveToPoint => 0,
            CGPathElementType::AddLineToPoint => 1,
            CGPathElementType::AddQuadCurveToPoint => 2,
            CGPathElementType::AddCurveToPoint => 3,
            CGPathElementType::CloseSubpath => 4,
        }
    }

    pub fn from_code(code: i32) -> (element_type: Option<CGPathElementType>)
        ensures
            element_type == Self::spec_from_code(code as int),
    {
        match code {
            0 => Some(CGPathElementType::MoveToPoint),
            1 => Some(CGPathElementType::AddLineToPoint),
            2 => Some(CGPathElementType::AddQuadCurveToPoint),
            3 => Some(CGPathElementType::AddCurveToPoint),
            4 => Some(CGPathElementType::CloseSubpath),
            _ => None,
        }
    }

    /// Every element type is found again from its own code.
    pub proof fn lemma_code_round_trip(self)
        ensures
            Self::spec_from_code(self.spec_code()) == Some(self),
    {
    }

    /// A code names at most one element type: the one whose code it is.
    pub proof fn lemma_from_code_sound(code: int)
        ensures
            match Self::spec_from_code(code) {
                Some(element_type) => element_type.spec_code() == code,
                None => forall|element_type: CGPathElementType| element_type.spec_code() != code,
            },
    {
    }
}

impl CGPathElementType {
    /// How many points an element of this type comes with: the end point
    /// of a move or a line, with one control point before it for a
    /// quadratic curve and two for a cubic one, and none to close a subpath.
    pub open spec fn spec_point_count(self) -> nat {
        match self {
            CGPathElementType::MoveToPoint => 1,
            CGPathElementType::AddLineToPoint => 1,
            CGPathElementType::AddQuadCurveToPoint => 2,
            CGPathElementType::AddCurveToPoint => 3,
            CGPathElementType::CloseSubpath => 0,
        }
    }

    pub fn point_count(self) -> (count: usize)
        ensures
            count == self.spec_point_count(),
            count <= 3,
    {
        match self {
            CGPathElementType::MoveToPoint => 1,
            CGPathElementType::AddLineToPoint => 1,
            CGPathElementType::AddQuadCurveToPoint => 2,
            CGPathElementType::AddCurveToPoint => 3,
            CGPathElementType::CloseSubpath => 0,
        }
    }
}

/// One element of a path: its type, and the points that go with it.
#[derive(Debug)]
pub struct CGPathElement {
    element_type: CGPathElementType,
    points: Vec<CGPoint>,
}

impl CGPathElement {
    /// An element has as many points as its type says.
    #[verifier::type_invariant]
    pub closed spec fn well_formed(&self) -> bool {
        self.points@.len() == self.element_type.spec_point_count()
    }

    pub closed spec fn spec_element_type(&self) -> CGPathElementType {
        self.element_type
    }

    pub closed spec fn spec_points(&self) -> Seq<CGPoint> {
        self.points@
    }

    /// The element of the given type with the given points, if there are
    /// as many of them as the type says.
    pub fn new(element_type: CGPathElementType, points: Vec<CGPoint>) -> (element: Option<
        CGPathElement,
    >)
        ensures
            element is Some <==> points@.len() == element_type.spec_point_count(),
            element matches Some(e) ==> e.spec_element_type() == element_type && e.spec_points()
                == points@ && e.well_formed(),
    {
        if points.len() == element_type.point_count() {
            Some(CGPathElement { element_type, points })
        } else {
            None
        }
    }

    #[verifier::when_used_as_spec(spec_element_type)]
    pub fn element_type(&self) -> (element_type: CGPathElementType)
        ensures
            element_type == self.spec_element_type(),
    {
        self.element_type
    }

    /// The points of the element: as many as its type says.
    pub fn points(&self) -> (points: &[CGPoint])
        ensures
            points@ == self.spec_points(),
            points@.len() == self.spec_element_type().spec_point_count(),
    {
        proof {
            use_type_invariant(self);
        }
        self.points.as_slice()
    }
}

/// An element of a path as the closure that walks the path receives it.
#[derive(Debug)]
pub struct CGPathElementRef {
    element: CGPathElement,
}

impl CGPathElementRef {
    pub closed spec fn spec_element(&self) -> CGPathElement {
        self.element
    }

    pub fn new(element: CGPathElement) -> (element_ref: CGPathElementRef)
        ensures
            element_ref.spec_element() == element,
    {
        CGPathElementRef { element }
    }

    /// The element referred to.
    pub fn element(&self) -> (element: &CGPathElement)
        ensures
            *element == self.spec_element(),
    {
        &self.element
    }
}

/// The outcome of asking whether a path is a rectangle: the native
/// framework says whether it is, and `rect` is what it wrote.
pub fn is_rect(found: bool, rect: CGRect) -> (read: Option<CGRect>)
    ensures
        read == if found { Some(rect) } else { None },
{
    if found {
        Some(rect)
    } else {
        None
    }
}

} // verus!
