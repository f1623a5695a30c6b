//! Patterns.

use vstd::prelude::*;

verus! {

/// How pattern cells are fitted to device pixels.
#[derive(Clone, Copy, Debug, PartialEq, Eq, Structural)]
pub enum CGPatternTiling {
    /// `kCGPatternTilingNoDistortion`
    NoDistortion,
    /// `kCGPatternTilingConstantSpacingMinimalDistortion`
    ConstantSpacingMinimalDistortion,
    /// `kCGPatternTilingConstantSpacing`
    ConstantSpacing,
}

impl CGPatternTiling {
    /// The integer by which the native framework knows this tiling.
    pub open spec fn spec_code(self) -> int {
        match self {
            CGPatternTiling::NoDistortion => 0,
            CGPatternTiling::ConstantSpacingMinimalDistortion => 1,
            CGPatternTiling::ConstantSpacing => 2,
        }
    }

    /// The tiling with the native code `code`, if there is one.
    pub open spec fn spec_from_code(code: int) -> Option<CGPatternTiling> {
        if code == 0 {
            Some(CGPatternTiling::NoDistortion)
        } else if code == 1 {
            Some(CGPatternTiling::ConstantSpacingMinimalDistortion)
        } else if code == 2 {
            Some(CGPatternTiling::ConstantSpacing)
        } else {
            None
        }
    }

    pub fn code(self) -> (code: i32)
        ensures
            code == self.spec_code(),
    {
        match self {
            CGPatternTiling::NoDistortion => 0,
            CGPatternTiling::ConstantSpacingMinimalDistortion => 1,
            CGPatternTiling::ConstantSpacing => 2,
        }
    }

    pub fn from_code(code: i32) -> (tiling: Option<CGPatternTiling>)
        ensures
            tiling == Self::spec_from_code(code as int),
    {
        match code {
            0 => Some(CGPatternTiling::NoDistortion),
            1 => Some(CGPatternTiling::ConstantSpacingMinimalDistortion),
            2 => Some(CGPatternTiling::ConstantSpacing),
            _ => None,
        }
    }

    /// Every tiling is found again from its own code.
    pub proof fn lemma_code_round_trip(self)
        ensures
            Self::spec_from_code(self.spec_code()) == Some(self),
    {
    }

    /// A code names at most one tiling: the one whose code it is.
    pub proof fn lemma_from_code_sound(code: int)
        ensures
            match Self::spec_from_code(code) {
                Some(tiling) => tiling.spec_code() == code,
                None => forall|tiling: CGPatternTiling| tiling.spec_code() != code,
            },
    {
    }
}

} // verus!
