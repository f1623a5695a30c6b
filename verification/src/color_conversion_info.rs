//! Conversions between colour spaces.

use vstd::prelude::*;

verus! {

/// How a colour space takes part in a conversion.
#[derive(Clone, Copy, Debug, PartialEq, Eq, Structural)]
pub enum CGColorConversionInfoTransformType {
    /// `kCGColorConversionTransformFromSpace`
    FromSpace,
    /// `kCGColorConversionTransformToSpace`
    ToSpace,
    /// `kCGColorConversionTransformApplySpace`
    ApplySpace,
}

impl CGColorConversionInfoTransformType {
    /// The integer by which the native framework knows this transform type.
    pub open spec fn spec_code(self) -> int {
        match self {
            CGColorConversionInfoTransformType::FromSpace => 0,
            CGColorConversionInfoTransformType::ToSpace => 1,
            CGColorConversionInfoTransformType::ApplySpace => 2,
        }
    }

    /// The transform type with the native code `code`, if there is one.
    pub open spec fn spec_from_code(code: int) -> Option<CGColorConversionInfoTransformType> {
        if code == 0 {
            Some(CGColorConversionInfoTransformType::FromSpace)
        } else if code == 1 {
            Some(CGColorConversionInfoTransformType::ToSpace)
        } else if code == 2 {
            Some(CGColorConversionInfoTransformType::ApplySpace)
        } else {
            None
        }
    }

    pub fn code(self) -> (code: u32)
        ensures
            code == self.spec_code(),
    {
        match self {
            CGColorConversionInfoTransformType::FromSpace => 0,
            CGColorConversionInfoTransformType::ToSpace => 1,
            CGColorConversionInfoTransformType::ApplySpace => 2,
        }
    }

    pub fn from_code(code: u32) -> (transform_type: Option<CGColorConversionInfoTransformType>)
        ensures
            transform_type == Self::spec_from_code(code as int),
    {
        match code {
            0 => Some(CGColorConversionInfoTransformType::FromSpace),
            1 => Some(CGColorConversionInfoTransformType::ToSpace),
            2 => Some(CGColorConversionInfoTransformType::ApplySpace),
            _ => None,
        }
    }

    /// Every transform type is found again from its own code.
    pub proof fn lemma_code_round_trip(self)
        ensures
            Self::spec_from_code(self.spec_code()) == Some(self),
    {
    }

    /// A code names at most one transform type: the one whose code it is.
    pub proof fn lemma_from_code_sound(code: int)
        ensures
            match Self::spec_from_code(code) {
                Some(transform_type) => transform_type.spec_code() == code,
                None => forall|transform_type: CGColorConversionInfoTransformType| transform_type.spec_code() != code,
            },
    {
    }
}

/// The options of a colour conversion.
#[derive(Clone, Copy, Debug, PartialEq, Eq, Structural)]
pub enum CGColorConversionKeys {
    BlackPointCompensation,
    TRCSize,
}

impl CGColorConversionKeys {
    /// The native constant that holds the string for this option.
    pub open spec fn spec_symbol(self) -> Seq<char> {
        match self {
            CGColorConversionKeys::BlackPointCompensation => "kCGColorConversionBlackPointCompensation"@,
            CGColorConversionKeys::TRCSize => "kCGColorConversionTRCSize"@,
        }
    }

    pub fn symbol(self) -> (symbol: &'static str)
        ensures
            symbol@ == self.spec_symbol(),
    {
        match self {
            CGColorConversionKeys::BlackPointCompensation => "kCGColorConversionBlackPointCompensation",
            CGColorConversionKeys::TRCSize => "kCGColorConversionTRCSize",
        }
    }

    /// No two of them share a native constant: where two names are of one
    /// length, they differ at the place named in the proof.
    pub proof fn lemma_symbol_injective(self, other: CGColorConversionKeys)
        requires
            self.spec_symbol() == other.spec_symbol(),
        ensures
            self == other,
    {
        reveal_strlit("kCGColorConversionBlackPointCompensation");
        reveal_strlit("kCGColorConversionTRCSize");
        assert("kCGColorConversionBlackPointCompensation"@.len() == 40);
        assert("kCGColorConversionTRCSize"@.len() == 25);
    }
}

} // verus!
