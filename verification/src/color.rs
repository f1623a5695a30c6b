//! Colours.

use vstd::prelude::*;

verus! {

/// The colours that the native framework keeps ready by name.
#[derive(Clone, Copy, Debug, PartialEq, Eq, Structural)]
pub enum CGColorName {
    White,
    Black,
    Clear,
}

impl CGColorName {
    /// The native constant that holds the string for this colour name.
    pub open spec fn spec_symbol(self) -> Seq<char> {
        match self {
            CGColorName::White => "kCGColorWhite"@,
            CGColorName::Black => "kCGColorBlack"@,
            CGColorName::Clear => "kCGColorClear"@,
        }
    }

    pub fn symbol(self) -> (symbol: &'static str)
        ensures
            symbol@ == self.spec_symbol(),
    {
        match self {
            CGColorName::White => "kCGColorWhite",
            CGColorName::Black => "kCGColorBlack",
            CGColorName::Clear => "kCGColorClear",
        }
    }

    /// No two of them share a native constant: where two names are of one
    /// length, they differ at the place named in the proof.
    pub proof fn lemma_symbol_injective(self, other: CGColorName)
        requires
            self.spec_symbol() == other.spec_symbol(),
        ensures
            self == other,
    {
        reveal_strlit("kCGColorWhite");
        reveal_strlit("kCGColorBlack");
        reveal_strlit("kCGColorClear");
        assert("kCGColorWhite"@.len() == 13);
        assert("kCGColorBlack"@.len() == 13);
        assert("kCGColorClear"@.len() == 13);
        assert("kCGColorWhite"@[8] != "kCGColorBlack"@[8]);
        assert("kCGColorWhite"@[8] != "kCGColorClear"@[8]);
        assert("kCGColorBlack"@[8] != "kCGColorClear"@[8]);
    }
}

} // verus!
