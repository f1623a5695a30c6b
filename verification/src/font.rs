//! Fonts and glyphs.

use vstd::prelude::*;

verus! {

/// The index of a glyph or of another entry of a font.
pub type CGFontIndex = u16;

pub type CGGlyph = CGFontIndex;

/// The largest index an entry of a font can have.
pub const kCGFontIndexMax: CGFontIndex = 0xFFFE;

/// The index that names no entry.
pub const kCGFontIndexInvalid: CGFontIndex = 0xFFFF;

pub const kCGGlyphMax: CGFontIndex = kCGFontIndexMax;

/// The PostScript font formats a font can be written in.
#[derive(Clone, Copy, Debug, PartialEq, Eq, Structural)]
pub enum CGFontPostScriptFormat {
    /// `kCGFontPostScriptFormatType1`
    Type1,
    /// `kCGFontPostScriptFormatType3`
    Type3,
    /// `kCGFontPostScriptFormatType42`
    Type42,
}

impl CGFontPostScriptFormat {
    /// The integer by which the native framework knows this font format.
    pub open spec fn spec_code(self) -> int {
        match self {
            CGFontPostScriptFormat::Type1 => 1,
            CGFontPostScriptFormat::Type3 => 3,
            CGFontPostScriptFormat::Type42 => 42,
        }
    }

    /// The font format with the native code `code`, if there is one.
    pub open spec fn spec_from_code(code: int) -> Option<CGFontPostScriptFormat> {
        if code == 1 {
            Some(CGFontPostScriptFormat::Type1)
        } else if code == 3 {
            Some(CGFontPostScriptFormat::Type3)
        } else if code == 42 {
            Some(CGFontPostScriptFormat::Type42)
        } else {
            None
        }
    }

    pub fn code(self) -> (code: i32)
        ensures
            code == self.spec_code(),
    {
        match self {
            CGFontPostScriptFormat::Type1 => 1,
            CGFontPostScriptFormat::Type3 => 3,
            CGFontPostScriptFormat::Type42 => 42,
        }
    }

    pub fn from_code(code: i32) -> (format: Option<CGFontPostScriptFormat>)
        ensures
            format == Self::spec_from_code(code as int),
    {
        match code {
            1 => Some(CGFontPostScriptFormat::Type1),
            3 => Some(CGFontPostScriptFormat::Type3),
            42 => Some(CGFontPostScriptFormat::Type42),
            _ => None,
        }
    }

    /// Every font format is found again from its own code.
    pub proof fn lemma_code_round_trip(self)
        ensures
            Self::spec_from_code(self.spec_code()) == Some(self),
    {
    }

    /// A code names at most one font format: the one whose code it is.
    pub proof fn lemma_from_code_sound(code: int)
        ensures
            match Self::spec_from_code(code) {
                Some(format) => format.spec_code() == code,
                None => forall|format: CGFontPostScriptFormat| format.spec_code() != code,
            },
    {
    }
}

/// The entries that describe one variation axis of a font.
#[derive(Clone, Copy, Debug, PartialEq, Eq, Structural)]
pub enum CGFontVariationAxis {
    Name,
    MinValue,
    MaxValue,
    DefaultValue,
}

impl CGFontVariationAxis {
    /// The native constant that holds the string for this entry.
    pub open spec fn spec_symbol(self) -> Seq<char> {
        match self {
            CGFontVariationAxis::Name => "kCGFontVariationAxisName"@,
            CGFontVariationAxis::MinValue => "kCGFontVariationAxisMinValue"@,
            CGFontVariationAxis::MaxValue => "kCGFontVariationAxisMaxValue"@,
            CGFontVariationAxis::DefaultValue => "kCGFontVariationAxisDefaultValue"@,
        }
    }

    pub fn symbol(self) -> (symbol: &'static str)
        ensures
            symbol@ == self.spec_symbol(),
    {
        match self {
            CGFontVariationAxis::Name => "kCGFontVariationAxisName",
            CGFontVariationAxis::MinValue => "kCGFontVariationAxisMinValue",
            CGFontVariationAxis::MaxValue => "kCGFontVariationAxisMaxValue",
            CGFontVariationAxis::DefaultValue => "kCGFontVariationAxisDefaultValue",
        }
    }

    /// No two of them share a native constant: where two names are of one
    /// length, they differ at the place named in the proof.
    pub proof fn lemma_symbol_injective(self, other: CGFontVariationAxis)
        requires
            self.spec_symbol() == other.spec_symbol(),
        ensures
            self == other,
    {
        reveal_strlit("kCGFontVariationAxisName");
        reveal_strlit("kCGFontVariationAxisMinValue");
        reveal_strlit("kCGFontVariationAxisMaxValue");
        reveal_strlit("kCGFontVariationAxisDefaultValue");
        assert("kCGFontVariationAxisName"@.len() == 24);
        assert("kCGFontVariationAxisMinValue"@.len() == 28);
        assert("kCGFontVariationAxisMaxValue"@.len() == 28);
        assert("kCGFontVariationAxisDefaultValue"@.len() == 32);
        assert("kCGFontVariationAxisMinValue"@[21] != "kCGFontVariationAxisMaxValue"@[21]);
    }
}

/// Whether a buffer of `capacity` entries can take one result for each of
/// `glyphs` glyphs.  The native framework is asked only if it can.
pub fn glyph_results_fit(glyphs: usize, capacity: usize) -> (fit: bool)
    ensures
        fit == (glyphs <= capacity),
{
    glyphs <= capacity
}

/// What a query for the metrics of glyphs came to: false without asking
/// where the results would not fit, and else what the native framework
/// answered.
pub fn glyph_query_outcome(glyphs: usize, capacity: usize, answer: bool) -> (outcome: bool)
    ensures
        outcome == (glyphs <= capacity && answer),
{
    glyph_results_fit(glyphs, capacity) && answer
}

} // verus!
