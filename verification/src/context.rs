//! Drawing contexts: the modes that the drawing calls are numbered by.

use vstd::prelude::*;

verus! {

/// How a path is painted.
#[derive(Clone, Copy, Debug, PartialEq, Eq, Structural)]
pub enum CGPathDrawingMode {
    /// `kCGPathFill`
    Fill,
    /// `kCGPathEOFill`
    EOFill,
    /// `kCGPathStroke`
    Stroke,
    /// `kCGPathFillStroke`
    FillStroke,
    /// `kCGPathEOFillStroke`
    EOFillStroke,
}

impl CGPathDrawingMode {
    /// The integer by which the native framework knows this drawing mode.
    pub open spec fn spec_code(self) -> int {
        match self {
            CGPathDrawingMode::Fill => 0,
            CGPathDrawingMode::EOFill => 1,
            CGPathDrawingMode::Stroke => 2,
            CGPathDrawingMode::FillStroke => 3,
            CGPathDrawingMode::EOFillStroke => 4,
        }
    }

    /// The drawing mode with the native code `code`, if there is one.
    pub open spec fn spec_from_code(code: int) -> Option<CGPathDrawingMode> {
        if code == 0 {
            Some(CGPathDrawingMode::Fill)
        } else if code == 1 {
            Some(CGPathDrawingMode::EOFill)
        } else if code == 2 {
            Some(CGPathDrawingMode::Stroke)
        } else if code == 3 {
            Some(CGPathDrawingMode::FillStroke)
        } else if code == 4 {
            Some(CGPathDrawingMode::EOFillStroke)
        } else {
            None
        }
    }

    pub fn code(self) -> (code: i32)
        ensures
            code == self.spec_code(),
    {
        match self {
            CGPathDrawingMode::Fill => 0,
            CGPathDrawingMode::EOFill => 1,
            CGPathDrawingMode::Stroke => 2,
            CGPathDrawingMode::FillStroke => 3,
            CGPathDrawingMode::EOFillStroke => 4,
        }
    }

    pub fn from_code(code: i32) -> (mode: Option<CGPathDrawingMode>)
        ensures
            mode == Self::spec_from_code(code as int),
    {
        match code {
            0 => Some(CGPathDrawingMode::Fill),
            1 => Some(CGPathDrawingMode::EOFill),
            2 => Some(CGPathDrawingMode::Stroke),
            3 => Some(CGPathDrawingMode::FillStroke),
            4 => Some(CGPathDrawingMode::EOFillStroke),
            _ => None,
        }
    }

    /// Every drawing mode is found again from its own code.
    pub proof fn lemma_code_round_trip(self)
        ensures
            Self::spec_from_code(self.spec_code()) == Some(self),
    {
    }

    /// A code names at most one drawing mode: the one whose code it is.
    pub proof fn lemma_from_code_sound(code: int)
        ensures
            match Self::spec_from_code(code) {
                Some(mode) => mode.spec_code() == code,
                None => forall|mode: CGPathDrawingMode| mode.spec_code() != code,
            },
    {
    }
}

/// How glyphs are painted.
#[derive(Clone, Copy, Debug, PartialEq, Eq, Structural)]
pub enum CGTextDrawingMode {
    /// `kCGTextFill`
    Fill,
    /// `kCGTextStroke`
    Stroke,
    /// `kCGTextFillStroke`
    FillStroke,
    /// `kCGTextInvisible`
    Invisible,
    /// `kCGTextFillClip`
    FillClip,
    /// `kCGTextStrokeClip`
    StrokeClip,
    /// `kCGTextFillStrokeClip`
    FillStrokeClip,
    /// `kCGTextClip`
    Clip,
}

impl CGTextDrawingMode {
    /// The integer by which the native framework knows this text drawing mode.
    pub open spec fn spec_code(self) -> int {
        match self {
            CGTextDrawingMode::Fill => 0,
            CGTextDrawingMode::Stroke => 1,
            CGTextDrawingMode::FillStroke => 2,
            CGTextDrawingMode::Invisible => 3,
            CGTextDrawingMode::FillClip => 4,
            CGTextDrawingMode::StrokeClip => 5,
            CGTextDrawingMode::FillStrokeClip => 6,
            CGTextDrawingMode::Clip => 7,
        }
    }

    /// The text drawing mode with the native code `code`, if there is one.
    pub open spec fn spec_from_code(code: int) -> Option<CGTextDrawingMode> {
        if code == 0 {
            Some(CGTextDrawingMode::Fill)
        } else if code == 1 {
            Some(CGTextDrawingMode::Stroke)
        } else if code == 2 {
            Some(CGTextDrawingMode::FillStroke)
        } else if code == 3 {
            Some(CGTextDrawingMode::Invisible)
        } else if code == 4 {
            Some(CGTextDrawingMode::FillClip)
        } else if code == 5 {
            Some(CGTextDrawingMode::StrokeClip)
        } else if code == 6 {
            Some(CGTextDrawingMode::FillStrokeClip)
        } else if code == 7 {
            Some(CGTextDrawingMode::Clip)
        } else {
            None
        }
    }

    pub fn code(self) -> (code: i32)
        ensures
            code == self.spec_code(),
    {
        match self {
            CGTextDrawingMode::Fill => 0,
            CGTextDrawingMode::Stroke => 1,
            CGTextDrawingMode::FillStroke => 2,
            CGTextDrawingMode::Invisible => 3,
            CGTextDrawingMode::FillClip => 4,
            CGTextDrawingMode::StrokeClip => 5,
            CGTextDrawingMode::FillStrokeClip => 6,
            CGTextDrawingMode::Clip => 7,
        }
    }

    pub fn from_code(code: i32) -> (mode: Option<CGTextDrawingMode>)
        ensures
            mode == Self::spec_from_code(code as int),
    {
        match code {
            0 => Some(CGTextDrawingMode::Fill),
            1 => Some(CGTextDrawingMode::Stroke),
            2 => Some(CGTextDrawingMode::FillStroke),
            3 => Some(CGTextDrawingMode::Invisible),
            4 => Some(CGTextDrawingMode::FillClip),
            5 => Some(CGTextDrawingMode::StrokeClip),
            6 => Some(CGTextDrawingMode::FillStrokeClip),
            7 => Some(CGTextDrawingMode::Clip),
            _ => None,
        }
    }

    /// Every text drawing mode is found again from its own code.
    pub proof fn lemma_code_round_trip(self)
        ensures
            Self::spec_from_code(self.spec_code()) == Some(self),
    {
    }

    /// A code names at most one text drawing mode: the one whose code it is.
    pub proof fn lemma_from_code_sound(code: int)
        ensures
            match Self::spec_from_code(code) {
                Some(mode) => mode.spec_code() == code,
                None => forall|mode: CGTextDrawingMode| mode.spec_code() != code,
            },
    {
    }
}

/// How the bytes of a text string select glyphs.
#[derive(Clone, Copy, Debug, PartialEq, Eq, Structural)]
pub enum CGTextEncoding {
    /// `kCGEncodingFontSpecific`
    FontSpecific,
    /// `kCGEncodingMacRoman`
    MacRoman,
}

impl CGTextEncoding {
    /// The integer by which the native framework knows this text encoding.
    pub open spec fn spec_code(self) -> int {
        match self {
            CGTextEncoding::FontSpecific => 0,
            CGTextEncoding::MacRoman => 1,
        }
    }

    /// The text encoding with the native code `code`, if there is one.
    pub open spec fn spec_from_code(code: int) -> Option<CGTextEncoding> {
        if code == 0 {
            Some(CGTextEncoding::FontSpecific)
        } else if code == 1 {
            Some(CGTextEncoding::MacRoman)
        } else {
            None
        }
    }

    pub fn code(self) -> (code: i32)
        ensures
            code == self.spec_code(),
    {
        match self {
            CGTextEncoding::FontSpecific => 0,
            CGTextEncoding::MacRoman => 1,
        }
    }

    pub fn from_code(code: i32) -> (encoding: Option<CGTextEncoding>)
        ensures
            encoding == Self::spec_from_code(code as int),
    {
        match code {
            0 => Some(CGTextEncoding::FontSpecific),
            1 => Some(CGTextEncoding::MacRoman),
            _ => None,
        }
    }

    /// Every text encoding is found again from its own code.
    pub proof fn lemma_code_round_trip(self)
        ensures
            Self::spec_from_code(self.spec_code()) == Some(self),
    {
    }

    /// A code names at most one text encoding: the one whose code it is.
    pub proof fn lemma_from_code_sound(code: int)
        ensures
            match Self::spec_from_code(code) {
                Some(encoding) => encoding.spec_code() == code,
                None => forall|encoding: CGTextEncoding| encoding.spec_code() != code,
            },
    {
    }
}

/// The quality of image interpolation.
#[derive(Clone, Copy, Debug, PartialEq, Eq, Structural)]
pub enum CGInterpolationQuality {
    /// `kCGInterpolationDefault`
    Default,
    /// `kCGInterpolationNone`
    NoInterpolation,
    /// `kCGInterpolationLow`
    Low,
    /// `kCGInterpolationMedium`
    Medium,
    /// `kCGInterpolationHigh`
    High,
}

impl CGInterpolationQuality {
    /// The integer by which the native framework knows this interpolation quality.
    pub open spec fn spec_code(self) -> int {
        match self {
            CGInterpolationQuality::Default => 0,
            CGInterpolationQuality::NoInterpolation => 1,
            CGInterpolationQuality::Low => 2,
            CGInterpolationQuality::Medium => 4,
            CGInterpolationQuality::High => 3,
        }
    }

    /// The interpolation quality with the native code `code`, if there is one.
    pub open spec fn spec_from_code(code: int) -> Option<CGInterpolationQuality> {
        if code == 0 {
            Some(CGInterpolationQuality::Default)
        } else if code == 1 {
            Some(CGInterpolationQuality::NoInterpolation)
        } else if code == 2 {
            Some(CGInterpolationQuality::Low)
        } else if code == 4 {
            Some(CGInterpolationQuality::Medium)
        } else if code == 3 {
            Some(CGInterpolationQuality::High)
        } else {
            None
        }
    }

    pub fn code(self) -> (code: i32)
        ensures
            code == self.spec_code(),
    {
        match self {
            CGInterpolationQuality::Default => 0,
            CGInterpolationQuality::NoInterpolation => 1,
            CGInterpolationQuality::Low => 2,
            CGInterpolationQuality::Medium => 4,
            CGInterpolationQuality::High => 3,
        }
    }

    pub fn from_code(code: i32) -> (quality: Option<CGInterpolationQuality>)
        ensures
            quality == Self::spec_from_code(code as int),
    {
        match code {
            0 => Some(CGInterpolationQuality::Default),
            1 => Some(CGInterpolationQuality::NoInterpolation),
            2 => Some(CGInterpolationQuality::Low),
            4 => Some(CGInterpolationQuality::Medium),
            3 => Some(CGInterpolationQuality::High),
            _ => None,
        }
    }

    /// Every interpolation quality is found again from its own code.
    pub proof fn lemma_code_round_trip(self)
        ensures
            Self::spec_from_code(self.spec_code()) == Some(self),
    {
    }

    /// A code names at most one interpolation quality: the one whose code it is.
    pub proof fn lemma_from_code_sound(code: int)
        ensures
            match Self::spec_from_code(code) {
                Some(quality) => quality.spec_code() == code,
                None => forall|quality: CGInterpolationQuality| quality.spec_code() != code,
            },
    {
    }
}

/// How source samples are composited over the destination.
#[derive(Clone, Copy, Debug, PartialEq, Eq, Structural)]
pub enum CGBlendMode {
    /// `kCGBlendModeNormal`
    Normal,
    /// `kCGBlendModeMultiply`
    Multiply,
    /// `kCGBlendModeScreen`
    Screen,
    /// `kCGBlendModeOverlay`
    Overlay,
    /// `kCGBlendModeDarken`
    Darken,
    /// `kCGBlendModeLighten`
    Lighten,
    /// `kCGBlendModeColorDodge`
    ColorDodge,
    /// `kCGBlendModeColorBurn`
    ColorBurn,
    /// `kCGBlendModeSoftLight`
    SoftLight,
    /// `kCGBlendModeHardLight`
    HardLight,
    /// `kCGBlendModeDifference`
    Difference,
    /// `kCGBlendModeExclusion`
    Exclusion,
    /// `kCGBlendModeHue`
    Hue,
    /// `kCGBlendModeSaturation`
    Saturation,
    /// `kCGBlendModeColor`
    Color,
    /// `kCGBlendModeLuminosity`
    Luminosity,
    /// `kCGBlendModeClear`
    Clear,
    /// `kCGBlendModeCopy`
    Copy,
    /// `kCGBlendModeSourceIn`
    SourceIn,
    /// `kCGBlendModeSourceOut`
    SourceOut,
    /// `kCGBlendModeSourceAtop`
    SourceAtop,
    /// `kCGBlendModeDestinationOver`
    DestinationOver,
    /// `kCGBlendModeDestinationIn`
    DestinationIn,
    /// `kCGBlendModeDestinationOut`
    DestinationOut,
    /// `kCGBlendModeDestinationAtop`
    DestinationAtop,
    /// `kCGBlendModeXOR`
    XOR,
    /// `kCGBlendModePlusDarker`
    PlusDarker,
    /// `kCGBlendModePlusLighter`
    PlusLighter,
}

impl CGBlendMode {
    /// The integer by which the native framework knows this blend mode.
    pub open spec fn spec_code(self) -> int {
        match self {
            CGBlendMode::Normal => 0,
            CGBlendMode::Multiply => 1,
            CGBlendMode::Screen => 2,
            CGBlendMode::Overlay => 3,
            CGBlendMode::Darken => 4,
            CGBlendMode::Lighten => 5,
            CGBlendMode::ColorDodge => 6,
            CGBlendMode::ColorBurn => 7,
            CGBlendMode::SoftLight => 8,
            CGBlendMode::HardLight => 9,
            CGBlendMode::Difference => 10,
            CGBlendMode::Exclusion => 11,
            CGBlendMode::Hue => 12,
            CGBlendMode::Saturation => 13,
            CGBlendMode::Color => 14,
            CGBlendMode::Luminosity => 15,
            CGBlendMode::Clear => 16,
            CGBlendMode::Copy => 17,
            CGBlendMode::SourceIn => 18,
            CGBlendMode::SourceOut => 19,
            CGBlendMode::SourceAtop => 20,
            CGBlendMode::DestinationOver => 21,
            CGBlendMode::DestinationIn => 22,
            CGBlendMode::DestinationOut => 23,
            CGBlendMode::DestinationAtop => 24,
            CGBlendMode::XOR => 25,
            CGBlendMode::PlusDarker => 26,
            CGBlendMode::PlusLighter => 27,
        }
    }

    /// The blend mode with the native code `code`, if there is one.
    pub open spec fn spec_from_code(code: int) -> Option<CGBlendMode> {
        if code == 0 {
            Some(CGBlendMode::Normal)
        } else if code == 1 {
            Some(CGBlendMode::Multiply)
        } else if code == 2 {
            Some(CGBlendMode::Screen)
        } else if code == 3 {
            Some(CGBlendMode::Overlay)
        } else if code == 4 {
            Some(CGBlendMode::Darken)
        } else if code == 5 {
            Some(CGBlendMode::Lighten)
        } else if code == 6 {
            Some(CGBlendMode::ColorDodge)
        } else if code == 7 {
            Some(CGBlendMode::ColorBurn)
        } else if code == 8 {
            Some(CGBlendMode::SoftLight)
        } else if code == 9 {
            Some(CGBlendMode::HardLight)
        } else if code == 10 {
            Some(CGBlendMode::Difference)
        } else if code == 11 {
            Some(CGBlendMode::Exclusion)
        } else if code == 12 {
            Some(CGBlendMode::Hue)
        } else if code == 13 {
            Some(CGBlendMode::Saturation)
        } else if code == 14 {
            Some(CGBlendMode::Color)
        } else if code == 15 {
            Some(CGBlendMode::Luminosity)
        } else if code == 16 {
            Some(CGBlendMode::Clear)
        } else if code == 17 {
            Some(CGBlendMode::Copy)
        } else if code == 18 {
            Some(CGBlendMode::SourceIn)
        } else if code == 19 {
            Some(CGBlendMode::SourceOut)
        } else if code == 20 {
            Some(CGBlendMode::SourceAtop)
        } else if code == 21 {
            Some(CGBlendMode::DestinationOver)
        } else if code == 22 {
            Some(CGBlendMode::DestinationIn)
        } else if code == 23 {
            Some(CGBlendMode::DestinationOut)
        } else if code == 24 {
            Some(CGBlendMode::DestinationAtop)
        } else if code == 25 {
            Some(CGBlendMode::XOR)
        } else if code == 26 {
            Some(CGBlendMode::PlusDarker)
        } else if code == 27 {
            Some(CGBlendMode::PlusLighter)
        } else {
            None
        }
    }

    pub fn code(self) -> (code: i32)
        ensures
            code == self.spec_code(),
    {
        match self {
            CGBlendMode::Normal => 0,
            CGBlendMode::Multiply => 1,
            CGBlendMode::Screen => 2,
            CGBlendMode::Overlay => 3,
            CGBlendMode::Darken => 4,
            CGBlendMode::Lighten => 5,
            CGBlendMode::ColorDodge => 6,
            CGBlendMode::ColorBurn => 7,
            CGBlendMode::SoftLight => 8,
            CGBlendMode::HardLight => 9,
            CGBlendMode::Difference => 10,
            CGBlendMode::Exclusion => 11,
            CGBlendMode::Hue => 12,
            CGBlendMode::Saturation => 13,
            CGBlendMode::Color => 14,
            CGBlendMode::Luminosity => 15,
            CGBlendMode::Clear => 16,
            CGBlendMode::Copy => 17,
            CGBlendMode::SourceIn => 18,
            CGBlendMode::SourceOut => 19,
            CGBlendMode::SourceAtop => 20,
            CGBlendMode::DestinationOver => 21,
            CGBlendMode::DestinationIn => 22,
            CGBlendMode::DestinationOut => 23,
            CGBlendMode::DestinationAtop => 24,
            CGBlendMode::XOR => 25,
            CGBlendMode::PlusDarker => 26,
            CGBlendMode::PlusLighter => 27,
        }
    }

    pub fn from_code(code: i32) -> (mode: Option<CGBlendMode>)
        ensures
            mode == Self::spec_from_code(code as int),
    {
        match code {
            0 => Some(CGBlendMode::Normal),
            1 => Some(CGBlendMode::Multiply),
            2 => Some(CGBlendMode::Screen),
            3 => Some(CGBlendMode::Overlay),
            4 => Some(CGBlendMode::Darken),
            5 => Some(CGBlendMode::Lighten),
            6 => Some(CGBlendMode::ColorDodge),
            7 => Some(CGBlendMode::ColorBurn),
            8 => Some(CGBlendMode::SoftLight),
            9 => Some(CGBlendMode::HardLight),
            10 => Some(CGBlendMode::Difference),
            11 => Some(CGBlendMode::Exclusion),
            12 => Some(CGBlendMode::Hue),
            13 => Some(CGBlendMode::Saturation),
            14 => Some(CGBlendMode::Color),
            15 => Some(CGBlendMode::Luminosity),
            16 => Some(CGBlendMode::Clear),
            17 => Some(CGBlendMode::Copy),
            18 => Some(CGBlendMode::SourceIn),
            19 => Some(CGBlendMode::SourceOut),
            20 => Some(CGBlendMode::SourceAtop),
            21 => Some(CGBlendMode::DestinationOver),
            22 => Some(CGBlendMode::DestinationIn),
            23 => Some(CGBlendMode::DestinationOut),
            24 => Some(CGBlendMode::DestinationAtop),
            25 => Some(CGBlendMode::XOR),
            26 => Some(CGBlendMode::PlusDarker),
            27 => Some(CGBlendMode::PlusLighter),
            _ => None,
        }
    }

    /// Every blend mode is found again from its own code.
    pub proof fn lemma_code_round_trip(self)
        ensures
            Self::spec_from_code(self.spec_code()) == Some(self),
    {
    }

    /// A code names at most one blend mode: the one whose code it is.
    pub proof fn lemma_from_code_sound(code: int)
        ensures
            match Self::spec_from_code(code) {
                Some(mode) => mode.spec_code() == code,
                None => forall|mode: CGBlendMode| mode.spec_code() != code,
            },
    {
    }
}

/// How many glyphs are drawn when `glyphs` glyphs are given with
/// `positions` positions: each glyph needs its position, so the smaller of
/// the two.
pub fn glyph_position_count(glyphs: usize, positions: usize) -> (count: usize)
    ensures
        count == if glyphs <= positions { glyphs } else { positions },
        count <= glyphs,
        count <= positions,
{
    if glyphs <= positions {
        glyphs
    } else {
        positions
    }
}

} // verus!
