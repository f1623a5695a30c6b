//! Colour spaces: their models, their rendering intents and their names.

use vstd::prelude::*;

verus! {

/// How colours outside the destination gamut are handled.
#[derive(Clone, Copy, Debug, PartialEq, Eq, Structural)]
pub enum CGColorRenderingIntent {
    /// `kCGRenderingIntentDefault`
    Default,
    /// `kCGRenderingIntentAbsoluteColorimetric`
    AbsoluteColorimetric,
    /// `kCGRenderingIntentRelativeColorimetric`
    RelativeColorimetric,
    /// `kCGRenderingIntentPerceptual`
    Perceptual,
    /// `kCGRenderingIntentSaturation`
    Saturation,
}

impl CGColorRenderingIntent {
    /// The integer by which the native framework knows this rendering intent.
    pub open spec fn spec_code(self) -> int {
        match self {
            CGColorRenderingIntent::Default => 0,
            CGColorRenderingIntent::AbsoluteColorimetric => 1,
            CGColorRenderingIntent::RelativeColorimetric => 2,
            CGColorRenderingIntent::Perceptual => 3,
            CGColorRenderingIntent::Saturation => 4,
        }
    }

    /// The rendering intent with the native code `code`, if there is one.
    pub open spec fn spec_from_code(code: int) -> Option<CGColorRenderingIntent> {
        if code == 0 {
            Some(CGColorRenderingIntent::Default)
        } else if code == 1 {
            Some(CGColorRenderingIntent::AbsoluteColorimetric)
        } else if code == 2 {
            Some(CGColorRenderingIntent::RelativeColorimetric)
        } else if code == 3 {
            Some(CGColorRenderingIntent::Perceptual)
        } else if code == 4 {
            Some(CGColorRenderingIntent::Saturation)
        } else {
            None
        }
    }

    pub fn code(self) -> (code: i32)
        ensures
            code == self.spec_code(),
    {
        match self {
            CGColorRenderingIntent::Default => 0,
            CGColorRenderingIntent::AbsoluteColorimetric => 1,
            CGColorRenderingIntent::RelativeColorimetric => 2,
            CGColorRenderingIntent::Perceptual => 3,
            CGColorRenderingIntent::Saturation => 4,
        }
    }

    pub fn from_code(code: i32) -> (intent: Option<CGColorRenderingIntent>)
        ensures
            intent == Self::spec_from_code(code as int),
    {
        match code {
            0 => Some(CGColorRenderingIntent::Default),
            1 => Some(CGColorRenderingIntent::AbsoluteColorimetric),
            2 => Some(CGColorRenderingIntent::RelativeColorimetric),
            3 => Some(CGColorRenderingIntent::Perceptual),
            4 => Some(CGColorRenderingIntent::Saturation),
            _ => None,
        }
    }

    /// Every rendering intent is found again from its own code.
    pub proof fn lemma_code_round_trip(self)
        ensures
            Self::spec_from_code(self.spec_code()) == Some(self),
    {
    }

    /// A code names at most one rendering intent: the one whose code it is.
    pub proof fn lemma_from_code_sound(code: int)
        ensures
            match Self::spec_from_code(code) {
                Some(intent) => intent.spec_code() == code,
                None => forall|intent: CGColorRenderingIntent| intent.spec_code() != code,
            },
    {
    }
}

/// The colour model of a colour space.
#[derive(Clone, Copy, Debug, PartialEq, Eq, Structural)]
pub enum CGColorSpaceModel {
    /// `kCGColorSpaceModelUnknown`
    Unknown,
    /// `kCGColorSpaceModelMonochrome`
    Monochrome,
    /// `kCGColorSpaceModelRGB`
    RGB,
    /// `kCGColorSpaceModelCMYK`
    CMYK,
    /// `kCGColorSpaceModelLab`
    Lab,
    /// `kCGColorSpaceModelDeviceN`
    DeviceN,
    /// `kCGColorSpaceModelIndexed`
    Indexed,
    /// `kCGColorSpaceModelPattern`
    Pattern,
    /// `kCGColorSpaceModelXYZ`
    XYZ,
}

impl CGColorSpaceModel {
    /// The integer by which the native framework knows this colour space model.
    pub open spec fn spec_code(self) -> int {
        match self {
            CGColorSpaceModel::Unknown => -1,
            CGColorSpaceModel::Monochrome => 0,
            CGColorSpaceModel::RGB => 1,
            CGColorSpaceModel::CMYK => 2,
            CGColorSpaceModel::Lab => 3,
            CGColorSpaceModel::DeviceN => 4,
            CGColorSpaceModel::Indexed => 5,
            CGColorSpaceModel::Pattern => 6,
            CGColorSpaceModel::XYZ => 7,
        }
    }

    /// The colour space model with the native code `code`, if there is one.
    pub open spec fn spec_from_code(code: int) -> Option<CGColorSpaceModel> {
        if code == -1 {
            Some(CGColorSpaceModel::Unknown)
        } else if code == 0 {
            Some(CGColorSpaceModel::Monochrome)
        } else if code == 1 {
            Some(CGColorSpaceModel::RGB)
        } else if code == 2 {
            Some(CGColorSpaceModel::CMYK)
        } else if code == 3 {
            Some(CGColorSpaceModel::Lab)
        } else if code == 4 {
            Some(CGColorSpaceModel::DeviceN)
        } else if code == 5 {
            Some(CGColorSpaceModel::Indexed)
        } else if code == 6 {
            Some(CGColorSpaceModel::Pattern)
        } else if code == 7 {
            Some(CGColorSpaceModel::XYZ)
        } else {
            None
        }
    }

    pub fn code(self) -> (code: i32)
        ensures
            code == self.spec_code(),
    {
        match self {
            CGColorSpaceModel::Unknown => -1,
            CGColorSpaceModel::Monochrome => 0,
            CGColorSpaceModel::RGB => 1,
            CGColorSpaceModel::CMYK => 2,
            CGColorSpaceModel::Lab => 3,
            CGColorSpaceModel::DeviceN => 4,
            CGColorSpaceModel::Indexed => 5,
            CGColorSpaceModel::Pattern => 6,
            CGColorSpaceModel::XYZ => 7,
        }
    }

    pub fn from_code(code: i32) -> (model: Option<CGColorSpaceModel>)
        ensures
            model == Self::spec_from_code(code as int),
    {
        match code {
            -1 => Some(CGColorSpaceModel::Unknown),
            0 => Some(CGColorSpaceModel::Monochrome),
            1 => Some(CGColorSpaceModel::RGB),
            2 => Some(CGColorSpaceModel::CMYK),
            3 => Some(CGColorSpaceModel::Lab),
            4 => Some(CGColorSpaceModel::DeviceN),
            5 => Some(CGColorSpaceModel::Indexed),
            6 => Some(CGColorSpaceModel::Pattern),
            7 => Some(CGColorSpaceModel::XYZ),
            _ => None,
        }
    }

    /// Every colour space model is found again from its own code.
    pub proof fn lemma_code_round_trip(self)
        ensures
            Self::spec_from_code(self.spec_code()) == Some(self),
    {
    }

    /// A code names at most one colour space model: the one whose code it is.
    pub proof fn lemma_from_code_sound(code: int)
        ensures
            match Self::spec_from_code(code) {
                Some(model) => model.spec_code() == code,
                None => forall|model: CGColorSpaceModel| model.spec_code() != code,
            },
    {
    }
}

/// The colour spaces that the native framework keeps ready by name.
#[derive(Clone, Copy, Debug, PartialEq, Eq, Structural)]
pub enum CGColorSpaceNames {
    GenericGray,
    GenericRGB,
    GenericCMYK,
    DisplayP3,
    GenericRGBLinear,
    AdobeRGB1998,
    SRGB,
    GenericGrayGamma2_2,
    GenericXYZ,
    GenericLab,
    ACESCGLinear,
    ITUR_709,
    ITUR_709_PQ,
    ITUR_709_HLG,
    ITUR_2020,
    ITUR_2020_sRGBGamma,
    ROMMRGB,
    DCIP3,
    LinearITUR_2020,
    ExtendedITUR_2020,
    ExtendedLinearITUR_2020,
    LinearDisplayP3,
    ExtendedDisplayP3,
    ExtendedLinearDisplayP3,
    ITUR_2100_PQ,
    ITUR_2100_HLG,
    DisplayP3_PQ,
    DisplayP3_HLG,
    ExtendedSRGB,
    LinearSRGB,
    ExtendedLinearSRGB,
    ExtendedGray,
    LinearGray,
    ExtendedLinearGray,
}

impl CGColorSpaceNames {
    /// The native constant that holds the string for this colour space name.
    pub open spec fn spec_symbol(self) -> Seq<char> {
        match self {
            CGColorSpaceNames::GenericGray => "kCGColorSpaceGenericGray"@,
            CGColorSpaceNames::GenericRGB => "kCGColorSpaceGenericRGB"@,
            CGColorSpaceNames::GenericCMYK => "kCGColorSpaceGenericCMYK"@,
            CGColorSpaceNames::DisplayP3 => "kCGColorSpaceDisplayP3"@,
            CGColorSpaceNames::GenericRGBLinear => "kCGColorSpaceGenericRGBLinear"@,
            CGColorSpaceNames::AdobeRGB1998 => "kCGColorSpaceAdobeRGB1998"@,
            CGColorSpaceNames::SRGB => "kCGColorSpaceSRGB"@,
            CGColorSpaceNames::GenericGrayGamma2_2 => "kCGColorSpaceGenericGrayGamma2_2"@,
            CGColorSpaceNames::GenericXYZ => "kCGColorSpaceGenericXYZ"@,
            CGColorSpaceNames::GenericLab => "kCGColorSpaceGenericLab"@,
            CGColorSpaceNames::ACESCGLinear => "kCGColorSpaceACESCGLinear"@,
            CGColorSpaceNames::ITUR_709 => "kCGColorSpaceITUR_709"@,
            CGColorSpaceNames::ITUR_709_PQ => "kCGColorSpaceITUR_709_PQ"@,
            CGColorSpaceNames::ITUR_709_HLG => "kCGColorSpaceITUR_709_HLG"@,
            CGColorSpaceNames::ITUR_2020 => "kCGColorSpaceITUR_2020"@,
            CGColorSpaceNames::ITUR_2020_sRGBGamma => "kCGColorSpaceITUR_2020_sRGBGamma"@,
            CGColorSpaceNames::ROMMRGB => "kCGColorSpaceROMMRGB"@,
            CGColorSpaceNames::DCIP3 => "kCGColorSpaceDCIP3"@,
            CGColorSpaceNames::LinearITUR_2020 => "kCGColorSpaceLinearITUR_2020"@,
            CGColorSpaceNames::ExtendedITUR_2020 => "kCGColorSpaceExtendedITUR_2020"@,
            CGColorSpaceNames::ExtendedLinearITUR_2020 => "kCGColorSpaceExtendedLinearITUR_2020"@,
            CGColorSpaceNames::LinearDisplayP3 => "kCGColorSpaceLinearDisplayP3"@,
            CGColorSpaceNames::ExtendedDisplayP3 => "kCGColorSpaceExtendedDisplayP3"@,
            CGColorSpaceNames::ExtendedLinearDisplayP3 => "kCGColorSpaceExtendedLinearDisplayP3"@,
            CGColorSpaceNames::ITUR_2100_PQ => "kCGColorSpaceITUR_2100_PQ"@,
            CGColorSpaceNames::ITUR_2100_HLG => "kCGColorSpaceITUR_2100_HLG"@,
            CGColorSpaceNames::DisplayP3_PQ => "kCGColorSpaceDisplayP3_PQ"@,
            CGColorSpaceNames::DisplayP3_HLG => "kCGColorSpaceDisplayP3_HLG"@,
            CGColorSpaceNames::ExtendedSRGB => "kCGColorSpaceExtendedSRGB"@,
            CGColorSpaceNames::LinearSRGB => "kCGColorSpaceLinearSRGB"@,
            CGColorSpaceNames::ExtendedLinearSRGB => "kCGColorSpaceExtendedLinearSRGB"@,
            CGColorSpaceNames::ExtendedGray => "kCGColorSpaceExtendedGray"@,
            CGColorSpaceNames::LinearGray => "kCGColorSpaceLinearGray"@,
            CGColorSpaceNames::ExtendedLinearGray => "kCGColorSpaceExtendedLinearGray"@,
        }
    }

    pub fn symbol(self) -> (symbol: &'static str)
        ensures
            symbol@ == self.spec_symbol(),
    {
        match self {
            CGColorSpaceNames::GenericGray => "kCGColorSpaceGenericGray",
            CGColorSpaceNames::GenericRGB => "kCGColorSpaceGenericRGB",
            CGColorSpaceNames::GenericCMYK => "kCGColorSpaceGenericCMYK",
            CGColorSpaceNames::DisplayP3 => "kCGColorSpaceDisplayP3",
            CGColorSpaceNames::GenericRGBLinear => "kCGColorSpaceGenericRGBLinear",
            CGColorSpaceNames::AdobeRGB1998 => "kCGColorSpaceAdobeRGB1998",
            CGColorSpaceNames::SRGB => "kCGColorSpaceSRGB",
            CGColorSpaceNames::GenericGrayGamma2_2 => "kCGColorSpaceGenericGrayGamma2_2",
            CGColorSpaceNames::GenericXYZ => "kCGColorSpaceGenericXYZ",
            CGColorSpaceNames::GenericLab => "kCGColorSpaceGenericLab",
            CGColorSpaceNames::ACESCGLinear => "kCGColorSpaceACESCGLinear",
            CGColorSpaceNames::ITUR_709 => "kCGColorSpaceITUR_709",
            CGColorSpaceNames::ITUR_709_PQ => "kCGColorSpaceITUR_709_PQ",
            CGColorSpaceNames::ITUR_709_HLG => "kCGColorSpaceITUR_709_HLG",
            CGColorSpaceNames::ITUR_2020 => "kCGColorSpaceITUR_2020",
            CGColorSpaceNames::ITUR_2020_sRGBGamma => "kCGColorSpaceITUR_2020_sRGBGamma",
            CGColorSpaceNames::ROMMRGB => "kCGColorSpaceROMMRGB",
            CGColorSpaceNames::DCIP3 => "kCGColorSpaceDCIP3",
            CGColorSpaceNames::LinearITUR_2020 => "kCGColorSpaceLinearITUR_2020",
            CGColorSpaceNames::ExtendedITUR_2020 => "kCGColorSpaceExtendedITUR_2020",
            CGColorSpaceNames::ExtendedLinearITUR_2020 => "kCGColorSpaceExtendedLinearITUR_2020",
            CGColorSpaceNames::LinearDisplayP3 => "kCGColorSpaceLinearDisplayP3",
            CGColorSpaceNames::ExtendedDisplayP3 => "kCGColorSpaceExtendedDisplayP3",
            CGColorSpaceNames::ExtendedLinearDisplayP3 => "kCGColorSpaceExtendedLinearDisplayP3",
            CGColorSpaceNames::ITUR_2100_PQ => "kCGColorSpaceITUR_2100_PQ",
            CGColorSpaceNames::ITUR_2100_HLG => "kCGColorSpaceITUR_2100_HLG",
            CGColorSpaceNames::DisplayP3_PQ => "kCGColorSpaceDisplayP3_PQ",
            CGColorSpaceNames::DisplayP3_HLG => "kCGColorSpaceDisplayP3_HLG",
            CGColorSpaceNames::ExtendedSRGB => "kCGColorSpaceExtendedSRGB",
            CGColorSpaceNames::LinearSRGB => "kCGColorSpaceLinearSRGB",
            CGColorSpaceNames::ExtendedLinearSRGB => "kCGColorSpaceExtendedLinearSRGB",
            CGColorSpaceNames::ExtendedGray => "kCGColorSpaceExtendedGray",
            CGColorSpaceNames::LinearGray => "kCGColorSpaceLinearGray",
            CGColorSpaceNames::ExtendedLinearGray => "kCGColorSpaceExtendedLinearGray",
        }
    }

    /// No two of them share a native constant: where two names are of one
    /// length, they differ at the place named in the proof.
    pub proof fn lemma_symbol_injective(self, other: CGColorSpaceNames)
        requires
            self.spec_symbol() == other.spec_symbol(),
        ensures
            self == other,
    {
        reveal_strlit("kCGColorSpaceGenericGray");
        reveal_strlit("kCGColorSpaceGenericRGB");
        reveal_strlit("kCGColorSpaceGenericCMYK");
        reveal_strlit("kCGColorSpaceDisplayP3");
        reveal_strlit("kCGColorSpaceGenericRGBLinear");
        reveal_strlit("kCGColorSpaceAdobeRGB1998");
        reveal_strlit("kCGColorSpaceSRGB");
        reveal_strlit("kCGColorSpaceGenericGrayGamma2_2");
        reveal_strlit("kCGColorSpaceGenericXYZ");
        reveal_strlit("kCGColorSpaceGenericLab");
        reveal_strlit("kCGColorSpaceACESCGLinear");
        reveal_strlit("kCGColorSpaceITUR_709");
        reveal_strlit("kCGColorSpaceITUR_709_PQ");
        reveal_strlit("kCGColorSpaceITUR_709_HLG");
        reveal_strlit("kCGColorSpaceITUR_2020");
        reveal_strlit("kCGColorSpaceITUR_2020_sRGBGamma");
        reveal_strlit("kCGColorSpaceROMMRGB");
        reveal_strlit("kCGColorSpaceDCIP3");
        reveal_strlit("kCGColorSpaceLinearITUR_2020");
        reveal_strlit("kCGColorSpaceExtendedITUR_2020");
        reveal_strlit("kCGColorSpaceExtendedLinearITUR_2020");
        reveal_strlit("kCGColorSpaceLinearDisplayP3");
        reveal_strlit("kCGColorSpaceExtendedDisplayP3");
        reveal_strlit("kCGColorSpaceExtendedLinearDisplayP3");
        reveal_strlit("kCGColorSpaceITUR_2100_PQ");
        reveal_strlit("kCGColorSpaceITUR_2100_HLG");
        reveal_strlit("kCGColorSpaceDisplayP3_PQ");
        reveal_strlit("kCGColorSpaceDisplayP3_HLG");
        reveal_strlit("kCGColorSpaceExtendedSRGB");
        reveal_strlit("kCGColorSpaceLinearSRGB");
        reveal_strlit("kCGColorSpaceExtendedLinearSRGB");
        reveal_strlit("kCGColorSpaceExtendedGray");
        reveal_strlit("kCGColorSpaceLinearGray");
        reveal_strlit("kCGColorSpaceExtendedLinearGray");
        assert("kCGColorSpaceGenericGray"@.len() == 24);
        assert("kCGColorSpaceGenericRGB"@.len() == 23);
        assert("kCGColorSpaceGenericCMYK"@.len() == 24);
        assert("kCGColorSpaceDisplayP3"@.len() == 22);
        assert("kCGColorSpaceGenericRGBLinear"@.len() == 29);
        assert("kCGColorSpaceAdobeRGB1998"@.len() == 25);
        assert("kCGColorSpaceSRGB"@.len() == 17);
        assert("kCGColorSpaceGenericGrayGamma2_2"@.len() == 32);
        assert("kCGColorSpaceGenericXYZ"@.len() == 23);
        assert("kCGColorSpaceGenericLab"@.len() == 23);
        assert("kCGColorSpaceACESCGLinear"@.len() == 25);
        assert("kCGColorSpaceITUR_709"@.len() == 21);
        assert("kCGColorSpaceITUR_709_PQ"@.len() == 24);
        assert("kCGColorSpaceITUR_709_HLG"@.len() == 25);
        assert("kCGColorSpaceITUR_2020"@.len() == 22);
        assert("kCGColorSpaceITUR_2020_sRGBGamma"@.len() == 32);
        assert("kCGColorSpaceROMMRGB"@.len() == 20);
        assert("kCGColorSpaceDCIP3"@.len() == 18);
        assert("kCGColorSpaceLinearITUR_2020"@.len() == 28);
        assert("kCGColorSpaceExtendedITUR_2020"@.len() == 30);
        assert("kCGColorSpaceExtendedLinearITUR_2020"@.len() == 36);
        assert("kCGColorSpaceLinearDisplayP3"@.len() == 28);
        assert("kCGColorSpaceExtendedDisplayP3"@.len() == 30);
        assert("kCGColorSpaceExtendedLinearDisplayP3"@.len() == 36);
        assert("kCGColorSpaceITUR_2100_PQ"@.len() == 25);
        assert("kCGColorSpaceITUR_2100_HLG"@.len() == 26);
        assert("kCGColorSpaceDisplayP3_PQ"@.len() == 25);
        assert("kCGColorSpaceDisplayP3_HLG"@.len() == 26);
        assert("kCGColorSpaceExtendedSRGB"@.len() == 25);
        assert("kCGColorSpaceLinearSRGB"@.len() == 23);
        assert("kCGColorSpaceExtendedLinearSRGB"@.len() == 31);
        assert("kCGColorSpaceExtendedGray"@.len() == 25);
        assert("kCGColorSpaceLinearGray"@.len() == 23);
        assert("kCGColorSpaceExtendedLinearGray"@.len() == 31);
        assert("kCGColorSpaceGenericGray"@[20] != "kCGColorSpaceGenericCMYK"@[20]);
        assert("kCGColorSpaceGenericGray"@[13] != "kCGColorSpaceITUR_709_PQ"@[13]);
        assert("kCGColorSpaceGenericRGB"@[20] != "kCGColorSpaceGenericXYZ"@[20]);
        assert("kCGColorSpaceGenericRGB"@[20] != "kCGColorSpaceGenericLab"@[20]);
        assert("kCGColorSpaceGenericRGB"@[13] != "kCGColorSpaceLinearSRGB"@[13]);
        assert("kCGColorSpaceGenericRGB"@[13] != "kCGColorSpaceLinearGray"@[13]);
        assert("kCGColorSpaceGenericCMYK"@[13] != "kCGColorSpaceITUR_709_PQ"@[13]);
        assert("kCGColorSpaceDisplayP3"@[13] != "kCGColorSpaceITUR_2020"@[13]);
        assert("kCGColorSpaceAdobeRGB1998"@[14] != "kCGColorSpaceACESCGLinear"@[14]);
        assert("kCGColorSpaceAdobeRGB1998"@[13] != "kCGColorSpaceITUR_709_HLG"@[13]);
        assert("kCGColorSpaceAdobeRGB1998"@[13] != "kCGColorSpaceITUR_2100_PQ"@[13]);
        assert("kCGColorSpaceAdobeRGB1998"@[13] != "kCGColorSpaceDisplayP3_PQ"@[13]);
        assert("kCGColorSpaceAdobeRGB1998"@[13] != "kCGColorSpaceExtendedSRGB"@[13]);
        assert("kCGColorSpaceAdobeRGB1998"@[13] != "kCGColorSpaceExtendedGray"@[13]);
        assert("kCGColorSpaceGenericGrayGamma2_2"@[13] != "kCGColorSpaceITUR_2020_sRGBGamma"@[13]);
        assert("kCGColorSpaceGenericXYZ"@[20] != "kCGColorSpaceGenericLab"@[20]);
        assert("kCGColorSpaceGenericXYZ"@[13] != "kCGColorSpaceLinearSRGB"@[13]);
        assert("kCGColorSpaceGenericXYZ"@[13] != "kCGColorSpaceLinearGray"@[13]);
        assert("kCGColorSpaceGenericLab"@[13] != "kCGColorSpaceLinearSRGB"@[13]);
        assert("kCGColorSpaceGenericLab"@[13] != "kCGColorSpaceLinearGray"@[13]);
        assert("kCGColorSpaceACESCGLinear"@[13] != "kCGColorSpaceITUR_709_HLG"@[13]);
        assert("kCGColorSpaceACESCGLinear"@[13] != "kCGColorSpaceITUR_2100_PQ"@[13]);
        assert("kCGColorSpaceACESCGLinear"@[13] != "kCGColorSpaceDisplayP3_PQ"@[13]);
        assert("kCGColorSpaceACESCGLinear"@[13] != "kCGColorSpaceExtendedSRGB"@[13]);
        assert("kCGColorSpaceACESCGLinear"@[13] != "kCGColorSpaceExtendedGray"@[13]);
        assert("kCGColorSpaceITUR_709_HLG"@[18] != "kCGColorSpaceITUR_2100_PQ"@[18]);
        assert("kCGColorSpaceITUR_709_HLG"@[13] != "kCGColorSpaceDisplayP3_PQ"@[13]);
        assert("kCGColorSpaceITUR_709_HLG"@[13] != "kCGColorSpaceExtendedSRGB"@[13]);
        assert("kCGColorSpaceITUR_709_HLG"@[13] != "kCGColorSpaceExtendedGray"@[13]);
        assert("kCGColorSpaceLinearITUR_2020"@[19] != "kCGColorSpaceLinearDisplayP3"@[19]);
        assert("kCGColorSpaceExtendedITUR_2020"@[21] != "kCGColorSpaceExtendedDisplayP3"@[21]);
        assert("kCGColorSpaceExtendedLinearITUR_2020"@[27] != "kCGColorSpaceExtendedLinearDisplayP3"@[27]);
        assert("kCGColorSpaceITUR_2100_PQ"@[13] != "kCGColorSpaceDisplayP3_PQ"@[13]);
        assert("kCGColorSpaceITUR_2100_PQ"@[13] != "kCGColorSpaceExtendedSRGB"@[13]);
        assert("kCGColorSpaceITUR_2100_PQ"@[13] != "kCGColorSpaceExtendedGray"@[13]);
        assert("kCGColorSpaceITUR_2100_HLG"@[13] != "kCGColorSpaceDisplayP3_HLG"@[13]);
        assert("kCGColorSpaceDisplayP3_PQ"@[13] != "kCGColorSpaceExtendedSRGB"@[13]);
        assert("kCGColorSpaceDisplayP3_PQ"@[13] != "kCGColorSpaceExtendedGray"@[13]);
        assert("kCGColorSpaceExtendedSRGB"@[21] != "kCGColorSpaceExtendedGray"@[21]);
        assert("kCGColorSpaceLinearSRGB"@[19] != "kCGColorSpaceLinearGray"@[19]);
        assert("kCGColorSpaceExtendedLinearSRGB"@[27] != "kCGColorSpaceExtendedLinearGray"@[27]);
    }
}

/// The buffer for the colour table of an indexed colour space: nothing for
/// a space that says it has no entries, and else as many zero bytes as the
/// native framework will write over.
pub fn color_table_buffer(count: usize) -> (table: Option<Vec<u8>>)
    ensures
        count == 0 <==> table is None,
        table matches Some(bytes) ==> bytes@.len() == count && forall|i: int|
            0 <= i < count ==> bytes@[i] == 0,
{
    if count == 0 {
        return None;
    }
    let mut bytes: Vec<u8> = Vec::new();
    let mut i: usize = 0;
    while i < count
        invariant
            i <= count,
            bytes@.len() == i,
            forall|j: int| 0 <= j < i ==> bytes@[j] == 0,
        decreases count - i,
    {
        bytes.push(0);
        i = i + 1;
    }
    Some(bytes)
}

} // verus!
