//! Images: the layout of their pixels as the native framework numbers it.

use vstd::prelude::*;

verus! {

pub const kCGImageAlphaNone: u32 = 0;

pub const kCGImageAlphaPremultipliedLast: u32 = 1;

pub const kCGImageAlphaPremultipliedFirst: u32 = 2;

pub const kCGImageAlphaLast: u32 = 3;

pub const kCGImageAlphaFirst: u32 = 4;

pub const kCGImageAlphaNoneSkipLast: u32 = 5;

pub const kCGImageAlphaNoneSkipFirst: u32 = 6;

pub const kCGImageAlphaOnly: u32 = 7;

pub const kCGImageByteOrderMask: u32 = 0x7000;

pub const kCGImageByteOrderDefault: u32 = 0x0000;

pub const kCGImageByteOrder16Little: u32 = 0x1000;

pub const kCGImageByteOrder32Little: u32 = 0x2000;

pub const kCGImageByteOrder16Big: u32 = 0x3000;

pub const kCGImageByteOrder32Big: u32 = 0x4000;

pub const kCGImagePixelFormatMask: u32 = 0xF000;

pub const kCGImagePixelFormatPacked: u32 = 0x0_0000;

pub const kCGImagePixelFormatRGB555: u32 = 0x1_0000;

pub const kCGImagePixelFormatRGB565: u32 = 0x2_0000;

pub const kCGImagePixelFormatRGB101010: u32 = 0x3_0000;

pub const kCGImagePixelFormatRGBCIF10: u32 = 0x4_0000;

/// The byte order of 16-bit pixels on the machine at hand.
pub fn byte_order_16_host(big_endian: bool) -> (order: u32)
    ensures
        order == if big_endian { kCGImageByteOrder16Big } else { kCGImageByteOrder16Little },
{
    if big_endian {
        kCGImageByteOrder16Big
    } else {
        kCGImageByteOrder16Little
    }
}

/// The byte order of 32-bit pixels on the machine at hand.
pub fn byte_order_32_host(big_endian: bool) -> (order: u32)
    ensures
        order == if big_endian { kCGImageByteOrder32Big } else { kCGImageByteOrder32Little },
{
    if big_endian {
        kCGImageByteOrder32Big
    } else {
        kCGImageByteOrder32Little
    }
}

/// Where the alpha component of a pixel is, if it has one.
#[derive(Clone, Copy, Debug, PartialEq, Eq, Structural)]
pub enum CGImageAlphaInfo {
    /// `kCGImageAlphaNone`
    AlphaNone,
    /// `kCGImageAlphaPremultipliedLast`
    AlphaPremultipliedLast,
    /// `kCGImageAlphaPremultipliedFirst`
    AlphaPremultipliedFirst,
    /// `kCGImageAlphaLast`
    AlphaLast,
    /// `kCGImageAlphaFirst`
    AlphaFirst,
    /// `kCGImageAlphaNoneSkipLast`
    AlphaNoneSkipLast,
    /// `kCGImageAlphaNoneSkipFirst`
    AlphaNoneSkipFirst,
    /// `kCGImageAlphaOnly`
    AlphaOnly,
}

impl CGImageAlphaInfo {
    /// The integer by which the native framework knows this alpha layout.
    pub open spec fn spec_code(self) -> int {
        match self {
            CGImageAlphaInfo::AlphaNone => kCGImageAlphaNone as int,
            CGImageAlphaInfo::AlphaPremultipliedLast => kCGImageAlphaPremultipliedLast as int,
            CGImageAlphaInfo::AlphaPremultipliedFirst => kCGImageAlphaPremultipliedFirst as int,
            CGImageAlphaInfo::AlphaLast => kCGImageAlphaLast as int,
            CGImageAlphaInfo::AlphaFirst => kCGImageAlphaFirst as int,
            CGImageAlphaInfo::AlphaNoneSkipLast => kCGImageAlphaNoneSkipLast as int,
            CGImageAlphaInfo::AlphaNoneSkipFirst => kCGImageAlphaNoneSkipFirst as int,
            CGImageAlphaInfo::AlphaOnly => kCGImageAlphaOnly as int,
        }
    }

    /// The alpha layout with the native code `code`, if there is one.
    pub open spec fn spec_from_code(code: int) -> Option<CGImageAlphaInfo> {
        if code == kCGImageAlphaNone {
            Some(CGImageAlphaInfo::AlphaNone)
        } else if code == kCGImageAlphaPremultipliedLast {
            Some(CGImageAlphaInfo::AlphaPremultipliedLast)
        } else if code == kCGImageAlphaPremultipliedFirst {
            Some(CGImageAlphaInfo::AlphaPremultipliedFirst)
        } else if code == kCGImageAlphaLast {
            Some(CGImageAlphaInfo::AlphaLast)
        } else if code == kCGImageAlphaFirst {
            Some(CGImageAlphaInfo::AlphaFirst)
        } else if code == kCGImageAlphaNoneSkipLast {
            Some(CGImageAlphaInfo::AlphaNoneSkipLast)
        } else if code == kCGImageAlphaNoneSkipFirst {
            Some(CGImageAlphaInfo::AlphaNoneSkipFirst)
        } else if code == kCGImageAlphaOnly {
            Some(CGImageAlphaInfo::AlphaOnly)
        } else {
            None
        }
    }

    pub fn code(self) -> (code: u32)
        ensures
            code == self.spec_code(),
    {
        match self {
            CGImageAlphaInfo::AlphaNone => kCGImageAlphaNone,
            CGImageAlphaInfo::AlphaPremultipliedLast => kCGImageAlphaPremultipliedLast,
            CGImageAlphaInfo::AlphaPremultipliedFirst => kCGImageAlphaPremultipliedFirst,
            CGImageAlphaInfo::AlphaLast => kCGImageAlphaLast,
            CGImageAlphaInfo::AlphaFirst => kCGImageAlphaFirst,
            CGImageAlphaInfo::AlphaNoneSkipLast => kCGImageAlphaNoneSkipLast,
            CGImageAlphaInfo::AlphaNoneSkipFirst => kCGImageAlphaNoneSkipFirst,
            CGImageAlphaInfo::AlphaOnly => kCGImageAlphaOnly,
        }
    }

    pub fn from_code(code: u32) -> (info: Option<CGImageAlphaInfo>)
        ensures
            info == Self::spec_from_code(code as int),
    {
        if code == kCGImageAlphaNone {
            Some(CGImageAlphaInfo::AlphaNone)
        } else if code == kCGImageAlphaPremultipliedLast {
            Some(CGImageAlphaInfo::AlphaPremultipliedLast)
        } else if code == kCGImageAlphaPremultipliedFirst {
            Some(CGImageAlphaInfo::AlphaPremultipliedFirst)
        } else if code == kCGImageAlphaLast {
            Some(CGImageAlphaInfo::AlphaLast)
        } else if code == kCGImageAlphaFirst {
            Some(CGImageAlphaInfo::AlphaFirst)
        } else if code == kCGImageAlphaNoneSkipLast {
            Some(CGImageAlphaInfo::AlphaNoneSkipLast)
        } else if code == kCGImageAlphaNoneSkipFirst {
            Some(CGImageAlphaInfo::AlphaNoneSkipFirst)
        } else if code == kCGImageAlphaOnly {
            Some(CGImageAlphaInfo::AlphaOnly)
        } else {
            None
        }
    }

    /// Every alpha layout is found again from its own code.
    pub proof fn lemma_code_round_trip(self)
        ensures
            Self::spec_from_code(self.spec_code()) == Some(self),
    {
    }

    /// A code names at most one alpha layout: the one whose code it is.
    pub proof fn lemma_from_code_sound(code: int)
        ensures
            match Self::spec_from_code(code) {
                Some(info) => info.spec_code() == code,
                None => forall|info: CGImageAlphaInfo| info.spec_code() != code,
            },
    {
    }
}

/// The byte order of the pixels of an image.
#[derive(Clone, Copy, Debug, PartialEq, Eq, Structural)]
pub enum CGImageByteOrderInfo {
    /// `kCGImageByteOrderMask`
    ByteOrderMask,
    /// `kCGImageByteOrderDefault`
    ByteOrderDefault,
    /// `kCGImageByteOrder16Little`
    ByteOrder16Little,
    /// `kCGImageByteOrder32Little`
    ByteOrder32Little,
    /// `kCGImageByteOrder16Big`
    ByteOrder16Big,
    /// `kCGImageByteOrder32Big`
    ByteOrder32Big,
}

impl CGImageByteOrderInfo {
    /// The integer by which the native framework knows this byte order.
    pub open spec fn spec_code(self) -> int {
        match self {
            CGImageByteOrderInfo::ByteOrderMask => kCGImageByteOrderMask as int,
            CGImageByteOrderInfo::ByteOrderDefault => kCGImageByteOrderDefault as int,
            CGImageByteOrderInfo::ByteOrder16Little => kCGImageByteOrder16Little as int,
            CGImageByteOrderInfo::ByteOrder32Little => kCGImageByteOrder32Little as int,
            CGImageByteOrderInfo::ByteOrder16Big => kCGImageByteOrder16Big as int,
            CGImageByteOrderInfo::ByteOrder32Big => kCGImageByteOrder32Big as int,
        }
    }

    /// The byte order with the native code `code`, if there is one.
    pub open spec fn spec_from_code(code: int) -> Option<CGImageByteOrderInfo> {
        if code == kCGImageByteOrderMask {
            Some(CGImageByteOrderInfo::ByteOrderMask)
        } else if code == kCGImageByteOrderDefault {
            Some(CGImageByteOrderInfo::ByteOrderDefault)
        } else if code == kCGImageByteOrder16Little {
            Some(CGImageByteOrderInfo::ByteOrder16Little)
        } else if code == kCGImageByteOrder32Little {
            Some(CGImageByteOrderInfo::ByteOrder32Little)
        } else if code == kCGImageByteOrder16Big {
            Some(CGImageByteOrderInfo::ByteOrder16Big)
        } else if code == kCGImageByteOrder32Big {
            Some(CGImageByteOrderInfo::ByteOrder32Big)
        } else {
            None
        }
    }

    pub fn code(self) -> (code: u32)
        ensures
            code == self.spec_code(),
    {
        match self {
            CGImageByteOrderInfo::ByteOrderMask => kCGImageByteOrderMask,
            CGImageByteOrderInfo::ByteOrderDefault => kCGImageByteOrderDefault,
            CGImageByteOrderInfo::ByteOrder16Little => kCGImageByteOrder16Little,
            CGImageByteOrderInfo::ByteOrder32Little => kCGImageByteOrder32Little,
            CGImageByteOrderInfo::ByteOrder16Big => kCGImageByteOrder16Big,
            CGImageByteOrderInfo::ByteOrder32Big => kCGImageByteOrder32Big,
        }
    }

    pub fn from_code(code: u32) -> (info: Option<CGImageByteOrderInfo>)
        ensures
            info == Self::spec_from_code(code as int),
    {
        if code == kCGImageByteOrderMask {
            Some(CGImageByteOrderInfo::ByteOrderMask)
        } else if code == kCGImageByteOrderDefault {
            Some(CGImageByteOrderInfo::ByteOrderDefault)
        } else if code == kCGImageByteOrder16Little {
            Some(CGImageByteOrderInfo::ByteOrder16Little)
        } else if code == kCGImageByteOrder32Little {
            Some(CGImageByteOrderInfo::ByteOrder32Little)
        } else if code == kCGImageByteOrder16Big {
            Some(CGImageByteOrderInfo::ByteOrder16Big)
        } else if code == kCGImageByteOrder32Big {
            Some(CGImageByteOrderInfo::ByteOrder32Big)
        } else {
            None
        }
    }

    /// Every byte order is found again from its own code.
    pub proof fn lemma_code_round_trip(self)
        ensures
            Self::spec_from_code(self.spec_code()) == Some(self),
    {
    }

    /// A code names at most one byte order: the one whose code it is.
    pub proof fn lemma_from_code_sound(code: int)
        ensures
            match Self::spec_from_code(code) {
                Some(info) => info.spec_code() == code,
                None => forall|info: CGImageByteOrderInfo| info.spec_code() != code,
            },
    {
    }
}

/// How the components of a pixel are packed.
#[derive(Clone, Copy, Debug, PartialEq, Eq, Structural)]
pub enum CGImagePixelFormatInfo {
    /// `kCGImagePixelFormatMask`
    PixelFormatMask,
    /// `kCGImagePixelFormatPacked`
    PixelFormatPacked,
    /// `kCGImagePixelFormatRGB`
    PixelFormatRGB555,
    /// `kCGImagePixelFormatRGB`
    PixelFormatRGB565,
    /// `kCGImagePixelFormatRGB`
    PixelFormatRGB101010,
    /// `kCGImagePixelFormatRGB`
    PixelFormatRGBCIF10,
}

impl CGImagePixelFormatInfo {
    /// The integer by which the native framework knows this pixel format.
    pub open spec fn spec_code(self) -> int {
        match self {
            CGImagePixelFormatInfo::PixelFormatMask => kCGImagePixelFormatMask as int,
            CGImagePixelFormatInfo::PixelFormatPacked => kCGImagePixelFormatPacked as int,
            CGImagePixelFormatInfo::PixelFormatRGB555 => kCGImagePixelFormatRGB555 as int,
            CGImagePixelFormatInfo::PixelFormatRGB565 => kCGImagePixelFormatRGB565 as int,
            CGImagePixelFormatInfo::PixelFormatRGB101010 => kCGImagePixelFormatRGB101010 as int,
            CGImagePixelFormatInfo::PixelFormatRGBCIF10 => kCGImagePixelFormatRGBCIF10 as int,
        }
    }

    /// The pixel format with the native code `code`, if there is one.
    pub open spec fn spec_from_code(code: int) -> Option<CGImagePixelFormatInfo> {
        if code == kCGImagePixelFormatMask {
            Some(CGImagePixelFormatInfo::PixelFormatMask)
        } else if code == kCGImagePixelFormatPacked {
            Some(CGImagePixelFormatInfo::PixelFormatPacked)
        } else if code == kCGImagePixelFormatRGB555 {
            Some(CGImagePixelFormatInfo::PixelFormatRGB555)
        } else if code == kCGImagePixelFormatRGB565 {
            Some(CGImagePixelFormatInfo::PixelFormatRGB565)
        } else if code == kCGImagePixelFormatRGB101010 {
            Some(CGImagePixelFormatInfo::PixelFormatRGB101010)
        } else if code == kCGImagePixelFormatRGBCIF10 {
            Some(CGImagePixelFormatInfo::PixelFormatRGBCIF10)
        } else {
            None
        }
    }

    pub fn code(self) -> (code: u32)
        ensures
            code == self.spec_code(),
    {
        match self {
            CGImagePixelFormatInfo::PixelFormatMask => kCGImagePixelFormatMask,
            CGImagePixelFormatInfo::PixelFormatPacked => kCGImagePixelFormatPacked,
            CGImagePixelFormatInfo::PixelFormatRGB555 => kCGImagePixelFormatRGB555,
            CGImagePixelFormatInfo::PixelFormatRGB565 => kCGImagePixelFormatRGB565,
            CGImagePixelFormatInfo::PixelFormatRGB101010 => kCGImagePixelFormatRGB101010,
            CGImagePixelFormatInfo::PixelFormatRGBCIF10 => kCGImagePixelFormatRGBCIF10,
        }
    }

    pub fn from_code(code: u32) -> (info: Option<CGImagePixelFormatInfo>)
        ensures
            info == Self::spec_from_code(code as int),
    {
        if code == kCGImagePixelFormatMask {
            Some(CGImagePixelFormatInfo::PixelFormatMask)
        } else if code == kCGImagePixelFormatPacked {
            Some(CGImagePixelFormatInfo::PixelFormatPacked)
        } else if code == kCGImagePixelFormatRGB555 {
            Some(CGImagePixelFormatInfo::PixelFormatRGB555)
        } else if code == kCGImagePixelFormatRGB565 {
            Some(CGImagePixelFormatInfo::PixelFormatRGB565)
        } else if code == kCGImagePixelFormatRGB101010 {
            Some(CGImagePixelFormatInfo::PixelFormatRGB101010)
        } else if code == kCGImagePixelFormatRGBCIF10 {
            Some(CGImagePixelFormatInfo::PixelFormatRGBCIF10)
        } else {
            None
        }
    }

    /// Every pixel format is found again from its own code.
    pub proof fn lemma_code_round_trip(self)
        ensures
            Self::spec_from_code(self.spec_code()) == Some(self),
    {
    }

    /// A code names at most one pixel format: the one whose code it is.
    pub proof fn lemma_from_code_sound(code: int)
        ensures
            match Self::spec_from_code(code) {
                Some(info) => info.spec_code() == code,
                None => forall|info: CGImagePixelFormatInfo| info.spec_code() != code,
            },
    {
    }
}

/// Whether a list of masking colours fits an image whose colour space has
/// `number_of_components` components: it has to give a lower and an upper
/// bound for each, so twice as many numbers.
pub fn masking_colors_fit(components: usize, number_of_components: usize) -> (fit: bool)
    ensures
        fit == (components == 2 * number_of_components),
{
    components % 2 == 0 && components / 2 == number_of_components
}

} // verus!
