//! Displays: their ids, the lists of them that the native framework fills
//! in, and the pixel encodings of their modes.

use vstd::prelude::*;
use vstd::slice::slice_index_get;
use vstd::utf8::{encode_utf8, encode_utf8_decode_utf8};

use crate::error::CGError;

verus! {

pub type CGDirectDisplayID = u32;

pub type CGOpenGLDisplayMask = u32;

pub const kCGNullDirectDisplay: CGDirectDisplayID = 0;

// The pixel encodings of display modes, one character per bit.
pub const IO1BitIndexedPixels: &'static str = "P";

pub const IO2BitIndexedPixels: &'static str = "PP";

pub const IO4BitIndexedPixels: &'static str = "PPPP";

pub const IO8BitIndexedPixels: &'static str = "PPPPPPPP";

pub const IO16BitDirectPixels: &'static str = "-RRRRRGGGGGBBBBB";

pub const IO32BitDirectPixels: &'static str = "--------RRRRRRRRGGGGGGGGBBBBBBBB";

pub const kIO30BitDirectPixels: &'static str = "--RRRRRRRRRRGGGGGGGGGGBBBBBBBBBB";

pub const kIO64BitDirectPixels: &'static str = "-16R16G16B16";

pub const kIO16BitFloatPixels: &'static str = "-16FR16FG16FB16";

pub const kIO32BitFloatPixels: &'static str = "-32FR32FG32FB32";

pub const IOYUV422Pixels: &'static str = "Y4U2V2";

pub const IO8BitOverlayPixels: &'static str = "O8";

/// A display, known by its id.
#[derive(Clone, Copy, Debug, PartialEq, Eq, Structural)]
pub struct CGDisplay {
    pub id: CGDirectDisplayID,
}

impl CGDisplay {
    pub fn new(id: CGDirectDisplayID) -> (display: CGDisplay)
        ensures
            display.id == id,
    {
        CGDisplay { id }
    }
}

/// The displays with the given ids, in their order.
pub open spec fn displays_of(ids: Seq<CGDirectDisplayID>) -> Seq<CGDisplay> {
    Seq::new(ids.len(), |i: int| CGDisplay { id: ids[i] })
}

/// The first `count` of `ids`, or all of them if there are fewer.
pub open spec fn first_ids(ids: Seq<CGDirectDisplayID>, count: int) -> Seq<CGDirectDisplayID> {
    if count < ids.len() {
        ids.subrange(0, count)
    } else {
        ids
    }
}

/// Cuts a buffer of display ids down to the `count` that the native
/// framework filled in, and gives the displays they name.
pub fn get_displays_from_ids(ids: &mut Vec<CGDirectDisplayID>, count: usize) -> (displays: Option<
    Vec<CGDisplay>,
>)
    ensures
        final(ids)@ == first_ids(old(ids)@, count as int),
        displays matches Some(found) && found@ == displays_of(final(ids)@),
{
    ids.truncate(count);
    let mut found: Vec<CGDisplay> = Vec::new();
    let mut i: usize = 0;
    while i < ids.len()
        invariant
            i <= ids.len(),
            found@ == displays_of(ids@.subrange(0, i as int)),
        decreases ids.len() - i,
    {
        found.push(CGDisplay::new(ids[i]));
        i = i + 1;
        assert(found@ =~= displays_of(ids@.subrange(0, i as int)));
    }
    assert(ids@.subrange(0, i as int) =~= ids@);
    Some(found)
}

/// The capacity to tell the native framework for a list of up to
/// `max_displays` ids: the framework takes a 32-bit count, so the low 32
/// bits of the number.
pub fn display_list_capacity(max_displays: usize) -> (capacity: u32)
    ensures
        capacity as int == (max_displays as int) % 0x1_0000_0000,
{
    let wide: u64 = max_displays as u64;
    assert(wide as u32 == wide % 0x1_0000_0000) by (bit_vector);
    #[verifier::truncate]
    (wide as u32)
}

/// A buffer for the native framework to write up to `max_displays` ids
/// into, filled with the null display.
pub fn display_list_buffer(max_displays: usize) -> (ids: Vec<CGDirectDisplayID>)
    ensures
        ids@.len() == max_displays,
        forall|i: int| 0 <= i < ids@.len() ==> ids@[i] == kCGNullDirectDisplay,
{
    let mut ids: Vec<CGDirectDisplayID> = Vec::new();
    let mut i: usize = 0;
    while i < max_displays
        invariant
            i <= max_displays,
            ids@.len() == i,
            forall|j: int| 0 <= j < ids@.len() ==> ids@[j] == kCGNullDirectDisplay,
        decreases max_displays - i,
    {
        ids.push(kCGNullDirectDisplay);
        i = i + 1;
    }
    ids
}

/// What a native display list query came to: nothing if the framework
/// reported anything but success, and else the displays named by the first
/// `count` ids of the buffer.
pub open spec fn listed_displays(status: CGError, ids: Seq<CGDirectDisplayID>, count: u32) -> Option<
    Seq<CGDisplay>,
> {
    if status == CGError::Success {
        Some(displays_of(first_ids(ids, count as int)))
    } else {
        None
    }
}

/// Reads the outcome of a native display list query: `status` is what the
/// framework returned, `ids` the buffer it wrote to and `count` the number
/// of ids it says it wrote.
pub fn displays_from_list(status: CGError, ids: &mut Vec<CGDirectDisplayID>, count: u32) -> (displays:
    Option<Vec<CGDisplay>>)
    ensures
        match displays {
            Some(found) => listed_displays(status, old(ids)@, count) == Some(found@),
            None => listed_displays(status, old(ids)@, count) is None,
        },
        status == CGError::Success ==> final(ids)@ == first_ids(old(ids)@, count as int),
        status != CGError::Success ==> final(ids)@ == old(ids)@,
{
    if status == CGError::Success {
        get_displays_from_ids(ids, count as usize)
    } else {
        None
    }
}

/// The bits that one pixel takes in a mode with the given pixel encoding:
/// zero for an encoding that is not known.
pub open spec fn spec_bit_depth(encoding: Seq<char>) -> usize {
    if encoding == kIO32BitFloatPixels@ {
        96
    } else if encoding == kIO64BitDirectPixels@ {
        64
    } else if encoding == kIO16BitFloatPixels@ {
        48
    } else if encoding == kIO30BitDirectPixels@ {
        30
    } else if encoding == IO32BitDirectPixels@ {
        32
    } else if encoding == IO16BitDirectPixels@ {
        16
    } else if encoding == IOYUV422Pixels@ {
        16
    } else if encoding == IO8BitOverlayPixels@ {
        8
    } else if encoding == IO8BitIndexedPixels@ {
        8
    } else if encoding == IO4BitIndexedPixels@ {
        4
    } else if encoding == IO2BitIndexedPixels@ {
        2
    } else if encoding == IO1BitIndexedPixels@ {
        1
    } else {
        0
    }
}

/// Whether two strings hold the same characters.
fn same_text(left: &str, right: &str) -> (same: bool)
    ensures
        same == (left@ == right@),
{
    let a = left.as_bytes();
    let b = right.as_bytes();
    proof {
        // A string is found again from its bytes, so equal bytes are equal strings.
        encode_utf8_decode_utf8(left@);
        encode_utf8_decode_utf8(right@);
    }
    if a.len() != b.len() {
        return false;
    }
    let mut i: usize = 0;
    while i < a.len()
        invariant
            i <= a.len(),
            a@.len() == b@.len(),
            a@ == encode_utf8(left@),
            b@ == encode_utf8(right@),
            a@.subrange(0, i as int) == b@.subrange(0, i as int),
        decreases a.len() - i,
    {
        if *slice_index_get(a, i) != *slice_index_get(b, i) {
            assert(a@[i as int] != b@[i as int]);
            return false;
        }
        i = i + 1;
        assert(a@.subrange(0, i as int) =~= a@.subrange(0, i - 1).push(a@[i - 1]));
        assert(b@.subrange(0, i as int) =~= b@.subrange(0, i - 1).push(b@[i - 1]));
    }
    assert(a@ =~= a@.subrange(0, i as int));
    assert(b@ =~= b@.subrange(0, i as int));
    true
}

/// The bit depth of a display mode, from the pixel encoding that the native
/// framework gave for it: zero if it gave none.
pub fn bit_depth(pixel_encoding: Option<&str>) -> (depth: usize)
    ensures
        depth == match pixel_encoding {
            Some(encoding) => spec_bit_depth(encoding@),
            None => 0,
        },
{
    match pixel_encoding {
        None => 0,
        Some(encoding) => {
            if same_text(encoding, kIO32BitFloatPixels) {
                96
            } else if same_text(encoding, kIO64BitDirectPixels) {
                64
            } else if same_text(encoding, kIO16BitFloatPixels) {
                48
            } else if same_text(encoding, kIO30BitDirectPixels) {
                30
            } else if same_text(encoding, IO32BitDirectPixels) {
                32
            } else if same_text(encoding, IO16BitDirectPixels) {
                16
            } else if same_text(encoding, IOYUV422Pixels) {
                16
            } else if same_text(encoding, IO8BitOverlayPixels) {
                8
            } else if same_text(encoding, IO8BitIndexedPixels) {
                8
            } else if same_text(encoding, IO4BitIndexedPixels) {
                4
            } else if same_text(encoding, IO2BitIndexedPixels) {
                2
            } else if same_text(encoding, IO1BitIndexedPixels) {
                1
            } else {
                0
            }
        },
    }
}

} // verus!
