//! Bitmap contexts: drawing into memory that the client provides.

use vstd::prelude::*;

verus! {

/// Pixel memory that a client lends to a bitmap context.
pub trait BitmapData {
    /// The pixels in one row.
    fn width(&self) -> usize;

    /// The rows.
    fn height(&self) -> usize;

    /// The bytes from the start of one row to the start of the next.
    fn bytes_per_row(&self) -> usize;
}

/// The width, the height and the bytes per row of lent pixel memory, as a
/// bitmap context is created with them.
pub fn bitmap_layout<B: BitmapData + ?Sized>(bitmap_data: &B) -> (layout: (usize, usize, usize))
    ensures
        call_ensures(B::width, (bitmap_data,), layout.0),
        call_ensures(B::height, (bitmap_data,), layout.1),
        call_ensures(B::bytes_per_row, (bitmap_data,), layout.2),
{
    (bitmap_data.width(), bitmap_data.height(), bitmap_data.bytes_per_row())
}

/// The bytes that a bitmap of `height` rows takes, or nothing where that
/// number is beyond what can be addressed.
pub fn bitmap_byte_count(height: usize, bytes_per_row: usize) -> (count: Option<usize>)
    ensures
        count == if height * bytes_per_row <= usize::MAX {
            Some((height * bytes_per_row) as usize)
        } else {
            None
        },
{
    height.checked_mul(bytes_per_row)
}

/// Whether memory of `available` bytes holds a bitmap of `height` rows.
/// The native framework is never given less.
pub fn bitmap_data_suffices(available: usize, height: usize, bytes_per_row: usize) -> (enough: bool)
    ensures
        enough == (available >= height * bytes_per_row),
{
    match bitmap_byte_count(height, bytes_per_row) {
        Some(needed) => available >= needed,
        None => false,
    }
}

} // verus!
