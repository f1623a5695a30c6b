use core_graphics2::bitmap_context::{
    bitmap_byte_count, bitmap_data_suffices, bitmap_layout, BitmapData,
};
use core_graphics2::color_space::color_table_buffer;
use core_graphics2::context::glyph_position_count;
use core_graphics2::error::CGError;
use core_graphics2::event_types::{CGEventTapLocation, CGEventTapOptions};
use core_graphics2::font::{
    glyph_query_outcome, glyph_results_fit, kCGFontIndexInvalid, kCGFontIndexMax, kCGGlyphMax,
};
use core_graphics2::base::CGFloat;
use core_graphics2::geometry::{CGPoint, CGRect};
use core_graphics2::image::{
    byte_order_16_host, byte_order_32_host, kCGImageByteOrder16Big, kCGImageByteOrder16Little,
    kCGImageByteOrder32Big, kCGImageByteOrder32Little, kCGImageByteOrderMask,
    kCGImagePixelFormatRGB565, masking_colors_fit,
};
use core_graphics2::path::{is_rect, CGPathElement, CGPathElementRef, CGPathElementType};
use core_graphics2::window_level::{
    kCGBaseWindowLevel, kCGCursorWindowLevel, kCGDesktopIconWindowLevel, kCGDesktopWindowLevel,
    kCGMaximumWindowLevel, kCGMinimumWindowLevel,
};

struct Pixels {
    width: usize,
    height: usize,
    bytes_per_row: usize,
}

impl BitmapData for Pixels {
    fn width(&self) -> usize {
        self.width
    }

    fn height(&self) -> usize {
        self.height
    }

    fn bytes_per_row(&self) -> usize {
        self.bytes_per_row
    }
}

fn point(x: f64, y: f64) -> CGPoint {
    CGPoint::new(CGFloat::from_bits(x.to_bits()), CGFloat::from_bits(y.to_bits()))
}

#[test]
fn success_is_ok_and_every_other_status_is_the_error() {
    assert_eq!(CGError::Success.into_result(), Ok(()));
    assert_eq!(CGError::Failure.into_result(), Err(CGError::Failure));
    assert_eq!(CGError::IllegalArgument.into_result(), Err(CGError::IllegalArgument));
    assert_eq!(CGError::NoneAvailable.into_result(), Err(CGError::NoneAvailable));
    assert!(CGError::Success.is_success());
    assert!(!CGError::RangeCheck.is_success());
}

#[test]
fn value_comes_with_success_only() {
    assert_eq!(CGError::Success.into_result_with(42u32), Ok(42));
    assert_eq!(CGError::CannotComplete.into_result_with(42u32), Err(CGError::CannotComplete));
}

#[test]
fn native_status_codes_are_read_without_loss_of_failure() {
    assert_eq!(CGError::from_native(0), CGError::Success);
    assert_eq!(CGError::from_native(1000), CGError::Failure);
    assert_eq!(CGError::from_native(1004), CGError::CannotComplete);
    assert_eq!(CGError::from_native(1011), CGError::NoneAvailable);
    // Codes without a name are failures too.
    assert_eq!(CGError::from_native(1005), CGError::Failure);
    assert_eq!(CGError::from_native(-1), CGError::Failure);
    assert_eq!(CGError::from_native(i32::MAX), CGError::Failure);
}

#[test]
fn bitmap_layout_reads_the_three_numbers() {
    let pixels = Pixels { width: 640, height: 480, bytes_per_row: 2560 };
    assert_eq!(bitmap_layout(&pixels), (640, 480, 2560));
}

#[test]
fn bitmap_byte_count_is_rows_times_bytes_per_row() {
    assert_eq!(bitmap_byte_count(480, 2560), Some(1_228_800));
    assert_eq!(bitmap_byte_count(0, 2560), Some(0));
    assert_eq!(bitmap_byte_count(7, 0), Some(0));
    assert_eq!(bitmap_byte_count(usize::MAX, 1), Some(usize::MAX));
    assert_eq!(bitmap_byte_count(usize::MAX, 2), None);
    assert_eq!(bitmap_byte_count(usize::MAX / 2 + 1, 2), None);
}

#[test]
fn bitmap_memory_must_hold_every_row() {
    assert!(bitmap_data_suffices(1_228_800, 480, 2560));
    assert!(bitmap_data_suffices(1_228_801, 480, 2560));
    assert!(!bitmap_data_suffices(1_228_799, 480, 2560));
    assert!(bitmap_data_suffices(0, 0, 2560));
    assert!(bitmap_data_suffices(0, 10, 0));
    assert!(!bitmap_data_suffices(0, 1, 1));
    // A bitmap larger than the address space fits nowhere.
    assert!(!bitmap_data_suffices(usize::MAX, usize::MAX, 2));
}

#[test]
fn masking_colors_come_in_pairs_per_component() {
    assert!(masking_colors_fit(6, 3));
    assert!(masking_colors_fit(8, 4));
    assert!(masking_colors_fit(0, 0));
    assert!(!masking_colors_fit(5, 3));
    assert!(!masking_colors_fit(7, 3));
    assert!(!masking_colors_fit(3, 3));
    assert!(!masking_colors_fit(6, 2));
    assert!(!masking_colors_fit(0, usize::MAX));
    assert!(!masking_colors_fit(usize::MAX, usize::MAX / 2));
    assert!(masking_colors_fit(usize::MAX - 1, usize::MAX / 2));
}

#[test]
fn host_byte_orders() {
    assert_eq!(byte_order_16_host(false), kCGImageByteOrder16Little);
    assert_eq!(byte_order_16_host(true), kCGImageByteOrder16Big);
    assert_eq!(byte_order_32_host(false), kCGImageByteOrder32Little);
    assert_eq!(byte_order_32_host(true), kCGImageByteOrder32Big);
    assert_eq!(kCGImageByteOrder16Little, 1 << 12);
    assert_eq!(kCGImageByteOrder32Big, 4 << 12);
    assert_eq!(kCGImageByteOrderMask, 0x7000);
    assert_eq!(kCGImagePixelFormatRGB565, 2 << 16);
}

#[test]
fn color_table_buffer_is_absent_for_an_empty_table() {
    assert_eq!(color_table_buffer(0), None);
    assert_eq!(color_table_buffer(1), Some(vec![0]));
    assert_eq!(color_table_buffer(768), Some(vec![0; 768]));
}

#[test]
fn glyphs_are_drawn_as_far_as_positions_go() {
    assert_eq!(glyph_position_count(3, 5), 3);
    assert_eq!(glyph_position_count(5, 3), 3);
    assert_eq!(glyph_position_count(4, 4), 4);
    assert_eq!(glyph_position_count(0, 9), 0);
}

#[test]
fn glyph_queries_need_room_for_every_result() {
    assert!(glyph_results_fit(3, 3));
    assert!(glyph_results_fit(0, 0));
    assert!(glyph_results_fit(2, 10));
    assert!(!glyph_results_fit(4, 3));
    assert!(glyph_query_outcome(3, 3, true));
    assert!(!glyph_query_outcome(3, 3, false));
    assert!(!glyph_query_outcome(4, 3, true));
    assert!(!glyph_query_outcome(4, 3, false));
}

#[test]
fn font_index_limits() {
    assert_eq!(kCGFontIndexMax, u16::MAX - 1);
    assert_eq!(kCGFontIndexInvalid, u16::MAX);
    assert_eq!(kCGGlyphMax, kCGFontIndexMax);
}

#[test]
fn path_element_point_counts() {
    assert_eq!(CGPathElementType::MoveToPoint.point_count(), 1);
    assert_eq!(CGPathElementType::AddLineToPoint.point_count(), 1);
    assert_eq!(CGPathElementType::AddQuadCurveToPoint.point_count(), 2);
    assert_eq!(CGPathElementType::AddCurveToPoint.point_count(), 3);
    assert_eq!(CGPathElementType::CloseSubpath.point_count(), 0);
}

#[test]
fn path_element_takes_exactly_the_points_of_its_type() {
    let curve = CGPathElement::new(
        CGPathElementType::AddQuadCurveToPoint,
        vec![point(1.0, 2.0), point(3.0, 4.0)],
    )
    .expect("an element");
    assert_eq!(curve.element_type(), CGPathElementType::AddQuadCurveToPoint);
    assert_eq!(curve.points().len(), 2);
    assert_eq!(f64::from_bits(curve.points()[1].x.to_bits()), 3.0);

    let close = CGPathElement::new(CGPathElementType::CloseSubpath, Vec::new()).expect("an element");
    assert!(close.points().is_empty());

    assert!(CGPathElement::new(CGPathElementType::MoveToPoint, Vec::new()).is_none());
    assert!(CGPathElement::new(
        CGPathElementType::MoveToPoint,
        vec![point(0.0, 0.0), point(1.0, 1.0)]
    )
    .is_none());
    assert!(CGPathElement::new(CGPathElementType::CloseSubpath, vec![point(0.0, 0.0)]).is_none());
}

#[test]
fn path_element_ref_refers_to_its_element() {
    let element = CGPathElement::new(CGPathElementType::AddLineToPoint, vec![point(5.0, 6.0)])
        .expect("an element");
    let element_ref = CGPathElementRef::new(element);
    assert_eq!(element_ref.element().element_type(), CGPathElementType::AddLineToPoint);
    assert_eq!(f64::from_bits(element_ref.element().points()[0].y.to_bits()), 6.0);
}

#[test]
fn path_is_a_rect_if_the_native_framework_says_so() {
    let rect = CGRect::zero();
    assert!(is_rect(false, rect).is_none());
    assert!(is_rect(true, rect).is_some());
}

#[test]
fn tap_defaults() {
    assert_eq!(CGEventTapLocation::default(), CGEventTapLocation::HIDEventTap);
    assert_eq!(CGEventTapOptions::default(), CGEventTapOptions::Default);
}

#[test]
fn window_level_limits() {
    assert_eq!(kCGBaseWindowLevel, i32::MIN);
    assert_eq!(kCGMinimumWindowLevel, i32::MIN + 5);
    assert_eq!(kCGMaximumWindowLevel, i32::MAX - 16);
    assert_eq!(kCGDesktopWindowLevel, i32::MIN + 25);
    assert_eq!(kCGDesktopIconWindowLevel, i32::MIN + 26);
    assert_eq!(kCGCursorWindowLevel, i32::MAX - 17);
}
